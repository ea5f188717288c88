//! The guarantees the server gives, stated over the handler's model and
//! proved once for every request path, configuration and read outcome.

use vstd::prelude::*;
use crate::config::ConfigModel;
use crate::handler::{contains_dotdot, file_path, logical_path, spec_serve};
use crate::response::{bad_request_model, not_found_model, ResponseModel};

verus! {

/// Any request path holding `..` — as prefix, suffix, in the middle, or
/// several times over — is answered 400 with the fixed plain-text body,
/// whatever the configuration and whatever could have been read.
pub proof fn lemma_traversal_rejected(p: Seq<char>, c: ConfigModel, read: Option<Seq<u8>>)
    requires
        contains_dotdot(p),
    ensures
        spec_serve(p, c, read) == bad_request_model(),
{
}

/// A request path in the alias set, where the guard does not reject it, is
/// read from exactly the configured index file's own path, and the bytes
/// read are served unchanged: the content is byte-identical to reading the
/// index file directly. An alias that itself holds `..` is rejected with
/// 400 instead, so it stands outside this law.
pub proof fn lemma_alias_serves_index(p: Seq<char>, c: ConfigModel, bytes: Seq<u8>)
    requires
        c.aliases.contains(p),
        !contains_dotdot(p),
    ensures
        file_path(p, c) == c.dir + seq!['/'] + c.index,
        spec_serve(p, c, Some(bytes)).status == 200,
        spec_serve(p, c, Some(bytes)).body == bytes,
{
}

/// A path that is no alias and holds no `..` is read from the root
/// directory joined with the path itself; when that read succeeds, the
/// response is 200, its body is byte-identical to the file, and
/// `Content-Length` is the file's exact byte count.
pub proof fn lemma_file_served(p: Seq<char>, c: ConfigModel, bytes: Seq<u8>)
    requires
        !c.aliases.contains(p),
        !contains_dotdot(p),
    ensures
        file_path(p, c) == c.dir + seq!['/'] + p,
        spec_serve(p, c, Some(bytes)).status == 200,
        spec_serve(p, c, Some(bytes)).body == bytes,
        spec_serve(p, c, Some(bytes)).content_length == Some(bytes.len() as int),
{
}

/// Where nothing could be read — no such file, or any other read failure,
/// none distinguished — and the path holds no `..`, the response is 404
/// with the fixed plain-text body.
pub proof fn lemma_missing_file(p: Seq<char>, c: ConfigModel)
    requires
        !contains_dotdot(p),
    ensures
        spec_serve(p, c, None) == not_found_model(),
{
}

/// The content type is derived from the logical path alone: two successful
/// requests whose logical paths agree carry the same `Content-Type`,
/// whatever bytes were read for each.
pub proof fn lemma_content_type_from_logical_path(
    p1: Seq<char>,
    c1: ConfigModel,
    b1: Seq<u8>,
    p2: Seq<char>,
    c2: ConfigModel,
    b2: Seq<u8>,
)
    requires
        !contains_dotdot(p1),
        !contains_dotdot(p2),
        logical_path(p1, c1) == logical_path(p2, c2),
    ensures
        spec_serve(p1, c1, Some(b1)).content_type == spec_serve(p2, c2, Some(b2)).content_type,
{
}

/// Serving is deterministic: against an unchanged filesystem — the same
/// read outcome — the same request yields a byte-identical response.
pub proof fn lemma_idempotent(
    p: Seq<char>,
    c: ConfigModel,
    read: Option<Seq<u8>>,
    r1: ResponseModel,
    r2: ResponseModel,
)
    requires
        r1 == spec_serve(p, c, read),
        r2 == spec_serve(p, c, read),
    ensures
        r1 == r2,
{
}

} // verus!
