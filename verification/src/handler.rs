//! The request handler's verified core: the traversal guard, the path
//! resolver, and response construction from the outcome of the file read.

use vstd::prelude::*;
use crate::config::{Config, ConfigModel};
use crate::mime::{guess_mime, mime_of};
use crate::response::{
    bad_request, bad_request_model, not_found, not_found_model, Response, ResponseModel,
};

verus! {

/// Whether the path holds the substring `..` anywhere. This is the whole
/// traversal guard: a raw substring check, with no canonicalization of `.`
/// segments, duplicate slashes or percent-encoding.
pub open spec fn contains_dotdot(s: Seq<char>) -> bool {
    exists|i: int| 0 <= i && i + 2 <= s.len() && #[trigger] s[i] == '.' && s[i + 1] == '.'
}

/// The logical path a request is served from: the configured index file
/// where the request path is an index alias, the request path itself
/// otherwise. The content type is guessed from this path.
pub open spec fn logical_path(p: Seq<char>, c: ConfigModel) -> Seq<char> {
    if c.aliases.contains(p) {
        c.index
    } else {
        p
    }
}

/// The filesystem path the file is read from: the root directory, a `/`,
/// and the logical path, by plain concatenation (a leading `/` on the
/// request path is kept, so a doubled slash is possible and deliberate).
pub open spec fn file_path(p: Seq<char>, c: ConfigModel) -> Seq<char> {
    c.dir + seq!['/'] + logical_path(p, c)
}

/// The response owed to one request: `read` is the outcome of reading
/// `file_path(p, c)` from disk, `None` standing for any read failure.
/// A path holding `..` is rejected with 400 before anything is read; a
/// failed read gives 404; otherwise the file's bytes are served with
/// status 200, their exact length, and the content type of the logical
/// path.
pub open spec fn spec_serve(p: Seq<char>, c: ConfigModel, read: Option<Seq<u8>>) -> ResponseModel {
    if contains_dotdot(p) {
        bad_request_model()
    } else {
        match read {
            Option::Some(bytes) => ResponseModel {
                status: 200,
                content_type: Option::Some(mime_of(logical_path(p, c))),
                content_length: Option::Some(bytes.len() as int),
                body: bytes,
            },
            Option::None => not_found_model(),
        }
    }
}

/// The traversal guard: whether `path` holds `..` anywhere.
pub fn has_dotdot(path: &str) -> (r: bool)
    ensures
        r == contains_dotdot(path@),
{
    let n: usize = path.unicode_len();
    let mut k: usize = 0;
    while n > 0 && k < n - 1
        invariant
            n == path@.len(),
            k <= n,
            forall|j: int| 0 <= j && j < k ==> !(#[trigger] path@[j] == '.' && path@[j + 1] == '.'),
        decreases n - k,
    {
        if path.get_char(k) == '.' && path.get_char(k + 1) == '.' {
            return true;
        }
        k += 1;
    }
    false
}

/// What the path resolver decides for one request path: rejection by the
/// traversal guard, or the logical path together with the filesystem path
/// to read.
pub enum Resolution {
    Rejected,
    File { logical: String, fs_path: String },
}

/// The path resolver: pure, no I/O. Rejects exactly the paths holding
/// `..`; otherwise substitutes the index file for an alias and joins the
/// result onto the root directory.
pub fn resolve_path(path: &str, config: &Config) -> (r: Resolution)
    ensures
        r is Rejected <==> contains_dotdot(path@),
        r matches Resolution::File { logical, fs_path } ==> logical@ == logical_path(
            path@,
            config@,
        ) && fs_path@ == file_path(path@, config@),
{
    proof {
        reveal_strlit("/");
        assert("/"@ =~= seq!['/']);
    }
    if has_dotdot(path) {
        return Resolution::Rejected;
    }
    let owned = path.to_owned();
    let logical: String = if config.is_alias(&owned) {
        config.index.clone()
    } else {
        owned
    };
    let mut fs_path = config.dir.clone();
    fs_path.append("/");
    fs_path.append(logical.as_str());
    Resolution::File { logical, fs_path }
}

/// Builds the 200 response for a file that was read: its bytes, their
/// exact length, and the content type guessed from the logical path.
pub fn ok_response(logical: &String, body: Vec<u8>) -> (r: Response)
    ensures
        r@ == (ResponseModel {
            status: 200,
            content_type: Option::Some(mime_of(logical@)),
            content_length: Option::Some(body@.len() as int),
            body: body@,
        }),
{
    let mime = guess_mime(logical.as_str());
    let length: usize = body.len();
    Response {
        status: 200,
        content_type: Option::Some(mime),
        content_length: Option::Some(length),
        body,
    }
}

/// The request handler's computation: one request path, the configuration,
/// and the outcome of reading the resolved file (`None` for any failure,
/// and for a rejected path, where nothing is read). Infallible: every
/// failure is a well-formed HTTP response.
pub fn serve_file(path: &str, config: &Config, file: Option<Vec<u8>>) -> (r: Response)
    ensures
        r@ == spec_serve(path@, config@, file.deep_view()),
{
    match resolve_path(path, config) {
        Resolution::Rejected => bad_request(),
        Resolution::File { logical, fs_path: _ } => match file {
            Option::Some(bytes) => ok_response(&logical, bytes),
            Option::None => not_found(),
        },
    }
}

} // verus!
