//! The response type the server hands back for one request, with its
//! mathematical model and the two fixed error responses.

use vstd::prelude::*;
use vstd::string::StringSliceAdditionalSpecFns;

verus! {

/// One HTTP response, ready for the transport layer: the status code, the
/// values of the `Content-Type` and `Content-Length` headers where they are
/// set, and the body bytes.
pub struct Response {
    pub status: u16,
    pub content_type: Option<String>,
    pub content_length: Option<usize>,
    pub body: Vec<u8>,
}

/// The mathematical model of a [`Response`].
#[verifier::ext_equal]
pub ghost struct ResponseModel {
    pub status: int,
    pub content_type: Option<Seq<char>>,
    pub content_length: Option<int>,
    pub body: Seq<u8>,
}

impl View for Response {
    type V = ResponseModel;

    open spec fn view(&self) -> ResponseModel {
        ResponseModel {
            status: self.status as int,
            content_type: match self.content_type {
                Option::Some(s) => Option::Some(s@),
                Option::None => Option::None,
            },
            content_length: match self.content_length {
                Option::Some(n) => Option::Some(n as int),
                Option::None => Option::None,
            },
            body: self.body@,
        }
    }
}

/// The response to a request whose path holds `..`: status 400, a plain-text
/// body, and no extra headers.
pub open spec fn bad_request_model() -> ResponseModel {
    ResponseModel {
        status: 400,
        content_type: Option::None,
        content_length: Option::None,
        body: "400 Bad Request".spec_bytes(),
    }
}

/// The response to a request whose file could not be read: status 404, a
/// plain-text body, and no extra headers.
pub open spec fn not_found_model() -> ResponseModel {
    ResponseModel {
        status: 404,
        content_type: Option::None,
        content_length: Option::None,
        body: "404 Not Found".spec_bytes(),
    }
}

/// Builds the fixed 400 response.
pub fn bad_request() -> (r: Response)
    ensures
        r@ == bad_request_model(),
{
    Response {
        status: 400,
        content_type: Option::None,
        content_length: Option::None,
        body: "400 Bad Request".as_bytes_vec(),
    }
}

/// Builds the fixed 404 response.
pub fn not_found() -> (r: Response)
    ensures
        r@ == not_found_model(),
{
    Response {
        status: 404,
        content_type: Option::None,
        content_length: Option::None,
        body: "404 Not Found".as_bytes_vec(),
    }
}

} // verus!
