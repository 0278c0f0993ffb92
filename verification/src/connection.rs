//! Per-connection decisions: which response a terminal read error owes,
//! whether a request asks for the connection to close, and the `Connection`
//! header set just before rendering. The socket loop that acts on these
//! decisions lives with the embedding binary.

use crate::http::{
    base_headers, header_lookup, response_matches, set_header_spec, HeaderView, Request, Response,
    Status,
};
use crate::reader::ReadError;
use vstd::prelude::*;
use vstd::utf8::encode_utf8;

verus! {

/// The response owed for a terminal read error, and whether the connection
/// closes afterwards. A peer that closed gets no response. A timeout gets
/// exactly one 408 response and the connection closes. Malformed input and
/// a header flood get 400 and also close the connection: after either, the
/// stream is not safely resumable.
pub fn read_error_response(err: &ReadError) -> (r: (Option<Response>, bool))
    ensures
        *err == ReadError::ConnectionClosed ==> r.0 is None && r.1 == true,
        *err == ReadError::Timeout ==> (r.0 matches Some(resp) && response_matches(
            resp,
            Status::RequestTimeout,
            base_headers(),
            None,
            false,
        ) && r.1 == true),
        *err == ReadError::BadSyntax || *err == ReadError::TooManyHeaders ==> (r.0 matches Some(
            resp,
        ) && response_matches(resp, Status::BadRequest, base_headers(), None, false) && r.1
            == true),
{
    match err {
        ReadError::ConnectionClosed => (None, true),
        ReadError::Timeout => (Some(Response::new(Status::RequestTimeout)), true),
        ReadError::BadSyntax | ReadError::TooManyHeaders => (
            Some(Response::new(Status::BadRequest)),
            true,
        ),
    }
}

/// The request-level close signal: a header named `close` whose value is
/// the bytes of `close`.
pub open spec fn close_requested(headers: Seq<HeaderView>) -> bool {
    header_lookup(headers, "close"@) matches Some(v) && v == encode_utf8("close"@)
}

fn bytes_equal(a: &[u8], b: &[u8]) -> (r: bool)
    ensures
        r == (a@ == b@),
{
    if a.len() != b.len() {
        return false;
    }
    let mut i: usize = 0;
    while i < a.len()
        invariant
            i <= a@.len(),
            a@.len() == b@.len(),
            forall|j: int| 0 <= j < i ==> a@[j] == b@[j],
        decreases a@.len() - i,
    {
        if a[i] != b[i] {
            return false;
        }
        i += 1;
    }
    proof {
        assert(a@ =~= b@);
    }
    true
}

/// Whether the request asks for the connection to close after the response.
pub fn wants_close(request: &Request) -> (r: bool)
    ensures
        r == close_requested(request.headers.deep_view()),
{
    match request.header_value(&"close".to_owned()) {
        None => false,
        Some(v) => bytes_equal(v.as_slice(), "close".as_bytes()),
    }
}

/// Sets the `Connection` header from the computed close decision,
/// immediately before the response is rendered.
pub fn write_connection_header(close: bool, response: &mut Response)
    ensures
        final(response).status == old(response).status,
        final(response).content == old(response).content,
        final(response).headers.deep_view() == set_header_spec(
            old(response).headers.deep_view(),
            "Connection"@,
            encode_utf8(
                if close {
                    "close"@
                } else {
                    "keep-alive"@
                },
            ),
        ),
{
    let value: &str = if close {
        "close"
    } else {
        "keep-alive"
    };
    response.set_header("Connection", vstd::slice::slice_to_vec(value.as_bytes()));
}

} // verus!
