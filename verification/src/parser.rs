//! The wire parser: one buffer of received bytes in, one structured request
//! (or a classified failure) out. The low-level tokenization of the bytes is
//! supplied by the `httparse` crate; everything this library states about a
//! buffer's parse goes through the name [`wire_parse`].

use crate::http::{HeaderView, Request};
use vstd::prelude::*;

verus! {

/// How a parse attempt classifies a buffer once the header table is large
/// enough: a complete request head, not yet enough bytes, or a syntax error.
pub enum WireOutcome {
    Complete {
        method: Seq<char>,
        path: Seq<char>,
        version: u8,
        headers: Seq<HeaderView>,
        consumed: nat,
    },
    Incomplete,
    Malformed,
}

/// What parsing a buffer yields: the number of complete header lines its
/// prefix presents, and the outcome once the header table has room for all
/// of them.
pub struct WireParse {
    pub header_lines: nat,
    pub outcome: WireOutcome,
}

/// What `httparse` makes of a byte buffer. The parse is a pure function of
/// the bytes alone; a parse attempt with capacity for `c` headers reports
/// "too many headers" exactly when `header_lines > c`, and otherwise reports
/// the capacity-independent outcome.
pub uninterp spec fn wire_parse(buffer: Seq<u8>) -> WireParse;

/// A classified parse failure, as seen by the request reader.
#[derive(PartialEq, Eq, Structural, Debug)]
pub enum Error {
    Partial,
    TooManyHeaders,
    Syntax,
}

enum RawParse {
    Complete(String, String, u8, Vec<(String, Vec<u8>)>, usize),
    Partial,
    TooManyHeaders,
    Syntax,
}

/// Relies on `httparse::Request::parse`: with slots for `headers_size`
/// headers it returns `TooManyHeaders` exactly when the buffer holds more
/// complete header lines than slots; otherwise it completes with a
/// non-empty method and path, a version of 0 or 1, the header lines in
/// order, and the number of bytes consumed (at most the buffer length) —
/// or reports the buffer partial or malformed, independently of the
/// capacity.
#[verifier::external_body]
fn parse_buffer(headers_size: usize, buffer: &[u8]) -> (r: RawParse)
    ensures
        wire_parse(buffer@).header_lines > headers_size ==> r is TooManyHeaders,
        wire_parse(buffer@).header_lines <= headers_size ==> match wire_parse(buffer@).outcome {
            WireOutcome::Complete { method, path, version, headers, consumed } => {
                &&& r matches RawParse::Complete(m, p, v, h, s)
                &&& m@ == method
                &&& p@ == path
                &&& v == version
                &&& h.deep_view() == headers
                &&& s == consumed
                &&& 0 < method.len()
                &&& 0 < path.len()
                &&& version <= 1
                &&& consumed <= buffer@.len()
                &&& headers.len() == wire_parse(buffer@).header_lines
            },
            WireOutcome::Incomplete => r is Partial,
            WireOutcome::Malformed => r is Syntax,
        },
{
    let mut headers = vec![httparse::EMPTY_HEADER; headers_size];
    let mut req = httparse::Request::new(&mut headers);
    match req.parse(buffer) {
        Ok(httparse::Status::Complete(s)) => {
            let hs = req.headers.iter().map(|h| (h.name.to_owned(), h.value.to_vec())).collect();
            let (m, p, v) = (req.method.unwrap(), req.path.unwrap(), req.version.unwrap());
            RawParse::Complete(m.to_owned(), p.to_owned(), v, hs, s)
        },
        Ok(httparse::Status::Partial) => RawParse::Partial,
        Err(httparse::Error::TooManyHeaders) => RawParse::TooManyHeaders,
        Err(_) => RawParse::Syntax,
    }
}

/// Holds of a request that carries exactly the parts a complete parse of
/// the buffer produced.
pub open spec fn request_matches(
    r: Request,
    method: Seq<char>,
    path: Seq<char>,
    version: u8,
    headers: Seq<HeaderView>,
) -> bool {
    &&& r.method@ == method
    &&& r.path@ == path
    &&& r.version == version
    &&& r.headers.deep_view() == headers
}

/// One parse attempt with room for `headers_size` headers. On success the
/// second component is the number of bytes consumed by the request head.
pub fn try_parse(headers_size: usize, buffer: &[u8]) -> (r: Result<(Request, usize), Error>)
    ensures
        ({
            let wp = wire_parse(buffer@);
            &&& (wp.header_lines > headers_size ==> r matches Err(Error::TooManyHeaders))
            &&& (wp.header_lines <= headers_size ==> match wp.outcome {
                WireOutcome::Complete { method, path, version, headers, consumed } => {
                    &&& r matches Ok((req, used))
                    &&& request_matches(req, method, path, version, headers)
                    &&& used == consumed
                    &&& 0 < path.len()
                    &&& used <= buffer@.len()
                },
                WireOutcome::Incomplete => r matches Err(Error::Partial),
                WireOutcome::Malformed => r matches Err(Error::Syntax),
            })
        }),
{
    match parse_buffer(headers_size, buffer) {
        RawParse::Complete(method, path, version, headers, used) => Ok(
            (Request::new(method, path, version, headers), used),
        ),
        RawParse::Partial => Err(Error::Partial),
        RawParse::TooManyHeaders => Err(Error::TooManyHeaders),
        RawParse::Syntax => Err(Error::Syntax),
    }
}

} // verus!
