//! HTTP requests, responses and status codes, together with the rendering
//! of a response to its wire bytes.

use crate::utils::{dec_bytes, dec_digits};
use vstd::prelude::*;
use vstd::utf8::encode_utf8;

verus! {

/// A header as it appears in specifications: a name (characters) and a raw
/// byte value.
pub type HeaderView = (Seq<char>, Seq<u8>);

/// The response status codes the server produces.
#[derive(Clone, Copy, PartialEq, Eq, Structural, Debug)]
pub enum Status {
    Okay,
    Moved,
    BadRequest,
    Forbidden,
    NotFound,
    MethodNotAllowed,
    RequestTimeout,
    RequestURITooLong,
    InternalServerError,
    NotImplemented,
    HTTPVersionNotSupported,
}

/// The numeric code of each status.
pub open spec fn spec_code(s: Status) -> u16 {
    match s {
        Status::Okay => 200,
        Status::Moved => 301,
        Status::BadRequest => 400,
        Status::Forbidden => 403,
        Status::NotFound => 404,
        Status::MethodNotAllowed => 405,
        Status::RequestTimeout => 408,
        Status::RequestURITooLong => 415,
        Status::InternalServerError => 500,
        Status::NotImplemented => 501,
        Status::HTTPVersionNotSupported => 505,
    }
}

impl Status {
    /// The numeric code sent on the status line.
    pub fn code(&self) -> (c: u16)
        ensures
            c == spec_code(*self),
    {
        match self {
            Status::Okay => 200,
            Status::Moved => 301,
            Status::BadRequest => 400,
            Status::Forbidden => 403,
            Status::NotFound => 404,
            Status::MethodNotAllowed => 405,
            Status::RequestTimeout => 408,
            Status::RequestURITooLong => 415,
            Status::InternalServerError => 500,
            Status::NotImplemented => 501,
            Status::HTTPVersionNotSupported => 505,
        }
    }
}

/// The status line of a response with status `s`.
pub open spec fn spec_status_line(s: Status) -> Seq<char> {
    match s {
        Status::Okay => "HTTP/1.1 200"@,
        Status::Moved => "HTTP/1.1 301"@,
        Status::BadRequest => "HTTP/1.1 400"@,
        Status::Forbidden => "HTTP/1.1 403"@,
        Status::NotFound => "HTTP/1.1 404"@,
        Status::MethodNotAllowed => "HTTP/1.1 405"@,
        Status::RequestTimeout => "HTTP/1.1 408"@,
        Status::RequestURITooLong => "HTTP/1.1 415"@,
        Status::InternalServerError => "HTTP/1.1 500"@,
        Status::NotImplemented => "HTTP/1.1 501"@,
        Status::HTTPVersionNotSupported => "HTTP/1.1 505"@,
    }
}

/// The value of the last header named `name`, if any: on duplicates the
/// last value wins.
pub open spec fn header_lookup(headers: Seq<HeaderView>, name: Seq<char>) -> Option<Seq<u8>>
    decreases headers.len(),
{
    if headers.len() == 0 {
        None
    } else if headers.last().0 == name {
        Some(headers.last().1)
    } else {
        header_lookup(headers.drop_last(), name)
    }
}

/// One parsed HTTP request: method, raw request target, minor protocol
/// version, and the headers in the order they were received.
#[derive(Debug)]
pub struct Request {
    pub method: String,
    pub path: String,
    pub version: u8,
    pub headers: Vec<(String, Vec<u8>)>,
}

impl Request {
    /// Packs the parts handed back by the wire parser into a request.
    pub fn new(method: String, path: String, version: u8, headers: Vec<(String, Vec<u8>)>) -> (r:
        Request)
        ensures
            r.method == method,
            r.path == path,
            r.version == version,
            r.headers == headers,
    {
        Request { method, path, version, headers }
    }

    /// Looks `name` up in the headers; on duplicates the last value wins.
    pub fn header_value(&self, name: &String) -> (r: Option<&Vec<u8>>)
        ensures
            match r {
                Some(v) => header_lookup(self.headers.deep_view(), name@) == Some(v@),
                None => header_lookup(self.headers.deep_view(), name@) is None,
            },
    {
        let ghost hs = self.headers.deep_view();
        let mut i: usize = self.headers.len();
        proof {
            assert(hs.take(i as int) =~= hs);
        }
        while i > 0
            invariant
                i <= self.headers.len(),
                hs == self.headers.deep_view(),
                header_lookup(hs.take(i as int), name@) == header_lookup(hs, name@),
            decreases i,
        {
            i = i - 1;
            proof {
                assert(hs.take(i + 1).drop_last() =~= hs.take(i as int));
                assert(hs.take(i + 1).last() == hs[i as int]);
            }
            if self.headers[i].0 == *name {
                return Some(&self.headers[i].1);
            }
        }
        proof {
            assert(hs.take(0) =~= Seq::<HeaderView>::empty());
        }
        None
    }
}

/// Replaces the value of the first header named `name`, or appends the
/// header if no entry carries that name.
pub open spec fn set_header_spec(
    headers: Seq<HeaderView>,
    name: Seq<char>,
    value: Seq<u8>,
) -> Seq<HeaderView>
    decreases headers.len(),
{
    if headers.len() == 0 {
        seq![(name, value)]
    } else if headers[0].0 == name {
        seq![(name, value)] + headers.drop_first()
    } else {
        seq![headers[0]] + set_header_spec(headers.drop_first(), name, value)
    }
}

proof fn lemma_set_header_found(headers: Seq<HeaderView>, name: Seq<char>, value: Seq<u8>, i: int)
    requires
        0 <= i < headers.len(),
        headers[i].0 == name,
        forall|j: int| 0 <= j < i ==> headers[j].0 != name,
    ensures
        set_header_spec(headers, name, value) == headers.update(i, (name, value)),
    decreases i,
{
    if i == 0 {
        assert(set_header_spec(headers, name, value) =~= headers.update(0, (name, value)));
    } else {
        lemma_set_header_found(headers.drop_first(), name, value, i - 1);
        assert(set_header_spec(headers, name, value) =~= headers.update(i, (name, value)));
    }
}

proof fn lemma_set_header_missing(headers: Seq<HeaderView>, name: Seq<char>, value: Seq<u8>)
    requires
        forall|j: int| 0 <= j < headers.len() ==> headers[j].0 != name,
    ensures
        set_header_spec(headers, name, value) == headers.push((name, value)),
    decreases headers.len(),
{
    if headers.len() == 0 {
        assert(set_header_spec(headers, name, value) =~= headers.push((name, value)));
    } else {
        lemma_set_header_missing(headers.drop_first(), name, value);
        assert(set_header_spec(headers, name, value) =~= headers.push((name, value)));
    }
}

/// The headers every fresh response starts with.
pub open spec fn base_headers() -> Seq<HeaderView> {
    seq![("Server"@, encode_utf8("Telpenarmo's webserver"@))]
}

/// No two headers carry the same name. Every response the library builds
/// keeps this, so replacing a header by name is unambiguous.
pub open spec fn headers_unique(headers: Seq<HeaderView>) -> bool {
    forall|i: int, j: int|
        0 <= i < j < headers.len() ==> #[trigger] headers[i].0 != #[trigger] headers[j].0
}

/// A response under construction: status, headers, and an optional body.
pub struct Response {
    pub status: Status,
    pub headers: Vec<(String, Vec<u8>)>,
    pub content: Option<Vec<u8>>,
}

impl Response {
    /// A bodyless response with the given status and the base headers.
    pub fn new(status: Status) -> (r: Response)
        ensures
            r.status == status,
            r.headers.deep_view() == base_headers(),
            headers_unique(r.headers.deep_view()),
            r.content is None,
    {
        let mut headers: Vec<(String, Vec<u8>)> = Vec::new();
        headers.push(("Server".to_owned(), vstd::slice::slice_to_vec("Telpenarmo's webserver".as_bytes())));
        proof {
            assert(headers.deep_view() =~~= base_headers());
        }
        Response { status, headers, content: None }
    }

    /// A response with the given status whose body is `content` followed by
    /// a newline.
    pub fn with_content(status: Status, content: Vec<u8>) -> (r: Response)
        ensures
            r.status == status,
            r.headers.deep_view() == set_header_spec(
                base_headers(),
                "Content-Length"@,
                dec_digits(content@.len() + 1),
            ),
            headers_unique(r.headers.deep_view()),
            r.content matches Some(c) && c@ == content@.push(10u8),
    {
        let mut resp = Response::new(status);
        let mut content = content;
        content.push(10u8);
        resp.add_content(content);
        resp
    }

    /// The status line, without the trailing line break.
    pub fn status_line(&self) -> (r: String)
        ensures
            r@ == spec_status_line(self.status),
    {
        let s: &str = match self.status {
            Status::Okay => "HTTP/1.1 200",
            Status::Moved => "HTTP/1.1 301",
            Status::BadRequest => "HTTP/1.1 400",
            Status::Forbidden => "HTTP/1.1 403",
            Status::NotFound => "HTTP/1.1 404",
            Status::MethodNotAllowed => "HTTP/1.1 405",
            Status::RequestTimeout => "HTTP/1.1 408",
            Status::RequestURITooLong => "HTTP/1.1 415",
            Status::InternalServerError => "HTTP/1.1 500",
            Status::NotImplemented => "HTTP/1.1 501",
            Status::HTTPVersionNotSupported => "HTTP/1.1 505",
        };
        s.to_owned()
    }

    /// Sets a header, replacing an existing entry of the same name.
    pub fn set_header(&mut self, name: &str, value: Vec<u8>)
        ensures
            final(self).status == old(self).status,
            final(self).content == old(self).content,
            final(self).headers.deep_view() == set_header_spec(
                old(self).headers.deep_view(),
                name@,
                value@,
            ),
            headers_unique(old(self).headers.deep_view()) ==> headers_unique(
                final(self).headers.deep_view(),
            ),
    {
        let name_string = name.to_owned();
        let n = self.headers.len();
        let mut i: usize = 0;
        while i < n
            invariant
                i <= n,
                n == self.headers.len(),
                *self == *old(self),
                name_string@ == name@,
                forall|j: int| 0 <= j < i ==> self.headers.deep_view()[j].0 != name@,
            decreases n - i,
        {
            let found = self.headers[i].0 == name_string;
            if found {
                proof {
                    lemma_set_header_found(self.headers.deep_view(), name@, value@, i as int);
                }
                self.headers.set(i, (name_string, value));
                proof {
                    assert(self.headers.deep_view() =~~= old(self).headers.deep_view().update(
                        i as int,
                        (name@, value@),
                    ));
                    let hs0 = old(self).headers.deep_view();
                    let hs1 = self.headers.deep_view();
                    if headers_unique(hs0) {
                        assert forall|a: int, b: int|
                            0 <= a < b < hs1.len() implies hs1[a].0 != hs1[b].0 by {
                            assert(hs0[a].0 != hs0[b].0);
                            if a != i as int {
                                assert(hs1[a] == hs0[a]);
                            }
                            if b != i as int {
                                assert(hs1[b] == hs0[b]);
                            }
                        }
                        assert(headers_unique(hs1));
                    }
                }
                return ;
            }
            i += 1;
        }
        proof {
            lemma_set_header_missing(self.headers.deep_view(), name@, value@);
        }
        self.headers.push((name_string, value));
        proof {
            assert(self.headers.deep_view() =~~= old(self).headers.deep_view().push(
                (name@, value@),
            ));
            let hs0 = old(self).headers.deep_view();
            let hs1 = self.headers.deep_view();
            if headers_unique(hs0) {
                assert forall|a: int, b: int|
                    0 <= a < b < hs1.len() implies hs1[a].0 != hs1[b].0 by {
                    assert(hs1[a] == hs0[a]);
                    if b == hs1.len() - 1 {
                        assert(hs0[a].0 != name@);
                        assert(hs1[b].0 == name@);
                    } else {
                        assert(hs1[b] == hs0[b]);
                        assert(hs0[a].0 != hs0[b].0);
                    }
                }
                assert(headers_unique(hs1));
            }
        }
    }

    /// Attaches a body and derives its `Content-Length` header, so the two
    /// can never disagree.
    pub fn add_content(&mut self, content: Vec<u8>)
        ensures
            final(self).status == old(self).status,
            final(self).headers.deep_view() == set_header_spec(
                old(self).headers.deep_view(),
                "Content-Length"@,
                dec_digits(content@.len()),
            ),
            headers_unique(old(self).headers.deep_view()) ==> headers_unique(
                final(self).headers.deep_view(),
            ),
            final(self).content matches Some(c) && c@ == content@,
    {
        let length = dec_bytes(content.len());
        self.set_header("Content-Length", length);
        self.content = Some(content);
    }

    /// Drops the body while keeping every header, turning a GET response
    /// into the matching HEAD response.
    pub fn to_head(self) -> (r: Response)
        ensures
            r.status == self.status,
            r.headers == self.headers,
            r.content is None,
    {
        let mut resp = self;
        resp.content = None;
        resp
    }
}

/// The wire bytes of one header line, line break included.
pub open spec fn render_header_bytes(header: HeaderView) -> Seq<u8> {
    encode_utf8(header.0) + seq![58u8, 32u8] + header.1 + seq![13u8, 10u8]
}

/// The wire bytes of a block of header lines.
pub open spec fn render_headers_bytes(headers: Seq<HeaderView>) -> Seq<u8>
    decreases headers.len(),
{
    if headers.len() == 0 {
        Seq::empty()
    } else {
        render_headers_bytes(headers.drop_last()) + render_header_bytes(headers.last())
    }
}

/// The full wire bytes of a response: status line, headers, a blank line,
/// then the body if one is present.
pub open spec fn render_bytes(
    status: Status,
    headers: Seq<HeaderView>,
    content: Option<Seq<u8>>,
) -> Seq<u8> {
    encode_utf8(spec_status_line(status)) + seq![13u8, 10u8] + render_headers_bytes(headers) + seq![
        13u8,
        10u8,
    ] + match content {
        Some(c) => c,
        None => Seq::empty(),
    }
}

impl Response {
    /// Renders the response to the bytes that go on the wire.
    pub fn render(self) -> (r: Vec<u8>)
        ensures
            r@ == render_bytes(self.status, self.headers.deep_view(), self.content.deep_view()),
    {
        let ghost hs = self.headers.deep_view();
        let mut out: Vec<u8> = Vec::new();
        let line = self.status_line();
        out.extend_from_slice(line.as_str().as_bytes());
        out.push(13);
        out.push(10);
        let ghost prefix = out@;
        let mut i: usize = 0;
        let n = self.headers.len();
        proof {
            assert(hs.take(0) =~= Seq::<HeaderView>::empty());
        }
        while i < n
            invariant
                i <= n,
                n == self.headers.len(),
                hs == self.headers.deep_view(),
                prefix == encode_utf8(spec_status_line(self.status)) + seq![13u8, 10u8],
                out@ == prefix + render_headers_bytes(hs.take(i as int)),
            decreases n - i,
        {
            let pair = &self.headers[i];
            out.extend_from_slice(pair.0.as_str().as_bytes());
            out.push(58);
            out.push(32);
            out.extend_from_slice(pair.1.as_slice());
            out.push(13);
            out.push(10);
            proof {
                assert(hs.take(i + 1).drop_last() =~= hs.take(i as int));
                assert(hs.take(i + 1).last() == hs[i as int]);
                assert(out@ =~= prefix + render_headers_bytes(hs.take(i + 1)));
            }
            i += 1;
        }
        proof {
            assert(hs.take(n as int) =~= hs);
        }
        out.push(13);
        out.push(10);
        match self.content {
            Some(c) => {
                out.extend_from_slice(c.as_slice());
            },
            None => {},
        }
        proof {
            assert(out@ =~= render_bytes(
                self.status,
                self.headers.deep_view(),
                self.content.deep_view(),
            ));
        }
        out
    }
}

/// The response carries exactly this status and these headers, and — unless
/// it answers a HEAD request, whose body is always stripped — this content.
pub open spec fn response_matches(
    r: Response,
    status: Status,
    headers: Seq<HeaderView>,
    content: Option<Seq<u8>>,
    head: bool,
) -> bool {
    &&& r.status == status
    &&& r.headers.deep_view() == headers
    &&& if head {
        r.content is None
    } else {
        match content {
            Some(c) => r.content matches Some(v) && v@ == c,
            None => r.content is None,
        }
    }
}

/// The body of a plain 500 response.
pub open spec fn server_error_body() -> Seq<u8> {
    encode_utf8("Internal server error."@).push(10u8)
}

/// The headers of a plain 500 response.
pub open spec fn server_error_headers() -> Seq<HeaderView> {
    set_header_spec(base_headers(), "Content-Length"@, dec_digits(server_error_body().len()))
}

/// A plain 500 response. The diagnostic is the caller's to log; it does not
/// reach the peer.
pub fn server_error(msg: &str) -> (r: Response)
    ensures
        r.status == Status::InternalServerError,
        r.headers.deep_view() == server_error_headers(),
        r.content matches Some(c) && c@ == server_error_body(),
{
    let _ = msg;
    Response::with_content(
        Status::InternalServerError,
        vstd::slice::slice_to_vec("Internal server error.".as_bytes()),
    )
}

} // verus!
