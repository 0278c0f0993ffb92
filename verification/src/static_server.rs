//! The static-file server: resolution of a request path to a file inside a
//! host's sandboxed content directory, the directory redirect, the custom
//! error pages with their two-level fallback, and the assembly of the
//! response for each outcome.
//!
//! Canonicalizing a path and reading a file touch the filesystem, which the
//! embedding binary does: the handler here hands it the target to
//! canonicalize ([`RequestAction`]) and the file to load ([`ResourceAction`]),
//! and every decision between those steps is made — and verified — here.

use crate::http::{
    base_headers, response_matches, server_error, server_error_body, server_error_headers,
    set_header_spec, spec_code, HeaderView, Request, Response, Status,
};
use crate::utils::{dec_bytes, dec_digits, file_type_spec, match_file_type, path_if_existing};
use crate::Config;
use vstd::prelude::*;
use vstd::string::{StrSliceExecFns, StringExecFns};
use vstd::utf8::encode_utf8;

verus! {

/// One static host: its sandboxed content directory, the shared
/// configuration, and the hostname it serves.
pub struct Data {
    pub content_dir: String,
    pub config: Config,
    pub hostname: String,
}

impl Data {
    pub fn new(content_dir: String, config: Config, hostname: String) -> (r: Data)
        ensures
            r.content_dir == content_dir,
            r.config == config,
            r.hostname == hostname,
    {
        Data { content_dir, config, hostname }
    }
}

/// What canonicalizing the joined target path yielded: its canonical,
/// symlink-free form and whether it is a directory; nothing at that path;
/// or any other filesystem fault.
#[derive(Debug)]
pub enum CanonOutcome {
    Canonical { path: String, is_dir: bool },
    NotFound,
    Fault,
}

/// The outcome of resolving a request path against a content directory.
#[derive(Debug, PartialEq, Eq)]
pub enum UriStatus {
    ResolvedFile(String),
    NonExistent,
    OutOfRange,
    IsDirectory,
}

/// `path` lies inside `root`: it equals the root, or extends it below a
/// path separator. The check is on whole segments of the canonical paths,
/// so `/a/bc` is not within `/a/b`.
pub open spec fn within_root(root: Seq<char>, path: Seq<char>) -> bool {
    ||| path == root
    ||| (path.len() > root.len() && path.take(root.len() as int) == root && ((root.len() > 0
        && root.last() == '/') || path[root.len() as int] == '/'))
}

/// Decides [`within_root`] on canonical paths.
pub fn check_within_root(root: &String, path: &String) -> (r: bool)
    ensures
        r == within_root(root@, path@),
{
    let rl = root.as_str().unicode_len();
    let pl = path.as_str().unicode_len();
    if pl < rl {
        return false;
    }
    let mut i: usize = 0;
    while i < rl
        invariant
            0 <= i <= rl,
            rl == root@.len(),
            pl == path@.len(),
            rl <= pl,
            forall|j: int| 0 <= j < i ==> root@[j] == path@[j],
        decreases rl - i,
    {
        if root.as_str().get_char(i) != path.as_str().get_char(i) {
            return false;
        }
        i += 1;
    }
    proof {
        assert(path@.take(rl as int) =~= root@);
    }
    if pl == rl {
        proof {
            assert(path@ =~= root@);
        }
        return true;
    }
    if rl > 0 && root.as_str().get_char(rl - 1) == '/' {
        return true;
    }
    path.as_str().get_char(rl) == '/'
}

/// Resolution as a pure function of the content directory and the
/// canonicalization outcome of the target: nothing at the target is a
/// missing resource, a fault is a server fault, and a canonical target is
/// admitted only when it lies within the content directory.
pub open spec fn resolve_spec(root: Seq<char>, canon: CanonOutcome) -> Result<UriStatus, ()> {
    match canon {
        CanonOutcome::NotFound => Ok(UriStatus::NonExistent),
        CanonOutcome::Fault => Err(()),
        CanonOutcome::Canonical { path, is_dir } => {
            if !within_root(root, path@) {
                Ok(UriStatus::OutOfRange)
            } else if is_dir {
                Ok(UriStatus::IsDirectory)
            } else {
                Ok(UriStatus::ResolvedFile(path))
            }
        },
    }
}

/// Maps the canonicalization outcome of a request target to its resolution.
/// A target whose canonical form does not lie within the content directory
/// is out of range, whatever else holds of it: no `..` segment, absolute
/// override or symlink escape can reach outside the sandbox.
pub fn resolve(content_dir: &String, canon: CanonOutcome) -> (r: Result<UriStatus, ()>)
    ensures
        r == resolve_spec(content_dir@, canon),
        canon matches CanonOutcome::Canonical { path, is_dir } && !within_root(
            content_dir@,
            path@,
        ) ==> r == Ok::<UriStatus, ()>(UriStatus::OutOfRange),
{
    match canon {
        CanonOutcome::NotFound => Ok(UriStatus::NonExistent),
        CanonOutcome::Fault => Err(()),
        CanonOutcome::Canonical { path, is_dir } => {
            if !check_within_root(content_dir, &path) {
                Ok(UriStatus::OutOfRange)
            } else if is_dir {
                Ok(UriStatus::IsDirectory)
            } else {
                Ok(UriStatus::ResolvedFile(path))
            }
        },
    }
}

/// Resolution is idempotent: against an unchanged filesystem — one that
/// canonicalizes the target the same way — resolving the same path twice
/// yields the same status.
pub proof fn lemma_resolve_idempotent(
    root: Seq<char>,
    canon: CanonOutcome,
    r1: Result<UriStatus, ()>,
    r2: Result<UriStatus, ()>,
)
    requires
        r1 == resolve_spec(root, canon),
        r2 == resolve_spec(root, canon),
    ensures
        r1 == r2,
{
}

/// The target a request path names: the content directory, a separator, and
/// the path with its leading slash stripped so it cannot name an absolute
/// location.
pub open spec fn join_path_spec(content_dir: Seq<char>, path: Seq<char>) -> Seq<char> {
    content_dir + "/"@ + path.subrange(1, path.len() as int)
}

/// Joins the content directory with the request's path.
pub fn get_relative_resource_path(content_dir: &String, request: &Request) -> (r: String)
    requires
        request.path@.len() >= 1,
    ensures
        r@ == join_path_spec(content_dir@, request.path@),
{
    let mut r = content_dir.clone();
    r.append("/");
    let pl = request.path.as_str().unicode_len();
    let tail = request.path.as_str().substring_char(1, pl);
    r.append(tail);
    r
}

/// The file name looked up for a custom error page: the status code and
/// `.html`.
pub open spec fn error_file_name(s: Status) -> Seq<char> {
    match s {
        Status::Okay => "200.html"@,
        Status::Moved => "301.html"@,
        Status::BadRequest => "400.html"@,
        Status::Forbidden => "403.html"@,
        Status::NotFound => "404.html"@,
        Status::MethodNotAllowed => "405.html"@,
        Status::RequestTimeout => "408.html"@,
        Status::RequestURITooLong => "415.html"@,
        Status::InternalServerError => "500.html"@,
        Status::NotImplemented => "501.html"@,
        Status::HTTPVersionNotSupported => "505.html"@,
    }
}

fn error_file_name_str(s: &Status) -> (r: &'static str)
    ensures
        r@ == error_file_name(*s),
{
    match s {
        Status::Okay => "200.html",
        Status::Moved => "301.html",
        Status::BadRequest => "400.html",
        Status::Forbidden => "403.html",
        Status::NotFound => "404.html",
        Status::MethodNotAllowed => "405.html",
        Status::RequestTimeout => "408.html",
        Status::RequestURITooLong => "415.html",
        Status::InternalServerError => "500.html",
        Status::NotImplemented => "501.html",
        Status::HTTPVersionNotSupported => "505.html",
    }
}

/// Where the error page for `status` would sit under `dir`.
pub open spec fn error_page_path(dir: Seq<char>, status: Status) -> Seq<char> {
    dir + "/"@ + error_file_name(status)
}

/// The two-level precedence among the error-page probes: the page found in
/// the host's own directory wins; only when the host directory has none
/// does the one beside the content root count; none means neither exists.
pub fn choose_error_page(local: Option<String>, global: Option<String>) -> (r: Option<String>)
    ensures
        local is Some ==> r == local,
        local is None ==> r == global,
{
    match local {
        Some(p) => Some(p),
        None => global,
    }
}

/// Picks the custom error page to serve for `status`: the probe results for
/// the two candidate paths — under the host's own content directory and
/// beside the content root — are decided by [`choose_error_page`].
pub fn get_error_page(status: &Status, data: &Data) -> (r: Option<String>)
    ensures
        r matches Some(p) ==> (p@ == error_page_path(data.content_dir@, *status) || p@
            == error_page_path(data.config.directory@, *status)),
{
    let name = error_file_name_str(status);
    let mut local = data.content_dir.clone();
    local.append("/");
    local.append(name);
    let mut global = data.config.directory.clone();
    global.append("/");
    global.append(name);
    choose_error_page(path_if_existing(local), path_if_existing(global))
}

/// The absolute URL a directory request is redirected to: scheme, host,
/// port, the request's own path, and `index.html`.
pub open spec fn location_of(hostname: Seq<char>, port: u16, path: Seq<char>) -> Seq<u8> {
    encode_utf8("http://"@) + encode_utf8(hostname) + seq![58u8] + dec_digits(port as nat)
        + encode_utf8(path) + (if path.len() > 0 && path.last() == '/' {
        encode_utf8("index.html"@)
    } else {
        encode_utf8("/index.html"@)
    })
}

fn location_bytes(hostname: &String, port: u16, path: &String) -> (r: Vec<u8>)
    ensures
        r@ == location_of(hostname@, port, path@),
{
    let mut out: Vec<u8> = Vec::new();
    out.extend_from_slice("http://".as_bytes());
    out.extend_from_slice(hostname.as_str().as_bytes());
    out.push(58);
    let mut digits = dec_bytes(port as usize);
    out.append(&mut digits);
    out.extend_from_slice(path.as_str().as_bytes());
    let pl = path.as_str().unicode_len();
    if pl > 0 && path.as_str().get_char(pl - 1) == '/' {
        out.extend_from_slice("index.html".as_bytes());
    } else {
        out.extend_from_slice("/index.html".as_bytes());
    }
    out
}

/// The 301 response for a request that names a directory.
pub fn redirect_dir(request_path: &String, data: &Data) -> (r: Response)
    ensures
        r.status == Status::Moved,
        r.headers.deep_view() == set_header_spec(
            base_headers(),
            "Location"@,
            location_of(data.hostname@, data.config.port, request_path@),
        ),
        r.content is None,
{
    let mut resp = Response::new(Status::Moved);
    let loc = location_bytes(&data.hostname, data.config.port, request_path);
    resp.set_header("Location", loc);
    resp
}

/// The inline body substituted when no custom error page exists.
pub open spec fn fallback_error_body(status: Status) -> Seq<u8> {
    encode_utf8("Error: "@) + dec_digits(spec_code(status) as nat)
}

/// The headers of the inline error response.
pub open spec fn fallback_error_headers(status: Status) -> Seq<HeaderView> {
    set_header_spec(base_headers(), "Content-Length"@, dec_digits(fallback_error_body(status).len()))
}

/// The error response when no custom page exists: its body names the status
/// code and is never empty.
pub fn fallback_error_response(status: Status) -> (r: Response)
    ensures
        response_matches(
            r,
            status,
            fallback_error_headers(status),
            Some(fallback_error_body(status)),
            false,
        ),
        fallback_error_body(status).len() > 0,
{
    let mut resp = Response::new(status);
    let mut body: Vec<u8> = Vec::new();
    body.extend_from_slice("Error: ".as_bytes());
    let mut digits = dec_bytes(status.code() as usize);
    body.append(&mut digits);
    proof {
        assert(body@ =~= fallback_error_body(status));
    }
    resp.add_content(body);
    resp
}

fn apply_head(resp: Response, head: bool) -> (r: Response)
    ensures
        r.status == resp.status,
        r.headers == resp.headers,
        if head {
            r.content is None
        } else {
            r.content == resp.content
        },
{
    if head {
        resp.to_head()
    } else {
        resp
    }
}

/// The headers of a response that serves a file's bytes.
pub open spec fn file_response_headers(path: Seq<char>, len: nat) -> Seq<HeaderView> {
    set_header_spec(
        set_header_spec(base_headers(), "Content-Length"@, dec_digits(len)),
        "Content-Type"@,
        encode_utf8(file_type_spec(path)),
    )
}

/// Builds the response for the file the resolver picked, once the embedding
/// binary has read its bytes: the chosen status, the bytes as the body, and
/// the content type guessed from the path. `None` stands for a file that
/// could not be read after all, which is a server fault.
pub fn file_response(path: &String, status: Status, bytes: Option<Vec<u8>>, head: bool) -> (r:
    Response)
    ensures
        bytes matches Some(b) ==> response_matches(
            r,
            status,
            file_response_headers(path@, b@.len()),
            Some(b@),
            head,
        ),
        bytes is None ==> response_matches(
            r,
            Status::InternalServerError,
            server_error_headers(),
            Some(server_error_body()),
            head,
        ),
{
    let resp = match bytes {
        Some(b) => {
            let mut resp = Response::new(status);
            resp.add_content(b);
            let content_type = match_file_type(path);
            resp.set_header(
                "Content-Type",
                vstd::slice::slice_to_vec(content_type.as_str().as_bytes()),
            );
            resp
        },
        None => server_error("resolved file could not be read"),
    };
    apply_head(resp, head)
}

/// For every resolved resource, the HEAD response carries exactly the
/// headers of the matching GET response — `Content-Length` included — and
/// an empty body.
pub proof fn lemma_head_matches_get(
    get_resp: Response,
    head_resp: Response,
    status: Status,
    headers: Seq<HeaderView>,
    content: Option<Seq<u8>>,
)
    requires
        response_matches(get_resp, status, headers, content, false),
        response_matches(head_resp, status, headers, content, true),
    ensures
        head_resp.headers.deep_view() == get_resp.headers.deep_view(),
        head_resp.content is None,
{
}

/// The first step of handling a request.
pub enum RequestAction {
    /// The response is already decided.
    Respond(Response),
    /// Canonicalize `target` on the filesystem and go on with
    /// [`resource_response`].
    Resolve { target: String, head: bool },
}

/// The follow-up step once the target is resolved.
pub enum ResourceAction {
    /// The response is already decided.
    Respond(Response),
    /// Read the file at `path` and finish with [`file_response`].
    LoadFile { path: String, status: Status, head: bool },
}

/// Dispatches on the request method: GET and HEAD proceed to resolution of
/// the joined target path; any other method is answered with 405 and an
/// `Allow` header.
pub fn handle_request(request: &Request, data: &Data) -> (r: RequestAction)
    requires
        request.path@.len() >= 1,
    ensures
        request.method@ == "GET"@ ==> (r matches RequestAction::Resolve { target, head }
            && target@ == join_path_spec(data.content_dir@, request.path@) && head == false),
        request.method@ == "HEAD"@ ==> (r matches RequestAction::Resolve { target, head }
            && target@ == join_path_spec(data.content_dir@, request.path@) && head == true),
        request.method@ != "GET"@ && request.method@ != "HEAD"@ ==> (r
            matches RequestAction::Respond(resp) && response_matches(
            resp,
            Status::MethodNotAllowed,
            set_header_spec(base_headers(), "Allow"@, encode_utf8("GET, HEAD"@)),
            None,
            false,
        )),
{
    proof {
        reveal_strlit("GET");
        reveal_strlit("HEAD");
        assert("GET"@.len() == 3);
        assert("HEAD"@.len() == 4);
        assert("GET"@ != "HEAD"@);
    }
    if request.method == "GET".to_owned() {
        RequestAction::Resolve {
            target: get_relative_resource_path(&data.content_dir, request),
            head: false,
        }
    } else if request.method == "HEAD".to_owned() {
        RequestAction::Resolve {
            target: get_relative_resource_path(&data.content_dir, request),
            head: true,
        }
    } else {
        let mut resp = Response::new(Status::MethodNotAllowed);
        resp.set_header("Allow", vstd::slice::slice_to_vec("GET, HEAD".as_bytes()));
        RequestAction::Respond(resp)
    }
}

/// The next step for an error status: the custom page when one exists (to
/// be read by the embedding binary), else the inline fallback body.
pub open spec fn error_step(
    r: ResourceAction,
    status: Status,
    content_dir: Seq<char>,
    global_dir: Seq<char>,
    head: bool,
) -> bool {
    ||| (r matches ResourceAction::LoadFile { path, status: s, head: h } && s == status && h == head
        && (path@ == error_page_path(content_dir, status) || path@ == error_page_path(
        global_dir,
        status,
    )))
    ||| (r matches ResourceAction::Respond(resp) && response_matches(
        resp,
        status,
        fallback_error_headers(status),
        Some(fallback_error_body(status)),
        head,
    ))
}

/// The step an error status owes for each value of the page probe: a page
/// that exists is loaded; no page at all means the inline fallback body.
pub fn error_page_action(page: Option<String>, status: Status, head: bool) -> (r: ResourceAction)
    ensures
        page matches Some(p) ==> r == (ResourceAction::LoadFile { path: p, status, head }),
        page is None ==> (r matches ResourceAction::Respond(resp) && response_matches(
            resp,
            status,
            fallback_error_headers(status),
            Some(fallback_error_body(status)),
            head,
        )),
{
    match page {
        Some(path) => ResourceAction::LoadFile { path, status, head },
        None => ResourceAction::Respond(apply_head(fallback_error_response(status), head)),
    }
}

/// Starts an error response: the custom page for `status` if one exists —
/// host directory before content root, per [`choose_error_page`] — and the
/// inline fallback exactly when both probes failed, per
/// [`error_page_action`].
pub fn load_error(status: Status, data: &Data, head: bool) -> (r: ResourceAction)
    ensures
        error_step(r, status, data.content_dir@, data.config.directory@, head),
{
    error_page_action(get_error_page(&status, data), status, head)
}

/// Maps the canonicalization outcome of the target to the next step: the
/// resolved file to load, a redirect for a directory, an error page for a
/// missing or out-of-range target, or a plain 500 on a filesystem fault.
pub fn resource_response(request: &Request, data: &Data, canon: CanonOutcome, head: bool) -> (r:
    ResourceAction)
    ensures
        resolve_spec(data.content_dir@, canon) matches Ok(u) ==> match u {
            UriStatus::ResolvedFile(p) => r matches ResourceAction::LoadFile {
                path,
                status,
                head: h,
            } && path == p && status == Status::Okay && h == head,
            UriStatus::IsDirectory => r matches ResourceAction::Respond(resp) && response_matches(
                resp,
                Status::Moved,
                set_header_spec(
                    base_headers(),
                    "Location"@,
                    location_of(data.hostname@, data.config.port, request.path@),
                ),
                None,
                head,
            ),
            UriStatus::NonExistent => error_step(
                r,
                Status::NotFound,
                data.content_dir@,
                data.config.directory@,
                head,
            ),
            UriStatus::OutOfRange => error_step(
                r,
                Status::Forbidden,
                data.content_dir@,
                data.config.directory@,
                head,
            ),
        },
        resolve_spec(data.content_dir@, canon) is Err ==> (r matches ResourceAction::Respond(resp)
            && response_matches(
            resp,
            Status::InternalServerError,
            server_error_headers(),
            Some(server_error_body()),
            head,
        )),
{
    match resolve(&data.content_dir, canon) {
        Err(_) => ResourceAction::Respond(
            apply_head(server_error("canonicalization of the target failed"), head),
        ),
        Ok(UriStatus::ResolvedFile(path)) => ResourceAction::LoadFile {
            path,
            status: Status::Okay,
            head,
        },
        Ok(UriStatus::IsDirectory) => ResourceAction::Respond(
            apply_head(redirect_dir(&request.path, data), head),
        ),
        Ok(UriStatus::NonExistent) => load_error(Status::NotFound, data, head),
        Ok(UriStatus::OutOfRange) => load_error(Status::Forbidden, data, head),
    }
}

} // verus!
