//! Tests of path resolution, the sandbox check, error pages, redirects and
//! the per-connection decisions.

use webserver::connection::{read_error_response, wants_close, write_connection_header};
use webserver::http::{Request, Response, Status};
use webserver::reader::ReadError;
use webserver::static_server::{
    choose_error_page, error_page_action, get_error_page, get_relative_resource_path,
    handle_request, resource_response, resolve, CanonOutcome, Data, RequestAction, ResourceAction,
    UriStatus,
};
use webserver::utils::{match_file_type, path_if_existing};
use webserver::Config;

fn test_config() -> Config {
    Config {
        directory: "/srv/content".to_string(),
        port: 8080,
        keep_alive: 2,
        max_headers_number: 512,
        threads_per_connection: 4,
    }
}

fn test_data() -> Data {
    Data::new(
        "/srv/content/host".to_string(),
        test_config(),
        "host".to_string(),
    )
}

fn get_request(path: &str) -> Request {
    Request::new("GET".to_string(), path.to_string(), 1, Vec::new())
}

fn canonical(path: &str, is_dir: bool) -> CanonOutcome {
    CanonOutcome::Canonical {
        path: path.to_string(),
        is_dir,
    }
}

#[test]
fn resolve_admits_a_file_inside_the_root() {
    let root = "/srv/content/host".to_string();
    let r = resolve(&root, canonical("/srv/content/host/a/b.txt", false));
    assert_eq!(
        r,
        Ok(UriStatus::ResolvedFile("/srv/content/host/a/b.txt".to_string()))
    );
}

#[test]
fn resolve_rejects_a_path_outside_the_root() {
    let root = "/srv/content/host".to_string();
    let r = resolve(&root, canonical("/etc/passwd", false));
    assert_eq!(r, Ok(UriStatus::OutOfRange));
}

#[test]
fn resolve_rejects_a_sibling_with_the_root_as_string_prefix() {
    let root = "/srv/content/host".to_string();
    let r = resolve(&root, canonical("/srv/content/hostile", false));
    assert_eq!(r, Ok(UriStatus::OutOfRange));
    let r = resolve(&root, canonical("/srv/content/host.bak/x", true));
    assert_eq!(r, Ok(UriStatus::OutOfRange));
}

#[test]
fn resolve_admits_the_root_itself_as_directory() {
    let root = "/srv/content/host".to_string();
    let r = resolve(&root, canonical("/srv/content/host", true));
    assert_eq!(r, Ok(UriStatus::IsDirectory));
}

#[test]
fn resolve_under_the_filesystem_root() {
    let root = "/".to_string();
    let r = resolve(&root, canonical("/x", false));
    assert_eq!(r, Ok(UriStatus::ResolvedFile("/x".to_string())));
}

#[test]
fn resolve_maps_not_found_and_fault() {
    let root = "/srv/content/host".to_string();
    assert_eq!(
        resolve(&root, CanonOutcome::NotFound),
        Ok(UriStatus::NonExistent)
    );
    assert_eq!(resolve(&root, CanonOutcome::Fault), Err(()));
}

#[test]
fn resolve_twice_yields_the_same_status() {
    let root = "/srv/content/host".to_string();
    let first = resolve(&root, canonical("/srv/content/host/f", false));
    let second = resolve(&root, canonical("/srv/content/host/f", false));
    assert_eq!(first, second);
}

#[test]
fn join_strips_the_leading_slash() {
    let req = get_request("/sub/page.html");
    let joined = get_relative_resource_path(&"/srv/content/host".to_string(), &req);
    assert_eq!(joined, "/srv/content/host/sub/page.html");
}

#[test]
fn get_dispatches_to_resolution() {
    let data = test_data();
    let req = get_request("/a.txt");
    match handle_request(&req, &data) {
        RequestAction::Resolve { target, head } => {
            assert_eq!(target, "/srv/content/host/a.txt");
            assert!(!head);
        }
        RequestAction::Respond(_) => panic!("GET must resolve"),
    }
}

#[test]
fn head_dispatches_to_resolution() {
    let data = test_data();
    let req = Request::new("HEAD".to_string(), "/a.txt".to_string(), 1, Vec::new());
    match handle_request(&req, &data) {
        RequestAction::Resolve { head, .. } => assert!(head),
        RequestAction::Respond(_) => panic!("HEAD must resolve"),
    }
}

#[test]
fn other_methods_get_405_with_allow() {
    let data = test_data();
    let req = Request::new("POST".to_string(), "/a.txt".to_string(), 1, Vec::new());
    match handle_request(&req, &data) {
        RequestAction::Respond(resp) => {
            let bytes = resp.render();
            assert_eq!(
                bytes,
                b"HTTP/1.1 405\r\nServer: Telpenarmo's webserver\r\nAllow: GET, HEAD\r\n\r\n"
                    .to_vec()
            );
        }
        RequestAction::Resolve { .. } => panic!("POST has no handler"),
    }
}

#[test]
fn directory_requests_redirect_to_index() {
    let data = test_data();
    let req = get_request("/sub/");
    let canon = canonical("/srv/content/host/sub", true);
    match resource_response(&req, &data, canon, false) {
        ResourceAction::Respond(resp) => {
            let bytes = resp.render();
            let expected = b"HTTP/1.1 301\r\nServer: Telpenarmo's webserver\r\n\
                Location: http://host:8080/sub/index.html\r\n\r\n"
                .to_vec();
            assert_eq!(String::from_utf8(bytes), String::from_utf8(expected));
        }
        ResourceAction::LoadFile { .. } => panic!("a directory is not served as a file"),
    }
}

#[test]
fn directory_requests_without_trailing_slash_also_redirect() {
    let data = test_data();
    let req = get_request("/sub");
    let canon = canonical("/srv/content/host/sub", true);
    match resource_response(&req, &data, canon, false) {
        ResourceAction::Respond(resp) => {
            let bytes = resp.render();
            let rendered = String::from_utf8(bytes).unwrap();
            assert!(rendered.contains("Location: http://host:8080/sub/index.html\r\n"));
        }
        ResourceAction::LoadFile { .. } => panic!("a directory is not served as a file"),
    }
}

#[test]
fn missing_page_without_custom_404_gets_the_fallback_body() {
    // The host and global directories do not exist, so no 404.html can.
    let data = test_data();
    let req = get_request("/gone.txt");
    match resource_response(&req, &data, CanonOutcome::NotFound, false) {
        ResourceAction::Respond(resp) => {
            assert_eq!(resp.status.code(), 404);
            let body = resp.content.clone().unwrap();
            assert!(!body.is_empty());
            assert_eq!(body, b"Error: 404".to_vec());
            assert!(resp
                .headers
                .contains(&("Content-Length".to_string(), b"10".to_vec())));
        }
        ResourceAction::LoadFile { .. } => panic!("no custom page exists to load"),
    }
}

#[test]
fn host_error_page_takes_precedence_over_the_global_one() {
    let host_page = Some("/srv/content/host/404.html".to_string());
    let global_page = Some("/srv/content/404.html".to_string());
    assert_eq!(
        choose_error_page(host_page.clone(), global_page.clone()),
        host_page
    );
    assert_eq!(choose_error_page(host_page.clone(), None), host_page);
    assert_eq!(choose_error_page(None, global_page.clone()), global_page);
    assert_eq!(choose_error_page(None, None), None);
}

#[test]
fn error_page_action_loads_a_page_and_falls_back_without_one() {
    let page = "/srv/content/host/404.html".to_string();
    match error_page_action(Some(page.clone()), Status::NotFound, false) {
        ResourceAction::LoadFile { path, status, head } => {
            assert_eq!(path, page);
            assert_eq!(status.code(), 404);
            assert!(!head);
        }
        ResourceAction::Respond(_) => panic!("an existing page must be loaded"),
    }
    match error_page_action(None, Status::Forbidden, false) {
        ResourceAction::Respond(resp) => {
            assert_eq!(resp.status.code(), 403);
            assert_eq!(resp.content, Some(b"Error: 403".to_vec()));
        }
        ResourceAction::LoadFile { .. } => panic!("no page exists to load"),
    }
}

#[test]
fn out_of_range_is_answered_with_403() {
    let data = test_data();
    let req = get_request("/../../etc/passwd");
    let canon = canonical("/etc/passwd", false);
    match resource_response(&req, &data, canon, false) {
        ResourceAction::Respond(resp) => {
            assert_eq!(resp.status.code(), 403);
            assert_eq!(resp.content, Some(b"Error: 403".to_vec()));
        }
        ResourceAction::LoadFile { .. } => panic!("an escape must not load a file"),
    }
}

#[test]
fn fault_is_answered_with_500() {
    let data = test_data();
    let req = get_request("/x");
    match resource_response(&req, &data, CanonOutcome::Fault, false) {
        ResourceAction::Respond(resp) => assert_eq!(resp.status.code(), 500),
        ResourceAction::LoadFile { .. } => panic!("a fault must not load a file"),
    }
}

#[test]
fn resolved_file_is_loaded_with_status_200() {
    let data = test_data();
    let req = get_request("/a.txt");
    let canon = canonical("/srv/content/host/a.txt", false);
    match resource_response(&req, &data, canon, false) {
        ResourceAction::LoadFile { path, status, head } => {
            assert_eq!(path, "/srv/content/host/a.txt");
            assert_eq!(status.code(), 200);
            assert!(!head);
        }
        ResourceAction::Respond(_) => panic!("a resolved file must be loaded"),
    }
}

#[test]
fn error_page_is_none_when_no_page_exists() {
    let data = test_data();
    assert_eq!(get_error_page(&Status::NotFound, &data), None);
}

#[test]
fn path_if_existing_keeps_an_existing_path() {
    assert_eq!(path_if_existing("/".to_string()), Some("/".to_string()));
    assert_eq!(path_if_existing("/surely/not/here".to_string()), None);
}

#[test]
fn mime_types_follow_the_extension() {
    assert_eq!(match_file_type(&"/srv/a/index.html".to_string()), "text/html");
    assert_eq!(
        match_file_type(&"/srv/a/notes.txt".to_string()),
        "text/plain; charset=utf-8"
    );
    assert_eq!(
        match_file_type(&"/srv/a/blob.unknownext".to_string()),
        "application/octet-stream"
    );
}

#[test]
fn head_of_a_file_matches_get_without_the_body() {
    let path = "/srv/content/host/page.html".to_string();
    let get_resp =
        webserver::static_server::file_response(&path, Status::Okay, Some(b"<p>hi</p>".to_vec()), false);
    let head_resp =
        webserver::static_server::file_response(&path, Status::Okay, Some(b"<p>hi</p>".to_vec()), true);
    assert_eq!(head_resp.headers, get_resp.headers);
    assert_eq!(head_resp.content, None);
    assert_eq!(get_resp.content, Some(b"<p>hi</p>".to_vec()));
    assert!(get_resp
        .headers
        .contains(&("Content-Length".to_string(), b"9".to_vec())));
    assert!(get_resp
        .headers
        .contains(&("Content-Type".to_string(), b"text/html".to_vec())));
}

#[test]
fn unreadable_file_is_a_server_fault() {
    let path = "/srv/content/host/page.html".to_string();
    let resp = webserver::static_server::file_response(&path, Status::Okay, None, false);
    assert_eq!(resp.status.code(), 500);
}

#[test]
fn timeout_yields_exactly_one_408_and_closes() {
    let (resp, close) = read_error_response(&ReadError::Timeout);
    assert!(close);
    let resp = resp.expect("a timeout owes a response");
    assert_eq!(resp.status.code(), 408);
}

#[test]
fn closed_connection_yields_no_response() {
    let (resp, close) = read_error_response(&ReadError::ConnectionClosed);
    assert!(close);
    assert!(resp.is_none());
}

#[test]
fn malformed_reads_yield_400_and_close() {
    for err in [ReadError::BadSyntax, ReadError::TooManyHeaders] {
        let (resp, close) = read_error_response(&err);
        assert!(close);
        assert_eq!(resp.unwrap().status.code(), 400);
    }
}

#[test]
fn close_header_requests_a_close() {
    let req = Request::new(
        "GET".to_string(),
        "/".to_string(),
        1,
        vec![("close".to_string(), b"close".to_vec())],
    );
    assert!(wants_close(&req));
    let req = Request::new(
        "GET".to_string(),
        "/".to_string(),
        1,
        vec![("close".to_string(), b"nope".to_vec())],
    );
    assert!(!wants_close(&req));
    let req = get_request("/");
    assert!(!wants_close(&req));
}

#[test]
fn connection_header_follows_the_close_decision() {
    let mut resp = Response::new(Status::Okay);
    write_connection_header(true, &mut resp);
    assert!(resp.headers.contains(&("Connection".to_string(), b"close".to_vec())));
    let mut resp = Response::new(Status::Okay);
    write_connection_header(false, &mut resp);
    assert!(resp.headers.contains(&("Connection".to_string(), b"keep-alive".to_vec())));
}
