//! Tests of response construction and rendering.

use webserver::http::{server_error, Response, Status};

#[test]
fn status_codes_are_the_http_codes() {
    assert_eq!(Status::Okay.code(), 200);
    assert_eq!(Status::Moved.code(), 301);
    assert_eq!(Status::BadRequest.code(), 400);
    assert_eq!(Status::Forbidden.code(), 403);
    assert_eq!(Status::NotFound.code(), 404);
    assert_eq!(Status::MethodNotAllowed.code(), 405);
    assert_eq!(Status::RequestTimeout.code(), 408);
    assert_eq!(Status::InternalServerError.code(), 500);
    assert_eq!(Status::NotImplemented.code(), 501);
    assert_eq!(Status::HTTPVersionNotSupported.code(), 505);
}

#[test]
fn status_line_names_the_code() {
    assert_eq!(Response::new(Status::Okay).status_line(), "HTTP/1.1 200");
    assert_eq!(Response::new(Status::NotFound).status_line(), "HTTP/1.1 404");
}

#[test]
fn render_without_body_ends_with_a_blank_line() {
    let resp = Response::new(Status::Okay);
    let bytes = resp.render();
    assert_eq!(
        bytes,
        b"HTTP/1.1 200\r\nServer: Telpenarmo's webserver\r\n\r\n".to_vec()
    );
}

#[test]
fn render_appends_the_body_and_its_length() {
    let mut resp = Response::new(Status::Okay);
    resp.add_content(b"hi".to_vec());
    let bytes = resp.render();
    assert_eq!(
        bytes,
        b"HTTP/1.1 200\r\nServer: Telpenarmo's webserver\r\nContent-Length: 2\r\n\r\nhi"
            .to_vec()
    );
}

#[test]
fn add_content_refreshes_a_stale_content_length() {
    let mut resp = Response::new(Status::Okay);
    resp.add_content(b"0123456789".to_vec());
    resp.add_content(b"abc".to_vec());
    assert_eq!(resp.content, Some(b"abc".to_vec()));
    let lengths: Vec<&(String, Vec<u8>)> = resp
        .headers
        .iter()
        .filter(|h| h.0 == "Content-Length")
        .collect();
    assert_eq!(lengths.len(), 1);
    assert_eq!(lengths[0].1, b"3".to_vec());
}

#[test]
fn set_header_replaces_by_name() {
    let mut resp = Response::new(Status::Okay);
    resp.set_header("Server", b"other".to_vec());
    assert_eq!(resp.headers.len(), 1);
    assert_eq!(resp.headers[0].1, b"other".to_vec());
    resp.set_header("Allow", b"GET, HEAD".to_vec());
    assert_eq!(resp.headers.len(), 2);
}

#[test]
fn with_content_appends_a_newline() {
    let resp = Response::with_content(Status::NotImplemented, b"nope".to_vec());
    assert_eq!(resp.content, Some(b"nope\n".to_vec()));
    let bytes = resp.render();
    assert_eq!(
        bytes,
        b"HTTP/1.1 501\r\nServer: Telpenarmo's webserver\r\nContent-Length: 5\r\n\r\nnope\n"
            .to_vec()
    );
}

#[test]
fn head_keeps_headers_and_drops_the_body() {
    let get_resp = Response::with_content(Status::Okay, b"payload".to_vec());
    let get_headers = get_resp.headers.clone();
    let get_body = get_resp.content.clone();
    let head_resp = get_resp.to_head();
    assert_eq!(head_resp.headers, get_headers);
    assert_eq!(head_resp.content, None);
    assert!(get_body.is_some());
    // The rendered HEAD response still names the GET body's length.
    let bytes = head_resp.render();
    assert_eq!(
        bytes,
        b"HTTP/1.1 200\r\nServer: Telpenarmo's webserver\r\nContent-Length: 8\r\n\r\n"
            .to_vec()
    );
}

#[test]
fn server_error_is_a_plain_500() {
    let resp = server_error("diagnostic for the log");
    assert_eq!(resp.status.code(), 500);
    assert_eq!(resp.content, Some(b"Internal server error.\n".to_vec()));
}
