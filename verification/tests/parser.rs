use hello_server::parser::get_request_head;
use hello_server::parser::Method;
use hello_server::parser::ParseError;
use hello_server::parser::Protocol;

#[test]
fn parses_root_get_v11() {
    let head = get_request_head("GET / HTTP/1.1").unwrap();
    assert_eq!(head.method, Method::Get);
    assert_eq!(head.uri, "/");
    assert_eq!(head.protocol, Protocol::V11);
}

#[test]
fn parses_get_v10() {
    let head = get_request_head("GET /index.html HTTP/1.0").unwrap();
    assert_eq!(head.method, Method::Get);
    assert_eq!(head.uri, "/index.html");
    assert_eq!(head.protocol, Protocol::V10);
}

#[test]
fn rejects_two_tokens() {
    assert_eq!(get_request_head("GET /").unwrap_err(), ParseError::UnknownRouteHeader);
}

#[test]
fn rejects_four_tokens() {
    assert_eq!(
        get_request_head("GET / HTTP/1.1 extra").unwrap_err(),
        ParseError::UnknownRouteHeader
    );
}

#[test]
fn rejects_empty_line() {
    assert_eq!(get_request_head("").unwrap_err(), ParseError::UnknownRouteHeader);
}

#[test]
fn rejects_post_method() {
    assert_eq!(get_request_head("POST / HTTP/1.1").unwrap_err(), ParseError::UnknownMethod);
}

#[test]
fn rejects_unknown_protocol() {
    assert_eq!(get_request_head("GET / HTTP/2.0").unwrap_err(), ParseError::UnknownProtocol);
}

#[test]
fn double_space_gives_empty_uri() {
    let head = get_request_head("GET  HTTP/1.1").unwrap();
    assert_eq!(head.uri, "");
    assert_eq!(head.protocol, Protocol::V11);
}

#[test]
fn uri_token_taken_verbatim() {
    let head = get_request_head("GET /a%20b?q=1 HTTP/1.1").unwrap();
    assert_eq!(head.uri, "/a%20b?q=1");
}
