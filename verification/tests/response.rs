use hello_server::response::generate_response_content;
use hello_server::response::usize_to_string;
use hello_server::response::Status;

#[test]
fn ok_response_exact_bytes() {
    let r = generate_response_content(Status::Success, "hello");
    assert_eq!(r, "HTTP/1.1 200 OK\r\nContent-Length:5\r\n\r\nhello");
}

#[test]
fn not_found_response_exact_bytes() {
    let r = generate_response_content(Status::NotFound, "gone");
    assert_eq!(r, "HTTP/1.1 404 NOT FOUND\r\nContent-Length:4\r\n\r\ngone");
}

#[test]
fn empty_body_has_length_zero() {
    let r = generate_response_content(Status::Success, "");
    assert_eq!(r, "HTTP/1.1 200 OK\r\nContent-Length:0\r\n\r\n");
}

#[test]
fn multi_digit_content_length() {
    let body = "abcdefghijkl";
    let r = generate_response_content(Status::Success, body);
    assert_eq!(r, "HTTP/1.1 200 OK\r\nContent-Length:12\r\n\r\nabcdefghijkl");
}

#[test]
fn content_length_counts_bytes_not_chars() {
    // one two-byte character
    let r = generate_response_content(Status::Success, "\u{e9}");
    assert_eq!(r, "HTTP/1.1 200 OK\r\nContent-Length:2\r\n\r\n\u{e9}");
}

#[test]
fn decimal_formatting_exact() {
    assert_eq!(usize_to_string(0), "0");
    assert_eq!(usize_to_string(7), "7");
    assert_eq!(usize_to_string(10), "10");
    assert_eq!(usize_to_string(907), "907");
    assert_eq!(usize_to_string(1000), "1000");
}
