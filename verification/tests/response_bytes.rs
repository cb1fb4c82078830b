use hello_server::response::Response;

#[test]
fn build_x_200_exact_bytes() {
    let r = Response::text("X", 200);
    let expected = "HTTP/1.1 200\r\nContent-Length: 3\r\nContent-Type: text/plain; charset=utf-8\r\nConnection: close\r\n\r\n\r\nX\r\n";
    assert_eq!(r.as_bytes(), expected.as_bytes());
}

#[test]
fn build_hello_200_exact_bytes() {
    let r = Response::text("Hello, world!", 200);
    let expected = "HTTP/1.1 200\r\nContent-Length: 15\r\nContent-Type: text/plain; charset=utf-8\r\nConnection: close\r\n\r\n\r\nHello, world!\r\n";
    assert_eq!(r.as_bytes(), expected.as_bytes());
}

#[test]
fn build_empty_404_exact_bytes() {
    let r = Response::text("", 404);
    let expected = "HTTP/1.1 404\r\nContent-Length: 2\r\nContent-Type: text/plain; charset=utf-8\r\nConnection: close\r\n\r\n\r\n\r\n";
    assert_eq!(r.as_bytes(), expected.as_bytes());
}

#[test]
fn status_is_build_with_empty_body() {
    for code in [100u16, 200, 301, 400, 404, 500, 999, 0, 65535] {
        let s = Response::status(code);
        let t = Response::text("", code);
        assert_eq!(s.as_bytes(), t.as_bytes());
    }
}

#[test]
fn status_code_digits_are_decimal() {
    let r = Response::status(65535);
    let expected = "HTTP/1.1 65535\r\nContent-Length: 2\r\nContent-Type: text/plain; charset=utf-8\r\nConnection: close\r\n\r\n\r\n\r\n";
    assert_eq!(r.as_bytes(), expected.as_bytes());
    let r0 = Response::status(0);
    assert!(r0.as_bytes().starts_with("HTTP/1.1 0\r\n".as_bytes()));
}

#[test]
fn content_length_counts_body_plus_crlf() {
    let r = Response::text("abcdefgh", 200);
    let expected = "HTTP/1.1 200\r\nContent-Length: 10\r\nContent-Type: text/plain; charset=utf-8\r\nConnection: close\r\n\r\n\r\nabcdefgh\r\n";
    assert_eq!(r.as_bytes(), expected.as_bytes());
}
