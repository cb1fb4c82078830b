use hello_server::request::{handle_buffer, respond, Head};

const OK_RESPONSE: &str = "HTTP/1.1 200\r\nContent-Length: 15\r\nContent-Type: text/plain; charset=utf-8\r\nConnection: close\r\n\r\n\r\nHello, world!\r\n";
const NOT_FOUND_RESPONSE: &str = "HTTP/1.1 404\r\nContent-Length: 2\r\nContent-Type: text/plain; charset=utf-8\r\nConnection: close\r\n\r\n\r\n\r\n";
const BAD_REQUEST_RESPONSE: &str = "HTTP/1.1 400\r\nContent-Length: 2\r\nContent-Type: text/plain; charset=utf-8\r\nConnection: close\r\n\r\n\r\n\r\n";

#[test]
fn complete_get_root_yields_one_ok_reply() {
    let reply = handle_buffer("GET / HTTP/1.1\r\nHost: x\r\n\r\n".as_bytes());
    let reply = reply.expect("a complete head owes exactly one reply");
    assert_eq!(reply.as_bytes(), OK_RESPONSE.as_bytes());
}

#[test]
fn complete_get_missing_yields_the_greeting_too() {
    let reply = handle_buffer("GET /missing HTTP/1.1\r\nHost: x\r\n\r\n".as_bytes());
    let reply = reply.expect("a complete head owes exactly one reply");
    assert_eq!(reply.as_bytes(), OK_RESPONSE.as_bytes());
}

#[test]
fn complete_asterisk_path_yields_not_found() {
    let reply = handle_buffer("OPTIONS * HTTP/1.1\r\nHost: x\r\n\r\n".as_bytes());
    let reply = reply.expect("a complete head owes exactly one reply");
    assert_eq!(reply.as_bytes(), NOT_FOUND_RESPONSE.as_bytes());
}

#[test]
fn unrecognizable_request_line_yields_the_400_reply() {
    let reply = handle_buffer("this is not http\r\n\r\n".as_bytes());
    let reply = reply.expect("a malformed head owes the 400 reply");
    assert_eq!(reply.as_bytes(), BAD_REQUEST_RESPONSE.as_bytes());
}

#[test]
fn short_buffer_yields_no_write() {
    assert!(handle_buffer("GET / HT".as_bytes()).is_none());
    assert!(handle_buffer("".as_bytes()).is_none());
    assert!(handle_buffer("GET / HTTP/1.1\r\nHost: x\r\n".as_bytes()).is_none());
}

#[test]
fn thirty_two_headers_are_accepted() {
    let mut req = String::from("GET / HTTP/1.1\r\n");
    for i in 0..32 {
        req.push_str(&format!("H{}: v\r\n", i));
    }
    req.push_str("\r\n");
    let reply = handle_buffer(req.as_bytes());
    let reply = reply.expect("a head within the header bound owes a reply");
    assert_eq!(reply.as_bytes(), OK_RESPONSE.as_bytes());
}

#[test]
fn thirty_three_headers_are_a_parse_failure() {
    let mut req = String::from("GET / HTTP/1.1\r\n");
    for i in 0..33 {
        req.push_str(&format!("H{}: v\r\n", i));
    }
    req.push_str("\r\n");
    let reply = handle_buffer(req.as_bytes());
    let reply = reply.expect("an overfull head owes the 400 reply");
    assert_eq!(reply.as_bytes(), BAD_REQUEST_RESPONSE.as_bytes());
}

#[test]
fn respond_dispatches_a_complete_head() {
    let reply = respond(&Head::Complete { path: Some(String::from("/")) });
    let reply = reply.expect("a complete head owes exactly one reply");
    assert_eq!(reply.as_bytes(), OK_RESPONSE.as_bytes());
}

#[test]
fn respond_answers_a_pathless_head_with_not_found() {
    let reply = respond(&Head::Complete { path: None });
    let reply = reply.expect("a complete head owes exactly one reply");
    assert_eq!(reply.as_bytes(), NOT_FOUND_RESPONSE.as_bytes());
}

#[test]
fn respond_writes_nothing_for_a_partial_head() {
    assert!(respond(&Head::Partial).is_none());
}

#[test]
fn respond_answers_a_malformed_head_with_400() {
    let reply = respond(&Head::Malformed);
    let reply = reply.expect("a malformed head owes the 400 reply");
    assert_eq!(reply.as_bytes(), BAD_REQUEST_RESPONSE.as_bytes());
}
