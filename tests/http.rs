use multithreaded_server::http::{decimal_bytes, response, route, same_text, Route};

#[test]
fn root_request_gets_the_greeting() {
    let r = route("GET / HTTP/1.1");
    assert_eq!(r, Route::Index);
    assert_eq!(r.status_line(), "HTTP/1.1 200 OK");
    assert_eq!(r.file_name(), "hello.html");
    assert!(!r.delays());
}

#[test]
fn sleep_request_gets_the_greeting_late() {
    let r = route("GET /sleep HTTP/1.1");
    assert_eq!(r, Route::Sleep);
    assert_eq!(r.status_line(), "HTTP/1.1 200 OK");
    assert_eq!(r.file_name(), "hello.html");
    assert!(r.delays());
}

#[test]
fn other_requests_are_not_found() {
    for line in ["GET /other HTTP/1.1", "", "GET / HTTP/1.0", "GET /  HTTP/1.1", "get / http/1.1"] {
        let r = route(line);
        assert_eq!(r, Route::NotFound);
        assert_eq!(r.status_line(), "HTTP/1.1 404 NOT FOUND");
        assert_eq!(r.file_name(), "404.html");
        assert!(!r.delays());
    }
}

#[test]
fn same_text_compares_characters() {
    assert!(same_text("", ""));
    assert!(same_text("héllo", "héllo"));
    assert!(!same_text("hello", "hellO"));
    assert!(!same_text("hell", "hello"));
}

#[test]
fn decimal_digits() {
    assert_eq!(decimal_bytes(0), b"0".to_vec());
    assert_eq!(decimal_bytes(7), b"7".to_vec());
    assert_eq!(decimal_bytes(10), b"10".to_vec());
    assert_eq!(decimal_bytes(1234), b"1234".to_vec());
    assert_eq!(decimal_bytes(usize::MAX), usize::MAX.to_string().into_bytes());
}

#[test]
fn response_frames_status_length_and_body() {
    let r = response("HTTP/1.1 200 OK", b"<p>hi</p>");
    assert_eq!(r, b"HTTP/1.1 200 OK\r\nContent-Length: 9\r\n\r\n<p>hi</p>".to_vec());
}

#[test]
fn response_with_empty_body() {
    let r = response("HTTP/1.1 404 NOT FOUND", b"");
    assert_eq!(r, b"HTTP/1.1 404 NOT FOUND\r\nContent-Length: 0\r\n\r\n".to_vec());
}

#[test]
fn response_counts_bytes_not_characters() {
    let body = "é".as_bytes();
    let r = response("HTTP/1.1 200 OK", body);
    let mut expected = b"HTTP/1.1 200 OK\r\nContent-Length: 2\r\n\r\n".to_vec();
    expected.extend_from_slice(body);
    assert_eq!(r, expected);
}
