use rust_tutorial_webserver::http::{response, route};

#[test]
fn main_page_is_served_at_once() {
    let chosen = route("GET / HTTP/1.1");
    assert_eq!("HTTP/1.1 200 OK", chosen.status_line);
    assert_eq!("welcome.html", chosen.filename);
    assert_eq!(0, chosen.delay_secs);
}

#[test]
fn sleep_serves_the_main_page_after_five_seconds() {
    let chosen = route("GET /sleep HTTP/1.1");
    assert_eq!("HTTP/1.1 200 OK", chosen.status_line);
    assert_eq!("welcome.html", chosen.filename);
    assert_eq!(5, chosen.delay_secs);
}

#[test]
fn anything_else_is_not_found() {
    for line in ["", "GET /x HTTP/1.1", "GET / HTTP/1.0", "POST / HTTP/1.1", "GET / HTTP/1.1 ", "get / http/1.1"] {
        let chosen = route(line);
        assert_eq!("HTTP/1.1 404 NOT FOUND", chosen.status_line);
        assert_eq!("404.html", chosen.filename);
        assert_eq!(0, chosen.delay_secs);
    }
}

#[test]
fn response_frames_the_body() {
    assert_eq!(
        "HTTP/1.1 200 OK\r\nContent-Length: 5\r\n\r\nhello",
        response("HTTP/1.1 200 OK", "hello")
    );
}

#[test]
fn response_with_an_empty_body() {
    assert_eq!(
        "HTTP/1.1 404 NOT FOUND\r\nContent-Length: 0\r\n\r\n",
        response("HTTP/1.1 404 NOT FOUND", "")
    );
}

#[test]
fn response_counts_bytes_not_characters() {
    assert_eq!(
        "HTTP/1.1 200 OK\r\nContent-Length: 6\r\n\r\nh\u{e9}llo",
        response("HTTP/1.1 200 OK", "h\u{e9}llo")
    );
}

#[test]
fn response_with_a_long_body() {
    let body = "x".repeat(1234);
    let text = response("HTTP/1.1 200 OK", &body);
    assert!(text.starts_with("HTTP/1.1 200 OK\r\nContent-Length: 1234\r\n\r\nxxx"));
    assert_eq!("HTTP/1.1 200 OK\r\nContent-Length: 1234\r\n\r\n".len() + 1234, text.len());
}
