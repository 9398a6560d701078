use ironcladserver::handler::{asset_response, body_response, Asset, Status};
use ironcladserver::response::{build_http_headers, build_http_response, push_decimal};

#[test]
fn content_length_counts_bytes() {
    let r = build_http_response("HTTP/1.1 200 OK", "héllo".as_bytes(), "text/html; charset=UTF-8");
    let text = String::from_utf8(r).unwrap();
    assert!(text.contains("\r\nContent-Length: 6"));
    assert!(!text.contains("Content-Length: 5"));
    assert!(text.ends_with("\r\n\r\nhéllo"));
}

#[test]
fn response_layout() {
    let r = build_http_response("HTTP/1.1 404 NOT FOUND", b"<p>x</p>", "text/html");
    let expected = "HTTP/1.1 404 NOT FOUND\r\n\
        Connection: close\r\n\
        Content-Type: text/html\r\n\
        Access-Control-Allow-Origin: *\r\n\
        X-Content-Type-Options: nosniff\r\n\
        X-XSS-Protection: 1; mode=block\r\n\
        Content-Security-Policy: default-src 'self'\r\n\
        Content-Length: 8\r\n\r\n<p>x</p>";
    assert_eq!(String::from_utf8(r).unwrap(), expected);
}

#[test]
fn headers_without_security_set() {
    assert_eq!(
        build_http_headers(false, 1234, "image/x-icon"),
        "Connection: close\r\nContent-Type: image/x-icon\r\nContent-Length: 1234"
    );
}

#[test]
fn binary_body_is_kept_intact() {
    let icon: Vec<u8> = vec![0, 159, 146, 150, 255];
    let r = asset_response(Asset::Favicon, &icon);
    assert!(r.ends_with(&icon));
    let text = String::from_utf8_lossy(&r);
    assert!(text.starts_with("HTTP/1.1 200 OK\r\n"));
    assert!(text.contains("Content-Type: image/x-icon\r\n"));
    assert!(text.contains("Content-Length: 5\r\n\r\n"));
}

#[test]
fn empty_body() {
    let r = body_response(Status::InternalError, "", "text/html; charset=UTF-8");
    let text = String::from_utf8(r).unwrap();
    assert!(text.starts_with("HTTP/1.1 500 INTERNAL SERVER ERROR\r\n"));
    assert!(text.ends_with("Content-Length: 0\r\n\r\n"));
}

#[test]
fn decimal_text() {
    let mut s = String::from("n=");
    push_decimal(&mut s, 0);
    assert_eq!(s, "n=0");
    let mut s = String::new();
    push_decimal(&mut s, 1024);
    assert_eq!(s, "1024");
    let mut s = String::new();
    push_decimal(&mut s, usize::MAX);
    assert_eq!(s, usize::MAX.to_string());
}
