use ironcladserver::handler::{process_request, Action, Asset, Status};
use ironcladserver::route::{classify, find_bytes, is_delayed, request_payload, Route};

#[test]
fn homepage_request() {
    let req = b"GET / HTTP/1.1\r\nHost: localhost\r\n\r\n";
    assert_eq!(classify(req), Route::Homepage);
    match process_request(req) {
        Action::SendAsset { asset, delayed } => {
            assert_eq!(asset, Asset::Home);
            assert!(!delayed);
            assert_eq!(asset.status(), Status::Success);
            assert_eq!(asset.status().line(), "HTTP/1.1 200 OK");
        }
        other => panic!("unexpected {:?}", other),
    }
}

#[test]
fn favicon_request() {
    let req = b"GET /favicon.ico HTTP/1.1\r\nHost: localhost\r\n\r\n";
    assert_eq!(classify(req), Route::Favicon);
    match process_request(req) {
        Action::SendAsset { asset, .. } => {
            assert_eq!(asset, Asset::Favicon);
            assert_eq!(asset.status().line(), "HTTP/1.1 200 OK");
            assert_eq!(asset.content_type(), "image/x-icon");
        }
        other => panic!("unexpected {:?}", other),
    }
}

#[test]
fn unknown_path_is_not_found() {
    let req = b"GET /nope HTTP/1.1\r\nHost: localhost\r\n\r\n";
    assert_eq!(classify(req), Route::BadRequest);
    match process_request(req) {
        Action::SendAsset { asset, .. } => {
            assert_eq!(asset, Asset::NotFound);
            assert_eq!(asset.status().line(), "HTTP/1.1 404 NOT FOUND");
        }
        other => panic!("unexpected {:?}", other),
    }
}

#[test]
fn login_request_payload() {
    let req = b"POST /login\r\n\r\n{\"username\":\"a\",\"pwd\":\"b\"}";
    assert_eq!(classify(req), Route::Login);
    match process_request(req) {
        Action::CheckLogin(payload) => assert_eq!(payload, b"{\"username\":\"a\",\"pwd\":\"b\"}".to_vec()),
        other => panic!("unexpected {:?}", other),
    }
}

#[test]
fn login_without_blank_line_is_bad_request() {
    let req = b"POST /login HTTP/1.1\r\nContent-Type: application/json\r\n";
    assert_eq!(classify(req), Route::BadRequest);
    assert!(request_payload(req).is_none());
}

#[test]
fn payload_follows_first_blank_line() {
    let req = b"POST /login\r\nA: b\r\n\r\nx\r\n\r\ny";
    assert_eq!(request_payload(req).unwrap(), b"x\r\n\r\ny".to_vec());
    assert_eq!(request_payload(b"\r\n\r\n").unwrap(), Vec::<u8>::new());
}

#[test]
fn slow_route_is_delayed_homepage() {
    let req = b"GET /sleep HTTP/1.1\r\n\r\n";
    assert_eq!(classify(req), Route::Homepage);
    assert!(is_delayed(req));
    match process_request(req) {
        Action::SendAsset { asset, delayed } => {
            assert_eq!(asset, Asset::Home);
            assert!(delayed);
        }
        other => panic!("unexpected {:?}", other),
    }
}

#[test]
fn partial_request_line_is_bad_request() {
    assert_eq!(classify(b"GET / HTTP/1.1"), Route::BadRequest);
    assert_eq!(classify(b""), Route::BadRequest);
}

#[test]
fn find_first_occurrence() {
    assert_eq!(find_bytes(b"abcabc", b"bc"), Some(1));
    assert_eq!(find_bytes(b"abc", b"abcd"), None);
    assert_eq!(find_bytes(b"abc", b""), Some(0));
    assert_eq!(find_bytes(b"aab", b"ab"), Some(1));
}
