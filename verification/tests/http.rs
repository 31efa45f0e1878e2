use prodder::api::HttpRequest;
use prodder::http::{prepare, receive, Exchange, SendError};

fn request(method: &str, url: &str, body: Option<&[u8]>) -> HttpRequest {
    HttpRequest {
        method: method.to_string(),
        url: url.to_string(),
        body: body.map(<[u8]>::to_vec),
    }
}

fn header<'a>(headers: &'a [(String, String)], name: &str) -> Option<&'a str> {
    headers.iter().find(|h| h.0 == name).map(|h| h.1.as_str())
}

#[test]
fn reqwest_transport_get_round_trips() {
    let out = prepare("tok", request("GET", "http://h/things", None)).unwrap();
    assert_eq!(out.method, "GET");
    assert_eq!(out.url, "http://h/things");
    assert_eq!(out.bearer, "tok");
    assert_eq!(header(&out.headers, "Accept"), Some("application/vnd.github+json"));
    assert_eq!(header(&out.headers, "X-GitHub-Api-Version"), Some("2022-11-28"));
    assert_eq!(header(&out.headers, "User-Agent"), Some("PRodder"));
    assert_eq!(header(&out.headers, "Content-Type"), None);
    assert_eq!(out.headers.len(), 3);
    assert_eq!(out.body, None);
    let body = receive(Exchange::Answered(200, br#"{"ok":true}"#.to_vec())).unwrap();
    assert_eq!(body, br#"{"ok":true}"#);
}

#[test]
fn send_post_attaches_body_and_content_type() {
    let out = prepare("tok", request("POST", "http://h/graphql", Some(b"{\"q\":1}"))).unwrap();
    assert_eq!(out.method, "POST");
    assert_eq!(header(&out.headers, "Content-Type"), Some("application/json"));
    assert_eq!(out.body.unwrap(), b"{\"q\":1}");
    assert_eq!(receive(Exchange::Answered(200, b"{}".to_vec())).unwrap(), b"{}");
}

#[test]
fn send_returns_err_on_non_success_status() {
    let err = receive(Exchange::Answered(500, b"boom".to_vec())).unwrap_err();
    let msg = err.message();
    assert!(msg.contains("request failed"), "{msg}");
    assert!(msg.contains("500"), "{msg}");
    assert_eq!(msg, "request failed (500 Internal Server Error): boom");
    assert_eq!(err.chain(), msg);
}

#[test]
fn send_rejects_invalid_method() {
    let err = prepare("tok", request("BAD METHOD", "http://127.0.0.1:1", None)).unwrap_err();
    assert!(err.message().contains("invalid HTTP method"));
    assert_eq!(err, SendError::InvalidMethod("invalid HTTP method".to_string()));
    assert_eq!(err.chain(), "invalid HTTP method: invalid HTTP method");
}

#[test]
fn send_bubbles_transport_error() {
    let err = receive(Exchange::NotSent("no route".to_string())).unwrap_err();
    assert!(err.message().contains("sending request"));
    assert_eq!(err.chain(), "sending request: no route");
    let err = receive(Exchange::NotRead("cut off".to_string())).unwrap_err();
    assert_eq!(err.message(), "reading response body");
    assert_eq!(err.chain(), "reading response body: cut off");
}

#[test]
fn only_the_two_hundreds_are_success() {
    for status in 100..=999u16 {
        let got = receive(Exchange::Answered(status, vec![1, 2]));
        if (200..300).contains(&status) {
            assert_eq!(got, Ok(vec![1, 2]));
        } else {
            assert_eq!(got, Err(SendError::Rejected(status, vec![1, 2])));
        }
    }
}

#[test]
fn rejections_are_shown_with_status_and_body() {
    let message = |status: u16, body: &[u8]| SendError::Rejected(status, body.to_vec()).message();
    assert_eq!(message(404, b""), "request failed (404 Not Found): ");
    assert_eq!(message(422, "d\u{e9}j\u{e0}".as_bytes()), "request failed (422 Unprocessable Entity): d\u{e9}j\u{e0}");
    assert_eq!(message(599, b"x"), "request failed (599 <unknown status code>): x");
    assert_eq!(message(500, &[b'a', 0xff, b'b']), "request failed (500 Internal Server Error): a\u{fffd}b");
    assert_eq!(message(99, b"x"), "request failed (99): x");
    for status in 100..=999u16 {
        let shown = reqwest::StatusCode::from_u16(status).unwrap().to_string();
        assert_eq!(message(status, b"x"), format!("request failed ({shown}): x"));
    }
}

#[test]
fn methods_are_http_tokens() {
    for code in 0..0x300u32 {
        let c = char::from_u32(code).unwrap();
        let accepted = prepare("t", request(&format!("GE{c}T"), "u", None)).is_ok();
        let token = c.is_ascii_alphanumeric() || "!#$%&'*+-.^_`|~".contains(c);
        assert_eq!(accepted, token, "{code:x}");
    }
    assert!(prepare("t", request("", "u", None)).is_err());
    assert!(prepare("t", request(&"LONG".repeat(20), "u", None)).is_ok());
}

#[test]
fn the_token_is_only_the_bearer() {
    let ask = || request("PUT", "http://h/x", Some(b"{}"));
    let one = prepare("one", ask()).unwrap();
    let mut other = prepare("other", ask()).unwrap();
    assert_eq!(one.bearer, "one");
    assert_ne!(one, other);
    other.bearer = "one".to_string();
    assert_eq!(one, other);
}

#[test]
fn every_request_of_the_drafter_can_be_sent() {
    for ask in [
        prodder::api::search_request("http://h"),
        prodder::api::user_request("http://h"),
        prodder::api::draft_request("http://h", "id"),
        prodder::api::update_request("http://h", "o", "r", 1, "sha"),
    ] {
        assert!(prepare("tok", ask).is_ok());
    }
}
