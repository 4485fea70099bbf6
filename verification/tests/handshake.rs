use minihttp::ws::upgrade::{accept_key, upgrade};
use minihttp::ws::{CloseFrame, Message};
use minihttp::{Method, Request};

fn upgrade_request(headers: Vec<(String, String)>) -> Request {
    Request { method: Method::Get, path: "/chat".to_string(), headers, body: Vec::new() }
}

#[test]
fn accept_key_matches_the_canonical_vector() {
    let k = accept_key("dGhlIHNhbXBsZSBub25jZQ==");
    assert_eq!(k, "s3pPLMBiTxaQ9kYGzzhZRbK+xOo=");
}

#[test]
fn handshake_reply_carries_the_accept_header() {
    let req = upgrade_request(vec![(
        "sec-websocket-key".to_string(),
        "dGhlIHNhbXBsZSBub25jZQ==".to_string(),
    )]);
    let r = upgrade(&req);
    assert_eq!(r.status, 101);
    assert!(r.body.is_empty());
    assert_eq!(
        r.headers,
        vec![
            (
                "sec-websocket-accept".to_string(),
                "s3pPLMBiTxaQ9kYGzzhZRbK+xOo=".to_string()
            ),
            ("connection".to_string(), "upgrade".to_string()),
            ("upgrade".to_string(), "websocket".to_string()),
        ]
    );
}

#[test]
fn handshake_without_key_still_switches_protocols() {
    // Protocol-non-conformant but the served behaviour: 101 with no
    // accept header when the client sent no key.
    let req = upgrade_request(Vec::new());
    let r = upgrade(&req);
    assert_eq!(r.status, 101);
    assert_eq!(
        r.headers,
        vec![
            ("connection".to_string(), "upgrade".to_string()),
            ("upgrade".to_string(), "websocket".to_string()),
        ]
    );
}

#[test]
fn handshake_uses_the_first_key_header() {
    let req = upgrade_request(vec![
        ("sec-websocket-key".to_string(), "dGhlIHNhbXBsZSBub25jZQ==".to_string()),
        ("sec-websocket-key".to_string(), "c2Vjb25kIGtleSBoZXJlISE=".to_string()),
    ]);
    let r = upgrade(&req);
    assert_eq!(r.headers[0].1, "s3pPLMBiTxaQ9kYGzzhZRbK+xOo=");
}

#[test]
fn close_ends_a_message_sequence() {
    assert!(Message::Close(None).is_close());
    assert!(Message::Close(Some(CloseFrame { code: 1000, reason: "done".to_string() }))
        .is_close());
    assert!(!Message::Text("hi".to_string()).is_close());
    assert!(!Message::Binary(vec![1, 2]).is_close());
    assert!(!Message::Ping(Vec::new()).is_close());
    assert!(!Message::Pong(Vec::new()).is_close());
}
