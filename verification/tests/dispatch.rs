use minihttp::router::StaticHandler;
use minihttp::server::{conn_step, ConnEvent, ConnState};
use minihttp::{Error, Method, Request, Response, Router, Server, Service};

fn req(method: Method, path: &str) -> Request {
    Request { method, path: path.to_string(), headers: Vec::new(), body: Vec::new() }
}

fn handler(status: u16, body: &[u8]) -> StaticHandler {
    StaticHandler { status, body: body.to_vec() }
}

#[test]
fn registered_route_invokes_its_handler() {
    let router = Router::new()
        .get("/alpha", handler(200, b"alpha"))
        .get("/beta", handler(200, b"beta"));
    let mut trace = Vec::new();
    let r = router.call(req(Method::Get, "/alpha"), &mut trace).unwrap();
    assert_eq!(r.status, 200);
    assert_eq!(r.body, b"alpha".to_vec());
    let r = router.call(req(Method::Get, "/beta"), &mut trace).unwrap();
    assert_eq!(r.body, b"beta".to_vec());
}

#[test]
fn reregistering_a_path_replaces_the_handler() {
    let router = Router::new()
        .get("/alpha", handler(200, b"old"))
        .get("/alpha", handler(201, b"new"));
    let mut trace = Vec::new();
    let r = router.call(req(Method::Get, "/alpha"), &mut trace).unwrap();
    assert_eq!(r.status, 201);
    assert_eq!(r.body, b"new".to_vec());
}

#[test]
fn paths_match_only_exactly() {
    let router = Router::new().get("/alpha", handler(200, b"alpha"));
    let mut trace = Vec::new();
    let r = router.call(req(Method::Get, "/alpha/"), &mut trace);
    assert!(matches!(r, Err(Error::NotFound)));
    let r = router.call(req(Method::Get, "/Alpha"), &mut trace);
    assert!(matches!(r, Err(Error::NotFound)));
}

#[test]
fn wrong_method_is_not_found() {
    let router = Router::new().get("/alpha", handler(200, b"alpha"));
    let mut trace = Vec::new();
    let r = router.call(req(Method::Post, "/alpha"), &mut trace);
    assert!(matches!(r, Err(Error::NotFound)));
}

#[test]
fn unmatched_request_gets_the_fallback_response() {
    let router = Router::new().get("/alpha", handler(200, b"alpha"));
    let server = Server::new(router, "127.0.0.1:0".to_string());
    let mut trace = Vec::new();
    let r = server.handle(req(Method::Get, "/missing"), &mut trace);
    assert_eq!(r.status, 404);
    assert_eq!(r.body, b"Not Found".to_vec());
    assert!(r.headers.is_empty());
}

#[test]
fn upgrade_route_preempts_every_method() {
    let router = Router::new()
        .get("/chat", handler(200, b"page"))
        .ws("/chat");
    for method in [Method::Get, Method::Post, Method::Put, Method::Delete, Method::Head] {
        let mut trace = Vec::new();
        let r = router.call(req(method, "/chat"), &mut trace).unwrap();
        assert_eq!(r.status, 101);
    }
}

#[test]
fn identical_requests_get_identical_answers() {
    let router = Router::new().get("/alpha", handler(200, b"alpha"));
    let server = Server::new(router, "127.0.0.1:0".to_string());
    let mut trace = Vec::new();
    let first = server.handle(req(Method::Get, "/alpha"), &mut trace);
    let second = server.handle(req(Method::Get, "/alpha"), &mut trace);
    assert_eq!(first.status, second.status);
    assert_eq!(first.headers, second.headers);
    assert_eq!(first.body, second.body);
    assert_eq!(first.body, b"alpha".to_vec());
}

#[test]
fn server_builders_keep_their_configuration() {
    let router: Router<StaticHandler> = Router::new();
    let server = Server::new(router, "0.0.0.0:8443".to_string())
        .tls("cert.pem".to_string(), "key.pem".to_string());
    assert_eq!(server.addr, "0.0.0.0:8443");
    let tls = server.tls_config.as_ref().unwrap();
    assert_eq!(tls.cert_path, "cert.pem");
    assert_eq!(tls.key_path, "key.pem");
}

#[test]
fn successful_answers_pass_through_the_runtime_unchanged() {
    let router = Router::new().get("/alpha", handler(204, b"made it"));
    let server = Server::new(router, "127.0.0.1:0".to_string());
    let mut trace = Vec::new();
    let r = server.handle(req(Method::Get, "/alpha"), &mut trace);
    assert_eq!(r.status, 204);
    assert_eq!(r.body, b"made it".to_vec());
}

#[test]
fn the_router_emits_no_log_events() {
    let router = Router::new().get("/alpha", handler(200, b"alpha"));
    let mut trace = Vec::new();
    let _ = router.call(req(Method::Get, "/alpha"), &mut trace);
    let _ = router.call(req(Method::Get, "/missing"), &mut trace);
    assert!(trace.is_empty());
}

#[test]
fn an_upgrade_route_touches_only_its_own_path() {
    let router = Router::new()
        .get("/alpha", handler(200, b"alpha"))
        .ws("/chat");
    let mut trace = Vec::new();
    let r = router.call(req(Method::Get, "/alpha"), &mut trace).unwrap();
    assert_eq!(r.status, 200);
    assert_eq!(r.body, b"alpha".to_vec());
    let r = router.call(req(Method::Get, "/other"), &mut trace);
    assert!(matches!(r, Err(Error::NotFound)));
}

#[test]
fn error_kinds_stay_distinct_internally() {
    assert!(Error::NotFound.is_not_found());
    assert!(!Error::Io.is_not_found());
    assert!(!Error::Hyper.is_not_found());
    assert!(!Error::Http.is_not_found());
}

#[test]
fn connection_lifecycle_follows_the_state_machine() {
    // Plaintext: accepted connections go straight to serving.
    let s = conn_step(ConnState::Accepted, ConnEvent::Start, false);
    assert_eq!(s, ConnState::Serving);
    // TLS: the handshake comes first, then serving.
    let s = conn_step(ConnState::Accepted, ConnEvent::Start, true);
    assert_eq!(s, ConnState::Securing);
    let s = conn_step(s, ConnEvent::Secured, true);
    assert_eq!(s, ConnState::Serving);
    // Requests are served one after another on the same connection.
    let s = conn_step(s, ConnEvent::RequestServed, true);
    assert_eq!(s, ConnState::Serving);
    // The peer going away closes it; nothing reopens it.
    let s = conn_step(s, ConnEvent::PeerClosed, true);
    assert_eq!(s, ConnState::Closed);
    let s = conn_step(s, ConnEvent::RequestServed, true);
    assert_eq!(s, ConnState::Closed);
    // A failed TLS handshake abandons the connection.
    let s = conn_step(ConnState::Securing, ConnEvent::SecureFailed, true);
    assert_eq!(s, ConnState::Closed);
}
