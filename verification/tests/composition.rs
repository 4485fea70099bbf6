use minihttp::http_request::{header_value, str_eq};
use minihttp::router::{EchoHandler, StaticHandler};
use minihttp::service::Event;
use minihttp::{
    service_fn, Error, FromBody, Method, Request, Response, Router, Server, Service, Stack,
};
use minihttp::{ArcLayer, Layer, LogLayer, RequestParts};

fn req(method: Method, path: &str, body: &[u8]) -> Request {
    Request { method, path: path.to_string(), headers: Vec::new(), body: body.to_vec() }
}

#[test]
fn layers_log_outermost_first_and_pass_the_answer_through() {
    let router = Router::new().get("/alpha", StaticHandler { status: 200, body: b"alpha".to_vec() });
    let stack = Stack::new(LogLayer, Stack::new(LogLayer, router));
    let mut trace: Vec<Event> = Vec::new();
    let r = stack.call(req(Method::Get, "/alpha", b""), &mut trace).unwrap();
    // Both layer entries land before the handler answers; the inner
    // handler's outcome comes back verbatim.
    assert_eq!(trace.len(), 2);
    assert_eq!(trace[0].method, Method::Get);
    assert_eq!(trace[0].path, "/alpha");
    assert_eq!(trace[1].method, Method::Get);
    assert_eq!(trace[1].path, "/alpha");
    assert_eq!(r.status, 200);
    assert_eq!(r.body, b"alpha".to_vec());
}

#[test]
fn a_layer_does_not_rewrite_failures() {
    let router: Router<StaticHandler> = Router::new();
    let stack = router.layer(LogLayer);
    let mut trace: Vec<Event> = Vec::new();
    let r = stack.call(req(Method::Get, "/missing", b""), &mut trace);
    assert!(matches!(r, Err(Error::NotFound)));
    assert_eq!(trace.len(), 1);
}

#[test]
fn service_fn_calls_the_wrapped_function() {
    let sf = service_fn(|request: Request| -> Result<Response, Error> {
        Ok(Response::new(request.body))
    });
    let r = sf.call(req(Method::Get, "/", b"payload")).unwrap();
    assert_eq!(r.status, 200);
    assert_eq!(r.body, b"payload".to_vec());
}

#[test]
fn response_builders_set_exactly_their_field() {
    let r = Response::new(b"hello".to_vec());
    assert_eq!(r.status, 200);
    assert!(r.headers.is_empty());
    assert_eq!(r.body, b"hello".to_vec());
    let r = r.status(204).header("x-first", "1").header("x-second", "2");
    assert_eq!(r.status, 204);
    assert_eq!(
        r.headers,
        vec![
            ("x-first".to_string(), "1".to_string()),
            ("x-second".to_string(), "2".to_string()),
        ]
    );
    assert_eq!(r.body, b"hello".to_vec());
}

#[test]
fn setting_a_header_again_replaces_its_value() {
    let r = Response::new(Vec::new()).header("x-k", "1").header("x-k", "2");
    assert_eq!(r.headers, vec![("x-k".to_string(), "2".to_string())]);
    let r = Response::new(Vec::new())
        .header("a", "1")
        .header("b", "2")
        .header("a", "3");
    assert_eq!(
        r.headers,
        vec![
            ("b".to_string(), "2".to_string()),
            ("a".to_string(), "3".to_string()),
        ]
    );
}

#[test]
fn splitting_a_request_keeps_every_part() {
    let r = Request {
        method: Method::Post,
        path: "/submit".to_string(),
        headers: vec![("content-type".to_string(), "text/plain".to_string())],
        body: b"data".to_vec(),
    };
    let (parts, body): (RequestParts, Vec<u8>) = r.into_parts();
    assert_eq!(parts.method, Method::Post);
    assert_eq!(parts.path, "/submit");
    assert_eq!(parts.headers.len(), 1);
    assert_eq!(body, b"data".to_vec());
}

#[test]
fn header_lookup_finds_the_first_match() {
    let headers = vec![
        ("accept".to_string(), "text/html".to_string()),
        ("x-tag".to_string(), "one".to_string()),
        ("x-tag".to_string(), "two".to_string()),
    ];
    assert_eq!(header_value(&headers, "x-tag").map(String::as_str), Some("one"));
    assert_eq!(header_value(&headers, "accept").map(String::as_str), Some("text/html"));
    assert_eq!(header_value(&headers, "x-missing"), None);
    assert_eq!(header_value(&headers, "X-Tag"), None);
}

#[test]
fn string_equality_is_exact() {
    assert!(str_eq("", ""));
    assert!(str_eq("abc", "abc"));
    assert!(!str_eq("abc", "abd"));
    assert!(!str_eq("abc", "ab"));
    assert!(str_eq("naïve café", "naïve café"));
    assert!(!str_eq("naïve", "naive"));
}

#[test]
fn text_extraction_decodes_valid_utf8() {
    let s: String = FromBody::from_body(b"bonjour".to_vec()).unwrap();
    assert_eq!(s, "bonjour");
    let r: Result<String, Error> = FromBody::from_body(vec![0xff, 0xfe]);
    assert!(matches!(r, Err(Error::NotFound)));
}

#[test]
fn extraction_failure_falls_back_like_a_route_miss() {
    let router = Router::new().get("/echo", EchoHandler);
    let server = Server::new(router, "127.0.0.1:0".to_string());
    let mut trace: Vec<Event> = Vec::new();
    // A handler that extracts text, fed bytes that are not UTF-8, gives
    // the same uniform fallback as a path with no route at all.
    let bad_body = server.handle(req(Method::Get, "/echo", &[0xff, 0xfe]), &mut trace);
    let no_route = server.handle(req(Method::Get, "/missing", b""), &mut trace);
    assert_eq!(bad_body.status, 404);
    assert_eq!(bad_body.status, no_route.status);
    assert_eq!(bad_body.headers, no_route.headers);
    assert_eq!(bad_body.body, no_route.body);
    assert_eq!(bad_body.body, b"Not Found".to_vec());
}

#[test]
fn arc_layer_substitutes_its_shared_service() {
    let layer = ArcLayer::new(5u32);
    let substituted = layer.layer(7u32);
    assert_eq!(*substituted, 5);
}

#[test]
fn json_wraps_its_extracted_value() {
    let wrapped = minihttp::Json(42u8);
    assert_eq!(wrapped.0, 42);
}

#[test]
fn echo_handler_returns_the_request_text() {
    let router = Router::new().get("/echo", EchoHandler);
    let mut trace: Vec<Event> = Vec::new();
    let r = router.call(req(Method::Get, "/echo", b"repeat me"), &mut trace).unwrap();
    assert_eq!(r.status, 200);
    assert_eq!(r.body, b"repeat me".to_vec());
}
