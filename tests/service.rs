use api::service::{create_app, ComposedService, LayerKind};
use axum::body::Body;
use axum::http::{header, Method, Request, StatusCode};
use axum::response::Response;
use axum::routing::get;
use axum::Router;
use std::io;
use std::sync::{Arc, Mutex};
use tower::ServiceExt;

fn send(router: Router, req: Request<Body>) -> Response {
    let rt = tokio::runtime::Builder::new_current_thread()
        .enable_all()
        .build()
        .unwrap();
    rt.block_on(router.oneshot(req)).unwrap()
}

#[derive(Clone)]
struct Capture(Arc<Mutex<Vec<u8>>>);

impl io::Write for Capture {
    fn write(&mut self, b: &[u8]) -> io::Result<usize> {
        self.0.lock().unwrap().extend_from_slice(b);
        Ok(b.len())
    }

    fn flush(&mut self) -> io::Result<()> {
        Ok(())
    }
}

fn send_traced(router: Router, req: Request<Body>) -> (Response, String) {
    let buf = Arc::new(Mutex::new(Vec::new()));
    let cap = Capture(buf.clone());
    let subscriber = tracing_subscriber::fmt()
        .with_max_level(tracing::Level::DEBUG)
        .with_ansi(false)
        .with_writer(move || cap.clone())
        .finish();
    let resp = tracing::subscriber::with_default(subscriber, || send(router, req));
    let log = String::from_utf8(buf.lock().unwrap().clone()).unwrap();
    (resp, log)
}

fn hello_routes() -> Router {
    Router::new().route("/hello", get(|| async { "hi" }))
}

#[test]
fn assembled_service_has_no_layers() {
    let app = ComposedService::assemble(Router::new());
    assert!(app.inbound_order().is_empty());
    assert!(app.outbound_order().is_empty());
}

#[test]
fn standard_stack_order() {
    let app = create_app(Router::new());
    assert_eq!(app.outbound_order(), vec![LayerKind::CrossOrigin, LayerKind::Trace]);
    assert_eq!(app.inbound_order(), vec![LayerKind::Trace, LayerKind::CrossOrigin]);
}

#[test]
fn last_applied_layer_sees_request_first() {
    let app = ComposedService::assemble(Router::new())
        .layer(LayerKind::Trace)
        .layer(LayerKind::CrossOrigin);
    assert_eq!(app.inbound_order(), vec![LayerKind::CrossOrigin, LayerKind::Trace]);
    assert_eq!(app.outbound_order(), vec![LayerKind::Trace, LayerKind::CrossOrigin]);
}

#[test]
fn three_layers_reverse_on_the_way_in() {
    let app = create_app(Router::new()).layer(LayerKind::CrossOrigin);
    assert_eq!(
        app.inbound_order(),
        vec![LayerKind::CrossOrigin, LayerKind::Trace, LayerKind::CrossOrigin]
    );
}

#[test]
fn merged_routes_are_served() {
    let router = create_app(hello_routes()).into_router();
    let req = Request::builder().uri("/hello").body(Body::empty()).unwrap();
    let resp = send(router, req);
    assert_eq!(resp.status(), StatusCode::OK);
}

#[test]
fn preflight_accepts_any_origin_method_and_header() {
    for path in ["/hello", "/undefined"] {
        let router = create_app(hello_routes()).into_router();
        let req = Request::builder()
            .method(Method::OPTIONS)
            .uri(path)
            .header(header::ORIGIN, "https://elsewhere.example")
            .header(header::ACCESS_CONTROL_REQUEST_METHOD, "DELETE")
            .header(header::ACCESS_CONTROL_REQUEST_HEADERS, "x-custom-header")
            .body(Body::empty())
            .unwrap();
        let resp = send(router, req);
        assert_eq!(resp.status(), StatusCode::OK);
        let h = resp.headers();
        assert_eq!(h.get(header::ACCESS_CONTROL_ALLOW_ORIGIN).unwrap(), "*");
        assert_eq!(h.get(header::ACCESS_CONTROL_ALLOW_METHODS).unwrap(), "*");
        assert_eq!(h.get(header::ACCESS_CONTROL_ALLOW_HEADERS).unwrap(), "*");
    }
}

#[test]
fn undefined_path_is_traced() {
    let router = create_app(hello_routes()).into_router();
    let req = Request::builder().uri("/nowhere").body(Body::empty()).unwrap();
    let (resp, log) = send_traced(router, req);
    assert_eq!(resp.status(), StatusCode::NOT_FOUND);
    assert!(log.contains("method=GET"));
    assert!(log.contains("uri=/nowhere"));
    assert!(log.contains("status=404"));
}

#[test]
fn get_root_without_routes_is_not_found_with_cors_and_trace() {
    let router = create_app(Router::new()).into_router();
    let req = Request::builder()
        .uri("/")
        .header(header::ORIGIN, "https://elsewhere.example")
        .body(Body::empty())
        .unwrap();
    let (resp, log) = send_traced(router, req);
    assert_eq!(resp.status(), StatusCode::NOT_FOUND);
    assert_eq!(resp.headers().get(header::ACCESS_CONTROL_ALLOW_ORIGIN).unwrap(), "*");
    assert!(log.contains("method=GET"));
    assert!(log.contains("uri=/"));
    assert!(log.contains("status=404"));
}

#[test]
fn preflight_answered_by_inner_layer_is_still_traced() {
    let router = create_app(Router::new()).into_router();
    let req = Request::builder()
        .method(Method::OPTIONS)
        .uri("/")
        .header(header::ORIGIN, "https://elsewhere.example")
        .header(header::ACCESS_CONTROL_REQUEST_METHOD, "PUT")
        .body(Body::empty())
        .unwrap();
    let (resp, log) = send_traced(router, req);
    assert_eq!(resp.status(), StatusCode::OK);
    assert!(log.contains("method=OPTIONS"));
    assert!(log.contains("status=200"));
}

#[test]
fn layered_service_keeps_its_routes() {
    let app = create_app(hello_routes()).layer(LayerKind::CrossOrigin);
    let req = Request::builder().uri("/hello").body(Body::empty()).unwrap();
    let resp = send(app.into_router(), req);
    assert_eq!(resp.status(), StatusCode::OK);
}

#[test]
fn assembled_service_serves_routes_without_layers() {
    let router = ComposedService::assemble(hello_routes()).into_router();
    let req = Request::builder()
        .uri("/hello")
        .header(header::ORIGIN, "https://elsewhere.example")
        .body(Body::empty())
        .unwrap();
    let resp = send(router, req);
    assert_eq!(resp.status(), StatusCode::OK);
    assert!(resp.headers().get(header::ACCESS_CONTROL_ALLOW_ORIGIN).is_none());
}
