use axum::routing::get;
use axum::Router;
use hwhkit::config::{ArchitectureType, Config};
use hwhkit::middleware::{CustomMiddleware, MiddlewareKind, MiddlewareManager};
use hwhkit::{WebServer, WebServerBuilder};
use tower::util::ServiceExt;

async fn test_handler() -> &'static str {
    "Hello, World!"
}

#[test]
fn test_web_server_creation() {
    let app = Router::new().route("/", get(test_handler));
    let config = Config::default();
    let server = WebServer::new(app, config);

    assert_eq!(server.config().server.port, 3000);
    assert_eq!(server.config().server.architecture, ArchitectureType::Api);
}

#[test]
fn test_server_address_parsing() {
    let app = Router::new();
    let mut config = Config::default();
    config.server.host = "127.0.0.1".to_string();
    config.server.port = 8080;

    let server = WebServer::new(app, config);
    assert_eq!(server.config().server_address(), "127.0.0.1:8080");
}

#[test]
fn bind_address_override_wins() {
    let server = WebServer::new(Router::new(), Config::default());
    assert_eq!(server.bind_address(Some("0.0.0.0:9000")), "0.0.0.0:9000");
    assert_eq!(server.bind_address(None), "0.0.0.0:3000");
}

#[test]
fn middleware_status_reflects_flags() {
    let mut config = Config::default();
    config.middleware.jwt.enabled = true;
    config.middleware.logging.requests = false;
    let server = WebServer::new(Router::new(), config);
    let status = server.middleware_status();
    assert_eq!(status.len(), 5);
    assert_eq!(status[0], ("cors".to_string(), true));
    assert_eq!(status[1], ("static_files".to_string(), false));
    assert_eq!(status[2], ("templates".to_string(), false));
    assert_eq!(status[3], ("jwt".to_string(), true));
    assert_eq!(status[4], ("request_logging".to_string(), false));
}

#[test]
fn plan_orders_layers_deterministically() {
    let mut manager = MiddlewareManager::new(Config::default());
    manager.add_custom_middleware(CustomMiddleware { name: "metrics".to_string() });
    manager.add_custom_middleware(CustomMiddleware { name: "audit".to_string() });
    let plan = manager.plan();
    assert_eq!(
        plan,
        vec![
            MiddlewareKind::Logging,
            MiddlewareKind::Cors,
            MiddlewareKind::Custom(0),
            MiddlewareKind::Custom(1),
        ]
    );

    let mut quiet = Config::default();
    quiet.middleware.logging.requests = false;
    quiet.middleware.cors.enabled = false;
    quiet.middleware.static_files.enabled = true;
    let manager2 = MiddlewareManager::new(quiet);
    assert_eq!(manager2.plan(), vec![MiddlewareKind::StaticFiles]);
}

#[test]
fn cors_layer_wraps_the_static_route() {
    let temp_dir = tempfile::TempDir::new().unwrap();
    let server = WebServerBuilder::new()
        .listen("127.0.0.1", 8015)
        .cors(vec!["http://x".to_string()])
        .static_files(&temp_dir.path().to_string_lossy(), "/static")
        .build()
        .expect("building the server failed");

    let router = server.app().clone();
    let rt = tokio::runtime::Builder::new_current_thread()
        .enable_all()
        .build()
        .expect("creating the runtime failed");
    let response = rt.block_on(async move {
        let request = axum::http::Request::builder()
            .method("GET")
            .uri("/static/some.txt")
            .header("origin", "http://x")
            .body(axum::body::Body::empty())
            .expect("building the request failed");
        router.oneshot(request).await.expect("routing the request failed")
    });
    assert_eq!(
        response
            .headers()
            .get("access-control-allow-origin")
            .map(|v| v.to_str().unwrap().to_string()),
        Some("http://x".to_string())
    );
}

#[test]
fn end_to_end_api_server_with_cors() {
    let app = Router::new().route("/test", get(test_handler));

    let server = WebServerBuilder::new()
        .listen("127.0.0.1", 8080)
        .architecture(ArchitectureType::Api)
        .cors(vec!["http://x".to_string()])
        .routes(app)
        .build()
        .expect("building the server failed");

    assert_eq!(server.config().server_address(), "127.0.0.1:8080");

    let router = server.app().clone();
    let rt = tokio::runtime::Builder::new_current_thread()
        .enable_all()
        .build()
        .expect("creating the runtime failed");
    let response = rt.block_on(async move {
        let request = axum::http::Request::builder()
            .method("GET")
            .uri("/test")
            .header("origin", "http://x")
            .body(axum::body::Body::empty())
            .expect("building the request failed");
        router.oneshot(request).await.expect("routing the request failed")
    });
    assert_eq!(response.status(), axum::http::StatusCode::OK);
    assert_eq!(
        response
            .headers()
            .get("access-control-allow-origin")
            .map(|v| v.to_str().unwrap().to_string()),
        Some("http://x".to_string())
    );
}
