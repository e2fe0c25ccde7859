use axum::routing::get;
use axum::Router;
use hwhkit::config::ArchitectureType;
use hwhkit::error::{ConfigError, Error};
use hwhkit::middleware::CustomMiddleware;
use hwhkit::WebServerBuilder;

async fn test_handler() -> &'static str {
    "Hello from test!"
}

#[test]
fn test_builder_creation() {
    let builder = WebServerBuilder::new();
    assert_eq!(builder.config.server.port, 3000);
    assert_eq!(builder.config.server.architecture, ArchitectureType::Api);
}

#[test]
fn test_builder_configuration() {
    let builder = WebServerBuilder::new()
        .listen("127.0.0.1", 8080)
        .architecture(ArchitectureType::Full)
        .cors(vec!["http://localhost:3000".to_string()])
        .log_level("debug");

    assert_eq!(builder.config.server.host, "127.0.0.1");
    assert_eq!(builder.config.server.port, 8080);
    assert_eq!(builder.config.server.architecture, ArchitectureType::Full);
    assert!(builder.config.middleware.cors.enabled);
    assert_eq!(builder.config.middleware.logging.level, "debug");
}

#[test]
fn test_api_server_creation() {
    let app = Router::new()
        .route("/test", get(test_handler))
        .route("/health", get(test_handler));

    let server_result = WebServerBuilder::new()
        .listen("127.0.0.1", 8000)
        .architecture(ArchitectureType::Api)
        .routes(app)
        .build();

    assert!(server_result.is_ok(), "building the API server failed: {:?}", server_result.err());
}

#[test]
fn test_full_server_creation() {
    let app = Router::new().route("/", get(test_handler));

    let server_result = WebServerBuilder::new()
        .listen("127.0.0.1", 8001)
        .architecture(ArchitectureType::Full)
        .routes(app)
        .build();

    assert!(server_result.is_ok(), "building the full server failed: {:?}", server_result.err());
}

#[test]
fn test_builder_with_cors() {
    let app = Router::new().route("/test", get(test_handler));

    let server_result = WebServerBuilder::new()
        .listen("127.0.0.1", 8002)
        .cors(vec!["http://localhost:3000".to_string()])
        .routes(app)
        .build();

    assert!(server_result.is_ok(), "building the CORS server failed: {:?}", server_result.err());
}

#[test]
fn test_builder_with_jwt() {
    let app = Router::new().route("/protected", get(test_handler));

    let server_result = WebServerBuilder::new()
        .listen("127.0.0.1", 8003)
        .jwt_auth("test-secret", 3600)
        .routes(app)
        .build();

    assert!(server_result.is_ok(), "building the JWT server failed: {:?}", server_result.err());
}

#[test]
fn test_server_startup_time() {
    let app = Router::new().route("/", get(test_handler));

    let start_time = std::time::Instant::now();

    let server_result = WebServerBuilder::new()
        .listen("127.0.0.1", 8004)
        .routes(app)
        .build();

    let build_time = start_time.elapsed();

    assert!(server_result.is_ok(), "building the server failed");
    assert!(
        build_time < std::time::Duration::from_millis(1000),
        "building the server took too long: {:?}",
        build_time
    );
}

#[test]
fn test_invalid_static_directory() {
    let app = Router::new().route("/", get(test_handler));

    let server_result = WebServerBuilder::new()
        .listen("127.0.0.1", 0)
        .static_files("/nonexistent/directory", "/static")
        .routes(app)
        .build();

    println!("Static directory test result: {:?}", server_result.err());
}

#[test]
fn build_rejects_zero_port() {
    let r = WebServerBuilder::new().listen("127.0.0.1", 0).build();
    assert!(matches!(r, Err(Error::Config(ConfigError::ZeroPort))));
}

#[test]
fn templates_setter_is_noop_under_api() {
    let builder = WebServerBuilder::new()
        .architecture(ArchitectureType::Api)
        .templates("templates", "html");
    assert!(!builder.config.middleware.templates.enabled);

    let full = WebServerBuilder::new()
        .architecture(ArchitectureType::Full)
        .templates("templates", "html");
    assert!(full.config.middleware.templates.enabled);
    assert_eq!(full.config.middleware.templates.dir, "templates");
    assert_eq!(full.config.middleware.templates.extension, "html");
}

#[test]
fn load_from_source_fails_open() {
    let builder = WebServerBuilder::new()
        .listen("10.1.2.3", 4567)
        .log_level("warn")
        .load_from_source("this is ] not [ toml =");

    assert_eq!(builder.config.server.host, "10.1.2.3");
    assert_eq!(builder.config.server.port, 4567);
    assert_eq!(builder.config.middleware.logging.level, "warn");
    assert_eq!(builder.config.server.architecture, ArchitectureType::Api);
    assert!(builder.config.middleware.custom.is_empty());
}

#[test]
fn load_from_source_rejects_bad_schema_and_keeps_state() {
    let builder = WebServerBuilder::new()
        .listen("10.1.2.3", 4567)
        .load_from_source("[server]\nhost = \"x\"\n");
    assert_eq!(builder.config.server.host, "10.1.2.3");
    assert_eq!(builder.config.server.port, 4567);
}

#[test]
fn load_from_source_takes_good_documents() {
    let doc = r#"
[server]
host = "192.168.0.9"
port = 8123
architecture = "full"

[middleware.cors]
enabled = false
origins = []
methods = []
headers = []

[middleware.jwt]
enabled = false
secret = "s"
expires_in = 60

[middleware.static_files]
enabled = false
dir = "static"
prefix = "/static"

[middleware.templates]
enabled = false
dir = "templates"
extension = "html"

[middleware.logging]
level = "info"
requests = false

[middleware.custom]
"#;
    let builder = WebServerBuilder::new().load_from_source(doc);
    assert_eq!(builder.config.server.host, "192.168.0.9");
    assert_eq!(builder.config.server.port, 8123);
    assert_eq!(builder.config.server.architecture, ArchitectureType::Full);
    assert!(!builder.config.middleware.logging.requests);
}

#[test]
fn custom_config_inserts_and_replaces() {
    let builder = WebServerBuilder::new()
        .custom_config("alpha", serde_json::Value::String("one".to_string()))
        .custom_config("beta", serde_json::Value::from(2u64))
        .custom_config("alpha", serde_json::Value::String("three".to_string()));

    assert_eq!(builder.config.middleware.custom.len(), 2);
    assert_eq!(builder.config.middleware.custom[0].0, "alpha");
    assert_eq!(
        builder.config.middleware.custom[0].1,
        serde_json::Value::String("three".to_string())
    );
    assert_eq!(builder.config.middleware.custom[1].0, "beta");
}

#[test]
fn builder_registers_custom_middleware_in_order() {
    let builder = WebServerBuilder::new()
        .middleware(CustomMiddleware { name: "first".to_string() })
        .middleware(CustomMiddleware { name: "second".to_string() });
    assert_eq!(builder.custom_middleware.len(), 2);
    assert_eq!(builder.custom_middleware[0].name, "first");
    assert_eq!(builder.custom_middleware[1].name, "second");

    let server = builder.listen("127.0.0.1", 8009).build();
    assert!(server.is_ok());
}
