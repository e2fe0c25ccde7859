use hwhkit::config::CorsConfig;
use hwhkit::error::{Error, MiddlewareError};
use hwhkit::middleware::cors::{
    create_cors_layer, header_policy, origin_policy, HeaderPolicy, OriginPolicy,
};
use hwhkit::WebServerBuilder;

#[test]
fn test_cors_layer_creation() {
    let config = CorsConfig {
        enabled: true,
        origins: vec!["http://localhost:3000".to_string()],
        methods: vec!["GET".to_string(), "POST".to_string()],
        headers: vec!["Content-Type".to_string()],
    };

    let result = create_cors_layer(&config);
    assert!(result.is_ok());
}

#[test]
fn test_cors_wildcard_origins() {
    let config = CorsConfig {
        enabled: true,
        origins: vec!["*".to_string()],
        methods: vec!["GET".to_string()],
        headers: vec!["*".to_string()],
    };

    let result = create_cors_layer(&config);
    assert!(result.is_ok());
}

#[test]
fn test_cors_middleware() {
    let cors_config = CorsConfig {
        enabled: true,
        origins: vec!["http://localhost:3000".to_string()],
        methods: vec!["GET".to_string(), "POST".to_string()],
        headers: vec!["Content-Type".to_string()],
    };

    let cors_layer_result = create_cors_layer(&cors_config);
    assert!(cors_layer_result.is_ok(), "building the CORS layer failed");
}

#[test]
fn origin_wildcard_wins_over_invalid_entries() {
    let r = origin_policy(&vec!["bad\norigin".to_string(), "*".to_string()]);
    assert!(matches!(r, Ok(OriginPolicy::AnyOrigin)));
}

#[test]
fn origin_list_is_kept_exactly() {
    let origins = vec!["http://a".to_string(), "http://b".to_string()];
    let r = origin_policy(&origins);
    match r {
        Ok(OriginPolicy::Exact(list)) => assert_eq!(list, origins),
        other => panic!("expected the exact list, got {:?}", other.is_ok()),
    }
}

#[test]
fn invalid_origin_fails_policy_with_that_origin() {
    let r = origin_policy(&vec!["http://ok".to_string(), "bad\norigin".to_string()]);
    assert!(
        matches!(r, Err(Error::Middleware(MiddlewareError::InvalidPolicy(s))) if s == "bad\norigin")
    );
}

#[test]
fn invalid_method_fails_layer() {
    let config = CorsConfig {
        enabled: true,
        origins: vec!["*".to_string()],
        methods: vec!["GET".to_string(), "NOT A METHOD".to_string()],
        headers: vec!["*".to_string()],
    };
    let r = create_cors_layer(&config);
    assert!(
        matches!(r, Err(Error::Middleware(MiddlewareError::InvalidPolicy(s))) if s == "NOT A METHOD")
    );
}

#[test]
fn invalid_header_fails_layer() {
    let config = CorsConfig {
        enabled: true,
        origins: vec!["*".to_string()],
        methods: vec!["GET".to_string()],
        headers: vec!["Bad Header".to_string()],
    };
    let r = create_cors_layer(&config);
    assert!(
        matches!(r, Err(Error::Middleware(MiddlewareError::InvalidPolicy(s))) if s == "Bad Header")
    );
}

#[test]
fn header_wildcard_yields_any() {
    let r = header_policy(&vec!["*".to_string()]);
    assert!(matches!(r, Ok(HeaderPolicy::AnyHeader)));
    let exact = header_policy(&vec!["Content-Type".to_string()]);
    assert!(matches!(exact, Ok(HeaderPolicy::Exact(_))));
}

#[test]
fn invalid_cors_policy_is_decided_before_the_static_mount() {
    let temp_dir = tempfile::TempDir::new().unwrap();
    let r = WebServerBuilder::new()
        .listen("127.0.0.1", 8014)
        .cors(vec!["bad\norigin".to_string()])
        .static_files(&temp_dir.path().to_string_lossy(), "/static")
        .build();
    assert!(matches!(r, Err(Error::Middleware(MiddlewareError::InvalidPolicy(_)))));
}

#[test]
fn invalid_origin_fails_build() {
    let r = WebServerBuilder::new()
        .listen("127.0.0.1", 8010)
        .cors(vec!["bad\norigin".to_string()])
        .build();
    assert!(matches!(r, Err(Error::Middleware(MiddlewareError::InvalidPolicy(_)))));
}
