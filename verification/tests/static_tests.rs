use axum::Router;
use hwhkit::config::StaticConfig;
use hwhkit::error::{ConfigError, Error};
use hwhkit::middleware::static_files::{apply_static_files, static_route};
use hwhkit::WebServerBuilder;
use tempfile::TempDir;

#[test]
fn test_static_files_with_existing_dir() {
    let temp_dir = TempDir::new().unwrap();
    let config = StaticConfig {
        enabled: true,
        dir: temp_dir.path().to_string_lossy().to_string(),
        prefix: "/static".to_string(),
    };

    let app = Router::new();
    let result = apply_static_files(app, &config);
    assert!(result.is_ok());
}

#[test]
fn test_static_files_with_nonexistent_dir() {
    let config = StaticConfig {
        enabled: true,
        dir: "/nonexistent/directory".to_string(),
        prefix: "/static".to_string(),
    };

    let app = Router::new();
    let result = apply_static_files(app, &config);
    assert!(result.is_err());
}

#[test]
fn missing_dir_carries_its_path() {
    let config = StaticConfig {
        enabled: true,
        dir: "/nonexistent/directory".to_string(),
        prefix: "/static".to_string(),
    };
    let r = apply_static_files(Router::new(), &config);
    assert!(
        matches!(r, Err(Error::Config(ConfigError::StaticDirMissing(d))) if d == "/nonexistent/directory")
    );
}

#[test]
fn static_route_trims_trailing_slashes() {
    assert_eq!(static_route("/static"), "/static/{*file}");
    assert_eq!(static_route("/static///"), "/static/{*file}");
    assert_eq!(static_route(""), "/{*file}");
    assert_eq!(static_route("///"), "/{*file}");
}

#[test]
fn bad_prefix_is_rejected_not_mounted() {
    let temp_dir = TempDir::new().unwrap();
    let config = StaticConfig {
        enabled: true,
        dir: temp_dir.path().to_string_lossy().to_string(),
        prefix: "static".to_string(),
    };
    let r = apply_static_files(Router::new(), &config);
    assert!(matches!(r, Err(Error::Config(ConfigError::InvalidField(p))) if p == "static"));
}

#[test]
fn route_syntax_characters_in_prefix_are_rejected() {
    let temp_dir = TempDir::new().unwrap();
    let config = StaticConfig {
        enabled: true,
        dir: temp_dir.path().to_string_lossy().to_string(),
        prefix: "/st{atic}".to_string(),
    };
    let r = apply_static_files(Router::new(), &config);
    assert!(matches!(r, Err(Error::Config(ConfigError::InvalidField(p))) if p == "/st{atic}"));

    let colon = StaticConfig {
        enabled: true,
        dir: temp_dir.path().to_string_lossy().to_string(),
        prefix: "/:static".to_string(),
    };
    let r2 = apply_static_files(Router::new(), &colon);
    assert!(matches!(r2, Err(Error::Config(ConfigError::InvalidField(_)))));
}

#[test]
fn build_with_empty_existing_dir_succeeds() {
    let temp_dir = TempDir::new().unwrap();
    let r = WebServerBuilder::new()
        .listen("127.0.0.1", 8011)
        .static_files(&temp_dir.path().to_string_lossy(), "/static")
        .build();
    assert!(r.is_ok(), "an existing empty directory should mount: {:?}", r.err());
}

#[test]
fn build_with_missing_dir_fails() {
    let r = WebServerBuilder::new()
        .listen("127.0.0.1", 8012)
        .static_files("/nonexistent/directory", "/static")
        .build();
    assert!(matches!(r, Err(Error::Config(ConfigError::StaticDirMissing(_)))));
}
