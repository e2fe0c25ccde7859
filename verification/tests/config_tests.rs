use hwhkit::config::{ArchitectureType, Config, TomlNode};
use hwhkit::error::{ConfigError, Error};

fn section(pairs: Vec<(&str, TomlNode)>) -> TomlNode {
    TomlNode::Tbl(pairs.into_iter().map(|(k, v)| (k.to_string(), v)).collect())
}

fn schema_doc() -> TomlNode {
    section(vec![
        (
            "server",
            section(vec![
                ("host", TomlNode::Str("10.0.0.1".to_string())),
                ("port", TomlNode::Int(8123)),
                ("architecture", TomlNode::Str("full".to_string())),
            ]),
        ),
        (
            "middleware",
            section(vec![
                (
                    "cors",
                    section(vec![
                        ("enabled", TomlNode::Bool(true)),
                        ("origins", TomlNode::Arr(vec![TomlNode::Str("http://a".to_string())])),
                        ("methods", TomlNode::Arr(vec![TomlNode::Str("GET".to_string())])),
                        ("headers", TomlNode::Arr(vec![])),
                    ]),
                ),
                (
                    "jwt",
                    section(vec![
                        ("enabled", TomlNode::Bool(false)),
                        ("secret", TomlNode::Str("s".to_string())),
                        ("expires_in", TomlNode::Int(60)),
                    ]),
                ),
                (
                    "static_files",
                    section(vec![
                        ("enabled", TomlNode::Bool(false)),
                        ("dir", TomlNode::Str("static".to_string())),
                        ("prefix", TomlNode::Str("/static".to_string())),
                    ]),
                ),
                (
                    "templates",
                    section(vec![
                        ("enabled", TomlNode::Bool(false)),
                        ("dir", TomlNode::Str("templates".to_string())),
                        ("extension", TomlNode::Str("html".to_string())),
                    ]),
                ),
                (
                    "logging",
                    section(vec![
                        ("level", TomlNode::Str("warn".to_string())),
                        ("requests", TomlNode::Bool(false)),
                    ]),
                ),
                ("custom", section(vec![("answer", TomlNode::Int(42))])),
            ]),
        ),
    ])
}

#[test]
fn from_doc_reads_a_fitting_document() {
    let config = Config::from_doc(&schema_doc()).expect("the document fits the schema");
    assert_eq!(config.server.host, "10.0.0.1");
    assert_eq!(config.server.port, 8123);
    assert_eq!(config.server.architecture, ArchitectureType::Full);
    assert!(config.middleware.cors.enabled);
    assert_eq!(config.middleware.cors.origins, vec!["http://a".to_string()]);
    assert!(config.middleware.cors.headers.is_empty());
    assert_eq!(config.middleware.logging.level, "warn");
    assert_eq!(config.middleware.custom.len(), 1);
    assert_eq!(config.middleware.custom[0].0, "answer");
    assert_eq!(config.middleware.custom[0].1, serde_json::Value::from(42i64));
}

#[test]
fn from_doc_rejects_a_wrongly_shaped_field() {
    let doc = section(vec![(
        "server",
        section(vec![
            ("host", TomlNode::Int(1)),
            ("port", TomlNode::Int(8123)),
            ("architecture", TomlNode::Str("api".to_string())),
        ]),
    )]);
    let r = Config::from_doc(&doc);
    assert!(matches!(r, Err(Error::Config(ConfigError::InvalidField(p))) if p == "server.host"));
}

#[test]
fn test_config_validation() {
    let mut config = Config::default();

    assert!(config.validate().is_ok(), "the default configuration should be valid");

    config.server.port = 0;
    assert!(config.validate().is_err(), "port 0 should be invalid");

    config.server.port = 3000;
    assert!(config.validate().is_ok(), "the restored configuration should be valid");
}

#[test]
fn test_server_address_formatting() {
    let mut config = Config::default();
    config.server.host = "127.0.0.1".to_string();
    config.server.port = 8080;

    assert_eq!(config.server_address(), "127.0.0.1:8080");
}

#[test]
fn server_address_edge_ports() {
    let mut config = Config::default();
    config.server.host = "h".to_string();
    config.server.port = 0;
    assert_eq!(config.server_address(), "h:0");
    config.server.port = 65535;
    assert_eq!(config.server_address(), "h:65535");
    config.server.port = 7;
    assert_eq!(config.server_address(), "h:7");
}

#[test]
fn validate_zero_port_gives_port_error() {
    let mut config = Config::default();
    config.server.port = 0;
    let r = config.validate_with(true, true);
    assert!(matches!(r, Err(Error::Config(ConfigError::ZeroPort))));
}

#[test]
fn validate_templates_under_api_rejected() {
    let mut config = Config::default();
    config.server.architecture = ArchitectureType::Api;
    config.middleware.templates.enabled = true;
    let r = config.validate_with(true, true);
    assert!(matches!(r, Err(Error::Config(ConfigError::TemplatesRequireFullArchitecture))));
}

#[test]
fn validate_missing_static_dir_rejected() {
    let mut config = Config::default();
    config.middleware.static_files.enabled = true;
    config.middleware.static_files.dir = "/nonexistent/directory".to_string();
    let r = config.validate_with(false, true);
    assert!(matches!(r, Err(Error::Config(ConfigError::StaticDirMissing(d))) if d == "/nonexistent/directory"));
    let real = config.validate();
    assert!(matches!(real, Err(Error::Config(ConfigError::StaticDirMissing(_)))));
}

#[test]
fn validate_missing_template_dir_rejected() {
    let mut config = Config::default();
    config.server.architecture = ArchitectureType::Full;
    config.middleware.templates.enabled = true;
    config.middleware.templates.dir = "/nonexistent/directory".to_string();
    let r = config.validate_with(true, false);
    assert!(matches!(r, Err(Error::Config(ConfigError::TemplateDirMissing(d))) if d == "/nonexistent/directory"));
}

const CONFIG_DOC: &str = r#"
[server]
host = "127.0.0.1"
port = 9999
architecture = "api"

[middleware.cors]
enabled = true
origins = ["http://test.example.com"]
methods = ["GET", "POST"]
headers = ["Content-Type"]

[middleware.jwt]
enabled = false
secret = "test-secret"
expires_in = 3600

[middleware.static_files]
enabled = false
dir = "static"
prefix = "/static"

[middleware.templates]
enabled = false
dir = "templates"
extension = "html"

[middleware.logging]
level = "debug"
requests = true

[middleware.custom]
"#;

#[test]
fn test_config_file_loading() {
    let config_result = Config::from_toml_source(CONFIG_DOC);
    assert!(config_result.is_ok(), "loading the settings document failed: {:?}", config_result.err());

    if let Ok(config) = config_result {
        assert_eq!(config.server.host, "127.0.0.1");
        assert_eq!(config.server.port, 9999);
        assert_eq!(config.server.architecture, ArchitectureType::Api);
        assert!(config.middleware.cors.enabled);
        assert_eq!(config.middleware.logging.level, "debug");
    }
}

#[test]
fn config_source_malformed_is_parse_error() {
    let r = Config::from_toml_source("this is ] not [ toml =");
    assert!(matches!(r, Err(Error::Config(ConfigError::ParseFailed(_)))));
}

#[test]
fn config_source_missing_field_is_reported() {
    let doc = r#"
[server]
host = "127.0.0.1"
architecture = "api"
"#;
    let r = Config::from_toml_source(doc);
    assert!(matches!(r, Err(Error::Config(ConfigError::MissingField(p))) if p == "server.port"));
}

#[test]
fn config_source_port_out_of_range_is_rejected() {
    let doc = CONFIG_DOC.replace("port = 9999", "port = 70000");
    let r = Config::from_toml_source(&doc);
    assert!(matches!(r, Err(Error::Config(ConfigError::InvalidField(p))) if p == "server.port"));
}

#[test]
fn config_source_wrong_shape_is_rejected() {
    let doc = CONFIG_DOC.replace("enabled = true\norigins", "enabled = \"yes\"\norigins");
    let r = Config::from_toml_source(&doc);
    assert!(matches!(r, Err(Error::Config(ConfigError::InvalidField(p))) if p == "middleware.cors.enabled"));
}

#[test]
fn config_source_custom_entries_are_kept() {
    let doc = format!("{}answer = 42\n", CONFIG_DOC);
    let config = Config::from_toml_source(&doc).expect("document should load");
    assert_eq!(config.middleware.custom.len(), 1);
    assert_eq!(config.middleware.custom[0].0, "answer");
    assert_eq!(config.middleware.custom[0].1, serde_json::Value::from(42u64));
}

#[test]
fn error_status_codes() {
    assert_eq!(Error::Config(ConfigError::ZeroPort).status_code(), 500);
    assert_eq!(Error::Jwt("bad".to_string()).status_code(), 401);
    assert_eq!(Error::ServerStart("x".to_string()).status_code(), 500);
    assert_eq!(Error::Internal("x".to_string()).status_code(), 500);
}
