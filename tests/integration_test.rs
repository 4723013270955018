use project_tpl::config::{
    environment_source, AppConfig, AppSettings, ConfigError, DatabaseSettings, LoggingSettings,
    ServerSettings,
};

const DEFAULT_TOML: &str = r#"
[app]
name = "project-tpl"
version = "0.1.0"
environment = "development"

[server]
host = "127.0.0.1"
port = 8080
timeout = 30

[database]
url = "postgres://localhost/app"
max_connections = 10
min_connections = 2

[logging]
level = "info"
format = "text"
file_output = false
console_output = true
"#;

const PRODUCTION_TOML: &str = r#"
[app]
environment = "production"

[server]
host = "0.0.0.0"

[logging]
format = "json"
"#;

fn no_vars() -> Vec<(String, String)> {
    Vec::new()
}

fn var(name: &str, value: &str) -> (String, String) {
    (name.to_string(), value.to_string())
}

fn valid_config(port: u16) -> AppConfig {
    AppConfig {
        app: AppSettings {
            name: "test".to_string(),
            version: "1.0".to_string(),
            environment: "test".to_string(),
        },
        server: ServerSettings {
            host: "localhost".to_string(),
            port,
            timeout: 30,
        },
        database: DatabaseSettings {
            url: "postgres://localhost/db".to_string(),
            max_connections: 10,
            min_connections: 2,
        },
        logging: LoggingSettings {
            level: "info".to_string(),
            format: "json".to_string(),
            file_output: true,
            console_output: true,
        },
    }
}

fn same(a: &AppConfig, b: &AppConfig) -> bool {
    a.app.name == b.app.name
        && a.app.version == b.app.version
        && a.app.environment == b.app.environment
        && a.server.host == b.server.host
        && a.server.port == b.server.port
        && a.server.timeout == b.server.timeout
        && a.database.url == b.database.url
        && a.database.max_connections == b.database.max_connections
        && a.database.min_connections == b.database.min_connections
        && a.logging.level == b.logging.level
        && a.logging.format == b.logging.format
        && a.logging.file_output == b.logging.file_output
        && a.logging.console_output == b.logging.console_output
}

#[test]
fn test_config_loading() {
    let config = AppConfig::new(
        "config/default.toml",
        Some(DEFAULT_TOML),
        "development",
        None,
        &no_vars(),
    );
    assert!(config.is_ok(), "Should load configuration successfully");

    let config = config.unwrap();
    assert_eq!(config.app.name, "project-tpl");
    assert!(config.server.port > 0);
}

#[test]
fn test_custom_config_file() {
    let text = r#"
[app]
name = "test-app"
version = "2.0.0"
environment = "test"

[server]
host = "0.0.0.0"
port = 3000
timeout = 60

[database]
url = "postgres://localhost/testdb"
max_connections = 20
min_connections = 5

[logging]
level = "trace"
format = "json"
file_output = true
console_output = false
        "#;

    let config = AppConfig::from_file("custom.toml", Some(text)).unwrap();
    assert_eq!(config.app.name, "test-app");
    assert_eq!(config.app.version, "2.0.0");
    assert_eq!(config.server.port, 3000);
    assert_eq!(config.database.max_connections, 20);
    assert_eq!(config.logging.level, "trace");
}

#[test]
fn integration_test_test_config_validation() {
    let valid_config = valid_config(8080);
    assert!(valid_config.validate().is_ok());
}

#[test]
fn test_invalid_config_validation() {
    let invalid_config = valid_config(0);
    assert!(invalid_config.validate().is_err());
}

#[test]
fn test_environment_override() {
    let config = AppConfig::new(
        "config/default.toml",
        Some(DEFAULT_TOML),
        "production",
        Some(PRODUCTION_TOML),
        &no_vars(),
    );

    if config.is_ok() {
        let config = config.unwrap();
        // Production should override some settings
        assert_eq!(config.app.environment, "production");
    } else {
        panic!("production settings should resolve");
    }
}

#[test]
fn environment_source_overrides_fields_not_sections() {
    let config = AppConfig::new(
        "config/default.toml",
        Some(DEFAULT_TOML),
        "production",
        Some(PRODUCTION_TOML),
        &no_vars(),
    )
    .unwrap();
    assert_eq!(config.server.host, "0.0.0.0");
    assert_eq!(config.logging.format, "json");
    // fields the environment source leaves alone keep the base's values
    assert_eq!(config.server.port, 8080);
    assert_eq!(config.app.name, "project-tpl");
    assert_eq!(config.logging.level, "info");
}

#[test]
fn absent_environment_source_equals_base_alone() {
    let base = r#"
[app]
name = "project-tpl"
version = "1.0.0"
environment = "base"

[server]
host = "localhost"
port = 8080
timeout = 30

[database]
url = "postgres://localhost/db"
max_connections = 10
min_connections = 2

[logging]
level = "warn"
format = "text"
file_output = true
console_output = false
"#;
    let layered = AppConfig::new("base.toml", Some(base), "staging", None, &no_vars()).unwrap();
    let alone = AppConfig::from_file("base.toml", Some(base)).unwrap();
    assert!(same(&layered, &alone));
    assert_eq!(layered.app.name, "project-tpl");
    assert_eq!(layered.server.port, 8080);
    assert_eq!(layered.database.max_connections, 10);
    assert_eq!(layered.database.min_connections, 2);
}

#[test]
fn absent_environment_source_ignores_foreign_variables() {
    let vars = vec![var("HOME", "/root"), var("PATH", "/bin")];
    let layered = AppConfig::new("d.toml", Some(DEFAULT_TOML), "nonexistent-env", None, &vars).unwrap();
    let alone = AppConfig::from_file("d.toml", Some(DEFAULT_TOML)).unwrap();
    assert!(same(&layered, &alone));
}

#[test]
fn overlay_variable_sets_port() {
    let vars = vec![var("APP_SERVER__PORT", "3000")];
    let config = AppConfig::new("d.toml", Some(DEFAULT_TOML), "development", None, &vars).unwrap();
    assert_eq!(config.server.port, 3000);
}

#[test]
fn overlay_wins_over_both_sources() {
    let env_file = "[server]\nport = 7000\n";
    let vars = vec![var("APP_SERVER__PORT", "9999")];
    let config =
        AppConfig::new("d.toml", Some(DEFAULT_TOML), "production", Some(env_file), &vars).unwrap();
    assert_eq!(config.server.port, 9999);
}

#[test]
fn environment_file_port_wins_over_base() {
    let env_file = "[server]\nport = 7000\n";
    let config =
        AppConfig::new("d.toml", Some(DEFAULT_TOML), "production", Some(env_file), &no_vars())
            .unwrap();
    assert_eq!(config.server.port, 7000);
}

#[test]
fn overlay_sets_nested_fields_of_each_type() {
    let vars = vec![
        var("APP_DATABASE__MAX_CONNECTIONS", "20"),
        var("app_logging__file_output", "Yes"),
        var("APP_APP__NAME", "renamed"),
    ];
    let config = AppConfig::new("d.toml", Some(DEFAULT_TOML), "development", None, &vars).unwrap();
    assert_eq!(config.database.max_connections, 20);
    assert!(config.logging.file_output);
    assert_eq!(config.app.name, "renamed");
}

#[test]
fn last_overlay_variable_wins() {
    let vars = vec![var("APP_SERVER__PORT", "3000"), var("app_server__port", "4000")];
    let config = AppConfig::new("d.toml", Some(DEFAULT_TOML), "development", None, &vars).unwrap();
    assert_eq!(config.server.port, 4000);
}

#[test]
fn overlay_value_of_wrong_type_is_shape_error() {
    let vars = vec![var("APP_SERVER__PORT", "eighty")];
    match AppConfig::new("d.toml", Some(DEFAULT_TOML), "development", None, &vars) {
        Err(ConfigError::Shape { field }) => assert_eq!(field, "server.port"),
        _ => panic!("expected a shape error"),
    }
}

#[test]
fn missing_base_is_load_error() {
    match AppConfig::new("config/missing.toml", None, "development", None, &no_vars()) {
        Err(ConfigError::Load { path }) => assert_eq!(path, "config/missing.toml"),
        _ => panic!("expected a load error"),
    }
}

#[test]
fn malformed_environment_source_is_parse_error() {
    match AppConfig::new("d.toml", Some(DEFAULT_TOML), "broken", Some("[server\n"), &no_vars()) {
        Err(ConfigError::Parse { path, .. }) => assert_eq!(path, "config/broken"),
        _ => panic!("expected a parse error"),
    }
}

#[test]
fn malformed_base_is_parse_error() {
    match AppConfig::new("d.toml", Some("= = ="), "development", None, &no_vars()) {
        Err(ConfigError::Parse { path, .. }) => assert_eq!(path, "d.toml"),
        _ => panic!("expected a parse error"),
    }
}

#[test]
fn environment_source_path() {
    assert_eq!(environment_source("staging"), "config/staging");
    assert_eq!(environment_source(""), "config/");
}

fn parsed(text: &str) -> ::config::Config {
    ::config::Config::builder()
        .add_source(::config::File::from_str(text, ::config::FileFormat::Toml))
        .build()
        .unwrap()
}

#[test]
fn decoding_parsed_layers() {
    let base = parsed(DEFAULT_TOML);
    let file = Some(parsed(PRODUCTION_TOML));
    let vars = vec![var("APP_SERVER__TIMEOUT", "90")];
    let config = AppConfig::from_layers(&base, &file, &vars).unwrap();
    assert_eq!(config.app.environment, "production");
    assert_eq!(config.server.timeout, 90);
    assert_eq!(config.server.port, 8080);
    let lone = AppConfig::from_layers(&parsed("[app]\nname = \"x\"\n"), &None, &no_vars());
    match lone {
        Err(ConfigError::Shape { field }) => assert_eq!(field, "app.version"),
        _ => panic!("expected a shape error"),
    }
}

#[test]
fn same_text_resolves_the_same_every_time() {
    let text = DEFAULT_TOML.replace("[app]", "\"server.port\" = 1\n\n[app]");
    let first = AppConfig::from_file("d.toml", Some(&text)).unwrap();
    for _ in 0..32 {
        let again = AppConfig::from_file("d.toml", Some(&text)).unwrap();
        assert!(same(&first, &again));
    }
}
