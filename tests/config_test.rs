use project_tpl::config::{
    AppConfig, AppSettings, ConfigError, DatabaseSettings, LoggingSettings, ServerSettings,
    ValidationError,
};

fn sample_config() -> AppConfig {
    AppConfig {
        app: AppSettings {
            name: "test".to_string(),
            version: "1.0".to_string(),
            environment: "test".to_string(),
        },
        server: ServerSettings {
            host: "localhost".to_string(),
            port: 8080,
            timeout: 30,
        },
        database: DatabaseSettings {
            url: "postgres://localhost/db".to_string(),
            max_connections: 10,
            min_connections: 2,
        },
        logging: LoggingSettings {
            level: "info".to_string(),
            format: "json".to_string(),
            file_output: true,
            console_output: true,
        },
    }
}

const TEST_APP: &str = r#"
[app]
name = "test-app"
version = "1.0.0"
environment = "test"

[server]
host = "localhost"
port = 9000
timeout = 30

[database]
url = "postgres://localhost/test"
max_connections = 5
min_connections = 1

[logging]
level = "debug"
format = "text"
file_output = false
console_output = true
"#;

#[test]
fn test_config_from_file() {
    let config = AppConfig::from_file("test.toml", Some(TEST_APP)).unwrap();
    assert_eq!(config.app.name, "test-app");
    assert_eq!(config.server.port, 9000);
    assert_eq!(config.database.max_connections, 5);
}

#[test]
fn config_test_config_validation() {
    let mut config = sample_config();

    assert!(config.validate().is_ok());

    // Test invalid configuration
    config.database.max_connections = 1;
    config.database.min_connections = 5;
    assert!(config.validate().is_err());
}

#[test]
fn validate_rejects_port_zero() {
    let mut config = sample_config();
    config.server.port = 0;
    assert_eq!(config.validate(), Err(ValidationError::ZeroPort));
    assert_eq!(
        ValidationError::ZeroPort.message(),
        "Server port must be greater than 0"
    );
}

#[test]
fn validate_accepts_port_bounds() {
    let mut config = sample_config();
    config.server.port = 1;
    assert_eq!(config.validate(), Ok(()));
    config.server.port = 65535;
    assert_eq!(config.validate(), Ok(()));
}

#[test]
fn validate_pool_bounds() {
    let mut config = sample_config();
    config.database.max_connections = 3;
    config.database.min_connections = 3;
    assert_eq!(config.validate(), Ok(()));
    config.database.max_connections = 2;
    assert_eq!(
        config.validate(),
        Err(ValidationError::PoolBounds { max_connections: 2, min_connections: 3 })
    );
    assert_eq!(
        (ValidationError::PoolBounds { max_connections: 2, min_connections: 3 }).message(),
        "Max connections must be >= min connections"
    );
}

#[test]
fn validate_checks_port_first() {
    let mut config = sample_config();
    config.server.port = 0;
    config.database.max_connections = 1;
    config.database.min_connections = 5;
    assert_eq!(config.validate(), Err(ValidationError::ZeroPort));
}

#[test]
fn from_file_unreadable_is_load_error() {
    match AppConfig::from_file("missing.toml", None) {
        Err(ConfigError::Load { path }) => assert_eq!(path, "missing.toml"),
        _ => panic!("expected a load error"),
    }
}

#[test]
fn from_file_malformed_is_parse_error() {
    match AppConfig::from_file("bad.toml", Some("[app\nname = ")) {
        Err(ConfigError::Parse { path, message }) => {
            assert_eq!(path, "bad.toml");
            assert!(!message.is_empty());
        }
        _ => panic!("expected a parse error"),
    }
}

#[test]
fn from_file_missing_field_is_shape_error() {
    let text = TEST_APP.replace("timeout = 30\n", "");
    match AppConfig::from_file("t.toml", Some(&text)) {
        Err(ConfigError::Shape { field }) => assert_eq!(field, "server.timeout"),
        _ => panic!("expected a shape error"),
    }
}

#[test]
fn from_file_wrong_type_is_shape_error() {
    let text = TEST_APP.replace("port = 9000", "port = \"abc\"");
    match AppConfig::from_file("t.toml", Some(&text)) {
        Err(ConfigError::Shape { field }) => assert_eq!(field, "server.port"),
        _ => panic!("expected a shape error"),
    }
}

#[test]
fn from_file_port_out_of_range_is_shape_error() {
    let text = TEST_APP.replace("port = 9000", "port = 70000");
    match AppConfig::from_file("t.toml", Some(&text)) {
        Err(ConfigError::Shape { field }) => assert_eq!(field, "server.port"),
        _ => panic!("expected a shape error"),
    }
}

#[test]
fn from_file_reports_first_misfit_in_order() {
    let text = TEST_APP
        .replace("name = \"test-app\"\n", "")
        .replace("level = \"debug\"\n", "");
    match AppConfig::from_file("t.toml", Some(&text)) {
        Err(ConfigError::Shape { field }) => assert_eq!(field, "app.name"),
        _ => panic!("expected a shape error"),
    }
}

#[test]
fn from_file_ignores_unknown_keys() {
    let text = format!("{}\n[extra]\nthing = 1\n", TEST_APP);
    let config = AppConfig::from_file("t.toml", Some(&text)).unwrap();
    assert_eq!(config.server.host, "localhost");
    assert_eq!(config.logging.level, "debug");
    assert!(config.logging.console_output);
    assert!(!config.logging.file_output);
}

#[test]
fn round_trip_through_text() {
    let config = sample_config();
    let text = format!(
        "[app]\nname = \"{}\"\nversion = \"{}\"\nenvironment = \"{}\"\n\n\
         [server]\nhost = \"{}\"\nport = {}\ntimeout = {}\n\n\
         [database]\nurl = \"{}\"\nmax_connections = {}\nmin_connections = {}\n\n\
         [logging]\nlevel = \"{}\"\nformat = \"{}\"\nfile_output = {}\nconsole_output = {}\n",
        config.app.name,
        config.app.version,
        config.app.environment,
        config.server.host,
        config.server.port,
        config.server.timeout,
        config.database.url,
        config.database.max_connections,
        config.database.min_connections,
        config.logging.level,
        config.logging.format,
        config.logging.file_output,
        config.logging.console_output,
    );
    let back = AppConfig::from_file("t.toml", Some(&text)).unwrap();
    assert_eq!(back.app.name, config.app.name);
    assert_eq!(back.app.version, config.app.version);
    assert_eq!(back.app.environment, config.app.environment);
    assert_eq!(back.server.host, config.server.host);
    assert_eq!(back.server.port, config.server.port);
    assert_eq!(back.server.timeout, config.server.timeout);
    assert_eq!(back.database.url, config.database.url);
    assert_eq!(back.database.max_connections, config.database.max_connections);
    assert_eq!(back.database.min_connections, config.database.min_connections);
    assert_eq!(back.logging.level, config.logging.level);
    assert_eq!(back.logging.format, config.logging.format);
    assert_eq!(back.logging.file_output, config.logging.file_output);
    assert_eq!(back.logging.console_output, config.logging.console_output);
}
