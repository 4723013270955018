use vstd::prelude::*;
use vstd::string::*;
use crate::layers::{file_entries, layered, shape_of, Layers, Lookup};
use crate::source::{entries_of, parse_toml, toml_parse};

verus! {

/// The `app` section: who the running program is.
#[derive(Debug, Clone)]
pub struct AppSettings {
    pub name: String,
    pub version: String,
    pub environment: String,
}

/// The `server` section: where to listen and for how long to wait (seconds).
#[derive(Debug, Clone)]
pub struct ServerSettings {
    pub host: String,
    pub port: u16,
    pub timeout: u64,
}

/// The `database` section: connection target and pool bounds.
#[derive(Debug, Clone)]
pub struct DatabaseSettings {
    pub url: String,
    pub max_connections: u32,
    pub min_connections: u32,
}

/// The `logging` section: level name, output format and the enabled sinks.
#[derive(Debug, Clone)]
pub struct LoggingSettings {
    pub level: String,
    pub format: String,
    pub file_output: bool,
    pub console_output: bool,
}

/// The resolved settings record.
#[derive(Debug, Clone)]
pub struct AppConfig {
    pub app: AppSettings,
    pub server: ServerSettings,
    pub database: DatabaseSettings,
    pub logging: LoggingSettings,
}

pub ghost struct AppSettingsView {
    pub name: Seq<char>,
    pub version: Seq<char>,
    pub environment: Seq<char>,
}

pub ghost struct ServerSettingsView {
    pub host: Seq<char>,
    pub port: int,
    pub timeout: int,
}

pub ghost struct DatabaseSettingsView {
    pub url: Seq<char>,
    pub max_connections: int,
    pub min_connections: int,
}

pub ghost struct LoggingSettingsView {
    pub level: Seq<char>,
    pub format: Seq<char>,
    pub file_output: bool,
    pub console_output: bool,
}

pub ghost struct AppConfigView {
    pub app: AppSettingsView,
    pub server: ServerSettingsView,
    pub database: DatabaseSettingsView,
    pub logging: LoggingSettingsView,
}

impl View for AppSettings {
    type V = AppSettingsView;

    open spec fn view(&self) -> AppSettingsView {
        AppSettingsView { name: self.name@, version: self.version@, environment: self.environment@ }
    }
}

impl View for ServerSettings {
    type V = ServerSettingsView;

    open spec fn view(&self) -> ServerSettingsView {
        ServerSettingsView { host: self.host@, port: self.port as int, timeout: self.timeout as int }
    }
}

impl View for DatabaseSettings {
    type V = DatabaseSettingsView;

    open spec fn view(&self) -> DatabaseSettingsView {
        DatabaseSettingsView {
            url: self.url@,
            max_connections: self.max_connections as int,
            min_connections: self.min_connections as int,
        }
    }
}

impl View for LoggingSettings {
    type V = LoggingSettingsView;

    open spec fn view(&self) -> LoggingSettingsView {
        LoggingSettingsView {
            level: self.level@,
            format: self.format@,
            file_output: self.file_output,
            console_output: self.console_output,
        }
    }
}

impl View for AppConfig {
    type V = AppConfigView;

    open spec fn view(&self) -> AppConfigView {
        AppConfigView {
            app: self.app@,
            server: self.server@,
            database: self.database@,
            logging: self.logging@,
        }
    }
}

/// A domain rule that a resolved record breaks.
#[derive(Debug, Clone, Copy, PartialEq, Eq, Structural)]
pub enum ValidationError {
    /// The server port is 0.
    ZeroPort,
    /// The pool's upper bound is below its lower bound: the two bounds found.
    PoolBounds { max_connections: u32, min_connections: u32 },
}

impl ValidationError {
    /// A sentence that describes the broken rule.
    pub fn message(&self) -> (r: String)
        ensures
            r@ == (match self {
                ValidationError::ZeroPort => "Server port must be greater than 0"@,
                ValidationError::PoolBounds { .. } => "Max connections must be >= min connections"@,
            }),
    {
        match self {
            ValidationError::ZeroPort => String::from_str("Server port must be greater than 0"),
            ValidationError::PoolBounds { .. } => String::from_str("Max connections must be >= min connections"),
        }
    }
}

/// The first rule, in order, that a record with these views breaks.
pub open spec fn first_violation(c: AppConfigView) -> Option<ValidationError> {
    if c.server.port == 0 {
        Some(ValidationError::ZeroPort)
    } else if c.database.max_connections < c.database.min_connections {
        Some(
            ValidationError::PoolBounds {
                max_connections: c.database.max_connections as u32,
                min_connections: c.database.min_connections as u32,
            },
        )
    } else {
        None
    }
}


/// Why resolving the settings failed.
#[derive(Debug)]
pub enum ConfigError {
    /// The required base source could not be read.
    Load { path: String },
    /// A source that is there is not valid structured text.
    Parse { path: String, message: String },
    /// The merged sources do not fit the settings record: `field` is the
    /// dotted path of the first field that is missing or of the wrong type.
    Shape { field: String },
}

pub ghost enum ConfigErrorView {
    Load(Seq<char>),
    Parse(Seq<char>, Seq<char>),
    Shape(Seq<char>),
}

impl View for ConfigError {
    type V = ConfigErrorView;

    open spec fn view(&self) -> ConfigErrorView {
        match self {
            ConfigError::Load { path } => ConfigErrorView::Load(path@),
            ConfigError::Parse { path, message } => ConfigErrorView::Parse(path@, message@),
            ConfigError::Shape { field } => ConfigErrorView::Shape(field@),
        }
    }
}

pub open spec fn outcome(r: Result<AppConfig, ConfigError>) -> Result<AppConfigView, ConfigErrorView> {
    match r {
        Ok(c) => Ok(c@),
        Err(e) => Err(e@),
    }
}

pub open spec fn text_view(t: Option<&str>) -> Option<Seq<char>> {
    match t {
        Some(s) => Some(s@),
        None => None,
    }
}

/// Where the source of an environment is looked for: `config/<environment>`,
/// the extension left to whoever reads it.
pub open spec fn environment_path(environment: Seq<char>) -> Seq<char> {
    "config/"@ + environment
}

/// The merged sources decoded, a misfit reported as a shape error.
pub open spec fn decoded(look: Lookup) -> Result<AppConfigView, ConfigErrorView> {
    match shape_of(look) {
        Ok(v) => Ok(v),
        Err(k) => Err(ConfigErrorView::Shape(k)),
    }
}

/// The result of a layered resolution: the base source at `path` (its text,
/// `None` where it could not be read), the optional source of
/// `environment`, and the overlay of variables `vars`.
pub open spec fn resolution(
    path: Seq<char>,
    base: Option<Seq<char>>,
    environment: Seq<char>,
    file: Option<Seq<char>>,
    vars: Seq<(String, String)>,
) -> Result<AppConfigView, ConfigErrorView> {
    match base {
        None => Err(ConfigErrorView::Load(path)),
        Some(t) => match toml_parse(t) {
            Err(m) => Err(ConfigErrorView::Parse(path, m)),
            Ok(b) => match file {
                None => decoded(layered(b, None, vars)),
                Some(e) => match toml_parse(e) {
                    Err(m) => Err(ConfigErrorView::Parse(environment_path(environment), m)),
                    Ok(f) => decoded(layered(b, Some(f), vars)),
                },
            },
        },
    }
}

/// The result of resolving one source alone.
pub open spec fn file_resolution(path: Seq<char>, text: Option<Seq<char>>) -> Result<
    AppConfigView,
    ConfigErrorView,
> {
    match text {
        None => Err(ConfigErrorView::Load(path)),
        Some(t) => match toml_parse(t) {
            Err(m) => Err(ConfigErrorView::Parse(path, m)),
            Ok(b) => decoded(layered(b, None, Seq::empty())),
        },
    }
}

/// The path of the optional source of `environment`.
pub fn environment_source(environment: &str) -> (r: String)
    ensures
        r@ == environment_path(environment@),
{
    let mut r = String::from_str("config/");
    r.append(environment);
    r
}

fn parse_source(path: &str, text: &str) -> (r: Result<::config::Config, ConfigError>)
    ensures
        match r {
            Ok(c) => toml_parse(text@) == Ok::<_, Seq<char>>(entries_of(c)),
            Err(e) => toml_parse(text@) matches Err(m) && e@ == ConfigErrorView::Parse(path@, m),
        },
{
    match parse_toml(text) {
        Ok(c) => Ok(c),
        Err(message) => Err(ConfigError::Parse { path: path.to_string(), message }),
    }
}

impl AppConfig {
    /// Resolves the settings from a base source, the optional source of an
    /// environment and an overlay of environment variables, later layers
    /// winning field by field. `base_text` is the content of the base source
    /// at `config_path` (`None` where it could not be read),
    /// `environment_text` that of the source of `environment` (`None` where
    /// there is none), and `vars` a snapshot of the process environment.
    pub fn new(
        config_path: &str,
        base_text: Option<&str>,
        environment: &str,
        environment_text: Option<&str>,
        vars: &Vec<(String, String)>,
    ) -> (r: Result<AppConfig, ConfigError>)
        ensures
            outcome(r) == resolution(
                config_path@,
                text_view(base_text),
                environment@,
                text_view(environment_text),
                vars@,
            ),
    {
        let base = match base_text {
            None => return Err(ConfigError::Load { path: config_path.to_string() }),
            Some(t) => match parse_source(config_path, t) {
                Ok(c) => c,
                Err(e) => return Err(e),
            },
        };
        let file = match environment_text {
            None => None,
            Some(t) => match parse_source(environment_source(environment).as_str(), t) {
                Ok(c) => Some(c),
                Err(e) => return Err(e),
            },
        };
        AppConfig::from_layers(&base, &file, vars)
    }

    /// Resolves the settings from one source alone, with no environment
    /// source and no overlay.
    pub fn from_file(path: &str, text: Option<&str>) -> (r: Result<AppConfig, ConfigError>)
        ensures
            outcome(r) == file_resolution(path@, text_view(text)),
    {
        let base = match text {
            None => return Err(ConfigError::Load { path: path.to_string() }),
            Some(t) => match parse_source(path, t) {
                Ok(c) => c,
                Err(e) => return Err(e),
            },
        };
        let vars: Vec<(String, String)> = Vec::new();
        let r = AppConfig::from_layers(&base, &None, &vars);
        assert(vars@ =~= Seq::empty());
        r
    }

    /// Decodes already parsed sources and an overlay into the settings record.
    pub fn from_layers(
        base: &::config::Config,
        file: &Option<::config::Config>,
        vars: &Vec<(String, String)>,
    ) -> (r: Result<AppConfig, ConfigError>)
        ensures
            outcome(r) == decoded(layered(entries_of(*base), file_entries(*file), vars@)),
    {
        let layers = Layers { base, file, vars };
        match layers.decode() {
            Ok(c) => Ok(c),
            Err(field) => Err(ConfigError::Shape { field }),
        }
    }

    /// Checks the two domain rules in order: a nonzero port, then
    /// `max_connections >= min_connections`.
    pub fn validate(&self) -> (r: Result<(), ValidationError>)
        ensures
            r is Ok <==> (self.server.port != 0 && self.database.max_connections
                >= self.database.min_connections),
            r is Err ==> first_violation(self@) == Some(r->Err_0),
            self.server.port == 0 ==> r == Err::<(), ValidationError>(ValidationError::ZeroPort),
    {
        if self.server.port == 0 {
            return Err(ValidationError::ZeroPort);
        }
        if self.database.max_connections < self.database.min_connections {
            return Err(
                ValidationError::PoolBounds {
                    max_connections: self.database.max_connections,
                    min_connections: self.database.min_connections,
                },
            );
        }
        Ok(())
    }
}

} // verus!
