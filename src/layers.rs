use vstd::prelude::*;
use crate::config::{
    AppConfig, AppConfigView, AppSettings, AppSettingsView, DatabaseSettings,
    DatabaseSettingsView, LoggingSettings, LoggingSettingsView, ServerSettings, ServerSettingsView,
};
use crate::overlay::{overlay_lookup, overlay_value};
use crate::scalar::{decode_flag, decode_text, decode_uint, option_view, Scalar, ScalarView};
use crate::source::{entries_of, entry, lookup};

verus! {

/// How a key path is looked up in the merged sources.
pub type Lookup = spec_fn(Seq<char>) -> Option<ScalarView>;

/// The leaf that the merge gives to `key`: the overlay's value if a variable
/// sets it, else the environment source's if it has one, else the base's.
pub open spec fn merged(
    base: Map<Seq<char>, ScalarView>,
    file: Option<Map<Seq<char>, ScalarView>>,
    vars: Seq<(String, String)>,
    key: Seq<char>,
) -> Option<ScalarView> {
    match overlay_lookup(vars, key) {
        Some(v) => Some(ScalarView::Str(v)),
        None => if file is Some && file->0.contains_key(key) {
            Some(file->0[key])
        } else {
            entry(base, key)
        },
    }
}

pub open spec fn layered(
    base: Map<Seq<char>, ScalarView>,
    file: Option<Map<Seq<char>, ScalarView>>,
    vars: Seq<(String, String)>,
) -> Lookup {
    |key: Seq<char>| merged(base, file, vars, key)
}

pub open spec fn text_field(look: Lookup, key: Seq<char>) -> Result<Seq<char>, Seq<char>> {
    match decode_text(look(key)) {
        Some(s) => Ok(s),
        None => Err(key),
    }
}

pub open spec fn uint_field(look: Lookup, key: Seq<char>, max: int) -> Result<int, Seq<char>> {
    match decode_uint(look(key), max) {
        Some(n) => Ok(n),
        None => Err(key),
    }
}

pub open spec fn flag_field(look: Lookup, key: Seq<char>) -> Result<bool, Seq<char>> {
    match decode_flag(look(key)) {
        Some(b) => Ok(b),
        None => Err(key),
    }
}

pub open spec fn app_shape(look: Lookup) -> Result<AppSettingsView, Seq<char>> {
    match (
        text_field(look, "app.name"@),
        text_field(look, "app.version"@),
        text_field(look, "app.environment"@),
    ) {
        (Ok(name), Ok(version), Ok(environment)) => Ok(
            AppSettingsView { name, version, environment },
        ),
        (Err(k), _, _) => Err(k),
        (_, Err(k), _) => Err(k),
        (_, _, Err(k)) => Err(k),
    }
}

pub open spec fn server_shape(look: Lookup) -> Result<ServerSettingsView, Seq<char>> {
    match (
        text_field(look, "server.host"@),
        uint_field(look, "server.port"@, 0xffff),
        uint_field(look, "server.timeout"@, 0xffff_ffff_ffff_ffff),
    ) {
        (Ok(host), Ok(port), Ok(timeout)) => Ok(ServerSettingsView { host, port, timeout }),
        (Err(k), _, _) => Err(k),
        (_, Err(k), _) => Err(k),
        (_, _, Err(k)) => Err(k),
    }
}

pub open spec fn database_shape(look: Lookup) -> Result<DatabaseSettingsView, Seq<char>> {
    match (
        text_field(look, "database.url"@),
        uint_field(look, "database.max_connections"@, 0xffff_ffff),
        uint_field(look, "database.min_connections"@, 0xffff_ffff),
    ) {
        (Ok(url), Ok(max_connections), Ok(min_connections)) => Ok(
            DatabaseSettingsView { url, max_connections, min_connections },
        ),
        (Err(k), _, _) => Err(k),
        (_, Err(k), _) => Err(k),
        (_, _, Err(k)) => Err(k),
    }
}

pub open spec fn logging_shape(look: Lookup) -> Result<LoggingSettingsView, Seq<char>> {
    match (
        text_field(look, "logging.level"@),
        text_field(look, "logging.format"@),
        flag_field(look, "logging.file_output"@),
        flag_field(look, "logging.console_output"@),
    ) {
        (Ok(level), Ok(format), Ok(file_output), Ok(console_output)) => Ok(
            LoggingSettingsView { level, format, file_output, console_output },
        ),
        (Err(k), _, _, _) => Err(k),
        (_, Err(k), _, _) => Err(k),
        (_, _, Err(k), _) => Err(k),
        (_, _, _, Err(k)) => Err(k),
    }
}

/// The record that the merged sources decode to, or the path of the first
/// field (sections and fields in declaration order) that is missing or of
/// the wrong type.
pub open spec fn shape_of(look: Lookup) -> Result<AppConfigView, Seq<char>> {
    match (app_shape(look), server_shape(look), database_shape(look), logging_shape(look)) {
        (Ok(app), Ok(server), Ok(database), Ok(logging)) => Ok(
            AppConfigView { app, server, database, logging },
        ),
        (Err(k), _, _, _) => Err(k),
        (_, Err(k), _, _) => Err(k),
        (_, _, Err(k), _) => Err(k),
        (_, _, _, Err(k)) => Err(k),
    }
}

pub open spec fn file_entries(file: Option<::config::Config>) -> Option<Map<Seq<char>, ScalarView>> {
    match file {
        Some(c) => Some(entries_of(c)),
        None => None,
    }
}

/// The three layers of one resolution, as parsed sources and a snapshot of
/// the process environment.
pub struct Layers<'a> {
    pub base: &'a ::config::Config,
    pub file: &'a Option<::config::Config>,
    pub vars: &'a Vec<(String, String)>,
}

impl<'a> Layers<'a> {
    pub open spec fn look(&self) -> Lookup {
        layered(entries_of(*self.base), file_entries(*self.file), self.vars@)
    }

    /// The merged leaf at `key`.
    pub fn get(&self, key: &str) -> (r: Option<Scalar>)
        ensures
            option_view(&r) == (self.look())(key@),
    {
        match overlay_value(self.vars, key) {
            Some(v) => Some(Scalar::Str(v)),
            None => {
                match self.file {
                    Some(f) => {
                        let hit = lookup(f, key);
                        if hit.is_some() {
                            return hit;
                        }
                    },
                    None => {},
                }
                lookup(self.base, key)
            },
        }
    }

    fn text(&self, key: &str) -> (r: Result<String, String>)
        ensures
            match text_field(self.look(), key@) {
                Ok(s) => r matches Ok(t) && t@ == s,
                Err(k) => r matches Err(e) && e@ == k,
            },
    {
        match Scalar::to_text(&self.get(key)) {
            Some(s) => Ok(s),
            None => Err(key.to_string()),
        }
    }

    fn uint(&self, key: &str, max: u64) -> (r: Result<u64, String>)
        ensures
            match uint_field(self.look(), key@, max as int) {
                Ok(n) => r matches Ok(t) && t as int == n,
                Err(k) => r matches Err(e) && e@ == k,
            },
    {
        match Scalar::to_uint(&self.get(key), max) {
            Some(n) => Ok(n),
            None => Err(key.to_string()),
        }
    }

    fn flag(&self, key: &str) -> (r: Result<bool, String>)
        ensures
            match flag_field(self.look(), key@) {
                Ok(b) => r matches Ok(t) && t == b,
                Err(k) => r matches Err(e) && e@ == k,
            },
    {
        match Scalar::to_flag(&self.get(key)) {
            Some(b) => Ok(b),
            None => Err(key.to_string()),
        }
    }
    fn app_section(&self) -> (r: Result<AppSettings, String>)
        ensures
            match app_shape(self.look()) {
                Ok(v) => r matches Ok(t) && t@ == v,
                Err(k) => r matches Err(e) && e@ == k,
            },
    {
        let name = match self.text("app.name") {
            Ok(v) => v,
            Err(e) => return Err(e),
        };
        let version = match self.text("app.version") {
            Ok(v) => v,
            Err(e) => return Err(e),
        };
        let environment = match self.text("app.environment") {
            Ok(v) => v,
            Err(e) => return Err(e),
        };
        Ok(AppSettings { name, version, environment })
    }

    fn server_section(&self) -> (r: Result<ServerSettings, String>)
        ensures
            match server_shape(self.look()) {
                Ok(v) => r matches Ok(t) && t@ == v,
                Err(k) => r matches Err(e) && e@ == k,
            },
    {
        let host = match self.text("server.host") {
            Ok(v) => v,
            Err(e) => return Err(e),
        };
        let port = match self.uint("server.port", 0xffff) {
            Ok(v) => v as u16,
            Err(e) => return Err(e),
        };
        let timeout = match self.uint("server.timeout", 0xffff_ffff_ffff_ffff) {
            Ok(v) => v,
            Err(e) => return Err(e),
        };
        Ok(ServerSettings { host, port, timeout })
    }

    fn database_section(&self) -> (r: Result<DatabaseSettings, String>)
        ensures
            match database_shape(self.look()) {
                Ok(v) => r matches Ok(t) && t@ == v,
                Err(k) => r matches Err(e) && e@ == k,
            },
    {
        let url = match self.text("database.url") {
            Ok(v) => v,
            Err(e) => return Err(e),
        };
        let max_connections = match self.uint("database.max_connections", 0xffff_ffff) {
            Ok(v) => v as u32,
            Err(e) => return Err(e),
        };
        let min_connections = match self.uint("database.min_connections", 0xffff_ffff) {
            Ok(v) => v as u32,
            Err(e) => return Err(e),
        };
        Ok(DatabaseSettings { url, max_connections, min_connections })
    }

    fn logging_section(&self) -> (r: Result<LoggingSettings, String>)
        ensures
            match logging_shape(self.look()) {
                Ok(v) => r matches Ok(t) && t@ == v,
                Err(k) => r matches Err(e) && e@ == k,
            },
    {
        let level = match self.text("logging.level") {
            Ok(v) => v,
            Err(e) => return Err(e),
        };
        let format = match self.text("logging.format") {
            Ok(v) => v,
            Err(e) => return Err(e),
        };
        let file_output = match self.flag("logging.file_output") {
            Ok(v) => v,
            Err(e) => return Err(e),
        };
        let console_output = match self.flag("logging.console_output") {
            Ok(v) => v,
            Err(e) => return Err(e),
        };
        Ok(LoggingSettings { level, format, file_output, console_output })
    }

    /// Decodes the merged sources into the settings record, walking the
    /// fields in declaration order; an error names the first field that is
    /// missing or of the wrong type.
    pub fn decode(&self) -> (r: Result<AppConfig, String>)
        ensures
            match shape_of(self.look()) {
                Ok(v) => r matches Ok(t) && t@ == v,
                Err(k) => r matches Err(e) && e@ == k,
            },
    {
        let app = match self.app_section() {
            Ok(v) => v,
            Err(e) => return Err(e),
        };
        let server = match self.server_section() {
            Ok(v) => v,
            Err(e) => return Err(e),
        };
        let database = match self.database_section() {
            Ok(v) => v,
            Err(e) => return Err(e),
        };
        let logging = match self.logging_section() {
            Ok(v) => v,
            Err(e) => return Err(e),
        };
        Ok(AppConfig { app, server, database, logging })
    }
}

} // verus!
