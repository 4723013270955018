use vstd::prelude::*;
use vstd::string::*;
use crate::config::LoggingSettings;
use crate::scalar::{eq_ignore_case, str_eq_ignore_case};

verus! {

/// The severity threshold of the log output.
#[derive(Debug, Clone, Copy, PartialEq, Eq, Structural)]
pub enum LogLevel {
    Trace,
    Debug,
    Info,
    Warn,
    Error,
}

/// How log lines are written.
#[derive(Debug, Clone, Copy, PartialEq, Eq, Structural)]
pub enum LogFormat {
    Json,
    Plain,
}

/// What the logging sinks are to be set up with.
#[derive(Debug, Clone, Copy, PartialEq, Eq, Structural)]
pub struct LogPlan {
    pub level: LogLevel,
    pub format: LogFormat,
    pub console: bool,
    pub file: bool,
}

/// The level that a name denotes, in any ASCII case.
pub open spec fn level_named(s: Seq<char>) -> Option<LogLevel> {
    if eq_ignore_case(s, "trace"@) {
        Some(LogLevel::Trace)
    } else if eq_ignore_case(s, "debug"@) {
        Some(LogLevel::Debug)
    } else if eq_ignore_case(s, "info"@) {
        Some(LogLevel::Info)
    } else if eq_ignore_case(s, "warn"@) {
        Some(LogLevel::Warn)
    } else if eq_ignore_case(s, "error"@) {
        Some(LogLevel::Error)
    } else {
        None
    }
}

/// `json` selects structured lines; any other name plain text.
pub open spec fn format_named(s: Seq<char>) -> LogFormat {
    if s == "json"@ {
        LogFormat::Json
    } else {
        LogFormat::Plain
    }
}

/// Reads a level name (`trace`, `debug`, `info`, `warn` or `error`, in any
/// ASCII case); an unknown name gives an error that quotes it.
pub fn parse_log_level(level: &str) -> (r: Result<LogLevel, String>)
    ensures
        match level_named(level@) {
            Some(l) => r == Ok::<LogLevel, String>(l),
            None => r matches Err(m) && m@ == "Invalid log level: "@ + level@,
        },
{
    if str_eq_ignore_case(level, "trace") {
        Ok(LogLevel::Trace)
    } else if str_eq_ignore_case(level, "debug") {
        Ok(LogLevel::Debug)
    } else if str_eq_ignore_case(level, "info") {
        Ok(LogLevel::Info)
    } else if str_eq_ignore_case(level, "warn") {
        Ok(LogLevel::Warn)
    } else if str_eq_ignore_case(level, "error") {
        Ok(LogLevel::Error)
    } else {
        let mut m = String::from_str("Invalid log level: ");
        m.append(level);
        Err(m)
    }
}

/// Decides how logging is set up from its settings: the level (an unknown
/// level name is an error), the line format and the enabled sinks.
pub fn plan(config: &LoggingSettings) -> (r: Result<LogPlan, String>)
    ensures
        match level_named(config.level@) {
            Some(l) => r == Ok::<LogPlan, String>(
                LogPlan {
                    level: l,
                    format: format_named(config.format@),
                    console: config.console_output,
                    file: config.file_output,
                },
            ),
            None => r matches Err(m) && m@ == "Invalid log level: "@ + config.level@,
        },
{
    let level = match parse_log_level(config.level.as_str()) {
        Ok(l) => l,
        Err(m) => return Err(m),
    };
    let json = String::from_str("json");
    let format = if config.format == json {
        LogFormat::Json
    } else {
        LogFormat::Plain
    };
    Ok(LogPlan { level, format, console: config.console_output, file: config.file_output })
}

} // verus!
