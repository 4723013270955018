use vstd::prelude::*;

verus! {

/// The program's command line: config file, environment, verbosity, an
/// optional level override and an optional subcommand.
#[derive(Debug, Clone)]
pub struct Cli {
    /// Configuration file path.
    pub config: String,
    /// Environment name (development, production, test).
    pub env: String,
    /// Verbose output.
    pub verbose: bool,
    /// Log level override (trace, debug, info, warn, error).
    pub log_level: Option<String>,
    /// Subcommand to execute.
    pub command: Option<Commands>,
}

/// The subcommands.
#[derive(Debug, Clone)]
pub enum Commands {
    /// Run in server mode, on `port` if given.
    Serve { port: Option<u16> },
    /// Show the current configuration.
    Config,
    /// Run database migrations, or roll them back.
    Migrate { rollback: bool },
}

} // verus!
