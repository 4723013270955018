//! Layered configuration for an application bootstrap: a required base
//! source, an optional per-environment source and an `APP_` environment
//! overlay, merged field by field into a fixed-shape settings record.

pub mod cli;
pub mod config;
pub mod layers;
pub mod logging;
pub mod overlay;
pub mod precedence;
pub mod scalar;
pub mod source;

pub use cli::Cli;
pub use config::AppConfig;
