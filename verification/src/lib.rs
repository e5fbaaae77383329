//! Start-up configuration of a container log viewer.
//!
//! The command line arrives as a flat record of raw options ([`Args`]). This
//! library turns that record into the configuration the rest of the program
//! reads ([`CliArgs`]), or names the one reason why it cannot
//! ([`ConfigError`]). Nothing here prints or ends the process, and the one
//! variable of the environment that matters is read by the caller, who also
//! decides what to do with an error.

pub mod args;
pub mod base_url_map;
pub mod cli_args;
pub mod container;
pub mod error;
pub mod save_dir;
pub mod split;

pub use args::Args;
pub use base_url_map::BaseUrlMap;
pub use cli_args::CliArgs;
pub use error::ConfigError;
