//! Command-line arguments, as the parser fills them in.

use vstd::prelude::*;
use crate::text::owned;

verus! {

/// The parsed command line.
#[derive(Debug)]
pub struct CliArgs {
    /// mihomo external-controller address (e.g. `127.0.0.1:9090`).
    pub api_addr: String,
    /// mihomo API secret (`secret` field in config.yaml).
    pub secret: String,
    /// Use HTTPS instead of HTTP for the API connection.
    pub use_https: bool,
    /// Use a light color theme.
    pub light_theme: bool,
    /// Tick rate in milliseconds (controls UI refresh).
    pub tick_rate: u64,
    /// Path to an extra mihomo config directory.
    pub config_dir: Option<String>,
    /// Log level: off, error, warn, info, debug, trace.
    pub log_level: String,
    /// Write logs to a file instead of stderr.
    pub log_file: Option<String>,
    /// Optional subcommand (when omitted the full TUI is launched).
    pub command: Option<CliCommand>,
}

/// Optional subcommand.
#[derive(Debug, Clone, Copy, PartialEq, Eq, Structural)]
pub enum CliCommand {
    /// Print mihomo version info and exit.
    Version,
    /// Run a quick connectivity check against the API.
    Check,
    /// Dump the parsed configuration and exit.
    DumpConfig,
}

impl Default for CliArgs {
    /// The arguments when no flag is given (and no environment variable
    /// supplies the address or secret).
    fn default() -> (a: Self)
        ensures
            a.api_addr@ == "127.0.0.1:9090"@,
            a.secret@ == ""@,
            !a.use_https,
            !a.light_theme,
            a.tick_rate == 100,
            a.config_dir is None,
            a.log_level@ == "warn"@,
            a.log_file is None,
            a.command is None,
    {
        CliArgs {
            api_addr: owned("127.0.0.1:9090"),
            secret: owned(""),
            use_https: false,
            light_theme: false,
            tick_rate: 100,
            config_dir: None,
            log_level: owned("warn"),
            log_file: None,
            command: None,
        }
    }
}

} // verus!
