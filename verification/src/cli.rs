//! Command-line options, as the argument parser hands them over.

use vstd::prelude::*;

verus! {

/// Parsed command-line options.
#[derive(Debug)]
pub struct CliOptions {
    /// Path to the TOML configuration file.
    pub config: Option<String>,
    /// Log verbosity: the number of `-v` flags.
    pub verbose: u8,
    /// Write log output to this file instead of stderr.
    pub log_file: Option<String>,
    /// Tick rate in milliseconds — how often the UI polls for NM state changes.
    pub tick_rate: u64,
}

/// Tick rate that the command line gives when `--tick-rate` is absent.
pub const DEFAULT_TICK_RATE: u64 = 1000;

impl CliOptions {
    /// The options of a command line with no arguments.
    pub fn defaults() -> (r: CliOptions)
        ensures
            r.config is None,
            r.verbose == 0,
            r.log_file is None,
            r.tick_rate == DEFAULT_TICK_RATE,
    {
        CliOptions { config: None, verbose: 0, log_file: None, tick_rate: DEFAULT_TICK_RATE }
    }
}

} // verus!
