//! Unified settings resolver.
//!
//! Merges CLI options and config-file values over built-in defaults into a
//! single `Settings` struct that the rest of the application consumes.

use vstd::prelude::*;
use crate::cli::CliOptions;
use crate::config::FileConfig;
use crate::connection::profile::opt_view;
use crate::text::own;

verus! {

/// Fully resolved application settings.
#[derive(Debug)]
pub struct Settings {
    /// Minimum tracing log level.
    pub log_level: String,
    /// Optional log output file (stderr when `None`).
    pub log_file: Option<String>,
    /// UI tick rate in milliseconds.
    pub tick_rate: u64,
    /// Show the connection detail panel on startup.
    pub show_detail: bool,
    /// Enable periodic Wi-Fi scan requests.
    pub auto_scan: bool,
    /// Interval between automatic scans in seconds.
    pub scan_interval: u64,
}

impl Default for Settings {
    /// Built-in defaults: `warn` level to stderr, 1000 ms ticks, detail
    /// panel shown, automatic scans every 30 s.
    fn default() -> (r: Self)
        ensures
            r.log_level@ == "warn"@,
            r.log_file is None,
            r.tick_rate == 1000,
            r.show_detail,
            r.auto_scan,
            r.scan_interval == 30,
    {
        Settings {
            log_level: own("warn"),
            log_file: None,
            tick_rate: 1000,
            show_detail: true,
            auto_scan: true,
            scan_interval: 30,
        }
    }
}

/// Log level: `-v` is debug, `-vv` and more is trace; without `-v` the
/// file's level, else `warn`.
pub open spec fn resolved_log_level(verbose: u8, file_level: Option<Seq<char>>) -> Seq<char> {
    if verbose == 0 {
        match file_level {
            Some(l) => l,
            None => "warn"@,
        }
    } else if verbose == 1 {
        "debug"@
    } else {
        "trace"@
    }
}

/// Tick rate: a command-line value other than the parser's default of 1000
/// wins, then the file's, then 1000.
pub open spec fn resolved_tick_rate(cli_tick_rate: u64, file_tick_rate: Option<u64>) -> u64 {
    if cli_tick_rate != 1000 {
        cli_tick_rate
    } else {
        match file_tick_rate {
            Some(t) => t,
            None => 1000,
        }
    }
}

pub open spec fn file_field<T>(file: Option<FileConfig>, f: spec_fn(FileConfig) -> Option<T>) -> Option<T> {
    match file {
        Some(c) => f(c),
        None => None,
    }
}

/// Merge CLI options and an optional config file into a `Settings` value.
///
/// Precedence: CLI > config file > built-in defaults.
pub fn resolve(cli: CliOptions, file: Option<FileConfig>) -> (r: Settings)
    ensures
        r.log_level@ == resolved_log_level(
            cli.verbose,
            opt_view(file_field(file, |c: FileConfig| c.log.level)),
        ),
        opt_view(r.log_file) == (match cli.log_file {
            Some(p) => Some(p@),
            None => opt_view(file_field(file, |c: FileConfig| c.log.file)),
        }),
        r.tick_rate == resolved_tick_rate(
            cli.tick_rate,
            file_field(file, |c: FileConfig| c.ui.tick_rate),
        ),
        r.show_detail == (match file_field(file, |c: FileConfig| c.ui.show_detail) {
            Some(b) => b,
            None => true,
        }),
        r.auto_scan == (match file_field(file, |c: FileConfig| c.network.auto_scan) {
            Some(b) => b,
            None => true,
        }),
        r.scan_interval == (match file_field(file, |c: FileConfig| c.network.scan_interval) {
            Some(s) => s,
            None => 30,
        }),
{
    let defaults = Settings::default();
    let file = match file {
        Some(f) => f,
        None => FileConfig::default(),
    };
    let log_level = if cli.verbose == 0 {
        match file.log.level {
            Some(l) => l,
            None => defaults.log_level,
        }
    } else if cli.verbose == 1 {
        own("debug")
    } else {
        own("trace")
    };
    let log_file = match cli.log_file {
        Some(p) => Some(p),
        None => file.log.file,
    };
    let tick_rate = if cli.tick_rate != 1000 {
        cli.tick_rate
    } else {
        match file.ui.tick_rate {
            Some(t) => t,
            None => defaults.tick_rate,
        }
    };
    let show_detail = match file.ui.show_detail {
        Some(b) => b,
        None => defaults.show_detail,
    };
    let auto_scan = match file.network.auto_scan {
        Some(b) => b,
        None => defaults.auto_scan,
    };
    let scan_interval = match file.network.scan_interval {
        Some(s) => s,
        None => defaults.scan_interval,
    };
    Settings { log_level, log_file, tick_rate, show_detail, auto_scan, scan_interval }
}

} // verus!
