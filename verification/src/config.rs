//! Values read from the TOML configuration file.
//!
//! Every field is optional so that any subset of the file may be omitted;
//! `settings::resolve` supplies defaults for anything left unset.

use vstd::prelude::*;
use crate::text::{concat2, concat3, own};

verus! {

/// Raw configuration values from a TOML file.
#[derive(Debug)]
pub struct FileConfig {
    pub log: LogConfig,
    pub ui: UiConfig,
    pub network: NetworkConfig,
}

#[derive(Debug)]
pub struct LogConfig {
    /// Minimum log level: "error", "warn", "info", "debug", "trace".
    pub level: Option<String>,
    /// Path for log output; stderr when absent.
    pub file: Option<String>,
}

#[derive(Debug)]
pub struct UiConfig {
    /// UI tick rate in milliseconds.
    pub tick_rate: Option<u64>,
    /// Show the detail panel on startup.
    pub show_detail: Option<bool>,
    /// Number of rows in the connection list before scrolling.
    pub list_height: Option<u16>,
}

#[derive(Debug)]
pub struct NetworkConfig {
    /// Enable periodic Wi-Fi scan requests.
    pub auto_scan: Option<bool>,
    /// Interval between automatic scans in seconds.
    pub scan_interval: Option<u64>,
}

impl Default for LogConfig {
    fn default() -> (r: Self)
        ensures
            r.level is None && r.file is None,
    {
        LogConfig { level: None, file: None }
    }
}

impl Default for UiConfig {
    fn default() -> (r: Self)
        ensures
            r.tick_rate is None && r.show_detail is None && r.list_height is None,
    {
        UiConfig { tick_rate: None, show_detail: None, list_height: None }
    }
}

impl Default for NetworkConfig {
    fn default() -> (r: Self)
        ensures
            r.auto_scan is None && r.scan_interval is None,
    {
        NetworkConfig { auto_scan: None, scan_interval: None }
    }
}

impl FileConfig {
    /// Whether nothing at all is set.
    pub open spec fn is_empty(&self) -> bool {
        &&& self.log.level is None && self.log.file is None
        &&& self.ui.tick_rate is None && self.ui.show_detail is None && self.ui.list_height is None
        &&& self.network.auto_scan is None && self.network.scan_interval is None
    }
}

impl Default for FileConfig {
    /// A configuration with nothing set, as an empty file gives.
    fn default() -> (r: Self)
        ensures
            r.is_empty(),
    {
        FileConfig {
            log: LogConfig::default(),
            ui: UiConfig::default(),
            network: NetworkConfig::default(),
        }
    }
}


/// `base` followed by the relative path `rel`, with a `/` between them unless
/// `base` is empty or already ends with one (how a relative component is
/// pushed onto a path).
pub open spec fn path_join(base: Seq<char>, rel: Seq<char>) -> Seq<char> {
    if base.len() == 0 {
        rel
    } else if base.last() == '/' {
        base + rel
    } else {
        base + "/"@ + rel
    }
}

/// Where the configuration file is looked for: the path given on the
/// command line, else `netman/config.toml` under `$XDG_CONFIG_HOME`, else
/// `.config/netman/config.toml` under `$HOME`, else nowhere.
pub open spec fn config_path_spec(
    explicit: Option<Seq<char>>,
    xdg_config_home: Option<Seq<char>>,
    home: Option<Seq<char>>,
) -> Option<Seq<char>> {
    match explicit {
        Some(p) => Some(p),
        None => match xdg_config_home {
            Some(x) => Some(path_join(path_join(x, "netman"@), "config.toml"@)),
            None => match home {
                Some(h) => Some(
                    path_join(path_join(path_join(h, ".config"@), "netman"@), "config.toml"@),
                ),
                None => None,
            },
        },
    }
}

pub open spec fn opt_seq(o: Option<String>) -> Option<Seq<char>> {
    match o {
        Some(s) => Some(s@),
        None => None,
    }
}

/// Pushes the relative path `rel` onto `base` (see [`path_join`]).
pub fn join_path(base: &str, rel: &str) -> (r: String)
    ensures
        r@ == path_join(base@, rel@),
{
    let n = base.unicode_len();
    if n == 0 {
        own(rel)
    } else if base.get_char(n - 1) == '/' {
        concat2(base, rel)
    } else {
        concat3(base, "/", rel)
    }
}

/// The configuration file to read (see [`config_path_spec`]), given the
/// command-line path and the values of `XDG_CONFIG_HOME` and `HOME`.
pub fn config_path(
    explicit: Option<String>,
    xdg_config_home: Option<String>,
    home: Option<String>,
) -> (r: Option<String>)
    ensures
        opt_seq(r) == config_path_spec(opt_seq(explicit), opt_seq(xdg_config_home), opt_seq(home)),
{
    match explicit {
        Some(p) => Some(p),
        None => match xdg_config_home {
            Some(x) => {
                let dir = join_path(x.as_str(), "netman");
                Some(join_path(dir.as_str(), "config.toml"))
            },
            None => match home {
                Some(h) => {
                    let base = join_path(h.as_str(), ".config");
                    let dir = join_path(base.as_str(), "netman");
                    Some(join_path(dir.as_str(), "config.toml"))
                },
                None => None,
            },
        },
    }
}
} // verus!
