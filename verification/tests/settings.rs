use netman::cli::CliOptions;
use netman::config::FileConfig;
use netman::settings::resolve;

fn cli(verbose: u8, tick_rate: u64, log_file: Option<&str>) -> CliOptions {
    CliOptions {
        config: None,
        verbose,
        log_file: log_file.map(|s| s.to_string()),
        tick_rate,
    }
}

fn empty_config() -> Option<FileConfig> {
    None
}

#[test]
fn defaults_when_no_args_and_no_config() {
    let s = resolve(CliOptions::defaults(), empty_config());
    assert_eq!(s.log_level, "warn");
    assert!(s.log_file.is_none());
    assert_eq!(s.tick_rate, 1000);
    assert!(s.show_detail);
    assert!(s.auto_scan);
    assert_eq!(s.scan_interval, 30);
}

#[test]
fn verbose_flag_overrides_log_level() {
    let s = resolve(cli(1, 1000, None), empty_config());
    assert_eq!(s.log_level, "debug");

    let s = resolve(cli(2, 1000, None), empty_config());
    assert_eq!(s.log_level, "trace");
}

#[test]
fn config_file_log_level_beats_default() {
    let mut cfg = FileConfig::default();
    cfg.log.level = Some("info".into());
    let s = resolve(cli(0, 1000, None), Some(cfg));
    assert_eq!(s.log_level, "info");
}

#[test]
fn cli_verbose_beats_config_log_level() {
    let mut cfg = FileConfig::default();
    cfg.log.level = Some("info".into());
    let s = resolve(cli(1, 1000, None), Some(cfg));
    assert_eq!(s.log_level, "debug");
}

#[test]
fn cli_tick_rate_not_1000_beats_config() {
    let mut cfg = FileConfig::default();
    cfg.ui.tick_rate = Some(200);
    let s = resolve(cli(0, 500, None), Some(cfg));
    assert_eq!(s.tick_rate, 500);
}

#[test]
fn config_tick_rate_beats_default_when_cli_is_default() {
    let mut cfg = FileConfig::default();
    cfg.ui.tick_rate = Some(250);
    let s = resolve(cli(0, 1000, None), Some(cfg));
    assert_eq!(s.tick_rate, 250);
}

#[test]
fn log_file_from_cli() {
    let s = resolve(cli(0, 1000, Some("/tmp/netman.log")), empty_config());
    assert_eq!(s.log_file.as_deref(), Some("/tmp/netman.log"));
}

#[test]
fn log_file_from_config_when_no_cli() {
    let mut cfg = FileConfig::default();
    cfg.log.file = Some("/tmp/cfg.log".into());
    let s = resolve(cli(0, 1000, None), Some(cfg));
    assert_eq!(s.log_file.as_deref(), Some("/tmp/cfg.log"));
}

#[test]
fn full_settings_pipeline_no_config() {
    let s = resolve(cli(1, 1000, None), None);
    assert_eq!(s.log_level, "debug");
    assert_eq!(s.tick_rate, 1000);
}

#[test]
fn full_settings_pipeline_with_config_file() {
    let mut cfg = FileConfig::default();
    cfg.ui.tick_rate = Some(250);
    cfg.ui.show_detail = Some(false);
    cfg.network.scan_interval = Some(60);
    let s = resolve(CliOptions::defaults(), Some(cfg));
    assert_eq!(s.tick_rate, 250);
    assert!(!s.show_detail);
    assert_eq!(s.scan_interval, 60);
}

#[test]
fn many_verbose_flags_mean_trace_and_cli_log_file_wins() {
    let mut cfg = FileConfig::default();
    cfg.log.file = Some("/tmp/cfg.log".into());
    cfg.log.level = Some("error".into());
    cfg.network.auto_scan = Some(false);
    let s = resolve(cli(5, 1000, Some("/tmp/cli.log")), Some(cfg));
    assert_eq!(s.log_level, "trace");
    assert_eq!(s.log_file.as_deref(), Some("/tmp/cli.log"));
    assert!(!s.auto_scan);
}
