use liquidroute_geyser_plugin::config::{
    check_path, default_log_config, default_log_level, default_thread_count,
    default_track_token_accounts, Config, ConfigError, LiquidRouteConfig, RawConfig,
    RawLiquidRouteConfig, RawLogConfig,
};

fn clamp(n: usize) -> usize {
    let mut c = LiquidRouteConfig { track_token_accounts: true, thread_count: n };
    c.validate();
    c.thread_count
}

#[test]
fn thread_count_is_clamped() {
    assert_eq!(clamp(0), 1);
    assert_eq!(clamp(5), 4);
    assert_eq!(clamp(2), 2);
}

#[test]
fn thread_count_edges() {
    assert_eq!(clamp(1), 1);
    assert_eq!(clamp(4), 4);
    assert_eq!(clamp(usize::MAX), 4);
    for n in 0..20usize {
        let c = clamp(n);
        assert!((1..=4).contains(&c));
    }
}

#[test]
fn validate_keeps_tracking_flag() {
    let mut c = LiquidRouteConfig { track_token_accounts: false, thread_count: 9 };
    c.validate();
    assert!(!c.track_token_accounts);
    assert_eq!(c.thread_count, 4);
}

#[test]
fn defaults() {
    assert_eq!(default_log_level(), "info");
    let l = default_log_config();
    assert_eq!(l.level, "info");
    assert!(l.file.is_none());
    assert!(default_track_token_accounts());
    assert_eq!(default_thread_count(), 1);
}

#[test]
fn raw_document_without_sections_gets_defaults() {
    let raw = RawConfig { libpath: "/lib/p.so".to_string(), log: None, liquidroute: None };
    let c = Config::from_raw(raw);
    assert_eq!(c.libpath, "/lib/p.so");
    assert_eq!(c.log.level, "info");
    assert!(c.log.file.is_none());
    assert!(c.liquidroute.track_token_accounts);
    assert_eq!(c.liquidroute.thread_count, 1);
}

#[test]
fn raw_document_values_are_kept_and_clamped() {
    let raw = RawConfig {
        libpath: "x".to_string(),
        log: Some(RawLogConfig { level: Some("debug".to_string()), file: Some("/var/l".to_string()) }),
        liquidroute: Some(RawLiquidRouteConfig { track_token_accounts: Some(false), thread_count: Some(0) }),
    };
    let c = Config::from_raw(raw);
    assert_eq!(c.log.level, "debug");
    assert_eq!(c.log.file.as_deref(), Some("/var/l"));
    assert!(!c.liquidroute.track_token_accounts);
    assert_eq!(c.liquidroute.thread_count, 1);
}

#[test]
fn raw_sections_with_missing_keys() {
    let raw = RawConfig {
        libpath: "x".to_string(),
        log: Some(RawLogConfig { level: None, file: None }),
        liquidroute: Some(RawLiquidRouteConfig { track_token_accounts: None, thread_count: Some(7) }),
    };
    let c = Config::from_raw(raw);
    assert_eq!(c.log.level, "info");
    assert!(c.liquidroute.track_token_accounts);
    assert_eq!(c.liquidroute.thread_count, 4);
}

#[test]
fn error_messages() {
    assert_eq!(ConfigError::FileOpen("gone".to_string()).message(), "Failed to open config file: gone");
    assert_eq!(ConfigError::FileRead("eio".to_string()).message(), "Failed to read config file: eio");
    assert_eq!(ConfigError::Parse("bad".to_string()).message(), "Failed to parse config file: bad");
    assert_eq!(ConfigError::InvalidPath("".to_string()).message(), "Invalid config file path: ");
}

#[test]
fn duplicate_keeps_error() {
    let e = ConfigError::Parse("line 1".to_string()).duplicate();
    assert!(matches!(e, ConfigError::Parse(ref m) if m == "line 1"));
}

#[test]
fn path_checks() {
    assert!(check_path("config/liquidroute.json").is_ok());
    assert!(matches!(check_path(""), Err(ConfigError::InvalidPath(ref p)) if p.is_empty()));
    assert!(matches!(check_path("a\0b"), Err(ConfigError::InvalidPath(ref p)) if p == "a\0b"));
}
