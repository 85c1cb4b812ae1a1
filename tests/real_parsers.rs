use liquidroute_geyser_plugin::config::{ConfigError, RawConfig, RawLiquidRouteConfig};
use liquidroute_geyser_plugin::resolver::{ConfigResolver, ResolveAction, ResolveEvent};
use serde_json::Value;

fn raw_of(v: &Value) -> RawConfig {
    let threads = v
        .get("liquidroute")
        .and_then(|l| l.get("thread_count"))
        .and_then(|t| t.as_u64())
        .map(|t| t as usize);
    RawConfig {
        libpath: v.get("libpath").and_then(|p| p.as_str()).unwrap_or_default().to_string(),
        log: None,
        liquidroute: Some(RawLiquidRouteConfig { track_token_accounts: None, thread_count: threads }),
    }
}

fn resolve_text(text: &str) -> Result<liquidroute_geyser_plugin::config::Config, ConfigError> {
    let mut r = ConfigResolver::new(vec!["only.json".to_string()]);
    loop {
        let ev = match r.action() {
            ResolveAction::ReadFile(_) => ResolveEvent::ContentsRead,
            ResolveAction::ParseStrict => match serde_json::from_str::<Value>(text) {
                Ok(v) => ResolveEvent::StrictParsed(raw_of(&v)),
                Err(e) => ResolveEvent::StrictFailed(e.to_string()),
            },
            ResolveAction::ParseLenient => match json5::from_str::<Value>(text) {
                Ok(v) => ResolveEvent::LenientParsed(raw_of(&v)),
                Err(_) => ResolveEvent::LenientFailed,
            },
            ResolveAction::Finished => break,
        };
        r.advance(ev);
    }
    r.result().unwrap()
}

#[test]
fn trailing_comma_parsed_by_lenient_fallback() {
    let text = "{\"libpath\": \"/lib/x.so\", \"liquidroute\": {\"thread_count\": 3,},}";
    assert!(serde_json::from_str::<Value>(text).is_err());
    let c = resolve_text(text).unwrap();
    assert_eq!(c.libpath, "/lib/x.so");
    assert_eq!(c.liquidroute.thread_count, 3);
}

#[test]
fn strict_json_parsed_directly() {
    let c = resolve_text("{\"libpath\": \"a\", \"liquidroute\": {\"thread_count\": 0}}").unwrap();
    assert_eq!(c.libpath, "a");
    assert_eq!(c.liquidroute.thread_count, 1);
}

#[test]
fn garbage_fails_with_strict_diagnostic() {
    let text = "this is { not json";
    let strict = serde_json::from_str::<Value>(text).unwrap_err().to_string();
    match resolve_text(text) {
        Err(ConfigError::Parse(m)) => assert_eq!(m, strict),
        _ => panic!("expected a parse error"),
    }
}
