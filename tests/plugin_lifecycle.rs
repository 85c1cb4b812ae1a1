use liquidroute_geyser_plugin::config::{Config, ConfigError, LiquidRouteConfig, LogConfig};
use liquidroute_geyser_plugin::lifecycle::{
    callback_notes, status_debug_string, unload_notes, HostEvent, LifecycleState, SlotStatusKind,
};
use liquidroute_geyser_plugin::plugin::{
    construction_notes, create_plugin, setup_logger_notes, setup_logger_result, thread_name,
    get_thread_name, FallbackPlugin, InstrumentOutcome, LiquidRoutePlugin, LoggerRegistration,
    PluginError, PluginHandle,
};
use std::sync::atomic::AtomicU64;

fn config(track: bool, threads: usize) -> Config {
    Config {
        libpath: "/lib/plugin.so".to_string(),
        log: LogConfig { level: "info".to_string(), file: None },
        liquidroute: LiquidRouteConfig { track_token_accounts: track, thread_count: threads },
    }
}

fn ids() -> &'static AtomicU64 {
    Box::leak(Box::new(AtomicU64::new(0)))
}

fn events() -> Vec<HostEvent> {
    vec![
        HostEvent::Load { config_file: "c.json".to_string(), is_reload: false },
        HostEvent::AccountUpdate { slot: 5, is_startup: true },
        HostEvent::SlotStatusUpdate { slot: 6, parent: Some(5), status: SlotStatusKind::Rooted },
        HostEvent::BlockMetadata,
        HostEvent::Transaction { slot: 7 },
        HostEvent::Entry,
        HostEvent::EndOfStartup,
    ]
}

#[test]
fn active_notes() {
    let lr = LiquidRouteConfig { track_token_accounts: true, thread_count: 1 };
    let ev = HostEvent::AccountUpdate { slot: 42, is_startup: false };
    assert_eq!(
        callback_notes(LifecycleState::Active, &lr, &ev),
        vec![
            "Account update received for slot: 42, startup: false".to_string(),
            "Processing token account update (placeholder)".to_string(),
        ]
    );
    let quiet = LiquidRouteConfig { track_token_accounts: false, thread_count: 1 };
    assert_eq!(callback_notes(LifecycleState::Active, &quiet, &ev).len(), 1);
}

#[test]
fn slot_status_notes() {
    let lr = LiquidRouteConfig { track_token_accounts: true, thread_count: 1 };
    let ev = HostEvent::SlotStatusUpdate {
        slot: 100,
        parent: None,
        status: SlotStatusKind::Dead("bad block".to_string()),
    };
    assert_eq!(
        callback_notes(LifecycleState::Active, &lr, &ev),
        vec![
            "Slot status update: slot=100, parent=None, status=Dead(\"bad block\")".to_string(),
            "Dead slot: 100, reason: bad block".to_string(),
        ]
    );
    let ev = HostEvent::SlotStatusUpdate { slot: 8, parent: Some(7), status: SlotStatusKind::FirstShredReceived };
    assert_eq!(
        callback_notes(LifecycleState::Active, &lr, &ev),
        vec![
            "Slot status update: slot=8, parent=Some(7), status=FirstShredReceived".to_string(),
            "First shred received for slot: 8".to_string(),
        ]
    );
}

#[test]
fn dead_slot_reason_is_quoted_and_escaped() {
    let lr = LiquidRouteConfig { track_token_accounts: true, thread_count: 1 };
    let reason = "said \"no\"\n".to_string();
    let ev = HostEvent::SlotStatusUpdate { slot: 7, parent: None, status: SlotStatusKind::Dead(reason.clone()) };
    let notes = callback_notes(LifecycleState::Active, &lr, &ev);
    assert_eq!(notes[0], format!("Slot status update: slot=7, parent=None, status=Dead({:?})", reason));
    assert_eq!(notes[0], "Slot status update: slot=7, parent=None, status=Dead(\"said \\\"no\\\"\\n\")");
    assert_eq!(status_debug_string(&SlotStatusKind::Dead("x".to_string())), "Dead(\"x\")");
    assert_eq!(status_debug_string(&SlotStatusKind::Rooted), "Rooted");
}

#[test]
fn shut_down_gate_is_silent() {
    let lr = LiquidRouteConfig { track_token_accounts: true, thread_count: 1 };
    for ev in events() {
        assert!(callback_notes(LifecycleState::ShutDown, &lr, &ev).is_empty());
        assert!(!callback_notes(LifecycleState::Active, &lr, &ev).is_empty());
    }
    assert_eq!(unload_notes(LifecycleState::Active), vec!["Unloading LiquidRoute plugin".to_string()]);
    assert!(unload_notes(LifecycleState::ShutDown).is_empty());
}

#[test]
fn no_work_after_unload() {
    let p = LiquidRoutePlugin::new(config(true, 2), ids()).ok().unwrap();
    assert_eq!(p.config().thread_count, 2);
    assert_eq!(p.state(), LifecycleState::Active);
    assert_eq!(p.handle(&HostEvent::Transaction { slot: 3 }), vec!["Transaction notification for slot: 3".to_string()]);
    assert_eq!(p.on_unload(), vec!["Unloading LiquidRoute plugin".to_string()]);
    assert_eq!(p.state(), LifecycleState::ShutDown);
    for ev in events() {
        assert!(p.handle(&ev).is_empty());
    }
    assert!(p.on_unload().is_empty());
}

#[test]
fn live_plugin_capabilities() {
    let p = LiquidRoutePlugin::new(config(false, 1), ids()).ok().unwrap();
    assert_eq!(p.name(), "LiquidRoutePlugin");
    assert!(p.account_data_notifications_enabled());
    assert!(p.transaction_notifications_enabled());
    assert!(!p.entry_notifications_enabled());
}

#[test]
fn fallback_is_inert() {
    let f = FallbackPlugin;
    assert_eq!(f.name(), "DummyPlugin");
    assert!(!f.account_data_notifications_enabled());
    assert!(!f.transaction_notifications_enabled());
    assert!(!f.entry_notifications_enabled());
    for ev in events().into_iter().skip(1) {
        assert!(f.handle(&ev).is_empty());
    }
    assert_eq!(
        f.handle(&HostEvent::Load { config_file: "x".to_string(), is_reload: true }),
        vec!["Dummy plugin loaded - this indicates a configuration error".to_string()]
    );
    assert_eq!(f.on_unload(), vec!["Unloading dummy plugin".to_string()]);
}

#[test]
fn failed_resolution_yields_fallback() {
    let (h, notes) = create_plugin(Err(ConfigError::FileOpen("No such file".to_string())), ids());
    assert!(matches!(h, PluginHandle::Fallback(_)));
    assert_eq!(
        notes,
        vec!["Failed to read config from any location. Last error: Failed to open config file: No such file".to_string()]
    );
    assert_eq!(h.name(), "DummyPlugin");
    assert!(!h.account_data_notifications_enabled());
}

#[test]
fn resolved_config_yields_live_plugin() {
    let (h, notes) = create_plugin(Ok(config(true, 3)), ids());
    assert_eq!(
        notes,
        vec![
            "Successfully created tokio runtime".to_string(),
            "LiquidRoute plugin initialization complete".to_string(),
        ]
    );
    match &h {
        PluginHandle::Live(p) => assert_eq!(p.config().thread_count, 3),
        PluginHandle::Fallback(_) => panic!("expected the live plugin"),
    }
    assert!(h.account_data_notifications_enabled());
    assert!(!h.entry_notifications_enabled());
    assert_eq!(h.on_unload().len(), 1);
    assert!(h.handle(&HostEvent::Entry).is_empty());
}

#[test]
fn logger_panic_is_contained() {
    assert!(setup_logger_result(&LoggerRegistration::Panicked).is_ok());
    assert!(setup_logger_result(&LoggerRegistration::Installed).is_ok());
    match setup_logger_result(&LoggerRegistration::Refused("already set".to_string())) {
        Err(PluginError::LoggerSetup(m)) => assert_eq!(m, "Failed to set logger: already set"),
        _ => panic!("expected a logger error"),
    }
    assert_eq!(
        setup_logger_notes(&LoggerRegistration::Panicked),
        vec!["Logger setup caused a panic, continuing with debug file logging only".to_string()]
    );
    assert!(setup_logger_notes(&LoggerRegistration::Installed).is_empty());
    let p = LiquidRoutePlugin::new(config(true, 1), ids()).ok().unwrap();
    assert_eq!(p.handle(&HostEvent::Entry), vec!["Entry notification received".to_string()]);
}

#[test]
fn construction_survives_logging_panic() {
    assert_eq!(
        construction_notes(InstrumentOutcome::Panicked),
        vec!["Logging initialization caused a panic, continuing without standard logging".to_string()]
    );
    assert!(construction_notes(InstrumentOutcome::Completed).is_empty());
    assert!(LiquidRoutePlugin::new(config(true, 4), ids()).is_ok());
}

#[test]
fn thread_names() {
    assert_eq!(thread_name(0), "liquidRouteGeyser00");
    assert_eq!(thread_name(12), "liquidRouteGeyser12");
    assert_eq!(thread_name(345), "liquidRouteGeyser345");
    let c = AtomicU64::new(0);
    assert_eq!(get_thread_name(&c), "liquidRouteGeyser00");
    assert_eq!(get_thread_name(&c), "liquidRouteGeyser01");
}
