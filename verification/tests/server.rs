use monitor_core::server::{
    default_auto_prune, default_enabled, default_send_alerts, PartialServerConfig,
    ServerActionState, ServerConfig, ServerListItemInfo, ServerQuerySpecifics, ServerStatus,
    DEFAULT_CPU_CRITICAL, DEFAULT_CPU_WARNING, DEFAULT_DISK_CRITICAL, DEFAULT_DISK_WARNING,
    DEFAULT_MEM_CRITICAL, DEFAULT_MEM_WARNING,
};

fn base() -> ServerConfig {
    ServerConfig {
        address: "http://10.0.0.5:8120".to_string(),
        enabled: false,
        auto_prune: false,
        send_unreachable_alerts: false,
        send_cpu_alerts: false,
        send_mem_alerts: false,
        send_disk_alerts: false,
        send_temp_alerts: false,
        region: "eu".to_string(),
        cpu_warning: 1,
        cpu_critical: 2,
        mem_warning: 3,
        mem_critical: 4,
        disk_warning: 5,
        disk_critical: 6,
    }
}

#[test]
fn the_defaults_switch_everything_on() {
    assert!(default_enabled());
    assert!(default_auto_prune());
    assert!(default_send_alerts());
}

#[test]
fn the_default_thresholds() {
    assert_eq!(DEFAULT_CPU_WARNING, 9000);
    assert_eq!(DEFAULT_CPU_CRITICAL, 9900);
    assert_eq!(DEFAULT_MEM_WARNING, 7500);
    assert_eq!(DEFAULT_MEM_CRITICAL, 9500);
    assert_eq!(DEFAULT_DISK_WARNING, 7500);
    assert_eq!(DEFAULT_DISK_CRITICAL, 9500);
}

#[test]
fn settings_for_which_nothing_was_said() {
    let c = ServerConfig::defaults();
    assert_eq!(c.address, "");
    assert_eq!(c.region, "");
    assert!(c.enabled && c.auto_prune);
    assert!(c.send_unreachable_alerts && c.send_cpu_alerts && c.send_mem_alerts);
    assert!(c.send_disk_alerts && c.send_temp_alerts);
    assert_eq!((c.cpu_warning, c.cpu_critical), (9000, 9900));
    assert_eq!((c.mem_warning, c.mem_critical), (7500, 9500));
    assert_eq!((c.disk_warning, c.disk_critical), (7500, 9500));
}

#[test]
fn absent_settings_resolve_to_defaults() {
    let patch = PartialServerConfig {
        address: Some("http://10.0.0.5:8120".to_string()),
        ..PartialServerConfig::default()
    };
    let c = ServerConfig::from_partial(patch);
    let expected =
        ServerConfig { address: "http://10.0.0.5:8120".to_string(), ..ServerConfig::defaults() };
    assert_eq!(c, expected);
}

#[test]
fn an_empty_patch_changes_nothing() {
    assert_eq!(ServerConfig::apply_partial(base(), PartialServerConfig::default()), base());
}

#[test]
fn each_text_setting_is_overridden_by_itself() {
    let c = ServerConfig::apply_partial(
        base(),
        PartialServerConfig { address: Some("a".to_string()), ..PartialServerConfig::default() },
    );
    assert_eq!(c, ServerConfig { address: "a".to_string(), ..base() });
    let c = ServerConfig::apply_partial(
        base(),
        PartialServerConfig { region: Some("us".to_string()), ..PartialServerConfig::default() },
    );
    assert_eq!(c, ServerConfig { region: "us".to_string(), ..base() });
}

#[test]
fn each_flag_is_overridden_by_itself() {
    let on = Some(true);
    let d = PartialServerConfig::default;
    let apply = |p: PartialServerConfig| ServerConfig::apply_partial(base(), p);
    assert_eq!(
        apply(PartialServerConfig { enabled: on, ..d() }),
        ServerConfig { enabled: true, ..base() }
    );
    assert_eq!(
        apply(PartialServerConfig { auto_prune: on, ..d() }),
        ServerConfig { auto_prune: true, ..base() }
    );
    assert_eq!(
        apply(PartialServerConfig { send_unreachable_alerts: on, ..d() }),
        ServerConfig { send_unreachable_alerts: true, ..base() }
    );
    assert_eq!(
        apply(PartialServerConfig { send_cpu_alerts: on, ..d() }),
        ServerConfig { send_cpu_alerts: true, ..base() }
    );
    assert_eq!(
        apply(PartialServerConfig { send_mem_alerts: on, ..d() }),
        ServerConfig { send_mem_alerts: true, ..base() }
    );
    assert_eq!(
        apply(PartialServerConfig { send_disk_alerts: on, ..d() }),
        ServerConfig { send_disk_alerts: true, ..base() }
    );
    assert_eq!(
        apply(PartialServerConfig { send_temp_alerts: on, ..d() }),
        ServerConfig { send_temp_alerts: true, ..base() }
    );
}

#[test]
fn each_threshold_is_overridden_by_itself() {
    let d = PartialServerConfig::default;
    let apply = |p: PartialServerConfig| ServerConfig::apply_partial(base(), p);
    assert_eq!(
        apply(PartialServerConfig { cpu_warning: Some(8000), ..d() }),
        ServerConfig { cpu_warning: 8000, ..base() }
    );
    assert_eq!(
        apply(PartialServerConfig { cpu_critical: Some(8000), ..d() }),
        ServerConfig { cpu_critical: 8000, ..base() }
    );
    assert_eq!(
        apply(PartialServerConfig { mem_warning: Some(8000), ..d() }),
        ServerConfig { mem_warning: 8000, ..base() }
    );
    assert_eq!(
        apply(PartialServerConfig { mem_critical: Some(8000), ..d() }),
        ServerConfig { mem_critical: 8000, ..base() }
    );
    assert_eq!(
        apply(PartialServerConfig { disk_warning: Some(8000), ..d() }),
        ServerConfig { disk_warning: 8000, ..base() }
    );
    assert_eq!(
        apply(PartialServerConfig { disk_critical: Some(8000), ..d() }),
        ServerConfig { disk_critical: 8000, ..base() }
    );
}

#[test]
fn a_patch_applied_twice_is_applied_once() {
    let patch = || PartialServerConfig {
        enabled: Some(true),
        region: Some("us".to_string()),
        ..PartialServerConfig::default()
    };
    let once = ServerConfig::apply_partial(base(), patch());
    let twice = ServerConfig::apply_partial(once.clone(), patch());
    assert_eq!(once, twice);
}

#[test]
fn the_status_before_any_probe_is_not_ok() {
    assert_eq!(ServerStatus::default(), ServerStatus::NotOk);
}

#[test]
fn probes_move_between_not_ok_and_ok() {
    assert_eq!(ServerStatus::NotOk.after_probe(true), ServerStatus::Okay);
    assert_eq!(ServerStatus::Okay.after_probe(false), ServerStatus::NotOk);
    assert_eq!(ServerStatus::Okay.after_probe(true), ServerStatus::Okay);
    assert_eq!(ServerStatus::NotOk.after_probe(false), ServerStatus::NotOk);
}

#[test]
fn probes_leave_a_disabled_server_disabled() {
    assert_eq!(ServerStatus::Disabled.after_probe(true), ServerStatus::Disabled);
    assert_eq!(ServerStatus::Disabled.after_probe(false), ServerStatus::Disabled);
}

#[test]
fn the_enabled_flag_wins_over_the_status() {
    assert_eq!(ServerStatus::Okay.after_config(false), ServerStatus::Disabled);
    assert_eq!(ServerStatus::NotOk.after_config(false), ServerStatus::Disabled);
    assert_eq!(ServerStatus::Disabled.after_config(true), ServerStatus::NotOk);
    assert_eq!(ServerStatus::Okay.after_config(true), ServerStatus::Okay);
    assert_eq!(ServerStatus::NotOk.after_config(true), ServerStatus::NotOk);
}

#[test]
fn status_names_on_the_wire() {
    assert_eq!(ServerStatus::NotOk.name(), "NotOk");
    assert_eq!(ServerStatus::Okay.name(), "Ok");
    assert_eq!(ServerStatus::Disabled.name(), "Disabled");
}

#[test]
fn what_a_listing_shows_follows_from_the_settings() {
    let info = ServerListItemInfo::derive(&base(), ServerStatus::Okay);
    assert_eq!(info.status, ServerStatus::Okay);
    assert_eq!(info.region, "eu");
    assert!(!info.send_cpu_alerts && !info.send_unreachable_alerts);
    let info = ServerListItemInfo::derive(&ServerConfig::defaults(), ServerStatus::NotOk);
    assert!(info.send_cpu_alerts && info.send_mem_alerts && info.send_disk_alerts);
    assert!(info.send_temp_alerts && info.send_unreachable_alerts);
}

#[test]
fn nothing_is_under_way_by_default() {
    let s = ServerActionState::default();
    assert!(!s.pruning_networks && !s.pruning_containers);
    assert!(!s.pruning_images && !s.stopping_containers);
    assert_eq!(ServerQuerySpecifics::default(), ServerQuerySpecifics {});
}
