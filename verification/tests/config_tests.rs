use timer_lib::config::{
    default_delay_quota_date, normalize_action_type, offline_adjusted_remaining, remaining_after_offline,
    reset_delay_quota_for_date, update_timer_config, AppConfig, ConfigManager, RuntimeState,
};

#[test]
fn test_default_config() {
    let config = AppConfig::default();
    assert_eq!(config.version, "1.1");
    assert_eq!(config.timer.interval_minutes, 30);
    assert_eq!(config.timer.max_delay_times, 3);
    assert!(config.timer.loop_enabled);
    assert_eq!(config.timer.loop_interval_minutes, 5);
    assert!(config.timer.enforce_relock_during_rest);
    assert_eq!(config.action.action_type, "lock");
    assert!(config.security.password_hash.is_none());
    assert!(!config.activation.activated);
}

#[test]
fn test_offline_adjusted_remaining_keeps_paused() {
    let saved = RuntimeState {
        timer_status: "Paused".to_string(),
        remaining_seconds: 600,
        total_seconds: 1800,
        last_update: chrono::Local::now().to_rfc3339(),
        delay_count: 0,
        delay_quota_date: default_delay_quota_date(),
        cycle_phase: "Work".to_string(),
    };

    assert_eq!(offline_adjusted_remaining(&saved), 600);
}

#[test]
fn test_normalize_action_type() {
    assert_eq!(normalize_action_type("lock"), "lock");
    assert_eq!(normalize_action_type("shutdown"), "shutdown");
    assert_eq!(normalize_action_type("suspend"), "lock");
    assert_eq!(normalize_action_type("unknown"), "lock");
}

#[test]
fn normalized_action_type_is_stable() {
    for name in ["lock", "shutdown", "suspend", "", "SHUTDOWN"] {
        let once = normalize_action_type(name);
        assert_eq!(normalize_action_type(&once), once);
    }
}

#[test]
fn running_countdown_loses_offline_time() {
    let saved = RuntimeState {
        timer_status: "Running".to_string(),
        remaining_seconds: 600,
        total_seconds: 1800,
        last_update: "2000-01-01T00:00:00+00:00".to_string(),
        delay_count: 0,
        delay_quota_date: default_delay_quota_date(),
        cycle_phase: "Work".to_string(),
    };
    assert_eq!(offline_adjusted_remaining(&saved), 0);
}

#[test]
fn running_countdown_with_unreadable_time_keeps_remaining() {
    let saved = RuntimeState {
        timer_status: "Running".to_string(),
        remaining_seconds: 600,
        total_seconds: 1800,
        last_update: "not a time".to_string(),
        delay_count: 0,
        delay_quota_date: default_delay_quota_date(),
        cycle_phase: "Work".to_string(),
    };
    assert_eq!(offline_adjusted_remaining(&saved), 600);
}

#[test]
fn remaining_after_offline_values() {
    assert_eq!(remaining_after_offline(600, 100), 500);
    assert_eq!(remaining_after_offline(600, 700), 0);
    assert_eq!(remaining_after_offline(600, -5), 600);
    assert_eq!(remaining_after_offline(600, 0), 600);
}

#[test]
fn quota_check_resets_on_new_day_only() {
    let mut config = AppConfig::default();
    config.runtime_state.delay_count = 2;
    config.runtime_state.delay_quota_date = "2024-01-01".to_string();
    let mut manager = ConfigManager::new("config.json".to_string(), Some(config));

    assert!(reset_delay_quota_for_date(&mut manager, "2024-01-01".to_string()).is_ok());
    let same_day = manager.get().unwrap();
    assert_eq!(same_day.runtime_state.delay_count, 2);

    assert!(reset_delay_quota_for_date(&mut manager, "2024-01-02".to_string()).is_ok());
    let next_day = manager.get().unwrap();
    assert_eq!(next_day.runtime_state.delay_count, 0);
    assert_eq!(next_day.runtime_state.delay_quota_date, "2024-01-02");

    assert!(reset_delay_quota_for_date(&mut manager, "2024-01-02".to_string()).is_ok());
    let again = manager.get().unwrap();
    assert_eq!(again.runtime_state.delay_count, 0);
    assert_eq!(again.runtime_state.delay_quota_date, "2024-01-02");
}

#[test]
fn stored_action_type_is_normalized_on_load() {
    let mut config = AppConfig::default();
    config.action.action_type = "suspend".to_string();
    let manager = ConfigManager::new("config.json".to_string(), Some(config));
    assert_eq!(manager.get().unwrap().action.action_type, "lock");
    assert_eq!(manager.path(), "config.json");
}

#[test]
fn settings_need_activation() {
    let mut manager = ConfigManager::new("config.json".to_string(), None);
    let timer = AppConfig::default().timer;
    let err = update_timer_config(&mut manager, timer).unwrap_err();
    assert_eq!(err, "软件未激活，无法使用此功能");
}

#[test]
fn activated_settings_store_loop_interval_default() {
    let mut config = AppConfig::default();
    config.activation.activated = true;
    let mut manager = ConfigManager::new("config.json".to_string(), Some(config));
    let mut timer = AppConfig::default().timer;
    timer.loop_interval_minutes = 0;
    timer.interval_minutes = 45;
    assert!(update_timer_config(&mut manager, timer).is_ok());
    let stored = manager.get().unwrap();
    assert_eq!(stored.timer.loop_interval_minutes, 5);
    assert_eq!(stored.timer.interval_minutes, 45);
}

#[test]
fn quota_date_is_year_month_day() {
    let d = default_delay_quota_date();
    let b = d.as_bytes();
    assert_eq!(b.len(), 10);
    assert_eq!(b[4], b'-');
    assert_eq!(b[7], b'-');
}
