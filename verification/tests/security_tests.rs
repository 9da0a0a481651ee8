use timer_lib::security::exit_attempt_with_reading;
use timer_lib::config::{AppConfig, ConfigManager};
use timer_lib::security::{hash_secret, normalize_answer, reset_password, setup_password, verify_exit_password, verify_secret};
use timer_lib::RuntimeFlags;

#[test]
fn test_hash_and_verify() {
    let secret = "test-secret";
    let hash = hash_secret(secret).unwrap();
    assert!(verify_secret(&hash, secret).unwrap());
    assert!(!verify_secret(&hash, "wrong").unwrap());
}

#[test]
fn third_wrong_password_locks_exit() {
    let mut manager = ConfigManager::new("config.json".to_string(), Some(AppConfig::default()));
    setup_password(&mut manager, " pass1 ", "pet", " Rex ").unwrap();
    let flags = RuntimeFlags { safe_mode: false };

    let first = verify_exit_password(&mut manager, &flags, "nope").unwrap();
    assert!(!first.ok && !first.locked);
    assert_eq!(first.remaining_attempts, 2);
    let second = verify_exit_password(&mut manager, &flags, "nope").unwrap();
    assert_eq!(second.remaining_attempts, 1);
    let third = verify_exit_password(&mut manager, &flags, "nope").unwrap();
    assert!(third.locked);
    assert_eq!(third.lock_remaining_seconds, 300);
    let while_locked = verify_exit_password(&mut manager, &flags, "pass1").unwrap();
    assert!(!while_locked.ok && while_locked.locked);
}

#[test]
fn exit_password_rules() {
    let mut manager = ConfigManager::new("config.json".to_string(), Some(AppConfig::default()));
    let flags = RuntimeFlags { safe_mode: false };
    assert_eq!(verify_exit_password(&mut manager, &flags, "x").unwrap_err(), "未设置退出密码");
    assert_eq!(setup_password(&mut manager, "abc", "q", "a").unwrap_err(), "密码长度至少4位");
    assert_eq!(setup_password(&mut manager, "abcd", " ", "a").unwrap_err(), "请选择密保问题");
    setup_password(&mut manager, "abcd", "q", "a").unwrap();
    assert_eq!(setup_password(&mut manager, "efgh", "q", "a").unwrap_err(), "密码已设置");
    assert_eq!(verify_exit_password(&mut manager, &flags, "   ").unwrap_err(), "请输入退出密码");
    let ok = verify_exit_password(&mut manager, &flags, " abcd ").unwrap();
    assert!(ok.ok);
    let safe = RuntimeFlags { safe_mode: true };
    assert!(verify_exit_password(&mut manager, &safe, "whatever").unwrap().ok);
}

#[test]
fn reset_password_through_security_answer() {
    assert_eq!(normalize_answer("  Rex "), "rex");
    let mut manager = ConfigManager::new("config.json".to_string(), Some(AppConfig::default()));
    assert_eq!(reset_password(&mut manager, "rex", "newpass").unwrap_err(), "未设置密保问题");
    setup_password(&mut manager, "pass1", "pet", " Rex ").unwrap();
    assert_eq!(reset_password(&mut manager, "cat", "newpass").unwrap_err(), "密保答案不正确");
    assert_eq!(reset_password(&mut manager, "REX", "abc").unwrap_err(), "新密码长度至少4位");
    reset_password(&mut manager, " REX", "newpass").unwrap();
    let flags = RuntimeFlags { safe_mode: false };
    assert!(verify_exit_password(&mut manager, &flags, "newpass").unwrap().ok);
}

#[test]
fn lock_remaining_is_positive_part() {
    assert_eq!(timer_lib::security::lock_remaining_from(Some(120)), 120);
    assert_eq!(timer_lib::security::lock_remaining_from(Some(-5)), 0);
    assert_eq!(timer_lib::security::lock_remaining_from(None), 0);
    assert_eq!(timer_lib::security::lock_remaining_seconds(&None), 0);
    assert_eq!(timer_lib::security::lock_remaining_seconds(&Some("garbage".to_string())), 0);
    assert_eq!(timer_lib::security::lock_remaining_seconds(&Some("2000-01-01T00:00:00+00:00".to_string())), 0);
}

#[test]
fn exit_attempt_follows_the_lock_reading() {
    let mut manager = ConfigManager::new("config.json".to_string(), Some(AppConfig::default()));
    setup_password(&mut manager, "pass1", "pet", "rex").unwrap();
    let mut config = manager.get().unwrap();
    config.security.failed_attempts = 3;
    config.security.lock_until = Some("2100-01-01T00:00:00+00:00".to_string());
    let mut manager = ConfigManager::new("config.json".to_string(), Some(config));

    let locked = exit_attempt_with_reading(&mut manager, "pass1", Some(120)).unwrap();
    assert!(!locked.ok && locked.locked);
    assert_eq!(locked.lock_remaining_seconds, 120);
    assert_eq!(manager.get().unwrap().security.failed_attempts, 3);

    let after = exit_attempt_with_reading(&mut manager, "wrong", Some(-1)).unwrap();
    assert!(!after.ok && !after.locked);
    assert_eq!(after.remaining_attempts, 2);
    let sec = manager.get().unwrap().security;
    assert_eq!(sec.failed_attempts, 1);
    assert!(sec.lock_until.is_none());
}

#[test]
fn saturated_failures_still_report_an_active_lock() {
    let mut config = AppConfig::default();
    config.security.password_hash = Some("$argon2id$v=19$m=19456,t=2,p=1$c2FsdHNhbHQ$aGFzaGhhc2hoYXNoaGFzaA".to_string());
    config.security.failed_attempts = u32::MAX;
    config.security.lock_until = Some("2999-01-01T00:00:00+00:00".to_string());
    let mut manager = ConfigManager::new("config.json".to_string(), Some(config));
    let flags = RuntimeFlags { safe_mode: false };
    let result = verify_exit_password(&mut manager, &flags, "anything").unwrap();
    assert!(!result.ok && result.locked);
    assert!(result.lock_remaining_seconds > 0);
    assert_eq!(manager.get().unwrap().security.failed_attempts, u32::MAX);
}
