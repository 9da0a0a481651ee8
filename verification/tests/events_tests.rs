use timer_lib::notifier::NotificationType;
use timer_lib::commands::{format_remaining, start_timer, stop_timer, tray_tooltip};
use timer_lib::config::{AppConfig, ConfigManager};
use timer_lib::events::{
    sync_timer_on_launch_impl, timer_update_reaction, tray_menu_command, FinishStep, LaunchStep, TrayCommand,
};
use timer_lib::notifier::{delay_execution, Notifier};
use timer_lib::timer::{TimerEngine, TimerPhase, TimerRuntime, TimerState};
use timer_lib::{AppState, RestLockGuardState};

fn runtime(state: TimerState, phase: TimerPhase, remaining: u64) -> TimerRuntime {
    TimerRuntime { state, phase, remaining_seconds: remaining, total_seconds: 1800, last_update: None }
}

fn activated_config() -> AppConfig {
    let mut config = AppConfig::default();
    config.activation.activated = true;
    config
}

#[test]
fn relock_during_rest_respects_interval() {
    let config = activated_config();
    let rest = runtime(TimerState::Running, TimerPhase::Rest, 100);
    let mut guard = RestLockGuardState { enforce_during_rest: true, last_relock_unix_secs: 1000 };
    let early = timer_update_reaction(&rest, &mut guard, 1002, &config, true);
    assert!(!early.relock);
    assert_eq!(guard.last_relock_unix_secs, 1000);
    let due = timer_update_reaction(&rest, &mut guard, 1003, &config, true);
    assert!(due.relock);
    assert_eq!(guard.last_relock_unix_secs, 1003);
    let mut off = RestLockGuardState { enforce_during_rest: false, last_relock_unix_secs: 0 };
    assert!(!timer_update_reaction(&rest, &mut off, 5000, &config, true).relock);
}

#[test]
fn advance_notice_only_inside_rules() {
    let config = activated_config();
    let at_notice = runtime(TimerState::Running, TimerPhase::Work, config.timer.advance_notice_seconds);
    let mut guard = RestLockGuardState::default();
    let inside = timer_update_reaction(&at_notice, &mut guard, 0, &config, true);
    let notice = inside.notice.expect("a notice at the advance second");
    assert_eq!(notice.title, "即将锁屏");
    assert_eq!(notice.countdown_seconds, config.timer.advance_notice_seconds);
    let outside = timer_update_reaction(&at_notice, &mut guard, 0, &config, false);
    assert!(outside.notice.is_none());
    let later = runtime(TimerState::Running, TimerPhase::Work, config.timer.advance_notice_seconds + 1);
    assert!(timer_update_reaction(&later, &mut guard, 0, &config, true).notice.is_none());
}

#[test]
fn end_of_countdown_steps() {
    let config = activated_config();
    let mut guard = RestLockGuardState::default();
    let work_end = runtime(TimerState::Idle, TimerPhase::Work, 0);
    match timer_update_reaction(&work_end, &mut guard, 0, &config, true).finish {
        FinishStep::Execute(action) => assert_eq!(action, "lock"),
        _ => panic!("a finished work countdown carries out the action"),
    }
    assert!(matches!(timer_update_reaction(&work_end, &mut guard, 0, &config, false).finish, FinishStep::Skip));
    let rest_end = runtime(TimerState::Idle, TimerPhase::Rest, 0);
    assert!(matches!(
        timer_update_reaction(&rest_end, &mut guard, 0, &config, true).finish,
        FinishStep::RestFinished
    ));
    let running = runtime(TimerState::Running, TimerPhase::Work, 10);
    assert!(matches!(timer_update_reaction(&running, &mut guard, 0, &config, true).finish, FinishStep::Continue));
}

#[test]
fn tray_menu_entries() {
    assert_eq!(tray_menu_command("pause", TimerState::Running, false), TrayCommand::Pause);
    assert_eq!(tray_menu_command("pause", TimerState::Paused, false), TrayCommand::Resume);
    assert_eq!(tray_menu_command("pause", TimerState::Idle, false), TrayCommand::Nothing);
    assert_eq!(tray_menu_command("quick_30", TimerState::Idle, false), TrayCommand::QuickSet(30));
    assert_eq!(tray_menu_command("quit", TimerState::Idle, true), TrayCommand::Exit);
    assert_eq!(tray_menu_command("quit", TimerState::Idle, false), TrayCommand::RequestExit);
    assert_eq!(tray_menu_command("other", TimerState::Idle, false), TrayCommand::Nothing);
}

#[test]
fn launch_auto_start_and_resume() {
    let mut config = activated_config();
    config.startup.start_timer_automatically = true;
    config.timer.interval_minutes = 20;
    let mut manager = ConfigManager::new("config.json".to_string(), Some(config));
    let mut state = AppState::new();
    let mut guard = RestLockGuardState::default();
    let sync = sync_timer_on_launch_impl(&mut state, &mut manager, &mut guard, false).unwrap();
    assert_eq!(sync.step, LaunchStep::AutoStart);
    assert!(sync.start_clock);
    let rt = state.timer.get_runtime();
    assert_eq!(rt.state, TimerState::Running);
    assert_eq!(rt.remaining_seconds, 1200);
    assert_eq!(manager.get().unwrap().runtime_state.timer_status, "Running");

    let again = sync_timer_on_launch_impl(&mut state, &mut manager, &mut guard, true).unwrap();
    assert_eq!(again.step, LaunchStep::Resume);
    assert!(!again.start_clock);
}

#[test]
fn launch_does_nothing_before_activation() {
    let mut manager = ConfigManager::new("config.json".to_string(), None);
    let mut state = AppState::new();
    let mut guard = RestLockGuardState::default();
    let sync = sync_timer_on_launch_impl(&mut state, &mut manager, &mut guard, false).unwrap();
    assert_eq!(sync.step, LaunchStep::Nothing);
    assert_eq!(state.timer.get_runtime().state, TimerState::Idle);
}

#[test]
fn commands_and_tooltip() {
    assert_eq!(format_remaining(125), "02:05");
    assert_eq!(format_remaining(6000), "100:00");
    let mut manager = ConfigManager::new("config.json".to_string(), Some(activated_config()));
    let mut state = AppState::new();
    let mut guard = RestLockGuardState::default();
    let rt = start_timer(&mut state, &mut manager, &mut guard).unwrap();
    assert_eq!(tray_tooltip(&rt), "TimerApp - 30:00");
    let stopped = stop_timer(&mut state, &mut manager, &mut guard).unwrap();
    assert_eq!(tray_tooltip(&stopped), "TimerApp - 停止");
}

#[test]
fn delays_use_the_daily_quota() {
    let mut config = activated_config();
    config.timer.max_delay_times = 1;
    let mut manager = ConfigManager::new("config.json".to_string(), Some(config));
    let mut timer = TimerEngine::new();
    timer.start().unwrap();
    let (accepted, rt) = delay_execution(&mut timer, &mut manager, 5).unwrap();
    assert!(accepted);
    assert_eq!(rt.remaining_seconds, 1800 + 300);
    assert_eq!(manager.get().unwrap().runtime_state.delay_count, 1);
    let (refused, _) = delay_execution(&mut timer, &mut manager, 5).unwrap();
    assert!(!refused);
    assert_eq!(Notifier::notify_delayed(5, 1, 1), "已用完所有延后机会，下次将立即执行");
    assert_eq!(Notifier::notify_delayed(5, 1, 3), "已延后 5 分钟，还剩余 2 次机会");
}

#[test]
fn shutdown_notice_is_a_tray_notice() {
    let lock = Notifier::notify_before_execution("lock", 30, 0, 3, vec![5]).unwrap();
    assert_eq!(lock.notification_type, NotificationType::Modal);
    let shutdown = Notifier::notify_before_execution("shutdown", 30, 0, 3, vec![5]).unwrap();
    assert_eq!(shutdown.notification_type, NotificationType::Tray);
    assert_eq!(shutdown.message, "系统将在 30 秒后自动关机");
    let suspend = Notifier::notify_before_execution("suspend", 30, 0, 3, vec![5]).unwrap();
    assert_eq!(suspend.notification_type, NotificationType::Tray);
    assert_eq!(suspend.action_type, "lock");
    assert!(Notifier::notify_before_execution("reboot", 30, 0, 3, vec![5]).is_none());
}
