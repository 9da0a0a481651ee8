//! The operations behind the front end's commands and the countdown's
//! once-a-second updates. Each takes the shared state and reports what the
//! application must show or do (emit an update, start the clock, lock the
//! screen, carry out the end-of-countdown action); the application saves the
//! configuration after each.

use vstd::prelude::*;
use crate::{AppState, RestLockGuardState};
use crate::activation;
use crate::clock;
use crate::config::{self, AppConfig, ConfigManager, RuntimeState};
use crate::notifier::{Notification, Notifier};
use crate::schedule::ScheduleChecker;
use crate::text;
use crate::timer::{self, TimerEngine, TimerPhase, TimerRuntime, TimerState};

verus! {

broadcast use vstd::string::group_string_axioms;

/// Minimum seconds between two re-locks during a rest.
pub const REST_RELOCK_INTERVAL_SECS: u64 = 3;

/// Turns re-locking during rest on or off; turning it on starts the
/// interval from now.
pub fn set_rest_lock_guard(rest_lock_guard: &mut RestLockGuardState, enforce: bool)
    ensures
        final(rest_lock_guard).enforce_during_rest == enforce,
        !enforce ==> final(rest_lock_guard).last_relock_unix_secs == 0,
{
    rest_lock_guard.enforce_during_rest = enforce;
    rest_lock_guard.last_relock_unix_secs = if enforce { clock::unix_now_secs() } else { 0 };
}

/// `MM:SS` of a number of seconds (minutes are not capped at 59).
pub open spec fn spec_format_remaining(seconds: u64) -> Seq<char> {
    text::spec_pad2((seconds / 60) as nat) + ":"@ + text::spec_pad2((seconds % 60) as nat)
}

/// Renders seconds as `MM:SS`.
pub fn format_remaining(seconds: u64) -> (r: String)
    ensures
        r@ == spec_format_remaining(seconds),
{
    let minutes = text::pad2_string(seconds / 60);
    let secs = text::pad2_string(seconds % 60);
    text::concat3(minutes.as_str(), ":", secs.as_str())
}

/// The tray tooltip for a countdown.
pub open spec fn spec_tray_tooltip(runtime: TimerRuntime) -> Seq<char> {
    match runtime.state {
        TimerState::Running => "TimerApp - "@ + spec_format_remaining(runtime.remaining_seconds),
        TimerState::Paused => "TimerApp - 暂停 "@ + spec_format_remaining(runtime.remaining_seconds),
        TimerState::Idle => "TimerApp - 停止"@,
    }
}

/// The tray tooltip for a countdown.
pub fn tray_tooltip(runtime: &TimerRuntime) -> (r: String)
    ensures
        r@ == spec_tray_tooltip(*runtime),
{
    match runtime.state {
        TimerState::Running => {
            let t = format_remaining(runtime.remaining_seconds);
            text::concat2("TimerApp - ", t.as_str())
        },
        TimerState::Paused => {
            let t = format_remaining(runtime.remaining_seconds);
            text::concat2("TimerApp - 暂停 ", t.as_str())
        },
        TimerState::Idle => "TimerApp - 停止".to_string(),
    }
}

/// The persisted form of the engine's countdown with the given quota.
pub open spec fn spec_engine_state(timer: TimerEngine, rs: RuntimeState, delay_count: u32, delay_quota_date: String) -> bool {
    &&& rs.timer_status@ == timer::spec_status_name(timer.runtime().state)
    &&& rs.remaining_seconds == timer.runtime().remaining_seconds
    &&& rs.total_seconds == timer.runtime().total_seconds
    &&& (timer.runtime().last_update matches Some(s) ==> rs.last_update == s)
    &&& rs.delay_count == delay_count
    &&& rs.delay_quota_date == delay_quota_date
    &&& rs.cycle_phase@ == timer::spec_phase_name(timer.runtime().phase)
}

/// Stores the engine's countdown, keeping the day's quota.
pub fn persist_timer_runtime(config_manager: &mut ConfigManager, timer: &TimerEngine) -> (r: Result<(), String>)
    ensures
        r is Ok,
        final(config_manager).config_path() == old(config_manager).config_path(),
        final(config_manager).config() == (AppConfig {
            runtime_state: final(config_manager).config().runtime_state,
            ..old(config_manager).config()
        }),
        spec_engine_state(*timer, final(config_manager).config().runtime_state,
            old(config_manager).config().runtime_state.delay_count,
            old(config_manager).config().runtime_state.delay_quota_date),
{
    let mut runtime_state = timer.to_runtime_state();
    if let Ok(cfg) = config_manager.get() {
        runtime_state.delay_count = cfg.runtime_state.delay_count;
        runtime_state.delay_quota_date = cfg.runtime_state.delay_quota_date;
    }
    config_manager.set_runtime_state(runtime_state);
    Ok(())
}

/// Stores a countdown after the daily quota check, keeping the day's quota.
pub fn save_runtime_state_with_delay(config_manager: &mut ConfigManager, runtime_state: RuntimeState) -> (r: Result<(), String>)
    ensures
        r is Ok,
        final(config_manager).config_path() == old(config_manager).config_path(),
        final(config_manager).config() == (AppConfig {
            runtime_state: final(config_manager).config().runtime_state,
            ..old(config_manager).config()
        }),
        exists|today: String| {
            let quota = #[trigger] config::spec_quota_checked(old(config_manager).config().runtime_state, today);
            let saved = final(config_manager).config().runtime_state;
            &&& clock::spec_ymd_shape(today@)
            &&& saved == (RuntimeState { delay_quota_date: saved.delay_quota_date, delay_count: quota.delay_count, ..runtime_state })
            &&& text::spec_trim(quota.delay_quota_date@).len() != 0 ==> saved.delay_quota_date == quota.delay_quota_date
        },
{
    let ghost before = config_manager.config();
    let _ = config::reset_daily_delay_quota_if_needed(config_manager);
    let ghost today = choose|today: String| clock::spec_ymd_shape(today@) && config_manager.config() == (AppConfig {
        runtime_state: #[trigger] config::spec_quota_checked(before.runtime_state, today),
        ..before
    });
    let mut state_to_save = runtime_state;
    if let Ok(cfg) = config_manager.get() {
        state_to_save.delay_count = cfg.runtime_state.delay_count;
        state_to_save.delay_quota_date = cfg.runtime_state.delay_quota_date;
    }
    let r = config::update_runtime_state(config_manager, state_to_save);
    assert(config::spec_quota_checked(before.runtime_state, today) == config::spec_quota_checked(before.runtime_state, today));
    r
}

/// Whether a rest must not be paused or stopped: re-locking is enforced and
/// a rest is running.
pub open spec fn spec_rest_protected(guard: RestLockGuardState, runtime: TimerRuntime) -> bool {
    guard.enforce_during_rest && runtime.phase == TimerPhase::Rest && runtime.state == TimerState::Running
}

/// The countdown snapshot, for activated installations.
pub fn get_timer_runtime(state: &AppState, config_manager: &ConfigManager) -> (r: Result<TimerRuntime, String>)
    ensures
        r is Ok <==> config_manager.config().activation.activated,
        r matches Ok(rt) ==> rt == state.timer.runtime(),
        r matches Err(e) ==> e@ == activation::spec_not_activated_message(),
{
    activation::ensure_activated(config_manager)?;
    Ok(state.timer.get_runtime())
}

/// The engine's interval settings, for activated installations.
pub fn get_timer_engine_config(state: &AppState, config_manager: &ConfigManager) -> (r: Result<timer::TimerConfig, String>)
    ensures
        r is Ok <==> config_manager.config().activation.activated,
        r matches Ok(c) ==> c == state.timer.config(),
        r matches Err(e) ==> e@ == activation::spec_not_activated_message(),
{
    activation::ensure_activated(config_manager)?;
    Ok(state.timer.get_config())
}

/// The remaining time as `MM:SS`, for activated installations.
pub fn get_formatted_time(state: &AppState, config_manager: &ConfigManager) -> (r: Result<String, String>)
    ensures
        r is Ok <==> config_manager.config().activation.activated,
        r matches Ok(t) ==> t@ == spec_format_remaining(state.timer.runtime().remaining_seconds),
        r matches Err(e) ==> e@ == activation::spec_not_activated_message(),
{
    activation::ensure_activated(config_manager)?;
    let runtime = state.timer.get_runtime();
    Ok(format_remaining(runtime.remaining_seconds))
}

/// Whether the schedule rules are in effect now, for activated installations.
pub fn check_schedule_effective(config_manager: &ConfigManager) -> (r: Result<bool, String>)
    ensures
        r is Ok <==> config_manager.config().activation.activated,
        r matches Err(e) ==> e@ == activation::spec_not_activated_message(),
        r matches Ok(b) ==> ({
            let s = config_manager.config().schedule;
            exists|minutes: u32, weekday: u32| minutes < 1440 && 1 <= weekday <= 7
                && b == #[trigger] crate::schedule::spec_effective(minutes, weekday, s.time_limit_enabled, s.start_time@,
                    s.end_time@, s.weekday_limit_enabled, s.weekdays@, s.logic@)
        }),
{
    activation::ensure_activated(config_manager)?;
    let config = config_manager.get()?;
    Ok(ScheduleChecker::is_effective(
        config.schedule.time_limit_enabled,
        config.schedule.start_time.as_str(),
        config.schedule.end_time.as_str(),
        config.schedule.weekday_limit_enabled,
        config.schedule.weekdays.as_slice(),
        config.schedule.logic.as_str(),
    ))
}

/// Sets the main interval (1..=1440 minutes): the countdown becomes an idle
/// work countdown of that length, and the interval and countdown are stored.
pub fn set_timer_interval(state: &mut AppState, config_manager: &mut ConfigManager, minutes: u64) -> (r: Result<(), String>)
    ensures
        final(config_manager).config_path() == old(config_manager).config_path(),
        !old(config_manager).config().activation.activated ==> (r matches Err(e) && e@ == activation::spec_not_activated_message())
            && *final(state) == *old(state) && *final(config_manager) == *old(config_manager),
        old(config_manager).config().activation.activated && (minutes < 1 || minutes > 1440)
            ==> (r matches Err(e) && e@ == "时间间隔必须在 "@ + text::spec_decimal(1) + "-"@ + text::spec_decimal(1440) + " 分钟之间"@)
            && *final(state) == *old(state) && *final(config_manager) == *old(config_manager),
        old(config_manager).config().activation.activated && 1 <= minutes <= 1440 ==> {
            &&& r is Ok
            &&& final(state).timer.runtime()@ == timer::spec_reset_to(TimerPhase::Work, (minutes * 60) as u64)
            &&& final(state).timer.config().interval_minutes == minutes
            &&& final(config_manager).config().timer.interval_minutes == minutes
            &&& final(config_manager).config() == (AppConfig {
                timer: config::TimerConfig { interval_minutes: minutes, ..old(config_manager).config().timer },
                runtime_state: final(config_manager).config().runtime_state,
                ..old(config_manager).config()
            })
            &&& final(config_manager).config().runtime_state.timer_status@ == "Idle"@
            &&& final(config_manager).config().runtime_state.remaining_seconds == minutes * 60
            &&& final(config_manager).config().runtime_state.total_seconds == minutes * 60
        },
{
    activation::ensure_activated(config_manager)?;
    state.timer.set_interval(minutes)?;
    let runtime_state = state.timer.to_runtime_state();
    config_manager.set_interval_minutes(minutes);
    let _ = save_runtime_state_with_delay(config_manager, runtime_state);
    Ok(())
}

/// Starts the countdown (the application then starts the clock and emits
/// the snapshot): re-locking is turned off, and an idle countdown first
/// becomes a work countdown of the main interval.
pub fn start_timer(state: &mut AppState, config_manager: &mut ConfigManager, rest_lock_guard: &mut RestLockGuardState) -> (r: Result<TimerRuntime, String>)
    requires
        old(config_manager).config().activation.activated && old(state).timer.runtime().state == TimerState::Idle
            ==> old(config_manager).config().timer.interval_minutes * 60 <= u64::MAX,
    ensures
        final(config_manager).config_path() == old(config_manager).config_path(),
        !old(config_manager).config().activation.activated ==> (r matches Err(e) && e@ == activation::spec_not_activated_message())
            && *final(state) == *old(state) && *final(config_manager) == *old(config_manager)
            && *final(rest_lock_guard) == *old(rest_lock_guard),
        old(config_manager).config().activation.activated ==> !final(rest_lock_guard).enforce_during_rest,
        old(config_manager).config().activation.activated && old(state).timer.runtime().state == TimerState::Running
            ==> (r matches Err(e) && e@ == "计时器已在运行"@) && final(state).timer.runtime()@ == old(state).timer.runtime()@,
        old(config_manager).config().activation.activated && old(state).timer.runtime().state == TimerState::Idle
            && old(config_manager).config().timer.interval_minutes == 0 ==> (r matches Err(e) && e@ == "时间间隔必须大于0分钟"@),
        old(config_manager).config().activation.activated && old(state).timer.runtime().state == TimerState::Paused ==> {
            &&& r matches Ok(rt) && rt == final(state).timer.runtime()
            &&& final(state).timer.runtime().last_update is Some
            &&& final(state).timer.runtime()@ == timer::spec_start(old(state).timer.runtime()@)
        },
        old(config_manager).config().activation.activated && old(state).timer.runtime().state == TimerState::Idle
            && old(config_manager).config().timer.interval_minutes > 0 ==> {
            &&& r matches Ok(rt) && rt == final(state).timer.runtime()
            &&& final(state).timer.runtime().last_update is Some
            &&& final(state).timer.runtime()@ == timer::spec_start(timer::spec_reset_to(TimerPhase::Work,
                    (old(config_manager).config().timer.interval_minutes * 60) as u64))
        },
        r is Ok ==> final(config_manager).config() == (AppConfig {
            runtime_state: final(config_manager).config().runtime_state,
            ..old(config_manager).config()
        }) && final(config_manager).config().runtime_state.timer_status@ == "Running"@,
{
    activation::ensure_activated(config_manager)?;
    set_rest_lock_guard(rest_lock_guard, false);
    let config = config_manager.get()?;
    if state.timer.get_runtime().state == TimerState::Idle {
        state.timer.set_phase_interval(TimerPhase::Work, config.timer.interval_minutes)?;
    }
    state.timer.start()?;
    let runtime_state = state.timer.to_runtime_state();
    let _ = save_runtime_state_with_delay(config_manager, runtime_state);
    Ok(state.timer.get_runtime())
}

/// Pauses the countdown; refused for a protected rest.
pub fn pause_timer(state: &mut AppState, config_manager: &mut ConfigManager, rest_lock_guard: &RestLockGuardState) -> (r: Result<TimerRuntime, String>)
    ensures
        final(config_manager).config_path() == old(config_manager).config_path(),
        !old(config_manager).config().activation.activated ==> (r matches Err(e) && e@ == activation::spec_not_activated_message())
            && *final(state) == *old(state) && *final(config_manager) == *old(config_manager),
        old(config_manager).config().activation.activated && spec_rest_protected(*rest_lock_guard, old(state).timer.runtime())
            ==> (r matches Err(e) && e@ == "休息阶段禁止暂停"@) && *final(state) == *old(state) && *final(config_manager) == *old(config_manager),
        old(config_manager).config().activation.activated && !spec_rest_protected(*rest_lock_guard, old(state).timer.runtime())
            && old(state).timer.runtime().state != TimerState::Running
            ==> (r matches Err(e) && e@ == "计时器未在运行"@) && *final(state) == *old(state) && *final(config_manager) == *old(config_manager),
        old(config_manager).config().activation.activated && !spec_rest_protected(*rest_lock_guard, old(state).timer.runtime())
            && old(state).timer.runtime().state == TimerState::Running ==> r is Ok,
        r is Ok ==> {
            &&& old(state).timer.runtime().state == TimerState::Running
            &&& r->Ok_0 == final(state).timer.runtime()
            &&& final(state).timer.runtime().last_update is Some
            &&& final(state).timer.runtime()@ == timer::spec_pause(old(state).timer.runtime()@)
            &&& final(config_manager).config() == (AppConfig {
                runtime_state: final(config_manager).config().runtime_state,
                ..old(config_manager).config()
            })
            &&& final(config_manager).config().runtime_state.timer_status@ == "Paused"@
            &&& final(config_manager).config().runtime_state.remaining_seconds == old(state).timer.runtime().remaining_seconds
        },
{
    activation::ensure_activated(config_manager)?;
    let runtime = state.timer.get_runtime();
    if rest_lock_guard.enforce_during_rest && runtime.phase == TimerPhase::Rest && runtime.state == TimerState::Running {
        return Err("休息阶段禁止暂停".to_string());
    }
    state.timer.pause()?;
    let runtime_state = state.timer.to_runtime_state();
    let _ = save_runtime_state_with_delay(config_manager, runtime_state);
    Ok(state.timer.get_runtime())
}

/// Resumes a paused countdown (the application then starts the clock).
pub fn resume_timer(state: &mut AppState, config_manager: &mut ConfigManager) -> (r: Result<TimerRuntime, String>)
    ensures
        final(config_manager).config_path() == old(config_manager).config_path(),
        !old(config_manager).config().activation.activated ==> (r matches Err(e) && e@ == activation::spec_not_activated_message())
            && *final(state) == *old(state) && *final(config_manager) == *old(config_manager),
        old(config_manager).config().activation.activated && old(state).timer.runtime().state != TimerState::Paused
            ==> (r matches Err(e) && e@ == "计时器未暂停"@) && *final(state) == *old(state) && *final(config_manager) == *old(config_manager),
        old(config_manager).config().activation.activated && old(state).timer.runtime().state == TimerState::Paused ==> r is Ok,
        r is Ok ==> {
            &&& old(state).timer.runtime().state == TimerState::Paused
            &&& r->Ok_0 == final(state).timer.runtime()
            &&& final(state).timer.runtime().last_update is Some
            &&& final(state).timer.runtime()@ == timer::spec_resume(old(state).timer.runtime()@)
            &&& final(config_manager).config() == (AppConfig {
                runtime_state: final(config_manager).config().runtime_state,
                ..old(config_manager).config()
            })
            &&& final(config_manager).config().runtime_state.timer_status@ == "Running"@
        },
{
    activation::ensure_activated(config_manager)?;
    state.timer.resume()?;
    let runtime_state = state.timer.to_runtime_state();
    let _ = save_runtime_state_with_delay(config_manager, runtime_state);
    Ok(state.timer.get_runtime())
}

/// What starting a rest asks of the application.
#[derive(Debug)]
pub struct LoopRestOutcome {
    /// Lock the screen now.
    pub lock_screen: bool,
    /// The snapshot to emit (the application then starts the clock), or the refusal.
    pub result: Result<TimerRuntime, String>,
}

/// Starts a rest of `minutes` (the application locks the screen first when
/// asked to enforce, then starts the clock).
pub fn start_loop_rest_timer(
    state: &mut AppState,
    config_manager: &mut ConfigManager,
    rest_lock_guard: &mut RestLockGuardState,
    minutes: u64,
    enforce_lock: bool,
) -> (r: LoopRestOutcome)
    requires
        old(config_manager).config().activation.activated ==> minutes * 60 <= u64::MAX,
    ensures
        final(config_manager).config_path() == old(config_manager).config_path(),
        !old(config_manager).config().activation.activated ==> (r.result matches Err(e) && e@ == activation::spec_not_activated_message())
            && !r.lock_screen && *final(state) == *old(state) && *final(config_manager) == *old(config_manager)
            && *final(rest_lock_guard) == *old(rest_lock_guard),
        old(config_manager).config().activation.activated && minutes == 0 ==> (r.result matches Err(e) && e@ == "循环间隔必须大于0分钟"@)
            && !r.lock_screen && *final(state) == *old(state) && *final(config_manager) == *old(config_manager)
            && *final(rest_lock_guard) == *old(rest_lock_guard),
        old(config_manager).config().activation.activated && minutes > 0 ==> {
            &&& r.lock_screen == enforce_lock
            &&& final(rest_lock_guard).enforce_during_rest == enforce_lock
            &&& r.result matches Ok(rt) && rt == final(state).timer.runtime()
            &&& final(state).timer.runtime().last_update is Some
            &&& final(state).timer.runtime()@ == timer::spec_start(timer::spec_reset_to(TimerPhase::Rest, (minutes * 60) as u64))
            &&& final(config_manager).config() == (AppConfig {
                runtime_state: final(config_manager).config().runtime_state,
                ..old(config_manager).config()
            })
            &&& final(config_manager).config().runtime_state.timer_status@ == "Running"@
            &&& final(config_manager).config().runtime_state.cycle_phase@ == "Rest"@
        },
{
    if activation::ensure_activated(config_manager).is_err() {
        return LoopRestOutcome { lock_screen: false, result: Err("软件未激活，无法使用此功能".to_string()) };
    }
    if minutes == 0 {
        return LoopRestOutcome { lock_screen: false, result: Err("循环间隔必须大于0分钟".to_string()) };
    }
    set_rest_lock_guard(rest_lock_guard, enforce_lock);
    let result = match state.timer.set_phase_interval(TimerPhase::Rest, minutes) {
        Err(e) => Err(e),
        Ok(()) => match state.timer.start() {
            Err(e) => Err(e),
            Ok(()) => {
                let runtime_state = state.timer.to_runtime_state();
                let _ = save_runtime_state_with_delay(config_manager, runtime_state);
                Ok(state.timer.get_runtime())
            },
        },
    };
    LoopRestOutcome { lock_screen: enforce_lock, result }
}

/// Starts the next work countdown of the main interval (the application then
/// starts the clock); re-locking is turned off.
pub fn start_work_cycle_timer(state: &mut AppState, config_manager: &mut ConfigManager, rest_lock_guard: &mut RestLockGuardState) -> (r: Result<TimerRuntime, String>)
    requires
        old(config_manager).config().activation.activated ==> old(config_manager).config().timer.interval_minutes * 60 <= u64::MAX,
    ensures
        final(config_manager).config_path() == old(config_manager).config_path(),
        !old(config_manager).config().activation.activated ==> (r matches Err(e) && e@ == activation::spec_not_activated_message())
            && *final(state) == *old(state) && *final(config_manager) == *old(config_manager)
            && *final(rest_lock_guard) == *old(rest_lock_guard),
        old(config_manager).config().activation.activated ==> !final(rest_lock_guard).enforce_during_rest,
        old(config_manager).config().activation.activated && old(config_manager).config().timer.interval_minutes == 0
            ==> (r matches Err(e) && e@ == "时间间隔必须大于0分钟"@),
        old(config_manager).config().activation.activated && old(config_manager).config().timer.interval_minutes > 0 ==> {
            &&& r matches Ok(rt) && rt == final(state).timer.runtime()
            &&& final(state).timer.runtime().last_update is Some
            &&& final(state).timer.runtime()@ == timer::spec_start(timer::spec_reset_to(TimerPhase::Work,
                    (old(config_manager).config().timer.interval_minutes * 60) as u64))
            &&& final(config_manager).config().runtime_state.timer_status@ == "Running"@
            &&& final(config_manager).config().runtime_state.cycle_phase@ == "Work"@
        },
        final(config_manager).config() == (AppConfig {
            runtime_state: final(config_manager).config().runtime_state,
            ..old(config_manager).config()
        }),
{
    activation::ensure_activated(config_manager)?;
    set_rest_lock_guard(rest_lock_guard, false);
    let _ = config::reset_daily_delay_quota_if_needed(config_manager);
    let config = config_manager.get()?;
    state.timer.set_phase_interval(TimerPhase::Work, config.timer.interval_minutes)?;
    state.timer.start()?;
    let mut runtime_state = state.timer.to_runtime_state();
    runtime_state.delay_count = config.runtime_state.delay_count;
    runtime_state.delay_quota_date = config.runtime_state.delay_quota_date;
    let _ = config::update_runtime_state(config_manager, runtime_state);
    Ok(state.timer.get_runtime())
}

/// Stops and resets to an idle work countdown of the main interval; refused
/// for a protected rest. Re-locking is turned off.
pub fn stop_timer(state: &mut AppState, config_manager: &mut ConfigManager, rest_lock_guard: &mut RestLockGuardState) -> (r: Result<TimerRuntime, String>)
    requires
        old(config_manager).config().activation.activated && !spec_rest_protected(*old(rest_lock_guard), old(state).timer.runtime())
            ==> old(config_manager).config().timer.interval_minutes * 60 <= u64::MAX,
    ensures
        final(config_manager).config_path() == old(config_manager).config_path(),
        !old(config_manager).config().activation.activated ==> (r matches Err(e) && e@ == activation::spec_not_activated_message())
            && *final(state) == *old(state) && *final(config_manager) == *old(config_manager)
            && *final(rest_lock_guard) == *old(rest_lock_guard),
        old(config_manager).config().activation.activated && spec_rest_protected(*old(rest_lock_guard), old(state).timer.runtime())
            ==> (r matches Err(e) && e@ == "休息阶段禁止停止"@) && *final(state) == *old(state)
            && *final(rest_lock_guard) == *old(rest_lock_guard),
        old(config_manager).config().activation.activated && !spec_rest_protected(*old(rest_lock_guard), old(state).timer.runtime())
            ==> !final(rest_lock_guard).enforce_during_rest,
        old(config_manager).config().activation.activated && !spec_rest_protected(*old(rest_lock_guard), old(state).timer.runtime())
            && old(config_manager).config().timer.interval_minutes == 0 ==> (r matches Err(e) && e@ == "时间间隔必须大于0分钟"@),
        old(config_manager).config().activation.activated && !spec_rest_protected(*old(rest_lock_guard), old(state).timer.runtime())
            && old(config_manager).config().timer.interval_minutes > 0 ==> {
            &&& r matches Ok(rt) && rt == final(state).timer.runtime()
            &&& final(state).timer.runtime().last_update is Some
            &&& final(state).timer.runtime()@ == timer::spec_reset_to(TimerPhase::Work,
                    (old(config_manager).config().timer.interval_minutes * 60) as u64)
            &&& final(config_manager).config().runtime_state.timer_status@ == "Idle"@
            &&& final(config_manager).config().runtime_state.cycle_phase@ == "Work"@
        },
        final(config_manager).config() == (AppConfig {
            runtime_state: final(config_manager).config().runtime_state,
            ..old(config_manager).config()
        }),
{
    activation::ensure_activated(config_manager)?;
    let _ = config::reset_daily_delay_quota_if_needed(config_manager);
    let config = config_manager.get()?;
    let runtime = state.timer.get_runtime();
    if rest_lock_guard.enforce_during_rest && runtime.phase == TimerPhase::Rest && runtime.state == TimerState::Running {
        return Err("休息阶段禁止停止".to_string());
    }
    set_rest_lock_guard(rest_lock_guard, false);
    state.timer.set_phase_interval(TimerPhase::Work, config.timer.interval_minutes)?;
    state.timer.stop();
    let mut runtime_state = state.timer.to_runtime_state();
    runtime_state.delay_count = config.runtime_state.delay_count;
    runtime_state.delay_quota_date = config.runtime_state.delay_quota_date;
    let _ = config::update_runtime_state(config_manager, runtime_state);
    Ok(state.timer.get_runtime())
}

/// Stores the idle state after a countdown finished: an idle work countdown
/// of the last total, with the day's quota.
pub fn save_timer_finished_state(state: &AppState, config_manager: &mut ConfigManager) -> (r: Result<(), String>)
    ensures
        r is Ok,
        final(config_manager).config_path() == old(config_manager).config_path(),
        final(config_manager).config() == (AppConfig {
            runtime_state: final(config_manager).config().runtime_state,
            ..old(config_manager).config()
        }),
        final(config_manager).config().runtime_state.timer_status@ == "Idle"@,
        final(config_manager).config().runtime_state.remaining_seconds == state.timer.runtime().total_seconds,
        final(config_manager).config().runtime_state.total_seconds == state.timer.runtime().total_seconds,
        final(config_manager).config().runtime_state.cycle_phase@ == "Work"@,
{
    let runtime = state.timer.get_runtime();
    let _ = config::reset_daily_delay_quota_if_needed(config_manager);
    let cfg = config_manager.get()?;
    let runtime_state = RuntimeState {
        timer_status: "Idle".to_string(),
        remaining_seconds: runtime.total_seconds,
        total_seconds: runtime.total_seconds,
        last_update: clock::now_rfc3339(),
        delay_count: cfg.runtime_state.delay_count,
        delay_quota_date: cfg.runtime_state.delay_quota_date,
        cycle_phase: "Work".to_string(),
    };
    config::update_runtime_state(config_manager, runtime_state)
}

} // verus!
