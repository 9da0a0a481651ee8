//! Reactions to what happens outside the commands: each second of the
//! countdown, the start of the application, and the tray menu. Each is a
//! decision from the state and the event to what the application must do;
//! the application runs the clock, shows windows and notices, and locks the
//! screen.

use vstd::prelude::*;
use crate::{AppState, RestLockGuardState};
use crate::activation;
use crate::clock;
use crate::commands::{self, REST_RELOCK_INTERVAL_SECS};
use crate::config::{AppConfig, ConfigManager};
use crate::notifier::{self, Notification, Notifier};
use crate::schedule::{self, ScheduleChecker};
use crate::text;
use crate::timer::{self, TimerPhase, TimerRuntime, TimerState};

verus! {

broadcast use vstd::string::group_string_axioms;

/// What the end of a countdown asks of the application.
#[derive(Debug)]
pub enum FinishStep {
    /// The countdown has not finished.
    Continue,
    /// A rest finished: the front end starts the next round.
    RestFinished,
    /// A work countdown finished while the rules are in effect: carry out
    /// this action, then report the end.
    Execute(String),
    /// A work countdown finished outside the rules: only report the end.
    Skip,
}

/// What one countdown update asks of the application, besides emitting the
/// snapshot and updating the tray tooltip.
#[derive(Debug)]
pub struct TimerUpdateReaction {
    /// Lock the screen again.
    pub relock: bool,
    /// Show this notice before the action.
    pub notice: Option<Notification>,
    pub finish: FinishStep,
}

/// Whether a running rest with enforced re-locking is due for another lock:
/// at least the re-lock interval has passed since the last one.
pub open spec fn spec_relock_due(runtime: TimerRuntime, guard: RestLockGuardState, now: u64) -> bool {
    &&& runtime.state == TimerState::Running
    &&& runtime.phase == TimerPhase::Rest
    &&& guard.enforce_during_rest
    &&& now >= guard.last_relock_unix_secs + REST_RELOCK_INTERVAL_SECS
}

/// Whether a running work countdown has just reached the advance notice.
pub open spec fn spec_notice_due(runtime: TimerRuntime, config: AppConfig) -> bool {
    &&& runtime.state == TimerState::Running
    &&& runtime.phase == TimerPhase::Work
    &&& config.timer.advance_notice_seconds > 0
    &&& runtime.remaining_seconds == config.timer.advance_notice_seconds
}

/// Whether the snapshot is the end of a countdown.
pub open spec fn spec_finished(runtime: TimerRuntime) -> bool {
    runtime.remaining_seconds == 0 && runtime.state == TimerState::Idle
}

/// The end step for a snapshot, given whether the rules are in effect.
pub open spec fn spec_finish_step(runtime: TimerRuntime, config: AppConfig, effective: bool) -> FinishStep {
    if !spec_finished(runtime) {
        FinishStep::Continue
    } else if runtime.phase == TimerPhase::Rest {
        FinishStep::RestFinished
    } else if effective {
        FinishStep::Execute(config.action.action_type)
    } else {
        FinishStep::Skip
    }
}

/// The reaction `r` to a snapshot, and the guard after it, for the clock
/// reading `now` and whether the rules are in effect.
pub open spec fn spec_reaction(
    runtime: TimerRuntime,
    guard_before: RestLockGuardState,
    guard_after: RestLockGuardState,
    now: u64,
    config: AppConfig,
    effective: bool,
    r: TimerUpdateReaction,
) -> bool {
    &&& r.relock == spec_relock_due(runtime, guard_before, now)
    &&& guard_after == (if r.relock {
        RestLockGuardState { last_relock_unix_secs: now, ..guard_before }
    } else {
        guard_before
    })
    &&& (spec_notice_due(runtime, config) && effective ==> notifier::spec_notice(
        r.notice,
        config.action.action_type@,
        config.timer.advance_notice_seconds,
        config.runtime_state.delay_count,
        config.timer.max_delay_times,
        config.timer.delay_options@,
    ))
    &&& (!(spec_notice_due(runtime, config) && effective) ==> r.notice is None)
    &&& r.finish == spec_finish_step(runtime, config, effective)
}

/// The reaction to a countdown snapshot at Unix time `now`, with the
/// configuration and whether the rules are in effect: re-lock a protected
/// rest, show the advance notice, and at the end either start the next
/// round or carry out (or skip) the action.
pub fn timer_update_reaction(
    runtime: &TimerRuntime,
    guard: &mut RestLockGuardState,
    now: u64,
    config: &AppConfig,
    effective: bool,
) -> (r: TimerUpdateReaction)
    ensures
        spec_reaction(*runtime, *old(guard), *final(guard), now, *config, effective, r),
{
    let mut relock = false;
    if runtime.state == TimerState::Running && runtime.phase == TimerPhase::Rest && guard.enforce_during_rest {
        if now.saturating_sub(guard.last_relock_unix_secs) >= REST_RELOCK_INTERVAL_SECS {
            relock = true;
            guard.last_relock_unix_secs = now;
        }
    }
    let mut notice: Option<Notification> = None;
    if runtime.state == TimerState::Running && runtime.phase == TimerPhase::Work {
        let notice_seconds = config.timer.advance_notice_seconds;
        if notice_seconds > 0 && runtime.remaining_seconds == notice_seconds && effective {
            notice = Notifier::notify_before_execution(
                config.action.action_type.as_str(),
                notice_seconds,
                config.runtime_state.delay_count,
                config.timer.max_delay_times,
                config.timer.delay_options.clone(),
            );
        }
    }
    let is_finished = runtime.remaining_seconds == 0 && runtime.state == TimerState::Idle;
    let finish = if !is_finished {
        FinishStep::Continue
    } else if runtime.phase == TimerPhase::Rest {
        FinishStep::RestFinished
    } else if effective {
        FinishStep::Execute(config.action.action_type.clone())
    } else {
        FinishStep::Skip
    };
    TimerUpdateReaction { relock, notice, finish }
}

/// The reaction to a countdown snapshot now: the daily delay quota is
/// checked first, then the clock and the schedule rules are read and the
/// reaction is that of `timer_update_reaction`.
pub fn on_timer_update(
    runtime: &TimerRuntime,
    guard: &mut RestLockGuardState,
    config_manager: &mut ConfigManager,
) -> (r: TimerUpdateReaction)
    ensures
        final(config_manager).config_path() == old(config_manager).config_path(),
        exists|today: String| clock::spec_ymd_shape(today@) && final(config_manager).config() == (AppConfig {
            runtime_state: #[trigger] crate::config::spec_quota_checked(old(config_manager).config().runtime_state, today),
            ..old(config_manager).config()
        }),
        ({
            let c = final(config_manager).config();
            let s = c.schedule;
            exists|now: u64, minutes: u32, weekday: u32| minutes < 1440 && 1 <= weekday <= 7
                && #[trigger] spec_reaction(*runtime, *old(guard), *final(guard), now, c,
                    schedule::spec_effective(minutes, weekday, s.time_limit_enabled, s.start_time@, s.end_time@,
                        s.weekday_limit_enabled, s.weekdays@, s.logic@), r)
        }),
{
    let _ = crate::config::reset_daily_delay_quota_if_needed(config_manager);
    let config = config_manager.config_ref();
    let now = clock::unix_now_secs();
    let effective = ScheduleChecker::is_effective(
        config.schedule.time_limit_enabled,
        config.schedule.start_time.as_str(),
        config.schedule.end_time.as_str(),
        config.schedule.weekday_limit_enabled,
        config.schedule.weekdays.as_slice(),
        config.schedule.logic.as_str(),
    );
    let ghost g0 = *guard;
    let r = timer_update_reaction(runtime, guard, now, config, effective);
    proof {
        let s = config.schedule;
        let (m, w) = choose|m: u32, w: u32| m < 1440 && 1 <= w <= 7 && effective == schedule::spec_effective(
            m, w, s.time_limit_enabled, s.start_time@, s.end_time@, s.weekday_limit_enabled, s.weekdays@, s.logic@);
        assert(spec_reaction(*runtime, g0, *guard, now, *config, schedule::spec_effective(
            m, w, s.time_limit_enabled, s.start_time@, s.end_time@, s.weekday_limit_enabled, s.weekdays@, s.logic@), r));
    }
    r
}

/// What the start of the application does with the countdown.
#[derive(Debug, Clone, Copy, PartialEq, Eq, Structural)]
pub enum LaunchStep {
    /// Nothing: not activated, or nothing to resume or start.
    Nothing,
    /// A running or held countdown runs on.
    Resume,
    /// An idle work countdown of the main interval is started.
    AutoStart,
}

/// The launch step for an installation, its countdown and its start-up
/// setting.
pub open spec fn spec_launch_step(activated: bool, runtime: TimerRuntime, start_automatically: bool) -> LaunchStep {
    if !activated {
        LaunchStep::Nothing
    } else if runtime.state == TimerState::Running || runtime.state == TimerState::Paused {
        LaunchStep::Resume
    } else if start_automatically && runtime.state == TimerState::Idle && runtime.phase == TimerPhase::Work {
        LaunchStep::AutoStart
    } else {
        LaunchStep::Nothing
    }
}

/// What the start of the application asks of it: after any step but
/// `Nothing`, emit the snapshot and update the tooltip; start the clock
/// when asked.
#[derive(Debug)]
pub struct LaunchSync {
    pub step: LaunchStep,
    pub start_clock: bool,
}

/// Brings the countdown back when the application starts (`clock_running`
/// tells whether its clock already runs): a running or held countdown runs
/// on (a running rest re-locks as configured), an idle work countdown starts
/// when the start-up setting asks for it, and the countdown is stored.
pub fn sync_timer_on_launch_impl(
    state: &mut AppState,
    config_manager: &mut ConfigManager,
    rest_lock_guard: &mut RestLockGuardState,
    clock_running: bool,
) -> (r: Result<LaunchSync, String>)
    requires
        spec_launch_step(old(config_manager).config().activation.activated, old(state).timer.runtime(),
            old(config_manager).config().startup.start_timer_automatically) == LaunchStep::AutoStart
            ==> old(config_manager).config().timer.interval_minutes * 60 <= u64::MAX,
    ensures
        ({
            let c = old(config_manager).config();
            let rt = old(state).timer.runtime();
            let step = spec_launch_step(c.activation.activated, rt, c.startup.start_timer_automatically);
            &&& final(config_manager).config_path() == old(config_manager).config_path()
            &&& r is Err <==> step == LaunchStep::AutoStart && c.timer.interval_minutes == 0
            &&& r matches Err(e) ==> e@ == "时间间隔必须大于0分钟"@
            &&& r matches Ok(s) ==> s.step == step
            &&& (step == LaunchStep::Nothing || r is Err) ==> *final(state) == *old(state)
                && *final(config_manager) == *old(config_manager) && *final(rest_lock_guard) == *old(rest_lock_guard)
            &&& step == LaunchStep::Resume ==> {
                &&& r matches Ok(s) && s.start_clock == !clock_running
                &&& clock_running ==> final(state).timer.runtime()@ == rt@
                &&& !clock_running ==> final(state).timer.runtime().last_update is Some
                &&& !clock_running ==> final(state).timer.runtime()@ == timer::spec_resume(rt@)
                &&& rt.state == TimerState::Running && rt.phase == TimerPhase::Rest
                    ==> final(rest_lock_guard).enforce_during_rest == c.timer.enforce_relock_during_rest
                &&& !(rt.state == TimerState::Running && rt.phase == TimerPhase::Rest)
                    ==> *final(rest_lock_guard) == *old(rest_lock_guard)
            }
            &&& step == LaunchStep::AutoStart && c.timer.interval_minutes > 0 ==> {
                &&& r matches Ok(s) && s.start_clock
                &&& final(state).timer.runtime().last_update is Some
                &&& final(state).timer.runtime()@ == timer::spec_start(
                    timer::spec_reset_to(TimerPhase::Work, (c.timer.interval_minutes * 60) as u64))
                &&& *final(rest_lock_guard) == *old(rest_lock_guard)
            }
            &&& step != LaunchStep::Nothing && r is Ok ==> {
                &&& final(config_manager).config() == (AppConfig {
                    runtime_state: final(config_manager).config().runtime_state,
                    ..c
                })
                &&& commands::spec_engine_state(final(state).timer, final(config_manager).config().runtime_state,
                    c.runtime_state.delay_count, c.runtime_state.delay_quota_date)
            }
        }),
{
    let config = config_manager.get()?;
    if !config.activation.activated {
        return Ok(LaunchSync { step: LaunchStep::Nothing, start_clock: false });
    }
    let runtime = state.timer.get_runtime();
    let should_resume = runtime.state == TimerState::Running || runtime.state == TimerState::Paused;
    let should_auto_start = config.startup.start_timer_automatically
        && runtime.state == TimerState::Idle
        && runtime.phase == TimerPhase::Work;
    if !should_resume && !should_auto_start {
        return Ok(LaunchSync { step: LaunchStep::Nothing, start_clock: false });
    }
    if should_resume && runtime.state == TimerState::Running && runtime.phase == TimerPhase::Rest {
        commands::set_rest_lock_guard(rest_lock_guard, config.timer.enforce_relock_during_rest);
    }
    let mut start_clock = false;
    let step = if should_resume {
        if !clock_running {
            state.timer.resume_persisted_countdown()?;
            start_clock = true;
        }
        LaunchStep::Resume
    } else {
        state.timer.set_phase_interval(TimerPhase::Work, config.timer.interval_minutes)?;
        state.timer.start()?;
        start_clock = true;
        LaunchStep::AutoStart
    };
    let _ = commands::persist_timer_runtime(config_manager, &state.timer);
    Ok(LaunchSync { step, start_clock })
}

/// The launch synchronisation asked by the front end once it is ready, for
/// activated installations: as `sync_timer_on_launch_impl`, with the
/// countdown snapshot after it.
pub fn sync_timer_on_launch(
    state: &mut AppState,
    config_manager: &mut ConfigManager,
    rest_lock_guard: &mut RestLockGuardState,
    clock_running: bool,
) -> (r: Result<(LaunchSync, TimerRuntime), String>)
    requires
        spec_launch_step(old(config_manager).config().activation.activated, old(state).timer.runtime(),
            old(config_manager).config().startup.start_timer_automatically) == LaunchStep::AutoStart
            ==> old(config_manager).config().timer.interval_minutes * 60 <= u64::MAX,
    ensures
        !old(config_manager).config().activation.activated ==> (r matches Err(e) && e@ == activation::spec_not_activated_message())
            && *final(state) == *old(state) && *final(config_manager) == *old(config_manager)
            && *final(rest_lock_guard) == *old(rest_lock_guard),
        old(config_manager).config().activation.activated ==> {
            let c = old(config_manager).config();
            let step = spec_launch_step(true, old(state).timer.runtime(), c.startup.start_timer_automatically);
            &&& r is Err <==> step == LaunchStep::AutoStart && c.timer.interval_minutes == 0
            &&& r matches Ok((s, rt)) ==> s.step == step && rt == final(state).timer.runtime()
        },
{
    activation::ensure_activated(config_manager)?;
    let sync = sync_timer_on_launch_impl(state, config_manager, rest_lock_guard, clock_running)?;
    Ok((sync, state.timer.get_runtime()))
}

/// What a tray menu entry asks of the application.
#[derive(Debug, Clone, Copy, PartialEq, Eq, Structural)]
pub enum TrayCommand {
    /// Show and focus the main window.
    ShowWindow,
    /// Ask the front end to pause.
    Pause,
    /// Ask the front end to resume.
    Resume,
    /// Ask the front end to stop and reset.
    Stop,
    /// Ask the front end to set this interval (minutes).
    QuickSet(u64),
    /// Show the main window and the about box.
    ShowAbout,
    /// Leave at once (safe mode).
    Exit,
    /// Show the main window and ask for the exit password.
    RequestExit,
    /// Nothing to do.
    Nothing,
}

/// The command of a tray menu entry, given the countdown's state and
/// whether the application runs in safe mode.
pub open spec fn spec_tray_command(id: Seq<char>, state: TimerState, safe_mode: bool) -> TrayCommand {
    if id == "show"@ {
        TrayCommand::ShowWindow
    } else if id == "pause"@ {
        match state {
            TimerState::Running => TrayCommand::Pause,
            TimerState::Paused => TrayCommand::Resume,
            TimerState::Idle => TrayCommand::Nothing,
        }
    } else if id == "stop"@ {
        TrayCommand::Stop
    } else if id == "quick_15"@ {
        TrayCommand::QuickSet(15)
    } else if id == "quick_30"@ {
        TrayCommand::QuickSet(30)
    } else if id == "quick_60"@ {
        TrayCommand::QuickSet(60)
    } else if id == "about"@ {
        TrayCommand::ShowAbout
    } else if id == "quit"@ {
        if safe_mode { TrayCommand::Exit } else { TrayCommand::RequestExit }
    } else {
        TrayCommand::Nothing
    }
}

/// The command of a tray menu entry.
pub fn tray_menu_command(id: &str, state: TimerState, safe_mode: bool) -> (r: TrayCommand)
    ensures
        r == spec_tray_command(id@, state, safe_mode),
{
    if text::str_eq(id, "show") {
        TrayCommand::ShowWindow
    } else if text::str_eq(id, "pause") {
        match state {
            TimerState::Running => TrayCommand::Pause,
            TimerState::Paused => TrayCommand::Resume,
            TimerState::Idle => TrayCommand::Nothing,
        }
    } else if text::str_eq(id, "stop") {
        TrayCommand::Stop
    } else if text::str_eq(id, "quick_15") {
        TrayCommand::QuickSet(15)
    } else if text::str_eq(id, "quick_30") {
        TrayCommand::QuickSet(30)
    } else if text::str_eq(id, "quick_60") {
        TrayCommand::QuickSet(60)
    } else if text::str_eq(id, "about") {
        TrayCommand::ShowAbout
    } else if text::str_eq(id, "quit") {
        if safe_mode { TrayCommand::Exit } else { TrayCommand::RequestExit }
    } else {
        TrayCommand::Nothing
    }
}

/// After a re-lock at `now`, no other re-lock comes before the re-lock
/// interval has passed.
pub proof fn law_relock_spacing(
    runtime: TimerRuntime,
    guard_before: RestLockGuardState,
    guard_after: RestLockGuardState,
    now: u64,
    config: AppConfig,
    effective: bool,
    r: TimerUpdateReaction,
    later: TimerRuntime,
    then: u64,
)
    requires
        spec_reaction(runtime, guard_before, guard_after, now, config, effective, r),
        r.relock,
        then < now + REST_RELOCK_INTERVAL_SECS,
    ensures
        !spec_relock_due(later, guard_after, then),
{
}

/// No notice is shown and no action is carried out while the rules are not
/// in effect.
pub proof fn law_nothing_outside_rules(
    runtime: TimerRuntime,
    guard_before: RestLockGuardState,
    guard_after: RestLockGuardState,
    now: u64,
    config: AppConfig,
    r: TimerUpdateReaction,
)
    requires
        spec_reaction(runtime, guard_before, guard_after, now, config, false, r),
    ensures
        r.notice is None,
        !(r.finish is Execute),
{
}

/// A rest that ends never carries out the action: the front end starts the
/// next round instead.
pub proof fn law_rest_end_starts_next_round(config: AppConfig, effective: bool, runtime: TimerRuntime)
    requires
        spec_finished(runtime),
        runtime.phase == TimerPhase::Rest,
    ensures
        spec_finish_step(runtime, config, effective) is RestFinished,
{
}

/// The advance notice belongs to work countdowns: a rest, a held or an idle
/// snapshot never shows one, and a notice comes only at the advance second
/// of a running work countdown while the rules are in effect.
pub proof fn law_notice_only_for_running_work(
    runtime: TimerRuntime,
    guard_before: RestLockGuardState,
    guard_after: RestLockGuardState,
    now: u64,
    config: AppConfig,
    effective: bool,
    r: TimerUpdateReaction,
)
    requires
        spec_reaction(runtime, guard_before, guard_after, now, config, effective, r),
    ensures
        runtime.phase == TimerPhase::Rest ==> r.notice is None,
        runtime.state != TimerState::Running ==> r.notice is None,
        r.notice is Some ==> runtime.phase == TimerPhase::Work && runtime.state == TimerState::Running
            && runtime.remaining_seconds == config.timer.advance_notice_seconds
            && config.timer.advance_notice_seconds > 0 && effective,
{
}

} // verus!
