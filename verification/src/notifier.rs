//! Notices before the end-of-countdown action, and the user's answers to
//! them: delay the action, carry it out now, or cancel this round. Delays
//! and cancellations share a daily quota. The application shows the notices
//! and carries out the actions; this module decides what they say and what
//! the answers do to the countdown and the configuration.

use vstd::prelude::*;
use crate::activation;
use crate::config::{self, AppConfig, ConfigManager, RuntimeState};
use crate::text;
use crate::clock;
use crate::timer::{self, TimerEngine, TimerRuntime, TimerState, TimerPhase};

verus! {

broadcast use vstd::string::group_string_axioms;

/// How a notice is shown.
#[derive(Debug, Clone, Copy, PartialEq, Eq, Structural)]
pub enum NotificationType {
    /// A dialog in front of everything, waiting for an answer.
    Modal,
    /// A tray notice that does not block.
    Tray,
}

/// A notice before the end-of-countdown action.
#[derive(Debug)]
pub struct Notification {
    pub notification_type: NotificationType,
    pub title: String,
    pub message: String,
    pub countdown_seconds: u64,
    /// `"lock"` or `"shutdown"`.
    pub action_type: String,
    pub delay_count: u32,
    pub max_delay_times: u32,
    pub delay_options: Vec<u64>,
}

/// The notice manager.
pub struct Notifier;

/// Title, message and effective action of the notice for an action type, or
/// `None` for an unknown action type. `"suspend"` is disabled and locks.
pub open spec fn spec_notice_text(action_type: Seq<char>, countdown_seconds: u64) -> Option<(Seq<char>, Seq<char>, Seq<char>)> {
    let n = text::spec_decimal(countdown_seconds as nat);
    if action_type == "lock"@ {
        Some(("即将锁屏"@, "系统将在 "@ + n + " 秒后自动锁屏"@, "lock"@))
    } else if action_type == "shutdown"@ {
        Some(("即将关机"@, "系统将在 "@ + n + " 秒后自动关机"@, "shutdown"@))
    } else if action_type == "suspend"@ {
        Some(("休眠已禁用"@, "系统将在 "@ + n + " 秒后自动锁屏（原计划动作：休眠）"@, "lock"@))
    } else {
        None
    }
}

/// The message after a delay: how many chances remain, or that none do.
pub open spec fn spec_delay_message(delay_minutes: u64, delay_count: u32, max_delay_times: u32) -> Seq<char> {
    if delay_count >= max_delay_times {
        "已用完所有延后机会，下次将立即执行"@
    } else {
        "已延后 "@ + text::spec_decimal(delay_minutes as nat) + " 分钟，还剩余 "@
            + text::spec_decimal((max_delay_times - delay_count) as nat) + " 次机会"@
    }
}

/// How the notice for an action type is shown: a dialog before locking, a
/// non-blocking tray notice before hibernating or shutting down.
pub open spec fn spec_notice_kind(action_type: Seq<char>) -> NotificationType {
    if action_type == "lock"@ { NotificationType::Modal } else { NotificationType::Tray }
}

/// Whether `r` is the notice for these values: the notice of the kind of
/// `spec_notice_kind` with the text of `spec_notice_text`, or nothing for an
/// unknown action type.
pub open spec fn spec_notice(
    r: Option<Notification>,
    action_type: Seq<char>,
    countdown_seconds: u64,
    delay_count: u32,
    max_delay_times: u32,
    delay_options: Seq<u64>,
) -> bool {
    match spec_notice_text(action_type, countdown_seconds) {
        None => r is None,
        Some((title, message, action)) => r matches Some(n) && {
            &&& n.notification_type == spec_notice_kind(action_type)
            &&& n.title@ == title
            &&& n.message@ == message
            &&& n.countdown_seconds == countdown_seconds
            &&& n.action_type@ == action
            &&& n.delay_count == delay_count
            &&& n.max_delay_times == max_delay_times
            &&& n.delay_options@ == delay_options
        },
    }
}

impl Notifier {
    /// The notice shown `countdown_seconds` before the action (a dialog
    /// before locking, a tray notice before hibernating or shutting down),
    /// or `None` for an unknown action type (nothing is shown).
    pub fn notify_before_execution(
        action_type: &str,
        countdown_seconds: u64,
        delay_count: u32,
        max_delay_times: u32,
        delay_options: Vec<u64>,
    ) -> (r: Option<Notification>)
        ensures
            spec_notice(r, action_type@, countdown_seconds, delay_count, max_delay_times, delay_options@),
    {
        let n = text::decimal_string(countdown_seconds);
        let (kind, title, message, action) = if text::str_eq(action_type, "lock") {
            (NotificationType::Modal, "即将锁屏".to_string(), text::concat3("系统将在 ", n.as_str(), " 秒后自动锁屏"), "lock".to_string())
        } else if text::str_eq(action_type, "shutdown") {
            (NotificationType::Tray, "即将关机".to_string(), text::concat3("系统将在 ", n.as_str(), " 秒后自动关机"), "shutdown".to_string())
        } else if text::str_eq(action_type, "suspend") {
            (
                NotificationType::Tray,
                "休眠已禁用".to_string(),
                text::concat3("系统将在 ", n.as_str(), " 秒后自动锁屏（原计划动作：休眠）"),
                "lock".to_string(),
            )
        } else {
            return None;
        };
        Some(Notification {
            notification_type: kind,
            title,
            message,
            countdown_seconds,
            action_type: action,
            delay_count,
            max_delay_times,
            delay_options,
        })
    }

    /// The message shown after a delay.
    pub fn notify_delayed(delay_minutes: u64, delay_count: u32, max_delay_times: u32) -> (r: String)
        ensures
            r@ == spec_delay_message(delay_minutes, delay_count, max_delay_times),
    {
        if delay_count >= max_delay_times {
            "已用完所有延后机会，下次将立即执行".to_string()
        } else {
            let m = text::decimal_string(delay_minutes);
            let left = text::decimal_string((max_delay_times - delay_count) as u64);
            let mut s = text::concat3("已延后 ", m.as_str(), " 分钟，还剩余 ");
            s.append(left.as_str());
            s.append(" 次机会");
            s
        }
    }
}

/// The persisted form of a countdown snapshot with the given quota.
pub open spec fn spec_snapshot_state(rt: TimerRuntime, rs: RuntimeState, delay_count: u32, delay_quota_date: String) -> bool {
    &&& rs.timer_status@ == timer::spec_status_name(rt.state)
    &&& rs.remaining_seconds == rt.remaining_seconds
    &&& rs.total_seconds == rt.total_seconds
    &&& (rt.last_update matches Some(s) ==> rs.last_update == s)
    &&& rs.delay_count == delay_count
    &&& rs.delay_quota_date == delay_quota_date
    &&& rs.cycle_phase@ == timer::spec_phase_name(rt.phase)
}

fn snapshot_state(rt: &TimerRuntime, delay_count: u32, delay_quota_date: String) -> (r: RuntimeState)
    ensures
        spec_snapshot_state(*rt, r, delay_count, delay_quota_date),
{
    RuntimeState {
        timer_status: match rt.state {
            TimerState::Idle => "Idle".to_string(),
            TimerState::Running => "Running".to_string(),
            TimerState::Paused => "Paused".to_string(),
        },
        remaining_seconds: rt.remaining_seconds,
        total_seconds: rt.total_seconds,
        last_update: match &rt.last_update {
            Some(s) => s.clone(),
            None => clock::now_rfc3339(),
        },
        delay_count,
        delay_quota_date,
        cycle_phase: match rt.phase {
            TimerPhase::Work => "Work".to_string(),
            TimerPhase::Rest => "Rest".to_string(),
        },
    }
}

/// The persisted form of an idle work countdown of `total` seconds.
pub open spec fn spec_idle_state(rs: RuntimeState, total: u64, delay_count: u32, delay_quota_date: String) -> bool {
    &&& rs.timer_status@ == "Idle"@
    &&& rs.remaining_seconds == total
    &&& rs.total_seconds == total
    &&& rs.delay_count == delay_count
    &&& rs.delay_quota_date == delay_quota_date
    &&& rs.cycle_phase@ == "Work"@
}

fn idle_state(total: u64, delay_count: u32, delay_quota_date: String) -> (r: RuntimeState)
    ensures
        spec_idle_state(r, total, delay_count, delay_quota_date),
{
    RuntimeState {
        timer_status: "Idle".to_string(),
        remaining_seconds: total,
        total_seconds: total,
        last_update: clock::now_rfc3339(),
        delay_count,
        delay_quota_date,
        cycle_phase: "Work".to_string(),
    }
}

/// The user asks to delay the action by `minutes`. Refused (`false`) when
/// the day's quota is used up; a delay of 0 is accepted without effect;
/// otherwise the countdown is extended, the quota count goes up by one and
/// the new state is stored. The snapshot returned is for the listeners.
pub fn delay_execution(timer: &mut TimerEngine, config_manager: &mut ConfigManager, minutes: u64) -> (r: Result<(bool, TimerRuntime), String>)
    requires
        old(config_manager).config().activation.activated && old(config_manager).config().timer.max_delay_times > 0
            && minutes > 0 && old(timer).runtime().state != TimerState::Idle ==> minutes * 60 <= u64::MAX,
    ensures
        final(config_manager).config_path() == old(config_manager).config_path(),
        !old(config_manager).config().activation.activated ==> (r matches Err(e) && e@ == activation::spec_not_activated_message())
            && *final(config_manager) == *old(config_manager) && *final(timer) == *old(timer),
        old(config_manager).config().activation.activated ==> exists|today: String| clock::spec_ymd_shape(today@) && #[trigger] spec_delay_outcome(
            *old(timer), *final(timer), old(config_manager).config(), final(config_manager).config(),
            config::spec_quota_checked(old(config_manager).config().runtime_state, today), minutes, r),
{
    activation::ensure_activated(config_manager)?;
    let ghost before = config_manager.config();
    config::reset_daily_delay_quota_if_needed(config_manager)?;
    let ghost today = choose|today: String| clock::spec_ymd_shape(today@) && config_manager.config() == (AppConfig {
        runtime_state: #[trigger] config::spec_quota_checked(before.runtime_state, today),
        ..before
    });
    let config = config_manager.get()?;
    let current_delay_count = config.runtime_state.delay_count;
    let max_allowed = config.timer.max_delay_times;
    if current_delay_count >= max_allowed {
        let r = Ok((false, timer.get_runtime()));
        assert(spec_delay_outcome(*old(timer), *timer, before, config_manager.config(),
            config::spec_quota_checked(before.runtime_state, today), minutes, r));
        return r;
    }
    if minutes == 0 {
        let r = Ok((true, timer.get_runtime()));
        assert(spec_delay_outcome(*old(timer), *timer, before, config_manager.config(),
            config::spec_quota_checked(before.runtime_state, today), minutes, r));
        return r;
    }
    match timer.add_delay(minutes) {
        Ok(()) => {},
        Err(e) => {
            let r = Err(e);
            assert(spec_delay_outcome(*old(timer), *timer, before, config_manager.config(),
                config::spec_quota_checked(before.runtime_state, today), minutes, r));
            return r;
        },
    }
    let runtime = timer.get_runtime();
    let state = snapshot_state(&runtime, current_delay_count + 1, config.runtime_state.delay_quota_date);
    let _ = config::update_runtime_state(config_manager, state);
    let r = Ok((true, runtime));
    assert(spec_delay_outcome(*old(timer), *timer, before, config_manager.config(),
        config::spec_quota_checked(before.runtime_state, today), minutes, r));
    r
}

/// A delay request of `minutes` from the countdown `t0` and configuration
/// `c0` (with the quota checked: `quota`) ending in `t1`, `c1`, answered `r`.
pub open spec fn spec_delay_outcome(
    t0: TimerEngine,
    t1: TimerEngine,
    c0: AppConfig,
    c1: AppConfig,
    quota: RuntimeState,
    minutes: u64,
    r: Result<(bool, TimerRuntime), String>,
) -> bool {
    let mid = AppConfig { runtime_state: quota, ..c0 };
    if quota.delay_count >= c0.timer.max_delay_times {
        (r matches Ok((accepted, _)) && !accepted) && c1 == mid && t1 == t0
    } else if minutes == 0 {
        (r matches Ok((accepted, _)) && accepted) && c1 == mid && t1 == t0
    } else if t0.runtime().state == TimerState::Idle {
        (r matches Err(e) && e@ == "计时器未在运行"@) && c1 == mid && t1 == t0
    } else {
        &&& r matches Ok((accepted, rt)) && accepted && rt == t1.runtime()
        &&& t1.runtime().last_update is Some
        &&& t1.runtime()@ == timer::spec_add_delay(t0.runtime()@, (minutes * 60) as u64)
        &&& t1.config() == t0.config()
        &&& c1 == (AppConfig { runtime_state: c1.runtime_state, ..mid })
        &&& spec_snapshot_state(t1.runtime(), RuntimeState { delay_quota_date: quota.delay_quota_date, ..c1.runtime_state },
                (quota.delay_count + 1) as u32, quota.delay_quota_date)
        &&& text::spec_trim(quota.delay_quota_date@).len() != 0 ==> c1.runtime_state.delay_quota_date == quota.delay_quota_date
    }
}

/// The user asks to carry out the action now: the countdown stops and the
/// idle state is stored with the day's quota unchanged. The action type to
/// carry out and the snapshot for the listeners are returned.
pub fn confirm_execution(timer: &mut TimerEngine, config_manager: &mut ConfigManager) -> (r: Result<(String, TimerRuntime), String>)
    ensures
        final(config_manager).config_path() == old(config_manager).config_path(),
        !old(config_manager).config().activation.activated ==> (r matches Err(e) && e@ == activation::spec_not_activated_message())
            && *final(config_manager) == *old(config_manager) && *final(timer) == *old(timer),
        old(config_manager).config().activation.activated ==> exists|today: String| {
            let quota = #[trigger] config::spec_quota_checked(old(config_manager).config().runtime_state, today);
            let c1 = final(config_manager).config();
            &&& clock::spec_ymd_shape(today@)
            &&& r matches Ok((action, rt)) && action == old(config_manager).config().action.action_type && rt == final(timer).runtime()
            &&& final(timer).runtime().last_update is Some
            &&& final(timer).runtime()@ == timer::spec_stop(old(timer).runtime()@)
            &&& c1 == (AppConfig { runtime_state: c1.runtime_state, ..old(config_manager).config() })
            &&& spec_idle_state(RuntimeState { delay_quota_date: quota.delay_quota_date, ..c1.runtime_state },
                    old(timer).runtime().total_seconds, quota.delay_count, quota.delay_quota_date)
            &&& text::spec_trim(quota.delay_quota_date@).len() != 0 ==> c1.runtime_state.delay_quota_date == quota.delay_quota_date
        },
{
    activation::ensure_activated(config_manager)?;
    let ghost before = config_manager.config();
    config::reset_daily_delay_quota_if_needed(config_manager)?;
    let ghost today = choose|today: String| clock::spec_ymd_shape(today@) && config_manager.config() == (AppConfig {
        runtime_state: #[trigger] config::spec_quota_checked(before.runtime_state, today),
        ..before
    });
    let config = config_manager.get()?;
    let action = config.action.action_type;
    timer.stop();
    let runtime = timer.get_runtime();
    let state = idle_state(runtime.total_seconds, config.runtime_state.delay_count, config.runtime_state.delay_quota_date);
    let _ = config::update_runtime_state(config_manager, state);
    assert(config::spec_quota_checked(before.runtime_state, today) == config::spec_quota_checked(before.runtime_state, today));
    Ok((action, runtime))
}

/// The refusal of a cancellation once the day's quota is used up.
pub open spec fn spec_cancel_refusal() -> Seq<char> {
    "已达到当日取消上限（次日自动重置），请立即执行或等待自动执行"@
}

/// The user cancels this round: refused once the day's quota is used up;
/// otherwise the countdown stops, the quota count goes up by one and the idle
/// state is stored. The snapshot for the listeners is returned.
pub fn cancel_execution(timer: &mut TimerEngine, config_manager: &mut ConfigManager) -> (r: Result<TimerRuntime, String>)
    ensures
        final(config_manager).config_path() == old(config_manager).config_path(),
        !old(config_manager).config().activation.activated ==> (r matches Err(e) && e@ == activation::spec_not_activated_message())
            && *final(config_manager) == *old(config_manager) && *final(timer) == *old(timer),
        old(config_manager).config().activation.activated ==> exists|today: String| {
            let quota = #[trigger] config::spec_quota_checked(old(config_manager).config().runtime_state, today);
            let c1 = final(config_manager).config();
            &&& clock::spec_ymd_shape(today@)
            &&& if quota.delay_count >= old(config_manager).config().timer.max_delay_times {
                &&& r matches Err(e) && e@ == spec_cancel_refusal()
                &&& c1 == (AppConfig { runtime_state: quota, ..old(config_manager).config() })
                &&& *final(timer) == *old(timer)
            } else {
                &&& r matches Ok(rt) && rt == final(timer).runtime()
                &&& final(timer).runtime().last_update is Some
                &&& final(timer).runtime()@ == timer::spec_stop(old(timer).runtime()@)
                &&& c1 == (AppConfig { runtime_state: c1.runtime_state, ..old(config_manager).config() })
                &&& spec_idle_state(RuntimeState { delay_quota_date: quota.delay_quota_date, ..c1.runtime_state },
                        old(timer).runtime().total_seconds, (quota.delay_count + 1) as u32, quota.delay_quota_date)
                &&& text::spec_trim(quota.delay_quota_date@).len() != 0 ==> c1.runtime_state.delay_quota_date == quota.delay_quota_date
            }
        },
{
    activation::ensure_activated(config_manager)?;
    let ghost before = config_manager.config();
    config::reset_daily_delay_quota_if_needed(config_manager)?;
    let ghost today = choose|today: String| clock::spec_ymd_shape(today@) && config_manager.config() == (AppConfig {
        runtime_state: #[trigger] config::spec_quota_checked(before.runtime_state, today),
        ..before
    });
    let config = config_manager.get()?;
    let current_delay_count = config.runtime_state.delay_count;
    let max_allowed = config.timer.max_delay_times;
    if current_delay_count >= max_allowed {
        assert(config::spec_quota_checked(before.runtime_state, today) == config::spec_quota_checked(before.runtime_state, today));
        return Err("已达到当日取消上限（次日自动重置），请立即执行或等待自动执行".to_string());
    }
    timer.stop();
    let runtime = timer.get_runtime();
    let state = idle_state(runtime.total_seconds, current_delay_count + 1, config.runtime_state.delay_quota_date);
    let _ = config::update_runtime_state(config_manager, state);
    assert(config::spec_quota_checked(before.runtime_state, today) == config::spec_quota_checked(before.runtime_state, today));
    Ok(runtime)
}

/// An accepted delay uses one unit of the day's quota, and the quota is
/// never exceeded.
pub proof fn law_delay_uses_quota(
    t0: TimerEngine,
    t1: TimerEngine,
    c0: AppConfig,
    c1: AppConfig,
    quota: RuntimeState,
    minutes: u64,
    r: Result<(bool, TimerRuntime), String>,
)
    requires
        spec_delay_outcome(t0, t1, c0, c1, quota, minutes, r),
        minutes > 0,
        r matches Ok((accepted, _)) && accepted,
    ensures
        c1.runtime_state.delay_count == quota.delay_count + 1,
        c1.runtime_state.delay_count <= c0.timer.max_delay_times,
        t1.runtime().remaining_seconds >= t0.runtime().remaining_seconds,
{
}

/// Once the day's quota is used up a delay is refused and the countdown is
/// left as it was.
pub proof fn law_delay_refused_when_used_up(
    t0: TimerEngine,
    t1: TimerEngine,
    c0: AppConfig,
    c1: AppConfig,
    quota: RuntimeState,
    minutes: u64,
    r: Result<(bool, TimerRuntime), String>,
)
    requires
        spec_delay_outcome(t0, t1, c0, c1, quota, minutes, r),
        quota.delay_count >= c0.timer.max_delay_times,
    ensures
        r matches Ok((accepted, _)) && !accepted,
        t1 == t0,
        c1.runtime_state == quota,
{
}

} // verus!
