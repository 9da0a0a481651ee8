//! The countdown engine: a work/rest countdown that can be started, paused,
//! resumed, stopped, extended and restored from a persisted state. The
//! once-a-second step is `TimerEngine::tick`; the application runs the clock
//! that calls it and hands the reported snapshots to its listeners.

use vstd::prelude::*;
use crate::clock;
use crate::config::{self, RuntimeState};
use crate::text;

verus! {

broadcast use vstd::string::group_string_axioms;

/// Whether the countdown is stopped, counting, or held.
#[derive(Debug, Clone, Copy, PartialEq, Eq, Structural)]
pub enum TimerState {
    Idle,
    Running,
    Paused,
}

/// Which part of the work/rest cycle the countdown measures.
#[derive(Debug, Clone, Copy, PartialEq, Eq, Structural)]
pub enum TimerPhase {
    Work,
    Rest,
}

/// The label shown for each state.
pub open spec fn spec_state_label(s: TimerState) -> Seq<char> {
    match s {
        TimerState::Idle => "停止"@,
        TimerState::Running => "运行中"@,
        TimerState::Paused => "已暂停"@,
    }
}

impl TimerState {
    /// The display label of the state.
    pub fn to_string(&self) -> (r: String)
        ensures
            r@ == spec_state_label(*self),
    {
        match self {
            TimerState::Idle => "停止".to_string(),
            TimerState::Running => "运行中".to_string(),
            TimerState::Paused => "已暂停".to_string(),
        }
    }
}

/// The engine's interval settings.
#[derive(Debug)]
pub struct TimerConfig {
    pub interval_minutes: u64,
    pub custom_interval: bool,
    pub min_interval: u64,
    pub max_interval: u64,
}

impl Default for TimerConfig {
    fn default() -> (r: Self)
        ensures
            r.interval_minutes == 30,
            !r.custom_interval,
            r.min_interval == 1,
            r.max_interval == 1440,
    {
        TimerConfig { interval_minutes: 30, custom_interval: false, min_interval: 1, max_interval: 1440 }
    }
}

/// A snapshot of the countdown.
#[derive(Debug)]
pub struct TimerRuntime {
    pub state: TimerState,
    pub phase: TimerPhase,
    pub remaining_seconds: u64,
    pub total_seconds: u64,
    /// RFC 3339 time of the last change.
    pub last_update: Option<String>,
}

/// The countdown without its time stamp: what the transitions act on.
pub struct Countdown {
    pub state: TimerState,
    pub phase: TimerPhase,
    pub remaining_seconds: u64,
    pub total_seconds: u64,
}

impl View for TimerRuntime {
    type V = Countdown;

    open spec fn view(&self) -> Countdown {
        Countdown {
            state: self.state,
            phase: self.phase,
            remaining_seconds: self.remaining_seconds,
            total_seconds: self.total_seconds,
        }
    }
}

impl Default for TimerRuntime {
    fn default() -> (r: Self)
        ensures
            r.state == TimerState::Idle,
            r.phase == TimerPhase::Work,
            r.remaining_seconds == 1800,
            r.total_seconds == 1800,
            r.last_update is None,
    {
        let total: u64 = 30 * 60;
        TimerRuntime {
            state: TimerState::Idle,
            phase: TimerPhase::Work,
            remaining_seconds: total,
            total_seconds: total,
            last_update: None,
        }
    }
}

/// A fresh countdown of `total` seconds in `phase`, not yet started.
pub open spec fn spec_reset_to(phase: TimerPhase, total: u64) -> Countdown {
    Countdown { state: TimerState::Idle, phase, remaining_seconds: total, total_seconds: total }
}

/// Starting: from idle the full interval begins again, from a pause it goes on.
pub open spec fn spec_start(c: Countdown) -> Countdown {
    Countdown {
        state: TimerState::Running,
        remaining_seconds: if c.state == TimerState::Idle { c.total_seconds } else { c.remaining_seconds },
        ..c
    }
}

/// Pausing holds the countdown.
pub open spec fn spec_pause(c: Countdown) -> Countdown {
    Countdown { state: TimerState::Paused, ..c }
}

/// Resuming lets a held countdown run on.
pub open spec fn spec_resume(c: Countdown) -> Countdown {
    Countdown { state: TimerState::Running, ..c }
}

/// Stopping returns to an idle work countdown of the current total.
pub open spec fn spec_stop(c: Countdown) -> Countdown {
    spec_reset_to(TimerPhase::Work, c.total_seconds)
}

/// `a + b`, or `u64::MAX` when that does not fit.
pub open spec fn spec_sat_add(a: u64, b: u64) -> u64 {
    if a + b > u64::MAX { u64::MAX } else { (a + b) as u64 }
}

/// Delaying adds the same number of seconds to what remains and to the total.
pub open spec fn spec_add_delay(c: Countdown, add_seconds: u64) -> Countdown {
    Countdown {
        remaining_seconds: spec_sat_add(c.remaining_seconds, add_seconds),
        total_seconds: spec_sat_add(c.total_seconds, add_seconds),
        ..c
    }
}

/// One second of a running countdown with time left: one second less, and
/// idle once nothing remains.
pub open spec fn spec_tick(c: Countdown) -> Countdown {
    Countdown {
        state: if c.remaining_seconds == 1 { TimerState::Idle } else { TimerState::Running },
        remaining_seconds: (c.remaining_seconds - 1) as u64,
        ..c
    }
}

/// What one second of the clock did to the countdown.
#[derive(Debug)]
pub enum TickOutcome {
    /// The countdown is not running: the clock stops.
    Stopped,
    /// Running with nothing left to count: nothing changed.
    Waiting,
    /// One second was counted; the snapshot is for listeners.
    Updated(TimerRuntime),
    /// The last second was counted and the countdown went idle; the clock stops.
    Finished(TimerRuntime),
}

/// The persisted name of a state.
pub open spec fn spec_status_name(s: TimerState) -> Seq<char> {
    match s {
        TimerState::Idle => "Idle"@,
        TimerState::Running => "Running"@,
        TimerState::Paused => "Paused"@,
    }
}

/// The persisted name of a phase.
pub open spec fn spec_phase_name(p: TimerPhase) -> Seq<char> {
    match p {
        TimerPhase::Work => "Work"@,
        TimerPhase::Rest => "Rest"@,
    }
}

/// The phase a persisted name stands for (anything but `"Rest"` is work).
pub open spec fn spec_phase_of(name: Seq<char>) -> TimerPhase {
    if name == "Rest"@ { TimerPhase::Rest } else { TimerPhase::Work }
}

/// The countdown restored from a saved state, given what remains of a
/// running countdown after the time away (`running_remaining`).
pub open spec fn spec_restored(saved: RuntimeState, running_remaining: u64) -> Countdown {
    let phase = spec_phase_of(saved.cycle_phase@);
    if saved.timer_status@ == "Running"@ {
        if running_remaining == 0 {
            spec_reset_to(phase, saved.total_seconds)
        } else {
            Countdown {
                state: TimerState::Running,
                phase,
                remaining_seconds: running_remaining,
                total_seconds: saved.total_seconds,
            }
        }
    } else if saved.timer_status@ == "Paused"@ {
        Countdown {
            state: TimerState::Paused,
            phase,
            remaining_seconds: saved.remaining_seconds,
            total_seconds: saved.total_seconds,
        }
    } else {
        spec_reset_to(phase, saved.total_seconds)
    }
}

/// The countdown engine.
pub struct TimerEngine {
    runtime: TimerRuntime,
    config: TimerConfig,
}

fn phase_name(phase: TimerPhase) -> (r: String)
    ensures
        r@ == spec_phase_name(phase),
{
    match phase {
        TimerPhase::Work => "Work".to_string(),
        TimerPhase::Rest => "Rest".to_string(),
    }
}

fn status_name(state: TimerState) -> (r: String)
    ensures
        r@ == spec_status_name(state),
{
    match state {
        TimerState::Idle => "Idle".to_string(),
        TimerState::Running => "Running".to_string(),
        TimerState::Paused => "Paused".to_string(),
    }
}

fn copy_runtime(rt: &TimerRuntime) -> (r: TimerRuntime)
    ensures
        r == *rt,
{
    TimerRuntime {
        state: rt.state,
        phase: rt.phase,
        remaining_seconds: rt.remaining_seconds,
        total_seconds: rt.total_seconds,
        last_update: match &rt.last_update {
            Some(s) => Some(s.clone()),
            None => None,
        },
    }
}

impl TimerEngine {
    /// The interval bounds never change: 1 to 1440 minutes.
    #[verifier::type_invariant]
    spec fn bounds_fixed(self) -> bool {
        self.config.min_interval == 1 && self.config.max_interval == 1440
    }

    /// The current countdown.
    pub closed spec fn runtime(&self) -> TimerRuntime {
        self.runtime
    }

    /// The current interval settings.
    pub closed spec fn config(&self) -> TimerConfig {
        self.config
    }

    /// An idle 30-minute work countdown with default settings.
    pub fn new() -> (r: Self)
        ensures
            r.runtime()@ == spec_reset_to(TimerPhase::Work, 1800),
            r.runtime().last_update is None,
            r.config().interval_minutes == 30,
            !r.config().custom_interval,
            r.config().min_interval == 1,
            r.config().max_interval == 1440,
    {
        let config = TimerConfig::default();
        let total_seconds = config.interval_minutes * 60;
        let d = TimerRuntime::default();
        TimerEngine {
            runtime: TimerRuntime {
                total_seconds,
                remaining_seconds: total_seconds,
                state: d.state,
                phase: d.phase,
                last_update: d.last_update,
            },
            config,
        }
    }

    /// Restores a persisted countdown, taking the interval from its total.
    pub fn from_runtime_state(saved_state: &RuntimeState) -> (r: Self)
        ensures
            spec_restored_engine(*saved_state, saved_state.total_seconds / 60, r),
    {
        Self::from_runtime_state_with_interval(saved_state, saved_state.total_seconds / 60)
    }

    /// Restores a persisted countdown with the given main interval (minutes).
    /// A running countdown loses the time the machine was off; one that ran
    /// out meanwhile comes back idle with its full total.
    pub fn from_runtime_state_with_interval(saved_state: &RuntimeState, interval_minutes: u64) -> (r: Self)
        ensures
            spec_restored_engine(*saved_state, interval_minutes, r),
            saved_state.timer_status@ == "Running"@ ==> exists|offline_reading: Option<i64>|
                (offline_reading is Some <==> clock::spec_rfc3339_valid(saved_state.last_update@))
                && #[trigger] spec_restored_engine_reading(*saved_state, interval_minutes, offline_reading, r),
    {
        let reading = if text::str_eq(saved_state.timer_status.as_str(), "Running") {
            clock::seconds_since_rfc3339(saved_state.last_update.as_str())
        } else {
            None
        };
        let r = Self::from_runtime_state_with_reading(saved_state, interval_minutes, reading);
        proof {
            let offline: i64 = match reading { Some(d) => d, None => 0 };
            if saved_state.timer_status@ == "Running"@ {
                assert(r.runtime()@ == spec_restored(*saved_state,
                    config::spec_remaining_after_offline(saved_state.remaining_seconds, offline)));
            }
        }
        r
    }

    /// Restores a persisted countdown with the given main interval (minutes)
    /// when the clock puts its `last_update` `offline_reading` seconds in the
    /// past (`None`: it does not parse). A running countdown loses that time;
    /// one that ran out meanwhile comes back idle with its full total.
    pub fn from_runtime_state_with_reading(
        saved_state: &RuntimeState,
        interval_minutes: u64,
        offline_reading: Option<i64>,
    ) -> (r: Self)
        ensures
            spec_restored_engine_reading(*saved_state, interval_minutes, offline_reading, r),
    {
        let config = TimerConfig {
            interval_minutes: if interval_minutes == 0 { 1 } else { interval_minutes },
            custom_interval: true,
            min_interval: 1,
            max_interval: 1440,
        };
        let phase = if text::str_eq(saved_state.cycle_phase.as_str(), "Rest") {
            TimerPhase::Rest
        } else {
            TimerPhase::Work
        };
        let (state, remaining_seconds) = if text::str_eq(saved_state.timer_status.as_str(), "Running") {
            let remaining = config::remaining_after_reading(saved_state, offline_reading);
            if remaining == 0 {
                (TimerState::Idle, saved_state.total_seconds)
            } else {
                (TimerState::Running, remaining)
            }
        } else if text::str_eq(saved_state.timer_status.as_str(), "Paused") {
            (TimerState::Paused, saved_state.remaining_seconds)
        } else {
            (TimerState::Idle, saved_state.total_seconds)
        };
        TimerEngine {
            runtime: TimerRuntime {
                state,
                phase,
                remaining_seconds,
                total_seconds: saved_state.total_seconds,
                last_update: Some(saved_state.last_update.clone()),
            },
            config,
        }
    }

    /// An idle work countdown of the given interval (minutes); an interval
    /// out of 1..=1440 leaves the default 30 minutes (0 counts as 1).
    pub fn from_interval_minutes(interval_minutes: u64) -> (r: Self)
        ensures
            spec_interval_engine(interval_minutes, r),
    {
        let mut engine = Self::new();
        let _ = engine.set_interval(if interval_minutes == 0 { 1 } else { interval_minutes });
        engine
    }

    /// Brings back a restored running or paused countdown as running (the
    /// application then starts the clock); an idle one is refused.
    pub fn resume_persisted_countdown(&mut self) -> (r: Result<(), String>)
        ensures
            r is Err <==> old(self).runtime().state == TimerState::Idle,
            r matches Err(e) ==> e@ == "计时器未处于可恢复状态"@ && *final(self) == *old(self),
            r is Ok ==> final(self).runtime()@ == spec_resume(old(self).runtime()@)
                && final(self).runtime().last_update is Some,
            final(self).config() == old(self).config(),
    {
        proof { use_type_invariant(&*self); }
        match self.runtime.state {
            TimerState::Running | TimerState::Paused => {
                self.runtime.state = TimerState::Running;
                self.runtime.last_update = Some(clock::now_rfc3339());
                Ok(())
            },
            TimerState::Idle => Err("计时器未处于可恢复状态".to_string()),
        }
    }

    /// The countdown as it is persisted. The delay quota is not the engine's:
    /// the count is 0 and the date today's, for the caller to replace.
    pub fn to_runtime_state(&self) -> (r: RuntimeState)
        ensures
            r.timer_status@ == spec_status_name(self.runtime().state),
            r.remaining_seconds == self.runtime().remaining_seconds,
            r.total_seconds == self.runtime().total_seconds,
            self.runtime().last_update matches Some(s) ==> r.last_update == s,
            r.delay_count == 0,
            r.cycle_phase@ == spec_phase_name(self.runtime().phase),
    {
        RuntimeState {
            timer_status: status_name(self.runtime.state),
            remaining_seconds: self.runtime.remaining_seconds,
            total_seconds: self.runtime.total_seconds,
            last_update: match &self.runtime.last_update {
                Some(s) => s.clone(),
                None => clock::now_rfc3339(),
            },
            delay_count: 0,
            delay_quota_date: config::default_delay_quota_date(),
            cycle_phase: phase_name(self.runtime.phase),
        }
    }

    /// A snapshot of the countdown.
    pub fn get_runtime(&self) -> (r: TimerRuntime)
        ensures
            r == self.runtime(),
    {
        copy_runtime(&self.runtime)
    }

    /// The interval settings.
    pub fn get_config(&self) -> (r: TimerConfig)
        ensures
            r == self.config(),
    {
        TimerConfig {
            interval_minutes: self.config.interval_minutes,
            custom_interval: self.config.custom_interval,
            min_interval: self.config.min_interval,
            max_interval: self.config.max_interval,
        }
    }

    /// Whether the countdown is running.
    pub fn is_running(&self) -> (r: bool)
        ensures
            r == (self.runtime().state == TimerState::Running),
    {
        self.runtime.state == TimerState::Running
    }

    /// Sets the main interval (minutes, 1..=1440) and resets to an idle work
    /// countdown of that length.
    pub fn set_interval(&mut self, minutes: u64) -> (r: Result<(), String>)
        ensures
            r is Err <==> (minutes < 1 || minutes > 1440),
            r matches Err(e) ==> e@ == "时间间隔必须在 "@ + text::spec_decimal(1) + "-"@ + text::spec_decimal(1440) + " 分钟之间"@
                && *final(self) == *old(self),
            r is Ok ==> final(self).config().interval_minutes == minutes
                && final(self).config().custom_interval
                && final(self).runtime()@ == spec_reset_to(TimerPhase::Work, (minutes * 60) as u64)
                && final(self).runtime().last_update == old(self).runtime().last_update,
            final(self).config().min_interval == 1,
            final(self).config().max_interval == 1440,
    {
        proof { use_type_invariant(&*self); }
        if minutes < self.config.min_interval || minutes > self.config.max_interval {
            let lo = text::decimal_string(self.config.min_interval);
            let hi = text::decimal_string(self.config.max_interval);
            let mut msg = text::concat3("时间间隔必须在 ", lo.as_str(), "-");
            msg.append(hi.as_str());
            msg.append(" 分钟之间");
            return Err(msg);
        }
        self.config.interval_minutes = minutes;
        self.config.custom_interval = true;
        self.runtime.total_seconds = minutes * 60;
        self.runtime.remaining_seconds = self.runtime.total_seconds;
        self.runtime.state = TimerState::Idle;
        self.runtime.phase = TimerPhase::Work;
        Ok(())
    }

    /// Sets the phase and its length (minutes) and resets to an idle
    /// countdown of that length; zero minutes is refused.
    pub fn set_phase_interval(&mut self, phase: TimerPhase, minutes: u64) -> (r: Result<(), String>)
        requires
            minutes * 60 <= u64::MAX,
        ensures
            r is Err <==> minutes == 0,
            r matches Err(e) ==> e@ == "时间间隔必须大于0分钟"@ && *final(self) == *old(self),
            r is Ok ==> final(self).runtime()@ == spec_reset_to(phase, (minutes * 60) as u64)
                && final(self).runtime().last_update is Some,
            final(self).config() == old(self).config(),
    {
        proof { use_type_invariant(&*self); }
        if minutes == 0 {
            return Err("时间间隔必须大于0分钟".to_string());
        }
        self.runtime.phase = phase;
        self.runtime.total_seconds = minutes * 60;
        self.runtime.remaining_seconds = self.runtime.total_seconds;
        self.runtime.state = TimerState::Idle;
        self.runtime.last_update = Some(clock::now_rfc3339());
        Ok(())
    }

    /// Starts the countdown (the application then starts the clock): from
    /// idle the full interval, from a pause where it stopped. Refused while
    /// running.
    pub fn start(&mut self) -> (r: Result<(), String>)
        ensures
            r is Err <==> old(self).runtime().state == TimerState::Running,
            r matches Err(e) ==> e@ == "计时器已在运行"@ && *final(self) == *old(self),
            r is Ok ==> final(self).runtime()@ == spec_start(old(self).runtime()@)
                && final(self).runtime().last_update is Some,
            final(self).config() == old(self).config(),
    {
        proof { use_type_invariant(&*self); }
        match self.runtime.state {
            TimerState::Running => return Err("计时器已在运行".to_string()),
            TimerState::Idle => {
                self.runtime.remaining_seconds = self.runtime.total_seconds;
            },
            TimerState::Paused => {},
        }
        self.runtime.state = TimerState::Running;
        self.runtime.last_update = Some(clock::now_rfc3339());
        Ok(())
    }

    /// Holds a running countdown.
    pub fn pause(&mut self) -> (r: Result<(), String>)
        ensures
            r is Err <==> old(self).runtime().state != TimerState::Running,
            r matches Err(e) ==> e@ == "计时器未在运行"@ && *final(self) == *old(self),
            r is Ok ==> final(self).runtime()@ == spec_pause(old(self).runtime()@)
                && final(self).runtime().last_update is Some,
            final(self).config() == old(self).config(),
    {
        proof { use_type_invariant(&*self); }
        if self.runtime.state != TimerState::Running {
            return Err("计时器未在运行".to_string());
        }
        self.runtime.state = TimerState::Paused;
        self.runtime.last_update = Some(clock::now_rfc3339());
        Ok(())
    }

    /// Lets a held countdown run on (the application then starts the clock).
    pub fn resume(&mut self) -> (r: Result<(), String>)
        ensures
            r is Err <==> old(self).runtime().state != TimerState::Paused,
            r matches Err(e) ==> e@ == "计时器未暂停"@ && *final(self) == *old(self),
            r is Ok ==> final(self).runtime()@ == spec_resume(old(self).runtime()@)
                && final(self).runtime().last_update is Some,
            final(self).config() == old(self).config(),
    {
        proof { use_type_invariant(&*self); }
        if self.runtime.state != TimerState::Paused {
            return Err("计时器未暂停".to_string());
        }
        self.runtime.state = TimerState::Running;
        self.runtime.last_update = Some(clock::now_rfc3339());
        Ok(())
    }

    /// Stops and resets to an idle work countdown of the current total.
    pub fn stop(&mut self)
        ensures
            final(self).runtime()@ == spec_stop(old(self).runtime()@),
            final(self).runtime().last_update is Some,
            final(self).config() == old(self).config(),
    {
        proof { use_type_invariant(&*self); }
        self.runtime.state = TimerState::Idle;
        self.runtime.remaining_seconds = self.runtime.total_seconds;
        self.runtime.phase = TimerPhase::Work;
        self.runtime.last_update = Some(clock::now_rfc3339());
    }

    /// Postpones the end of a running or held countdown by `minutes`.
    pub fn add_delay(&mut self, minutes: u64) -> (r: Result<(), String>)
        requires
            old(self).runtime().state != TimerState::Idle ==> minutes * 60 <= u64::MAX,
        ensures
            r is Err <==> old(self).runtime().state == TimerState::Idle,
            r matches Err(e) ==> e@ == "计时器未在运行"@ && *final(self) == *old(self),
            r is Ok ==> final(self).runtime()@ == spec_add_delay(old(self).runtime()@, (minutes * 60) as u64)
                && final(self).runtime().last_update is Some,
            final(self).config() == old(self).config(),
    {
        proof { use_type_invariant(&*self); }
        if self.runtime.state != TimerState::Running && self.runtime.state != TimerState::Paused {
            return Err("计时器未在运行".to_string());
        }
        let add_seconds = minutes * 60;
        self.runtime.remaining_seconds = self.runtime.remaining_seconds.saturating_add(add_seconds);
        self.runtime.total_seconds = self.runtime.total_seconds.saturating_add(add_seconds);
        self.runtime.last_update = Some(clock::now_rfc3339());
        Ok(())
    }

    /// One second of the clock: a running countdown with time left counts
    /// down one second and reports a snapshot; the last second makes it idle.
    pub fn tick(&mut self) -> (r: TickOutcome)
        ensures
            old(self).runtime().state != TimerState::Running ==> r is Stopped && *final(self) == *old(self),
            old(self).runtime().state == TimerState::Running && old(self).runtime().remaining_seconds == 0
                ==> r is Waiting && *final(self) == *old(self),
            old(self).runtime().state == TimerState::Running && old(self).runtime().remaining_seconds > 0 ==> {
                &&& final(self).runtime()@ == spec_tick(old(self).runtime()@)
                &&& final(self).runtime().last_update is Some
                &&& old(self).runtime().remaining_seconds == 1 ==> r == TickOutcome::Finished(final(self).runtime())
                &&& old(self).runtime().remaining_seconds > 1 ==> r == TickOutcome::Updated(final(self).runtime())
            },
            final(self).config() == old(self).config(),
    {
        proof { use_type_invariant(&*self); }
        if self.runtime.state != TimerState::Running {
            return TickOutcome::Stopped;
        }
        if self.runtime.remaining_seconds == 0 {
            return TickOutcome::Waiting;
        }
        self.runtime.remaining_seconds = self.runtime.remaining_seconds - 1;
        self.runtime.last_update = Some(clock::now_rfc3339());
        let finished = self.runtime.remaining_seconds == 0;
        if finished {
            self.runtime.state = TimerState::Idle;
            self.runtime.last_update = Some(clock::now_rfc3339());
            TickOutcome::Finished(copy_runtime(&self.runtime))
        } else {
            TickOutcome::Updated(copy_runtime(&self.runtime))
        }
    }
}

/// `r` is the engine restored from `saved_state` with the main interval
/// `interval_minutes` (0 counting as 1): the saved countdown, a running one
/// having lost the time spent offline (none when its time stamp does not
/// parse), stamped with the saved time.
pub open spec fn spec_restored_engine(saved_state: RuntimeState, interval_minutes: u64, r: TimerEngine) -> bool {
    &&& saved_state.timer_status@ != "Running"@ ==> r.runtime()@ == spec_restored(saved_state, saved_state.remaining_seconds)
    &&& saved_state.timer_status@ == "Running"@ ==> exists|offline_secs: i64| r.runtime()@ == #[trigger] spec_restored(
        saved_state, config::spec_remaining_after_offline(saved_state.remaining_seconds, offline_secs))
    &&& saved_state.timer_status@ == "Running"@ && !clock::spec_rfc3339_valid(saved_state.last_update@)
        ==> r.runtime()@ == spec_restored(saved_state, saved_state.remaining_seconds)
    &&& r.runtime().last_update == Some(saved_state.last_update)
    &&& r.config().interval_minutes == if interval_minutes == 0 { 1 } else { interval_minutes }
    &&& r.config().custom_interval
    &&& r.config().min_interval == 1
    &&& r.config().max_interval == 1440
}

/// `r` is the engine restored from `saved_state` with the main interval
/// `interval_minutes` (0 counting as 1) for the reading `offline_reading`
/// of the time since its `last_update`.
pub open spec fn spec_restored_engine_reading(
    saved_state: RuntimeState,
    interval_minutes: u64,
    offline_reading: Option<i64>,
    r: TimerEngine,
) -> bool {
    &&& r.runtime()@ == spec_restored(saved_state, config::spec_adjusted_remaining(saved_state, offline_reading))
    &&& r.runtime().last_update == Some(saved_state.last_update)
    &&& r.config().interval_minutes == if interval_minutes == 0 { 1 } else { interval_minutes }
    &&& r.config().custom_interval
    &&& r.config().min_interval == 1
    &&& r.config().max_interval == 1440
}

/// `r` is the fresh idle work engine for the main interval
/// `interval_minutes` (0 counting as 1; beyond 1440 the default 30).
pub open spec fn spec_interval_engine(interval_minutes: u64, r: TimerEngine) -> bool {
    let m = if interval_minutes == 0 { 1 } else { interval_minutes };
    &&& if m <= 1440 {
        &&& r.runtime()@ == spec_reset_to(TimerPhase::Work, (m * 60) as u64)
        &&& r.config().interval_minutes == m
        &&& r.config().custom_interval
    } else {
        &&& r.runtime()@ == spec_reset_to(TimerPhase::Work, 1800)
        &&& r.config().interval_minutes == 30
        &&& !r.config().custom_interval
    }
    &&& r.runtime().last_update is None
    &&& r.config().min_interval == 1
    &&& r.config().max_interval == 1440
}

impl Default for TimerEngine {
    fn default() -> (r: Self)
        ensures
            r.runtime()@ == spec_reset_to(TimerPhase::Work, 1800),
            r.runtime().last_update is None,
            r.config().interval_minutes == 30,
    {
        Self::new()
    }
}

/// `k` seconds of a running countdown.
pub open spec fn spec_ticks(c: Countdown, k: nat) -> Countdown
    decreases k,
{
    if k == 0 {
        c
    } else {
        spec_tick(spec_ticks(c, (k - 1) as nat))
    }
}

/// Pausing a running countdown and resuming it gives back the same countdown.
pub proof fn law_pause_then_resume(c: Countdown)
    requires
        c.state == TimerState::Running,
    ensures
        spec_resume(spec_pause(c)) == c,
{
}

/// A running countdown with `n` seconds left keeps running for `n - 1`
/// seconds, with one second less each time, and is idle at zero after exactly
/// `n` seconds.
pub proof fn law_countdown_runs_out(c: Countdown, k: nat)
    requires
        c.state == TimerState::Running,
        0 < k <= c.remaining_seconds,
    ensures
        spec_ticks(c, k).remaining_seconds == c.remaining_seconds - k,
        spec_ticks(c, k).total_seconds == c.total_seconds,
        spec_ticks(c, k).phase == c.phase,
        (spec_ticks(c, k).state == TimerState::Idle) <==> (k == c.remaining_seconds),
        k < c.remaining_seconds ==> spec_ticks(c, k).state == TimerState::Running,
    decreases k,
{
    assert(spec_ticks(c, 0) == c);
    if k > 1 {
        law_countdown_runs_out(c, (k - 1) as nat);
    }
    assert(spec_ticks(c, k) == spec_tick(spec_ticks(c, (k - 1) as nat)));
}

/// A delay that fits moves the end without changing the time already counted
/// (`total - remaining`).
pub proof fn law_delay_keeps_elapsed(c: Countdown, add_seconds: u64)
    requires
        c.remaining_seconds <= c.total_seconds,
        c.total_seconds + add_seconds <= u64::MAX,
    ensures
        spec_add_delay(c, add_seconds).total_seconds - spec_add_delay(c, add_seconds).remaining_seconds
            == c.total_seconds - c.remaining_seconds,
        spec_add_delay(c, add_seconds).remaining_seconds == c.remaining_seconds + add_seconds,
{
}

/// No operation lets the remaining time exceed the total once it is within it.
pub proof fn law_remaining_within_total(c: Countdown, add_seconds: u64, phase: TimerPhase, total: u64)
    requires
        c.remaining_seconds <= c.total_seconds,
    ensures
        spec_start(c).remaining_seconds <= spec_start(c).total_seconds,
        spec_pause(c).remaining_seconds <= spec_pause(c).total_seconds,
        spec_resume(c).remaining_seconds <= spec_resume(c).total_seconds,
        spec_stop(c).remaining_seconds <= spec_stop(c).total_seconds,
        spec_add_delay(c, add_seconds).remaining_seconds <= spec_add_delay(c, add_seconds).total_seconds,
        c.remaining_seconds > 0 ==> spec_tick(c).remaining_seconds <= spec_tick(c).total_seconds,
        spec_reset_to(phase, total).remaining_seconds <= spec_reset_to(phase, total).total_seconds,
{
}

/// What `to_runtime_state` writes for a countdown: its state and phase names
/// and its counts.
pub open spec fn spec_persists(saved: RuntimeState, c: Countdown) -> bool {
    &&& saved.timer_status@ == spec_status_name(c.state)
    &&& saved.cycle_phase@ == spec_phase_name(c.phase)
    &&& saved.remaining_seconds == c.remaining_seconds
    &&& saved.total_seconds == c.total_seconds
}

/// Persisting and restoring: a held countdown comes back exactly; an idle one
/// comes back idle with its full total; a running one comes back in the same
/// phase and total, either running with at most the saved remaining time or,
/// when that ran out, idle with its full total.
pub proof fn law_persist_then_restore(c: Countdown, saved: RuntimeState, running_remaining: u64)
    requires
        spec_persists(saved, c),
    ensures
        c.state == TimerState::Paused ==> spec_restored(saved, running_remaining) == c,
        c.state == TimerState::Idle ==> spec_restored(saved, running_remaining) == spec_reset_to(c.phase, c.total_seconds),
        c.state == TimerState::Running && 0 < running_remaining ==> spec_restored(saved, running_remaining)
            == (Countdown { remaining_seconds: running_remaining, ..c }),
        c.state == TimerState::Running && running_remaining == 0 ==> spec_restored(saved, running_remaining)
            == spec_reset_to(c.phase, c.total_seconds),
{
    reveal_strlit("Idle");
    reveal_strlit("Running");
    reveal_strlit("Paused");
    reveal_strlit("Work");
    reveal_strlit("Rest");
    assert("Paused"@.len() == 6);
    assert("Running"@.len() == 7);
    assert("Idle"@.len() == 4);
    assert("Work"@.len() == 4);
    assert("Rest"@.len() == 4);
    assert("Paused"@ != "Running"@);
    assert("Idle"@ != "Running"@);
    assert("Idle"@ != "Paused"@);
    assert("Work"@[0] != "Rest"@[0]);
    assert("Work"@ != "Rest"@);
}

/// Starting a held countdown runs it on from where it stopped: the same
/// remaining seconds, total and phase, now running. Only a start from idle
/// begins the full total again.
pub proof fn law_start_after_pause_runs_on(c: Countdown)
    ensures
        c.state == TimerState::Paused ==> spec_start(c).remaining_seconds == c.remaining_seconds
            && spec_start(c).total_seconds == c.total_seconds
            && spec_start(c).phase == c.phase
            && spec_start(c).state == TimerState::Running,
        c.state == TimerState::Idle ==> spec_start(c).remaining_seconds == c.total_seconds
            && spec_start(c).state == TimerState::Running,
        c.state == TimerState::Running ==> spec_pause(spec_start(spec_pause(c))) == spec_pause(c),
{
}

/// Pausing and then starting a running countdown is the same as pausing
/// and then resuming it: no second is gained or lost.
pub proof fn law_start_and_resume_agree_after_pause(c: Countdown)
    requires
        c.state == TimerState::Running,
    ensures
        spec_start(spec_pause(c)) == spec_resume(spec_pause(c)),
        spec_start(spec_pause(c)) == c,
{
}

/// A running countdown restored after `d` seconds away: when `d` reaches
/// its remaining time it comes back idle with its full total; otherwise it
/// runs on with `d` fewer seconds (none fewer when `d` is not positive). A
/// time stamp that does not parse loses nothing. Held countdowns ignore the
/// time away.
pub proof fn law_restore_after_offline(saved: RuntimeState, d: i64)
    ensures
        ({
            let c = spec_restored(saved, config::spec_adjusted_remaining(saved, Some(d)));
            &&& saved.timer_status@ == "Running"@ && d >= saved.remaining_seconds
                ==> c.state == TimerState::Idle && c.remaining_seconds == saved.total_seconds
            &&& saved.timer_status@ == "Running"@ && 0 < d < saved.remaining_seconds
                ==> c.state == TimerState::Running && c.remaining_seconds == saved.remaining_seconds - d
            &&& saved.timer_status@ == "Running"@ && d <= 0 && saved.remaining_seconds > 0
                ==> c.state == TimerState::Running && c.remaining_seconds == saved.remaining_seconds
            &&& saved.timer_status@ == "Paused"@ ==> c.state == TimerState::Paused
                && c.remaining_seconds == saved.remaining_seconds
            &&& c.total_seconds == saved.total_seconds
        }),
        ({
            let c = spec_restored(saved, config::spec_adjusted_remaining(saved, None));
            saved.timer_status@ == "Running"@ && saved.remaining_seconds > 0
                ==> c.state == TimerState::Running && c.remaining_seconds == saved.remaining_seconds
        }),
{
    reveal_strlit("Running");
    reveal_strlit("Paused");
    assert("Running"@.len() != "Paused"@.len());
}

} // verus!
