//! Application configuration: the persisted settings, their defaults and
//! normalisation, and the in-memory configuration manager with the update
//! operations the front end invokes. Reading and writing the JSON file is the
//! application's part; it hands the parsed value in and saves after updates.

use vstd::prelude::*;
use crate::text;
use crate::clock;
use crate::activation;


verus! {

broadcast use vstd::string::group_string_axioms;

/// The configuration format version written by this library.
pub const CONFIG_VERSION: &'static str = "1.1";

/// Countdown settings.
#[derive(Debug)]
pub struct TimerConfig {
    pub interval_minutes: u64,
    pub advance_notice_seconds: u64,
    pub max_delay_times: u32,
    pub delay_options: Vec<u64>,
    pub loop_enabled: bool,
    pub loop_interval_minutes: u64,
    pub enforce_relock_during_rest: bool,
}

/// The value a missing `enforce_relock_during_rest` takes.
pub fn default_enforce_relock_during_rest() -> (r: bool)
    ensures
        r,
{
    true
}

impl Default for TimerConfig {
    fn default() -> (r: Self)
        ensures
            r.interval_minutes == 30,
            r.advance_notice_seconds == 30,
            r.max_delay_times == 3,
            r.delay_options@ == seq![5u64, 10u64, 30u64],
            r.loop_enabled,
            r.loop_interval_minutes == 5,
            r.enforce_relock_during_rest,
    {
        let r = TimerConfig {
            interval_minutes: 30,
            advance_notice_seconds: 30,
            max_delay_times: 3,
            delay_options: vec![5, 10, 30],
            loop_enabled: true,
            loop_interval_minutes: 5,
            enforce_relock_during_rest: true,
        };
        assert(r.delay_options@ =~= seq![5u64, 10u64, 30u64]);
        r
    }
}

/// When the reminder is in effect: a daily time window and a set of weekdays.
#[derive(Debug)]
pub struct ScheduleConfig {
    pub time_limit_enabled: bool,
    pub weekday_limit_enabled: bool,
    /// `HH:MM`.
    pub start_time: String,
    /// `HH:MM`.
    pub end_time: String,
    /// 1 = Monday ... 7 = Sunday.
    pub weekdays: Vec<u32>,
    /// `"AND"` or `"OR"`.
    pub logic: String,
}

impl Default for ScheduleConfig {
    fn default() -> (r: Self)
        ensures
            !r.time_limit_enabled,
            !r.weekday_limit_enabled,
            r.start_time@ == "09:00"@,
            r.end_time@ == "18:00"@,
            r.weekdays@ == seq![1u32, 2u32, 3u32, 4u32, 5u32],
            r.logic@ == "AND"@,
    {
        let r = ScheduleConfig {
            time_limit_enabled: false,
            weekday_limit_enabled: false,
            start_time: "09:00".to_string(),
            end_time: "18:00".to_string(),
            weekdays: vec![1, 2, 3, 4, 5],
            logic: "AND".to_string(),
        };
        assert(r.weekdays@ =~= seq![1u32, 2u32, 3u32, 4u32, 5u32]);
        r
    }
}

/// What happens when a work countdown ends.
#[derive(Debug)]
pub struct ActionConfig {
    /// `"lock"` or `"shutdown"`.
    pub action_type: String,
    pub show_notice: bool,
}

impl Default for ActionConfig {
    fn default() -> (r: Self)
        ensures
            r.action_type@ == "lock"@,
            r.show_notice,
    {
        ActionConfig { action_type: "lock".to_string(), show_notice: true }
    }
}

/// The stored action type: `"shutdown"` stays, anything else becomes `"lock"`.
pub open spec fn spec_normalize_action_type(action_type: Seq<char>) -> Seq<char> {
    if action_type == "shutdown"@ {
        "shutdown"@
    } else {
        "lock"@
    }
}

/// Maps an action type onto the two supported ones.
pub fn normalize_action_type(action_type: &str) -> (r: String)
    ensures
        r@ == spec_normalize_action_type(action_type@),
{
    if text::str_eq(action_type, "shutdown") {
        "shutdown".to_string()
    } else {
        "lock".to_string()
    }
}

/// Start-up behaviour.
#[derive(Debug)]
pub struct StartupConfig {
    pub auto_start: bool,
    pub start_minimized: bool,
    pub start_timer_automatically: bool,
}

impl Default for StartupConfig {
    fn default() -> (r: Self)
        ensures
            !r.auto_start,
            !r.start_minimized,
            !r.start_timer_automatically,
    {
        StartupConfig { auto_start: false, start_minimized: false, start_timer_automatically: false }
    }
}

/// The theme a missing `theme` takes.
pub fn default_ui_theme() -> (r: String)
    ensures
        r@ == "dark"@,
{
    "dark".to_string()
}

/// Appearance.
#[derive(Debug)]
pub struct UiConfig {
    /// `"dark"`, `"light"` or `"vivid"`.
    pub theme: String,
}

impl Default for UiConfig {
    fn default() -> (r: Self)
        ensures
            r.theme@ == "dark"@,
    {
        UiConfig { theme: default_ui_theme() }
    }
}

/// Log retention settings.
#[derive(Debug)]
pub struct LogConfig {
    /// `"trace"`, `"debug"`, `"info"`, `"warn"` or `"error"`.
    pub level: String,
    pub max_days: u32,
    pub max_file_size_mb: u64,
    pub max_total_size_mb: u64,
}

impl Default for LogConfig {
    fn default() -> (r: Self)
        ensures
            r.level@ == "info"@,
            r.max_days == 7,
            r.max_file_size_mb == 10,
            r.max_total_size_mb == 100,
    {
        LogConfig { level: "info".to_string(), max_days: 7, max_file_size_mb: 10, max_total_size_mb: 100 }
    }
}

/// Whether this installation has been activated.
#[derive(Debug)]
pub struct ActivationConfig {
    pub activated: bool,
    pub activation_code_hash: Option<String>,
    pub activated_at: Option<String>,
}

impl Default for ActivationConfig {
    fn default() -> (r: Self)
        ensures
            !r.activated,
            r.activation_code_hash is None,
            r.activated_at is None,
    {
        ActivationConfig { activated: false, activation_code_hash: None, activated_at: None }
    }
}

/// Exit-password protection state.
#[derive(Debug)]
pub struct SecurityConfig {
    pub password_hash: Option<String>,
    pub security_question: Option<String>,
    pub security_answer_hash: Option<String>,
    pub failed_attempts: u32,
    pub lock_until: Option<String>,
}

impl Default for SecurityConfig {
    fn default() -> (r: Self)
        ensures
            r.password_hash is None,
            r.security_question is None,
            r.security_answer_hash is None,
            r.failed_attempts == 0,
            r.lock_until is None,
    {
        SecurityConfig {
            password_hash: None,
            security_question: None,
            security_answer_hash: None,
            failed_attempts: 0,
            lock_until: None,
        }
    }
}

/// The countdown as persisted between runs.
#[derive(Debug)]
pub struct RuntimeState {
    /// `"Idle"`, `"Running"` or `"Paused"`.
    pub timer_status: String,
    pub remaining_seconds: u64,
    pub total_seconds: u64,
    /// RFC 3339.
    pub last_update: String,
    /// Delays and cancellations used on `delay_quota_date`.
    pub delay_count: u32,
    /// Local date `YYYY-MM-DD`.
    pub delay_quota_date: String,
    /// `"Work"` or `"Rest"`.
    pub cycle_phase: String,
}

/// The value a missing `delay_quota_date` takes: today's local date.
pub fn default_delay_quota_date() -> (r: String)
    ensures
        clock::spec_ymd_shape(r@),
{
    clock::today_ymd()
}

/// The value a missing `cycle_phase` takes.
pub fn default_cycle_phase() -> (r: String)
    ensures
        r@ == "Work"@,
{
    "Work".to_string()
}

/// What remains of a countdown after `offline_secs` seconds away: time spent
/// away (never negative) is taken off, down to zero.
pub open spec fn spec_remaining_after_offline(remaining: u64, offline_secs: i64) -> u64 {
    if offline_secs <= 0 {
        remaining
    } else if offline_secs >= remaining {
        0
    } else {
        (remaining - offline_secs) as u64
    }
}

/// Takes the (non-negative part of the) offline time off a remaining count.
pub fn remaining_after_offline(remaining: u64, offline_secs: i64) -> (r: u64)
    ensures
        r == spec_remaining_after_offline(remaining, offline_secs),
{
    let offline: u64 = if offline_secs <= 0 { 0 } else { offline_secs as u64 };
    remaining.saturating_sub(offline)
}

/// The remaining seconds of a saved countdown when the clock puts its
/// `last_update` `offline_reading` seconds in the past (`None`: it does not
/// parse): a running countdown loses those seconds (none when negative or
/// unread), down to zero; any other keeps its remaining seconds.
pub open spec fn spec_adjusted_remaining(saved_state: RuntimeState, offline_reading: Option<i64>) -> u64 {
    if saved_state.timer_status@ != "Running"@ {
        saved_state.remaining_seconds
    } else {
        spec_remaining_after_offline(saved_state.remaining_seconds, match offline_reading { Some(d) => d, None => 0 })
    }
}

/// The remaining seconds of a saved countdown for a given reading of the
/// time since its `last_update`.
pub fn remaining_after_reading(saved_state: &RuntimeState, offline_reading: Option<i64>) -> (r: u64)
    ensures
        r == spec_adjusted_remaining(*saved_state, offline_reading),
{
    if !text::str_eq(saved_state.timer_status.as_str(), "Running") {
        return saved_state.remaining_seconds;
    }
    let offline: i64 = match offline_reading {
        Some(secs) => secs,
        None => 0,
    };
    remaining_after_offline(saved_state.remaining_seconds, offline)
}

/// The remaining seconds of a saved countdown after the time the machine was
/// off: a running countdown loses the seconds since `last_update` (none when
/// that does not parse); any other keeps its remaining seconds.
pub fn offline_adjusted_remaining(saved_state: &RuntimeState) -> (r: u64)
    ensures
        saved_state.timer_status@ == "Running"@ ==> exists|offline_reading: Option<i64>|
            (offline_reading is Some <==> clock::spec_rfc3339_valid(saved_state.last_update@))
            && r == #[trigger] spec_adjusted_remaining(*saved_state, offline_reading),
        saved_state.timer_status@ != "Running"@ ==> r == saved_state.remaining_seconds,
        saved_state.timer_status@ == "Running"@ ==> exists|offline_secs: i64|
            r == #[trigger] spec_remaining_after_offline(saved_state.remaining_seconds, offline_secs),
        saved_state.timer_status@ == "Running"@ && !clock::spec_rfc3339_valid(saved_state.last_update@)
            ==> r == saved_state.remaining_seconds,
{
    if !text::str_eq(saved_state.timer_status.as_str(), "Running") {
        return saved_state.remaining_seconds;
    }
    let reading = clock::seconds_since_rfc3339(saved_state.last_update.as_str());
    let r = remaining_after_reading(saved_state, reading);
    let offline: i64 = match reading { Some(d) => d, None => 0 };
    assert(r == spec_remaining_after_offline(saved_state.remaining_seconds, offline));
    assert(r == spec_adjusted_remaining(*saved_state, reading));
    r
}

impl Default for RuntimeState {
    fn default() -> (r: Self)
        ensures
            r.timer_status@ == "Idle"@,
            r.remaining_seconds == 1800,
            r.total_seconds == 1800,
            r.delay_count == 0,
            r.cycle_phase@ == "Work"@,
    {
        RuntimeState {
            timer_status: "Idle".to_string(),
            remaining_seconds: 1800,
            total_seconds: 1800,
            last_update: clock::now_rfc3339(),
            delay_count: 0,
            delay_quota_date: default_delay_quota_date(),
            cycle_phase: "Work".to_string(),
        }
    }
}

/// The whole configuration file.
#[derive(Debug)]
pub struct AppConfig {
    pub version: String,
    pub timer: TimerConfig,
    pub schedule: ScheduleConfig,
    pub action: ActionConfig,
    pub startup: StartupConfig,
    pub ui: UiConfig,
    pub log: LogConfig,
    pub activation: ActivationConfig,
    pub security: SecurityConfig,
    pub runtime_state: RuntimeState,
}

/// The fields of a default configuration (the time stamps aside).
pub open spec fn spec_is_default_config(r: AppConfig) -> bool {
    &&& r.version@ == "1.1"@
    &&& r.timer.interval_minutes == 30
    &&& r.timer.advance_notice_seconds == 30
    &&& r.timer.max_delay_times == 3
    &&& r.timer.delay_options@ == seq![5u64, 10u64, 30u64]
    &&& r.timer.loop_enabled
    &&& r.timer.loop_interval_minutes == 5
    &&& r.timer.enforce_relock_during_rest
    &&& !r.schedule.time_limit_enabled
    &&& !r.schedule.weekday_limit_enabled
    &&& r.schedule.start_time@ == "09:00"@
    &&& r.schedule.end_time@ == "18:00"@
    &&& r.schedule.weekdays@ == seq![1u32, 2u32, 3u32, 4u32, 5u32]
    &&& r.schedule.logic@ == "AND"@
    &&& r.action.action_type@ == "lock"@
    &&& r.action.show_notice
    &&& !r.startup.auto_start
    &&& !r.startup.start_minimized
    &&& !r.startup.start_timer_automatically
    &&& r.ui.theme@ == "dark"@
    &&& r.log.level@ == "info"@
    &&& r.log.max_days == 7
    &&& r.log.max_file_size_mb == 10
    &&& r.log.max_total_size_mb == 100
    &&& !r.activation.activated
    &&& r.activation.activation_code_hash is None
    &&& r.activation.activated_at is None
    &&& r.security.password_hash is None
    &&& r.security.security_question is None
    &&& r.security.security_answer_hash is None
    &&& r.security.failed_attempts == 0
    &&& r.security.lock_until is None
    &&& r.runtime_state.timer_status@ == "Idle"@
    &&& r.runtime_state.remaining_seconds == 1800
    &&& r.runtime_state.total_seconds == 1800
    &&& r.runtime_state.delay_count == 0
    &&& r.runtime_state.cycle_phase@ == "Work"@
}

impl Default for AppConfig {
    fn default() -> (r: Self)
        ensures
            spec_is_default_config(r),
    {
        AppConfig {
            version: CONFIG_VERSION.to_string(),
            timer: TimerConfig::default(),
            schedule: ScheduleConfig::default(),
            action: ActionConfig::default(),
            startup: StartupConfig::default(),
            ui: UiConfig::default(),
            log: LogConfig::default(),
            activation: ActivationConfig::default(),
            security: SecurityConfig::default(),
            runtime_state: RuntimeState::default(),
        }
    }
}

fn copy_string_opt(s: &Option<String>) -> (r: Option<String>)
    ensures
        r == *s,
{
    match s {
        Some(v) => Some(v.clone()),
        None => None,
    }
}

fn copy_u64s(v: &Vec<u64>) -> (r: Vec<u64>)
    ensures
        r@ == v@,
{
    let mut out: Vec<u64> = Vec::new();
    let mut i: usize = 0;
    while i < v.len()
        invariant
            i <= v@.len(),
            out@ == v@.take(i as int),
        decreases v@.len() - i,
    {
        out.push(v[i]);
        i = i + 1;
        assert(out@ =~= v@.take(i as int));
    }
    assert(v@.take(v@.len() as int) =~= v@);
    out
}

fn copy_u32s(v: &Vec<u32>) -> (r: Vec<u32>)
    ensures
        r@ == v@,
{
    let mut out: Vec<u32> = Vec::new();
    let mut i: usize = 0;
    while i < v.len()
        invariant
            i <= v@.len(),
            out@ == v@.take(i as int),
        decreases v@.len() - i,
    {
        out.push(v[i]);
        i = i + 1;
        assert(out@ =~= v@.take(i as int));
    }
    assert(v@.take(v@.len() as int) =~= v@);
    out
}

impl TimerConfig {
    /// A field-for-field copy.
    pub fn duplicate(&self) -> (r: Self)
        ensures
            r.interval_minutes == self.interval_minutes,
            r.advance_notice_seconds == self.advance_notice_seconds,
            r.max_delay_times == self.max_delay_times,
            r.delay_options@ == self.delay_options@,
            r.loop_enabled == self.loop_enabled,
            r.loop_interval_minutes == self.loop_interval_minutes,
            r.enforce_relock_during_rest == self.enforce_relock_during_rest,
    {
        TimerConfig {
            interval_minutes: self.interval_minutes,
            advance_notice_seconds: self.advance_notice_seconds,
            max_delay_times: self.max_delay_times,
            delay_options: copy_u64s(&self.delay_options),
            loop_enabled: self.loop_enabled,
            loop_interval_minutes: self.loop_interval_minutes,
            enforce_relock_during_rest: self.enforce_relock_during_rest,
        }
    }
}

impl RuntimeState {
    /// A field-for-field copy.
    pub fn duplicate(&self) -> (r: Self)
        ensures
            r == *self,
    {
        RuntimeState {
            timer_status: self.timer_status.clone(),
            remaining_seconds: self.remaining_seconds,
            total_seconds: self.total_seconds,
            last_update: self.last_update.clone(),
            delay_count: self.delay_count,
            delay_quota_date: self.delay_quota_date.clone(),
            cycle_phase: self.cycle_phase.clone(),
        }
    }
}

impl SecurityConfig {
    /// A field-for-field copy.
    pub fn duplicate(&self) -> (r: Self)
        ensures
            r == *self,
    {
        SecurityConfig {
            password_hash: copy_string_opt(&self.password_hash),
            security_question: copy_string_opt(&self.security_question),
            security_answer_hash: copy_string_opt(&self.security_answer_hash),
            failed_attempts: self.failed_attempts,
            lock_until: copy_string_opt(&self.lock_until),
        }
    }
}

/// Two configurations agree field for field (vectors by their contents).
pub open spec fn spec_same_config(a: AppConfig, b: AppConfig) -> bool {
    &&& a.version == b.version
    &&& a.timer.interval_minutes == b.timer.interval_minutes
    &&& a.timer.advance_notice_seconds == b.timer.advance_notice_seconds
    &&& a.timer.max_delay_times == b.timer.max_delay_times
    &&& a.timer.delay_options@ == b.timer.delay_options@
    &&& a.timer.loop_enabled == b.timer.loop_enabled
    &&& a.timer.loop_interval_minutes == b.timer.loop_interval_minutes
    &&& a.timer.enforce_relock_during_rest == b.timer.enforce_relock_during_rest
    &&& a.schedule.time_limit_enabled == b.schedule.time_limit_enabled
    &&& a.schedule.weekday_limit_enabled == b.schedule.weekday_limit_enabled
    &&& a.schedule.start_time == b.schedule.start_time
    &&& a.schedule.end_time == b.schedule.end_time
    &&& a.schedule.weekdays@ == b.schedule.weekdays@
    &&& a.schedule.logic == b.schedule.logic
    &&& a.action == b.action
    &&& a.startup == b.startup
    &&& a.ui == b.ui
    &&& a.log == b.log
    &&& a.activation == b.activation
    &&& a.security == b.security
    &&& a.runtime_state == b.runtime_state
}

impl AppConfig {
    /// A field-for-field copy.
    pub fn duplicate(&self) -> (r: Self)
        ensures
            spec_same_config(r, *self),
    {
        AppConfig {
            version: self.version.clone(),
            timer: self.timer.duplicate(),
            schedule: ScheduleConfig {
                time_limit_enabled: self.schedule.time_limit_enabled,
                weekday_limit_enabled: self.schedule.weekday_limit_enabled,
                start_time: self.schedule.start_time.clone(),
                end_time: self.schedule.end_time.clone(),
                weekdays: copy_u32s(&self.schedule.weekdays),
                logic: self.schedule.logic.clone(),
            },
            action: ActionConfig {
                action_type: self.action.action_type.clone(),
                show_notice: self.action.show_notice,
            },
            startup: StartupConfig {
                auto_start: self.startup.auto_start,
                start_minimized: self.startup.start_minimized,
                start_timer_automatically: self.startup.start_timer_automatically,
            },
            ui: UiConfig { theme: self.ui.theme.clone() },
            log: LogConfig {
                level: self.log.level.clone(),
                max_days: self.log.max_days,
                max_file_size_mb: self.log.max_file_size_mb,
                max_total_size_mb: self.log.max_total_size_mb,
            },
            activation: ActivationConfig {
                activated: self.activation.activated,
                activation_code_hash: copy_string_opt(&self.activation.activation_code_hash),
                activated_at: copy_string_opt(&self.activation.activated_at),
            },
            security: self.security.duplicate(),
            runtime_state: self.runtime_state.duplicate(),
        }
    }
}

/// Holds the configuration in memory. The application loads it from and
/// saves it to `config.json`.
pub struct ConfigManager {
    config: AppConfig,
    config_path: String,
}

impl ConfigManager {
    /// The configuration held.
    pub closed spec fn config(&self) -> AppConfig {
        self.config
    }

    /// Where the configuration is saved.
    pub closed spec fn config_path(&self) -> Seq<char> {
        self.config_path@
    }

    /// A manager for the configuration stored at `config_path`: the stored
    /// configuration with its action type normalised, or the default one when
    /// nothing was stored.
    pub fn new(config_path: String, stored: Option<AppConfig>) -> (r: Self)
        ensures
            r.config_path() == config_path@,
            stored is None ==> spec_is_default_config(r.config()),
            stored matches Some(c) ==> r.config() == (AppConfig {
                action: ActionConfig { action_type: r.config().action.action_type, ..c.action },
                ..c
            }) && r.config().action.action_type@ == spec_normalize_action_type(c.action.action_type@),
    {
        let config = match stored {
            Some(c) => {
                let mut c = c;
                c.action.action_type = normalize_action_type(c.action.action_type.as_str());
                c
            },
            None => AppConfig::default(),
        };
        ConfigManager { config, config_path }
    }

    /// A copy of the configuration.
    pub fn get(&self) -> (r: Result<AppConfig, String>)
        ensures
            r matches Ok(c) && spec_same_config(c, self.config()),
    {
        Ok(self.config.duplicate())
    }

    /// The configuration held, borrowed.
    pub fn config_ref(&self) -> (r: &AppConfig)
        ensures
            *r == self.config(),
    {
        &self.config
    }

    /// Replaces the configuration by what `f` makes of it.
    pub fn update<F: FnOnce(&AppConfig) -> AppConfig>(&mut self, f: F) -> (r: Result<(), String>)
        requires
            call_requires(f, (&old(self).config(),)),
        ensures
            r is Ok,
            call_ensures(f, (&old(self).config(),), final(self).config()),
            final(self).config_path() == old(self).config_path(),
    {
        let next = f(&self.config);
        self.config = next;
        Ok(())
    }

    /// Where the configuration is saved.
    pub fn path(&self) -> (r: &String)
        ensures
            r@ == self.config_path(),
    {
        &self.config_path
    }

    /// Replaces the activation record.
    pub fn set_activation(&mut self, activation: ActivationConfig)
        ensures
            final(self).config() == (AppConfig { activation, ..old(self).config() }),
            final(self).config_path() == old(self).config_path(),
    {
        self.config.activation = activation;
    }

    /// Replaces the exit-password state.
    pub fn set_security(&mut self, security: SecurityConfig)
        ensures
            final(self).config() == (AppConfig { security, ..old(self).config() }),
            final(self).config_path() == old(self).config_path(),
    {
        self.config.security = security;
    }

    /// Replaces the persisted countdown.
    pub fn set_runtime_state(&mut self, runtime_state: RuntimeState)
        ensures
            final(self).config() == (AppConfig { runtime_state, ..old(self).config() }),
            final(self).config_path() == old(self).config_path(),
    {
        self.config.runtime_state = runtime_state;
    }

    /// Sets the main interval of the countdown settings.
    pub fn set_interval_minutes(&mut self, minutes: u64)
        ensures
            final(self).config() == (AppConfig {
                timer: TimerConfig { interval_minutes: minutes, ..old(self).config().timer },
                ..old(self).config()
            }),
            final(self).config_path() == old(self).config_path(),
    {
        self.config.timer.interval_minutes = minutes;
    }
}

/// The persisted countdown after the daily quota check on `today`: a new day
/// clears the count of delays and cancellations and records the date.
pub open spec fn spec_quota_checked(rs: RuntimeState, today: String) -> RuntimeState {
    if rs.delay_quota_date@ == today@ {
        rs
    } else {
        RuntimeState { delay_count: 0, delay_quota_date: today, ..rs }
    }
}

/// Clears the daily delay count when `today` is a new date and records it.
pub fn reset_delay_quota_for_date(config_manager: &mut ConfigManager, today: String) -> (r: Result<(), String>)
    ensures
        r is Ok,
        final(config_manager).config() == (AppConfig {
            runtime_state: spec_quota_checked(old(config_manager).config().runtime_state, today),
            ..old(config_manager).config()
        }),
        final(config_manager).config_path() == old(config_manager).config_path(),
{
    if text::str_eq(config_manager.config.runtime_state.delay_quota_date.as_str(), today.as_str()) {
        return Ok(());
    }
    config_manager.config.runtime_state.delay_count = 0;
    config_manager.config.runtime_state.delay_quota_date = today;
    Ok(())
}

/// Clears the daily delay count when the local date has changed.
pub fn reset_daily_delay_quota_if_needed(config_manager: &mut ConfigManager) -> (r: Result<(), String>)
    ensures
        r is Ok,
        exists|today: String| clock::spec_ymd_shape(today@) && final(config_manager).config() == (AppConfig {
            runtime_state: #[trigger] spec_quota_checked(old(config_manager).config().runtime_state, today),
            ..old(config_manager).config()
        }),
        final(config_manager).config_path() == old(config_manager).config_path(),
{
    let today = default_delay_quota_date();
    reset_delay_quota_for_date(config_manager, today)
}

/// The configuration, after the daily quota check.
pub fn get_config(state: &mut ConfigManager) -> (r: Result<AppConfig, String>)
    ensures
        r matches Ok(c) && spec_same_config(c, final(state).config()),
        final(state).config() == (AppConfig { runtime_state: final(state).config().runtime_state, ..old(state).config() }),
        final(state).config_path() == old(state).config_path(),
{
    let _ = reset_daily_delay_quota_if_needed(state);
    state.get()
}

/// The countdown settings as stored: a loop interval of 0 becomes 5.
pub open spec fn spec_normalized_timer_config(c: TimerConfig) -> TimerConfig {
    TimerConfig { loop_interval_minutes: if c.loop_interval_minutes == 0 { 5 } else { c.loop_interval_minutes }, ..c }
}

/// Stores new countdown settings (activated installations only).
pub fn update_timer_config(state: &mut ConfigManager, config: TimerConfig) -> (r: Result<(), String>)
    ensures
        r is Err <==> !old(state).config().activation.activated,
        r matches Err(e) ==> e@ == activation::spec_not_activated_message() && *final(state) == *old(state),
        r is Ok ==> final(state).config() == (AppConfig { timer: spec_normalized_timer_config(config), ..old(state).config() }),
        final(state).config_path() == old(state).config_path(),
{
    activation::ensure_activated(state)?;
    let mut normalized = config;
    if normalized.loop_interval_minutes == 0 {
        normalized.loop_interval_minutes = 5;
    }
    state.config.timer = normalized;
    Ok(())
}

/// Stores new schedule rules (activated installations only).
pub fn update_schedule_config(state: &mut ConfigManager, config: ScheduleConfig) -> (r: Result<(), String>)
    ensures
        r is Err <==> !old(state).config().activation.activated,
        r matches Err(e) ==> e@ == activation::spec_not_activated_message() && *final(state) == *old(state),
        r is Ok ==> final(state).config() == (AppConfig { schedule: config, ..old(state).config() }),
        final(state).config_path() == old(state).config_path(),
{
    activation::ensure_activated(state)?;
    state.config.schedule = config;
    Ok(())
}

/// Stores a new action (normalised; activated installations only).
pub fn update_action_config(state: &mut ConfigManager, config: ActionConfig) -> (r: Result<(), String>)
    ensures
        r is Err <==> !old(state).config().activation.activated,
        r matches Err(e) ==> e@ == activation::spec_not_activated_message() && *final(state) == *old(state),
        r is Ok ==> final(state).config() == (AppConfig {
            action: ActionConfig { action_type: final(state).config().action.action_type, show_notice: config.show_notice },
            ..old(state).config()
        }) && final(state).config().action.action_type@ == spec_normalize_action_type(config.action_type@),
        final(state).config_path() == old(state).config_path(),
{
    activation::ensure_activated(state)?;
    let normalized = ActionConfig {
        action_type: normalize_action_type(config.action_type.as_str()),
        show_notice: config.show_notice,
    };
    state.config.action = normalized;
    Ok(())
}

/// Stores new start-up behaviour (activated installations only).
pub fn update_startup_config(state: &mut ConfigManager, config: StartupConfig) -> (r: Result<(), String>)
    ensures
        r is Err <==> !old(state).config().activation.activated,
        r matches Err(e) ==> e@ == activation::spec_not_activated_message() && *final(state) == *old(state),
        r is Ok ==> final(state).config() == (AppConfig { startup: config, ..old(state).config() }),
        final(state).config_path() == old(state).config_path(),
{
    activation::ensure_activated(state)?;
    state.config.startup = config;
    Ok(())
}

/// The stored theme: `"light"` and `"vivid"` stay, anything else is `"dark"`.
pub open spec fn spec_normalize_theme(theme: Seq<char>) -> Seq<char> {
    if theme == "light"@ {
        "light"@
    } else if theme == "vivid"@ {
        "vivid"@
    } else {
        "dark"@
    }
}

/// Stores a new theme (normalised; activated installations only).
pub fn update_ui_config(state: &mut ConfigManager, config: UiConfig) -> (r: Result<(), String>)
    ensures
        r is Err <==> !old(state).config().activation.activated,
        r matches Err(e) ==> e@ == activation::spec_not_activated_message() && *final(state) == *old(state),
        r is Ok ==> final(state).config() == (AppConfig { ui: final(state).config().ui, ..old(state).config() })
            && final(state).config().ui.theme@ == spec_normalize_theme(config.theme@),
        final(state).config_path() == old(state).config_path(),
{
    activation::ensure_activated(state)?;
    let theme = if text::str_eq(config.theme.as_str(), "light") {
        "light".to_string()
    } else if text::str_eq(config.theme.as_str(), "vivid") {
        "vivid".to_string()
    } else {
        "dark".to_string()
    };
    state.config.ui.theme = theme;
    Ok(())
}

/// Stores the persisted countdown; a blank quota date becomes today's.
pub fn update_runtime_state(state: &mut ConfigManager, runtime_state: RuntimeState) -> (r: Result<(), String>)
    ensures
        r is Ok,
        final(state).config() == (AppConfig {
            runtime_state: RuntimeState {
                delay_quota_date: final(state).config().runtime_state.delay_quota_date,
                ..runtime_state
            },
            ..old(state).config()
        }),
        text::spec_trim(runtime_state.delay_quota_date@).len() != 0
            ==> final(state).config().runtime_state.delay_quota_date == runtime_state.delay_quota_date,
        text::spec_trim(runtime_state.delay_quota_date@).len() == 0
            ==> clock::spec_ymd_shape(final(state).config().runtime_state.delay_quota_date@),
        final(state).config_path() == old(state).config_path(),
{
    let mut normalized = runtime_state;
    if text::trim(normalized.delay_quota_date.as_str()).is_empty() {
        normalized.delay_quota_date = default_delay_quota_date();
    }
    state.config.runtime_state = normalized;
    Ok(())
}

/// Checking the daily quota twice on the same day changes nothing more than
/// checking it once.
pub proof fn law_quota_check_idempotent(rs: RuntimeState, today: String)
    ensures
        spec_quota_checked(spec_quota_checked(rs, today), today) == spec_quota_checked(rs, today),
{
}

/// After the daily quota check the persisted quota is that of `today`.
pub proof fn law_quota_check_dates_today(rs: RuntimeState, today: String)
    ensures
        spec_quota_checked(rs, today).delay_quota_date@ == today@,
        spec_quota_checked(rs, today).delay_count <= rs.delay_count,
{
}

/// Every action type maps onto `"lock"` or `"shutdown"`, and a mapped one
/// maps onto itself.
pub proof fn law_action_type_normal_form(action_type: Seq<char>)
    ensures
        spec_normalize_action_type(action_type) == "lock"@ || spec_normalize_action_type(action_type) == "shutdown"@,
        spec_normalize_action_type(spec_normalize_action_type(action_type)) == spec_normalize_action_type(action_type),
{
    reveal_strlit("lock");
    reveal_strlit("shutdown");
    assert("lock"@.len() != "shutdown"@.len());
}

} // verus!
