//! Core logic of the TimerApp reminder tool: countdown engine, persisted
//! configuration, schedule rules, offline activation codes and exit-password
//! protection. Operating-system effects (windows, tray, files, processes) are
//! left to the application shell, which feeds events in and carries actions out.

pub mod text;
pub mod clock;
pub mod config;
pub mod timer;
pub mod schedule;
pub mod activation;
pub mod crypto;
pub mod security;
pub mod commands;
pub mod notifier;
pub mod system;
pub mod single_instance;
pub mod logger;
pub mod events;

use vstd::prelude::*;
use crate::config::ConfigManager;
use crate::timer::{TimerEngine, TimerPhase};

verus! {

/// Flags fixed at start-up.
#[derive(Debug)]
pub struct RuntimeFlags {
    /// Started with `--safe-mode`: exit needs no password.
    pub safe_mode: bool,
}

/// The countdown shared by the commands.
pub struct AppState {
    pub timer: TimerEngine,
}

impl AppState {
    /// A default idle 30-minute countdown.
    pub fn new() -> (r: Self)
        ensures
            r.timer.runtime()@ == timer::spec_reset_to(TimerPhase::Work, 1800),
            r.timer.config().interval_minutes == 30,
    {
        AppState { timer: TimerEngine::new() }
    }

    /// The countdown at start-up: the engine restored from the persisted
    /// countdown when that was not idle (with the configured main interval),
    /// otherwise the fresh engine of the configured main interval.
    pub fn from_config(config_manager: &ConfigManager) -> (r: Self)
        ensures
            ({
                let c = config_manager.config();
                if c.runtime_state.timer_status@ != "Idle"@ {
                    timer::spec_restored_engine(c.runtime_state, c.timer.interval_minutes, r.timer)
                } else {
                    timer::spec_interval_engine(c.timer.interval_minutes, r.timer)
                }
            }),
    {
        let config = config_manager.get();
        let config = match config {
            Ok(c) => c,
            Err(_) => {
                proof { assert(false); }
                return AppState::new();
            },
        };
        let timer = if !text::str_eq(config.runtime_state.timer_status.as_str(), "Idle") {
            TimerEngine::from_runtime_state_with_interval(&config.runtime_state, config.timer.interval_minutes)
        } else {
            TimerEngine::from_interval_minutes(config.timer.interval_minutes)
        };
        AppState { timer }
    }
}

impl Default for AppState {
    fn default() -> (r: Self)
        ensures
            r.timer.runtime()@ == timer::spec_reset_to(TimerPhase::Work, 1800),
    {
        Self::new()
    }
}

/// Re-locking the screen while a rest runs: whether it is enforced, and when
/// the screen was last locked (Unix seconds).
#[derive(Debug)]
pub struct RestLockGuardState {
    pub enforce_during_rest: bool,
    pub last_relock_unix_secs: u64,
}

impl Default for RestLockGuardState {
    fn default() -> (r: Self)
        ensures
            !r.enforce_during_rest,
            r.last_relock_unix_secs == 0,
    {
        RestLockGuardState { enforce_during_rest: false, last_relock_unix_secs: 0 }
    }
}

} // verus!
