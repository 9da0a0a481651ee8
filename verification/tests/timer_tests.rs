use timer_lib::timer::{TickOutcome, TimerEngine, TimerPhase, TimerState};

#[test]
fn test_timer_state_display() {
    assert_eq!(TimerState::Idle.to_string(), "停止");
    assert_eq!(TimerState::Running.to_string(), "运行中");
    assert_eq!(TimerState::Paused.to_string(), "已暂停");
}

#[test]
fn test_set_interval() {
    let mut engine = TimerEngine::new();
    assert!(engine.set_interval(45).is_ok());
    assert!(engine.set_interval(0).is_err());
    assert!(engine.set_interval(2000).is_err());
}

#[test]
fn test_set_phase_interval() {
    let mut engine = TimerEngine::new();
    assert!(engine.set_phase_interval(TimerPhase::Rest, 5).is_ok());
    let rt = engine.get_runtime();
    assert_eq!(rt.phase, TimerPhase::Rest);
    assert_eq!(rt.total_seconds, 300);
    assert!(engine.set_phase_interval(TimerPhase::Work, 0).is_err());
}

#[test]
fn countdown_runs_out() {
    let mut engine = TimerEngine::new();
    engine.set_phase_interval(TimerPhase::Work, 1).unwrap();
    engine.start().unwrap();
    for _ in 0..59 {
        assert!(matches!(engine.tick(), TickOutcome::Updated(_)));
    }
    match engine.tick() {
        TickOutcome::Finished(rt) => {
            assert_eq!(rt.state, TimerState::Idle);
            assert_eq!(rt.remaining_seconds, 0);
        }
        _ => panic!("the last second must finish the countdown"),
    }
    assert!(matches!(engine.tick(), TickOutcome::Stopped));
}

#[test]
fn pause_then_resume_keeps_remaining() {
    let mut engine = TimerEngine::new();
    engine.start().unwrap();
    engine.tick();
    let before = engine.get_runtime().remaining_seconds;
    engine.pause().unwrap();
    assert!(matches!(engine.tick(), TickOutcome::Stopped));
    engine.resume().unwrap();
    assert_eq!(engine.get_runtime().remaining_seconds, before);
    assert_eq!(engine.get_runtime().state, TimerState::Running);
    assert_eq!(engine.pause().is_ok(), true);
    assert_eq!(engine.pause().unwrap_err(), "计时器未在运行");
}

#[test]
fn delay_extends_remaining_and_total() {
    let mut engine = TimerEngine::new();
    assert_eq!(engine.add_delay(5).unwrap_err(), "计时器未在运行");
    engine.start().unwrap();
    engine.add_delay(5).unwrap();
    let rt = engine.get_runtime();
    assert_eq!(rt.remaining_seconds, 1800 + 300);
    assert_eq!(rt.total_seconds, 1800 + 300);
}

#[test]
fn stop_resets_to_work() {
    let mut engine = TimerEngine::new();
    engine.set_phase_interval(TimerPhase::Rest, 2).unwrap();
    engine.start().unwrap();
    engine.tick();
    engine.stop();
    let rt = engine.get_runtime();
    assert_eq!(rt.state, TimerState::Idle);
    assert_eq!(rt.phase, TimerPhase::Work);
    assert_eq!(rt.remaining_seconds, 120);
}

#[test]
fn persist_and_restore_paused() {
    let mut engine = TimerEngine::new();
    engine.start().unwrap();
    engine.tick();
    engine.pause().unwrap();
    let saved = engine.to_runtime_state();
    assert_eq!(saved.timer_status, "Paused");
    assert_eq!(saved.cycle_phase, "Work");
    let restored = TimerEngine::from_runtime_state(&saved);
    assert_eq!(restored.get_runtime().state, TimerState::Paused);
    assert_eq!(restored.get_runtime().remaining_seconds, 1799);
}
