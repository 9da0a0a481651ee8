use timer_lib::schedule::ScheduleChecker;

#[test]
fn test_parse_time() {
    assert_eq!(ScheduleChecker::parse_time("09:00"), Some(540));
    assert_eq!(ScheduleChecker::parse_time("18:30"), Some(1110));
    assert_eq!(ScheduleChecker::parse_time("23:59"), Some(1439));
    assert_eq!(ScheduleChecker::parse_time("invalid"), None);
}

#[test]
fn test_weekday_check() {
    let allowed = vec![1, 2, 3, 4, 5];
    assert!(ScheduleChecker::check_weekday(1, &allowed));
    assert!(!ScheduleChecker::check_weekday(6, &allowed));
}

#[test]
fn parse_time_rejects_out_of_range() {
    assert_eq!(ScheduleChecker::parse_time("24:00"), None);
    assert_eq!(ScheduleChecker::parse_time("12:60"), None);
    assert_eq!(ScheduleChecker::parse_time("1:2:3"), None);
    assert_eq!(ScheduleChecker::parse_time("00:00"), Some(0));
}

#[test]
fn time_window_inclusive_and_overnight() {
    assert!(ScheduleChecker::check_time_range(540, "09:00", "18:00"));
    assert!(ScheduleChecker::check_time_range(1080, "09:00", "18:00"));
    assert!(!ScheduleChecker::check_time_range(1081, "09:00", "18:00"));
    assert!(ScheduleChecker::check_time_range(1380, "22:00", "06:00"));
    assert!(ScheduleChecker::check_time_range(300, "22:00", "06:00"));
    assert!(!ScheduleChecker::check_time_range(720, "22:00", "06:00"));
    assert!(ScheduleChecker::check_time_range(720, "bad", "06:00"));
}

#[test]
fn rules_combine_with_and_or() {
    let clock = timer_lib::clock::LocalClock { hour: 12, minute: 0, weekday: 6 };
    let workdays = vec![1, 2, 3, 4, 5];
    assert!(!ScheduleChecker::is_effective_at(&clock, true, "09:00", "18:00", true, &workdays, "AND"));
    assert!(ScheduleChecker::is_effective_at(&clock, true, "09:00", "18:00", true, &workdays, "OR"));
    assert!(ScheduleChecker::is_effective_at(&clock, false, "09:00", "10:00", false, &workdays, "AND"));
}
