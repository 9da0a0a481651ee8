use timer_lib::logger::{needs_rotation, rotated_file_name, LOG_MAX_FILE_BYTES};
use timer_lib::logger::{
    file_line, level_from_name, log_error, log_operation, log_warn, plan_log_cleanup, LogFileInfo, LogLevel,
};

#[test]
fn level_names() {
    assert_eq!(level_from_name("trace"), LogLevel::Trace);
    assert_eq!(level_from_name("error"), LogLevel::Error);
    assert_eq!(level_from_name("verbose"), LogLevel::Info);
}

#[test]
fn log_line_texts() {
    let op = log_operation("开始计时", "30分钟");
    assert_eq!(op.level, LogLevel::Info);
    assert_eq!(op.message, "[操作] 开始计时: 30分钟");
    assert_eq!(log_error("配置", "读取失败").message, "[错误] 配置: 读取失败");
    assert_eq!(log_warn("a", "b").level, LogLevel::Warn);
    assert_eq!(file_line("2024-01-01 10:00:00", "INFO", "unit test"), "[2024-01-01 10:00:00] [INFO] unit test");
}

#[test]
fn cleanup_removes_expired_and_oldest_over_limit() {
    let day: u64 = 24 * 60 * 60 * 1000;
    let mib: u64 = 1024 * 1024;
    let files = vec![
        LogFileInfo { age_millis: 9 * day, size: 10 * mib },
        LogFileInfo { age_millis: 3 * day, size: 60 * mib },
        LogFileInfo { age_millis: 2 * day, size: 40 * mib },
        LogFileInfo { age_millis: day, size: 5 * mib },
    ];
    assert_eq!(plan_log_cleanup(&files), vec![true, true, false, false]);

    let small = vec![
        LogFileInfo { age_millis: 8 * day, size: mib },
        LogFileInfo { age_millis: day, size: mib },
    ];
    assert_eq!(plan_log_cleanup(&small), vec![true, false]);
    assert_eq!(plan_log_cleanup(&Vec::new()), Vec::<bool>::new());
}

#[test]
fn cleanup_counts_only_files_still_present() {
    let day: u64 = 24 * 60 * 60 * 1000;
    let mib: u64 = 1024 * 1024;
    let files = vec![
        LogFileInfo { age_millis: 9 * day, size: 60 * mib },
        LogFileInfo { age_millis: 2 * day, size: 50 * mib },
        LogFileInfo { age_millis: day, size: 10 * mib },
    ];
    assert_eq!(plan_log_cleanup(&files), vec![true, false, false]);
}

#[test]
fn log_file_rotates_at_ten_mib() {
    assert!(!needs_rotation(0, 100));
    assert!(!needs_rotation(LOG_MAX_FILE_BYTES - 100, 100));
    assert!(needs_rotation(LOG_MAX_FILE_BYTES - 99, 100));
    assert!(needs_rotation(5, u64::MAX));
    assert_eq!(rotated_file_name("20240101-100000"), "combined-20240101-100000.log");
}
