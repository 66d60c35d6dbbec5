use evox2_control::logger::{log_line, rotated_path, should_rotate, LogLevel, LOG_ROTATE_BYTES};

#[test]
fn rotate_threshold_is_two_megabytes() {
    assert_eq!(LOG_ROTATE_BYTES, 2 * 1024 * 1024);
}

#[test]
fn rotation_starts_at_the_threshold() {
    assert!(!should_rotate(None));
    assert!(!should_rotate(Some(LOG_ROTATE_BYTES - 1)));
    assert!(should_rotate(Some(LOG_ROTATE_BYTES)));
    assert_eq!(rotated_path(r"C:\logs\server.log"), r"C:\logs\server.log.1");
}

#[test]
fn log_lines_carry_time_and_level() {
    assert_eq!(
        log_line("2024-01-02 03:04:05 UTC", LogLevel::Warn, "hot"),
        "[2024-01-02 03:04:05 UTC] WARN: hot"
    );
    assert_eq!(LogLevel::Debug.name(), "DEBUG");
}
