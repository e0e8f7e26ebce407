use blaze::cmdline::{parse_cmdline, LogLevel};

#[test]
fn log_level_argument_sets_level() {
    assert_eq!(parse_cmdline(b"LOG_LEVEL=WARN", LogLevel::Trace), LogLevel::Warn);
    assert_eq!(parse_cmdline(b"quiet  LOG_LEVEL=ERROR root=/dev/sda", LogLevel::Trace), LogLevel::Error);
    assert_eq!(parse_cmdline(b"\tLOG_LEVEL=FATAL\n", LogLevel::Info), LogLevel::Fatal);
}

#[test]
fn last_valid_log_level_wins() {
    assert_eq!(parse_cmdline(b"LOG_LEVEL=INFO LOG_LEVEL=TRACE", LogLevel::Fatal), LogLevel::Trace);
    assert_eq!(parse_cmdline(b"LOG_LEVEL=INFO LOG_LEVEL=LOUD", LogLevel::Fatal), LogLevel::Info);
}

#[test]
fn other_arguments_leave_level() {
    assert_eq!(parse_cmdline(b"", LogLevel::Info), LogLevel::Info);
    assert_eq!(parse_cmdline(b"LOG_LEVEL LOG_LEVEL= log_level=WARN LOG_LEVELS=WARN", LogLevel::Info), LogLevel::Info);
}
