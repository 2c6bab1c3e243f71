use rmt::logger::{init_logger, set_log_level, LogLevel};

#[test]
fn logger_starts_at_info() {
    let logger = init_logger();
    assert_eq!(logger.level(), LogLevel::Info);
    assert!(logger.enabled(log::Level::Error));
    assert!(logger.enabled(log::Level::Warn));
    assert!(logger.enabled(log::Level::Info));
    assert!(!logger.enabled(log::Level::Debug));
    assert!(!logger.enabled(log::Level::Trace));
}

#[test]
fn silent_lets_nothing_through() {
    let mut logger = init_logger();
    set_log_level(&mut logger, LogLevel::Silent);
    for level in [
        log::Level::Error,
        log::Level::Warn,
        log::Level::Info,
        log::Level::Debug,
        log::Level::Trace,
    ] {
        assert!(!logger.enabled(level));
        assert_eq!(logger.line("t", level, "m"), None);
    }
}

#[test]
fn trace_lets_everything_through() {
    let mut logger = init_logger();
    set_log_level(&mut logger, LogLevel::Trace);
    for level in [
        log::Level::Error,
        log::Level::Warn,
        log::Level::Info,
        log::Level::Debug,
        log::Level::Trace,
    ] {
        assert!(logger.enabled(level));
    }
}

#[test]
fn levels_map_to_the_log_crate() {
    assert_eq!(LogLevel::Silent.try_into(), Err(()));
    assert_eq!(LogLevel::Error.try_into(), Ok(log::Level::Error));
    assert_eq!(LogLevel::Warning.try_into(), Ok(log::Level::Warn));
    assert_eq!(LogLevel::Info.try_into(), Ok(log::Level::Info));
    assert_eq!(LogLevel::Debug.try_into(), Ok(log::Level::Debug));
    assert_eq!(LogLevel::Trace.try_into(), Ok(log::Level::Trace));
}

#[test]
fn log_line_format() {
    let mut logger = init_logger();
    assert_eq!(
        logger.line("12:30:01 24/12", log::Level::Info, "Starting http server on 127.0.0.1:2020"),
        Some("12:30:01 24/12 [INFO] Starting http server on 127.0.0.1:2020".to_string())
    );
    assert_eq!(logger.line("t", log::Level::Error, "e"), Some("t [ERROR] e".to_string()));
    assert_eq!(logger.line("t", log::Level::Warn, ""), Some("t [WARN] ".to_string()));
    assert_eq!(logger.line("t", log::Level::Debug, "d"), None);
    set_log_level(&mut logger, LogLevel::Debug);
    assert_eq!(logger.line("t", log::Level::Debug, "d"), Some("t [DEBUG] d".to_string()));
    assert_eq!(logger.line("t", log::Level::Trace, "d"), None);
    set_log_level(&mut logger, LogLevel::Trace);
    assert_eq!(logger.line("", log::Level::Trace, "x"), Some(" [TRACE] x".to_string()));
}
