use mouse_smoother::logger::{get_log_level, set_log_level, should_log, LogContext, LogLevel};

#[test]
fn parses_every_level() {
    assert_eq!(LogLevel::from_str("error"), Some(LogLevel::Error));
    assert_eq!(LogLevel::from_str("warn"), Some(LogLevel::Warn));
    assert_eq!(LogLevel::from_str("warning"), Some(LogLevel::Warn));
    assert_eq!(LogLevel::from_str("info"), Some(LogLevel::Info));
    assert_eq!(LogLevel::from_str("debug"), Some(LogLevel::Debug));
    assert_eq!(LogLevel::from_str("trace"), Some(LogLevel::Trace));
}

#[test]
fn parsing_ignores_ascii_case() {
    assert_eq!(LogLevel::from_str("ERROR"), Some(LogLevel::Error));
    assert_eq!(LogLevel::from_str("Warn"), Some(LogLevel::Warn));
    assert_eq!(LogLevel::from_str("InFo"), Some(LogLevel::Info));
    assert_eq!(LogLevel::from_str("DEBUG"), Some(LogLevel::Debug));
    assert_eq!(LogLevel::from_str("Trace"), Some(LogLevel::Trace));
}

#[test]
fn unknown_names_do_not_parse() {
    assert_eq!(LogLevel::from_str(""), None);
    assert_eq!(LogLevel::from_str("verbose"), None);
    assert_eq!(LogLevel::from_str("warned"), None);
    assert_eq!(LogLevel::from_str("err"), None);
}

#[test]
fn names() {
    assert_eq!(LogLevel::Error.name(), "ERROR");
    assert_eq!(LogLevel::Warn.name(), "WARN");
    assert_eq!(LogLevel::Info.name(), "INFO");
    assert_eq!(LogLevel::Debug.name(), "DEBUG");
    assert_eq!(LogLevel::Trace.name(), "TRACE");
}

#[test]
fn set_then_get_round_trips() {
    let mut ctx = LogContext::new();
    for level in [
        LogLevel::Error,
        LogLevel::Warn,
        LogLevel::Info,
        LogLevel::Debug,
        LogLevel::Trace,
    ] {
        set_log_level(&mut ctx, level);
        assert_eq!(get_log_level(&ctx), level);
    }
}

#[test]
fn default_context_is_info() {
    let ctx = LogContext::new();
    assert_eq!(get_log_level(&ctx), LogLevel::Info);
}

#[test]
fn out_of_range_code_reads_as_info() {
    let ctx = LogContext { level_code: 200 };
    assert_eq!(get_log_level(&ctx), LogLevel::Info);
}

#[test]
fn should_log_compares_severity() {
    let mut ctx = LogContext::new();
    // At the default level Info, info and worse are logged.
    assert!(should_log(&ctx, LogLevel::Error));
    assert!(should_log(&ctx, LogLevel::Warn));
    assert!(should_log(&ctx, LogLevel::Info));
    assert!(!should_log(&ctx, LogLevel::Debug));
    assert!(!should_log(&ctx, LogLevel::Trace));

    set_log_level(&mut ctx, LogLevel::Error);
    assert!(should_log(&ctx, LogLevel::Error));
    assert!(!should_log(&ctx, LogLevel::Warn));

    set_log_level(&mut ctx, LogLevel::Trace);
    assert!(should_log(&ctx, LogLevel::Trace));
    assert!(should_log(&ctx, LogLevel::Debug));
}
