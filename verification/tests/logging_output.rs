use audio_recorder_manager::logging::{
    is_expired_log, log_cutoff_secs, log_level_from_lowercase, parse_log_level,
    parse_log_level_from_args, parse_log_output_from_args, LogLevel,
};
use audio_recorder_manager::output::UserOutput;

#[test]
fn test_parse_log_level() {
    assert_eq!(parse_log_level("trace"), Some(LogLevel::Trace));
    assert_eq!(parse_log_level("debug"), Some(LogLevel::Debug));
    assert_eq!(parse_log_level("info"), Some(LogLevel::Info));
    assert_eq!(parse_log_level("warn"), Some(LogLevel::Warn));
    assert_eq!(parse_log_level("warning"), Some(LogLevel::Warn));
    assert_eq!(parse_log_level("error"), Some(LogLevel::Error));
    assert_eq!(parse_log_level("invalid"), None);
}

#[test]
fn log_level_ignores_case() {
    assert_eq!(parse_log_level("TRACE"), Some(LogLevel::Trace));
    assert_eq!(parse_log_level("Warning"), Some(LogLevel::Warn));
    assert_eq!(log_level_from_lowercase("ERROR"), None);
    assert_eq!(log_level_from_lowercase("error"), Some(LogLevel::Error));
}

fn args(a: &[&str]) -> Vec<String> {
    a.iter().map(|s| s.to_string()).collect()
}

#[test]
fn log_level_from_command_line() {
    assert_eq!(parse_log_level_from_args(&args(&["cli", "--log-level", "debug"])), Some(LogLevel::Debug));
    assert_eq!(parse_log_level_from_args(&args(&["cli", "-l", "bogus", "-l", "ERROR"])), Some(LogLevel::Error));
    assert_eq!(parse_log_level_from_args(&args(&["cli", "--log-level"])), None);
    assert_eq!(parse_log_level_from_args(&args(&["cli", "record"])), None);
}

#[test]
fn log_outputs_from_command_line() {
    assert_eq!(parse_log_output_from_args(&args(&["cli"])), (true, true));
    assert_eq!(parse_log_output_from_args(&args(&["cli", "--no-log-file"])), (false, true));
    assert_eq!(parse_log_output_from_args(&args(&["--no-log-terminal", "x", "--no-log-file"])), (false, false));
}

#[test]
fn log_retention() {
    let now = 1_700_000_000u64;
    assert_eq!(log_cutoff_secs(now, None), now - 7 * 86400);
    assert_eq!(log_cutoff_secs(now, Some(30)), now - 30 * 86400);
    let cutoff = log_cutoff_secs(now, Some(1));
    assert!(is_expired_log(cutoff - 1, cutoff));
    assert!(!is_expired_log(cutoff, cutoff));
}

#[test]
fn test_user_output_creation() {
    let output = UserOutput::new(UserOutput::supports_color(false, true, false, false));
    assert!(!output.quiet);

    let quiet_output = UserOutput::quiet();
    assert!(quiet_output.quiet);

    let color_output = UserOutput::with_color(true);
    assert!(color_output.use_color);
}

#[test]
fn colour_support_from_environment() {
    assert!(!UserOutput::supports_color(true, true, true, true));
    assert!(UserOutput::supports_color(false, false, true, false));
    assert!(UserOutput::supports_color(false, false, false, true));
    assert!(!UserOutput::supports_color(false, false, false, false));
}

#[test]
fn test_quiet_mode() {
    let output = UserOutput::quiet();
    assert_eq!(output.info("test"), None);
    assert_eq!(output.success("test"), None);
    assert_eq!(output.warning("test"), None);
    assert_eq!(output.progress(1, 4, "test"), None);
    assert_eq!(output.prefixed("P", "test"), None);
    assert_eq!(output.status("test"), None);
    assert_eq!(output.clear_status(), None);
    assert_eq!(output.error("test error"), "[Error] test error");
}

#[test]
fn plain_and_coloured_lines() {
    let plain = UserOutput::with_color(false);
    assert_eq!(plain.info("hi").as_deref(), Some("hi"));
    assert_eq!(plain.success("ok").as_deref(), Some("ok"));
    assert_eq!(plain.warning("w").as_deref(), Some("[Warning] w"));
    assert_eq!(plain.progress(1, 4, "Reading file...").as_deref(), Some("[1/4] Reading file..."));
    assert_eq!(plain.prefixed("Recovery", "go").as_deref(), Some("[Recovery] go"));
    assert_eq!(plain.status("50%").as_deref(), Some("\r50%"));
    assert_eq!(plain.clear_status().as_deref(), Some("\r\x1b[K"));
    let color = UserOutput::with_color(true);
    assert_eq!(color.success("ok").as_deref(), Some("\x1b[32mok\x1b[0m"));
    assert_eq!(color.warning("w").as_deref(), Some("\x1b[33m[Warning]\x1b[0m w"));
    assert_eq!(color.error("e"), "\x1b[31m[Error]\x1b[0m e");
    assert_eq!(color.progress(2, 3, "m").as_deref(), Some("\x1b[36m[2/3]\x1b[0m m"));
    assert_eq!(color.prefixed("P", "m").as_deref(), Some("\x1b[36m[P]\x1b[0m m"));
}
