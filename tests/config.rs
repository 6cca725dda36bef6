use poll::config::{parse_interval, Config, Mode, Options, MAX_INTERVAL_SECS};
use poll::error::ConfigError;

fn options(command: &[&str]) -> Options {
    Options {
        command: command.iter().map(|s| s.to_string()).collect(),
        interval: None,
        exit_status: false,
        until_success: false,
        until_failure: false,
        use_shell: false,
        quiet: false,
        print_timestamp: false,
        timestamp_format: None,
        reaction_command: None,
    }
}

fn error_of(o: Options) -> ConfigError {
    match Config::new(o) {
        Ok(_) => panic!("configuration accepted"),
        Err(e) => e,
    }
}

#[test]
fn defaults() {
    let c = Config::new(options(&["date"])).ok().unwrap();
    assert_eq!(c.interval_secs(), 1);
    assert_eq!(c.mode(), Mode::StdoutCapture);
    assert_eq!(c.timestamp_format(), "%F %H:%M:%S");
    assert!(!c.quiet());
    assert!(!c.print_timestamp());
    assert!(c.reaction_command().is_none());
    assert_eq!(c.command_line(), vec!["date".to_string()]);
}

#[test]
fn given_values_kept() {
    let mut o = options(&["ls", "-l", "/tmp"]);
    o.interval = Some("7".to_string());
    o.exit_status = true;
    o.until_failure = true;
    o.quiet = true;
    o.print_timestamp = true;
    o.timestamp_format = Some("%T".to_string());
    o.reaction_command = Some("cat".to_string());
    let c = Config::new(o).ok().unwrap();
    assert_eq!(c.interval_secs(), 7);
    assert_eq!(c.mode(), Mode::ExitStatus);
    assert!(c.until_failure_set());
    assert!(!c.until_success_set());
    assert!(c.quiet());
    assert!(c.print_timestamp());
    assert_eq!(c.timestamp_format(), "%T");
    assert_eq!(c.reaction_command(), Some("cat"));
    assert_eq!(c.command_line(), vec!["ls".to_string(), "-l".to_string(), "/tmp".to_string()]);
}

#[test]
fn shell_wraps_first_argument() {
    let mut o = options(&["echo hi | wc -c"]);
    o.use_shell = true;
    let c = Config::new(o).ok().unwrap();
    assert_eq!(
        c.command_line(),
        vec!["sh".to_string(), "-c".to_string(), "echo hi | wc -c".to_string()]
    );
}

#[test]
fn missing_command_rejected() {
    assert_eq!(error_of(options(&[])), ConfigError::MissingCommand);
}

#[test]
fn both_stop_conditions_rejected() {
    let mut o = options(&["true"]);
    o.exit_status = true;
    o.until_success = true;
    o.until_failure = true;
    assert_eq!(error_of(o), ConfigError::ConflictingStopConditions);
}

#[test]
fn stop_condition_needs_exit_status() {
    let mut o = options(&["true"]);
    o.until_success = true;
    assert_eq!(error_of(o), ConfigError::StopConditionNeedsExitStatus);
    let mut o = options(&["true"]);
    o.until_failure = true;
    assert_eq!(error_of(o), ConfigError::StopConditionNeedsExitStatus);
}

#[test]
fn format_needs_timestamp() {
    let mut o = options(&["true"]);
    o.timestamp_format = Some("%T".to_string());
    assert_eq!(error_of(o), ConfigError::FormatNeedsTimestamp);
}

#[test]
fn non_numeric_interval_rejected() {
    let mut o = options(&["true"]);
    o.interval = Some("1.5".to_string());
    assert_eq!(error_of(o), ConfigError::InvalidInterval);
}

#[test]
fn interval_parsing() {
    assert_eq!(parse_interval("5"), Some(5));
    assert_eq!(parse_interval("+5"), Some(5));
    assert_eq!(parse_interval("0"), Some(0));
    assert_eq!(parse_interval("007"), Some(7));
    assert_eq!(parse_interval(""), None);
    assert_eq!(parse_interval("+"), None);
    assert_eq!(parse_interval("-1"), None);
    assert_eq!(parse_interval(" 1"), None);
    assert_eq!(parse_interval("1s"), None);
    assert_eq!(parse_interval("18446744073709551"), Some(MAX_INTERVAL_SECS));
    assert_eq!(parse_interval("18446744073709552"), None);
    assert_eq!(parse_interval("99999999999999999999999"), None);
}
