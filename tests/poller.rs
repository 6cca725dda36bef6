use poll::config::Options;
use poll::error::{ConfigError, PollError};
use poll::poller::{format_report, Poller, Verdict};
use poll::render::PollResult;
use poll::timestamp::LocalTime;

fn options(command: &[&str]) -> Options {
    Options {
        command: command.iter().map(|s| s.to_string()).collect(),
        interval: None,
        exit_status: false,
        until_success: false,
        until_failure: false,
        use_shell: false,
        quiet: false,
        print_timestamp: false,
        timestamp_format: None,
        reaction_command: None,
    }
}

fn poller(o: Options) -> Poller {
    match Poller::from_options(o) {
        Ok(p) => p,
        Err(_) => panic!("configuration rejected"),
    }
}

fn status(success: bool, code: i32) -> PollResult {
    PollResult::Status { success, code: Some(code) }
}

fn changed_text(v: Verdict) -> Option<Vec<u8>> {
    match v {
        Verdict::Changed(t) => Some(t),
        _ => None,
    }
}

fn line(p: &Poller, text: &[u8]) -> Vec<u8> {
    p.report(text).ok().unwrap().unwrap()
}

#[test]
fn exit_status_true_prints_success() {
    let mut o = options(&["true"]);
    o.exit_status = true;
    let mut p = poller(o);
    let text = changed_text(p.evaluate(&status(true, 0))).unwrap();
    assert_eq!(line(&p, &text), b"Success\n".to_vec());
}

#[test]
fn exit_status_false_prints_failed_one() {
    let mut o = options(&["false"]);
    o.exit_status = true;
    let mut p = poller(o);
    let text = changed_text(p.evaluate(&status(false, 1))).unwrap();
    assert_eq!(line(&p, &text), b"Failed (1)\n".to_vec());
}

#[test]
fn alternating_output_reported_on_change() {
    let mut p = poller(options(&["cmd"]));
    let mut printed: Vec<Vec<u8>> = Vec::new();
    for out in [&b"a\n"[..], b"a\n", b"b\n"] {
        if let Some(text) = changed_text(p.evaluate(&PollResult::Output(out.to_vec()))) {
            printed.push(line(&p, &text));
        } else {
            printed.push(Vec::new());
        }
    }
    assert_eq!(printed, vec![b"a\n".to_vec(), Vec::new(), b"b\n".to_vec()]);
}

#[test]
fn until_success_after_two_failures() {
    let mut o = options(&["cmd"]);
    o.exit_status = true;
    o.until_success = true;
    let mut p = poller(o);
    let runs = [status(false, 1), status(false, 1), status(true, 0), status(false, 2)];
    let mut polls = 0;
    let mut stopped = false;
    for r in runs.iter() {
        polls += 1;
        if let Verdict::Stop = p.evaluate(r) {
            stopped = true;
            break;
        }
    }
    assert!(stopped);
    assert_eq!(polls, 3);
}

#[test]
fn until_failure_stops_on_first_failure() {
    let mut o = options(&["cmd"]);
    o.exit_status = true;
    o.until_failure = true;
    let mut p = poller(o);
    assert!(matches!(p.evaluate(&status(true, 0)), Verdict::Changed(_)));
    assert!(matches!(p.evaluate(&status(true, 0)), Verdict::Unchanged));
    assert!(matches!(p.evaluate(&status(false, 3)), Verdict::Stop));
}

#[test]
fn stop_does_not_need_a_change() {
    let mut o = options(&["cmd"]);
    o.exit_status = true;
    o.until_failure = true;
    let mut p = poller(o);
    assert!(matches!(p.evaluate(&PollResult::Status { success: false, code: None }), Verdict::Stop));
}

#[test]
fn no_stop_condition_keeps_polling() {
    let mut o = options(&["cmd"]);
    o.exit_status = true;
    let mut p = poller(o);
    assert!(matches!(p.evaluate(&status(false, 1)), Verdict::Changed(_)));
    assert!(matches!(p.evaluate(&status(true, 0)), Verdict::Changed(_)));
    assert!(matches!(p.evaluate(&status(true, 0)), Verdict::Unchanged));
}

#[test]
fn both_stop_conditions_rejected_at_start() {
    let mut o = options(&["cmd"]);
    o.exit_status = true;
    o.until_success = true;
    o.until_failure = true;
    assert!(matches!(
        Poller::from_options(o),
        Err(PollError::Config(ConfigError::ConflictingStopConditions))
    ));
}

#[test]
fn quiet_prints_nothing() {
    let mut o = options(&["cmd"]);
    o.quiet = true;
    let mut p = poller(o);
    let text = changed_text(p.evaluate(&PollResult::Output(b"x".to_vec()))).unwrap();
    assert_eq!(text, b"x".to_vec());
    assert_eq!(p.report(&text).ok().unwrap(), None);
}

#[test]
fn report_gets_trailing_newline() {
    let p = poller(options(&["cmd"]));
    assert_eq!(line(&p, b"no newline"), b"no newline\n".to_vec());
    assert_eq!(line(&p, b"newline\n"), b"newline\n".to_vec());
    assert_eq!(line(&p, b""), b"\n".to_vec());
}

#[test]
fn report_with_timestamp() {
    let mut o = options(&["cmd"]);
    o.print_timestamp = true;
    o.timestamp_format = Some("[%%]".to_string());
    let p = poller(o);
    assert_eq!(line(&p, b"x"), b"[%] - x\n".to_vec());
}

#[test]
fn report_with_current_year() {
    let mut o = options(&["cmd"]);
    o.print_timestamp = true;
    o.timestamp_format = Some("%Y".to_string());
    let p = poller(o);
    let l = line(&p, b"x");
    assert!(l.ends_with(b" - x\n"));
    assert!(l[..l.len() - 5].iter().all(|b| b.is_ascii_digit()));
}

#[test]
fn report_at_given_time() {
    let t = LocalTime {
        second: 5,
        minute: 4,
        hour: 3,
        month_day: 2,
        month: 0,
        year: 120,
        week_day: 4,
        year_day: 1,
        dst: 0,
        utc_offset: 0,
        nanosecond: 0,
    };
    let mut o = options(&["cmd"]);
    o.print_timestamp = true;
    let p = poller(o);
    assert_eq!(p.report_at(b"x", &t), Ok(Some(b"2020-01-02 03:04:05 - x\n".to_vec())));
    let mut far = t;
    far.year = i32::MAX;
    assert_eq!(p.report_at(b"x", &far), Err(PollError::TimestampOutOfRange));
}

#[test]
fn options_reach_the_loop() {
    let mut o = options(&["a", "b"]);
    o.quiet = true;
    o.interval = Some("3".to_string());
    let p = poller(o);
    assert!(p.config().quiet());
    assert_eq!(p.config().interval_secs(), 3);
    assert_eq!(p.config().command_line(), vec!["a".to_string(), "b".to_string()]);
}

#[test]
fn bad_timestamp_format_is_an_error() {
    let mut o = options(&["cmd"]);
    o.print_timestamp = true;
    o.timestamp_format = Some("%Q".to_string());
    let p = poller(o);
    assert_eq!(p.report(b"x"), Err(PollError::TimestampFormat));
}

#[test]
fn formatted_report_line() {
    assert_eq!(format_report(b"out", Some("12:00")), b"12:00 - out\n".to_vec());
    assert_eq!(format_report(b"out\n", None), b"out\n".to_vec());
}

#[test]
fn poller_timer_uses_interval_in_millis() {
    let mut o = options(&["cmd"]);
    o.interval = Some("2".to_string());
    let mut p = poller(o);
    assert_eq!(p.wait(10), 0);
    assert_eq!(p.wait(510), 1500);
    p.woke(2030);
    assert_eq!(p.wait(2530), 1500);
    assert_eq!(p.config().interval_secs(), 2);
}
