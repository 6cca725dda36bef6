//! The decisions of the polling loop. The caller sleeps for what `wait`
//! returns, runs the command, hands its outcome to `evaluate`, prints what
//! `report` returns and feeds a changed result to the reaction command.
use vstd::prelude::*;
use vstd::utf8::encode_utf8;

use crate::config::{Config, ConfigView, Options, options_config, options_error};
use crate::detector::{ChangeDetector, after_check, is_change, sha1_of};
use crate::error::PollError;
use crate::render::{PollResult, newline_terminated, push_all, push_terminated, render, rendered};
use crate::timer::{Timer, sleep_before_poll};
use crate::timestamp::{LocalTime, has_no_conversion, local_now, timestamp_at, valid_time_format};

verus! {

/// What the loop does with one poll's outcome.
pub enum Verdict {
    /// A stop condition is met: the loop ends without an error.
    Stop,
    /// The result matches the last reported one: nothing is reported.
    Unchanged,
    /// The result is new: it is reported, with its rendered text.
    Changed(Vec<u8>),
}

/// Whether the outcome `r` ends a loop configured as `c`.
pub open spec fn stops(c: ConfigView, r: PollResult) -> bool {
    match r {
        PollResult::Status { success, .. } => (success && c.until_success) || (!success
            && c.until_failure),
        PollResult::Output(_) => false,
    }
}

/// The separator between a timestamp and the report: a space, a dash and a
/// space.
pub open spec fn separator() -> Seq<u8> {
    seq![32, 45, 32]
}

/// The line printed for a rendered result, after an optional timestamp.
pub open spec fn report_line(rendered: Seq<u8>, stamp: Option<Seq<char>>) -> Seq<u8> {
    match stamp {
        Some(t) => encode_utf8(t) + separator() + newline_terminated(rendered),
        None => newline_terminated(rendered),
    }
}

/// The line printed for `rendered`, after the timestamp `stamp` if one is
/// given: the timestamp and ` - `, then the text, with a newline appended
/// unless it already ends with one.
pub fn format_report(rendered: &[u8], stamp: Option<&str>) -> (line: Vec<u8>)
    ensures
        line@ == report_line(
            rendered@,
            match stamp {
                Some(t) => Some(t@),
                None => None,
            },
        ),
{
    let mut line: Vec<u8> = Vec::new();
    match stamp {
        Some(t) => {
            push_all(t.as_bytes(), &mut line);
            line.push(32);
            line.push(45);
            line.push(32);
            push_terminated(rendered, &mut line);
            assert(line@ =~= encode_utf8(t@) + separator() + newline_terminated(rendered@));
        },
        None => {
            push_terminated(rendered, &mut line);
            assert(line@ =~= newline_terminated(rendered@));
        },
    }
    line
}

/// The state of a polling loop: its configuration, its timer and the
/// fingerprint of the last reported result.
pub struct Poller {
    config: Config,
    timer: Timer,
    detector: ChangeDetector,
}

impl Poller {
    /// The loop's configuration.
    pub closed spec fn config_view(&self) -> ConfigView {
        self.config@
    }

    /// The fingerprint of the last reported result.
    pub closed spec fn last_reported(&self) -> Option<Seq<u8>> {
        self.detector@
    }

    /// The timer's interval, in milliseconds.
    pub closed spec fn interval(&self) -> u64 {
        self.timer.interval()
    }

    /// The start of the last poll.
    pub closed spec fn baseline(&self) -> Option<u64> {
        self.timer.baseline()
    }

    /// A loop that has not polled yet.
    pub fn new(config: Config) -> (p: Poller)
        requires
            config@.valid(),
        ensures
            p.config_view() == config@,
            p.last_reported() is None,
            p.interval() == config@.interval_secs * 1000,
            p.baseline() is None,
    {
        let interval_ms: u64 = config.interval_secs() * 1000;
        Poller { config, timer: Timer::new(interval_ms), detector: ChangeDetector::new() }
    }

    /// Checks `options` and builds a loop for them.
    pub fn from_options(options: Options) -> (r: Result<Poller, PollError>)
        ensures
            match options_error(options) {
                Some(e) => r == Err::<Poller, PollError>(PollError::Config(e)),
                None => r is Ok,
            },
            r is Ok ==> r->Ok_0.config_view() == options_config(options),
            r is Ok ==> r->Ok_0.config_view().valid() && r->Ok_0.last_reported() is None
                && r->Ok_0.baseline() is None && r->Ok_0.interval()
                == r->Ok_0.config_view().interval_secs * 1000,
    {
        match Config::new(options) {
            Ok(config) => Ok(Poller::new(config)),
            Err(e) => Err(PollError::Config(e)),
        }
    }

    /// The loop's configuration.
    pub fn config(&self) -> (r: &Config)
        ensures
            r@ == self.config_view(),
    {
        &self.config
    }

    /// Starts the wait before a poll at clock reading `now_ms`, in
    /// milliseconds. Returns how long the caller sleeps before it runs the
    /// command.
    pub fn wait(&mut self, now_ms: u64) -> (sleep_ms: u64)
        ensures
            sleep_ms == sleep_before_poll(old(self).interval(), old(self).baseline(), now_ms),
            final(self).baseline() == Some(now_ms),
            final(self).interval() == old(self).interval(),
            final(self).config_view() == old(self).config_view(),
            final(self).last_reported() == old(self).last_reported(),
    {
        self.timer.wait(now_ms)
    }

    /// Records the clock reading `now_ms`, taken after the sleep that `wait`
    /// asked for, as the start of the poll.
    pub fn woke(&mut self, now_ms: u64)
        ensures
            final(self).baseline() == Some(now_ms),
            final(self).interval() == old(self).interval(),
            final(self).config_view() == old(self).config_view(),
            final(self).last_reported() == old(self).last_reported(),
    {
        self.timer.woke(now_ms)
    }

    /// Judges one poll's outcome. A met stop condition ends the loop whether
    /// or not the result changed; otherwise the rendered result is reported
    /// exactly when its fingerprint differs from the last reported one.
    pub fn evaluate(&mut self, result: &PollResult) -> (v: Verdict)
        ensures
            final(self).config_view() == old(self).config_view(),
            final(self).interval() == old(self).interval(),
            final(self).baseline() == old(self).baseline(),
            stops(old(self).config_view(), *result) ==> v is Stop && final(self).last_reported()
                == old(self).last_reported(),
            !stops(old(self).config_view(), *result) ==> {
                let fp = sha1_of(rendered(*result));
                &&& final(self).last_reported() == after_check(old(self).last_reported(), fp)
                &&& if is_change(old(self).last_reported(), fp) {
                    v is Changed && v->Changed_0@ == rendered(*result)
                } else {
                    v is Unchanged
                }
            },
    {
        if let PollResult::Status { success, .. } = result {
            if *success && self.config.until_success_set() {
                return Verdict::Stop;
            }
            if !*success && self.config.until_failure_set() {
                return Verdict::Stop;
            }
        }
        let text = render(result);
        if self.detector.check(text.as_slice()) {
            Verdict::Changed(text)
        } else {
            Verdict::Unchanged
        }
    }

    /// The line to print for a changed result: none when quiet, else the
    /// rendered text, newline-terminated, after the current local time and
    /// ` - ` when timestamps are asked for.
    pub fn report(&self, rendered: &[u8]) -> (r: Result<Option<Vec<u8>>, PollError>)
        ensures
            self.config_view().quiet ==> r == Ok::<Option<Vec<u8>>, PollError>(None),
            !self.config_view().quiet && !self.config_view().print_timestamp ==> r is Ok
                && r->Ok_0 is Some && r->Ok_0->0@ == report_line(rendered@, None),
            !self.config_view().quiet && self.config_view().print_timestamp ==> {
                &&& r is Ok ==> r->Ok_0 is Some && exists|t: Seq<char>|
                    r->Ok_0->0@ == report_line(rendered@, Some(t))
                &&& !valid_time_format(self.config_view().timestamp_format) ==> r is Err
                &&& r == Err::<Option<Vec<u8>>, PollError>(PollError::TimestampFormat)
                    ==> !valid_time_format(self.config_view().timestamp_format)
                &&& r is Err ==> r == Err::<Option<Vec<u8>>, PollError>(PollError::TimestampFormat)
                    || r == Err::<Option<Vec<u8>>, PollError>(PollError::TimestampOutOfRange)
            },
    {
        if self.config.quiet() {
            return Ok(None);
        }
        if !self.config.print_timestamp() {
            return Ok(Some(format_report(rendered, None)));
        }
        let now = local_now();
        self.report_at(rendered, &now)
    }

    /// The line to print for a changed result when the local time is `now`:
    /// none when quiet, else the rendered text, newline-terminated, after
    /// `now` written in the timestamp format and ` - ` when timestamps are
    /// asked for. A time too close to the limits of `i32` gives
    /// `TimestampOutOfRange`, else a format that is not valid gives
    /// `TimestampFormat`.
    pub fn report_at(&self, rendered: &[u8], now: &LocalTime) -> (r: Result<
        Option<Vec<u8>>,
        PollError,
    >)
        requires
            now.in_calendar_range(),
        ensures
            self.config_view().quiet ==> r == Ok::<Option<Vec<u8>>, PollError>(None),
            !self.config_view().quiet && !self.config_view().print_timestamp ==> r is Ok
                && r->Ok_0 is Some && r->Ok_0->0@ == report_line(rendered@, None),
            !self.config_view().quiet && self.config_view().print_timestamp ==> {
                let format = self.config_view().timestamp_format;
                &&& !now.formattable() ==> r == Err::<Option<Vec<u8>>, PollError>(
                    PollError::TimestampOutOfRange,
                )
                &&& now.formattable() && !valid_time_format(format) ==> r == Err::<
                    Option<Vec<u8>>,
                    PollError,
                >(PollError::TimestampFormat)
                &&& now.formattable() && valid_time_format(format) ==> r is Ok && r->Ok_0 is Some
                    && exists|t: Seq<char>| r->Ok_0->0@ == report_line(rendered@, Some(t))
                &&& now.formattable() && has_no_conversion(format) ==> r is Ok && r->Ok_0 is Some
                    && r->Ok_0->0@ == report_line(rendered@, Some(format))
            },
    {
        if self.config.quiet() {
            return Ok(None);
        }
        if !self.config.print_timestamp() {
            return Ok(Some(format_report(rendered, None)));
        }
        match timestamp_at(self.config.timestamp_format(), now) {
            Ok(stamp) => {
                let line = format_report(rendered, Some(stamp.as_str()));
                assert(line@ == report_line(rendered@, Some(stamp@)));
                Ok(Some(line))
            },
            Err(e) => Err(e),
        }
    }
}

/// In a loop that stops on success, a run ends the loop exactly when it
/// succeeded, and in one that stops on failure exactly when it failed,
/// whatever was reported before; without a stop condition no run ends it.
pub proof fn lemma_stop_on_outcome(c: ConfigView, success: bool, code: Option<i32>)
    requires
        c.valid(),
    ensures
        c.until_success ==> (stops(c, PollResult::Status { success, code }) <==> success),
        c.until_failure ==> (stops(c, PollResult::Status { success, code }) <==> !success),
        !c.until_success && !c.until_failure ==> !stops(c, PollResult::Status { success, code }),
{
}

/// Asking to stop both on success and on failure is rejected before the
/// loop starts.
pub proof fn lemma_both_stop_conditions_rejected(o: Options)
    requires
        o.until_success,
        o.until_failure,
    ensures
        options_error(o) is Some,
{
}

} // verus!
