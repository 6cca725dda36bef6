//! Local time, and its formatting with a strftime-style format.
use vstd::prelude::*;

use crate::error::PollError;

verus! {

/// The error that `time` reports for a format it rejects.
#[verifier::external_type_specification]
#[verifier::external_body]
pub struct ExTimeParseError(time::ParseError);

/// A calendar date and time broken down into its components, as the C
/// library's `struct tm` holds it.
#[derive(Clone, Copy, Debug, PartialEq, Eq, Structural)]
pub struct LocalTime {
    /// Seconds after the minute, 0 to 60.
    pub second: i32,
    /// Minutes after the hour, 0 to 59.
    pub minute: i32,
    /// Hours after midnight, 0 to 23.
    pub hour: i32,
    /// Day of the month, 1 to 31.
    pub month_day: i32,
    /// Months since January, 0 to 11.
    pub month: i32,
    /// Years since 1900.
    pub year: i32,
    /// Days since Sunday, 0 to 6.
    pub week_day: i32,
    /// Days since January 1, 0 to 365.
    pub year_day: i32,
    /// Positive while daylight saving time is in effect, zero when it is
    /// not, negative when that is unknown.
    pub dst: i32,
    /// Seconds east of UTC.
    pub utc_offset: i32,
    /// Nanoseconds after the second, 0 to 999999999.
    pub nanosecond: i32,
}

/// The bound on the year, either way, up to which a time can be formatted.
pub const MAX_FORMATTED_YEAR: i32 = 1_000_000_000;

impl LocalTime {
    /// Every component lies in the range that its documentation gives.
    pub open spec fn in_calendar_range(&self) -> bool {
        &&& 0 <= self.second <= 60
        &&& 0 <= self.minute <= 59
        &&& 0 <= self.hour <= 23
        &&& 1 <= self.month_day <= 31
        &&& 0 <= self.month <= 11
        &&& 0 <= self.week_day <= 6
        &&& 0 <= self.year_day <= 365
        &&& 0 <= self.nanosecond <= 999_999_999
    }

    /// The time can be formatted: its components lie in their ranges, and
    /// the year and the offset are far enough from the limits of `i32`.
    pub open spec fn formattable(&self) -> bool {
        &&& self.in_calendar_range()
        &&& -MAX_FORMATTED_YEAR <= self.year <= MAX_FORMATTED_YEAR
        &&& self.utc_offset > i32::MIN
    }

    /// Whether the year and the offset are far enough from the limits of
    /// `i32` to be formatted.
    pub fn within_format_limits(&self) -> (r: bool)
        ensures
            r == (-MAX_FORMATTED_YEAR <= self.year <= MAX_FORMATTED_YEAR && self.utc_offset
                > i32::MIN),
    {
        -MAX_FORMATTED_YEAR <= self.year && self.year <= MAX_FORMATTED_YEAR && self.utc_offset
            > i32::MIN
    }
}

/// Whether `c` names a conversion that may follow `%` in a format.
pub open spec fn is_conversion(c: char) -> bool {
    ||| c == 'A' || c == 'a' || c == 'B' || c == 'b' || c == 'C' || c == 'c' || c == 'D'
    ||| c == 'd' || c == 'e' || c == 'F' || c == 'f' || c == 'G' || c == 'g' || c == 'H'
    ||| c == 'h' || c == 'I' || c == 'j' || c == 'k' || c == 'l' || c == 'M' || c == 'm'
    ||| c == 'n' || c == 'P' || c == 'p' || c == 'R' || c == 'r' || c == 'S' || c == 's'
    ||| c == 'T' || c == 't' || c == 'U' || c == 'u' || c == 'V' || c == 'v' || c == 'W'
    ||| c == 'w' || c == 'X' || c == 'x' || c == 'Y' || c == 'y' || c == 'Z' || c == 'z'
    ||| c == '+' || c == '%'
}

/// Whether every `%` of `format`, read from the left, is followed by a
/// conversion.
pub open spec fn valid_time_format(format: Seq<char>) -> bool
    decreases format.len(),
{
    if format.len() == 0 {
        true
    } else if format[0] == '%' {
        format.len() >= 2 && is_conversion(format[1]) && valid_time_format(
            format.subrange(2, format.len() as int),
        )
    } else {
        valid_time_format(format.drop_first())
    }
}

/// Whether `format` holds no `%`, so that it is all literal text.
pub open spec fn has_no_conversion(format: Seq<char>) -> bool {
    forall|i: int| 0 <= i < format.len() ==> format[i] != '%'
}

/// Relies on `time::now`: the current local time, whose components lie in
/// the ranges that `time::Tm` documents.
#[verifier::external_body]
pub(crate) fn local_now() -> (t: LocalTime)
    ensures
        t.in_calendar_range(),
{
    let tm = time::now();
    LocalTime {
        second: tm.tm_sec,
        minute: tm.tm_min,
        hour: tm.tm_hour,
        month_day: tm.tm_mday,
        month: tm.tm_mon,
        year: tm.tm_year,
        week_day: tm.tm_wday,
        year_day: tm.tm_yday,
        dst: tm.tm_isdst,
        utc_offset: tm.tm_utcoff,
        nanosecond: tm.tm_nsec,
    }
}

/// Relies on `time::strftime`: it accepts a format exactly when each `%` is
/// followed by one of its conversions, given a day of the week and a month
/// in range, and it writes the characters outside conversions as they are.
#[verifier::external_body]
pub(crate) fn strftime(format: &str, t: &LocalTime) -> (r: Result<String, time::ParseError>)
    requires
        t.formattable(),
    ensures
        r is Ok <==> valid_time_format(format@),
        has_no_conversion(format@) ==> r is Ok && r->Ok_0@ == format@,
{
    let tm = time::Tm {
        tm_sec: t.second,
        tm_min: t.minute,
        tm_hour: t.hour,
        tm_mday: t.month_day,
        tm_mon: t.month,
        tm_year: t.year,
        tm_wday: t.week_day,
        tm_yday: t.year_day,
        tm_isdst: t.dst,
        tm_utcoff: t.utc_offset,
        tm_nsec: t.nanosecond,
    };
    time::strftime(format, &tm)
}

/// The time `t` written in `format`. The text depends on the time zone of
/// the machine for some conversions, so beyond the verdict on the format
/// only this is stated: a format without conversions is written as it is.
pub fn format_time(format: &str, t: &LocalTime) -> (r: Result<String, PollError>)
    requires
        t.formattable(),
    ensures
        r is Ok <==> valid_time_format(format@),
        r is Err ==> r == Err::<String, PollError>(PollError::TimestampFormat),
        has_no_conversion(format@) ==> r is Ok && r->Ok_0@ == format@,
{
    match strftime(format, t) {
        Ok(text) => Ok(text),
        Err(_) => Err(PollError::TimestampFormat),
    }
}

/// The time `t` written in `format`: `TimestampOutOfRange` when its year or
/// offset lies too close to the limits of `i32`, else `TimestampFormat`
/// exactly when the format is not valid.
pub fn timestamp_at(format: &str, t: &LocalTime) -> (r: Result<String, PollError>)
    requires
        t.in_calendar_range(),
    ensures
        !(-MAX_FORMATTED_YEAR <= t.year <= MAX_FORMATTED_YEAR && t.utc_offset > i32::MIN) ==> r
            == Err::<String, PollError>(PollError::TimestampOutOfRange),
        t.formattable() ==> (r is Ok <==> valid_time_format(format@)),
        t.formattable() && r is Err ==> r == Err::<String, PollError>(PollError::TimestampFormat),
        t.formattable() && has_no_conversion(format@) ==> r is Ok && r->Ok_0@ == format@,
{
    if !t.within_format_limits() {
        return Err(PollError::TimestampOutOfRange);
    }
    format_time(format, t)
}

} // verus!
