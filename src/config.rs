//! The validated configuration of a polling loop.
use vstd::prelude::*;
use vstd::utf8::encode_utf8;

use crate::error::ConfigError;

verus! {

/// The byte of a plus sign.
pub const PLUS: u8 = 43;

/// The byte of the digit zero.
pub const ZERO: u8 = 48;

/// The timestamp format used when none is given.
pub const DEFAULT_TIMESTAMP_FORMAT: &'static str = "%F %H:%M:%S";

/// The largest interval, in seconds, whose length in milliseconds a `u64`
/// holds.
pub const MAX_INTERVAL_SECS: u64 = 18446744073709551;

/// Whether `b` is an ASCII digit.
pub open spec fn is_digit(b: u8) -> bool {
    ZERO <= b <= ZERO + 9
}

/// The value of a string of ASCII digits, most significant first.
pub open spec fn digits_value(s: Seq<u8>) -> nat
    decreases s.len(),
{
    if s.len() == 0 {
        0
    } else {
        digits_value(s.drop_last()) * 10 + (s.last() - ZERO) as nat
    }
}

/// `s` without one leading plus sign.
pub open spec fn unsigned_part(s: Seq<u8>) -> Seq<u8> {
    if s.len() > 0 && s[0] == PLUS {
        s.drop_first()
    } else {
        s
    }
}

/// Whether `s` is an optional plus sign followed by one or more digits.
pub open spec fn is_decimal(s: Seq<u8>) -> bool {
    &&& unsigned_part(s).len() > 0
    &&& forall|i: int| 0 <= i < unsigned_part(s).len() ==> is_digit(#[trigger] unsigned_part(s)[i])
}

/// The number of seconds that `text` gives as an interval, if it is a
/// decimal number whose milliseconds fit in a `u64`.
pub open spec fn interval_value(text: Seq<u8>) -> Option<u64> {
    if is_decimal(text) && digits_value(unsigned_part(text)) <= MAX_INTERVAL_SECS {
        Some(digits_value(unsigned_part(text)) as u64)
    } else {
        None
    }
}

proof fn lemma_digits_value_grows(s: Seq<u8>, i: int, j: int)
    requires
        0 <= i <= j <= s.len(),
        forall|k: int| 0 <= k < s.len() ==> is_digit(#[trigger] s[k]),
    ensures
        digits_value(s.subrange(0, i)) <= digits_value(s.subrange(0, j)),
    decreases j - i,
{
    if i < j {
        lemma_digits_value_grows(s, i, j - 1);
        assert(s.subrange(0, j).drop_last() =~= s.subrange(0, j - 1));
    }
}

/// Reads an interval in seconds: an optional plus sign and one or more ASCII
/// digits, no larger than `MAX_INTERVAL_SECS`.
pub fn parse_interval(text: &str) -> (r: Option<u64>)
    ensures
        r == interval_value(encode_utf8(text@)),
{
    let bytes: &[u8] = text.as_bytes();
    let ghost s: Seq<u8> = bytes@;
    let start: usize = if bytes.len() > 0 && bytes[0] == PLUS {
        1
    } else {
        0
    };
    let ghost u: Seq<u8> = s.subrange(start as int, s.len() as int);
    assert(u =~= unsigned_part(s));
    if start == bytes.len() {
        return None;
    }
    let mut value: u64 = 0;
    let mut i: usize = start;
    while i < bytes.len()
        invariant
            start <= i <= s.len(),
            bytes@ == s,
            u == s.subrange(start as int, s.len() as int),
            u == unsigned_part(s),
            s == encode_utf8(text@),
            value as nat == digits_value(u.subrange(0, i - start)),
            value <= MAX_INTERVAL_SECS,
            forall|k: int| 0 <= k < i - start ==> is_digit(#[trigger] u[k]),
        decreases s.len() - i,
    {
        let b: u8 = bytes[i];
        if b < ZERO || b > ZERO + 9 {
            assert(!is_digit(unsigned_part(s)[i - start]));
            return None;
        }
        let ghost prefix: Seq<u8> = u.subrange(0, i + 1 - start);
        assert(prefix.drop_last() =~= u.subrange(0, i - start));
        let next: u64 = match value.checked_mul(10) {
            Some(t) => match t.checked_add((b - ZERO) as u64) {
                Some(n) => n,
                None => u64::MAX,
            },
            None => u64::MAX,
        };
        if next > MAX_INTERVAL_SECS {
            proof {
                assert(digits_value(prefix) > MAX_INTERVAL_SECS);
                if is_decimal(s) {
                    assert(forall|k: int| 0 <= k < u.len() ==> is_digit(#[trigger] u[k]));
                    lemma_digits_value_grows(u, i + 1 - start, u.len() as int);
                    assert(u.subrange(0, u.len() as int) =~= u);
                }
            }
            return None;
        }
        value = next;
        i = i + 1;
    }
    assert(u.subrange(0, u.len() as int) =~= u);
    Some(value)
}

/// What the command line asked for, before it is checked.
pub struct Options {
    /// The command to poll and its arguments.
    pub command: Vec<String>,
    /// The interval in seconds, as written; one second when absent.
    pub interval: Option<String>,
    /// Poll the exit status instead of the output.
    pub exit_status: bool,
    /// Stop once the command succeeds.
    pub until_success: bool,
    /// Stop once the command fails.
    pub until_failure: bool,
    /// Run the single command argument in a shell.
    pub use_shell: bool,
    /// Print nothing.
    pub quiet: bool,
    /// Prefix each report with the local time.
    pub print_timestamp: bool,
    /// The strftime-style format of the timestamp.
    pub timestamp_format: Option<String>,
    /// A shell command that is fed each new result on its standard input.
    pub reaction_command: Option<String>,
}

/// What is run each poll, and how its outcome is observed.
#[derive(Clone, Copy, Debug, PartialEq, Eq, Structural)]
pub enum Mode {
    /// Capture the standard output.
    StdoutCapture,
    /// Observe only whether the command succeeded.
    ExitStatus,
}

/// The mathematical content of a configuration.
pub struct ConfigView {
    pub interval_secs: u64,
    pub mode: Mode,
    pub use_shell: bool,
    pub quiet: bool,
    pub print_timestamp: bool,
    pub timestamp_format: Seq<char>,
    pub until_success: bool,
    pub until_failure: bool,
    pub reaction_command: Option<Seq<char>>,
    pub command: Seq<Seq<char>>,
}

impl ConfigView {
    /// The configuration's invariant: a command is given, the stop conditions
    /// exclude each other and need the exit status, and the interval's
    /// milliseconds fit in a `u64`.
    pub open spec fn valid(&self) -> bool {
        &&& self.command.len() > 0
        &&& !(self.until_success && self.until_failure)
        &&& (self.until_success || self.until_failure) ==> self.mode == Mode::ExitStatus
        &&& self.interval_secs <= MAX_INTERVAL_SECS
    }
}

/// The views of a vector of strings.
pub open spec fn strings_view(v: Seq<String>) -> Seq<Seq<char>> {
    v.map_values(|s: String| s@)
}

/// The view of an optional string.
pub open spec fn opt_string_view(s: Option<String>) -> Option<Seq<char>> {
    match s {
        Some(t) => Some(t@),
        None => None,
    }
}

/// The first check that `o` fails, if any.
pub open spec fn options_error(o: Options) -> Option<ConfigError> {
    if o.command@.len() == 0 {
        Some(ConfigError::MissingCommand)
    } else if o.until_success && o.until_failure {
        Some(ConfigError::ConflictingStopConditions)
    } else if (o.until_success || o.until_failure) && !o.exit_status {
        Some(ConfigError::StopConditionNeedsExitStatus)
    } else if o.timestamp_format is Some && !o.print_timestamp {
        Some(ConfigError::FormatNeedsTimestamp)
    } else if o.interval is Some && interval_value(encode_utf8(o.interval->0@)) is None {
        Some(ConfigError::InvalidInterval)
    } else {
        None
    }
}

/// The configuration that `o` describes, once it passes every check.
pub open spec fn options_config(o: Options) -> ConfigView {
    ConfigView {
        interval_secs: match o.interval {
            Some(t) => interval_value(encode_utf8(t@))->0,
            None => 1,
        },
        mode: if o.exit_status {
            Mode::ExitStatus
        } else {
            Mode::StdoutCapture
        },
        use_shell: o.use_shell,
        quiet: o.quiet,
        print_timestamp: o.print_timestamp,
        timestamp_format: match o.timestamp_format {
            Some(f) => f@,
            None => DEFAULT_TIMESTAMP_FORMAT@,
        },
        until_success: o.until_success,
        until_failure: o.until_failure,
        reaction_command: opt_string_view(o.reaction_command),
        command: strings_view(o.command@),
    }
}

/// A checked configuration.
pub struct Config {
    interval_secs: u64,
    mode: Mode,
    use_shell: bool,
    quiet: bool,
    print_timestamp: bool,
    timestamp_format: String,
    until_success: bool,
    until_failure: bool,
    reaction_command: Option<String>,
    command: Vec<String>,
}

impl View for Config {
    type V = ConfigView;

    closed spec fn view(&self) -> ConfigView {
        ConfigView {
            interval_secs: self.interval_secs,
            mode: self.mode,
            use_shell: self.use_shell,
            quiet: self.quiet,
            print_timestamp: self.print_timestamp,
            timestamp_format: self.timestamp_format@,
            until_success: self.until_success,
            until_failure: self.until_failure,
            reaction_command: opt_string_view(self.reaction_command),
            command: strings_view(self.command@),
        }
    }
}

impl Config {
    /// Checks `options`: the first check that fails gives the error, and
    /// otherwise the configuration holds what was asked for, with an
    /// interval of one second and the default timestamp format where none
    /// was given.
    pub fn new(options: Options) -> (r: Result<Config, ConfigError>)
        ensures
            match options_error(options) {
                Some(e) => r == Err::<Config, ConfigError>(e),
                None => r is Ok && r->Ok_0@ == options_config(options),
            },
            r is Ok ==> r->Ok_0@.valid(),
    {
        if options.command.len() == 0 {
            return Err(ConfigError::MissingCommand);
        }
        if options.until_success && options.until_failure {
            return Err(ConfigError::ConflictingStopConditions);
        }
        if (options.until_success || options.until_failure) && !options.exit_status {
            return Err(ConfigError::StopConditionNeedsExitStatus);
        }
        if options.timestamp_format.is_some() && !options.print_timestamp {
            return Err(ConfigError::FormatNeedsTimestamp);
        }
        let interval_secs: u64 = match &options.interval {
            Some(text) => match parse_interval(text.as_str()) {
                Some(secs) => secs,
                None => {
                    return Err(ConfigError::InvalidInterval);
                },
            },
            None => 1,
        };
        let timestamp_format: String = match options.timestamp_format {
            Some(f) => f,
            None => DEFAULT_TIMESTAMP_FORMAT.to_string(),
        };
        Ok(
            Config {
                interval_secs,
                mode: if options.exit_status {
                    Mode::ExitStatus
                } else {
                    Mode::StdoutCapture
                },
                use_shell: options.use_shell,
                quiet: options.quiet,
                print_timestamp: options.print_timestamp,
                timestamp_format,
                until_success: options.until_success,
                until_failure: options.until_failure,
                reaction_command: options.reaction_command,
                command: options.command,
            },
        )
    }

    /// What is observed of each run.
    pub fn mode(&self) -> (r: Mode)
        ensures
            r == self@.mode,
    {
        self.mode
    }

    /// Whether the loop stops once the command succeeds.
    pub fn until_success_set(&self) -> (r: bool)
        ensures
            r == self@.until_success,
    {
        self.until_success
    }

    /// Whether the loop stops once the command fails.
    pub fn until_failure_set(&self) -> (r: bool)
        ensures
            r == self@.until_failure,
    {
        self.until_failure
    }

    /// The interval between polls, in seconds.
    pub fn interval_secs(&self) -> (r: u64)
        ensures
            r == self@.interval_secs,
    {
        self.interval_secs
    }

    /// Whether nothing is printed.
    pub fn quiet(&self) -> (r: bool)
        ensures
            r == self@.quiet,
    {
        self.quiet
    }

    /// Whether each report is prefixed with the local time.
    pub fn print_timestamp(&self) -> (r: bool)
        ensures
            r == self@.print_timestamp,
    {
        self.print_timestamp
    }

    /// The format of the timestamp.
    pub fn timestamp_format(&self) -> (r: &str)
        ensures
            r@ == self@.timestamp_format,
    {
        self.timestamp_format.as_str()
    }

    /// The shell command fed each new result, if any.
    pub fn reaction_command(&self) -> (r: Option<&str>)
        ensures
            match r {
                Some(c) => self@.reaction_command == Some(c@),
                None => self@.reaction_command is None,
            },
    {
        match &self.reaction_command {
            Some(c) => Some(c.as_str()),
            None => None,
        }
    }

    /// The program to run and its arguments: the shell with the first
    /// command argument as its script when a shell is asked for, and the
    /// command as given otherwise.
    pub fn command_line(&self) -> (r: Vec<String>)
        requires
            self@.valid(),
        ensures
            strings_view(r@) == command_line_of(self@),
    {
        if self.use_shell {
            let r: Vec<String> = vec![
                "sh".to_string(),
                "-c".to_string(),
                self.command[0].clone(),
            ];
            assert(strings_view(r@) =~= command_line_of(self@));
            r
        } else {
            let mut r: Vec<String> = Vec::new();
            let mut i: usize = 0;
            while i < self.command.len()
                invariant
                    i <= self.command@.len(),
                    strings_view(r@) =~= strings_view(self.command@).subrange(0, i as int),
                decreases self.command@.len() - i,
            {
                let arg: String = self.command[i].clone();
                let ghost before: Seq<String> = r@;
                r.push(arg);
                assert(strings_view(r@) =~= strings_view(before).push(arg@));
                assert(strings_view(self.command@).subrange(0, i + 1) =~= strings_view(
                    self.command@,
                ).subrange(0, i as int).push(self.command@[i as int]@));
                i = i + 1;
            }
            assert(strings_view(self.command@).subrange(0, i as int) =~= strings_view(
                self.command@,
            ));
            r
        }
    }
}

/// The program and arguments that a configuration runs each poll.
pub open spec fn command_line_of(c: ConfigView) -> Seq<Seq<char>> {
    if c.use_shell {
        seq!["sh"@, "-c"@, c.command[0]]
    } else {
        c.command
    }
}

} // verus!
