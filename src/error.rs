//! The errors that the library reports.
use vstd::prelude::*;

verus! {

/// A configuration that cannot be run.
#[derive(Clone, Copy, Debug, PartialEq, Eq, Structural)]
pub enum ConfigError {
    /// No command to poll was given.
    MissingCommand,
    /// Stopping on success and stopping on failure were both asked for.
    ConflictingStopConditions,
    /// A stop condition was asked for without polling the exit status.
    StopConditionNeedsExitStatus,
    /// A timestamp format was given without asking for timestamps.
    FormatNeedsTimestamp,
    /// The interval is not a whole number of seconds that the clock can hold.
    InvalidInterval,
}

/// An error that ends the polling loop.
#[derive(Clone, Copy, Debug, PartialEq, Eq, Structural)]
pub enum PollError {
    /// The configuration was rejected before the loop started.
    Config(ConfigError),
    /// The timestamp format holds a `%` that is not followed by a known
    /// conversion.
    TimestampFormat,
    /// The local time lies outside the range that can be formatted.
    TimestampOutOfRange,
}

} // verus!
