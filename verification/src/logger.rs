use vstd::prelude::*;

verus! {

/// Severity of a log line.
#[allow(non_camel_case_types)]
#[derive(Debug, PartialEq, Eq, Clone, Copy, Structural)]
pub enum LogLevel {
    ERROR,
    WARN,
    INFO,
    DEBUG,
}

/// Where a log line goes.
#[derive(Debug, PartialEq, Eq, Clone, Copy, Structural)]
pub enum LogStream {
    /// The error stream, for errors and warnings.
    StandardError,
    /// The normal stream, for informational and debug lines.
    StandardOut,
}

/// The verbosity a level needs before it is emitted: verbosity 0 emits
/// errors only; each further step unlocks warnings, informational lines and
/// debug lines, in that order.
pub open spec fn spec_threshold(level: LogLevel) -> u32 {
    match level {
        LogLevel::ERROR => 0,
        LogLevel::WARN => 1,
        LogLevel::INFO => 2,
        LogLevel::DEBUG => 3,
    }
}

/// The stream a level goes to: errors and warnings to the error stream,
/// informational and debug lines to the normal stream.
pub open spec fn spec_stream(level: LogLevel) -> LogStream {
    match level {
        LogLevel::ERROR => LogStream::StandardError,
        LogLevel::WARN => LogStream::StandardError,
        LogLevel::INFO => LogStream::StandardOut,
        LogLevel::DEBUG => LogStream::StandardOut,
    }
}

/// The verbosity a level needs before it is emitted.
pub fn verbosity_threshold(level: &LogLevel) -> (t: u32)
    ensures
        t == spec_threshold(*level),
{
    match level {
        LogLevel::ERROR => 0,
        LogLevel::WARN => 1,
        LogLevel::INFO => 2,
        LogLevel::DEBUG => 3,
    }
}

/// A line of this level is emitted at this verbosity.
pub fn should_emit(level: &LogLevel, verbose: u32) -> (r: bool)
    ensures
        r == (verbose >= spec_threshold(*level)),
{
    verbosity_threshold(level) <= verbose
}

/// The stream a line of this level goes to.
pub fn stream_for(level: &LogLevel) -> (s: LogStream)
    ensures
        s == spec_stream(*level),
{
    match level {
        LogLevel::ERROR => LogStream::StandardError,
        LogLevel::WARN => LogStream::StandardError,
        LogLevel::INFO => LogStream::StandardOut,
        LogLevel::DEBUG => LogStream::StandardOut,
    }
}

} // verus!
