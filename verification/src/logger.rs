//! The CLI's log formatting and filtering choices.

use vstd::prelude::*;

verus! {

/// A log severity, mirrored as the library's own value so the token
/// choice below can be stated and checked.
#[derive(Clone, Copy, Debug, PartialEq, Eq, Structural)]
pub enum LogLevel {
    Error,
    Warn,
    Info,
    Debug,
    Trace,
}

/// How much the CLI logs: warnings only by default, informational with
/// one `-d`, everything with more.
#[derive(Clone, Copy, Debug, PartialEq, Eq, Structural)]
pub enum LogFilter {
    Warn,
    Info,
    Trace,
}

/// The level token each severity prints under.
pub open spec fn level_token_of(level: LogLevel) -> Seq<char> {
    match level {
        LogLevel::Error => "ERROR"@,
        LogLevel::Warn => "WARN"@,
        LogLevel::Info => "INFO"@,
        LogLevel::Debug => "DEBUG"@,
        LogLevel::Trace => "TRACE"@,
    }
}

/// The CLI's log style: plain upper-case level tokens.
pub struct StofCliLogger;

impl StofCliLogger {
    /// The token a message of the given severity is prefixed with.
    pub fn level_token(&self, level: LogLevel) -> (r: &'static str)
        ensures
            r@ == level_token_of(level),
    {
        match level {
            LogLevel::Error => "ERROR",
            LogLevel::Warn => "WARN",
            LogLevel::Info => "INFO",
            LogLevel::Debug => "DEBUG",
            LogLevel::Trace => "TRACE",
        }
    }
}

/// The filter the debug flag count selects.
pub fn log_filter_for(debug: u8) -> (r: LogFilter)
    ensures
        debug == 0 ==> r == LogFilter::Warn,
        debug == 1 ==> r == LogFilter::Info,
        debug >= 2 ==> r == LogFilter::Trace,
{
    match debug {
        0 => LogFilter::Warn,
        1 => LogFilter::Info,
        _ => LogFilter::Trace,
    }
}

} // verus!
