use vstd::prelude::*;

verus! {

/// How much the program reports while it runs.
#[derive(Clone, Copy, Debug, PartialEq, Eq, Structural)]
pub enum LogLevel {
    Error,
    Info,
    Debug,
    Trace,
}

/// The level chosen by a count of verbosity flags: none reports errors only,
/// and each further flag adds a level, up to the most detailed.
pub open spec fn level_of(count: u64) -> LogLevel {
    if count == 0 {
        LogLevel::Error
    } else if count == 1 {
        LogLevel::Info
    } else if count == 2 {
        LogLevel::Debug
    } else {
        LogLevel::Trace
    }
}

/// Maps a count of verbosity flags to a log level; counts past three saturate.
pub fn int_to_log_level(count: u64) -> (r: LogLevel)
    ensures
        r == level_of(count),
{
    let c: u64 = if count < 3 { count } else { 3 };
    match c {
        1 => LogLevel::Info,
        2 => LogLevel::Debug,
        3 => LogLevel::Trace,
        _ => LogLevel::Error,
    }
}

} // verus!
