//! How talkative the log is.

use vstd::prelude::*;

verus! {

/// The most verbose level of messages that the log lets through.
#[derive(Debug, Clone, Copy, PartialEq, Eq, Structural)]
pub enum LogLevel {
    Off,
    Error,
    Warn,
    Info,
    Debug,
    Trace,
}

/// The verbosity that counts: the one that the environment sets, if it sets
/// one, and else the one of the command line.
pub open spec fn spec_verbosity(is_verbose: u8, environment_override: Option<u8>) -> u8 {
    match environment_override {
        Some(value) => value,
        None => is_verbose,
    }
}

/// The level that a verbosity stands for. Anything above five lets
/// everything through.
pub open spec fn spec_logging_level(verbosity: u8) -> LogLevel {
    if verbosity == 0 {
        LogLevel::Off
    } else if verbosity == 1 {
        LogLevel::Info
    } else if verbosity == 2 {
        LogLevel::Warn
    } else if verbosity == 3 {
        LogLevel::Error
    } else if verbosity == 4 {
        LogLevel::Debug
    } else {
        LogLevel::Trace
    }
}

/// Chooses the level of the log from the verbosity of the command line and
/// the one that the environment sets, if it sets one.
pub fn logging_level(is_verbose: u8, environment_override: Option<u8>) -> (level: LogLevel)
    ensures
        level == spec_logging_level(spec_verbosity(is_verbose, environment_override)),
{
    let verbosity = match environment_override {
        Some(value) => value,
        None => is_verbose,
    };
    match verbosity {
        0 => LogLevel::Off,
        1 => LogLevel::Info,
        2 => LogLevel::Warn,
        3 => LogLevel::Error,
        4 => LogLevel::Debug,
        _ => LogLevel::Trace,
    }
}

} // verus!
