//! Log levels.

use vstd::prelude::*;

verus! {

/// How much is logged.
#[derive(Clone, Copy, Debug, PartialEq, Eq, Structural)]
pub enum LogLevel {
    Error,
    Warn,
    Info,
    Debug,
    Trace,
}

impl LogLevel {
    /// The number that stands for the level where it is stored: 1 for
    /// errors only, up to 5 for everything.
    pub open spec fn spec_number(self) -> u8 {
        match self {
            LogLevel::Error => 1u8,
            LogLevel::Warn => 2u8,
            LogLevel::Info => 3u8,
            LogLevel::Debug => 4u8,
            LogLevel::Trace => 5u8,
        }
    }

    /// The number that stands for the level where it is stored.
    pub fn number(self) -> (r: u8)
        ensures
            r == self.spec_number(),
    {
        match self {
            LogLevel::Error => 1,
            LogLevel::Warn => 2,
            LogLevel::Info => 3,
            LogLevel::Debug => 4,
            LogLevel::Trace => 5,
        }
    }
}

/// The level that a number from 1 to 5 stands for; any other number stands
/// for `Info`.
pub fn map_log_level_u8_to_filter(level: u8) -> (r: LogLevel)
    ensures
        r == match level {
            1 => LogLevel::Error,
            2 => LogLevel::Warn,
            3 => LogLevel::Info,
            4 => LogLevel::Debug,
            5 => LogLevel::Trace,
            _ => LogLevel::Info,
        },
        1 <= level <= 5 ==> r.spec_number() == level,
{
    match level {
        1 => LogLevel::Error,
        2 => LogLevel::Warn,
        3 => LogLevel::Info,
        4 => LogLevel::Debug,
        5 => LogLevel::Trace,
        _ => LogLevel::Info,
    }
}

/// The level for debug logging switched on or off.
pub fn debug_logging_level(enabled: bool) -> (r: LogLevel)
    ensures
        r == if enabled {
            LogLevel::Debug
        } else {
            LogLevel::Info
        },
{
    if enabled {
        LogLevel::Debug
    } else {
        LogLevel::Info
    }
}

/// `log::set_max_level`: from now on nothing above `level` is logged.
#[verifier::external_body]
fn set_max_level(level: LogLevel) {
    log::set_max_level(
        match level {
            LogLevel::Error => log::LevelFilter::Error,
            LogLevel::Warn => log::LevelFilter::Warn,
            LogLevel::Info => log::LevelFilter::Info,
            LogLevel::Debug => log::LevelFilter::Debug,
            LogLevel::Trace => log::LevelFilter::Trace,
        },
    )
}

/// Switches debug logging on or off: the most that is logged becomes
/// `debug_logging_level(enabled)`.
pub fn set_debug_logging(enabled: bool) {
    set_max_level(debug_logging_level(enabled));
}

} // verus!
