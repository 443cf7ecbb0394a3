//! The bridge between the engine's log levels and the host's.
//!
//! The engine grades its messages on a numeric scale; the host knows five
//! severities and a filter that may also switch logging off. This module
//! decides how one maps onto the other.

use vstd::prelude::*;

verus! {

/// The engine's threshold that lets every message through.
pub const LOU_LOG_ALL: u32 = 0;

/// The engine's level for debugging messages.
pub const LOU_LOG_DEBUG: u32 = 10000;

/// The engine's level for informational messages, and its default threshold.
pub const LOU_LOG_INFO: u32 = 20000;

/// The engine's level for warnings.
pub const LOU_LOG_WARN: u32 = 30000;

/// The engine's level for errors.
pub const LOU_LOG_ERROR: u32 = 40000;

/// The engine's level for fatal errors.
pub const LOU_LOG_FATAL: u32 = 50000;

/// The engine's threshold that lets no message through.
pub const LOU_LOG_OFF: u32 = 60000;

/// The name under which the engine's messages appear in the host's log.
pub const LOG_TARGET: &'static str = "liblouis";

/// The severity of a record in the host's log.
#[derive(Clone, Copy, Debug, PartialEq, Eq, Structural)]
pub enum Level {
    Error,
    Warn,
    Info,
    Debug,
    Trace,
}

/// The most verbose severity that the host's log lets through.
#[derive(Clone, Copy, Debug, PartialEq, Eq, Structural)]
pub enum LevelFilter {
    Off,
    Error,
    Warn,
    Info,
    Debug,
    Trace,
}

impl Level {
    /// How verbose a severity is: 1 for errors, up to 5 for traces.
    pub open spec fn verbosity(self) -> int {
        match self {
            Level::Error => 1,
            Level::Warn => 2,
            Level::Info => 3,
            Level::Debug => 4,
            Level::Trace => 5,
        }
    }
}

impl LevelFilter {
    /// The verbosity up to which the filter lets records through; 0 for none.
    pub open spec fn verbosity(self) -> int {
        match self {
            LevelFilter::Off => 0,
            LevelFilter::Error => 1,
            LevelFilter::Warn => 2,
            LevelFilter::Info => 3,
            LevelFilter::Debug => 4,
            LevelFilter::Trace => 5,
        }
    }
}

/// The host severity of an engine level: the most severe one whose range
/// reaches up to the level, and `Error` for everything above the warnings.
pub open spec fn level_of(level: u32) -> Level {
    if level <= LOU_LOG_ALL {
        Level::Trace
    } else if level <= LOU_LOG_DEBUG {
        Level::Debug
    } else if level <= LOU_LOG_INFO {
        Level::Info
    } else if level <= LOU_LOG_WARN {
        Level::Warn
    } else {
        Level::Error
    }
}

/// The engine threshold that stands for a host filter.
pub open spec fn threshold_of(filter: LevelFilter) -> u32 {
    match filter {
        LevelFilter::Trace => LOU_LOG_ALL,
        LevelFilter::Debug => LOU_LOG_DEBUG,
        LevelFilter::Info => LOU_LOG_INFO,
        LevelFilter::Warn => LOU_LOG_WARN,
        LevelFilter::Error => LOU_LOG_ERROR,
        LevelFilter::Off => LOU_LOG_OFF,
    }
}

/// `log::STATIC_MAX_LEVEL`: the most verbose severity that the host's log was
/// compiled to keep. It depends on how the host was built, so nothing is
/// known of it here.
#[verifier::external_body]
pub(crate) fn static_max_level() -> (filter: LevelFilter) {
    match log::STATIC_MAX_LEVEL {
        log::LevelFilter::Off => LevelFilter::Off,
        log::LevelFilter::Error => LevelFilter::Error,
        log::LevelFilter::Warn => LevelFilter::Warn,
        log::LevelFilter::Info => LevelFilter::Info,
        log::LevelFilter::Debug => LevelFilter::Debug,
        log::LevelFilter::Trace => LevelFilter::Trace,
    }
}

/// Maps the level of an engine message to the severity it is logged at.
pub fn lou_loglevel_to_level(level: u32) -> (severity: Level)
    ensures
        severity == level_of(level),
{
    if level <= LOU_LOG_ALL {
        Level::Trace
    } else if level <= LOU_LOG_DEBUG {
        Level::Debug
    } else if level <= LOU_LOG_INFO {
        Level::Info
    } else if level <= LOU_LOG_WARN {
        Level::Warn
    } else {
        Level::Error
    }
}

/// Maps the host's filter to the threshold the engine is configured with.
pub fn filter_to_lou_loglevel(filter: LevelFilter) -> (threshold: u32)
    ensures
        threshold == threshold_of(filter),
{
    match filter {
        LevelFilter::Trace => LOU_LOG_ALL,
        LevelFilter::Debug => LOU_LOG_DEBUG,
        LevelFilter::Info => LOU_LOG_INFO,
        LevelFilter::Warn => LOU_LOG_WARN,
        LevelFilter::Error => LOU_LOG_ERROR,
        LevelFilter::Off => LOU_LOG_OFF,
    }
}

/// A more severe engine level never maps to a less severe host severity.
pub proof fn lemma_level_of_monotonic(lower: u32, higher: u32)
    requires
        lower <= higher,
    ensures
        level_of(higher).verbosity() <= level_of(lower).verbosity(),
{
}

/// A message that sits exactly on the threshold of a filter is logged at the
/// most verbose severity which that filter lets through.
pub proof fn lemma_threshold_round_trip(filter: LevelFilter)
    requires
        filter != LevelFilter::Off,
    ensures
        level_of(threshold_of(filter)).verbosity() == filter.verbosity(),
{
}

/// Whatever passes the engine's threshold also passes the host's filter.
pub proof fn lemma_threshold_admits_only_enabled(filter: LevelFilter, level: u32)
    requires
        level >= threshold_of(filter),
        filter != LevelFilter::Off,
    ensures
        level_of(level).verbosity() <= filter.verbosity(),
{
}

} // verus!
