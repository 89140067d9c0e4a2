//! Log severities and the verbosity that each kind of build selects.
use vstd::prelude::*;

verus! {

/// The severity of one log record, as the `log` crate defines it.
#[verifier::external_type_specification]
pub struct ExLevel(log::Level);

/// The most verbose severity that a logger keeps, as the `log` crate defines it.
#[verifier::external_type_specification]
pub struct ExLevelFilter(log::LevelFilter);

/// Position of a record's severity on the verbosity scale: `Error` is the
/// least verbose (1), `Trace` the most (5).
pub open spec fn level_rank(level: log::Level) -> int {
    match level {
        log::Level::Error => 1,
        log::Level::Warn => 2,
        log::Level::Info => 3,
        log::Level::Debug => 4,
        log::Level::Trace => 5,
    }
}

/// Position of a filter on the verbosity scale: `Off` keeps nothing (0),
/// `Trace` keeps everything (5).
pub open spec fn filter_rank(filter: log::LevelFilter) -> int {
    match filter {
        log::LevelFilter::Off => 0,
        log::LevelFilter::Error => 1,
        log::LevelFilter::Warn => 2,
        log::LevelFilter::Info => 3,
        log::LevelFilter::Debug => 4,
        log::LevelFilter::Trace => 5,
    }
}

/// A record of severity `level` passes a logger set to `filter`.
pub open spec fn retains(filter: log::LevelFilter, level: log::Level) -> bool {
    level_rank(level) <= filter_rank(filter)
}

/// Relies on `log`'s `PartialOrd<LevelFilter> for Level`, which orders a
/// level against a filter by their discriminants (`Error` = 1 up to
/// `Trace` = 5, `Off` = 0).
pub assume_specification[ <log::Level as core::cmp::PartialOrd<log::LevelFilter>>::partial_cmp ](
    level: &log::Level,
    filter: &log::LevelFilter,
) -> (r: Option<core::cmp::Ordering>)
    ensures
        r == Some(
            if level_rank(*level) < filter_rank(*filter) {
                core::cmp::Ordering::Less
            } else if level_rank(*level) == filter_rank(*filter) {
                core::cmp::Ordering::Equal
            } else {
                core::cmp::Ordering::Greater
            },
        ),
;

/// Whether a logger set to `filter` keeps a record of severity `level`.
pub fn is_retained(filter: log::LevelFilter, level: log::Level) -> (r: bool)
    ensures
        r == retains(filter, level),
{
    match level.partial_cmp(&filter) {
        Some(core::cmp::Ordering::Greater) => false,
        _ => true,
    }
}

/// The verbosity that a build selects: `Info` in a debug build, `Error` in
/// a release build.
pub open spec fn build_level(debug_build: bool) -> log::LevelFilter {
    if debug_build {
        log::LevelFilter::Info
    } else {
        log::LevelFilter::Error
    }
}

/// The verbosity that a build selects: records of informational severity
/// and above in a debug build, errors alone in a release build.
pub fn select_level(debug_build: bool) -> (r: log::LevelFilter)
    ensures
        r == build_level(debug_build),
        debug_build ==> forall|level: log::Level|
            #![trigger retains(r, level)]
            retains(r, level) <==> (level == log::Level::Error || level == log::Level::Warn
                || level == log::Level::Info),
        !debug_build ==> forall|level: log::Level|
            #![trigger retains(r, level)]
            retains(r, level) <==> level == log::Level::Error,
        debug_build ==> forall|level: log::Level|
            #![trigger retains(r, level)]
            retains(r, level) <==> (level == log::Level::Error || level == log::Level::Warn
                || level == log::Level::Info),
        !debug_build ==> forall|level: log::Level|
            #![trigger retains(r, level)]
            retains(r, level) <==> level == log::Level::Error,
{
    if debug_build {
        log::LevelFilter::Info
    } else {
        log::LevelFilter::Error
    }
}

} // verus!
