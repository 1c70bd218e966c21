//! Severity levels and the ordering that decides which records pass a
//! threshold.

use vstd::prelude::*;

verus! {

/// A record's severity, most severe first: `Error` is the most severe level
/// and `Trace` the least severe.
#[derive(Clone, Copy, PartialEq, Eq, Structural, Debug)]
pub enum Level {
    Error,
    Warn,
    Info,
    Debug,
    Trace,
}

/// The numeric rank of a level: `Error` is 1 and `Trace` is 5, so a smaller
/// rank means a more severe level.
pub open spec fn severity(l: Level) -> int {
    match l {
        Level::Error => 1,
        Level::Warn => 2,
        Level::Info => 3,
        Level::Debug => 4,
        Level::Trace => 5,
    }
}

/// A record at level `l` is at or above the threshold `max` exactly when it
/// is at least as severe, that is, when its rank is at most the threshold's.
pub open spec fn passes(l: Level, max: Level) -> bool {
    severity(l) <= severity(max)
}

/// The rank of `l` as an executable value.
pub fn severity_index(l: Level) -> (n: u8)
    ensures
        n as int == severity(l),
{
    match l {
        Level::Error => 1,
        Level::Warn => 2,
        Level::Info => 3,
        Level::Debug => 4,
        Level::Trace => 5,
    }
}

/// Decides whether a record at level `l` is at or above the threshold `max`.
pub fn level_passes(l: Level, max: Level) -> (r: bool)
    ensures
        r == passes(l, max),
{
    severity_index(l) <= severity_index(max)
}

} // verus!
