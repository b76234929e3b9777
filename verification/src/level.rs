//! Log severities, mirroring the five levels of the `log` facade.

use vstd::prelude::*;

verus! {

/// A record's severity. `Error` is the most severe and `Trace` the most
/// verbose; the declaration order matches the numeric order of the `log`
/// facade's levels, where a smaller number is more severe.
#[derive(Clone, Copy, PartialEq, Eq, Structural, Debug)]
pub enum Level {
    Error,
    Warn,
    Info,
    Debug,
    Trace,
}

impl Level {
    /// Numeric rank of a level: 1 for `Error` up to 5 for `Trace`. A record
    /// passes a filter whose maximum level is `max` exactly when its rank is
    /// at most `max`'s rank.
    pub open spec fn rank(self) -> int {
        match self {
            Level::Error => 1,
            Level::Warn => 2,
            Level::Info => 3,
            Level::Debug => 4,
            Level::Trace => 5,
        }
    }

    /// The rank as a machine integer.
    pub fn as_rank(self) -> (r: u8)
        ensures
            r as int == self.rank(),
    {
        match self {
            Level::Error => 1,
            Level::Warn => 2,
            Level::Info => 3,
            Level::Debug => 4,
            Level::Trace => 5,
        }
    }

    /// Whether `self` is at most as verbose as `other`: true exactly when a
    /// record at `self` passes a filter capped at `other`.
    pub fn le(self, other: Level) -> (r: bool)
        ensures
            r == (self.rank() <= other.rank()),
    {
        self.as_rank() <= other.as_rank()
    }
}

} // verus!
