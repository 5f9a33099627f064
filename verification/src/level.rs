//! Severity levels, their order, and the codes the host knows them by.

use vstd::prelude::*;

verus! {

/// Severity of a log event. `Error` is the most severe, `Trace` the least.
#[derive(Clone, Copy, Debug, PartialEq, Eq, Structural)]
pub enum Level {
    Error,
    Warn,
    Info,
    Debug,
    Trace,
}

/// A process-wide ceiling on verbosity: `Off` lets nothing through, every
/// other value lets through the level of the same name and all that are more
/// severe.
#[derive(Clone, Copy, Debug, PartialEq, Eq, Structural)]
pub enum LevelFilter {
    Off,
    Error,
    Warn,
    Info,
    Debug,
    Trace,
}

impl Level {
    /// Position in the severity order: 1 for `Error` up to 5 for `Trace`.
    /// A smaller rank is a more severe level.
    pub open spec fn rank(self) -> int {
        match self {
            Level::Error => 1,
            Level::Warn => 2,
            Level::Info => 3,
            Level::Debug => 4,
            Level::Trace => 5,
        }
    }

    /// `self` is at least as severe as `threshold`.
    pub open spec fn at_least(self, threshold: Level) -> bool {
        self.rank() <= threshold.rank()
    }

    /// The code of this level in the host's severity enumeration.
    pub open spec fn wire_code(self) -> i32 {
        match self {
            Level::Error => 0,
            Level::Warn => 1,
            Level::Info => 2,
            Level::Debug => 3,
            Level::Trace => 4,
        }
    }

    /// The filter that lets through exactly the levels at least as severe as
    /// this one.
    pub open spec fn filter(self) -> LevelFilter {
        match self {
            Level::Error => LevelFilter::Error,
            Level::Warn => LevelFilter::Warn,
            Level::Info => LevelFilter::Info,
            Level::Debug => LevelFilter::Debug,
            Level::Trace => LevelFilter::Trace,
        }
    }

    /// Tells whether this level is at least as severe as `threshold`.
    pub fn is_at_least(self, threshold: Level) -> (yes: bool)
        ensures
            yes == self.at_least(threshold),
    {
        self.position() <= threshold.position()
    }

    /// Maps the level to the host's severity enumeration.
    pub fn to_wire(self) -> (code: i32)
        ensures
            code == self.wire_code(),
    {
        match self {
            Level::Error => 0,
            Level::Warn => 1,
            Level::Info => 2,
            Level::Debug => 3,
            Level::Trace => 4,
        }
    }

    /// Converts the level to the filter of the same name.
    pub fn to_level_filter(self) -> (filter: LevelFilter)
        ensures
            filter == self.filter(),
            filter.rank() == self.rank(),
    {
        match self {
            Level::Error => LevelFilter::Error,
            Level::Warn => LevelFilter::Warn,
            Level::Info => LevelFilter::Info,
            Level::Debug => LevelFilter::Debug,
            Level::Trace => LevelFilter::Trace,
        }
    }

    fn position(self) -> (p: u8)
        ensures
            p == self.rank(),
    {
        match self {
            Level::Error => 1,
            Level::Warn => 2,
            Level::Info => 3,
            Level::Debug => 4,
            Level::Trace => 5,
        }
    }
}

impl LevelFilter {
    /// Position in the verbosity order: 0 for `Off`, then the rank of the
    /// level of the same name.
    pub open spec fn rank(self) -> int {
        match self {
            LevelFilter::Off => 0,
            LevelFilter::Error => 1,
            LevelFilter::Warn => 2,
            LevelFilter::Info => 3,
            LevelFilter::Debug => 4,
            LevelFilter::Trace => 5,
        }
    }

    /// The filter lets events of `level` through.
    pub open spec fn admits(self, level: Level) -> bool {
        level.rank() <= self.rank()
    }

    /// Tells whether the filter lets events of `level` through.
    pub fn allows(self, level: Level) -> (yes: bool)
        ensures
            yes == self.admits(level),
    {
        level.position() <= self.position()
    }

    fn position(self) -> (p: u8)
        ensures
            p == self.rank(),
    {
        match self {
            LevelFilter::Off => 0,
            LevelFilter::Error => 1,
            LevelFilter::Warn => 2,
            LevelFilter::Info => 3,
            LevelFilter::Debug => 4,
            LevelFilter::Trace => 5,
        }
    }
}

/// The wire codes keep the severity order: one level is at least as severe as
/// another exactly when its code is no greater, and two levels share a code
/// only when they are the same level.
pub proof fn lemma_wire_code_keeps_order(a: Level, b: Level)
    ensures
        a.at_least(b) <==> a.wire_code() <= b.wire_code(),
        a.rank() < b.rank() <==> a.wire_code() < b.wire_code(),
        a.wire_code() == b.wire_code() <==> a == b,
        0 <= a.wire_code() <= 4,
{
}

/// The filter made from a level lets through exactly the levels that are at
/// least as severe as it.
pub proof fn lemma_filter_matches_threshold(threshold: Level, level: Level)
    ensures
        threshold.filter().admits(level) <==> level.at_least(threshold),
{
}

} // verus!
