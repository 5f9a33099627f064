//! The one-way switch from "no logger" to "this logger, for good".

use vstd::prelude::*;
use crate::level::{Level, LevelFilter};
use crate::logger::ValenceLogger;

verus! {

/// The logging slot of a process. It starts empty and can be filled once;
/// nothing empties or refills it.
pub struct Installer {
    slot: Option<ValenceLogger>,
}

impl Installer {
    /// The logger in the slot, if one has been installed.
    pub closed spec fn installed(&self) -> Option<ValenceLogger> {
        self.slot
    }

    /// The process-wide ceiling on verbosity: `Off` while the slot is empty,
    /// afterwards the filter of the installed logger's threshold.
    pub open spec fn ceiling(&self) -> LevelFilter {
        match self.installed() {
            None => LevelFilter::Off,
            Some(logger) => logger.level.filter(),
        }
    }

    /// An empty slot.
    pub fn new() -> (installer: Self)
        ensures
            installer.installed() is None,
    {
        Installer { slot: None }
    }

    /// Tells whether a logger has been installed.
    pub fn is_installed(&self) -> (yes: bool)
        ensures
            yes == self.installed() is Some,
    {
        self.slot.is_some()
    }

    /// The installed logger, if any.
    pub fn logger(&self) -> (logger: Option<ValenceLogger>)
        ensures
            logger == self.installed(),
    {
        self.slot
    }

    /// The ceiling the process-wide filter is to be set to.
    pub fn max_level(&self) -> (filter: LevelFilter)
        ensures
            filter == self.ceiling(),
    {
        match self.slot {
            None => LevelFilter::Off,
            Some(logger) => logger.level.to_level_filter(),
        }
    }
}

/// Installs a logger with threshold `level` and raises the ceiling to match.
///
/// The slot must be empty: installing twice is a programming error, and a
/// caller that cannot rule it out has to test `is_installed` and abort.
pub fn init(installer: &mut Installer, level: Level)
    requires
        old(installer).installed() is None,
    ensures
        final(installer).installed() == Some(ValenceLogger { level: level }),
        final(installer).ceiling() == level.filter(),
{
    let global_logger = ValenceLogger { level };
    installer.slot = Some(global_logger);
}

/// Once installed, a logger forwards an event exactly when the process-wide
/// ceiling lets it through: the two filters never disagree.
pub proof fn lemma_ceiling_agrees_with_logger(installer: Installer, level: Level)
    requires
        installer.installed() is Some,
    ensures
        installer.ceiling().admits(level) <==> installer.installed().unwrap().forwards(level),
{
}

} // verus!
