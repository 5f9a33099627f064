//! The bridge logger: the severity threshold and the path from an accepted event
//! to the bytes that cross to the host.

use vstd::prelude::*;
use crate::level::Level;
use crate::wire::{WireMessage, WireRecord};

verus! {

/// One log event as a call site produces it.
#[derive(Clone, Debug)]
pub struct LogEvent {
    pub severity: Level,
    pub target: String,
    pub message: String,
}

/// The wire message that stands for an event: the level's wire code beside
/// the two strings, unchanged.
pub open spec fn wire_record(level: Level, target: Seq<char>, message: Seq<char>) -> WireRecord {
    WireRecord { level: level.wire_code(), target: target, message: message }
}

impl LogEvent {
    /// The bytes the host receives for this event when it is forwarded.
    pub open spec fn frame(&self) -> Seq<u8> {
        wire_record(self.severity, self.target@, self.message@).encoding()
    }
}

/// Builds the frame that the host's `_valence_log_v2` entry point consumes:
/// maps the level to its wire code, wraps it with the two strings in a wire
/// message, and serializes that. The caller hands the bytes to the host
/// within the same call and drops them afterwards.
pub fn valence_log_v2(level: Level, target: String, message: String) -> (frame: Vec<u8>)
    ensures
        frame@ == wire_record(level, target@, message@).encoding(),
{
    let level = level.to_wire();
    let proto = WireMessage { level, target, message };
    proto.encode()
}

/// The logger behind the process-wide logging facade. It holds one value,
/// the least severe level it still forwards, and nothing else: calls on it
/// share no mutable state.
#[derive(Clone, Copy, Debug, PartialEq, Eq, Structural)]
pub struct ValenceLogger {
    pub level: Level,
}

impl Default for ValenceLogger {
    /// A logger that forwards `Info` and everything more severe.
    fn default() -> (logger: Self)
        ensures
            logger.level == Level::Info,
    {
        Self { level: Level::Info }
    }
}

impl ValenceLogger {
    /// Events of `level` are forwarded: `level` is at least as severe as the
    /// configured threshold.
    pub open spec fn forwards(&self, level: Level) -> bool {
        level.at_least(self.level)
    }

    /// Tells whether an event of `level` would be forwarded.
    pub fn enabled(&self, level: Level) -> (yes: bool)
        ensures
            yes == self.forwards(level),
    {
        level.is_at_least(self.level)
    }

    /// Decides what happens to `event`. An event that is forwarded yields
    /// exactly one frame, which the caller must hand to the host once; any
    /// other event yields `None`, and nothing is built for it.
    pub fn log(&self, event: &LogEvent) -> (outcome: Option<Vec<u8>>)
        ensures
            match outcome {
                Some(frame) => self.forwards(event.severity) && frame@ == event.frame(),
                None => !self.forwards(event.severity),
            },
    {
        if self.enabled(event.severity) {
            Some(valence_log_v2(event.severity, event.target.clone(), event.message.clone()))
        } else {
            None
        }
    }

    /// Does nothing: every frame leaves within the call that built it, so
    /// there is never anything held back.
    pub fn flush(&self) {
    }
}

} // verus!
