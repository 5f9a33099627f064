//! A bridge that relays log events from a sandboxed guest to its host.
//!
//! Every event is filtered by severity, turned into the wire message the host
//! expects, and packed into bytes. The library decides and encodes; the
//! embedding program owns the process-wide logging slot and the foreign call
//! that hands the bytes over.

pub mod level;
pub mod wire;
pub mod decode;
pub mod logger;
pub mod install;

pub use install::{init, Installer};
pub use level::{Level, LevelFilter};
pub use logger::{valence_log_v2, LogEvent, ValenceLogger};
pub use wire::WireMessage;
