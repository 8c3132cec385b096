//! A time-driven announcer: given a start, an end and a label for the end
//! event, it reports the time that is left at a pace that follows the time
//! left, and announces the arrival exactly once.
//!
//! Instants are UNIX timestamps in whole seconds. The library decides and
//! formats; sleeping between two ticks and delivering the messages is left to
//! the caller.

pub mod message;
pub mod pacing;
pub mod rollover;
pub mod runs;
pub mod timeloop;
pub mod topic;
