//! Statistics of a directory scan: counters that are bumped by commands, the
//! reaction of the statistics handler to each command, and the replay of
//! statistics that an interrupted scan left on disk.

pub mod command;
pub mod counter;
pub mod handler;
pub mod json;
pub mod laws;
pub mod message;
pub mod message_laws;
pub mod operation_laws;
pub mod resume;
pub mod resume_laws;
pub mod stats;
pub mod status;

pub use command::{Seconds, StatCommand, StatError, StatField};
pub use handler::{accepts_command, handle_command, Effect, Reaction};
pub use resume::{load_state, load_stats, update_stats, LoadError};
pub use stats::{Stats, StatsView};
pub use status::StatusCode;
