//! Terminal-control command layer: uniform command values for terminal
//! operations, delivered either as ANSI escape bytes over a byte sink or as
//! direct calls against a native console interface, with a queue / execute /
//! synchronized-update protocol that preserves program order between the two
//! control surfaces.

pub mod command;
pub mod console;
pub mod cursor;
pub mod error;
pub mod sink;
pub mod terminal;

pub use command::Command;
pub use command::ExecutableCommand;
pub use command::QueueableCommand;
pub use command::SynchronizedUpdate;
pub use error::Error;
