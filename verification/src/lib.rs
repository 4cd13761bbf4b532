//! The deterministic core of an actor runtime.
//!
//! Everything here works on plain values: identifiers, running states, the
//! registry of live actors, the decisions of an actor's lifecycle, and the
//! event-sourced recovery of persistent actors. Channels, tasks and storage
//! providers belong to the shell around this crate, which performs each
//! action this core decides on and reports back what happened.

pub mod actor;
pub mod errors;
pub mod identifier;
pub mod persistence;
pub mod system;
pub mod token;
