//! Event-sourced persistence: identifiers, selection, payloads and recovery.

pub mod actor;
pub mod context;
pub mod errors;
pub mod extension;
pub mod fixture;
pub mod identifier;
pub mod journal;
pub mod mapping;
pub mod recovery;
pub mod selector;
pub mod snapshot;
pub mod system;

pub use self::selector::{SelectionCriteria, SelectionError};
pub use self::context::PersistContext;
pub use self::journal::Event;
pub use self::snapshot::SnapShot;
