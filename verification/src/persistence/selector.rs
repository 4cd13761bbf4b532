//! Selecting a range of a journal.

pub mod error;
pub mod journal;

pub use self::error::SelectionError;
pub use self::journal::SelectionCriteria;
