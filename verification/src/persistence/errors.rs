//! The errors of writing to storage and of recovering from it.

pub mod persist;
pub mod recovery;
pub mod serde;

pub use self::persist::PersistError;
pub use self::recovery::RecoveryError;
pub use self::serde::{DeserializeError, SerializeError};
