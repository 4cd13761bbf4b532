//! What providers store: journal entries and snapshots.

pub mod journal;
pub mod snapshot;

pub use self::journal::{ascending, holds, Journal, JournalPayload};
pub use self::snapshot::SnapShotPayload;

use vstd::prelude::*;
use crate::system::ExtensionMissingError;

verus! {

/// The journal protocol that a system was built with, or the report that it
/// was built with none.
pub fn journal_protocol<P>(installed: Option<P>) -> (r: Result<P, ExtensionMissingError>)
    ensures
        match installed {
            Some(protocol) => r == Ok::<P, ExtensionMissingError>(protocol),
            None => r matches Err(missing) && missing.module@ == "JournalProtocol"@,
        },
{
    match installed {
        Some(protocol) => Ok(protocol),
        None => Err(ExtensionMissingError { module: "JournalProtocol" }),
    }
}

/// The snapshot protocol that a system was built with, or the report that it
/// was built with none.
pub fn snapshot_protocol<P>(installed: Option<P>) -> (r: Result<P, ExtensionMissingError>)
    ensures
        match installed {
            Some(protocol) => r == Ok::<P, ExtensionMissingError>(protocol),
            None => r matches Err(missing) && missing.module@ == "SnapShotProtocol"@,
        },
{
    match installed {
        Some(protocol) => Ok(protocol),
        None => Err(ExtensionMissingError { module: "SnapShotProtocol" }),
    }
}

} // verus!
