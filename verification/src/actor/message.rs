//! Messages.

use vstd::prelude::*;

verus! {

/// What can be sent to an actor.
pub trait Message: 'static + Sync + Send {
}

} // verus!
