//! The error of a selection that selects nothing sensible.

use vstd::prelude::*;
use vstd::string::StringExecFns;

verus! {

/// The bounds of a selection do not span a range.
#[derive(Debug, Clone, Copy, PartialEq, Eq, Structural)]
pub struct SelectionError;

impl SelectionError {
    /// The text of this error.
    pub open spec fn message(&self) -> Seq<char> {
        "It is possible that the selection is incorrectly specified."@
    }

    pub fn to_string(&self) -> (r: String)
        ensures
            r@ == self.message(),
    {
        String::from_str("It is possible that the selection is incorrectly specified.")
    }
}

} // verus!
