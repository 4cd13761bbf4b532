//! A closed interval of sequences.

use vstd::prelude::*;
use vstd::string::{to_string_from_display_ensures, StringExecFns};
use crate::persistence::identifier::SequenceId;
use crate::persistence::selector::error::SelectionError;

verus! {

/// The sequences from `min` to `max`, both included. `min` lies below `max`.
#[derive(Debug, Clone, Copy)]
pub struct SelectionCriteria {
    min: SequenceId,
    max: SequenceId,
}

impl SelectionCriteria {
    pub closed spec fn lower(&self) -> int {
        self.min@
    }

    pub closed spec fn upper(&self) -> int {
        self.max@
    }

    /// Whether the interval holds the position `seq`.
    pub open spec fn selects(&self, seq: int) -> bool {
        self.lower() <= seq <= self.upper()
    }

    #[verifier::type_invariant]
    closed spec fn spans(&self) -> bool {
        self.min@ < self.max@
    }

    /// The interval from `min` to `max`. Bounds that meet or cross are
    /// refused.
    pub fn new(min: i64, max: i64) -> (r: Result<SelectionCriteria, SelectionError>)
        ensures
            r.is_err() <==> min >= max,
            r matches Ok(c) ==> c.lower() == min && c.upper() == max,
    {
        if min >= max {
            return Err(SelectionError);
        }
        Ok(SelectionCriteria { min: SequenceId::new(min), max: SequenceId::new(max) })
    }

    /// The interval that holds every sequence.
    pub fn latest() -> (r: SelectionCriteria)
        ensures
            r.lower() == i64::MIN,
            r.upper() == i64::MAX,
    {
        SelectionCriteria { min: SequenceId::min(), max: SequenceId::max() }
    }

    pub fn matches(&self, seq: &SequenceId) -> (r: bool)
        ensures
            r == self.selects(seq@),
    {
        self.min.value() <= seq.value() && seq.value() <= self.max.value()
    }

    /// Whether `text` spells the interval out, with `min` and `max` as the
    /// numerals of its bounds.
    pub open spec fn spelled(min: Seq<char>, max: Seq<char>, text: Seq<char>) -> bool {
        text == "select { min: SequenceId("@ + min + "), max: SequenceId("@ + max + ") }"@
    }

    /// The interval, spelled out for a reader.
    pub fn to_string(&self) -> (r: String)
        ensures
            exists|min: String, max: String|
                {
                    &&& to_string_from_display_ensures::<i64>(&(self.lower() as i64), min)
                    &&& to_string_from_display_ensures::<i64>(&(self.upper() as i64), max)
                    &&& #[trigger] SelectionCriteria::spelled(min@, max@, r@)
                },
    {
        let min = self.min.value().to_string();
        let max = self.max.value().to_string();
        let mut text = String::from_str("select { min: SequenceId(");
        text.append(min.as_str());
        text.append("), max: SequenceId(");
        text.append(max.as_str());
        text.append(") }");
        proof {
            assert(SelectionCriteria::spelled(min@, max@, text@));
        }
        text
    }

    /// The lower bound, which lies below the upper one.
    pub fn min(&self) -> (r: SequenceId)
        ensures
            r@ == self.lower(),
            self.lower() < self.upper(),
    {
        proof {
            use_type_invariant(self);
        }
        self.min
    }

    /// The upper bound, which lies above the lower one.
    pub fn max(&self) -> (r: SequenceId)
        ensures
            r@ == self.upper(),
            self.lower() < self.upper(),
    {
        proof {
            use_type_invariant(self);
        }
        self.max
    }
}

} // verus!
