//! Counting the items of a source without traversing it where its length is
//! known beforehand.

use vstd::prelude::*;

verus! {

/// What a source says of its length before it is traversed: at least
/// `lower` items and, where `upper` is given, at most that many.
#[derive(Clone, Copy, Debug, PartialEq, Eq)]
pub struct LengthHint {
    pub lower: usize,
    pub upper: Option<usize>,
}

impl LengthHint {
    /// Whether the two bounds meet, so that the hint names one length.
    pub open spec fn is_exact(self) -> bool {
        self.upper == Some(self.lower)
    }

    /// The hint of a source that holds exactly `len` items.
    pub fn exact(len: usize) -> (hint: LengthHint)
        ensures
            hint.lower == len,
            hint.upper == Some(len),
            hint.is_exact(),
    {
        LengthHint { lower: len, upper: Some(len) }
    }

    /// The length that the hint names, where it names one.
    pub fn exact_length(&self) -> (len: Option<usize>)
        ensures
            len == (if self.is_exact() {
                Some(self.lower)
            } else {
                None::<usize>
            }),
    {
        match self.upper {
            Some(upper) => if upper == self.lower {
                Some(self.lower)
            } else {
                None
            },
            None => None,
        }
    }
}

/// The number of items that a source with the given hint counts as holding,
/// where a full traversal yields `traversed` items: an exact hint is
/// trusted, any other is set aside for the traversal.
pub open spec fn spec_item_count(hint: LengthHint, traversed: nat) -> nat {
    if hint.is_exact() {
        hint.lower as nat
    } else {
        traversed
    }
}

/// Counts the items of a source. An exact hint is taken at its word and the
/// items are not looked at; otherwise the count is the number of items that
/// the source holds.
pub fn count_items<T>(hint: LengthHint, items: &Vec<T>) -> (count: usize)
    ensures
        count == spec_item_count(hint, items@.len()),
{
    match hint.exact_length() {
        Some(len) => len,
        None => items.len(),
    }
}

} // verus!
