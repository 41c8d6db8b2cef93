//! Ranges of addresses, ordered so that a table of ranges that do not
//! overlap can be searched for the range that holds an address.

use vstd::prelude::*;
use std::cmp::Ordering;
use std::ops::Range;
use crate::data_types::Word;

verus! {

/// A range of addresses: from its start up to, but not including, its end.
#[derive(Default, PartialEq, Eq)]
pub struct MemRange(pub Range<Word>);

impl MemRange {
    /// The range holds the address.
    pub open spec fn holds(&self, word: Word) -> bool {
        self.0.start <= word && word < self.0.end
    }

    /// Where the range that holds `word` is to be looked for, seen from this
    /// range: here if this range holds the word, among the lower ranges if
    /// the word lies below this one's start, among the higher ranges if it
    /// lies at or above this one's end. A word at or above the end counts as
    /// above even where the range is empty or reversed.
    pub fn compare_with_word(&self, word: &Word) -> (found: Ordering)
        ensures
            found == Ordering::Equal <==> self.holds(*word),
            found == Ordering::Less <==> *word < self.0.end && *word < self.0.start,
            found == Ordering::Greater <==> *word >= self.0.end,
    {
        if *word < self.0.end {
            if *word >= self.0.start {
                return Ordering::Equal;
            }
            return Ordering::Less;
        }
        Ordering::Greater
    }

    /// How two ranges lie to each other: the first wholly below the second,
    /// wholly above it, or neither, which is `None`. A range that ends where
    /// the other starts is below it.
    pub open spec fn order(&self, other: &Self) -> Option<Ordering> {
        if self.0.end <= other.0.start {
            Some(Ordering::Less)
        } else if self.0.start >= other.0.end {
            Some(Ordering::Greater)
        } else {
            None
        }
    }
}

impl PartialOrd for MemRange {
    /// Compares two ranges by where they lie.
    fn partial_cmp(&self, other: &Self) -> (found: Option<Ordering>) {
        let self_range = &self.0;
        let other_range = &other.0;

        if self_range.end <= other_range.start {
            return Some(Ordering::Less);
        }
        if self_range.start >= other_range.end {
            return Some(Ordering::Greater);
        }
        None
    }
}

impl vstd::std_specs::cmp::PartialOrdSpecImpl for MemRange {
    open spec fn obeys_partial_cmp_spec() -> bool {
        true
    }

    open spec fn partial_cmp_spec(&self, other: &Self) -> Option<Ordering> {
        self.order(other)
    }
}

} // verus!
