//! Equality and order of identifiers: both go by the sixteen bytes, compared
//! from the first.

use crate::layout::lex_less;
use crate::value::{Rank, Uuid};
use core::cmp::Ordering;
use vstd::prelude::*;
use vstd::std_specs::cmp::{PartialEqSpecImpl, PartialOrdSpecImpl};

verus! {

impl PartialEq for Uuid {
    /// Whether the two hold the same sixteen bytes.
    fn eq(&self, other: &Uuid) -> (r: bool) {
        match self.rank(other) {
            Rank::Same => true,
            _ => false,
        }
    }
}

impl PartialEqSpecImpl for Uuid {
    open spec fn obeys_eq_spec() -> bool {
        true
    }

    open spec fn eq_spec(&self, other: &Uuid) -> bool {
        self@ == other@
    }
}

impl PartialOrd for Uuid {
    /// How the two stand in the order of their bytes, which is total.
    fn partial_cmp(&self, other: &Uuid) -> (r: Option<Ordering>) {
        match self.rank(other) {
            Rank::Before => Some(Ordering::Less),
            Rank::Same => Some(Ordering::Equal),
            Rank::After => Some(Ordering::Greater),
        }
    }
}

impl PartialOrdSpecImpl for Uuid {
    open spec fn obeys_partial_cmp_spec() -> bool {
        true
    }

    open spec fn partial_cmp_spec(&self, other: &Uuid) -> Option<Ordering> {
        if self@ == other@ {
            Some(Ordering::Equal)
        } else if lex_less(self@, other@) {
            Some(Ordering::Less)
        } else {
            Some(Ordering::Greater)
        }
    }
}

} // verus!
