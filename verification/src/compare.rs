//! Equality and order of buffers. Both look at the bytes of a value and
//! never at the representation that holds them.
use vstd::prelude::*;
use vstd::std_specs::cmp::{PartialEqSpecImpl, PartialOrdSpecImpl};
use std::cmp::Ordering;
use crate::buffer::IVec;
use crate::order::{compare_bytes, equal_bytes, lex_order};

verus! {

impl PartialEq for IVec {
    /// Two values are equal when they hold the same bytes.
    fn eq(&self, other: &IVec) -> (same: bool) {
        equal_bytes(IVec::as_ref(self), IVec::as_ref(other))
    }
}

impl PartialEqSpecImpl for IVec {
    open spec fn obeys_eq_spec() -> bool {
        true
    }

    open spec fn eq_spec(&self, other: &IVec) -> bool {
        self@ == other@
    }
}

impl Eq for IVec {
}

impl PartialEq<[u8]> for IVec {
    /// A value equals a slice that holds the same bytes.
    fn eq(&self, other: &[u8]) -> (same: bool) {
        equal_bytes(IVec::as_ref(self), other)
    }
}

impl PartialEqSpecImpl<[u8]> for IVec {
    open spec fn obeys_eq_spec() -> bool {
        true
    }

    open spec fn eq_spec(&self, other: &[u8]) -> bool {
        self@ == other@
    }
}

impl<'a> PartialEq<&'a [u8]> for IVec {
    /// A value equals a borrowed slice that holds the same bytes.
    fn eq(&self, other: &&'a [u8]) -> (same: bool) {
        equal_bytes(IVec::as_ref(self), *other)
    }
}

impl<'a> PartialEqSpecImpl<&'a [u8]> for IVec {
    open spec fn obeys_eq_spec() -> bool {
        true
    }

    open spec fn eq_spec(&self, other: &&'a [u8]) -> bool {
        self@ == other@
    }
}

impl PartialEq<Vec<u8>> for IVec {
    /// A value equals a vector that holds the same bytes.
    fn eq(&self, other: &Vec<u8>) -> (same: bool) {
        equal_bytes(IVec::as_ref(self), other.as_slice())
    }
}

impl PartialEqSpecImpl<Vec<u8>> for IVec {
    open spec fn obeys_eq_spec() -> bool {
        true
    }

    open spec fn eq_spec(&self, other: &Vec<u8>) -> bool {
        self@ == other@
    }
}

impl<const N: usize> PartialEq<[u8; N]> for IVec {
    /// A value equals an array that holds the same bytes.
    fn eq(&self, other: &[u8; N]) -> (same: bool) {
        let bytes: &[u8] = other;
        equal_bytes(IVec::as_ref(self), bytes)
    }
}

impl<const N: usize> PartialEqSpecImpl<[u8; N]> for IVec {
    open spec fn obeys_eq_spec() -> bool {
        true
    }

    open spec fn eq_spec(&self, other: &[u8; N]) -> bool {
        self@ == other@
    }
}

impl PartialOrd for IVec {
    /// Values are ordered by their bytes, lexicographically; any two can be
    /// compared.
    fn partial_cmp(&self, other: &IVec) -> (order: Option<Ordering>) {
        Some(compare_bytes(IVec::as_ref(self), IVec::as_ref(other)))
    }
}

impl PartialOrdSpecImpl for IVec {
    open spec fn obeys_partial_cmp_spec() -> bool {
        true
    }

    open spec fn partial_cmp_spec(&self, other: &IVec) -> Option<Ordering> {
        Some(lex_order(self@, other@))
    }
}

impl IVec {
    /// Compares two values by their bytes, in lexicographic order.
    pub fn cmp(&self, other: &IVec) -> (order: Ordering)
        ensures
            order == lex_order(self@, other@),
    {
        compare_bytes(IVec::as_ref(self), IVec::as_ref(other))
    }
}

} // verus!
