//! The standard ways in and out of a buffer: borrowing its bytes, the empty
//! value, hashing and printing.
use vstd::prelude::*;
use crate::buffer::{rewritten, IVec, Kind};
use crate::convert::built_from;

verus! {

/// The bytes behind a borrowed slice. `borrow` states its result through
/// this function, which fixes the type of what it hands out.
pub open spec fn borrowed(bytes: &[u8]) -> Seq<u8> {
    bytes@
}

impl std::ops::Deref for IVec {
    type Target = [u8];

    /// The bytes of the value.
    fn deref(&self) -> (bytes: &[u8])
        ensures
            bytes@ == self@,
    {
        IVec::as_ref(self)
    }
}

impl std::ops::DerefMut for IVec {
    /// The bytes of the value, open to writing, as `as_mut` hands them out.
    fn deref_mut(&mut self) -> (bytes: &mut [u8])
        ensures
            bytes@ == old(self)@,
            final(bytes)@.len() == bytes@.len(),
            rewritten(*old(self), *final(self), final(bytes)@),
            final(self).well_placed(),
    {
        IVec::as_mut(self)
    }
}

impl std::borrow::Borrow<[u8]> for IVec {
    fn borrow(&self) -> (bytes: &[u8])
        ensures
            borrowed(bytes) == self@,
    {
        IVec::as_ref(self)
    }
}

impl<'a> std::borrow::Borrow<[u8]> for &'a IVec {
    fn borrow(&self) -> (bytes: &[u8])
        ensures
            borrowed(bytes) == self@,
    {
        IVec::as_ref(*self)
    }
}

impl Default for IVec {
    /// The empty value.
    fn default() -> (v: Self)
        ensures
            built_from(v, Seq::<u8>::empty()),
            v.kind() == Kind::Inline,
    {
        let nothing: [u8; 0] = [];
        assert(nothing@ =~= Seq::<u8>::empty());
        IVec::inline(&nothing)
    }
}

impl std::hash::Hash for IVec {
    /// Feeds the bytes of the value to the hasher, as a slice of those
    /// bytes would be fed.
    fn hash<H: std::hash::Hasher>(&self, state: &mut H) {
        hash_bytes(IVec::as_ref(self), state)
    }
}

/// Feeds a slice to a hasher (`Hash::hash` for `[u8]`).
///
/// Trusted, with nothing claimed: what a hasher makes of the bytes is its
/// own affair.
#[verifier::external_body]
fn hash_bytes<H: std::hash::Hasher>(bytes: &[u8], state: &mut H) {
    std::hash::Hash::hash(bytes, state)
}

/// `std::fmt::Formatter`, taken as it is: nothing is known of what it holds.
#[verifier::external_type_specification]
#[verifier::external_body]
pub struct ExFormatter<'a>(std::fmt::Formatter<'a>);

/// `std::fmt::Error`, taken as it is: nothing is known of what it holds.
#[verifier::external_type_specification]
#[verifier::external_body]
pub struct ExFmtError(std::fmt::Error);

impl std::fmt::Debug for IVec {
    /// Prints the bytes of the value, as a slice of those bytes is printed.
    fn fmt(&self, f: &mut std::fmt::Formatter<'_>) -> std::fmt::Result {
        debug_bytes(IVec::as_ref(self), f)
    }
}

/// Prints a slice (`Debug::fmt` for `[u8]`).
///
/// Trusted, with nothing claimed of what is printed.
#[verifier::external_body]
fn debug_bytes(bytes: &[u8], f: &mut std::fmt::Formatter<'_>) -> std::fmt::Result {
    std::fmt::Debug::fmt(bytes, f)
}

} // verus!
