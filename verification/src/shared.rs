//! The reference-counted buffer behind long values: the calls into
//! `std::sync::Arc` that the rest of the library is built on.
//!
//! Nothing in this file is proved. Each function makes one call, and its
//! contract says what the standard library documents of that call.
use vstd::prelude::*;
use std::sync::Arc;

verus! {

/// The bytes that a shared buffer holds.
pub open spec fn contents(arc: Arc<[u8]>) -> Seq<u8> {
    (*arc)@
}

/// Allocates a shared buffer that holds a copy of `bytes`
/// (`Arc::<[u8]>::from(&[u8])`).
///
/// Trusted: the new buffer holds exactly the bytes of the slice.
#[verifier::external_body]
pub(crate) fn share_slice(bytes: &[u8]) -> (arc: Arc<[u8]>)
    ensures
        contents(arc) == bytes@,
{
    Arc::from(bytes)
}

/// Moves a vector into a shared buffer (`Arc::<[u8]>::from(Vec<u8>)`).
///
/// Trusted: the new buffer holds exactly the bytes of the vector.
#[verifier::external_body]
pub(crate) fn share_vec(bytes: Vec<u8>) -> (arc: Arc<[u8]>)
    ensures
        contents(arc) == bytes@,
{
    Arc::from(bytes)
}

/// Moves a boxed slice into a shared buffer (`Arc::<[u8]>::from(Box<[u8]>)`).
///
/// Trusted: the new buffer holds exactly the bytes of the box.
#[verifier::external_body]
pub(crate) fn share_box(bytes: Box<[u8]>) -> (arc: Arc<[u8]>)
    ensures
        contents(arc) == (*bytes)@,
{
    Arc::from(bytes)
}

/// Makes one more handle to the same buffer (`Arc::clone`).
///
/// Trusted: the new handle points at the same bytes as the old one.
#[verifier::external_body]
pub(crate) fn share_again(arc: &Arc<[u8]>) -> (other: Arc<[u8]>)
    ensures
        other == *arc,
{
    Arc::clone(arc)
}

/// The number of handles that point at this buffer right now
/// (`Arc::strong_count`).
///
/// Trusted: the handle in hand is counted, so the number is at least one.
/// Which number it is depends on who else holds the buffer, so nothing more
/// is claimed.
#[verifier::external_body]
pub(crate) fn holders(arc: &Arc<[u8]>) -> (count: usize)
    ensures
        count >= 1,
{
    Arc::strong_count(arc)
}

/// The bytes of the buffer, open to writing (`Arc::make_mut`).
///
/// Trusted: the slice handed out holds the bytes that the handle pointed at
/// and keeps its length, and when the borrow ends the handle points at what
/// was written. Where other handles remain, the standard library first moves
/// this handle to a copy of its own, so no other handle sees the write. The
/// call does not unwind: a byte is copied without running any code of the
/// caller, and a failed allocation aborts.
#[verifier::external_body]
pub(crate) fn exclusive_bytes(arc: &mut Arc<[u8]>) -> (bytes: &mut [u8])
    ensures
        bytes@ == contents(*old(arc)),
        final(bytes)@.len() == bytes@.len(),
        contents(*final(arc)) == final(bytes)@,
    no_unwind
{
    Arc::make_mut(arc)
}

} // verus!
