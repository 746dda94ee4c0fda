//! The sizing policy: which lengths are stored inline.
use vstd::prelude::*;

verus! {

/// The largest length, in bytes, that is stored inline.
pub const CUTOFF: usize = 22;

/// Whether a value of `length` bytes is stored inline.
pub open spec fn fits_inline(length: nat) -> bool {
    length <= CUTOFF
}

/// Decides whether a value of `length` bytes is stored inline.
pub fn is_inline_candidate(length: usize) -> (r: bool)
    ensures
        r == fits_inline(length as nat),
{
    length <= CUTOFF
}

} // verus!
