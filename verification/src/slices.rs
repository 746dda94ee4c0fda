//! Operations on byte slices that the buffer is built from.
use vstd::prelude::*;

verus! {

/// What a sequence becomes when the window `[start, end)` of it is replaced
/// by `window`.
pub open spec fn splice(whole: Seq<u8>, start: int, end: int, window: Seq<u8>) -> Seq<u8> {
    whole.subrange(0, start) + window + whole.subrange(end, whole.len() as int)
}

/// Whether `part` is the range of `whole` that starts at `offset`.
pub open spec fn placed(part: Seq<u8>, whole: Seq<u8>, offset: nat) -> bool {
    &&& offset + part.len() <= whole.len()
    &&& part == whole.subrange(offset as int, (offset + part.len()) as int)
}

/// Borrows the window `[start, end)` of a slice for writing, as indexing a
/// mutable slice by a range does (`IndexMut<Range<usize>>` for `[u8]`).
///
/// Trusted: the window holds the bytes at those positions, it keeps its
/// length, and once the borrow ends the slice is what it was with the window
/// written back in place.
#[verifier::external_body]
pub(crate) fn window_mut(bytes: &mut [u8], start: usize, end: usize) -> (window: &mut [u8])
    requires
        start <= end <= old(bytes)@.len(),
    ensures
        window@ == old(bytes)@.subrange(start as int, end as int),
        final(window)@.len() == window@.len(),
        final(bytes)@ == splice(old(bytes)@, start as int, end as int, final(window)@),
{
    &mut bytes[start..end]
}

/// A window that is written back leaves a sequence of the same length, holds
/// the written bytes at the window's place, and changes nothing outside it.
pub proof fn lemma_splice(whole: Seq<u8>, start: int, end: int, window: Seq<u8>)
    requires
        0 <= start <= end <= whole.len(),
        window.len() == end - start,
    ensures
        splice(whole, start, end, window).len() == whole.len(),
        splice(whole, start, end, window).subrange(start, end) == window,
        splice(whole, start, end, window).subrange(0, start) == whole.subrange(0, start),
        splice(whole, start, end, window).subrange(end, whole.len() as int) == whole.subrange(
            end,
            whole.len() as int,
        ),
{
    let s = splice(whole, start, end, window);
    assert(s.subrange(start, end) =~= window);
    assert(s.subrange(0, start) =~= whole.subrange(0, start));
    assert(s.subrange(end, whole.len() as int) =~= whole.subrange(end, whole.len() as int));
}

/// `lemma_splice`, for every window of the right length at once.
pub proof fn lemma_splice_any(whole: Seq<u8>, start: int, end: int)
    requires
        0 <= start <= end <= whole.len(),
    ensures
        forall|window: Seq<u8>|
            window.len() == end - start ==> {
                &&& (#[trigger] splice(whole, start, end, window)).len() == whole.len()
                &&& splice(whole, start, end, window).subrange(start, end) == window
            },
{
    assert forall|window: Seq<u8>| window.len() == end - start implies {
        &&& (#[trigger] splice(whole, start, end, window)).len() == whole.len()
        &&& splice(whole, start, end, window).subrange(start, end) == window
    } by {
        lemma_splice(whole, start, end, window);
    }
}

} // verus!
