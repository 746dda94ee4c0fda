//! Laws that hold of every buffer, stated over the views and relations that
//! the contracts of the library use.
use vstd::prelude::*;
use vstd::std_specs::cmp::{PartialEqSpec, PartialOrdSpec};
use std::cmp::Ordering;
use crate::buffer::{
    detached, is_subslice_of, lemma_whole_is_placed, needs_copy, rewritten, IVec, Kind,
};
use crate::convert::built_from;
use crate::order::{lemma_lex_total, lemma_lex_transitive, lex_less};

verus! {

/// A value built from a sequence of bytes holds exactly those bytes, short
/// or long, and starts at the beginning of its storage.
pub proof fn lemma_built_holds_its_bytes(v: IVec, bytes: Seq<u8>)
    requires
        built_from(v, bytes),
    ensures
        v@ == bytes,
        v.well_placed(),
        v.kind() != Kind::Subslice,
{
    lemma_whole_is_placed(v);
}

/// A part of a part is a part of the whole, and the offsets add up: taking
/// `[b, b + m)` of the part `[a, a + n)` of a value gives what taking
/// `[a + b, a + b + m)` of the value gives, bytes and representation alike.
pub proof fn lemma_subslice_of_subslice(
    whole: IVec,
    first: IVec,
    second: IVec,
    a: nat,
    n: nat,
    b: nat,
    m: nat,
)
    requires
        a + n <= whole@.len(),
        b + m <= n,
        is_subslice_of(first, whole, a, n),
        is_subslice_of(second, first, b, m),
    ensures
        is_subslice_of(second, whole, a + b, m),
{
    assert(whole@.subrange(a as int, (a + n) as int).subrange(b as int, (b + m) as int)
        =~= whole@.subrange((a + b) as int, (a + b + m) as int));
}

/// The part that covers a whole value holds all its bytes, and the part of
/// no bytes at its end is empty.
pub proof fn lemma_subslice_ends(v: IVec, all: IVec, none: IVec)
    requires
        is_subslice_of(all, v, 0, v@.len()),
        is_subslice_of(none, v, v@.len(), 0),
    ensures
        all@ == v@,
        none@ == Seq::<u8>::empty(),
{
    assert(v@.subrange(0, v@.len() as int) =~= v@);
    assert(v@.subrange(v@.len() as int, v@.len() as int) =~= Seq::<u8>::empty());
}

/// A write through a clone is seen through the clone alone: the clone then
/// holds what was written, and the value it was cloned from holds what it
/// held.
pub proof fn lemma_write_leaves_clone(source: IVec, copy: IVec, written: IVec, bytes: Seq<u8>)
    requires
        copy == source,
        rewritten(copy, written, bytes),
    ensures
        written@ == bytes,
        source@ == copy@,
        written@ == source@ <==> bytes == source@,
{
}

/// A value whose buffer has other holders leaves that buffer before it is
/// written to, and takes nothing along but its own bytes. Written to then,
/// it holds what was written, in a buffer that holds nothing else.
pub proof fn lemma_shared_write_moves_out(
    before: IVec,
    moved: IVec,
    written: IVec,
    holders: usize,
    bytes: Seq<u8>,
)
    requires
        needs_copy(before.kind(), holders),
        detached(before, moved),
        rewritten(moved, written, bytes),
    ensures
        moved@ == before@,
        written.kind() == Kind::Remote,
        written.backing() == bytes,
        written@ == bytes,
{
}

/// Values that hold the same bytes are equal and stand at the same place in
/// the order, whatever representation each is in: each is ordered against
/// any third value as the other is.
pub proof fn lemma_same_bytes_same_rank(a: IVec, b: IVec, c: IVec)
    requires
        a@ == b@,
    ensures
        a.eq_spec(&b),
        a.partial_cmp_spec(&b) == Some(Ordering::Equal),
        a.eq_spec(&c) == b.eq_spec(&c),
        a.partial_cmp_spec(&c) == b.partial_cmp_spec(&c),
        c.partial_cmp_spec(&a) == c.partial_cmp_spec(&b),
{
}

/// The order of buffers is total and agrees with their equality: two values
/// are equal, or one comes before the other, and never both.
pub proof fn lemma_order_is_total(a: IVec, b: IVec)
    ensures
        a.partial_cmp_spec(&b) == Some(Ordering::Equal) <==> a.eq_spec(&b),
        a.partial_cmp_spec(&b) == Some(Ordering::Less) <==> b.partial_cmp_spec(&a) == Some(
            Ordering::Greater,
        ),
        a.partial_cmp_spec(&b) == Some(Ordering::Less) <==> lex_less(a@, b@),
{
    lemma_lex_total(a@, b@);
}

/// The order of buffers is transitive.
pub proof fn lemma_order_is_transitive(a: IVec, b: IVec, c: IVec)
    requires
        a.partial_cmp_spec(&b) == Some(Ordering::Less),
        b.partial_cmp_spec(&c) == Some(Ordering::Less),
    ensures
        a.partial_cmp_spec(&c) == Some(Ordering::Less),
{
    lemma_lex_total(a@, b@);
    lemma_lex_total(b@, c@);
    lemma_lex_total(a@, c@);
    lemma_lex_transitive(a@, b@, c@);
}

} // verus!
