//! Equality and lexicographic order of byte sequences.
use vstd::prelude::*;
use std::cmp::Ordering;

verus! {

/// Whether `a` and `b` hold the same bytes before position `n`.
pub open spec fn agree_before(a: Seq<u8>, b: Seq<u8>, n: int) -> bool {
    forall|k: int| 0 <= k < n ==> a[k] == b[k]
}

/// Whether `a` comes before `b` for the reason seen at position `i`: the two
/// agree before `i`, and there `a` ends while `b` goes on, or `a` holds the
/// smaller byte.
pub open spec fn less_at(a: Seq<u8>, b: Seq<u8>, i: int) -> bool {
    &&& 0 <= i <= a.len()
    &&& i < b.len()
    &&& agree_before(a, b, i)
    &&& (i == a.len() || a[i] < b[i])
}

/// Whether `a` comes strictly before `b` in lexicographic order.
pub open spec fn lex_less(a: Seq<u8>, b: Seq<u8>) -> bool {
    exists|i: int| less_at(a, b, i)
}

/// The lexicographic order of two byte sequences.
pub open spec fn lex_order(a: Seq<u8>, b: Seq<u8>) -> Ordering {
    if a == b {
        Ordering::Equal
    } else if lex_less(a, b) {
        Ordering::Less
    } else {
        Ordering::Greater
    }
}

/// No sequence comes before itself.
pub proof fn lemma_lex_irreflexive(a: Seq<u8>)
    ensures
        !lex_less(a, a),
{
}

/// Of two different sequences exactly one comes before the other.
pub proof fn lemma_lex_total(a: Seq<u8>, b: Seq<u8>)
    ensures
        a == b || lex_less(a, b) || lex_less(b, a),
        !(lex_less(a, b) && lex_less(b, a)),
        a == b ==> !lex_less(a, b),
{
    if a != b {
        lemma_first_difference(a, b, 0);
    }
    if lex_less(a, b) && lex_less(b, a) {
        let i = choose|i: int| less_at(a, b, i);
        let j = choose|j: int| less_at(b, a, j);
        if i < j {
            assert(a[i] == b[i]);
        } else if j < i {
            assert(a[j] == b[j]);
        }
    }
}

/// Two different sequences that agree before `from` are ordered one way or
/// the other.
proof fn lemma_first_difference(a: Seq<u8>, b: Seq<u8>, from: int)
    requires
        a != b,
        0 <= from <= a.len(),
        from <= b.len(),
        agree_before(a, b, from),
    ensures
        lex_less(a, b) || lex_less(b, a),
    decreases a.len() - from,
{
    if from == a.len() {
        if from == b.len() {
            assert(a =~= b);
        } else {
            assert(less_at(a, b, from));
        }
    } else if from == b.len() {
        assert(less_at(b, a, from));
    } else if a[from] < b[from] {
        assert(less_at(a, b, from));
    } else if b[from] < a[from] {
        assert(less_at(b, a, from));
    } else {
        lemma_first_difference(a, b, from + 1);
    }
}

/// What comes before a sequence also comes before everything after it.
pub proof fn lemma_lex_transitive(a: Seq<u8>, b: Seq<u8>, c: Seq<u8>)
    requires
        lex_less(a, b),
        lex_less(b, c),
    ensures
        lex_less(a, c),
{
    let i = choose|i: int| less_at(a, b, i);
    let j = choose|j: int| less_at(b, c, j);
    if i <= j {
        assert(less_at(a, c, i));
    } else {
        assert(less_at(a, c, j));
    }
}

/// Whether two slices hold the same bytes.
pub fn equal_bytes(a: &[u8], b: &[u8]) -> (same: bool)
    ensures
        same == (a@ == b@),
{
    if a.len() != b.len() {
        return false;
    }
    let n: usize = a.len();
    let mut i: usize = 0;
    while i < n
        invariant
            n == a@.len(),
            n == b@.len(),
            i <= n,
            agree_before(a@, b@, i as int),
        decreases n - i,
    {
        if a[i] != b[i] {
            return false;
        }
        i += 1;
    }
    assert(a@ =~= b@);
    true
}

/// Whether `a` comes before `b`, given that `i` is where the two first
/// differ or where the shorter one ends.
pub open spec fn less_from(a: Seq<u8>, b: Seq<u8>, i: int) -> bool {
    i < b.len() && (i == a.len() || a[i] < b[i])
}

/// Where two sequences stop agreeing decides how they are ordered.
pub proof fn lemma_order_at(a: Seq<u8>, b: Seq<u8>, i: int)
    requires
        0 <= i <= a.len(),
        i <= b.len(),
        agree_before(a, b, i),
        i < a.len() && i < b.len() ==> a[i] != b[i],
    ensures
        a == b <==> i == a.len() && i == b.len(),
        lex_less(a, b) <==> less_from(a, b, i),
        lex_less(b, a) <==> less_from(b, a, i),
{
    if i == a.len() && i == b.len() {
        assert(a =~= b);
    }
    if less_from(a, b, i) {
        assert(less_at(a, b, i));
    }
    if less_from(b, a, i) {
        assert(less_at(b, a, i));
    }
    lemma_lex_total(a, b);
}

/// The length of the longest common prefix of two slices.
pub fn common_prefix(a: &[u8], b: &[u8]) -> (i: usize)
    ensures
        i <= a@.len(),
        i <= b@.len(),
        agree_before(a@, b@, i as int),
        i < a@.len() && i < b@.len() ==> a@[i as int] != b@[i as int],
        a@ == b@ <==> i == a@.len() && i == b@.len(),
        lex_less(a@, b@) <==> less_from(a@, b@, i as int),
        lex_less(b@, a@) <==> less_from(b@, a@, i as int),
{
    let n: usize = if a.len() < b.len() {
        a.len()
    } else {
        b.len()
    };
    let mut i: usize = 0;
    while i < n && a[i] == b[i]
        invariant
            n <= a@.len(),
            n <= b@.len(),
            n == a@.len() || n == b@.len(),
            i <= n,
            agree_before(a@, b@, i as int),
        decreases n - i,
    {
        i += 1;
    }
    proof {
        lemma_order_at(a@, b@, i as int);
    }
    i
}

/// Compares two slices in lexicographic order.
pub fn compare_bytes(a: &[u8], b: &[u8]) -> (order: Ordering)
    ensures
        order == lex_order(a@, b@),
{
    let i: usize = common_prefix(a, b);
    if i == a.len() {
        if i == b.len() {
            Ordering::Equal
        } else {
            Ordering::Less
        }
    } else if i == b.len() {
        Ordering::Greater
    } else if a[i] < b[i] {
        Ordering::Less
    } else {
        Ordering::Greater
    }
}

} // verus!
