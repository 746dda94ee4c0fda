//! Fixed-capacity storage for short values.
use vstd::prelude::*;
use crate::policy::CUTOFF;
use crate::slices::{lemma_splice_any, window_mut};

verus! {

/// Up to `CUTOFF` bytes held in place, with no allocation behind them.
///
/// Only the first `len` bytes of the array are part of the value. The length
/// is a full word, so the bytes start on a word boundary.
#[derive(Clone, Copy)]
pub struct InlineBuf {
    len: usize,
    bytes: [u8; CUTOFF],
}

impl View for InlineBuf {
    type V = Seq<u8>;

    closed spec fn view(&self) -> Seq<u8> {
        self.bytes@.subrange(0, self.len as int)
    }
}

impl InlineBuf {
    #[verifier::type_invariant]
    spec fn within_capacity(&self) -> bool {
        self.len <= CUTOFF
    }

    /// Copies `slice` into fresh inline storage.
    pub fn from_slice(slice: &[u8]) -> (buf: Self)
        requires
            slice@.len() <= CUTOFF,
        ensures
            buf@ == slice@,
    {
        let mut bytes: [u8; CUTOFF] = [0u8; CUTOFF];
        let n: usize = slice.len();
        let mut i: usize = 0;
        while i < n
            invariant
                n == slice@.len(),
                n <= CUTOFF,
                i <= n,
                forall|k: int| 0 <= k < i ==> bytes@[k] == slice@[k],
            decreases n - i,
        {
            bytes[i] = slice[i];
            i += 1;
        }
        let buf = InlineBuf { len: n, bytes };
        assert(buf@ =~= slice@);
        buf
    }

    /// The bytes held.
    pub fn as_slice(&self) -> (s: &[u8])
        ensures
            s@ == self@,
            s@.len() <= CUTOFF,
    {
        proof {
            use_type_invariant(self);
        }
        let all: &[u8] = &self.bytes;
        vstd::slice::slice_subrange(all, 0, self.len)
    }

    /// The bytes held, open to writing in place.
    pub fn as_mut_slice(&mut self) -> (s: &mut [u8])
        ensures
            s@ == old(self)@,
            final(s)@.len() == s@.len(),
            final(self)@ == final(s)@,
    {
        proof {
            use_type_invariant(&*self);
        }
        let n: usize = self.len;
        let all: &mut [u8] = &mut self.bytes;
        proof {
            lemma_splice_any(all@, 0, n as int);
        }
        window_mut(all, 0, n)
    }
}

} // verus!
