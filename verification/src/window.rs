//! A range of a shared buffer.
use vstd::prelude::*;
use std::sync::Arc;
use crate::shared::{contents, exclusive_bytes, holders, share_again};
use crate::slices::{lemma_splice_any, placed, splice, window_mut};

verus! {

/// A handle to a shared buffer together with the range of it that is in use.
/// The range always lies within the buffer.
pub struct Window {
    buf: Arc<[u8]>,
    offset: usize,
    len: usize,
}

impl View for Window {
    type V = Seq<u8>;

    /// The bytes of the buffer that lie in the range.
    closed spec fn view(&self) -> Seq<u8> {
        contents(self.buf).subrange(self.offset as int, self.offset + self.len)
    }
}

impl Window {
    #[verifier::type_invariant]
    spec fn in_bounds(&self) -> bool {
        self.offset + self.len <= contents(self.buf).len()
    }

    /// All bytes of the buffer, in the range or not.
    pub closed spec fn backing(&self) -> Seq<u8> {
        contents(self.buf)
    }

    /// Where in the buffer the range starts.
    pub closed spec fn offset(&self) -> nat {
        self.offset as nat
    }

    /// The range `[offset, offset + len)` of `buf`.
    pub fn new(buf: Arc<[u8]>, offset: usize, len: usize) -> (w: Self)
        requires
            offset + len <= contents(buf).len(),
        ensures
            w@ == contents(buf).subrange(offset as int, offset + len),
            w.backing() == contents(buf),
            w.offset() == offset,
            placed(w@, w.backing(), w.offset()),
    {
        Window { buf, offset, len }
    }

    /// The range `[start, start + len)` of this range, on the same buffer.
    /// The new offset counts from the start of the buffer.
    pub fn narrow(&self, start: usize, len: usize) -> (w: Self)
        requires
            start + len <= self@.len(),
        ensures
            w@ == self@.subrange(start as int, start + len),
            w.backing() == self.backing(),
            w.offset() == self.offset() + start,
            placed(w@, w.backing(), w.offset()),
    {
        proof {
            use_type_invariant(self);
        }
        assert((*self.buf)@.len() == (*self.buf).len());
        let w = Window { buf: share_again(&self.buf), offset: self.offset + start, len };
        assert(w@ =~= self@.subrange(start as int, start + len));
        w
    }

    /// The number of handles that the buffer has right now.
    pub fn holders(&self) -> (count: usize)
        ensures
            count >= 1,
    {
        holders(&self.buf)
    }

    /// The bytes in the range.
    pub fn as_slice(&self) -> (bytes: &[u8])
        ensures
            bytes@ == self@,
            placed(self@, self.backing(), self.offset()),
    {
        proof {
            use_type_invariant(self);
        }
        let all: &[u8] = &*self.buf;
        assert(all@.len() == all.len());
        vstd::slice::slice_subrange(all, self.offset, self.offset + self.len)
    }

    /// The bytes in the range, open to writing. The rest of the buffer stays
    /// as it is.
    pub fn as_mut_slice(&mut self) -> (bytes: &mut [u8])
        ensures
            bytes@ == old(self)@,
            final(bytes)@.len() == bytes@.len(),
            final(self)@ == final(bytes)@,
            final(self).offset() == old(self).offset(),
            final(self).backing() == splice(
                old(self).backing(),
                old(self).offset() as int,
                (old(self).offset() + old(self)@.len()) as int,
                final(bytes)@,
            ),
            placed(final(self)@, final(self).backing(), final(self).offset()),
    {
        proof {
            use_type_invariant(&*self);
        }
        let start: usize = self.offset;
        assert((*self.buf)@.len() == (*self.buf).len());
        let end: usize = self.offset + self.len;
        let all = exclusive_bytes(&mut self.buf);
        proof {
            lemma_splice_any(all@, start as int, end as int);
        }
        window_mut(all, start, end)
    }
}

impl Clone for Window {
    /// Another handle to the same buffer, with the same range.
    fn clone(&self) -> (w: Self)
        ensures
            w == *self,
    {
        proof {
            use_type_invariant(self);
        }
        Window { buf: share_again(&self.buf), offset: self.offset, len: self.len }
    }
}

} // verus!
