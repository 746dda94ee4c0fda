//! The buffer type, its three representations, and the moves between them.
use vstd::prelude::*;
use vstd::std_specs::convert::IntoSpecImpl;
use std::sync::Arc;
use crate::inline::InlineBuf;
use crate::policy::fits_inline;
use crate::shared::{contents, exclusive_bytes, holders, share_again, share_slice};
use crate::slices::{placed, splice};
use crate::window::Window;

verus! {

/// Which of the three representations a value is held in.
#[derive(Clone, Copy, Debug, PartialEq, Eq, Structural)]
pub enum Kind {
    /// The bytes are stored in the value itself.
    Inline,
    /// The value is the whole of a shared buffer.
    Remote,
    /// The value is a window into a shared buffer.
    Subslice,
}

enum Repr {
    Inline { store: InlineBuf },
    Remote { buf: Arc<[u8]> },
    Subslice { window: Window },
}

/// A byte buffer that is cheap to clone: short values are stored inline, long
/// ones share a reference-counted allocation that is copied only when one of
/// its holders writes to it.
///
/// The view of a value is the sequence of its bytes. Beside it stand three
/// facts about the representation: `kind()`, `backing()` and `offset()`.
pub struct IVec {
    repr: Repr,
}

impl View for IVec {
    type V = Seq<u8>;

    /// The bytes of the value, whichever representation holds them.
    closed spec fn view(&self) -> Seq<u8> {
        match self.repr {
            Repr::Inline { store } => store@,
            Repr::Remote { buf } => contents(buf),
            Repr::Subslice { window } => window@,
        }
    }
}

/// The representation of a part taken of a value of the given kind: a part
/// of an inline value is inline, a part of anything else is a window.
pub open spec fn subslice_kind(parent: Kind) -> Kind {
    match parent {
        Kind::Inline => Kind::Inline,
        _ => Kind::Subslice,
    }
}

/// Whether `sub` is the part of `parent` that starts at `start` and holds
/// `len` bytes, as `subslice` makes it.
///
/// A part of an inline value stands alone. A part of a value in a shared
/// buffer is a window on the same buffer, and its offset is the parent's
/// offset plus `start`.
pub open spec fn is_subslice_of(sub: IVec, parent: IVec, start: nat, len: nat) -> bool {
    &&& sub@ == parent@.subrange(start as int, (start + len) as int)
    &&& sub.kind() == subslice_kind(parent.kind())
    &&& parent.kind() == Kind::Inline ==> sub.backing() == sub@ && sub.offset() == 0
    &&& parent.kind() != Kind::Inline ==> sub.backing() == parent.backing() && sub.offset()
        == parent.offset() + start
}

/// Whether a value of this kind must move to a buffer of its own before it is
/// written to, when its buffer has `holders` handles.
pub open spec fn needs_copy(kind: Kind, holders: usize) -> bool {
    kind != Kind::Inline && holders != 1
}

/// Whether `after` is `before` moved into a buffer of its own: the bytes are
/// the same, and they are all that the new buffer holds.
pub open spec fn detached(before: IVec, after: IVec) -> bool {
    &&& after@ == before@
    &&& after.kind() == Kind::Remote
    &&& after.backing() == before@
    &&& after.offset() == 0
}

/// Whether `after` is what `before` has become once its bytes were open to
/// writing and `bytes` is what was left in them.
///
/// A window that was written in place is still a window at the same offset,
/// and its buffer differs from the old one in the window alone. Any other
/// value holds the written bytes and nothing else.
pub open spec fn rewritten(before: IVec, after: IVec, bytes: Seq<u8>) -> bool {
    &&& after@ == bytes
    &&& after.kind() == before.kind() || (before.kind() == Kind::Subslice && after.kind()
        == Kind::Remote)
    &&& after.kind() == Kind::Subslice ==> after.offset() == before.offset() && after.backing()
        == splice(
        before.backing(),
        before.offset() as int,
        (before.offset() + before@.len()) as int,
        bytes,
    )
    &&& after.kind() != Kind::Subslice ==> after.offset() == 0 && after.backing() == bytes
}

/// A value that starts at the beginning of its storage, and whose storage
/// holds its bytes and nothing else, is well placed.
pub proof fn lemma_whole_is_placed(v: IVec)
    ensures
        v.backing() == v@ && v.offset() == 0 ==> v.well_placed(),
        v.kind() != Kind::Subslice ==> v.backing() == v@ && v.offset() == 0,
{
    assert(v@ =~= v@.subrange(0, v@.len() as int));
}

impl IVec {
    /// The representation that holds the value.
    pub closed spec fn spec_kind(&self) -> Kind {
        match self.repr {
            Repr::Inline { .. } => Kind::Inline,
            Repr::Remote { .. } => Kind::Remote,
            Repr::Subslice { .. } => Kind::Subslice,
        }
    }

    /// The bytes of the storage behind the value: the whole shared buffer for
    /// `Remote` and `Subslice`, the value's own bytes for `Inline`.
    pub closed spec fn backing(&self) -> Seq<u8> {
        match self.repr {
            Repr::Inline { store } => store@,
            Repr::Remote { buf } => contents(buf),
            Repr::Subslice { window } => window.backing(),
        }
    }

    /// Where in `backing()` the value starts: zero unless it is a `Subslice`.
    pub closed spec fn offset(&self) -> nat {
        match self.repr {
            Repr::Inline { store } => 0,
            Repr::Remote { buf } => 0,
            Repr::Subslice { window } => window.offset(),
        }
    }

    /// Whether the bytes of the value are those of its storage from
    /// `offset()` on. Every value that the library hands out is.
    pub open spec fn well_placed(&self) -> bool {
        placed(self@, self.backing(), self.offset())
    }

    /// The representation that holds the value.
    #[verifier::when_used_as_spec(spec_kind)]
    pub fn kind(&self) -> (k: Kind)
        ensures
            k == self.spec_kind(),
    {
        match &self.repr {
            Repr::Inline { .. } => Kind::Inline,
            Repr::Remote { .. } => Kind::Remote,
            Repr::Subslice { .. } => Kind::Subslice,
        }
    }

    /// Stores a short value inline.
    pub fn inline(slice: &[u8]) -> (v: Self)
        requires
            fits_inline(slice@.len()),
        ensures
            v@ == slice@,
            v.kind() == Kind::Inline,
            v.backing() == slice@,
            v.offset() == 0,
    {
        IVec { repr: Repr::Inline { store: InlineBuf::from_slice(slice) } }
    }

    /// Takes a shared buffer, whole, as the value.
    pub fn remote(arc: Arc<[u8]>) -> (v: Self)
        ensures
            v@ == contents(arc),
            v.kind() == Kind::Remote,
            v.backing() == contents(arc),
            v.offset() == 0,
    {
        IVec { repr: Repr::Remote { buf: arc } }
    }

    /// A value that holds `len` bytes of this one, from `slice_offset` on.
    ///
    /// An inline value gives an inline value with a copy of the bytes. A
    /// value in a shared buffer gives a window into the same buffer, however
    /// short the window is; the window's offset counts from the start of the
    /// buffer, so offsets add up when a window is taken of a window. The sum
    /// cannot overflow: a window never reaches past the end of its buffer.
    pub fn subslice(&self, slice_offset: usize, len: usize) -> (sub: Self)
        requires
            slice_offset + len <= self@.len(),
        ensures
            is_subslice_of(sub, *self, slice_offset as nat, len as nat),
            sub.well_placed(),
    {
        match &self.repr {
            Repr::Remote { buf } => {
                assert((**buf)@.len() == (**buf).len());
                let window = Window::new(share_again(buf), slice_offset, len);
                IVec { repr: Repr::Subslice { window } }
            },
            Repr::Inline { store } => {
                let bytes = store.as_slice();
                let range = vstd::slice::slice_subrange(bytes, slice_offset, slice_offset + len);
                let sub = IVec { repr: Repr::Inline { store: InlineBuf::from_slice(range) } };
                assert(sub@ =~= sub@.subrange(0, sub@.len() as int));
                sub
            },
            Repr::Subslice { window } => IVec {
                repr: Repr::Subslice { window: window.narrow(slice_offset, len) },
            },
        }
    }

    /// A value that holds `len` bytes of this one, from `slice_offset` on, or
    /// `None` where the value has no such range.
    pub fn checked_subslice(&self, slice_offset: usize, len: usize) -> (sub: Option<Self>)
        ensures
            sub is Some <==> slice_offset + len <= self@.len(),
            sub matches Some(s) ==> is_subslice_of(s, *self, slice_offset as nat, len as nat)
                && s.well_placed(),
    {
        let total: usize = IVec::as_ref(self).len();
        if slice_offset <= total && len <= total - slice_offset {
            Some(self.subslice(slice_offset, len))
        } else {
            None
        }
    }

    /// Moves the value into a buffer of its own, which holds its bytes and
    /// nothing else. An inline value is left as it is.
    pub fn detach(&mut self)
        ensures
            old(self).kind() == Kind::Inline ==> *final(self) == *old(self),
            old(self).kind() != Kind::Inline ==> detached(*old(self), *final(self)),
    {
        match &self.repr {
            Repr::Inline { .. } => {},
            _ => {
                let own = share_slice(IVec::as_ref(&*self));
                self.repr = Repr::Remote { buf: own };
            },
        }
    }

    /// Prepares the value for writing, given the number of handles that its
    /// buffer has: a buffer with other holders is left to them, and the value
    /// moves into one of its own. A buffer with one holder stays.
    pub fn unshare(&mut self, holders: usize)
        ensures
            needs_copy(old(self).kind(), holders) ==> detached(*old(self), *final(self)),
            !needs_copy(old(self).kind(), holders) ==> *final(self) == *old(self),
    {
        if holders != 1 {
            self.detach();
        }
    }

    /// Prepares the value for writing: it counts the handles of its buffer
    /// and moves to a buffer of its own where there are others (`unshare`).
    pub fn make_mut(&mut self)
        ensures
            final(self)@ == old(self)@,
            *final(self) == *old(self) || (old(self).kind() != Kind::Inline && detached(
                *old(self),
                *final(self),
            )),
    {
        // An inline value has one holder, itself.
        let count: usize = match &self.repr {
            Repr::Inline { .. } => 1,
            Repr::Remote { buf } => holders(buf),
            Repr::Subslice { window } => window.holders(),
        };
        self.unshare(count);
    }
}

impl AsRef<[u8]> for IVec {
    /// The bytes of the value.
    fn as_ref(&self) -> (bytes: &[u8])
        ensures
            bytes@ == self@,
            self.well_placed(),
    {
        proof {
            lemma_whole_is_placed(*self);
        }
        match &self.repr {
            Repr::Inline { store } => store.as_slice(),
            Repr::Remote { buf } => &**buf,
            Repr::Subslice { window } => window.as_slice(),
        }
    }
}

impl AsMut<[u8]> for IVec {
    /// The bytes of the value, open to writing. What is written is seen
    /// through this value and through no other.
    ///
    /// Storage that other values share is first left to them (`make_mut`);
    /// an inline value, and a buffer with no other holder, is written in
    /// place.
    fn as_mut(&mut self) -> (bytes: &mut [u8])
        ensures
            bytes@ == old(self)@,
            final(bytes)@.len() == bytes@.len(),
            rewritten(*old(self), *final(self), final(bytes)@),
            final(self).well_placed(),
    {
        self.make_mut();
        proof {
            assert forall|v: IVec| v.backing() == v@ && v.offset() == 0 implies #[trigger] placed(
                v@,
                v.backing(),
                v.offset(),
            ) by {
                lemma_whole_is_placed(v);
            }
        }
        match &mut self.repr {
            Repr::Inline { store } => store.as_mut_slice(),
            Repr::Remote { buf } => exclusive_bytes(buf),
            Repr::Subslice { window } => window.as_mut_slice(),
        }
    }
}

impl Clone for IVec {
    /// Another value with the same bytes in the same representation. A
    /// shared buffer gains a holder and is not copied.
    fn clone(&self) -> (copy: Self)
        ensures
            copy == *self,
    {
        let repr = match &self.repr {
            Repr::Inline { store } => Repr::Inline { store: *store },
            Repr::Remote { buf } => Repr::Remote { buf: share_again(buf) },
            Repr::Subslice { window } => Repr::Subslice { window: window.clone() },
        };
        IVec { repr }
    }
}

impl Into<Arc<[u8]>> for IVec {
    /// Hands the bytes on as a shared buffer of their own. A value that is
    /// the whole of a shared buffer hands on that buffer; any other is
    /// copied into a new one.
    fn into(self) -> (arc: Arc<[u8]>)
        ensures
            contents(arc) == self@,
    {
        match self.repr {
            Repr::Remote { buf } => buf,
            _ => share_slice(IVec::as_ref(&self)),
        }
    }
}

/// The result of `into` is stated on the function itself; `into_spec` is
/// left open.
impl IntoSpecImpl<Arc<[u8]>> for IVec {
    open spec fn obeys_into_spec() -> bool {
        false
    }

    open spec fn into_spec(self) -> Arc<[u8]> {
        arbitrary()
    }
}

} // verus!
