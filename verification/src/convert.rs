//! Building a buffer from bytes held in other forms.
//!
//! Every conversion follows one policy: a value of at most `CUTOFF` bytes is
//! copied into inline storage, and a longer one is held in a shared buffer.
//!
//! Each `from` states its result on the function itself, through
//! `built_from`. The `from_spec` that stands beside each impl is left open,
//! but for the conversion from a reference, which is a clone: a value holds
//! more than its view tells (the unused end of inline storage, for one), so
//! no spec function picks out the one value that `from` returns.
use vstd::prelude::*;
use vstd::std_specs::convert::FromSpecImpl;
use vstd::string::StringSliceAdditionalSpecFns;
use std::sync::Arc;
use crate::buffer::{IVec, Kind};
use crate::policy::{fits_inline, is_inline_candidate};
use crate::shared::{contents, share_box, share_slice, share_vec};

verus! {

/// Whether `v` is what the sizing policy makes of `bytes`: it holds those
/// bytes from the start of its storage, inline where they fit and in a
/// shared buffer of their own where they do not.
pub open spec fn built_from(v: IVec, bytes: Seq<u8>) -> bool {
    &&& v@ == bytes
    &&& v.backing() == bytes
    &&& v.offset() == 0
    &&& v.kind() == if fits_inline(bytes.len()) {
        Kind::Inline
    } else {
        Kind::Remote
    }
}

impl<'a> From<&'a [u8]> for IVec {
    fn from(slice: &'a [u8]) -> (v: Self)
        ensures
            built_from(v, slice@),
    {
        if is_inline_candidate(slice.len()) {
            Self::inline(slice)
        } else {
            Self::remote(share_slice(slice))
        }
    }
}

impl<'a> FromSpecImpl<&'a [u8]> for IVec {
    open spec fn obeys_from_spec() -> bool {
        false
    }

    open spec fn from_spec(slice: &'a [u8]) -> Self {
        arbitrary()
    }
}

impl From<Vec<u8>> for IVec {
    fn from(v: Vec<u8>) -> (made: Self)
        ensures
            built_from(made, v@),
    {
        if is_inline_candidate(v.len()) {
            Self::inline(v.as_slice())
        } else {
            Self::remote(share_vec(v))
        }
    }
}

impl FromSpecImpl<Vec<u8>> for IVec {
    open spec fn obeys_from_spec() -> bool {
        false
    }

    open spec fn from_spec(v: Vec<u8>) -> Self {
        arbitrary()
    }
}

impl From<Box<[u8]>> for IVec {
    fn from(b: Box<[u8]>) -> (made: Self)
        ensures
            built_from(made, (*b)@),
    {
        if is_inline_candidate(b.len()) {
            Self::inline(&*b)
        } else {
            Self::remote(share_box(b))
        }
    }
}

impl FromSpecImpl<Box<[u8]>> for IVec {
    open spec fn obeys_from_spec() -> bool {
        false
    }

    open spec fn from_spec(b: Box<[u8]>) -> Self {
        arbitrary()
    }
}

impl From<Arc<[u8]>> for IVec {
    /// A short buffer is copied into inline storage and let go; a long one
    /// is kept as it is.
    fn from(arc: Arc<[u8]>) -> (made: Self)
        ensures
            built_from(made, contents(arc)),
    {
        if is_inline_candidate(arc.len()) {
            Self::inline(&*arc)
        } else {
            Self::remote(arc)
        }
    }
}

impl FromSpecImpl<Arc<[u8]>> for IVec {
    open spec fn obeys_from_spec() -> bool {
        false
    }

    open spec fn from_spec(arc: Arc<[u8]>) -> Self {
        arbitrary()
    }
}

impl<'a> From<&'a str> for IVec {
    /// Takes the bytes of the string's UTF-8 encoding.
    fn from(s: &'a str) -> (made: Self)
        ensures
            built_from(made, s.spec_bytes()),
    {
        Self::from(s.as_bytes())
    }
}

impl<'a> FromSpecImpl<&'a str> for IVec {
    open spec fn obeys_from_spec() -> bool {
        false
    }

    open spec fn from_spec(s: &'a str) -> Self {
        arbitrary()
    }
}

impl<'a> From<&'a IVec> for IVec {
    fn from(v: &'a IVec) -> (made: Self)
        ensures
            made == *v,
    {
        v.clone()
    }
}

impl<'a> FromSpecImpl<&'a IVec> for IVec {
    open spec fn obeys_from_spec() -> bool {
        true
    }

    open spec fn from_spec(v: &'a IVec) -> Self {
        *v
    }
}

impl<'a, const N: usize> From<&'a [u8; N]> for IVec {
    fn from(v: &'a [u8; N]) -> (made: Self)
        ensures
            built_from(made, v@),
    {
        let bytes: &[u8] = v;
        Self::from(bytes)
    }
}

impl<'a, const N: usize> FromSpecImpl<&'a [u8; N]> for IVec {
    open spec fn obeys_from_spec() -> bool {
        false
    }

    open spec fn from_spec(v: &'a [u8; N]) -> Self {
        arbitrary()
    }
}

} // verus!
