//! The borrowed view type: a zero-copy wrapper over a byte slice.

use crate::compare::{bytes_eq, cmp_bytes, spec_lex_cmp};
use crate::escape::{render_string, spec_render_chars};
use core::cmp::Ordering;
use vstd::prelude::*;
use vstd::slice::slice_to_vec;

verus! {

/// Wraps a borrowed byte slice and provides a rendering in the Rust
/// byte-string literal syntax (e.g. `b"abc"`). Every other behaviour —
/// equality, ordering, hashing, element access — is that of the
/// underlying slice.
#[derive(Clone, Copy, Eq, Hash)]
pub struct ByteStr<'a>(pub &'a [u8]);

impl<'a> View for ByteStr<'a> {
    type V = Seq<u8>;

    open spec fn view(&self) -> Seq<u8> {
        self.0@
    }
}

impl<'a> ByteStr<'a> {
    /// Wraps an immutable byte slice; no byte is copied or changed.
    pub fn new(s: &'a [u8]) -> (r: ByteStr<'a>)
        ensures
            r@ == s@,
    {
        ByteStr(s)
    }

    /// Wraps a mutable byte slice, read-only, for as long as the view
    /// lives; no byte is copied or changed.
    pub fn new_mut(s: &'a mut [u8]) -> (r: ByteStr<'a>)
        ensures
            r@ == old(s)@,
            final(s)@ == old(s)@,
    {
        ByteStr(s)
    }

    /// The underlying byte slice.
    pub fn as_slice(&self) -> (r: &'a [u8])
        ensures
            r@ == self@,
    {
        self.0
    }

    /// The bytes, copied into a fresh vector, in sequence order.
    pub fn to_vec(&self) -> (r: Vec<u8>)
        ensures
            r@ == self@,
    {
        slice_to_vec(self.0)
    }

    /// The number of bytes viewed.
    pub fn len(&self) -> (r: usize)
        ensures
            r == self@.len(),
    {
        self.0.len()
    }

    /// Whether the view is over an empty sequence.
    pub fn is_empty(&self) -> (r: bool)
        ensures
            r == (self@.len() == 0),
    {
        self.0.len() == 0
    }

    /// The byte at a position.
    pub fn get(&self, i: usize) -> (r: u8)
        requires
            i < self@.len(),
        ensures
            r == self@[i as int],
    {
        self.0[i]
    }

    /// Whether the viewed bytes equal a byte slice.
    pub fn eq_bytes(&self, other: &[u8]) -> (r: bool)
        ensures
            r == (self@ == other@),
    {
        bytes_eq(self.0, other)
    }

    /// The escaped rendering of the viewed bytes: `b"`, each byte's
    /// escape in sequence order, then `"`.
    pub fn to_debug_string(&self) -> (r: String)
        ensures
            r@ == spec_render_chars(self@),
    {
        render_string(self.0)
    }
}

impl<'a> PartialEq for ByteStr<'a> {
    /// Equality is equality of the underlying bytes.
    fn eq(&self, other: &Self) -> (r: bool) {
        bytes_eq(self.0, other.0)
    }
}

impl<'a> vstd::std_specs::cmp::PartialEqSpecImpl for ByteStr<'a> {
    open spec fn obeys_eq_spec() -> bool {
        true
    }

    open spec fn eq_spec(&self, other: &Self) -> bool {
        self@ == other@
    }
}

impl<'a> PartialOrd for ByteStr<'a> {
    /// Ordering is the lexicographic order of the underlying bytes.
    fn partial_cmp(&self, other: &Self) -> (r: Option<Ordering>) {
        Some(cmp_bytes(self.0, other.0))
    }
}

impl<'a> vstd::std_specs::cmp::PartialOrdSpecImpl for ByteStr<'a> {
    open spec fn obeys_partial_cmp_spec() -> bool {
        true
    }

    open spec fn partial_cmp_spec(&self, other: &Self) -> Option<Ordering> {
        Some(spec_lex_cmp(self@, other@))
    }
}

impl<'a> Default for ByteStr<'a> {
    /// The view over an empty sequence.
    fn default() -> (r: ByteStr<'a>)
        ensures
            r@ == Seq::<u8>::empty(),
    {
        let empty: &[u8] = &[];
        proof {
            assert(empty@ =~= Seq::<u8>::empty());
        }
        ByteStr(empty)
    }
}

} // verus!
