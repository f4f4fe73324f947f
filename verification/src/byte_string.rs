//! The owned buffer type: a wrapper over a growable vector of bytes.

use crate::byte_str::ByteStr;
use crate::compare::{bytes_eq, cmp_bytes, spec_lex_cmp};
use crate::escape::spec_render_chars;
use core::cmp::Ordering;
use vstd::prelude::*;

verus! {

/// Wraps an owned vector of bytes and provides a rendering in the Rust
/// byte-string literal syntax (e.g. `b"abc"`). Every other behaviour —
/// equality, ordering, hashing, element access, growth — is that of
/// the underlying vector.
#[derive(Clone, Eq, Hash)]
pub struct ByteString(pub Vec<u8>);

impl View for ByteString {
    type V = Seq<u8>;

    open spec fn view(&self) -> Seq<u8> {
        self.0@
    }
}

impl ByteString {
    /// Moves a vector of bytes into a new buffer; no byte is copied.
    pub fn new(s: Vec<u8>) -> (r: ByteString)
        ensures
            r@ == s@,
    {
        ByteString(s)
    }

    /// Collects copies of the bytes of a slice, in sequence order.
    pub fn from_slice(s: &[u8]) -> (r: ByteString)
        ensures
            r@ == s@,
    {
        ByteString(vstd::slice::slice_to_vec(s))
    }

    /// Moves the underlying vector back out; no byte is copied.
    pub fn into_vec(self) -> (r: Vec<u8>)
        ensures
            r@ == self@,
    {
        self.0
    }

    /// The buffer's bytes as a slice.
    pub fn as_slice(&self) -> (r: &[u8])
        ensures
            r@ == self@,
    {
        self.0.as_slice()
    }

    /// The underlying vector, borrowed.
    pub fn as_vec(&self) -> (r: &Vec<u8>)
        ensures
            r@ == self@,
    {
        &self.0
    }

    /// A borrowed view over the buffer's current contents.
    pub fn as_byte_str(&self) -> (r: ByteStr<'_>)
        ensures
            r@ == self@,
    {
        ByteStr::new(self.0.as_slice())
    }

    /// The bytes, copied into a fresh vector, in sequence order.
    pub fn to_vec(&self) -> (r: Vec<u8>)
        ensures
            r@ == self@,
    {
        vstd::slice::slice_to_vec(self.0.as_slice())
    }

    /// The number of bytes held.
    pub fn len(&self) -> (r: usize)
        ensures
            r == self@.len(),
    {
        self.0.len()
    }

    /// Whether the buffer is empty.
    pub fn is_empty(&self) -> (r: bool)
        ensures
            r == (self@.len() == 0),
    {
        self.0.is_empty()
    }

    /// The byte at a position.
    pub fn get(&self, i: usize) -> (r: u8)
        requires
            i < self@.len(),
        ensures
            r == self@[i as int],
    {
        self.0[i]
    }

    /// Replaces the byte at a position.
    pub fn set(&mut self, i: usize, b: u8)
        requires
            i < old(self)@.len(),
        ensures
            final(self)@ == old(self)@.update(i as int, b),
    {
        self.0[i] = b;
    }

    /// Appends one byte.
    pub fn push(&mut self, b: u8)
        ensures
            final(self)@ == old(self)@.push(b),
    {
        self.0.push(b);
    }

    /// Removes and returns the last byte, if any.
    pub fn pop(&mut self) -> (r: Option<u8>)
        ensures
            old(self)@.len() == 0 ==> final(self)@ == old(self)@ && r is None,
            old(self)@.len() > 0 ==> final(self)@ == old(self)@.drop_last() && r == Some(
                old(self)@.last(),
            ),
    {
        self.0.pop()
    }

    /// Shortens the buffer to at most a length, keeping the front.
    pub fn truncate(&mut self, n: usize)
        ensures
            n <= old(self)@.len() ==> final(self)@ == old(self)@.subrange(0, n as int),
            n > old(self)@.len() ==> final(self)@ == old(self)@,
    {
        self.0.truncate(n);
    }

    /// Empties the buffer.
    pub fn clear(&mut self)
        ensures
            final(self)@ == Seq::<u8>::empty(),
    {
        self.0.clear();
    }

    /// Appends copies of the bytes of a slice, in sequence order.
    pub fn extend_from_slice(&mut self, s: &[u8])
        ensures
            final(self)@ == old(self)@ + s@,
    {
        self.0.extend_from_slice(s);
    }

    /// Whether the held bytes equal a byte slice.
    pub fn eq_bytes(&self, other: &[u8]) -> (r: bool)
        ensures
            r == (self@ == other@),
    {
        bytes_eq(self.0.as_slice(), other)
    }

    /// Whether the held bytes equal those of a borrowed view.
    pub fn eq_byte_str(&self, other: &ByteStr<'_>) -> (r: bool)
        ensures
            r == (self@ == other@),
    {
        bytes_eq(self.0.as_slice(), other.as_slice())
    }

    /// The escaped rendering of the held bytes, delegated to the
    /// borrowed view over the buffer's current contents.
    pub fn to_debug_string(&self) -> (r: String)
        ensures
            r@ == spec_render_chars(self@),
    {
        self.as_byte_str().to_debug_string()
    }

    /// The display rendering; textually identical to the escaped
    /// rendering, there being exactly one textual representation.
    pub fn to_display_string(&self) -> (r: String)
        ensures
            r@ == spec_render_chars(self@),
    {
        self.to_debug_string()
    }
}

impl PartialEq for ByteString {
    /// Equality is equality of the underlying bytes.
    fn eq(&self, other: &Self) -> (r: bool) {
        bytes_eq(self.0.as_slice(), other.0.as_slice())
    }
}

impl vstd::std_specs::cmp::PartialEqSpecImpl for ByteString {
    open spec fn obeys_eq_spec() -> bool {
        true
    }

    open spec fn eq_spec(&self, other: &Self) -> bool {
        self@ == other@
    }
}

impl PartialOrd for ByteString {
    /// Ordering is the lexicographic order of the underlying bytes.
    fn partial_cmp(&self, other: &Self) -> (r: Option<Ordering>) {
        Some(cmp_bytes(self.0.as_slice(), other.0.as_slice()))
    }
}

impl vstd::std_specs::cmp::PartialOrdSpecImpl for ByteString {
    open spec fn obeys_partial_cmp_spec() -> bool {
        true
    }

    open spec fn partial_cmp_spec(&self, other: &Self) -> Option<Ordering> {
        Some(spec_lex_cmp(self@, other@))
    }
}

impl Default for ByteString {
    /// An empty buffer.
    fn default() -> (r: ByteString)
        ensures
            r@ == Seq::<u8>::empty(),
    {
        ByteString(Vec::new())
    }
}

impl From<Vec<u8>> for ByteString {
    /// Moves a vector of bytes into a new buffer.
    fn from(s: Vec<u8>) -> (r: ByteString) {
        ByteString(s)
    }
}

impl vstd::std_specs::convert::FromSpecImpl<Vec<u8>> for ByteString {
    open spec fn obeys_from_spec() -> bool {
        true
    }

    open spec fn from_spec(s: Vec<u8>) -> ByteString {
        ByteString(s)
    }
}

impl From<ByteString> for Vec<u8> {
    /// Moves the underlying vector back out.
    fn from(s: ByteString) -> (r: Vec<u8>) {
        s.0
    }
}

impl vstd::std_specs::convert::FromSpecImpl<ByteString> for Vec<u8> {
    open spec fn obeys_from_spec() -> bool {
        true
    }

    open spec fn from_spec(s: ByteString) -> Vec<u8> {
        s.0
    }
}

} // verus!
