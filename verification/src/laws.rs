//! The laws the two wrapper types obey, stated and proved once over the
//! specifications that their methods' contracts use.

use crate::byte_str::ByteStr;
use crate::byte_string::ByteString;
use crate::compare::spec_lex_cmp;
use crate::escape::spec_render_chars;
use core::cmp::Ordering;
use vstd::prelude::*;
use vstd::std_specs::cmp::{PartialEqSpec, PartialOrdSpec};

verus! {

/// Over the same bytes, the borrowed view's rendering and the owned
/// buffer's rendering are one and the same string of characters.
pub proof fn lemma_view_buffer_render_agree<'a>(v: ByteStr<'a>, b: ByteString)
    requires
        v@ == b@,
    ensures
        spec_render_chars(v@) == spec_render_chars(b@),
{
}

/// A view's equality and ordering are exactly the equality and the
/// lexicographic order of the underlying byte sequences.
pub proof fn lemma_byte_str_cmp_matches_bytes<'a>(a: ByteStr<'a>, b: ByteStr<'a>)
    ensures
        a.eq_spec(&b) == (a@ == b@),
        a.partial_cmp_spec(&b) == Some(spec_lex_cmp(a@, b@)),
{
}

/// A buffer's equality and ordering are exactly the equality and the
/// lexicographic order of the underlying byte sequences.
pub proof fn lemma_byte_string_cmp_matches_bytes(a: ByteString, b: ByteString)
    ensures
        a.eq_spec(&b) == (a@ == b@),
        a.partial_cmp_spec(&b) == Some(spec_lex_cmp(a@, b@)),
{
}

/// Reading the bytes out is repeatable: any two read-outs permitted by
/// the read-out contracts of one view or buffer state hold the same
/// bytes in the same order.
pub proof fn lemma_read_out_repeatable(s: Seq<u8>, r1: Seq<u8>, r2: Seq<u8>)
    requires
        r1 == s,
        r2 == s,
    ensures
        r1 == r2,
{
}

} // verus!
