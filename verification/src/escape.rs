//! The escaping algorithm: every byte of a sequence is rendered either
//! as itself, as a short named escape, or as a hex escape, and the whole
//! is wrapped as `b"..."`.
//!
//! All escape output is ASCII, so the rendering is specified as a sequence
//! of bytes and only turned into a `String` at the very end.

use vstd::prelude::*;

verus! {

/// Lowercase hex digit for a value below 16: `0`-`9` then `a`-`f`.
pub open spec fn spec_hex_digit(n: u8) -> u8
    recommends
        n < 16,
{
    if n < 10 {
        (0x30 + n) as u8
    } else {
        (0x57 + n) as u8
    }
}

/// The escape of one byte, as the ASCII bytes of its rendering:
/// `\t`, `\n`, `\r`, `\"` and `\\` for the bytes they name, the byte
/// itself for the remaining printable range 0x20-0x7e, and `\xHH` with
/// two lowercase hex digits for everything else.
pub open spec fn spec_escape_byte(b: u8) -> Seq<u8> {
    if b == 0x09 {
        seq![0x5cu8, 0x74u8]
    } else if b == 0x0a {
        seq![0x5cu8, 0x6eu8]
    } else if b == 0x0d {
        seq![0x5cu8, 0x72u8]
    } else if b == 0x22 {
        seq![0x5cu8, 0x22u8]
    } else if b == 0x5c {
        seq![0x5cu8, 0x5cu8]
    } else if 0x20 <= b && b <= 0x7e {
        seq![b]
    } else {
        seq![0x5cu8, 0x78u8, spec_hex_digit(b / 16), spec_hex_digit(b % 16)]
    }
}

/// The concatenation of the escapes of every byte, in sequence order.
pub open spec fn spec_escape_bytes(s: Seq<u8>) -> Seq<u8>
    decreases s.len(),
{
    if s.len() == 0 {
        Seq::empty()
    } else {
        spec_escape_byte(s[0]) + spec_escape_bytes(s.skip(1))
    }
}

/// The full rendering of a byte sequence: `b"` + escapes + `"`.
pub open spec fn spec_render(s: Seq<u8>) -> Seq<u8> {
    seq![0x62u8, 0x22u8] + spec_escape_bytes(s) + seq![0x22u8]
}

/// The rendering as characters; each byte of the rendering is ASCII,
/// so each stands for the character with the same code.
pub open spec fn spec_render_chars(s: Seq<u8>) -> Seq<char> {
    spec_render(s).map_values(|b: u8| b as char)
}

/// Lowercase hex digit of a nibble.
fn hex_digit(n: u8) -> (r: u8)
    requires
        n < 16,
    ensures
        r == spec_hex_digit(n),
{
    if n < 10 {
        0x30 + n
    } else {
        0x57 + n
    }
}

/// Appends the escape of one byte to the output.
fn push_escape(out: &mut Vec<u8>, b: u8)
    ensures
        final(out)@ == old(out)@ + spec_escape_byte(b),
{
    if b == 0x09 {
        out.push(0x5c);
        out.push(0x74);
    } else if b == 0x0a {
        out.push(0x5c);
        out.push(0x6e);
    } else if b == 0x0d {
        out.push(0x5c);
        out.push(0x72);
    } else if b == 0x22 {
        out.push(0x5c);
        out.push(0x22);
    } else if b == 0x5c {
        out.push(0x5c);
        out.push(0x5c);
    } else if 0x20 <= b && b <= 0x7e {
        out.push(b);
    } else {
        out.push(0x5c);
        out.push(0x78);
        out.push(hex_digit(b / 16));
        out.push(hex_digit(b % 16));
    }
    assert(out@ =~= old(out)@ + spec_escape_byte(b));
}

/// Escaping a sequence extended by one byte appends that byte's escape.
proof fn lemma_escape_bytes_push(s: Seq<u8>, b: u8)
    ensures
        spec_escape_bytes(s.push(b)) == spec_escape_bytes(s) + spec_escape_byte(b),
    decreases s.len(),
{
    if s.len() == 0 {
        assert(s.push(b).skip(1) =~= Seq::<u8>::empty());
        assert(s.push(b)[0] == b);
        assert(spec_escape_bytes(s.push(b)) == spec_escape_byte(b) + spec_escape_bytes(
            Seq::<u8>::empty(),
        ));
        assert(spec_escape_bytes(Seq::<u8>::empty()) == Seq::<u8>::empty());
        assert(spec_escape_bytes(s.push(b)) =~= spec_escape_bytes(s) + spec_escape_byte(b));
    } else {
        assert(s.push(b)[0] == s[0]);
        assert(s.push(b).skip(1) =~= s.skip(1).push(b));
        lemma_escape_bytes_push(s.skip(1), b);
        assert(spec_escape_bytes(s.push(b)) == spec_escape_byte(s[0]) + spec_escape_bytes(
            s.skip(1).push(b),
        ));
        assert(spec_escape_bytes(s.push(b)) =~= spec_escape_bytes(s) + spec_escape_byte(b));
    }
}

/// One byte in, one, two or four characters out: the encoded length is
/// determined by the byte value alone, and no byte is dropped or merged.
pub proof fn lemma_escape_byte_len(b: u8)
    ensures
        spec_escape_byte(b).len() == 1 || spec_escape_byte(b).len() == 2 || spec_escape_byte(
            b,
        ).len() == 4,
{
}

/// The value of a lowercase hex digit byte; other bytes map to zero.
pub open spec fn spec_unhex(d: u8) -> u8 {
    if 0x30 <= d && d <= 0x39 {
        (d - 0x30) as u8
    } else if 0x61 <= d && d <= 0x66 {
        (d - 0x57) as u8
    } else {
        0
    }
}

/// Reads an escaped byte sequence back into the bytes it stands for:
/// the semantic inverse of the per-byte escapes. An ill-formed escape
/// is skipped; none arises in the image of `spec_escape_bytes`.
pub open spec fn spec_unescape(s: Seq<u8>) -> Seq<u8>
    decreases s.len(),
{
    if s.len() == 0 {
        Seq::empty()
    } else if s[0] == 0x5c {
        if s.len() >= 4 && s[1] == 0x78 {
            seq![(spec_unhex(s[2]) * 16 + spec_unhex(s[3])) as u8] + spec_unescape(s.skip(4))
        } else if s.len() >= 2 && s[1] == 0x74 {
            seq![0x09u8] + spec_unescape(s.skip(2))
        } else if s.len() >= 2 && s[1] == 0x6e {
            seq![0x0au8] + spec_unescape(s.skip(2))
        } else if s.len() >= 2 && s[1] == 0x72 {
            seq![0x0du8] + spec_unescape(s.skip(2))
        } else if s.len() >= 2 && s[1] == 0x22 {
            seq![0x22u8] + spec_unescape(s.skip(2))
        } else if s.len() >= 2 && s[1] == 0x5c {
            seq![0x5cu8] + spec_unescape(s.skip(2))
        } else {
            spec_unescape(s.skip(1))
        }
    } else {
        seq![s[0]] + spec_unescape(s.skip(1))
    }
}

/// The hex digit of a nibble reads back as that nibble.
proof fn lemma_unhex_hex(n: u8)
    requires
        n < 16,
    ensures
        spec_unhex(spec_hex_digit(n)) == n,
{
}

/// Un-escaping one byte's escape, whatever follows it, peels off
/// exactly that byte.
proof fn lemma_unescape_one(b: u8, rest: Seq<u8>)
    ensures
        spec_unescape(spec_escape_byte(b) + rest) == seq![b] + spec_unescape(rest),
{
    let e = spec_escape_byte(b);
    let s = e + rest;
    if b == 0x09 {
        assert(s[0] == 0x5c && s[1] == 0x74);
        assert(s.skip(2) =~= rest);
        assert(spec_unescape(s) =~= seq![b] + spec_unescape(rest));
    } else if b == 0x0a {
        assert(s[0] == 0x5c && s[1] == 0x6e);
        assert(s.skip(2) =~= rest);
        assert(spec_unescape(s) =~= seq![b] + spec_unescape(rest));
    } else if b == 0x0d {
        assert(s[0] == 0x5c && s[1] == 0x72);
        assert(s.skip(2) =~= rest);
        assert(spec_unescape(s) =~= seq![b] + spec_unescape(rest));
    } else if b == 0x22 {
        assert(s[0] == 0x5c && s[1] == 0x22);
        assert(s.skip(2) =~= rest);
        assert(spec_unescape(s) =~= seq![b] + spec_unescape(rest));
    } else if b == 0x5c {
        assert(s[0] == 0x5c && s[1] == 0x5c);
        assert(s.skip(2) =~= rest);
        assert(spec_unescape(s) =~= seq![b] + spec_unescape(rest));
    } else if 0x20 <= b && b <= 0x7e {
        assert(s[0] == b && b != 0x5c);
        assert(s.skip(1) =~= rest);
        assert(spec_unescape(s) =~= seq![b] + spec_unescape(rest));
    } else {
        assert(s[0] == 0x5c && s[1] == 0x78);
        assert(s[2] == spec_hex_digit(b / 16) && s[3] == spec_hex_digit(b % 16));
        lemma_unhex_hex(b / 16);
        lemma_unhex_hex(b % 16);
        assert(spec_unhex(s[2]) * 16 + spec_unhex(s[3]) == b);
        assert(s.skip(4) =~= rest);
        assert(spec_unescape(s) =~= seq![b] + spec_unescape(rest));
    }
}

/// Un-escaping the escape of a whole sequence gives the sequence back.
proof fn lemma_unescape_escape_bytes(s: Seq<u8>)
    ensures
        spec_unescape(spec_escape_bytes(s)) == s,
    decreases s.len(),
{
    if s.len() != 0 {
        lemma_unescape_one(s[0], spec_escape_bytes(s.skip(1)));
        lemma_unescape_escape_bytes(s.skip(1));
        assert(seq![s[0]] + s.skip(1) =~= s);
    }
}

/// Round trip: rendering a sequence, then removing the leading `b"` and
/// the trailing `"` and un-escaping what is between them, yields back
/// exactly the original bytes.
pub proof fn lemma_render_round_trip(s: Seq<u8>)
    ensures
        spec_unescape(spec_render(s).subrange(2, spec_render(s).len() as int - 1)) == s,
{
    assert(spec_render(s).subrange(2, spec_render(s).len() as int - 1) =~= spec_escape_bytes(s));
    lemma_unescape_escape_bytes(s);
}

/// The rendering of a byte sequence, as ASCII bytes.
pub fn render_bytes(s: &[u8]) -> (out: Vec<u8>)
    ensures
        out@ == spec_render(s@),
{
    let mut out: Vec<u8> = Vec::new();
    out.push(0x62);
    out.push(0x22);
    let mut i: usize = 0;
    while i < s.len()
        invariant
            i <= s@.len(),
            out@ == seq![0x62u8, 0x22u8] + spec_escape_bytes(s@.take(i as int)),
        decreases s@.len() - i,
    {
        let b = s[i];
        push_escape(&mut out, b);
        proof {
            lemma_escape_bytes_push(s@.take(i as int), b);
            assert(s@.take(i as int).push(b) =~= s@.take((i + 1) as int));
            assert(out@ =~= seq![0x62u8, 0x22u8] + spec_escape_bytes(s@.take((i + 1) as int)));
        }
        i = i + 1;
    }
    proof {
        assert(s@.take(s@.len() as int) =~= s@);
    }
    out.push(0x22);
    proof {
        assert(out@ =~= spec_render(s@));
    }
    out
}

/// Every byte of a single escape is ASCII (below 0x80).
proof fn lemma_escape_byte_ascii(b: u8)
    ensures
        forall|i: int| 0 <= i < spec_escape_byte(b).len() ==> spec_escape_byte(b)[i] < 0x80,
{
}

/// Every byte of an escaped sequence is ASCII.
proof fn lemma_escape_bytes_ascii(s: Seq<u8>)
    ensures
        forall|i: int| 0 <= i < spec_escape_bytes(s).len() ==> spec_escape_bytes(s)[i] < 0x80,
    decreases s.len(),
{
    if s.len() != 0 {
        lemma_escape_byte_ascii(s[0]);
        lemma_escape_bytes_ascii(s.skip(1));
        let head = spec_escape_byte(s[0]);
        let rest = spec_escape_bytes(s.skip(1));
        assert(spec_escape_bytes(s) == head + rest);
        assert forall|i: int| 0 <= i < spec_escape_bytes(s).len() implies spec_escape_bytes(
            s,
        )[i] < 0x80 by {
            if i < head.len() {
                assert(spec_escape_bytes(s)[i] == head[i]);
            } else {
                assert(spec_escape_bytes(s)[i] == rest[i - head.len()]);
            }
        }
    }
}

/// Every byte of a rendering is ASCII.
proof fn lemma_render_ascii(s: Seq<u8>)
    ensures
        forall|i: int| 0 <= i < spec_render(s).len() ==> spec_render(s)[i] < 0x80,
{
    lemma_escape_bytes_ascii(s);
}

/// Relies on String::from_utf8: ASCII bytes are valid UTF-8, and decode
/// one-for-one to the characters with the same code points.
#[verifier::external_body]
fn string_from_ascii(v: Vec<u8>) -> (r: String)
    requires
        forall|i: int| 0 <= i < v@.len() ==> v@[i] < 0x80,
    ensures
        r@ == v@.map_values(|b: u8| b as char),
{
    match String::from_utf8(v) {
        Ok(s) => s,
        Err(_) => String::new(),
    }
}

/// The rendering of a byte sequence as a string: `b"`, each byte's
/// escape in order, then `"`.
pub fn render_string(s: &[u8]) -> (r: String)
    ensures
        r@ == spec_render_chars(s@),
{
    let out = render_bytes(s);
    proof {
        lemma_render_ascii(s@);
    }
    string_from_ascii(out)
}

} // verus!
