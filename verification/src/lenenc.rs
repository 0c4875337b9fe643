//! Length-encoded integers: the compact form in which the header writes its
//! tags, lengths and values.
//!
//! A value below 251 is a single byte. Larger values are a marker byte
//! followed by the value in little-endian order: `0xfc` and two bytes,
//! `0xfd` and three bytes, `0xfe` and eight bytes.

use vstd::prelude::*;

verus! {

/// `256` to the power `width`: one more than the largest number that
/// `width` bytes can spell.
pub open spec fn le_limit(width: nat) -> nat
    decreases width,
{
    if width == 0 {
        1
    } else {
        256 * le_limit((width - 1) as nat)
    }
}

/// The `width` low bytes of `v`, least significant first.
pub open spec fn le_bytes(v: nat, width: nat) -> Seq<u8>
    decreases width,
{
    if width == 0 {
        Seq::empty()
    } else {
        seq![(v % 256) as u8] + le_bytes(v / 256, (width - 1) as nat)
    }
}

/// The number that a sequence of bytes spells, least significant byte first.
pub open spec fn le_value(s: Seq<u8>) -> nat
    decreases s.len(),
{
    if s.len() == 0 {
        0
    } else {
        s[0] as nat + 256 * le_value(s.skip(1))
    }
}

/// The limits of the widths that the encoding uses.
pub proof fn lemma_le_limits()
    ensures
        le_limit(0) == 1,
        le_limit(1) == 0x100,
        le_limit(2) == 0x1_0000,
        le_limit(3) == 0x100_0000,
        le_limit(4) == 0x1_0000_0000,
        le_limit(5) == 0x100_0000_0000,
        le_limit(6) == 0x1_0000_0000_0000,
        le_limit(7) == 0x100_0000_0000_0000,
        le_limit(8) == 0x1_0000_0000_0000_0000,
{
    reveal_with_fuel(le_limit, 9);
}

/// `width` bytes spell a number below `256` to the power `width`.
pub proof fn lemma_le_value_bound(s: Seq<u8>)
    ensures
        le_value(s) < le_limit(s.len()),
    decreases s.len(),
{
    if s.len() > 0 {
        lemma_le_value_bound(s.skip(1));
    }
}

/// `le_bytes` gives as many bytes as it is asked for.
pub proof fn lemma_le_bytes_len(v: nat, width: nat)
    ensures
        le_bytes(v, width).len() == width,
    decreases width,
{
    if width > 0 {
        lemma_le_bytes_len(v / 256, (width - 1) as nat);
    }
}

/// Reading back the little-endian bytes of a number that fits in them gives
/// the number.
pub proof fn lemma_le_roundtrip(v: nat, width: nat)
    requires
        v < le_limit(width),
    ensures
        le_value(le_bytes(v, width)) == v,
    decreases width,
{
    if width > 0 {
        let tail = le_bytes(v / 256, (width - 1) as nat);
        lemma_le_roundtrip(v / 256, (width - 1) as nat);
        assert(le_bytes(v, width).skip(1) =~= tail);
    }
}

/// How many bytes follow a first byte: two, three or eight after a marker,
/// none after a byte that stands for itself.
pub open spec fn lenenc_width(first: u8) -> nat {
    if first == 0xfc {
        2
    } else if first == 0xfd {
        3
    } else if first == 0xfe {
        8
    } else {
        0
    }
}

/// The length-encoded form of `v`: the shortest of the four shapes that
/// holds it.
pub open spec fn lenenc_int(v: u64) -> Seq<u8> {
    if v < 251 {
        seq![v as u8]
    } else if v < 0x1_0000 {
        seq![0xfcu8] + le_bytes(v as nat, 2)
    } else if v < 0x100_0000 {
        seq![0xfdu8] + le_bytes(v as nat, 3)
    } else {
        seq![0xfeu8] + le_bytes(v as nat, 8)
    }
}

/// The number of bytes in the length-encoded form of `v`.
pub open spec fn spec_lenenc_int_len(v: u64) -> u64 {
    if v < 251 {
        1
    } else if v < 0x1_0000 {
        3
    } else if v < 0x100_0000 {
        4
    } else {
        9
    }
}

/// What reading one length-encoded integer from the front of `s` gives: the
/// value and the number of bytes it took, or `None` where `s` ends before
/// the integer does.
///
/// A first byte other than the three markers stands for itself.
pub open spec fn lenenc_read(s: Seq<u8>) -> Option<(u64, nat)> {
    if s.len() == 0 {
        None
    } else {
        let width = lenenc_width(s[0]);
        if width == 0 {
            Some((s[0] as u64, 1))
        } else if s.len() < 1 + width {
            None
        } else {
            Some((le_value(s.subrange(1, 1 + width as int)) as u64, 1 + width))
        }
    }
}

/// The encoded form of `v` has the length that `spec_lenenc_int_len` gives.
pub proof fn lemma_lenenc_int_len(v: u64)
    ensures
        lenenc_int(v).len() == spec_lenenc_int_len(v),
{
    lemma_le_bytes_len(v as nat, 2);
    lemma_le_bytes_len(v as nat, 3);
    lemma_le_bytes_len(v as nat, 8);
}

/// Reading is the left inverse of writing: from the encoded form of `v`,
/// whatever follows it, the reader takes exactly that form and gives `v`.
pub proof fn lemma_lenenc_roundtrip(v: u64, rest: Seq<u8>)
    ensures
        lenenc_read(lenenc_int(v) + rest) == Some((v, spec_lenenc_int_len(v) as nat)),
        (lenenc_int(v) + rest).skip(spec_lenenc_int_len(v) as int) == rest,
{
    let enc = lenenc_int(v);
    let s = enc + rest;
    lemma_lenenc_int_len(v);
    lemma_le_limits();
    if v >= 251 {
        let width = (enc.len() - 1) as nat;
        assert(s.subrange(1, 1 + width as int) =~= le_bytes(v as nat, width));
        lemma_le_roundtrip(v as nat, width);
    }
}

/// The number of bytes that `put_lenenc_int` writes for `v`.
#[verifier::when_used_as_spec(spec_lenenc_int_len)]
pub fn lenenc_int_len(v: u64) -> (r: u64)
    ensures
        r == spec_lenenc_int_len(v),
        r == lenenc_int(v).len(),
{
    proof {
        lemma_lenenc_int_len(v);
    }
    if v < 251 {
        1
    } else if v < 0x1_0000 {
        3
    } else if v < 0x100_0000 {
        4
    } else {
        9
    }
}

/// Appends the `width` low bytes of `v`, least significant first.
fn put_le(buf: &mut Vec<u8>, v: u64, width: usize)
    ensures
        final(buf)@ == old(buf)@ + le_bytes(v as nat, width as nat),
{
    let mut rest: u64 = v;
    let mut i: usize = 0;
    while i < width
        invariant
            i <= width,
            old(buf)@ + le_bytes(v as nat, width as nat) == buf@ + le_bytes(
                rest as nat,
                (width - i) as nat,
            ),
        decreases width - i,
    {
        buf.push((rest % 256) as u8);
        rest = rest / 256;
        i += 1;
    }
}

/// Appends the length-encoded form of `v` to `buf`.
pub fn put_lenenc_int(buf: &mut Vec<u8>, v: u64)
    ensures
        final(buf)@ == old(buf)@ + lenenc_int(v),
{
    if v < 251 {
        buf.push(v as u8);
    } else if v < 0x1_0000 {
        buf.push(0xfc);
        put_le(buf, v, 2);
    } else if v < 0x100_0000 {
        buf.push(0xfd);
        put_le(buf, v, 3);
    } else {
        buf.push(0xfe);
        put_le(buf, v, 8);
    }
}

/// The number that `bytes[start..start + width]` spells, least significant
/// byte first.
pub fn read_le(bytes: &[u8], start: usize, width: usize) -> (r: u64)
    requires
        width <= 8,
        start + width <= bytes@.len(),
    ensures
        r == le_value(bytes@.subrange(start as int, start + width)),
{
    let mut value: u64 = 0;
    let mut i: usize = width;
    assert(start + width <= bytes.len());
    while i > 0
        invariant
            i <= width <= 8,
            start + width <= bytes@.len() <= usize::MAX,
            value == le_value(bytes@.subrange(start + i, start + width)),
        decreases i,
    {
        i -= 1;
        let ghost tail = bytes@.subrange(start + i + 1, start + width);
        let ghost whole = bytes@.subrange(start + i, start + width);
        proof {
            lemma_le_value_bound(tail);
            lemma_le_limits();
            assert(whole.skip(1) =~= tail);
        }
        value = value * 256 + bytes[start + i] as u64;
    }
    value
}

} // verus!
