//! Little-endian byte-level primitives of the codec, with their
//! mathematical descriptions and round-trip lemmas.
use vstd::prelude::*;
use vstd::arithmetic::div_mod::{
    lemma_div_multiples_vanish_fancy, lemma_fundamental_div_mod, lemma_mod_multiples_vanish,
    lemma_small_mod,
};

use crate::frame::Error;

verus! {

/// The position in an exec parse result, widened to `int` so that it can be
/// compared against a specification-level parse.
pub open spec fn with_pos<T>(r: Result<(T, usize), Error>) -> Result<(T, int), Error> {
    match r {
        Ok((t, n)) => Ok((t, n as int)),
        Err(e) => Err(e),
    }
}

/// The value of two little-endian bytes.
pub open spec fn le16_val(b0: u8, b1: u8) -> u16 {
    (b0 + b1 * 0x100) as u16
}

/// The value of four little-endian bytes.
pub open spec fn le32_val(b0: u8, b1: u8, b2: u8, b3: u8) -> u32 {
    (b0 + b1 * 0x100 + b2 * 0x10000 + b3 * 0x1000000) as u32
}

/// The two little-endian bytes of a value.
pub open spec fn le16_bytes(v: u16) -> Seq<u8> {
    seq![(v as int % 0x100) as u8, (v as int / 0x100) as u8]
}

/// The four little-endian bytes of a value.
pub open spec fn le32_bytes(v: u32) -> Seq<u8> {
    seq![
        (v as int % 0x100) as u8,
        (v as int / 0x100 % 0x100) as u8,
        (v as int / 0x10000 % 0x100) as u8,
        (v as int / 0x1000000) as u8,
    ]
}

/// Reading back the two little-endian bytes of a value gives the value.
pub proof fn lemma_le16_round_trip(v: u16)
    ensures
        le16_val(le16_bytes(v)[0], le16_bytes(v)[1]) == v,
{
    lemma_fundamental_div_mod(v as int, 0x100);
}

/// Reading back the four little-endian bytes of a value gives the value.
pub proof fn lemma_le32_round_trip(v: u32)
    ensures
        le32_val(le32_bytes(v)[0], le32_bytes(v)[1], le32_bytes(v)[2], le32_bytes(v)[3]) == v,
{
    lemma_fundamental_div_mod(v as int, 0x100);
    lemma_fundamental_div_mod(v as int / 0x100, 0x100);
    lemma_fundamental_div_mod(v as int / 0x100 / 0x100, 0x100);
    assert(v as int / 0x100 / 0x100 == v as int / 0x10000) by (nonlinear_arith);
    assert(v as int / 0x100 / 0x100 / 0x100 == v as int / 0x1000000) by (nonlinear_arith);
}

/// The wire byte of a signed value (two's complement).
pub open spec fn spec_i8_to_byte(x: i8) -> u8 {
    if x >= 0 {
        x as u8
    } else {
        (x + 0x100) as u8
    }
}

/// The signed value of a wire byte (two's complement).
pub open spec fn spec_byte_to_i8(b: u8) -> i8 {
    if b < 0x80 {
        b as i8
    } else {
        (b - 0x100) as i8
    }
}

/// The two conversions between signed values and wire bytes invert each
/// other.
pub proof fn lemma_i8_byte_round_trip(x: i8, b: u8)
    ensures
        spec_byte_to_i8(spec_i8_to_byte(x)) == x,
        spec_i8_to_byte(spec_byte_to_i8(b)) == b,
{
}

pub fn i8_to_byte(x: i8) -> (r: u8)
    ensures
        r == spec_i8_to_byte(x),
{
    if x >= 0 {
        x as u8
    } else {
        (x as i16 + 0x100) as u8
    }
}

pub fn byte_to_i8(b: u8) -> (r: i8)
    ensures
        r == spec_byte_to_i8(b),
{
    if b < 0x80 {
        b as i8
    } else {
        (b as i16 - 0x100) as i8
    }
}

/// Writing back the value of two little-endian bytes gives the bytes.
pub proof fn lemma_le16_bytes_of_val(b0: u8, b1: u8)
    ensures
        le16_bytes(le16_val(b0, b1)) == seq![b0, b1],
{
    lemma_mod_multiples_vanish(b1 as int, b0 as int, 0x100);
    lemma_small_mod(b0 as nat, 0x100);
    lemma_div_multiples_vanish_fancy(b1 as int, b0 as int, 0x100);
    assert(le16_bytes(le16_val(b0, b1)) =~= seq![b0, b1]);
}

/// Writing back the value of four little-endian bytes gives the bytes.
pub proof fn lemma_le32_bytes_of_val(b0: u8, b1: u8, b2: u8, b3: u8)
    ensures
        le32_bytes(le32_val(b0, b1, b2, b3)) == seq![b0, b1, b2, b3],
{
    let v: int = le32_val(b0, b1, b2, b3) as int;
    lemma_mod_multiples_vanish(b1 + b2 * 0x100 + b3 * 0x10000, b0 as int, 0x100);
    lemma_small_mod(b0 as nat, 0x100);
    lemma_div_multiples_vanish_fancy(b1 + b2 * 0x100 + b3 * 0x10000, b0 as int, 0x100);
    assert(v / 0x100 == b1 + b2 * 0x100 + b3 * 0x10000);
    lemma_mod_multiples_vanish(b2 + b3 * 0x100, b1 as int, 0x100);
    lemma_small_mod(b1 as nat, 0x100);
    assert(v / 0x100 % 0x100 == b1);
    lemma_div_multiples_vanish_fancy(b2 + b3 * 0x100, b0 + b1 * 0x100, 0x10000);
    assert(v / 0x10000 == b2 + b3 * 0x100);
    lemma_mod_multiples_vanish(b3 as int, b2 as int, 0x100);
    lemma_small_mod(b2 as nat, 0x100);
    assert(v / 0x10000 % 0x100 == b2);
    lemma_div_multiples_vanish_fancy(b3 as int, b0 + b1 * 0x100 + b2 * 0x10000, 0x1000000);
    assert(v / 0x1000000 == b3);
    assert(le32_bytes(le32_val(b0, b1, b2, b3)) =~= seq![b0, b1, b2, b3]);
}

/// One byte of the window, if any is left.
pub open spec fn spec_parse_u8(s: Seq<u8>, pos: int, end: int) -> Result<(u8, int), Error> {
    if end - pos >= 1 {
        Ok((s[pos], pos + 1))
    } else {
        Err(Error::Truncated { needed: 1, available: (end - pos) as usize })
    }
}

/// A two-byte little-endian value from the window, if enough is left.
pub open spec fn spec_parse_u16(s: Seq<u8>, pos: int, end: int) -> Result<(u16, int), Error> {
    if end - pos >= 2 {
        Ok((le16_val(s[pos], s[pos + 1]), pos + 2))
    } else {
        Err(Error::Truncated { needed: 2, available: (end - pos) as usize })
    }
}

/// A four-byte little-endian value from the window, if enough is left.
pub open spec fn spec_parse_u32(s: Seq<u8>, pos: int, end: int) -> Result<(u32, int), Error> {
    if end - pos >= 4 {
        Ok((le32_val(s[pos], s[pos + 1], s[pos + 2], s[pos + 3]), pos + 4))
    } else {
        Err(Error::Truncated { needed: 4, available: (end - pos) as usize })
    }
}

pub fn parse_u8(buf: &Vec<u8>, pos: usize, end: usize) -> (r: Result<(u8, usize), Error>)
    requires
        pos <= end && end <= buf@.len(),
    ensures
        with_pos(r) == spec_parse_u8(buf@, pos as int, end as int),
        r matches Ok(v) ==> pos < v.1 <= end,
{
    if end - pos >= 1 {
        Ok((buf[pos], pos + 1))
    } else {
        Err(Error::Truncated { needed: 1, available: end - pos })
    }
}

pub fn parse_u16(buf: &Vec<u8>, pos: usize, end: usize) -> (r: Result<(u16, usize), Error>)
    requires
        pos <= end && end <= buf@.len(),
    ensures
        with_pos(r) == spec_parse_u16(buf@, pos as int, end as int),
        r matches Ok(v) ==> pos < v.1 <= end,
{
    if end - pos >= 2 {
        let v: u16 = buf[pos] as u16 + buf[pos + 1] as u16 * 0x100;
        Ok((v, pos + 2))
    } else {
        Err(Error::Truncated { needed: 2, available: end - pos })
    }
}

pub fn parse_u32(buf: &Vec<u8>, pos: usize, end: usize) -> (r: Result<(u32, usize), Error>)
    requires
        pos <= end && end <= buf@.len(),
    ensures
        with_pos(r) == spec_parse_u32(buf@, pos as int, end as int),
        r matches Ok(v) ==> pos < v.1 <= end,
{
    if end - pos >= 4 {
        let v: u32 = buf[pos] as u32 + buf[pos + 1] as u32 * 0x100 + buf[pos + 2] as u32 * 0x10000
            + buf[pos + 3] as u32 * 0x1000000;
        Ok((v, pos + 4))
    } else {
        Err(Error::Truncated { needed: 4, available: end - pos })
    }
}

/// Appends the two little-endian bytes of `v`.
pub fn push_u16(out: &mut Vec<u8>, v: u16)
    ensures
        final(out)@ == old(out)@ + le16_bytes(v),
{
    out.push((v % 0x100) as u8);
    out.push((v / 0x100) as u8);
    assert(out@ =~= old(out)@ + le16_bytes(v));
}

/// Appends the four little-endian bytes of `v`.
pub fn push_u32(out: &mut Vec<u8>, v: u32)
    ensures
        final(out)@ == old(out)@ + le32_bytes(v),
{
    out.push((v % 0x100) as u8);
    out.push((v / 0x100 % 0x100) as u8);
    out.push((v / 0x10000 % 0x100) as u8);
    out.push((v / 0x1000000) as u8);
    assert(out@ =~= old(out)@ + le32_bytes(v));
}

/// Splits the knowledge that a window holds a concatenation into knowledge
/// about the two halves; used by the round-trip lemmas at each level of the
/// command hierarchy.
pub proof fn lemma_subrange_split(s: Seq<u8>, pos: int, end: int, a: Seq<u8>, b: Seq<u8>)
    requires
        0 <= pos <= end <= s.len(),
        s.subrange(pos, end) == a + b,
    ensures
        end - pos == a.len() + b.len(),
        s.subrange(pos, pos + a.len()) == a,
        s.subrange(pos + a.len(), end) == b,
        forall|i: int| 0 <= i < a.len() ==> s[pos + i] == a[i],
        forall|i: int| 0 <= i < b.len() ==> s[pos + a.len() + i] == b[i],
{
    assert(s.subrange(pos, end).len() == (a + b).len());
    assert(s.subrange(pos, end).len() == end - pos);
    assert((a + b).len() == a.len() + b.len());
    assert(end - pos == a.len() + b.len());
    assert forall|i: int| 0 <= i < a.len() implies s[pos + i] == a[i] by {
        assert(0 <= i < end - pos);
        assert(s.subrange(pos, end)[i] == s[pos + i]);
        assert((a + b)[i] == a[i]);
    }
    assert forall|i: int| 0 <= i < b.len() implies s[pos + a.len() + i] == b[i] by {
        let j: int = a.len() + i;
        assert(0 <= j < end - pos);
        assert(s.subrange(pos, end)[j] == s[pos + j]);
        assert((a + b)[j] == b[i]);
    }
    assert(s.subrange(pos, pos + a.len()) =~= a);
    assert(s.subrange(pos + a.len(), end) =~= b);
}

/// Spells out what each byte of a window is when the whole window is known.
pub proof fn lemma_window_bytes(s: Seq<u8>, pos: int, end: int, a: Seq<u8>)
    requires
        0 <= pos <= end <= s.len(),
        s.subrange(pos, end) == a,
    ensures
        end - pos == a.len(),
        forall|i: int| 0 <= i < a.len() ==> s[pos + i] == a[i],
{
    assert(s.subrange(pos, end).len() == end - pos);
    assert forall|i: int| 0 <= i < a.len() implies s[pos + i] == a[i] by {
        assert(s.subrange(pos, end)[i] == s[pos + i]);
    }
}

/// A window is its first byte followed by the rest.
pub proof fn lemma_window_head(s: Seq<u8>, pos: int, end: int)
    requires
        0 <= pos < end <= s.len(),
    ensures
        s.subrange(pos, end) == seq![s[pos]] + s.subrange(pos + 1, end),
{
    assert(s.subrange(pos, end) =~= seq![s[pos]] + s.subrange(pos + 1, end));
}

/// Copies the bytes of the window `pos..end` into a fresh vector.
pub fn copy_range(buf: &Vec<u8>, pos: usize, end: usize) -> (r: Vec<u8>)
    requires
        pos <= end && end <= buf@.len(),
    ensures
        r@ == buf@.subrange(pos as int, end as int),
{
    let mut out: Vec<u8> = Vec::new();
    assert(buf@.subrange(pos as int, pos as int) =~= Seq::<u8>::empty());
    let mut i: usize = pos;
    while i < end
        invariant
            pos <= i <= end,
            end <= buf@.len(),
            out@ == buf@.subrange(pos as int, i as int),
        decreases end - i,
    {
        out.push(buf[i]);
        assert(buf@.subrange(pos as int, (i + 1) as int) =~= buf@.subrange(
            pos as int,
            i as int,
        ).push(buf@[i as int]));
        i = i + 1;
    }
    out
}

} // verus!
