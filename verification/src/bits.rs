//! Bit fields of bytes, half words and words, and their little-endian bytes.
use vstd::prelude::*;

verus! {

/// The field of `bits` that is `mask` wide and starts at bit `pos`.
pub open spec fn field8(bits: u8, pos: u8, mask: u8) -> u8 {
    (bits >> pos) & mask
}

/// `bits` with that field set to `v`, as far as `v` fits in it.
pub open spec fn with_field8(bits: u8, pos: u8, mask: u8, v: u8) -> u8 {
    (bits & !(mask << pos)) | ((v & mask) << pos)
}

/// The field of `bits` that is `mask` wide and starts at bit `pos`.
pub open spec fn field16(bits: u16, pos: u16, mask: u16) -> u16 {
    (bits >> pos) & mask
}

/// `bits` with that field set to `v`, as far as `v` fits in it.
pub open spec fn with_field16(bits: u16, pos: u16, mask: u16, v: u16) -> u16 {
    (bits & !(mask << pos)) | ((v & mask) << pos)
}

/// The field of `bits` that is `mask` wide and starts at bit `pos`.
pub open spec fn field32(bits: u32, pos: u32, mask: u32) -> u32 {
    (bits >> pos) & mask
}

/// `bits` with that field set to `v`, as far as `v` fits in it.
pub open spec fn with_field32(bits: u32, pos: u32, mask: u32, v: u32) -> u32 {
    (bits & !(mask << pos)) | ((v & mask) << pos)
}

/// A field is never above its mask.
pub proof fn lemma_field8_bound(bits: u8, pos: u8, mask: u8)
    by (bit_vector)
    ensures
        field8(bits, pos, mask) <= mask,
{
}

/// A field is never above its mask.
pub proof fn lemma_field16_bound(bits: u16, pos: u16, mask: u16)
    by (bit_vector)
    ensures
        field16(bits, pos, mask) <= mask,
{
}

/// A field is never above its mask.
pub proof fn lemma_field32_bound(bits: u32, pos: u32, mask: u32)
    by (bit_vector)
    ensures
        field32(bits, pos, mask) <= mask,
{
}

/// The two bytes of `v`, the low one first.
pub open spec fn le16(v: u16) -> Seq<u8> {
    seq![field16(v, 0, 0xff) as u8, field16(v, 8, 0xff) as u8]
}

/// The half word whose low byte is `lo` and whose high byte is `hi`.
pub open spec fn from_le16(lo: u8, hi: u8) -> u16 {
    with_field16(with_field16(0, 0, 0xff, lo as u16), 8, 0xff, hi as u16)
}

/// The four bytes of `v`, the lowest first.
pub open spec fn le32(v: u32) -> Seq<u8> {
    seq![
        field32(v, 0, 0xff) as u8,
        field32(v, 8, 0xff) as u8,
        field32(v, 16, 0xff) as u8,
        field32(v, 24, 0xff) as u8,
    ]
}

/// Setting one byte of a half word puts the byte there and leaves the other
/// byte as it was.
pub proof fn lemma_half_word_set(x: u16, v: u8)
    by (bit_vector)
    ensures
        field16(with_field16(x, 0, 0xff, v as u16), 0, 0xff) == v,
        field16(with_field16(x, 0, 0xff, v as u16), 8, 0xff) == field16(x, 8, 0xff),
        field16(with_field16(x, 8, 0xff, v as u16), 8, 0xff) == v,
        field16(with_field16(x, 8, 0xff, v as u16), 0, 0xff) == field16(x, 0, 0xff),
{
}

/// The bytes of zero are zero.
pub proof fn lemma_zero_bytes()
    by (bit_vector)
    ensures
        field16(0, 0, 0xff) == 0,
        field16(0, 8, 0xff) == 0,
        field32(0, 0, 0xff) == 0,
        field32(0, 8, 0xff) == 0,
        field32(0, 16, 0xff) == 0,
        field32(0, 24, 0xff) == 0,
{
}

/// The word whose bytes are `b0` to `b3`, the lowest first.
pub open spec fn from_le32(b0: u8, b1: u8, b2: u8, b3: u8) -> u32 {
    with_field32(
        with_field32(with_field32(with_field32(0, 0, 0xff, b0 as u32), 8, 0xff, b1 as u32), 16, 0xff, b2 as u32),
        24,
        0xff,
        b3 as u32,
    )
}

/// The bytes of a word give it back.
pub proof fn lemma_le32_round_trip(v: u32)
    by (bit_vector)
    ensures
        from_le32(
            field32(v, 0, 0xff) as u8,
            field32(v, 8, 0xff) as u8,
            field32(v, 16, 0xff) as u8,
            field32(v, 24, 0xff) as u8,
        ) == v,
{
}

/// The bytes of a half word give it back.
pub proof fn lemma_le16_round_trip(v: u16)
    by (bit_vector)
    ensures
        from_le16(field16(v, 0, 0xff) as u8, field16(v, 8, 0xff) as u8) == v,
{
}

/// A half word made of two bytes has them as its bytes.
pub proof fn lemma_from_le16_bytes(lo: u8, hi: u8)
    by (bit_vector)
    ensures
        field16(from_le16(lo, hi), 0, 0xff) == lo,
        field16(from_le16(lo, hi), 8, 0xff) == hi,
{
}

/// The low byte of `v`.
pub fn lo_byte(v: u16) -> (b: u8)
    ensures
        b == field16(v, 0, 0xff),
        b == le16(v)[0],
{
    proof {
        lemma_field16_bound(v, 0, 0xff);
    }
    ((v >> 0u16) & 0xffu16) as u8
}

/// The high byte of `v`.
pub fn hi_byte(v: u16) -> (b: u8)
    ensures
        b == field16(v, 8, 0xff),
        b == le16(v)[1],
{
    proof {
        lemma_field16_bound(v, 8, 0xff);
    }
    ((v >> 8u16) & 0xffu16) as u8
}

/// The half word with the low byte `lo` and the high byte `hi`.
pub fn half_word(lo: u8, hi: u8) -> (v: u16)
    ensures
        v == from_le16(lo, hi),
{
    let low: u16 = (0u16 & !(0xffu16 << 0u16)) | (((lo as u16) & 0xffu16) << 0u16);
    (low & !(0xffu16 << 8u16)) | (((hi as u16) & 0xffu16) << 8u16)
}

/// The word with the bytes `b0` to `b3`, the lowest first.
pub fn word(b0: u8, b1: u8, b2: u8, b3: u8) -> (v: u32)
    ensures
        v == from_le32(b0, b1, b2, b3),
{
    let w0: u32 = (0u32 & !(0xffu32 << 0u32)) | (((b0 as u32) & 0xffu32) << 0u32);
    let w1: u32 = (w0 & !(0xffu32 << 8u32)) | (((b1 as u32) & 0xffu32) << 8u32);
    let w2: u32 = (w1 & !(0xffu32 << 16u32)) | (((b2 as u32) & 0xffu32) << 16u32);
    (w2 & !(0xffu32 << 24u32)) | (((b3 as u32) & 0xffu32) << 24u32)
}

/// Byte `i` of `v`, counted from the lowest.
pub fn word_byte(v: u32, i: u32) -> (b: u8)
    requires
        i < 4,
    ensures
        b == le32(v)[i as int],
{
    proof {
        lemma_field32_bound(v, 0, 0xff);
        lemma_field32_bound(v, 8, 0xff);
        lemma_field32_bound(v, 16, 0xff);
        lemma_field32_bound(v, 24, 0xff);
    }
    if i == 0 {
        ((v >> 0u32) & 0xffu32) as u8
    } else if i == 1 {
        ((v >> 8u32) & 0xffu32) as u8
    } else if i == 2 {
        ((v >> 16u32) & 0xffu32) as u8
    } else {
        ((v >> 24u32) & 0xffu32) as u8
    }
}

} // verus!
