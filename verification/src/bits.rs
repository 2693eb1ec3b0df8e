//! Bit layout of a packed value word: a 16-bit tag in the high bits and a
//! 48-bit payload in the low bits. The tag is a storage category (bits 14-15)
//! joined with a type code (bits 0-13).

use vstd::prelude::*;

verus! {

/// Shift that moves the tag into bits 48-63.
pub const TAG_SHIFT: u64 = 48;

/// Mask of the 48 payload bits.
pub const PAYLOAD_MASK: u64 = 0xffff_ffff_ffff;

/// Mask of the category bits inside a tag.
pub const CATEGORY_MASK: u64 = 0xc000;

/// Mask of the type-code bits inside a tag.
pub const TYPE_MASK: u64 = 0x3fff;

/// Category of a value whose bits live in the payload.
pub const CATEGORY_INLINE: u64 = 0x0000;

/// Category of a value kept out of the word.
pub const CATEGORY_BOXED: u64 = 0x4000;

/// Bit 47 of the payload: the sign of a 48-bit two's complement number.
pub const SIGN_BIT_48: u64 = 0x8000_0000_0000;

/// The 16 bits above the payload.
pub const HIGH_BITS: u64 = 0xffff_0000_0000_0000;

/// Smallest signed number that a payload holds.
pub const MIN_I48: i64 = -0x8000_0000_0000;

/// Largest signed number that a payload holds.
pub const MAX_I48: i64 = 0x7fff_ffff_ffff;

pub const TYPE_NULL: u64 = 0;
pub const TYPE_BOOL: u64 = 1;
pub const TYPE_I8: u64 = 2;
pub const TYPE_I16: u64 = 3;
pub const TYPE_I32: u64 = 4;
pub const TYPE_I64: u64 = 5;
pub const TYPE_I128: u64 = 6;
pub const TYPE_U8: u64 = 7;
pub const TYPE_U16: u64 = 8;
pub const TYPE_U32: u64 = 9;
pub const TYPE_U64: u64 = 10;
pub const TYPE_U128: u64 = 11;
pub const TYPE_F32: u64 = 12;
pub const TYPE_F64: u64 = 13;
pub const TYPE_DECIMAL: u64 = 14;
pub const TYPE_CHAR: u64 = 15;
pub const TYPE_STRING: u64 = 16;
pub const TYPE_DATE: u64 = 17;
pub const TYPE_TIME: u64 = 18;
pub const TYPE_TIMESTAMP: u64 = 19;
pub const TYPE_TIMESTAMPZ: u64 = 20;
pub const TYPE_BYTES: u64 = 21;
pub const TYPE_UUID: u64 = 22;
pub const TYPE_JSON: u64 = 23;

/// The word that holds `tag` above `payload`.
pub open spec fn pack(tag: u64, payload: u64) -> u64 {
    (tag << TAG_SHIFT) | payload
}

/// The tag of a word.
pub open spec fn tag_of(word: u64) -> u64 {
    word >> TAG_SHIFT
}

/// The type code of a word.
pub open spec fn type_of(word: u64) -> u64 {
    (word >> TAG_SHIFT) & TYPE_MASK
}

/// The storage category of a word.
pub open spec fn category_of(word: u64) -> u64 {
    (word >> TAG_SHIFT) & CATEGORY_MASK
}

/// The payload of a word.
pub open spec fn payload_of(word: u64) -> u64 {
    word & PAYLOAD_MASK
}

/// The number that a payload holds in 48-bit two's complement.
pub open spec fn sign_extend48(p: u64) -> i64 {
    if p & SIGN_BIT_48 != 0 {
        (p | HIGH_BITS) as i64
    } else {
        p as i64
    }
}

/// The payload that holds a signed number in 48-bit two's complement.
pub open spec fn i48_payload(v: i64) -> u64 {
    (v as u64) & PAYLOAD_MASK
}

/// A word built from a category, a type code and a payload gives each back.
pub proof fn lemma_pack_fields(category: u64, ty: u64, payload: u64)
    requires
        category == CATEGORY_INLINE || category == CATEGORY_BOXED,
        ty <= TYPE_MASK,
        payload <= PAYLOAD_MASK,
    ensures
        type_of(pack(category | ty, payload)) == ty,
        category_of(pack(category | ty, payload)) == category,
        payload_of(pack(category | ty, payload)) == payload,
        tag_of(pack(category | ty, payload)) == category | ty,
{
    assert(((((category | ty) << 48u64) | payload) >> 48u64) & 0x3fffu64 == ty) by (bit_vector)
        requires
            category == 0u64 || category == 0x4000u64,
            ty <= 0x3fffu64,
            payload <= 0xffff_ffff_ffffu64,
    ;
    assert(((((category | ty) << 48u64) | payload) >> 48u64) & 0xc000u64 == category) by (bit_vector)
        requires
            category == 0u64 || category == 0x4000u64,
            ty <= 0x3fffu64,
            payload <= 0xffff_ffff_ffffu64,
    ;
    assert((((category | ty) << 48u64) | payload) & 0xffff_ffff_ffffu64 == payload) by (bit_vector)
        requires
            category == 0u64 || category == 0x4000u64,
            ty <= 0x3fffu64,
            payload <= 0xffff_ffff_ffffu64,
    ;
    assert((((category | ty) << 48u64) | payload) >> 48u64 == category | ty) by (bit_vector)
        requires
            category == 0u64 || category == 0x4000u64,
            ty <= 0x3fffu64,
            payload <= 0xffff_ffff_ffffu64,
    ;
}

/// Joining a category with a type code keeps both within the tag's 16 bits.
pub proof fn lemma_tag_bits(category: u64, ty: u64)
    requires
        category == CATEGORY_INLINE || category == CATEGORY_BOXED,
        ty <= TYPE_MASK,
    ensures
        category | ty < 0x10000,
        category | ty == category + ty,
{
    assert(category | ty < 0x10000u64 && category | ty == category + ty) by (bit_vector)
        requires
            category == 0u64 || category == 0x4000u64,
            ty <= 0x3fffu64,
    ;
}

/// Every payload is below 2^48.
pub proof fn lemma_payload_bound(word: u64)
    ensures
        payload_of(word) <= PAYLOAD_MASK,
{
    assert(word & 0xffff_ffff_ffffu64 <= 0xffff_ffff_ffffu64) by (bit_vector);
}

/// A signed number within 48 bits survives being stored in a payload.
pub proof fn lemma_i48_roundtrip(v: i64)
    requires
        MIN_I48 <= v <= MAX_I48,
    ensures
        i48_payload(v) <= PAYLOAD_MASK,
        sign_extend48(i48_payload(v)) == v,
{
    let p = (v as u64) & 0xffff_ffff_ffffu64;
    assert(p <= 0xffff_ffff_ffffu64) by (bit_vector)
        requires
            p == (v as u64) & 0xffff_ffff_ffffu64,
    ;
    assert(p & 0x8000_0000_0000u64 != 0 ==> (p | 0xffff_0000_0000_0000u64) as i64 == v) by (bit_vector)
        requires
            -0x8000_0000_0000i64 <= v <= 0x7fff_ffff_ffffi64,
            p == (v as u64) & 0xffff_ffff_ffffu64,
    ;
    assert(p & 0x8000_0000_0000u64 == 0 ==> p as i64 == v) by (bit_vector)
        requires
            -0x8000_0000_0000i64 <= v <= 0x7fff_ffff_ffffi64,
            p == (v as u64) & 0xffff_ffff_ffffu64,
    ;
}

/// Reading a payload as a signed number gives a number within 48 bits.
pub proof fn lemma_sign_extend_range(p: u64)
    requires
        p <= PAYLOAD_MASK,
    ensures
        MIN_I48 <= sign_extend48(p) <= MAX_I48,
{
    assert(p & 0x8000_0000_0000u64 != 0 ==> -0x8000_0000_0000i64 <= (p | 0xffff_0000_0000_0000u64) as i64 && ((p | 0xffff_0000_0000_0000u64) as i64) < 0i64) by (bit_vector)
        requires
            p <= 0xffff_ffff_ffffu64,
    ;
    assert(p & 0x8000_0000_0000u64 == 0 ==> 0i64 <= p as i64 && p as i64 <= 0x7fff_ffff_ffffi64) by (bit_vector)
        requires
            p <= 0xffff_ffff_ffffu64,
    ;
}

} // verus!
