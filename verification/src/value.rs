//! `DbValue`: a database value held as a tagged 64-bit word, with the
//! values that do not fit in it kept beside the word.
//!
//! The word keeps a 16-bit tag (storage category and type code) above a
//! 48-bit payload. Small values (booleans, characters, integers up to 32 bits,
//! 32-bit float bits, and 64-bit integers that fit in 48 bits) live in the
//! payload. Every other value is kept beside the word, in `boxed`, and its word
//! carries the tag with an empty payload.

use vstd::prelude::*;
use chrono::{NaiveDate, NaiveDateTime, NaiveTime};
use rust_decimal::Decimal;
use serde_json::Value as JsonValue;
use uuid::Uuid;

use crate::bits::{
    category_of, i48_payload, lemma_i48_roundtrip, lemma_pack_fields, lemma_payload_bound, lemma_sign_extend_range,
    lemma_tag_bits, pack, payload_of, sign_extend48, tag_of, type_of, CATEGORY_BOXED,
    CATEGORY_INLINE, CATEGORY_MASK, HIGH_BITS, MAX_I48, MIN_I48, PAYLOAD_MASK, SIGN_BIT_48,
    TAG_SHIFT, TYPE_BOOL, TYPE_BYTES, TYPE_CHAR, TYPE_DATE, TYPE_DECIMAL, TYPE_F32, TYPE_F64,
    TYPE_I128, TYPE_I16, TYPE_I32, TYPE_I64, TYPE_I8, TYPE_JSON, TYPE_MASK, TYPE_NULL,
    TYPE_STRING, TYPE_TIME, TYPE_TIMESTAMP, TYPE_TIMESTAMPZ, TYPE_U128, TYPE_U16, TYPE_U32,
    TYPE_U64, TYPE_U8, TYPE_UUID,
};
use crate::types::{is_mismatch, DbError, TypeError};
use crate::outside::{
    char_from_u32, date_eq, datetime_eq, decimal_eq, decimal_equal, json_clone, json_eq, json_equal,
    time_eq, uuid_eq,
};

verus! {

/// What a `DbValue` holds, as a mathematical value.
///
/// Floats are held by their IEEE-754 bits.
pub ghost enum ValueModel {
    Null,
    Bool(bool),
    I8(i8),
    I16(i16),
    I32(i32),
    I64(i64),
    I128(i128),
    U8(u8),
    U16(u16),
    U32(u32),
    U64(u64),
    U128(u128),
    F32(u32),
    F64(u64),
    Decimal(Decimal),
    Char(char),
    Text(Seq<char>),
    Date(NaiveDate),
    Time(NaiveTime),
    Timestamp(NaiveDateTime),
    TimestampUtc(NaiveDateTime),
    Bytes(Seq<u8>),
    Uuid(Uuid),
    Json(JsonValue),
}

impl ValueModel {
    /// The type code under which a value of this kind is tagged.
    pub open spec fn type_code(self) -> u64 {
        match self {
            ValueModel::Null => TYPE_NULL,
            ValueModel::Bool(_) => TYPE_BOOL,
            ValueModel::I8(_) => TYPE_I8,
            ValueModel::I16(_) => TYPE_I16,
            ValueModel::I32(_) => TYPE_I32,
            ValueModel::I64(_) => TYPE_I64,
            ValueModel::I128(_) => TYPE_I128,
            ValueModel::U8(_) => TYPE_U8,
            ValueModel::U16(_) => TYPE_U16,
            ValueModel::U32(_) => TYPE_U32,
            ValueModel::U64(_) => TYPE_U64,
            ValueModel::U128(_) => TYPE_U128,
            ValueModel::F32(_) => TYPE_F32,
            ValueModel::F64(_) => TYPE_F64,
            ValueModel::Decimal(_) => TYPE_DECIMAL,
            ValueModel::Char(_) => TYPE_CHAR,
            ValueModel::Text(_) => TYPE_STRING,
            ValueModel::Date(_) => TYPE_DATE,
            ValueModel::Time(_) => TYPE_TIME,
            ValueModel::Timestamp(_) => TYPE_TIMESTAMP,
            ValueModel::TimestampUtc(_) => TYPE_TIMESTAMPZ,
            ValueModel::Bytes(_) => TYPE_BYTES,
            ValueModel::Uuid(_) => TYPE_UUID,
            ValueModel::Json(_) => TYPE_JSON,
        }
    }

    /// The human-readable name of this kind of value.
    pub open spec fn type_label(self) -> Seq<char> {
        match self {
            ValueModel::Null => "Null"@,
            ValueModel::Bool(_) => "bool"@,
            ValueModel::I8(_) => "i8"@,
            ValueModel::I16(_) => "i16"@,
            ValueModel::I32(_) => "i32"@,
            ValueModel::I64(_) => "i64"@,
            ValueModel::I128(_) => "i128"@,
            ValueModel::U8(_) => "u8"@,
            ValueModel::U16(_) => "u16"@,
            ValueModel::U32(_) => "u32"@,
            ValueModel::U64(_) => "u64"@,
            ValueModel::U128(_) => "u128"@,
            ValueModel::F32(_) => "f32"@,
            ValueModel::F64(_) => "f64"@,
            ValueModel::Decimal(_) => "Decimal"@,
            ValueModel::Char(_) => "char"@,
            ValueModel::Text(_) => "String"@,
            ValueModel::Date(_) => "NaiveDate"@,
            ValueModel::Time(_) => "NaiveTime"@,
            ValueModel::Timestamp(_) => "NaiveDateTime"@,
            ValueModel::TimestampUtc(_) => "DateTime<Utc>"@,
            ValueModel::Bytes(_) => "Vec<u8>"@,
            ValueModel::Uuid(_) => "Uuid"@,
            ValueModel::Json(_) => "JsonValue"@,
        }
    }
}

/// IEEE-754 single precision: whether the bits are a NaN.
pub open spec fn f32_is_nan(bits: u32) -> bool {
    bits & 0x7f80_0000u32 == 0x7f80_0000u32 && bits & 0x007f_ffffu32 != 0
}

/// IEEE-754 double precision: whether the bits are a NaN.
pub open spec fn f64_is_nan(bits: u64) -> bool {
    bits & 0x7ff0_0000_0000_0000u64 == 0x7ff0_0000_0000_0000u64 && bits & 0x000f_ffff_ffff_ffffu64 != 0
}

/// IEEE-754 equality of two single-precision floats given by their bits:
/// NaN equals nothing, the two zeros are equal, other values by their bits.
pub open spec fn f32_bits_equal(a: u32, b: u32) -> bool {
    !f32_is_nan(a) && !f32_is_nan(b) && (a == b || (a & 0x7fff_ffffu32 == 0 && b & 0x7fff_ffffu32 == 0))
}

/// IEEE-754 equality of two double-precision floats given by their bits.
pub open spec fn f64_bits_equal(a: u64, b: u64) -> bool {
    !f64_is_nan(a) && !f64_is_nan(b) && (a == b || (a & 0x7fff_ffff_ffff_ffffu64 == 0 && b & 0x7fff_ffff_ffff_ffffu64 == 0))
}

/// When two values compare equal: the same kind of value, and equal contents
/// under that kind's own equality. Decimals and JSON values are equal when
/// identical or when the outside crate's equality holds of them, taken
/// either way round (it is symmetric in that crate's source).
pub open spec fn values_equal(a: ValueModel, b: ValueModel) -> bool {
    match (a, b) {
        (ValueModel::Null, ValueModel::Null) => true,
        (ValueModel::Bool(x), ValueModel::Bool(y)) => x == y,
        (ValueModel::I8(x), ValueModel::I8(y)) => x == y,
        (ValueModel::I16(x), ValueModel::I16(y)) => x == y,
        (ValueModel::I32(x), ValueModel::I32(y)) => x == y,
        (ValueModel::I64(x), ValueModel::I64(y)) => x == y,
        (ValueModel::I128(x), ValueModel::I128(y)) => x == y,
        (ValueModel::U8(x), ValueModel::U8(y)) => x == y,
        (ValueModel::U16(x), ValueModel::U16(y)) => x == y,
        (ValueModel::U32(x), ValueModel::U32(y)) => x == y,
        (ValueModel::U64(x), ValueModel::U64(y)) => x == y,
        (ValueModel::U128(x), ValueModel::U128(y)) => x == y,
        (ValueModel::F32(x), ValueModel::F32(y)) => f32_bits_equal(x, y),
        (ValueModel::F64(x), ValueModel::F64(y)) => f64_bits_equal(x, y),
        (ValueModel::Decimal(x), ValueModel::Decimal(y)) => x == y || decimal_equal(x, y)
            || decimal_equal(y, x),
        (ValueModel::Char(x), ValueModel::Char(y)) => x == y,
        (ValueModel::Text(x), ValueModel::Text(y)) => x == y,
        (ValueModel::Date(x), ValueModel::Date(y)) => x == y,
        (ValueModel::Time(x), ValueModel::Time(y)) => x == y,
        (ValueModel::Timestamp(x), ValueModel::Timestamp(y)) => x == y,
        (ValueModel::TimestampUtc(x), ValueModel::TimestampUtc(y)) => x == y,
        (ValueModel::Bytes(x), ValueModel::Bytes(y)) => x == y,
        (ValueModel::Uuid(x), ValueModel::Uuid(y)) => x == y,
        (ValueModel::Json(x), ValueModel::Json(y)) => x == y || json_equal(x, y) || json_equal(
            y,
            x,
        ),
        _ => false,
    }
}

/// Whether a payload is a well-formed inline encoding for a type code.
pub open spec fn inline_ok(ty: u64, p: u64) -> bool {
    ||| ty == TYPE_NULL && p == 0
    ||| ty == TYPE_BOOL && p <= 1
    ||| ty == TYPE_I8 && p <= PAYLOAD_MASK && -0x80 <= sign_extend48(p) <= 0x7f
    ||| ty == TYPE_I16 && p <= PAYLOAD_MASK && -0x8000 <= sign_extend48(p) <= 0x7fff
    ||| ty == TYPE_I32 && p <= PAYLOAD_MASK && -0x8000_0000 <= sign_extend48(p) <= 0x7fff_ffff
    ||| ty == TYPE_U8 && p <= 0xff
    ||| ty == TYPE_U16 && p <= 0xffff
    ||| ty == TYPE_U32 && p <= 0xffff_ffff
    ||| ty == TYPE_F32 && p <= 0xffff_ffff
    ||| ty == TYPE_CHAR && p <= 0xffff_ffff && vstd::utf8::is_scalar(p as u32)
    ||| ty == TYPE_I64 && p <= PAYLOAD_MASK
    ||| ty == TYPE_U64 && p <= PAYLOAD_MASK
}

/// The value that an inline payload encodes under a type code.
pub open spec fn inline_model(ty: u64, p: u64) -> ValueModel {
    if ty == TYPE_BOOL {
        ValueModel::Bool(p != 0)
    } else if ty == TYPE_I8 {
        ValueModel::I8(sign_extend48(p) as i8)
    } else if ty == TYPE_I16 {
        ValueModel::I16(sign_extend48(p) as i16)
    } else if ty == TYPE_I32 {
        ValueModel::I32(sign_extend48(p) as i32)
    } else if ty == TYPE_U8 {
        ValueModel::U8(p as u8)
    } else if ty == TYPE_U16 {
        ValueModel::U16(p as u16)
    } else if ty == TYPE_U32 {
        ValueModel::U32(p as u32)
    } else if ty == TYPE_F32 {
        ValueModel::F32(p as u32)
    } else if ty == TYPE_CHAR {
        ValueModel::Char((p as u32) as char)
    } else if ty == TYPE_I64 {
        ValueModel::I64(sign_extend48(p))
    } else if ty == TYPE_U64 {
        ValueModel::U64(p)
    } else {
        ValueModel::Null
    }
}

/// A value kept beside the word rather than in its payload.
#[derive(Debug)]
enum Boxed {
    I64(i64),
    U64(u64),
    F64(u64),
    I128(i128),
    U128(u128),
    Decimal(Decimal),
    Text(String),
    Date(NaiveDate),
    Time(NaiveTime),
    Timestamp(NaiveDateTime),
    TimestampUtc(NaiveDateTime),
    Bytes(Vec<u8>),
    Uuid(Uuid),
    Json(JsonValue),
}

impl Boxed {
    spec fn model(self) -> ValueModel {
        match self {
            Boxed::I64(v) => ValueModel::I64(v),
            Boxed::U64(v) => ValueModel::U64(v),
            Boxed::F64(v) => ValueModel::F64(v),
            Boxed::I128(v) => ValueModel::I128(v),
            Boxed::U128(v) => ValueModel::U128(v),
            Boxed::Decimal(v) => ValueModel::Decimal(v),
            Boxed::Text(v) => ValueModel::Text(v@),
            Boxed::Date(v) => ValueModel::Date(v),
            Boxed::Time(v) => ValueModel::Time(v),
            Boxed::Timestamp(v) => ValueModel::Timestamp(v),
            Boxed::TimestampUtc(v) => ValueModel::TimestampUtc(v),
            Boxed::Bytes(v) => ValueModel::Bytes(v@),
            Boxed::Uuid(v) => ValueModel::Uuid(v),
            Boxed::Json(v) => ValueModel::Json(v),
        }
    }

    /// A 64-bit integer is kept here only when the payload cannot hold it.
    spec fn canonical(self) -> bool {
        match self {
            Boxed::I64(v) => !(MIN_I48 <= v <= MAX_I48),
            Boxed::U64(v) => v > PAYLOAD_MASK,
            _ => true,
        }
    }

    fn clone_boxed(&self) -> (r: Boxed)
        ensures
            r.model() == self.model(),
            r.canonical() == self.canonical(),
    {
        match self {
            Boxed::I64(v) => Boxed::I64(*v),
            Boxed::U64(v) => Boxed::U64(*v),
            Boxed::F64(v) => Boxed::F64(*v),
            Boxed::I128(v) => Boxed::I128(*v),
            Boxed::U128(v) => Boxed::U128(*v),
            Boxed::Decimal(v) => Boxed::Decimal(*v),
            Boxed::Text(v) => Boxed::Text(v.clone()),
            Boxed::Date(v) => Boxed::Date(*v),
            Boxed::Time(v) => Boxed::Time(*v),
            Boxed::Timestamp(v) => Boxed::Timestamp(*v),
            Boxed::TimestampUtc(v) => Boxed::TimestampUtc(*v),
            Boxed::Bytes(v) => {
                let c = v.clone();
                assert(c@ =~= v@);
                Boxed::Bytes(c)
            },
            Boxed::Uuid(v) => Boxed::Uuid(*v),
            Boxed::Json(v) => Boxed::Json(json_clone(v)),
        }
    }
}

/// A database value: a tagged 64-bit word, `(tag << 48) | payload`, and,
/// for a value too large for the payload, its contents in the field `boxed`.
///
/// The tag joins a storage category (inline or boxed) with a type code.
/// Inline values keep their bits in the payload; a boxed value keeps its
/// contents in `boxed` and an empty payload.
#[derive(Debug)]
pub struct DbValue {
    word: u64,
    boxed: Option<Boxed>,
}

impl View for DbValue {
    type V = ValueModel;

    closed spec fn view(&self) -> ValueModel {
        match self.boxed {
            Some(b) => b.model(),
            None => inline_model(type_of(self.word), payload_of(self.word)),
        }
    }
}

impl DbValue {
    #[verifier::type_invariant]
    closed spec fn wf(self) -> bool {
        let ty = type_of(self.word);
        let p = payload_of(self.word);
        let cat = category_of(self.word);
        ||| cat == CATEGORY_INLINE && self.boxed is None && inline_ok(ty, p)
        ||| cat == CATEGORY_BOXED && p == 0 && (self.boxed matches Some(b) && b.model().type_code()
            == ty && b.canonical())
    }

    /// Whether the value lives in the word's payload, with nothing kept beside it.
    pub closed spec fn stored_inline(self) -> bool {
        self.boxed is None
    }

    /// The tag of a word is its category joined with the model's type code.
    proof fn lemma_type_code(self)
        requires
            self.wf(),
        ensures
            type_of(self.word) == self@.type_code(),
            self.stored_inline() <==> category_of(self.word) == CATEGORY_INLINE,
            category_of(self.word) == CATEGORY_INLINE || category_of(self.word) == CATEGORY_BOXED,
    {
    }

    /// Combines a storage category and a type code into a 16-bit tag.
    fn mk_tag(category: u64, ty: u64) -> (r: u64)
        requires
            category == CATEGORY_INLINE || category == CATEGORY_BOXED,
            ty <= TYPE_MASK,
        ensures
            r == category | ty,
            r == category + ty,
            r < 0x10000,
    {
        proof {
            lemma_tag_bits(category, ty);
        }
        category | ty
    }

    /// Builds an inline value from its tag and payload: `(tag << 48) | payload`.
    fn from_tag_and_payload(tag: u64, payload: u64) -> (r: Self)
        requires
            tag <= TYPE_MASK,
            inline_ok(tag, payload),
        ensures
            r.boxed is None,
            r.word == pack(tag, payload),
            r@ == inline_model(tag, payload),
    {
        proof {
            lemma_pack_fields(CATEGORY_INLINE, tag, payload);
            lemma_tag_bits(CATEGORY_INLINE, tag);
        }
        DbValue { word: (tag << TAG_SHIFT) | payload, boxed: None }
    }

    /// Builds an inline value whose payload holds a signed number in 48-bit
    /// two's complement.
    fn from_tag_and_i48(tag: u64, val: i64) -> (r: Self)
        requires
            tag <= TYPE_MASK,
            MIN_I48 <= val <= MAX_I48,
            inline_ok(tag, i48_payload(val)),
        ensures
            r.boxed is None,
            r.word == pack(tag, i48_payload(val)),
            r@ == inline_model(tag, i48_payload(val)),
            sign_extend48(i48_payload(val)) == val,
    {
        proof {
            lemma_i48_roundtrip(val);
        }
        let payload = (val as u64) & PAYLOAD_MASK;
        Self::from_tag_and_payload(tag, payload)
    }

    /// Builds an inline value whose payload holds an unsigned number.
    fn from_tag_and_u48(tag: u64, val: u64) -> (r: Self)
        requires
            tag <= TYPE_MASK,
            val <= PAYLOAD_MASK,
            inline_ok(tag, val),
        ensures
            r.boxed is None,
            r.word == pack(tag, val),
            r@ == inline_model(tag, val),
    {
        proof {
            assert(val & 0xffff_ffff_ffffu64 == val) by (bit_vector)
                requires
                    val <= 0xffff_ffff_ffffu64,
            ;
        }
        Self::from_tag_and_payload(tag, val & PAYLOAD_MASK)
    }

    /// Builds a boxed value: the tag over an empty payload, the contents beside it.
    fn from_tag_and_boxed(tag: u64, val: Boxed) -> (r: Self)
        requires
            tag == CATEGORY_BOXED | val.model().type_code(),
            val.canonical(),
        ensures
            r == (DbValue { word: pack(tag, 0), boxed: Some(val) }),
            r@ == val.model(),
            !r.stored_inline(),
    {
        proof {
            lemma_pack_fields(CATEGORY_BOXED, val.model().type_code(), 0);
            assert((tag << 48u64) | 0u64 == tag << 48u64) by (bit_vector);
        }
        DbValue { word: tag << TAG_SHIFT, boxed: Some(val) }
    }

    /// The 16-bit tag (bits 48-63).
    fn tag(&self) -> (r: u64)
        ensures
            r == tag_of(self.word),
    {
        self.word >> TAG_SHIFT
    }

    /// The storage category: `CATEGORY_INLINE` for a value that lives in the
    /// payload, `CATEGORY_BOXED` for one kept beside the word.
    pub fn category(&self) -> (r: u64)
        ensures
            r == CATEGORY_INLINE <==> self.stored_inline(),
            r == CATEGORY_INLINE || r == CATEGORY_BOXED,
    {
        self.word_category()
    }

    /// The category bits of the word's tag.
    fn word_category(&self) -> (r: u64)
        ensures
            r == category_of(self.word),
            r == CATEGORY_INLINE <==> self.stored_inline(),
            r == CATEGORY_INLINE || r == CATEGORY_BOXED,
    {
        proof {
            use_type_invariant(self);
        }
        self.tag() & CATEGORY_MASK
    }

    /// The type code.
    fn ty(&self) -> (r: u64)
        ensures
            r == type_of(self.word),
            r == self@.type_code(),
    {
        proof {
            use_type_invariant(self);
        }
        self.tag() & TYPE_MASK
    }

    /// The 48-bit payload.
    fn payload(&self) -> (r: u64)
        ensures
            r == payload_of(self.word),
            r <= PAYLOAD_MASK,
    {
        proof {
            lemma_payload_bound(self.word);
        }
        self.word & PAYLOAD_MASK
    }

    /// The payload read as a 48-bit two's complement number.
    fn payload_as_i64_i48(&self) -> (r: i64)
        ensures
            r == sign_extend48(payload_of(self.word)),
    {
        let p = self.payload();
        let sign_bit: u64 = SIGN_BIT_48;
        if (p & sign_bit) != 0 {
            (p | HIGH_BITS) as i64
        } else {
            p as i64
        }
    }

    // =====================================================================
    // Inline values
    // =====================================================================

    /// Creates a NULL value.
    pub fn from_null() -> (r: Self)
        ensures
            r == Self::encode_null(),
            r@ == ValueModel::Null,
            r.stored_inline(),
    {
        let tag = Self::mk_tag(CATEGORY_INLINE, TYPE_NULL);
        Self::from_tag_and_payload(tag, 0)
    }

    /// Whether this value is NULL.
    pub fn is_null(&self) -> (r: bool)
        ensures
            r == (self@ is Null),
    {
        self.ty() == TYPE_NULL
    }

    /// Creates a boolean value.
    pub fn from_bool(val: bool) -> (r: Self)
        ensures
            r == Self::encode_bool(val),
            r@ == ValueModel::Bool(val),
            r.stored_inline(),
    {
        let tag = Self::mk_tag(CATEGORY_INLINE, TYPE_BOOL);
        Self::from_tag_and_u48(tag, if val { 1 } else { 0 })
    }

    /// This value as a boolean, or `None` when it holds another type.
    pub fn as_bool(&self) -> (r: Option<bool>)
        ensures
            r == (match self@ {
                ValueModel::Bool(b) => Some(b),
                _ => None,
            }),
    {
        if self.ty() == TYPE_BOOL {
            proof {
                use_type_invariant(self);
            }
            Some(self.payload() != 0)
        } else {
            None
        }
    }

    /// Creates a `i8` value.
    pub fn from_i8(val: i8) -> (r: Self)
        ensures
            r == Self::encode_i8(val),
            r@ == ValueModel::I8(val),
            r.stored_inline(),
    {
        let tag = Self::mk_tag(CATEGORY_INLINE, TYPE_I8);
        proof {
            lemma_i48_roundtrip(val as i64);
        }
        Self::from_tag_and_i48(tag, val as i64)
    }

    /// This value as an `i8`, or `None` when it holds another type.
    pub fn as_i8(&self) -> (r: Option<i8>)
        ensures
            r == (match self@ {
                ValueModel::I8(x) => Some(x),
                _ => None,
            }),
    {
        if self.ty() == TYPE_I8 {
            proof {
                use_type_invariant(self);
            }
            Some(self.payload_as_i64_i48() as i8)
        } else {
            None
        }
    }

    /// Creates a `i16` value.
    pub fn from_i16(val: i16) -> (r: Self)
        ensures
            r == Self::encode_i16(val),
            r@ == ValueModel::I16(val),
            r.stored_inline(),
    {
        let tag = Self::mk_tag(CATEGORY_INLINE, TYPE_I16);
        proof {
            lemma_i48_roundtrip(val as i64);
        }
        Self::from_tag_and_i48(tag, val as i64)
    }

    /// This value as an `i16`, or `None` when it holds another type.
    pub fn as_i16(&self) -> (r: Option<i16>)
        ensures
            r == (match self@ {
                ValueModel::I16(x) => Some(x),
                _ => None,
            }),
    {
        if self.ty() == TYPE_I16 {
            proof {
                use_type_invariant(self);
            }
            Some(self.payload_as_i64_i48() as i16)
        } else {
            None
        }
    }

    /// Creates a `i32` value.
    pub fn from_i32(val: i32) -> (r: Self)
        ensures
            r == Self::encode_i32(val),
            r@ == ValueModel::I32(val),
            r.stored_inline(),
    {
        let tag = Self::mk_tag(CATEGORY_INLINE, TYPE_I32);
        proof {
            lemma_i48_roundtrip(val as i64);
        }
        Self::from_tag_and_i48(tag, val as i64)
    }

    /// This value as an `i32`, or `None` when it holds another type.
    pub fn as_i32(&self) -> (r: Option<i32>)
        ensures
            r == (match self@ {
                ValueModel::I32(x) => Some(x),
                _ => None,
            }),
    {
        if self.ty() == TYPE_I32 {
            proof {
                use_type_invariant(self);
            }
            Some(self.payload_as_i64_i48() as i32)
        } else {
            None
        }
    }

    /// Creates a `u8` value.
    pub fn from_u8(val: u8) -> (r: Self)
        ensures
            r == Self::encode_u8(val),
            r@ == ValueModel::U8(val),
            r.stored_inline(),
    {
        let tag = Self::mk_tag(CATEGORY_INLINE, TYPE_U8);
        Self::from_tag_and_u48(tag, val as u64)
    }

    /// This value as a `u8`, or `None` when it holds another type.
    pub fn as_u8(&self) -> (r: Option<u8>)
        ensures
            r == (match self@ {
                ValueModel::U8(x) => Some(x),
                _ => None,
            }),
    {
        if self.ty() == TYPE_U8 {
            proof {
                use_type_invariant(self);
            }
            Some(self.payload() as u8)
        } else {
            None
        }
    }

    /// Creates a `u16` value.
    pub fn from_u16(val: u16) -> (r: Self)
        ensures
            r == Self::encode_u16(val),
            r@ == ValueModel::U16(val),
            r.stored_inline(),
    {
        let tag = Self::mk_tag(CATEGORY_INLINE, TYPE_U16);
        Self::from_tag_and_u48(tag, val as u64)
    }

    /// This value as a `u16`, or `None` when it holds another type.
    pub fn as_u16(&self) -> (r: Option<u16>)
        ensures
            r == (match self@ {
                ValueModel::U16(x) => Some(x),
                _ => None,
            }),
    {
        if self.ty() == TYPE_U16 {
            proof {
                use_type_invariant(self);
            }
            Some(self.payload() as u16)
        } else {
            None
        }
    }

    /// Creates a `u32` value.
    pub fn from_u32(val: u32) -> (r: Self)
        ensures
            r == Self::encode_u32(val),
            r@ == ValueModel::U32(val),
            r.stored_inline(),
    {
        let tag = Self::mk_tag(CATEGORY_INLINE, TYPE_U32);
        Self::from_tag_and_u48(tag, val as u64)
    }

    /// This value as a `u32`, or `None` when it holds another type.
    pub fn as_u32(&self) -> (r: Option<u32>)
        ensures
            r == (match self@ {
                ValueModel::U32(x) => Some(x),
                _ => None,
            }),
    {
        if self.ty() == TYPE_U32 {
            proof {
                use_type_invariant(self);
            }
            Some(self.payload() as u32)
        } else {
            None
        }
    }

    /// Creates a 32-bit float value from its IEEE-754 bits.
    pub fn from_f32_bits(bits: u32) -> (r: Self)
        ensures
            r == Self::encode_f32_bits(bits),
            r@ == ValueModel::F32(bits),
            r.stored_inline(),
    {
        let tag = Self::mk_tag(CATEGORY_INLINE, TYPE_F32);
        Self::from_tag_and_u48(tag, bits as u64)
    }

    /// The IEEE-754 bits of this value as a 32-bit float, or `None` when it
    /// holds another type.
    pub fn as_f32_bits(&self) -> (r: Option<u32>)
        ensures
            r == (match self@ {
                ValueModel::F32(x) => Some(x),
                _ => None,
            }),
    {
        if self.ty() == TYPE_F32 {
            proof {
                use_type_invariant(self);
            }
            Some(self.payload() as u32)
        } else {
            None
        }
    }

    /// Creates a character value.
    pub fn from_char(val: char) -> (r: Self)
        ensures
            r == Self::encode_char(val),
            r@ == ValueModel::Char(val),
            r.stored_inline(),
    {
        let tag = Self::mk_tag(CATEGORY_INLINE, TYPE_CHAR);
        let code = val as u32;
        proof {
            vstd::utf8::char_is_scalar(val);
            vstd::utf8::char_u32_cast(val, code);
        }
        Self::from_tag_and_u48(tag, code as u64)
    }

    /// This value as a character, or `None` when it holds another type.
    pub fn as_char(&self) -> (r: Option<char>)
        ensures
            r == (match self@ {
                ValueModel::Char(c) => Some(c),
                _ => None,
            }),
    {
        if self.ty() != TYPE_CHAR {
            return None;
        }
        proof {
            use_type_invariant(self);
        }
        char_from_u32(self.payload() as u32)
    }

    // =====================================================================
    // Values that are inline or boxed depending on their size
    // =====================================================================

    /// Creates a signed 64-bit integer: inline when it fits in 48 bits,
    /// boxed otherwise.
    pub fn from_i64(val: i64) -> (r: Self)
        ensures
            r == Self::encode_i64(val),
            r@ == ValueModel::I64(val),
            r.stored_inline() <==> MIN_I48 <= val <= MAX_I48,
    {
        if MIN_I48 <= val && val <= MAX_I48 {
            let tag = Self::mk_tag(CATEGORY_INLINE, TYPE_I64);
            proof {
                lemma_i48_roundtrip(val);
            }
            Self::from_tag_and_i48(tag, val)
        } else {
            let tag = Self::mk_tag(CATEGORY_BOXED, TYPE_I64);
            Self::from_tag_and_boxed(tag, Boxed::I64(val))
        }
    }

    /// This value as a signed 64-bit integer, or `None` when it holds another type.
    pub fn as_i64(&self) -> (r: Option<i64>)
        ensures
            r == (match self@ {
                ValueModel::I64(x) => Some(x),
                _ => None,
            }),
    {
        if self.ty() != TYPE_I64 {
            return None;
        }
        proof {
            use_type_invariant(self);
        }
        let category = self.word_category();
        if category == CATEGORY_INLINE {
            Some(self.payload_as_i64_i48())
        } else {
            match &self.boxed {
                Some(Boxed::I64(v)) => Some(*v),
                _ => None,
            }
        }
    }

    /// Creates an unsigned 64-bit integer: inline when it fits in 48 bits,
    /// boxed otherwise.
    pub fn from_u64(val: u64) -> (r: Self)
        ensures
            r == Self::encode_u64(val),
            r@ == ValueModel::U64(val),
            r.stored_inline() <==> val <= PAYLOAD_MASK,
    {
        if (val & !PAYLOAD_MASK) == 0 {
            proof {
                assert(val & !0xffff_ffff_ffffu64 == 0 <==> val <= 0xffff_ffff_ffffu64) by (bit_vector);
            }
            let tag = Self::mk_tag(CATEGORY_INLINE, TYPE_U64);
            Self::from_tag_and_u48(tag, val)
        } else {
            proof {
                assert(val & !0xffff_ffff_ffffu64 == 0 <==> val <= 0xffff_ffff_ffffu64) by (bit_vector);
            }
            let tag = Self::mk_tag(CATEGORY_BOXED, TYPE_U64);
            Self::from_tag_and_boxed(tag, Boxed::U64(val))
        }
    }

    /// This value as an unsigned 64-bit integer, or `None` when it holds another type.
    pub fn as_u64(&self) -> (r: Option<u64>)
        ensures
            r == (match self@ {
                ValueModel::U64(x) => Some(x),
                _ => None,
            }),
    {
        if self.ty() != TYPE_U64 {
            return None;
        }
        proof {
            use_type_invariant(self);
        }
        let category = self.word_category();
        if category == CATEGORY_INLINE {
            Some(self.payload())
        } else {
            match &self.boxed {
                Some(Boxed::U64(v)) => Some(*v),
                _ => None,
            }
        }
    }

    // =====================================================================
    // Boxed values
    // =====================================================================

    /// Creates a 64-bit float value from its IEEE-754 bits (always boxed).
    pub fn from_f64_bits(bits: u64) -> (r: Self)
        ensures
            r == Self::encode_f64_bits(bits),
            r@ == ValueModel::F64(bits),
            !r.stored_inline(),
    {
        let tag = Self::mk_tag(CATEGORY_BOXED, TYPE_F64);
        Self::from_tag_and_boxed(tag, Boxed::F64(bits))
    }

    /// The IEEE-754 bits of this value as a 64-bit float, or `None` when it
    /// holds another type.
    pub fn as_f64_bits(&self) -> (r: Option<u64>)
        ensures
            r == (match self@ {
                ValueModel::F64(x) => Some(x),
                _ => None,
            }),
    {
        proof {
            use_type_invariant(self);
        }
        if self.ty() != TYPE_F64 || self.word_category() != CATEGORY_BOXED {
            return None;
        }
        match &self.boxed {
            Some(Boxed::F64(v)) => Some(*v),
            _ => None,
        }
    }

    /// Creates a signed 128-bit integer value (always boxed).
    pub fn from_i128(val: i128) -> (r: Self)
        ensures
            r == Self::encode_i128(val),
            r@ == ValueModel::I128(val),
            !r.stored_inline(),
    {
        let tag = Self::mk_tag(CATEGORY_BOXED, TYPE_I128);
        Self::from_tag_and_boxed(tag, Boxed::I128(val))
    }

    /// This value as a signed 128-bit integer, or `None` when it holds another type.
    pub fn as_i128(&self) -> (r: Option<&i128>)
        ensures
            match self@ {
                ValueModel::I128(x) => r is Some && *r->0 == x,
                _ => r is None,
            },
    {
        proof {
            use_type_invariant(self);
        }
        if self.ty() == TYPE_I128 && self.word_category() == CATEGORY_BOXED {
            match &self.boxed {
                Some(Boxed::I128(v)) => Some(v),
                _ => None,
            }
        } else {
            None
        }
    }

    /// Creates an unsigned 128-bit integer value (always boxed).
    pub fn from_u128(val: u128) -> (r: Self)
        ensures
            r == Self::encode_u128(val),
            r@ == ValueModel::U128(val),
            !r.stored_inline(),
    {
        let tag = Self::mk_tag(CATEGORY_BOXED, TYPE_U128);
        Self::from_tag_and_boxed(tag, Boxed::U128(val))
    }

    /// This value as an unsigned 128-bit integer, or `None` when it holds another type.
    pub fn as_u128(&self) -> (r: Option<&u128>)
        ensures
            match self@ {
                ValueModel::U128(x) => r is Some && *r->0 == x,
                _ => r is None,
            },
    {
        proof {
            use_type_invariant(self);
        }
        if self.ty() == TYPE_U128 && self.word_category() == CATEGORY_BOXED {
            match &self.boxed {
                Some(Boxed::U128(v)) => Some(v),
                _ => None,
            }
        } else {
            None
        }
    }

    /// Creates a decimal value (always boxed).
    pub fn from_decimal(val: Decimal) -> (r: Self)
        ensures
            r == Self::encode_decimal(val),
            r@ == ValueModel::Decimal(val),
            !r.stored_inline(),
    {
        let tag = Self::mk_tag(CATEGORY_BOXED, TYPE_DECIMAL);
        Self::from_tag_and_boxed(tag, Boxed::Decimal(val))
    }

    /// This value as a decimal, or `None` when it holds another type.
    pub fn as_decimal(&self) -> (r: Option<&Decimal>)
        ensures
            match self@ {
                ValueModel::Decimal(x) => r is Some && *r->0 == x,
                _ => r is None,
            },
    {
        proof {
            use_type_invariant(self);
        }
        if self.ty() == TYPE_DECIMAL && self.word_category() == CATEGORY_BOXED {
            match &self.boxed {
                Some(Boxed::Decimal(v)) => Some(v),
                _ => None,
            }
        } else {
            None
        }
    }

    /// Creates a UUID value (always boxed).
    pub fn from_uuid(val: Uuid) -> (r: Self)
        ensures
            r == Self::encode_uuid(val),
            r@ == ValueModel::Uuid(val),
            !r.stored_inline(),
    {
        let tag = Self::mk_tag(CATEGORY_BOXED, TYPE_UUID);
        Self::from_tag_and_boxed(tag, Boxed::Uuid(val))
    }

    /// This value as a UUID, or `None` when it holds another type.
    pub fn as_uuid(&self) -> (r: Option<&Uuid>)
        ensures
            match self@ {
                ValueModel::Uuid(x) => r is Some && *r->0 == x,
                _ => r is None,
            },
    {
        proof {
            use_type_invariant(self);
        }
        if self.ty() == TYPE_UUID && self.word_category() == CATEGORY_BOXED {
            match &self.boxed {
                Some(Boxed::Uuid(v)) => Some(v),
                _ => None,
            }
        } else {
            None
        }
    }

    /// Creates a JSON value value (always boxed).
    pub fn from_json(val: JsonValue) -> (r: Self)
        ensures
            r == Self::encode_json(val),
            r@ == ValueModel::Json(val),
            !r.stored_inline(),
    {
        let tag = Self::mk_tag(CATEGORY_BOXED, TYPE_JSON);
        Self::from_tag_and_boxed(tag, Boxed::Json(val))
    }

    /// This value as a JSON value, or `None` when it holds another type.
    pub fn as_json(&self) -> (r: Option<&JsonValue>)
        ensures
            match self@ {
                ValueModel::Json(x) => r is Some && *r->0 == x,
                _ => r is None,
            },
    {
        proof {
            use_type_invariant(self);
        }
        if self.ty() == TYPE_JSON && self.word_category() == CATEGORY_BOXED {
            match &self.boxed {
                Some(Boxed::Json(v)) => Some(v),
                _ => None,
            }
        } else {
            None
        }
    }

    /// Creates a calendar date value (always boxed).
    pub fn from_date(val: NaiveDate) -> (r: Self)
        ensures
            r == Self::encode_date(val),
            r@ == ValueModel::Date(val),
            !r.stored_inline(),
    {
        let tag = Self::mk_tag(CATEGORY_BOXED, TYPE_DATE);
        Self::from_tag_and_boxed(tag, Boxed::Date(val))
    }

    /// This value as a calendar date, or `None` when it holds another type.
    pub fn as_date(&self) -> (r: Option<&NaiveDate>)
        ensures
            match self@ {
                ValueModel::Date(x) => r is Some && *r->0 == x,
                _ => r is None,
            },
    {
        proof {
            use_type_invariant(self);
        }
        if self.ty() == TYPE_DATE && self.word_category() == CATEGORY_BOXED {
            match &self.boxed {
                Some(Boxed::Date(v)) => Some(v),
                _ => None,
            }
        } else {
            None
        }
    }

    /// Creates a time of day value (always boxed).
    pub fn from_time(val: NaiveTime) -> (r: Self)
        ensures
            r == Self::encode_time(val),
            r@ == ValueModel::Time(val),
            !r.stored_inline(),
    {
        let tag = Self::mk_tag(CATEGORY_BOXED, TYPE_TIME);
        Self::from_tag_and_boxed(tag, Boxed::Time(val))
    }

    /// This value as a time of day, or `None` when it holds another type.
    pub fn as_time(&self) -> (r: Option<&NaiveTime>)
        ensures
            match self@ {
                ValueModel::Time(x) => r is Some && *r->0 == x,
                _ => r is None,
            },
    {
        proof {
            use_type_invariant(self);
        }
        if self.ty() == TYPE_TIME && self.word_category() == CATEGORY_BOXED {
            match &self.boxed {
                Some(Boxed::Time(v)) => Some(v),
                _ => None,
            }
        } else {
            None
        }
    }

    /// Creates a date and time without time zone value (always boxed).
    pub fn from_timestamp(val: NaiveDateTime) -> (r: Self)
        ensures
            r == Self::encode_timestamp(val),
            r@ == ValueModel::Timestamp(val),
            !r.stored_inline(),
    {
        let tag = Self::mk_tag(CATEGORY_BOXED, TYPE_TIMESTAMP);
        Self::from_tag_and_boxed(tag, Boxed::Timestamp(val))
    }

    /// This value as a date and time without time zone, or `None` when it holds another type.
    pub fn as_timestamp(&self) -> (r: Option<&NaiveDateTime>)
        ensures
            match self@ {
                ValueModel::Timestamp(x) => r is Some && *r->0 == x,
                _ => r is None,
            },
    {
        proof {
            use_type_invariant(self);
        }
        if self.ty() == TYPE_TIMESTAMP && self.word_category() == CATEGORY_BOXED {
            match &self.boxed {
                Some(Boxed::Timestamp(v)) => Some(v),
                _ => None,
            }
        } else {
            None
        }
    }

    /// Creates a date and time in UTC, given by its UTC date and time value (always boxed).
    pub fn from_timestampz(val: NaiveDateTime) -> (r: Self)
        ensures
            r == Self::encode_timestampz(val),
            r@ == ValueModel::TimestampUtc(val),
            !r.stored_inline(),
    {
        let tag = Self::mk_tag(CATEGORY_BOXED, TYPE_TIMESTAMPZ);
        Self::from_tag_and_boxed(tag, Boxed::TimestampUtc(val))
    }

    /// This value as a date and time in UTC, given by its UTC date and time, or `None` when it holds another type.
    pub fn as_timestampz(&self) -> (r: Option<&NaiveDateTime>)
        ensures
            match self@ {
                ValueModel::TimestampUtc(x) => r is Some && *r->0 == x,
                _ => r is None,
            },
    {
        proof {
            use_type_invariant(self);
        }
        if self.ty() == TYPE_TIMESTAMPZ && self.word_category() == CATEGORY_BOXED {
            match &self.boxed {
                Some(Boxed::TimestampUtc(v)) => Some(v),
                _ => None,
            }
        } else {
            None
        }
    }

    /// Creates a UTF-8 string value (always boxed).
    pub fn from_string(val: String) -> (r: Self)
        ensures
            r == Self::encode_string(val),
            r@ == ValueModel::Text(val@),
            !r.stored_inline(),
    {
        let tag = Self::mk_tag(CATEGORY_BOXED, TYPE_STRING);
        Self::from_tag_and_boxed(tag, Boxed::Text(val))
    }

    /// Creates a UTF-8 string value from a string slice (always boxed).
    pub fn from_str(val: &str) -> (r: Self)
        ensures
            r@ == ValueModel::Text(val@),
            !r.stored_inline(),
    {
        Self::from_string(val.to_owned())
    }

    /// This value as a string slice, or `None` when it holds another type.
    pub fn as_string(&self) -> (r: Option<&str>)
        ensures
            match self@ {
                ValueModel::Text(s) => r is Some && r->0@ == s,
                _ => r is None,
            },
    {
        proof {
            use_type_invariant(self);
        }
        if self.ty() != TYPE_STRING || self.word_category() != CATEGORY_BOXED {
            return None;
        }
        match &self.boxed {
            Some(Boxed::Text(s)) => Some(s.as_str()),
            _ => None,
        }
    }

    /// Creates a byte-string value (always boxed).
    pub fn from_bytes(val: Vec<u8>) -> (r: Self)
        ensures
            r == Self::encode_bytes(val),
            r@ == ValueModel::Bytes(val@),
            !r.stored_inline(),
    {
        let tag = Self::mk_tag(CATEGORY_BOXED, TYPE_BYTES);
        Self::from_tag_and_boxed(tag, Boxed::Bytes(val))
    }

    /// This value as a byte slice, or `None` when it holds another type.
    pub fn as_bytes(&self) -> (r: Option<&[u8]>)
        ensures
            match self@ {
                ValueModel::Bytes(b) => r is Some && r->0@ == b,
                _ => r is None,
            },
    {
        proof {
            use_type_invariant(self);
        }
        if self.ty() != TYPE_BYTES || self.word_category() != CATEGORY_BOXED {
            return None;
        }
        match &self.boxed {
            Some(Boxed::Bytes(b)) => Some(b.as_slice()),
            _ => None,
        }
    }

    // =====================================================================
    // Type tests
    // =====================================================================

    /// Whether this value holds the `bool` type.
    pub fn is_bool(&self) -> (r: bool)
        ensures
            r == (self@ is Bool),
    {
        self.ty() == TYPE_BOOL
    }

    /// Whether this value holds the `i8` type.
    pub fn is_i8(&self) -> (r: bool)
        ensures
            r == (self@ is I8),
    {
        self.ty() == TYPE_I8
    }

    /// Whether this value holds the `i16` type.
    pub fn is_i16(&self) -> (r: bool)
        ensures
            r == (self@ is I16),
    {
        self.ty() == TYPE_I16
    }

    /// Whether this value holds the `i32` type.
    pub fn is_i32(&self) -> (r: bool)
        ensures
            r == (self@ is I32),
    {
        self.ty() == TYPE_I32
    }

    /// Whether this value holds the `u8` type.
    pub fn is_u8(&self) -> (r: bool)
        ensures
            r == (self@ is U8),
    {
        self.ty() == TYPE_U8
    }

    /// Whether this value holds the `u16` type.
    pub fn is_u16(&self) -> (r: bool)
        ensures
            r == (self@ is U16),
    {
        self.ty() == TYPE_U16
    }

    /// Whether this value holds the `u32` type.
    pub fn is_u32(&self) -> (r: bool)
        ensures
            r == (self@ is U32),
    {
        self.ty() == TYPE_U32
    }

    /// Whether this value holds the `f32` type.
    pub fn is_f32(&self) -> (r: bool)
        ensures
            r == (self@ is F32),
    {
        self.ty() == TYPE_F32
    }

    /// Whether this value holds the `char` type.
    pub fn is_char(&self) -> (r: bool)
        ensures
            r == (self@ is Char),
    {
        self.ty() == TYPE_CHAR
    }

    /// Whether this value holds the `i64` type.
    pub fn is_i64(&self) -> (r: bool)
        ensures
            r == (self@ is I64),
    {
        self.ty() == TYPE_I64
    }

    /// Whether this value holds the `u64` type.
    pub fn is_u64(&self) -> (r: bool)
        ensures
            r == (self@ is U64),
    {
        self.ty() == TYPE_U64
    }

    /// Whether this value holds the `f64` type.
    pub fn is_f64(&self) -> (r: bool)
        ensures
            r == (self@ is F64),
    {
        self.ty() == TYPE_F64
    }

    /// Whether this value holds the `i128` type.
    pub fn is_i128(&self) -> (r: bool)
        ensures
            r == (self@ is I128),
    {
        self.ty() == TYPE_I128
    }

    /// Whether this value holds the `u128` type.
    pub fn is_u128(&self) -> (r: bool)
        ensures
            r == (self@ is U128),
    {
        self.ty() == TYPE_U128
    }

    /// Whether this value holds the `decimal` type.
    pub fn is_decimal(&self) -> (r: bool)
        ensures
            r == (self@ is Decimal),
    {
        self.ty() == TYPE_DECIMAL
    }

    /// Whether this value holds the `string` type.
    pub fn is_string(&self) -> (r: bool)
        ensures
            r == (self@ is Text),
    {
        self.ty() == TYPE_STRING
    }

    /// Whether this value holds the `bytes` type.
    pub fn is_bytes(&self) -> (r: bool)
        ensures
            r == (self@ is Bytes),
    {
        self.ty() == TYPE_BYTES
    }

    /// Whether this value holds the `uuid` type.
    pub fn is_uuid(&self) -> (r: bool)
        ensures
            r == (self@ is Uuid),
    {
        self.ty() == TYPE_UUID
    }

    /// Whether this value holds the `json` type.
    pub fn is_json(&self) -> (r: bool)
        ensures
            r == (self@ is Json),
    {
        self.ty() == TYPE_JSON
    }

    /// Whether this value holds the `date` type.
    pub fn is_date(&self) -> (r: bool)
        ensures
            r == (self@ is Date),
    {
        self.ty() == TYPE_DATE
    }

    /// Whether this value holds the `time` type.
    pub fn is_time(&self) -> (r: bool)
        ensures
            r == (self@ is Time),
    {
        self.ty() == TYPE_TIME
    }

    /// Whether this value holds the `timestamp` type.
    pub fn is_timestamp(&self) -> (r: bool)
        ensures
            r == (self@ is Timestamp),
    {
        self.ty() == TYPE_TIMESTAMP
    }

    /// Whether this value holds the `timestampz` type.
    pub fn is_timestampz(&self) -> (r: bool)
        ensures
            r == (self@ is TimestampUtc),
    {
        self.ty() == TYPE_TIMESTAMPZ
    }

    /// The type code of this value's kind.
    pub(crate) fn kind_code(&self) -> (r: u64)
        ensures
            r == self@.type_code(),
    {
        self.ty()
    }

    /// The human-readable name of this value's type.
    pub fn type_label(&self) -> (r: &'static str)
        ensures
            r@ == self@.type_label(),
    {
        let ty = self.ty();
        if ty == TYPE_NULL {
            proof {
                reveal_strlit("Null");
            }
            "Null"
        } else if ty == TYPE_BOOL {
            proof {
                reveal_strlit("bool");
            }
            "bool"
        } else if ty == TYPE_I8 {
            proof {
                reveal_strlit("i8");
            }
            "i8"
        } else if ty == TYPE_I16 {
            proof {
                reveal_strlit("i16");
            }
            "i16"
        } else if ty == TYPE_I32 {
            proof {
                reveal_strlit("i32");
            }
            "i32"
        } else if ty == TYPE_I64 {
            proof {
                reveal_strlit("i64");
            }
            "i64"
        } else if ty == TYPE_I128 {
            proof {
                reveal_strlit("i128");
            }
            "i128"
        } else if ty == TYPE_U8 {
            proof {
                reveal_strlit("u8");
            }
            "u8"
        } else if ty == TYPE_U16 {
            proof {
                reveal_strlit("u16");
            }
            "u16"
        } else if ty == TYPE_U32 {
            proof {
                reveal_strlit("u32");
            }
            "u32"
        } else if ty == TYPE_U64 {
            proof {
                reveal_strlit("u64");
            }
            "u64"
        } else if ty == TYPE_U128 {
            proof {
                reveal_strlit("u128");
            }
            "u128"
        } else if ty == TYPE_F32 {
            proof {
                reveal_strlit("f32");
            }
            "f32"
        } else if ty == TYPE_F64 {
            proof {
                reveal_strlit("f64");
            }
            "f64"
        } else if ty == TYPE_DECIMAL {
            proof {
                reveal_strlit("Decimal");
            }
            "Decimal"
        } else if ty == TYPE_CHAR {
            proof {
                reveal_strlit("char");
            }
            "char"
        } else if ty == TYPE_STRING {
            proof {
                reveal_strlit("String");
            }
            "String"
        } else if ty == TYPE_DATE {
            proof {
                reveal_strlit("NaiveDate");
            }
            "NaiveDate"
        } else if ty == TYPE_TIME {
            proof {
                reveal_strlit("NaiveTime");
            }
            "NaiveTime"
        } else if ty == TYPE_TIMESTAMP {
            proof {
                reveal_strlit("NaiveDateTime");
            }
            "NaiveDateTime"
        } else if ty == TYPE_TIMESTAMPZ {
            proof {
                reveal_strlit("DateTime<Utc>");
            }
            "DateTime<Utc>"
        } else if ty == TYPE_BYTES {
            proof {
                reveal_strlit("Vec<u8>");
            }
            "Vec<u8>"
        } else if ty == TYPE_UUID {
            proof {
                reveal_strlit("Uuid");
            }
            "Uuid"
        } else if ty == TYPE_JSON {
            proof {
                reveal_strlit("JsonValue");
            }
            "JsonValue"
        } else {
            proof {
                reveal_strlit("Unknown");
            }
            "Unknown"
        }
    }
}

/// Two payloads that read as the same signed 48-bit number are the same payload.
proof fn lemma_sign_extend_injective(p: u64, q: u64)
    requires
        p <= PAYLOAD_MASK,
        q <= PAYLOAD_MASK,
        sign_extend48(p) == sign_extend48(q),
    ensures
        p == q,
{
    assert(p == q) by (bit_vector)
        requires
            p <= 0xffff_ffff_ffffu64,
            q <= 0xffff_ffff_ffffu64,
            (if p & 0x8000_0000_0000u64 != 0 { (p | 0xffff_0000_0000_0000u64) as i64 } else { p as i64 })
                == (if q & 0x8000_0000_0000u64 != 0 { (q | 0xffff_0000_0000_0000u64) as i64 } else { q as i64 }),
    ;
}

/// Apart from float bits, two inline payloads of one type encode equal
/// values exactly when they are the same payload.
proof fn lemma_inline_eq(ty: u64, p: u64, q: u64)
    requires
        inline_ok(ty, p),
        inline_ok(ty, q),
        ty != TYPE_F32,
    ensures
        values_equal(inline_model(ty, p), inline_model(ty, q)) == (p == q),
{
    if ty == TYPE_I8 || ty == TYPE_I16 || ty == TYPE_I32 || ty == TYPE_I64 {
        if sign_extend48(p) == sign_extend48(q) {
            lemma_sign_extend_injective(p, q);
        }
        if ty == TYPE_I8 {
            assert((sign_extend48(p) as i8) as i64 == sign_extend48(p));
            assert((sign_extend48(q) as i8) as i64 == sign_extend48(q));
        }
        if ty == TYPE_I16 {
            assert((sign_extend48(p) as i16) as i64 == sign_extend48(p));
            assert((sign_extend48(q) as i16) as i64 == sign_extend48(q));
        }
        if ty == TYPE_I32 {
            assert((sign_extend48(p) as i32) as i64 == sign_extend48(p));
            assert((sign_extend48(q) as i32) as i64 == sign_extend48(q));
        }
    } else if ty == TYPE_U8 {
        assert((p as u8) as u64 == p);
        assert((q as u8) as u64 == q);
    } else if ty == TYPE_U16 {
        assert((p as u16) as u64 == p);
        assert((q as u16) as u64 == q);
    } else if ty == TYPE_U32 {
        assert((p as u32) as u64 == p);
        assert((q as u32) as u64 == q);
    } else if ty == TYPE_CHAR {
        assert(((p as u32) as char) as u32 == p as u32);
        assert(((q as u32) as char) as u32 == q as u32);
        assert((p as u32) as u64 == p);
        assert((q as u32) as u64 == q);
    }
}

/// IEEE-754 equality of two single-precision floats given by their bits.
fn f32_bits_eq(a: u32, b: u32) -> (r: bool)
    ensures
        r == f32_bits_equal(a, b),
{
    let a_nan = (a & 0x7f80_0000) == 0x7f80_0000 && (a & 0x007f_ffff) != 0;
    let b_nan = (b & 0x7f80_0000) == 0x7f80_0000 && (b & 0x007f_ffff) != 0;
    !a_nan && !b_nan && (a == b || ((a & 0x7fff_ffff) == 0 && (b & 0x7fff_ffff) == 0))
}

/// IEEE-754 equality of two double-precision floats given by their bits.
fn f64_bits_eq(a: u64, b: u64) -> (r: bool)
    ensures
        r == f64_bits_equal(a, b),
{
    let a_nan = (a & 0x7ff0_0000_0000_0000) == 0x7ff0_0000_0000_0000 && (a & 0x000f_ffff_ffff_ffff) != 0;
    let b_nan = (b & 0x7ff0_0000_0000_0000) == 0x7ff0_0000_0000_0000 && (b & 0x000f_ffff_ffff_ffff) != 0;
    !a_nan && !b_nan && (a == b || ((a & 0x7fff_ffff_ffff_ffff) == 0 && (b & 0x7fff_ffff_ffff_ffff) == 0))
}

impl Boxed {
    /// Compares two boxed contents of the same type.
    fn eq_boxed(&self, other: &Boxed) -> (r: bool)
        requires
            self.model().type_code() == other.model().type_code(),
        ensures
            r == values_equal(self.model(), other.model()),
    {
        match (self, other) {
            (Boxed::I64(a), Boxed::I64(b)) => *a == *b,
            (Boxed::U64(a), Boxed::U64(b)) => *a == *b,
            (Boxed::F64(a), Boxed::F64(b)) => f64_bits_eq(*a, *b),
            (Boxed::I128(a), Boxed::I128(b)) => *a == *b,
            (Boxed::U128(a), Boxed::U128(b)) => *a == *b,
            (Boxed::Decimal(a), Boxed::Decimal(b)) => decimal_eq(a, b),
            (Boxed::Text(a), Boxed::Text(b)) => {
                let r = String::eq(a, b);
                r
            },
            (Boxed::Date(a), Boxed::Date(b)) => date_eq(a, b),
            (Boxed::Time(a), Boxed::Time(b)) => time_eq(a, b),
            (Boxed::Timestamp(a), Boxed::Timestamp(b)) => datetime_eq(a, b),
            (Boxed::TimestampUtc(a), Boxed::TimestampUtc(b)) => datetime_eq(a, b),
            (Boxed::Bytes(a), Boxed::Bytes(b)) => {
                let r = Vec::eq(a, b);
                proof {
                    if r {
                        assert(a@ =~= b@);
                    }
                }
                r
            },
            (Boxed::Uuid(a), Boxed::Uuid(b)) => uuid_eq(a, b),
            (Boxed::Json(a), Boxed::Json(b)) => json_eq(a, b),
            _ => false,
        }
    }
}

impl Clone for DbValue {
    /// A deep copy: an inline value copies its word, a boxed value copies its contents.
    fn clone(&self) -> (r: Self)
        ensures
            r@ == self@,
            r.stored_inline() == self.stored_inline(),
    {
        proof {
            use_type_invariant(self);
        }
        if self.word_category() != CATEGORY_BOXED {
            return DbValue { word: self.word, boxed: None };
        }
        match &self.boxed {
            Some(b) => DbValue { word: self.word, boxed: Some(b.clone_boxed()) },
            None => DbValue { word: self.word, boxed: None },
        }
    }
}

impl PartialEq for DbValue {
    fn eq(&self, other: &Self) -> (r: bool) {
        proof {
            use_type_invariant(self);
            use_type_invariant(other);
        }
        let ty = self.ty();
        if ty != other.ty() {
            return false;
        }
        match (&self.boxed, &other.boxed) {
            (None, None) => {
                let p = self.payload();
                let q = other.payload();
                if ty == TYPE_F32 {
                    f32_bits_eq(p as u32, q as u32)
                } else {
                    proof {
                        lemma_inline_eq(ty, p, q);
                    }
                    p == q
                }
            },
            (Some(a), Some(b)) => a.eq_boxed(b),
            _ => {
                proof {
                    lemma_payload_bound(self.word);
                    lemma_payload_bound(other.word);
                    lemma_sign_extend_range(payload_of(self.word));
                    lemma_sign_extend_range(payload_of(other.word));
                }
                false
            },
        }
    }
}

impl vstd::std_specs::cmp::PartialEqSpecImpl for DbValue {
    open spec fn obeys_eq_spec() -> bool {
        true
    }

    open spec fn eq_spec(&self, other: &DbValue) -> bool {
        values_equal(self@, other@)
    }
}

impl DbValue {
    /// The type-mismatch error for reading `value` as the type named `expected`.
    fn mismatch(expected: &str, value: &DbValue) -> (r: DbError)
        ensures
            is_mismatch(r, expected@, value@.type_label()),
    {
        DbError::Type(
            TypeError::Mismatch { expected: expected.to_owned(), found: value.type_label().to_owned() },
        )
    }
}

impl DbValue {
    /// The packed form of NULL.
    pub closed spec fn encode_null() -> DbValue {
        DbValue { word: pack(CATEGORY_INLINE | TYPE_NULL, 0), boxed: None }
    }

    /// The packed form of a boolean.
    pub closed spec fn encode_bool(v: bool) -> DbValue {
        DbValue { word: pack(CATEGORY_INLINE | TYPE_BOOL, if v { 1 } else { 0 }), boxed: None }
    }

    /// The packed form of an `i8`.
    pub closed spec fn encode_i8(v: i8) -> DbValue {
        DbValue { word: pack(CATEGORY_INLINE | TYPE_I8, i48_payload(v as i64)), boxed: None }
    }

    /// The packed form of an `i16`.
    pub closed spec fn encode_i16(v: i16) -> DbValue {
        DbValue { word: pack(CATEGORY_INLINE | TYPE_I16, i48_payload(v as i64)), boxed: None }
    }

    /// The packed form of an `i32`.
    pub closed spec fn encode_i32(v: i32) -> DbValue {
        DbValue { word: pack(CATEGORY_INLINE | TYPE_I32, i48_payload(v as i64)), boxed: None }
    }

    /// The packed form of a `u8`.
    pub closed spec fn encode_u8(v: u8) -> DbValue {
        DbValue { word: pack(CATEGORY_INLINE | TYPE_U8, v as u64), boxed: None }
    }

    /// The packed form of a `u16`.
    pub closed spec fn encode_u16(v: u16) -> DbValue {
        DbValue { word: pack(CATEGORY_INLINE | TYPE_U16, v as u64), boxed: None }
    }

    /// The packed form of a `u32`.
    pub closed spec fn encode_u32(v: u32) -> DbValue {
        DbValue { word: pack(CATEGORY_INLINE | TYPE_U32, v as u64), boxed: None }
    }

    /// The packed form of 32-bit float bits.
    pub closed spec fn encode_f32_bits(bits: u32) -> DbValue {
        DbValue { word: pack(CATEGORY_INLINE | TYPE_F32, bits as u64), boxed: None }
    }

    /// The packed form of a character.
    pub closed spec fn encode_char(v: char) -> DbValue {
        DbValue { word: pack(CATEGORY_INLINE | TYPE_CHAR, (v as u32) as u64), boxed: None }
    }

    /// The packed form of a signed 64-bit integer.
    pub closed spec fn encode_i64(v: i64) -> DbValue {
        if MIN_I48 <= v <= MAX_I48 {
            DbValue { word: pack(CATEGORY_INLINE | TYPE_I64, i48_payload(v)), boxed: None }
        } else {
            DbValue { word: pack(CATEGORY_BOXED | TYPE_I64, 0), boxed: Some(Boxed::I64(v)) }
        }
    }

    /// The packed form of an unsigned 64-bit integer.
    pub closed spec fn encode_u64(v: u64) -> DbValue {
        if v <= PAYLOAD_MASK {
            DbValue { word: pack(CATEGORY_INLINE | TYPE_U64, v), boxed: None }
        } else {
            DbValue { word: pack(CATEGORY_BOXED | TYPE_U64, 0), boxed: Some(Boxed::U64(v)) }
        }
    }

    /// The packed form of 64-bit float bits.
    pub closed spec fn encode_f64_bits(bits: u64) -> DbValue {
        DbValue { word: pack(CATEGORY_BOXED | TYPE_F64, 0), boxed: Some(Boxed::F64(bits)) }
    }

    /// The packed form of a boxed `i128`.
    pub closed spec fn encode_i128(v: i128) -> DbValue {
        DbValue { word: pack(CATEGORY_BOXED | TYPE_I128, 0), boxed: Some(Boxed::I128(v)) }
    }

    /// The packed form of a boxed `u128`.
    pub closed spec fn encode_u128(v: u128) -> DbValue {
        DbValue { word: pack(CATEGORY_BOXED | TYPE_U128, 0), boxed: Some(Boxed::U128(v)) }
    }

    /// The packed form of a boxed `Decimal`.
    pub closed spec fn encode_decimal(v: Decimal) -> DbValue {
        DbValue { word: pack(CATEGORY_BOXED | TYPE_DECIMAL, 0), boxed: Some(Boxed::Decimal(v)) }
    }

    /// The packed form of a boxed `Uuid`.
    pub closed spec fn encode_uuid(v: Uuid) -> DbValue {
        DbValue { word: pack(CATEGORY_BOXED | TYPE_UUID, 0), boxed: Some(Boxed::Uuid(v)) }
    }

    /// The packed form of a boxed `JsonValue`.
    pub closed spec fn encode_json(v: JsonValue) -> DbValue {
        DbValue { word: pack(CATEGORY_BOXED | TYPE_JSON, 0), boxed: Some(Boxed::Json(v)) }
    }

    /// The packed form of a boxed `NaiveDate`.
    pub closed spec fn encode_date(v: NaiveDate) -> DbValue {
        DbValue { word: pack(CATEGORY_BOXED | TYPE_DATE, 0), boxed: Some(Boxed::Date(v)) }
    }

    /// The packed form of a boxed `NaiveTime`.
    pub closed spec fn encode_time(v: NaiveTime) -> DbValue {
        DbValue { word: pack(CATEGORY_BOXED | TYPE_TIME, 0), boxed: Some(Boxed::Time(v)) }
    }

    /// The packed form of a boxed `NaiveDateTime`.
    pub closed spec fn encode_timestamp(v: NaiveDateTime) -> DbValue {
        DbValue { word: pack(CATEGORY_BOXED | TYPE_TIMESTAMP, 0), boxed: Some(Boxed::Timestamp(v)) }
    }

    /// The packed form of a boxed `NaiveDateTime`.
    pub closed spec fn encode_timestampz(v: NaiveDateTime) -> DbValue {
        DbValue { word: pack(CATEGORY_BOXED | TYPE_TIMESTAMPZ, 0), boxed: Some(Boxed::TimestampUtc(v)) }
    }

    /// The packed form of a boxed `String`.
    pub closed spec fn encode_string(v: String) -> DbValue {
        DbValue { word: pack(CATEGORY_BOXED | TYPE_STRING, 0), boxed: Some(Boxed::Text(v)) }
    }

    /// The packed form of a boxed `Vec<u8>`.
    pub closed spec fn encode_bytes(v: Vec<u8>) -> DbValue {
        DbValue { word: pack(CATEGORY_BOXED | TYPE_BYTES, 0), boxed: Some(Boxed::Bytes(v)) }
    }
}

impl From<bool> for DbValue {
    fn from(v: bool) -> (r: DbValue)
        ensures
            r@ == ValueModel::Bool(v),
    {
        DbValue::from_bool(v)
    }
}

impl vstd::std_specs::convert::FromSpecImpl<bool> for DbValue {
    open spec fn obeys_from_spec() -> bool {
        true
    }

    open spec fn from_spec(v: bool) -> DbValue {
        DbValue::encode_bool(v)
    }
}

impl From<Option<bool>> for DbValue {
    /// `None` becomes NULL.
    fn from(v: Option<bool>) -> (r: DbValue)
        ensures
            r@ == match v {
                Some(v) => ValueModel::Bool(v),
                None => ValueModel::Null,
            },
    {
        match v {
            Some(v) => DbValue::from_bool(v),
            None => DbValue::from_null(),
        }
    }
}

impl vstd::std_specs::convert::FromSpecImpl<Option<bool>> for DbValue {
    open spec fn obeys_from_spec() -> bool {
        true
    }

    open spec fn from_spec(v: Option<bool>) -> DbValue {
        match v {
            Some(v) => DbValue::encode_bool(v),
            None => DbValue::encode_null(),
        }
    }
}

impl From<i8> for DbValue {
    fn from(v: i8) -> (r: DbValue)
        ensures
            r@ == ValueModel::I8(v),
    {
        DbValue::from_i8(v)
    }
}

impl vstd::std_specs::convert::FromSpecImpl<i8> for DbValue {
    open spec fn obeys_from_spec() -> bool {
        true
    }

    open spec fn from_spec(v: i8) -> DbValue {
        DbValue::encode_i8(v)
    }
}

impl From<Option<i8>> for DbValue {
    /// `None` becomes NULL.
    fn from(v: Option<i8>) -> (r: DbValue)
        ensures
            r@ == match v {
                Some(v) => ValueModel::I8(v),
                None => ValueModel::Null,
            },
    {
        match v {
            Some(v) => DbValue::from_i8(v),
            None => DbValue::from_null(),
        }
    }
}

impl vstd::std_specs::convert::FromSpecImpl<Option<i8>> for DbValue {
    open spec fn obeys_from_spec() -> bool {
        true
    }

    open spec fn from_spec(v: Option<i8>) -> DbValue {
        match v {
            Some(v) => DbValue::encode_i8(v),
            None => DbValue::encode_null(),
        }
    }
}

impl From<i16> for DbValue {
    fn from(v: i16) -> (r: DbValue)
        ensures
            r@ == ValueModel::I16(v),
    {
        DbValue::from_i16(v)
    }
}

impl vstd::std_specs::convert::FromSpecImpl<i16> for DbValue {
    open spec fn obeys_from_spec() -> bool {
        true
    }

    open spec fn from_spec(v: i16) -> DbValue {
        DbValue::encode_i16(v)
    }
}

impl From<Option<i16>> for DbValue {
    /// `None` becomes NULL.
    fn from(v: Option<i16>) -> (r: DbValue)
        ensures
            r@ == match v {
                Some(v) => ValueModel::I16(v),
                None => ValueModel::Null,
            },
    {
        match v {
            Some(v) => DbValue::from_i16(v),
            None => DbValue::from_null(),
        }
    }
}

impl vstd::std_specs::convert::FromSpecImpl<Option<i16>> for DbValue {
    open spec fn obeys_from_spec() -> bool {
        true
    }

    open spec fn from_spec(v: Option<i16>) -> DbValue {
        match v {
            Some(v) => DbValue::encode_i16(v),
            None => DbValue::encode_null(),
        }
    }
}

impl From<i32> for DbValue {
    fn from(v: i32) -> (r: DbValue)
        ensures
            r@ == ValueModel::I32(v),
    {
        DbValue::from_i32(v)
    }
}

impl vstd::std_specs::convert::FromSpecImpl<i32> for DbValue {
    open spec fn obeys_from_spec() -> bool {
        true
    }

    open spec fn from_spec(v: i32) -> DbValue {
        DbValue::encode_i32(v)
    }
}

impl From<Option<i32>> for DbValue {
    /// `None` becomes NULL.
    fn from(v: Option<i32>) -> (r: DbValue)
        ensures
            r@ == match v {
                Some(v) => ValueModel::I32(v),
                None => ValueModel::Null,
            },
    {
        match v {
            Some(v) => DbValue::from_i32(v),
            None => DbValue::from_null(),
        }
    }
}

impl vstd::std_specs::convert::FromSpecImpl<Option<i32>> for DbValue {
    open spec fn obeys_from_spec() -> bool {
        true
    }

    open spec fn from_spec(v: Option<i32>) -> DbValue {
        match v {
            Some(v) => DbValue::encode_i32(v),
            None => DbValue::encode_null(),
        }
    }
}

impl From<i64> for DbValue {
    fn from(v: i64) -> (r: DbValue)
        ensures
            r@ == ValueModel::I64(v),
    {
        DbValue::from_i64(v)
    }
}

impl vstd::std_specs::convert::FromSpecImpl<i64> for DbValue {
    open spec fn obeys_from_spec() -> bool {
        true
    }

    open spec fn from_spec(v: i64) -> DbValue {
        DbValue::encode_i64(v)
    }
}

impl From<Option<i64>> for DbValue {
    /// `None` becomes NULL.
    fn from(v: Option<i64>) -> (r: DbValue)
        ensures
            r@ == match v {
                Some(v) => ValueModel::I64(v),
                None => ValueModel::Null,
            },
    {
        match v {
            Some(v) => DbValue::from_i64(v),
            None => DbValue::from_null(),
        }
    }
}

impl vstd::std_specs::convert::FromSpecImpl<Option<i64>> for DbValue {
    open spec fn obeys_from_spec() -> bool {
        true
    }

    open spec fn from_spec(v: Option<i64>) -> DbValue {
        match v {
            Some(v) => DbValue::encode_i64(v),
            None => DbValue::encode_null(),
        }
    }
}

impl From<i128> for DbValue {
    fn from(v: i128) -> (r: DbValue)
        ensures
            r@ == ValueModel::I128(v),
    {
        DbValue::from_i128(v)
    }
}

impl vstd::std_specs::convert::FromSpecImpl<i128> for DbValue {
    open spec fn obeys_from_spec() -> bool {
        true
    }

    open spec fn from_spec(v: i128) -> DbValue {
        DbValue::encode_i128(v)
    }
}

impl From<Option<i128>> for DbValue {
    /// `None` becomes NULL.
    fn from(v: Option<i128>) -> (r: DbValue)
        ensures
            r@ == match v {
                Some(v) => ValueModel::I128(v),
                None => ValueModel::Null,
            },
    {
        match v {
            Some(v) => DbValue::from_i128(v),
            None => DbValue::from_null(),
        }
    }
}

impl vstd::std_specs::convert::FromSpecImpl<Option<i128>> for DbValue {
    open spec fn obeys_from_spec() -> bool {
        true
    }

    open spec fn from_spec(v: Option<i128>) -> DbValue {
        match v {
            Some(v) => DbValue::encode_i128(v),
            None => DbValue::encode_null(),
        }
    }
}

impl From<u8> for DbValue {
    fn from(v: u8) -> (r: DbValue)
        ensures
            r@ == ValueModel::U8(v),
    {
        DbValue::from_u8(v)
    }
}

impl vstd::std_specs::convert::FromSpecImpl<u8> for DbValue {
    open spec fn obeys_from_spec() -> bool {
        true
    }

    open spec fn from_spec(v: u8) -> DbValue {
        DbValue::encode_u8(v)
    }
}

impl From<Option<u8>> for DbValue {
    /// `None` becomes NULL.
    fn from(v: Option<u8>) -> (r: DbValue)
        ensures
            r@ == match v {
                Some(v) => ValueModel::U8(v),
                None => ValueModel::Null,
            },
    {
        match v {
            Some(v) => DbValue::from_u8(v),
            None => DbValue::from_null(),
        }
    }
}

impl vstd::std_specs::convert::FromSpecImpl<Option<u8>> for DbValue {
    open spec fn obeys_from_spec() -> bool {
        true
    }

    open spec fn from_spec(v: Option<u8>) -> DbValue {
        match v {
            Some(v) => DbValue::encode_u8(v),
            None => DbValue::encode_null(),
        }
    }
}

impl From<u16> for DbValue {
    fn from(v: u16) -> (r: DbValue)
        ensures
            r@ == ValueModel::U16(v),
    {
        DbValue::from_u16(v)
    }
}

impl vstd::std_specs::convert::FromSpecImpl<u16> for DbValue {
    open spec fn obeys_from_spec() -> bool {
        true
    }

    open spec fn from_spec(v: u16) -> DbValue {
        DbValue::encode_u16(v)
    }
}

impl From<Option<u16>> for DbValue {
    /// `None` becomes NULL.
    fn from(v: Option<u16>) -> (r: DbValue)
        ensures
            r@ == match v {
                Some(v) => ValueModel::U16(v),
                None => ValueModel::Null,
            },
    {
        match v {
            Some(v) => DbValue::from_u16(v),
            None => DbValue::from_null(),
        }
    }
}

impl vstd::std_specs::convert::FromSpecImpl<Option<u16>> for DbValue {
    open spec fn obeys_from_spec() -> bool {
        true
    }

    open spec fn from_spec(v: Option<u16>) -> DbValue {
        match v {
            Some(v) => DbValue::encode_u16(v),
            None => DbValue::encode_null(),
        }
    }
}

impl From<u32> for DbValue {
    fn from(v: u32) -> (r: DbValue)
        ensures
            r@ == ValueModel::U32(v),
    {
        DbValue::from_u32(v)
    }
}

impl vstd::std_specs::convert::FromSpecImpl<u32> for DbValue {
    open spec fn obeys_from_spec() -> bool {
        true
    }

    open spec fn from_spec(v: u32) -> DbValue {
        DbValue::encode_u32(v)
    }
}

impl From<Option<u32>> for DbValue {
    /// `None` becomes NULL.
    fn from(v: Option<u32>) -> (r: DbValue)
        ensures
            r@ == match v {
                Some(v) => ValueModel::U32(v),
                None => ValueModel::Null,
            },
    {
        match v {
            Some(v) => DbValue::from_u32(v),
            None => DbValue::from_null(),
        }
    }
}

impl vstd::std_specs::convert::FromSpecImpl<Option<u32>> for DbValue {
    open spec fn obeys_from_spec() -> bool {
        true
    }

    open spec fn from_spec(v: Option<u32>) -> DbValue {
        match v {
            Some(v) => DbValue::encode_u32(v),
            None => DbValue::encode_null(),
        }
    }
}

impl From<u64> for DbValue {
    fn from(v: u64) -> (r: DbValue)
        ensures
            r@ == ValueModel::U64(v),
    {
        DbValue::from_u64(v)
    }
}

impl vstd::std_specs::convert::FromSpecImpl<u64> for DbValue {
    open spec fn obeys_from_spec() -> bool {
        true
    }

    open spec fn from_spec(v: u64) -> DbValue {
        DbValue::encode_u64(v)
    }
}

impl From<Option<u64>> for DbValue {
    /// `None` becomes NULL.
    fn from(v: Option<u64>) -> (r: DbValue)
        ensures
            r@ == match v {
                Some(v) => ValueModel::U64(v),
                None => ValueModel::Null,
            },
    {
        match v {
            Some(v) => DbValue::from_u64(v),
            None => DbValue::from_null(),
        }
    }
}

impl vstd::std_specs::convert::FromSpecImpl<Option<u64>> for DbValue {
    open spec fn obeys_from_spec() -> bool {
        true
    }

    open spec fn from_spec(v: Option<u64>) -> DbValue {
        match v {
            Some(v) => DbValue::encode_u64(v),
            None => DbValue::encode_null(),
        }
    }
}

impl From<u128> for DbValue {
    fn from(v: u128) -> (r: DbValue)
        ensures
            r@ == ValueModel::U128(v),
    {
        DbValue::from_u128(v)
    }
}

impl vstd::std_specs::convert::FromSpecImpl<u128> for DbValue {
    open spec fn obeys_from_spec() -> bool {
        true
    }

    open spec fn from_spec(v: u128) -> DbValue {
        DbValue::encode_u128(v)
    }
}

impl From<Option<u128>> for DbValue {
    /// `None` becomes NULL.
    fn from(v: Option<u128>) -> (r: DbValue)
        ensures
            r@ == match v {
                Some(v) => ValueModel::U128(v),
                None => ValueModel::Null,
            },
    {
        match v {
            Some(v) => DbValue::from_u128(v),
            None => DbValue::from_null(),
        }
    }
}

impl vstd::std_specs::convert::FromSpecImpl<Option<u128>> for DbValue {
    open spec fn obeys_from_spec() -> bool {
        true
    }

    open spec fn from_spec(v: Option<u128>) -> DbValue {
        match v {
            Some(v) => DbValue::encode_u128(v),
            None => DbValue::encode_null(),
        }
    }
}

impl From<char> for DbValue {
    fn from(v: char) -> (r: DbValue)
        ensures
            r@ == ValueModel::Char(v),
    {
        DbValue::from_char(v)
    }
}

impl vstd::std_specs::convert::FromSpecImpl<char> for DbValue {
    open spec fn obeys_from_spec() -> bool {
        true
    }

    open spec fn from_spec(v: char) -> DbValue {
        DbValue::encode_char(v)
    }
}

impl From<Option<char>> for DbValue {
    /// `None` becomes NULL.
    fn from(v: Option<char>) -> (r: DbValue)
        ensures
            r@ == match v {
                Some(v) => ValueModel::Char(v),
                None => ValueModel::Null,
            },
    {
        match v {
            Some(v) => DbValue::from_char(v),
            None => DbValue::from_null(),
        }
    }
}

impl vstd::std_specs::convert::FromSpecImpl<Option<char>> for DbValue {
    open spec fn obeys_from_spec() -> bool {
        true
    }

    open spec fn from_spec(v: Option<char>) -> DbValue {
        match v {
            Some(v) => DbValue::encode_char(v),
            None => DbValue::encode_null(),
        }
    }
}

impl From<Decimal> for DbValue {
    fn from(v: Decimal) -> (r: DbValue)
        ensures
            r@ == ValueModel::Decimal(v),
    {
        DbValue::from_decimal(v)
    }
}

impl vstd::std_specs::convert::FromSpecImpl<Decimal> for DbValue {
    open spec fn obeys_from_spec() -> bool {
        true
    }

    open spec fn from_spec(v: Decimal) -> DbValue {
        DbValue::encode_decimal(v)
    }
}

impl From<Option<Decimal>> for DbValue {
    /// `None` becomes NULL.
    fn from(v: Option<Decimal>) -> (r: DbValue)
        ensures
            r@ == match v {
                Some(v) => ValueModel::Decimal(v),
                None => ValueModel::Null,
            },
    {
        match v {
            Some(v) => DbValue::from_decimal(v),
            None => DbValue::from_null(),
        }
    }
}

impl vstd::std_specs::convert::FromSpecImpl<Option<Decimal>> for DbValue {
    open spec fn obeys_from_spec() -> bool {
        true
    }

    open spec fn from_spec(v: Option<Decimal>) -> DbValue {
        match v {
            Some(v) => DbValue::encode_decimal(v),
            None => DbValue::encode_null(),
        }
    }
}

impl From<String> for DbValue {
    fn from(v: String) -> (r: DbValue)
        ensures
            r@ == ValueModel::Text(v@),
    {
        DbValue::from_string(v)
    }
}

impl vstd::std_specs::convert::FromSpecImpl<String> for DbValue {
    open spec fn obeys_from_spec() -> bool {
        true
    }

    open spec fn from_spec(v: String) -> DbValue {
        DbValue::encode_string(v)
    }
}

impl From<Option<String>> for DbValue {
    /// `None` becomes NULL.
    fn from(v: Option<String>) -> (r: DbValue)
        ensures
            r@ == match v {
                Some(v) => ValueModel::Text(v@),
                None => ValueModel::Null,
            },
    {
        match v {
            Some(v) => DbValue::from_string(v),
            None => DbValue::from_null(),
        }
    }
}

impl vstd::std_specs::convert::FromSpecImpl<Option<String>> for DbValue {
    open spec fn obeys_from_spec() -> bool {
        true
    }

    open spec fn from_spec(v: Option<String>) -> DbValue {
        match v {
            Some(v) => DbValue::encode_string(v),
            None => DbValue::encode_null(),
        }
    }
}

impl From<NaiveDate> for DbValue {
    fn from(v: NaiveDate) -> (r: DbValue)
        ensures
            r@ == ValueModel::Date(v),
    {
        DbValue::from_date(v)
    }
}

impl vstd::std_specs::convert::FromSpecImpl<NaiveDate> for DbValue {
    open spec fn obeys_from_spec() -> bool {
        true
    }

    open spec fn from_spec(v: NaiveDate) -> DbValue {
        DbValue::encode_date(v)
    }
}

impl From<Option<NaiveDate>> for DbValue {
    /// `None` becomes NULL.
    fn from(v: Option<NaiveDate>) -> (r: DbValue)
        ensures
            r@ == match v {
                Some(v) => ValueModel::Date(v),
                None => ValueModel::Null,
            },
    {
        match v {
            Some(v) => DbValue::from_date(v),
            None => DbValue::from_null(),
        }
    }
}

impl vstd::std_specs::convert::FromSpecImpl<Option<NaiveDate>> for DbValue {
    open spec fn obeys_from_spec() -> bool {
        true
    }

    open spec fn from_spec(v: Option<NaiveDate>) -> DbValue {
        match v {
            Some(v) => DbValue::encode_date(v),
            None => DbValue::encode_null(),
        }
    }
}

impl From<NaiveTime> for DbValue {
    fn from(v: NaiveTime) -> (r: DbValue)
        ensures
            r@ == ValueModel::Time(v),
    {
        DbValue::from_time(v)
    }
}

impl vstd::std_specs::convert::FromSpecImpl<NaiveTime> for DbValue {
    open spec fn obeys_from_spec() -> bool {
        true
    }

    open spec fn from_spec(v: NaiveTime) -> DbValue {
        DbValue::encode_time(v)
    }
}

impl From<Option<NaiveTime>> for DbValue {
    /// `None` becomes NULL.
    fn from(v: Option<NaiveTime>) -> (r: DbValue)
        ensures
            r@ == match v {
                Some(v) => ValueModel::Time(v),
                None => ValueModel::Null,
            },
    {
        match v {
            Some(v) => DbValue::from_time(v),
            None => DbValue::from_null(),
        }
    }
}

impl vstd::std_specs::convert::FromSpecImpl<Option<NaiveTime>> for DbValue {
    open spec fn obeys_from_spec() -> bool {
        true
    }

    open spec fn from_spec(v: Option<NaiveTime>) -> DbValue {
        match v {
            Some(v) => DbValue::encode_time(v),
            None => DbValue::encode_null(),
        }
    }
}

impl From<NaiveDateTime> for DbValue {
    fn from(v: NaiveDateTime) -> (r: DbValue)
        ensures
            r@ == ValueModel::Timestamp(v),
    {
        DbValue::from_timestamp(v)
    }
}

impl vstd::std_specs::convert::FromSpecImpl<NaiveDateTime> for DbValue {
    open spec fn obeys_from_spec() -> bool {
        true
    }

    open spec fn from_spec(v: NaiveDateTime) -> DbValue {
        DbValue::encode_timestamp(v)
    }
}

impl From<Option<NaiveDateTime>> for DbValue {
    /// `None` becomes NULL.
    fn from(v: Option<NaiveDateTime>) -> (r: DbValue)
        ensures
            r@ == match v {
                Some(v) => ValueModel::Timestamp(v),
                None => ValueModel::Null,
            },
    {
        match v {
            Some(v) => DbValue::from_timestamp(v),
            None => DbValue::from_null(),
        }
    }
}

impl vstd::std_specs::convert::FromSpecImpl<Option<NaiveDateTime>> for DbValue {
    open spec fn obeys_from_spec() -> bool {
        true
    }

    open spec fn from_spec(v: Option<NaiveDateTime>) -> DbValue {
        match v {
            Some(v) => DbValue::encode_timestamp(v),
            None => DbValue::encode_null(),
        }
    }
}

impl From<Vec<u8>> for DbValue {
    fn from(v: Vec<u8>) -> (r: DbValue)
        ensures
            r@ == ValueModel::Bytes(v@),
    {
        DbValue::from_bytes(v)
    }
}

impl vstd::std_specs::convert::FromSpecImpl<Vec<u8>> for DbValue {
    open spec fn obeys_from_spec() -> bool {
        true
    }

    open spec fn from_spec(v: Vec<u8>) -> DbValue {
        DbValue::encode_bytes(v)
    }
}

impl From<Option<Vec<u8>>> for DbValue {
    /// `None` becomes NULL.
    fn from(v: Option<Vec<u8>>) -> (r: DbValue)
        ensures
            r@ == match v {
                Some(v) => ValueModel::Bytes(v@),
                None => ValueModel::Null,
            },
    {
        match v {
            Some(v) => DbValue::from_bytes(v),
            None => DbValue::from_null(),
        }
    }
}

impl vstd::std_specs::convert::FromSpecImpl<Option<Vec<u8>>> for DbValue {
    open spec fn obeys_from_spec() -> bool {
        true
    }

    open spec fn from_spec(v: Option<Vec<u8>>) -> DbValue {
        match v {
            Some(v) => DbValue::encode_bytes(v),
            None => DbValue::encode_null(),
        }
    }
}

impl From<Uuid> for DbValue {
    fn from(v: Uuid) -> (r: DbValue)
        ensures
            r@ == ValueModel::Uuid(v),
    {
        DbValue::from_uuid(v)
    }
}

impl vstd::std_specs::convert::FromSpecImpl<Uuid> for DbValue {
    open spec fn obeys_from_spec() -> bool {
        true
    }

    open spec fn from_spec(v: Uuid) -> DbValue {
        DbValue::encode_uuid(v)
    }
}

impl From<Option<Uuid>> for DbValue {
    /// `None` becomes NULL.
    fn from(v: Option<Uuid>) -> (r: DbValue)
        ensures
            r@ == match v {
                Some(v) => ValueModel::Uuid(v),
                None => ValueModel::Null,
            },
    {
        match v {
            Some(v) => DbValue::from_uuid(v),
            None => DbValue::from_null(),
        }
    }
}

impl vstd::std_specs::convert::FromSpecImpl<Option<Uuid>> for DbValue {
    open spec fn obeys_from_spec() -> bool {
        true
    }

    open spec fn from_spec(v: Option<Uuid>) -> DbValue {
        match v {
            Some(v) => DbValue::encode_uuid(v),
            None => DbValue::encode_null(),
        }
    }
}

impl From<JsonValue> for DbValue {
    fn from(v: JsonValue) -> (r: DbValue)
        ensures
            r@ == ValueModel::Json(v),
    {
        DbValue::from_json(v)
    }
}

impl vstd::std_specs::convert::FromSpecImpl<JsonValue> for DbValue {
    open spec fn obeys_from_spec() -> bool {
        true
    }

    open spec fn from_spec(v: JsonValue) -> DbValue {
        DbValue::encode_json(v)
    }
}

impl From<Option<JsonValue>> for DbValue {
    /// `None` becomes NULL.
    fn from(v: Option<JsonValue>) -> (r: DbValue)
        ensures
            r@ == match v {
                Some(v) => ValueModel::Json(v),
                None => ValueModel::Null,
            },
    {
        match v {
            Some(v) => DbValue::from_json(v),
            None => DbValue::from_null(),
        }
    }
}

impl vstd::std_specs::convert::FromSpecImpl<Option<JsonValue>> for DbValue {
    open spec fn obeys_from_spec() -> bool {
        true
    }

    open spec fn from_spec(v: Option<JsonValue>) -> DbValue {
        match v {
            Some(v) => DbValue::encode_json(v),
            None => DbValue::encode_null(),
        }
    }
}

impl<'a> From<&'a str> for DbValue {
    fn from(v: &'a str) -> (r: DbValue)
        ensures
            r@ == ValueModel::Text(v@),
    {
        DbValue::from_str(v)
    }
}

impl<'a> vstd::std_specs::convert::FromSpecImpl<&'a str> for DbValue {
    /// The result is a copy of the text in a new string, which no spec
    /// function names; `from` states it by its view.
    open spec fn obeys_from_spec() -> bool {
        false
    }

    open spec fn from_spec(v: &'a str) -> DbValue {
        DbValue::encode_null()
    }
}

impl<'a> From<Option<&'a str>> for DbValue {
    /// `None` becomes NULL.
    fn from(v: Option<&'a str>) -> (r: DbValue)
        ensures
            r@ == match v {
                Some(v) => ValueModel::Text(v@),
                None => ValueModel::Null,
            },
    {
        match v {
            Some(v) => DbValue::from_str(v),
            None => DbValue::from_null(),
        }
    }
}

impl<'a> vstd::std_specs::convert::FromSpecImpl<Option<&'a str>> for DbValue {
    /// The result of `Some` is a copy of the text in a new string, which no
    /// spec function names; `from` states it by its view.
    open spec fn obeys_from_spec() -> bool {
        false
    }

    open spec fn from_spec(v: Option<&'a str>) -> DbValue {
        DbValue::encode_null()
    }
}

impl<'a> TryFrom<&'a DbValue> for bool {
    type Error = DbError;

    fn try_from(value: &'a DbValue) -> (r: Result<bool, DbError>)
        ensures
            match value@ {
                ValueModel::Bool(x) => r == Ok::<bool, DbError>(x),
                _ => (r matches Err(e) && is_mismatch(e, "bool"@, value@.type_label())),
            },
    {
        match value.as_bool() {
            Some(v) => Ok(v),
            None => Err(DbValue::mismatch("bool", value)),
        }
    }
}

impl<'a> vstd::std_specs::convert::TryFromSpecImpl<&'a DbValue> for bool {
    /// Not obeyed: the error carries new strings, which no spec function
    /// names, so `try_from` states its result in its own `ensures` and
    /// `try_from_spec` below is never consulted.
    open spec fn obeys_try_from_spec() -> bool {
        false
    }

    open spec fn try_from_spec(value: &'a DbValue) -> Result<bool, DbError> {
        Err(DbError::NotFound)
    }
}

impl TryFrom<DbValue> for bool {
    type Error = DbError;

    fn try_from(value: DbValue) -> (r: Result<bool, DbError>)
        ensures
            match value@ {
                ValueModel::Bool(x) => r == Ok::<bool, DbError>(x),
                _ => (r matches Err(e) && is_mismatch(e, "bool"@, value@.type_label())),
            },
    {
        <bool as TryFrom<&DbValue>>::try_from(&value)
    }
}

impl vstd::std_specs::convert::TryFromSpecImpl<DbValue> for bool {
    /// Not obeyed: the error carries new strings, which no spec function
    /// names, so `try_from` states its result in its own `ensures` and
    /// `try_from_spec` below is never consulted.
    open spec fn obeys_try_from_spec() -> bool {
        false
    }

    open spec fn try_from_spec(value: DbValue) -> Result<bool, DbError> {
        Err(DbError::NotFound)
    }
}

impl<'a> TryFrom<&'a DbValue> for i8 {
    type Error = DbError;

    fn try_from(value: &'a DbValue) -> (r: Result<i8, DbError>)
        ensures
            match value@ {
                ValueModel::I8(x) => r == Ok::<i8, DbError>(x),
                _ => (r matches Err(e) && is_mismatch(e, "i8"@, value@.type_label())),
            },
    {
        match value.as_i8() {
            Some(v) => Ok(v),
            None => Err(DbValue::mismatch("i8", value)),
        }
    }
}

impl<'a> vstd::std_specs::convert::TryFromSpecImpl<&'a DbValue> for i8 {
    /// Not obeyed: the error carries new strings, which no spec function
    /// names, so `try_from` states its result in its own `ensures` and
    /// `try_from_spec` below is never consulted.
    open spec fn obeys_try_from_spec() -> bool {
        false
    }

    open spec fn try_from_spec(value: &'a DbValue) -> Result<i8, DbError> {
        Err(DbError::NotFound)
    }
}

impl TryFrom<DbValue> for i8 {
    type Error = DbError;

    fn try_from(value: DbValue) -> (r: Result<i8, DbError>)
        ensures
            match value@ {
                ValueModel::I8(x) => r == Ok::<i8, DbError>(x),
                _ => (r matches Err(e) && is_mismatch(e, "i8"@, value@.type_label())),
            },
    {
        <i8 as TryFrom<&DbValue>>::try_from(&value)
    }
}

impl vstd::std_specs::convert::TryFromSpecImpl<DbValue> for i8 {
    /// Not obeyed: the error carries new strings, which no spec function
    /// names, so `try_from` states its result in its own `ensures` and
    /// `try_from_spec` below is never consulted.
    open spec fn obeys_try_from_spec() -> bool {
        false
    }

    open spec fn try_from_spec(value: DbValue) -> Result<i8, DbError> {
        Err(DbError::NotFound)
    }
}

impl<'a> TryFrom<&'a DbValue> for i16 {
    type Error = DbError;

    fn try_from(value: &'a DbValue) -> (r: Result<i16, DbError>)
        ensures
            match value@ {
                ValueModel::I16(x) => r == Ok::<i16, DbError>(x),
                _ => (r matches Err(e) && is_mismatch(e, "i16"@, value@.type_label())),
            },
    {
        match value.as_i16() {
            Some(v) => Ok(v),
            None => Err(DbValue::mismatch("i16", value)),
        }
    }
}

impl<'a> vstd::std_specs::convert::TryFromSpecImpl<&'a DbValue> for i16 {
    /// Not obeyed: the error carries new strings, which no spec function
    /// names, so `try_from` states its result in its own `ensures` and
    /// `try_from_spec` below is never consulted.
    open spec fn obeys_try_from_spec() -> bool {
        false
    }

    open spec fn try_from_spec(value: &'a DbValue) -> Result<i16, DbError> {
        Err(DbError::NotFound)
    }
}

impl TryFrom<DbValue> for i16 {
    type Error = DbError;

    fn try_from(value: DbValue) -> (r: Result<i16, DbError>)
        ensures
            match value@ {
                ValueModel::I16(x) => r == Ok::<i16, DbError>(x),
                _ => (r matches Err(e) && is_mismatch(e, "i16"@, value@.type_label())),
            },
    {
        <i16 as TryFrom<&DbValue>>::try_from(&value)
    }
}

impl vstd::std_specs::convert::TryFromSpecImpl<DbValue> for i16 {
    /// Not obeyed: the error carries new strings, which no spec function
    /// names, so `try_from` states its result in its own `ensures` and
    /// `try_from_spec` below is never consulted.
    open spec fn obeys_try_from_spec() -> bool {
        false
    }

    open spec fn try_from_spec(value: DbValue) -> Result<i16, DbError> {
        Err(DbError::NotFound)
    }
}

impl<'a> TryFrom<&'a DbValue> for i32 {
    type Error = DbError;

    fn try_from(value: &'a DbValue) -> (r: Result<i32, DbError>)
        ensures
            match value@ {
                ValueModel::I32(x) => r == Ok::<i32, DbError>(x),
                _ => (r matches Err(e) && is_mismatch(e, "i32"@, value@.type_label())),
            },
    {
        match value.as_i32() {
            Some(v) => Ok(v),
            None => Err(DbValue::mismatch("i32", value)),
        }
    }
}

impl<'a> vstd::std_specs::convert::TryFromSpecImpl<&'a DbValue> for i32 {
    /// Not obeyed: the error carries new strings, which no spec function
    /// names, so `try_from` states its result in its own `ensures` and
    /// `try_from_spec` below is never consulted.
    open spec fn obeys_try_from_spec() -> bool {
        false
    }

    open spec fn try_from_spec(value: &'a DbValue) -> Result<i32, DbError> {
        Err(DbError::NotFound)
    }
}

impl TryFrom<DbValue> for i32 {
    type Error = DbError;

    fn try_from(value: DbValue) -> (r: Result<i32, DbError>)
        ensures
            match value@ {
                ValueModel::I32(x) => r == Ok::<i32, DbError>(x),
                _ => (r matches Err(e) && is_mismatch(e, "i32"@, value@.type_label())),
            },
    {
        <i32 as TryFrom<&DbValue>>::try_from(&value)
    }
}

impl vstd::std_specs::convert::TryFromSpecImpl<DbValue> for i32 {
    /// Not obeyed: the error carries new strings, which no spec function
    /// names, so `try_from` states its result in its own `ensures` and
    /// `try_from_spec` below is never consulted.
    open spec fn obeys_try_from_spec() -> bool {
        false
    }

    open spec fn try_from_spec(value: DbValue) -> Result<i32, DbError> {
        Err(DbError::NotFound)
    }
}

impl<'a> TryFrom<&'a DbValue> for i64 {
    type Error = DbError;

    fn try_from(value: &'a DbValue) -> (r: Result<i64, DbError>)
        ensures
            match value@ {
                ValueModel::I64(x) => r == Ok::<i64, DbError>(x),
                _ => (r matches Err(e) && is_mismatch(e, "i64"@, value@.type_label())),
            },
    {
        match value.as_i64() {
            Some(v) => Ok(v),
            None => Err(DbValue::mismatch("i64", value)),
        }
    }
}

impl<'a> vstd::std_specs::convert::TryFromSpecImpl<&'a DbValue> for i64 {
    /// Not obeyed: the error carries new strings, which no spec function
    /// names, so `try_from` states its result in its own `ensures` and
    /// `try_from_spec` below is never consulted.
    open spec fn obeys_try_from_spec() -> bool {
        false
    }

    open spec fn try_from_spec(value: &'a DbValue) -> Result<i64, DbError> {
        Err(DbError::NotFound)
    }
}

impl TryFrom<DbValue> for i64 {
    type Error = DbError;

    fn try_from(value: DbValue) -> (r: Result<i64, DbError>)
        ensures
            match value@ {
                ValueModel::I64(x) => r == Ok::<i64, DbError>(x),
                _ => (r matches Err(e) && is_mismatch(e, "i64"@, value@.type_label())),
            },
    {
        <i64 as TryFrom<&DbValue>>::try_from(&value)
    }
}

impl vstd::std_specs::convert::TryFromSpecImpl<DbValue> for i64 {
    /// Not obeyed: the error carries new strings, which no spec function
    /// names, so `try_from` states its result in its own `ensures` and
    /// `try_from_spec` below is never consulted.
    open spec fn obeys_try_from_spec() -> bool {
        false
    }

    open spec fn try_from_spec(value: DbValue) -> Result<i64, DbError> {
        Err(DbError::NotFound)
    }
}

impl<'a> TryFrom<&'a DbValue> for u8 {
    type Error = DbError;

    fn try_from(value: &'a DbValue) -> (r: Result<u8, DbError>)
        ensures
            match value@ {
                ValueModel::U8(x) => r == Ok::<u8, DbError>(x),
                _ => (r matches Err(e) && is_mismatch(e, "u8"@, value@.type_label())),
            },
    {
        match value.as_u8() {
            Some(v) => Ok(v),
            None => Err(DbValue::mismatch("u8", value)),
        }
    }
}

impl<'a> vstd::std_specs::convert::TryFromSpecImpl<&'a DbValue> for u8 {
    /// Not obeyed: the error carries new strings, which no spec function
    /// names, so `try_from` states its result in its own `ensures` and
    /// `try_from_spec` below is never consulted.
    open spec fn obeys_try_from_spec() -> bool {
        false
    }

    open spec fn try_from_spec(value: &'a DbValue) -> Result<u8, DbError> {
        Err(DbError::NotFound)
    }
}

impl TryFrom<DbValue> for u8 {
    type Error = DbError;

    fn try_from(value: DbValue) -> (r: Result<u8, DbError>)
        ensures
            match value@ {
                ValueModel::U8(x) => r == Ok::<u8, DbError>(x),
                _ => (r matches Err(e) && is_mismatch(e, "u8"@, value@.type_label())),
            },
    {
        <u8 as TryFrom<&DbValue>>::try_from(&value)
    }
}

impl vstd::std_specs::convert::TryFromSpecImpl<DbValue> for u8 {
    /// Not obeyed: the error carries new strings, which no spec function
    /// names, so `try_from` states its result in its own `ensures` and
    /// `try_from_spec` below is never consulted.
    open spec fn obeys_try_from_spec() -> bool {
        false
    }

    open spec fn try_from_spec(value: DbValue) -> Result<u8, DbError> {
        Err(DbError::NotFound)
    }
}

impl<'a> TryFrom<&'a DbValue> for u16 {
    type Error = DbError;

    fn try_from(value: &'a DbValue) -> (r: Result<u16, DbError>)
        ensures
            match value@ {
                ValueModel::U16(x) => r == Ok::<u16, DbError>(x),
                _ => (r matches Err(e) && is_mismatch(e, "u16"@, value@.type_label())),
            },
    {
        match value.as_u16() {
            Some(v) => Ok(v),
            None => Err(DbValue::mismatch("u16", value)),
        }
    }
}

impl<'a> vstd::std_specs::convert::TryFromSpecImpl<&'a DbValue> for u16 {
    /// Not obeyed: the error carries new strings, which no spec function
    /// names, so `try_from` states its result in its own `ensures` and
    /// `try_from_spec` below is never consulted.
    open spec fn obeys_try_from_spec() -> bool {
        false
    }

    open spec fn try_from_spec(value: &'a DbValue) -> Result<u16, DbError> {
        Err(DbError::NotFound)
    }
}

impl TryFrom<DbValue> for u16 {
    type Error = DbError;

    fn try_from(value: DbValue) -> (r: Result<u16, DbError>)
        ensures
            match value@ {
                ValueModel::U16(x) => r == Ok::<u16, DbError>(x),
                _ => (r matches Err(e) && is_mismatch(e, "u16"@, value@.type_label())),
            },
    {
        <u16 as TryFrom<&DbValue>>::try_from(&value)
    }
}

impl vstd::std_specs::convert::TryFromSpecImpl<DbValue> for u16 {
    /// Not obeyed: the error carries new strings, which no spec function
    /// names, so `try_from` states its result in its own `ensures` and
    /// `try_from_spec` below is never consulted.
    open spec fn obeys_try_from_spec() -> bool {
        false
    }

    open spec fn try_from_spec(value: DbValue) -> Result<u16, DbError> {
        Err(DbError::NotFound)
    }
}

impl<'a> TryFrom<&'a DbValue> for u32 {
    type Error = DbError;

    fn try_from(value: &'a DbValue) -> (r: Result<u32, DbError>)
        ensures
            match value@ {
                ValueModel::U32(x) => r == Ok::<u32, DbError>(x),
                _ => (r matches Err(e) && is_mismatch(e, "u32"@, value@.type_label())),
            },
    {
        match value.as_u32() {
            Some(v) => Ok(v),
            None => Err(DbValue::mismatch("u32", value)),
        }
    }
}

impl<'a> vstd::std_specs::convert::TryFromSpecImpl<&'a DbValue> for u32 {
    /// Not obeyed: the error carries new strings, which no spec function
    /// names, so `try_from` states its result in its own `ensures` and
    /// `try_from_spec` below is never consulted.
    open spec fn obeys_try_from_spec() -> bool {
        false
    }

    open spec fn try_from_spec(value: &'a DbValue) -> Result<u32, DbError> {
        Err(DbError::NotFound)
    }
}

impl TryFrom<DbValue> for u32 {
    type Error = DbError;

    fn try_from(value: DbValue) -> (r: Result<u32, DbError>)
        ensures
            match value@ {
                ValueModel::U32(x) => r == Ok::<u32, DbError>(x),
                _ => (r matches Err(e) && is_mismatch(e, "u32"@, value@.type_label())),
            },
    {
        <u32 as TryFrom<&DbValue>>::try_from(&value)
    }
}

impl vstd::std_specs::convert::TryFromSpecImpl<DbValue> for u32 {
    /// Not obeyed: the error carries new strings, which no spec function
    /// names, so `try_from` states its result in its own `ensures` and
    /// `try_from_spec` below is never consulted.
    open spec fn obeys_try_from_spec() -> bool {
        false
    }

    open spec fn try_from_spec(value: DbValue) -> Result<u32, DbError> {
        Err(DbError::NotFound)
    }
}

impl<'a> TryFrom<&'a DbValue> for u64 {
    type Error = DbError;

    fn try_from(value: &'a DbValue) -> (r: Result<u64, DbError>)
        ensures
            match value@ {
                ValueModel::U64(x) => r == Ok::<u64, DbError>(x),
                _ => (r matches Err(e) && is_mismatch(e, "u64"@, value@.type_label())),
            },
    {
        match value.as_u64() {
            Some(v) => Ok(v),
            None => Err(DbValue::mismatch("u64", value)),
        }
    }
}

impl<'a> vstd::std_specs::convert::TryFromSpecImpl<&'a DbValue> for u64 {
    /// Not obeyed: the error carries new strings, which no spec function
    /// names, so `try_from` states its result in its own `ensures` and
    /// `try_from_spec` below is never consulted.
    open spec fn obeys_try_from_spec() -> bool {
        false
    }

    open spec fn try_from_spec(value: &'a DbValue) -> Result<u64, DbError> {
        Err(DbError::NotFound)
    }
}

impl TryFrom<DbValue> for u64 {
    type Error = DbError;

    fn try_from(value: DbValue) -> (r: Result<u64, DbError>)
        ensures
            match value@ {
                ValueModel::U64(x) => r == Ok::<u64, DbError>(x),
                _ => (r matches Err(e) && is_mismatch(e, "u64"@, value@.type_label())),
            },
    {
        <u64 as TryFrom<&DbValue>>::try_from(&value)
    }
}

impl vstd::std_specs::convert::TryFromSpecImpl<DbValue> for u64 {
    /// Not obeyed: the error carries new strings, which no spec function
    /// names, so `try_from` states its result in its own `ensures` and
    /// `try_from_spec` below is never consulted.
    open spec fn obeys_try_from_spec() -> bool {
        false
    }

    open spec fn try_from_spec(value: DbValue) -> Result<u64, DbError> {
        Err(DbError::NotFound)
    }
}

impl<'a> TryFrom<&'a DbValue> for char {
    type Error = DbError;

    fn try_from(value: &'a DbValue) -> (r: Result<char, DbError>)
        ensures
            match value@ {
                ValueModel::Char(x) => r == Ok::<char, DbError>(x),
                _ => (r matches Err(e) && is_mismatch(e, "char"@, value@.type_label())),
            },
    {
        match value.as_char() {
            Some(v) => Ok(v),
            None => Err(DbValue::mismatch("char", value)),
        }
    }
}

impl<'a> vstd::std_specs::convert::TryFromSpecImpl<&'a DbValue> for char {
    /// Not obeyed: the error carries new strings, which no spec function
    /// names, so `try_from` states its result in its own `ensures` and
    /// `try_from_spec` below is never consulted.
    open spec fn obeys_try_from_spec() -> bool {
        false
    }

    open spec fn try_from_spec(value: &'a DbValue) -> Result<char, DbError> {
        Err(DbError::NotFound)
    }
}

impl TryFrom<DbValue> for char {
    type Error = DbError;

    fn try_from(value: DbValue) -> (r: Result<char, DbError>)
        ensures
            match value@ {
                ValueModel::Char(x) => r == Ok::<char, DbError>(x),
                _ => (r matches Err(e) && is_mismatch(e, "char"@, value@.type_label())),
            },
    {
        <char as TryFrom<&DbValue>>::try_from(&value)
    }
}

impl vstd::std_specs::convert::TryFromSpecImpl<DbValue> for char {
    /// Not obeyed: the error carries new strings, which no spec function
    /// names, so `try_from` states its result in its own `ensures` and
    /// `try_from_spec` below is never consulted.
    open spec fn obeys_try_from_spec() -> bool {
        false
    }

    open spec fn try_from_spec(value: DbValue) -> Result<char, DbError> {
        Err(DbError::NotFound)
    }
}

impl<'a> TryFrom<&'a DbValue> for i128 {
    type Error = DbError;

    fn try_from(value: &'a DbValue) -> (r: Result<i128, DbError>)
        ensures
            match value@ {
                ValueModel::I128(x) => r == Ok::<i128, DbError>(x),
                _ => (r matches Err(e) && is_mismatch(e, "i128"@, value@.type_label())),
            },
    {
        match value.as_i128() {
            Some(v) => Ok(*v),
            None => Err(DbValue::mismatch("i128", value)),
        }
    }
}

impl<'a> vstd::std_specs::convert::TryFromSpecImpl<&'a DbValue> for i128 {
    /// Not obeyed: the error carries new strings, which no spec function
    /// names, so `try_from` states its result in its own `ensures` and
    /// `try_from_spec` below is never consulted.
    open spec fn obeys_try_from_spec() -> bool {
        false
    }

    open spec fn try_from_spec(value: &'a DbValue) -> Result<i128, DbError> {
        Err(DbError::NotFound)
    }
}

impl TryFrom<DbValue> for i128 {
    type Error = DbError;

    fn try_from(value: DbValue) -> (r: Result<i128, DbError>)
        ensures
            match value@ {
                ValueModel::I128(x) => r == Ok::<i128, DbError>(x),
                _ => (r matches Err(e) && is_mismatch(e, "i128"@, value@.type_label())),
            },
    {
        <i128 as TryFrom<&DbValue>>::try_from(&value)
    }
}

impl vstd::std_specs::convert::TryFromSpecImpl<DbValue> for i128 {
    /// Not obeyed: the error carries new strings, which no spec function
    /// names, so `try_from` states its result in its own `ensures` and
    /// `try_from_spec` below is never consulted.
    open spec fn obeys_try_from_spec() -> bool {
        false
    }

    open spec fn try_from_spec(value: DbValue) -> Result<i128, DbError> {
        Err(DbError::NotFound)
    }
}

impl<'a> TryFrom<&'a DbValue> for u128 {
    type Error = DbError;

    fn try_from(value: &'a DbValue) -> (r: Result<u128, DbError>)
        ensures
            match value@ {
                ValueModel::U128(x) => r == Ok::<u128, DbError>(x),
                _ => (r matches Err(e) && is_mismatch(e, "u128"@, value@.type_label())),
            },
    {
        match value.as_u128() {
            Some(v) => Ok(*v),
            None => Err(DbValue::mismatch("u128", value)),
        }
    }
}

impl<'a> vstd::std_specs::convert::TryFromSpecImpl<&'a DbValue> for u128 {
    /// Not obeyed: the error carries new strings, which no spec function
    /// names, so `try_from` states its result in its own `ensures` and
    /// `try_from_spec` below is never consulted.
    open spec fn obeys_try_from_spec() -> bool {
        false
    }

    open spec fn try_from_spec(value: &'a DbValue) -> Result<u128, DbError> {
        Err(DbError::NotFound)
    }
}

impl TryFrom<DbValue> for u128 {
    type Error = DbError;

    fn try_from(value: DbValue) -> (r: Result<u128, DbError>)
        ensures
            match value@ {
                ValueModel::U128(x) => r == Ok::<u128, DbError>(x),
                _ => (r matches Err(e) && is_mismatch(e, "u128"@, value@.type_label())),
            },
    {
        <u128 as TryFrom<&DbValue>>::try_from(&value)
    }
}

impl vstd::std_specs::convert::TryFromSpecImpl<DbValue> for u128 {
    /// Not obeyed: the error carries new strings, which no spec function
    /// names, so `try_from` states its result in its own `ensures` and
    /// `try_from_spec` below is never consulted.
    open spec fn obeys_try_from_spec() -> bool {
        false
    }

    open spec fn try_from_spec(value: DbValue) -> Result<u128, DbError> {
        Err(DbError::NotFound)
    }
}

impl<'a> TryFrom<&'a DbValue> for Decimal {
    type Error = DbError;

    fn try_from(value: &'a DbValue) -> (r: Result<Decimal, DbError>)
        ensures
            match value@ {
                ValueModel::Decimal(x) => r == Ok::<Decimal, DbError>(x),
                _ => (r matches Err(e) && is_mismatch(e, "Decimal"@, value@.type_label())),
            },
    {
        match value.as_decimal() {
            Some(v) => Ok(*v),
            None => Err(DbValue::mismatch("Decimal", value)),
        }
    }
}

impl<'a> vstd::std_specs::convert::TryFromSpecImpl<&'a DbValue> for Decimal {
    /// Not obeyed: the error carries new strings, which no spec function
    /// names, so `try_from` states its result in its own `ensures` and
    /// `try_from_spec` below is never consulted.
    open spec fn obeys_try_from_spec() -> bool {
        false
    }

    open spec fn try_from_spec(value: &'a DbValue) -> Result<Decimal, DbError> {
        Err(DbError::NotFound)
    }
}

impl TryFrom<DbValue> for Decimal {
    type Error = DbError;

    fn try_from(value: DbValue) -> (r: Result<Decimal, DbError>)
        ensures
            match value@ {
                ValueModel::Decimal(x) => r == Ok::<Decimal, DbError>(x),
                _ => (r matches Err(e) && is_mismatch(e, "Decimal"@, value@.type_label())),
            },
    {
        <Decimal as TryFrom<&DbValue>>::try_from(&value)
    }
}

impl vstd::std_specs::convert::TryFromSpecImpl<DbValue> for Decimal {
    /// Not obeyed: the error carries new strings, which no spec function
    /// names, so `try_from` states its result in its own `ensures` and
    /// `try_from_spec` below is never consulted.
    open spec fn obeys_try_from_spec() -> bool {
        false
    }

    open spec fn try_from_spec(value: DbValue) -> Result<Decimal, DbError> {
        Err(DbError::NotFound)
    }
}

impl<'a> TryFrom<&'a DbValue> for NaiveDate {
    type Error = DbError;

    fn try_from(value: &'a DbValue) -> (r: Result<NaiveDate, DbError>)
        ensures
            match value@ {
                ValueModel::Date(x) => r == Ok::<NaiveDate, DbError>(x),
                _ => (r matches Err(e) && is_mismatch(e, "NaiveDate"@, value@.type_label())),
            },
    {
        match value.as_date() {
            Some(v) => Ok(*v),
            None => Err(DbValue::mismatch("NaiveDate", value)),
        }
    }
}

impl<'a> vstd::std_specs::convert::TryFromSpecImpl<&'a DbValue> for NaiveDate {
    /// Not obeyed: the error carries new strings, which no spec function
    /// names, so `try_from` states its result in its own `ensures` and
    /// `try_from_spec` below is never consulted.
    open spec fn obeys_try_from_spec() -> bool {
        false
    }

    open spec fn try_from_spec(value: &'a DbValue) -> Result<NaiveDate, DbError> {
        Err(DbError::NotFound)
    }
}

impl TryFrom<DbValue> for NaiveDate {
    type Error = DbError;

    fn try_from(value: DbValue) -> (r: Result<NaiveDate, DbError>)
        ensures
            match value@ {
                ValueModel::Date(x) => r == Ok::<NaiveDate, DbError>(x),
                _ => (r matches Err(e) && is_mismatch(e, "NaiveDate"@, value@.type_label())),
            },
    {
        <NaiveDate as TryFrom<&DbValue>>::try_from(&value)
    }
}

impl vstd::std_specs::convert::TryFromSpecImpl<DbValue> for NaiveDate {
    /// Not obeyed: the error carries new strings, which no spec function
    /// names, so `try_from` states its result in its own `ensures` and
    /// `try_from_spec` below is never consulted.
    open spec fn obeys_try_from_spec() -> bool {
        false
    }

    open spec fn try_from_spec(value: DbValue) -> Result<NaiveDate, DbError> {
        Err(DbError::NotFound)
    }
}

impl<'a> TryFrom<&'a DbValue> for NaiveTime {
    type Error = DbError;

    fn try_from(value: &'a DbValue) -> (r: Result<NaiveTime, DbError>)
        ensures
            match value@ {
                ValueModel::Time(x) => r == Ok::<NaiveTime, DbError>(x),
                _ => (r matches Err(e) && is_mismatch(e, "NaiveTime"@, value@.type_label())),
            },
    {
        match value.as_time() {
            Some(v) => Ok(*v),
            None => Err(DbValue::mismatch("NaiveTime", value)),
        }
    }
}

impl<'a> vstd::std_specs::convert::TryFromSpecImpl<&'a DbValue> for NaiveTime {
    /// Not obeyed: the error carries new strings, which no spec function
    /// names, so `try_from` states its result in its own `ensures` and
    /// `try_from_spec` below is never consulted.
    open spec fn obeys_try_from_spec() -> bool {
        false
    }

    open spec fn try_from_spec(value: &'a DbValue) -> Result<NaiveTime, DbError> {
        Err(DbError::NotFound)
    }
}

impl TryFrom<DbValue> for NaiveTime {
    type Error = DbError;

    fn try_from(value: DbValue) -> (r: Result<NaiveTime, DbError>)
        ensures
            match value@ {
                ValueModel::Time(x) => r == Ok::<NaiveTime, DbError>(x),
                _ => (r matches Err(e) && is_mismatch(e, "NaiveTime"@, value@.type_label())),
            },
    {
        <NaiveTime as TryFrom<&DbValue>>::try_from(&value)
    }
}

impl vstd::std_specs::convert::TryFromSpecImpl<DbValue> for NaiveTime {
    /// Not obeyed: the error carries new strings, which no spec function
    /// names, so `try_from` states its result in its own `ensures` and
    /// `try_from_spec` below is never consulted.
    open spec fn obeys_try_from_spec() -> bool {
        false
    }

    open spec fn try_from_spec(value: DbValue) -> Result<NaiveTime, DbError> {
        Err(DbError::NotFound)
    }
}

impl<'a> TryFrom<&'a DbValue> for NaiveDateTime {
    type Error = DbError;

    fn try_from(value: &'a DbValue) -> (r: Result<NaiveDateTime, DbError>)
        ensures
            match value@ {
                ValueModel::Timestamp(x) => r == Ok::<NaiveDateTime, DbError>(x),
                _ => (r matches Err(e) && is_mismatch(e, "NaiveDateTime"@, value@.type_label())),
            },
    {
        match value.as_timestamp() {
            Some(v) => Ok(*v),
            None => Err(DbValue::mismatch("NaiveDateTime", value)),
        }
    }
}

impl<'a> vstd::std_specs::convert::TryFromSpecImpl<&'a DbValue> for NaiveDateTime {
    /// Not obeyed: the error carries new strings, which no spec function
    /// names, so `try_from` states its result in its own `ensures` and
    /// `try_from_spec` below is never consulted.
    open spec fn obeys_try_from_spec() -> bool {
        false
    }

    open spec fn try_from_spec(value: &'a DbValue) -> Result<NaiveDateTime, DbError> {
        Err(DbError::NotFound)
    }
}

impl TryFrom<DbValue> for NaiveDateTime {
    type Error = DbError;

    fn try_from(value: DbValue) -> (r: Result<NaiveDateTime, DbError>)
        ensures
            match value@ {
                ValueModel::Timestamp(x) => r == Ok::<NaiveDateTime, DbError>(x),
                _ => (r matches Err(e) && is_mismatch(e, "NaiveDateTime"@, value@.type_label())),
            },
    {
        <NaiveDateTime as TryFrom<&DbValue>>::try_from(&value)
    }
}

impl vstd::std_specs::convert::TryFromSpecImpl<DbValue> for NaiveDateTime {
    /// Not obeyed: the error carries new strings, which no spec function
    /// names, so `try_from` states its result in its own `ensures` and
    /// `try_from_spec` below is never consulted.
    open spec fn obeys_try_from_spec() -> bool {
        false
    }

    open spec fn try_from_spec(value: DbValue) -> Result<NaiveDateTime, DbError> {
        Err(DbError::NotFound)
    }
}

impl<'a> TryFrom<&'a DbValue> for Uuid {
    type Error = DbError;

    fn try_from(value: &'a DbValue) -> (r: Result<Uuid, DbError>)
        ensures
            match value@ {
                ValueModel::Uuid(x) => r == Ok::<Uuid, DbError>(x),
                _ => (r matches Err(e) && is_mismatch(e, "Uuid"@, value@.type_label())),
            },
    {
        match value.as_uuid() {
            Some(v) => Ok(*v),
            None => Err(DbValue::mismatch("Uuid", value)),
        }
    }
}

impl<'a> vstd::std_specs::convert::TryFromSpecImpl<&'a DbValue> for Uuid {
    /// Not obeyed: the error carries new strings, which no spec function
    /// names, so `try_from` states its result in its own `ensures` and
    /// `try_from_spec` below is never consulted.
    open spec fn obeys_try_from_spec() -> bool {
        false
    }

    open spec fn try_from_spec(value: &'a DbValue) -> Result<Uuid, DbError> {
        Err(DbError::NotFound)
    }
}

impl TryFrom<DbValue> for Uuid {
    type Error = DbError;

    fn try_from(value: DbValue) -> (r: Result<Uuid, DbError>)
        ensures
            match value@ {
                ValueModel::Uuid(x) => r == Ok::<Uuid, DbError>(x),
                _ => (r matches Err(e) && is_mismatch(e, "Uuid"@, value@.type_label())),
            },
    {
        <Uuid as TryFrom<&DbValue>>::try_from(&value)
    }
}

impl vstd::std_specs::convert::TryFromSpecImpl<DbValue> for Uuid {
    /// Not obeyed: the error carries new strings, which no spec function
    /// names, so `try_from` states its result in its own `ensures` and
    /// `try_from_spec` below is never consulted.
    open spec fn obeys_try_from_spec() -> bool {
        false
    }

    open spec fn try_from_spec(value: DbValue) -> Result<Uuid, DbError> {
        Err(DbError::NotFound)
    }
}

impl<'a> TryFrom<&'a DbValue> for JsonValue {
    type Error = DbError;

    fn try_from(value: &'a DbValue) -> (r: Result<JsonValue, DbError>)
        ensures
            match value@ {
                ValueModel::Json(x) => r == Ok::<JsonValue, DbError>(x),
                _ => (r matches Err(e) && is_mismatch(e, "JsonValue"@, value@.type_label())),
            },
    {
        match value.as_json() {
            Some(v) => Ok(json_clone(v)),
            None => Err(DbValue::mismatch("JsonValue", value)),
        }
    }
}

impl<'a> vstd::std_specs::convert::TryFromSpecImpl<&'a DbValue> for JsonValue {
    /// Not obeyed: the error carries new strings, which no spec function
    /// names, so `try_from` states its result in its own `ensures` and
    /// `try_from_spec` below is never consulted.
    open spec fn obeys_try_from_spec() -> bool {
        false
    }

    open spec fn try_from_spec(value: &'a DbValue) -> Result<JsonValue, DbError> {
        Err(DbError::NotFound)
    }
}

impl TryFrom<DbValue> for JsonValue {
    type Error = DbError;

    fn try_from(value: DbValue) -> (r: Result<JsonValue, DbError>)
        ensures
            match value@ {
                ValueModel::Json(x) => r == Ok::<JsonValue, DbError>(x),
                _ => (r matches Err(e) && is_mismatch(e, "JsonValue"@, value@.type_label())),
            },
    {
        <JsonValue as TryFrom<&DbValue>>::try_from(&value)
    }
}

impl vstd::std_specs::convert::TryFromSpecImpl<DbValue> for JsonValue {
    /// Not obeyed: the error carries new strings, which no spec function
    /// names, so `try_from` states its result in its own `ensures` and
    /// `try_from_spec` below is never consulted.
    open spec fn obeys_try_from_spec() -> bool {
        false
    }

    open spec fn try_from_spec(value: DbValue) -> Result<JsonValue, DbError> {
        Err(DbError::NotFound)
    }
}

impl<'a> TryFrom<&'a DbValue> for String {
    type Error = DbError;

    fn try_from(value: &'a DbValue) -> (r: Result<String, DbError>)
        ensures
            match value@ {
                ValueModel::Text(x) => (r matches Ok(s) && s@ == x),
                _ => (r matches Err(e) && is_mismatch(e, "String"@, value@.type_label())),
            },
    {
        match value.as_string() {
            Some(s) => Ok(s.to_owned()),
            None => Err(DbValue::mismatch("String", value)),
        }
    }
}

impl<'a> vstd::std_specs::convert::TryFromSpecImpl<&'a DbValue> for String {
    /// Not obeyed: the error carries new strings, which no spec function
    /// names, so `try_from` states its result in its own `ensures` and
    /// `try_from_spec` below is never consulted.
    open spec fn obeys_try_from_spec() -> bool {
        false
    }

    open spec fn try_from_spec(value: &'a DbValue) -> Result<String, DbError> {
        Err(DbError::NotFound)
    }
}

impl TryFrom<DbValue> for String {
    type Error = DbError;

    fn try_from(value: DbValue) -> (r: Result<String, DbError>)
        ensures
            match value@ {
                ValueModel::Text(x) => (r matches Ok(s) && s@ == x),
                _ => (r matches Err(e) && is_mismatch(e, "String"@, value@.type_label())),
            },
    {
        <String as TryFrom<&DbValue>>::try_from(&value)
    }
}

impl vstd::std_specs::convert::TryFromSpecImpl<DbValue> for String {
    /// Not obeyed: the error carries new strings, which no spec function
    /// names, so `try_from` states its result in its own `ensures` and
    /// `try_from_spec` below is never consulted.
    open spec fn obeys_try_from_spec() -> bool {
        false
    }

    open spec fn try_from_spec(value: DbValue) -> Result<String, DbError> {
        Err(DbError::NotFound)
    }
}

impl<'a> TryFrom<&'a DbValue> for Vec<u8> {
    type Error = DbError;

    fn try_from(value: &'a DbValue) -> (r: Result<Vec<u8>, DbError>)
        ensures
            match value@ {
                ValueModel::Bytes(x) => (r matches Ok(b) && b@ == x),
                _ => (r matches Err(e) && is_mismatch(e, "Vec<u8>"@, value@.type_label())),
            },
    {
        match value.as_bytes() {
            Some(b) => Ok(vstd::slice::slice_to_vec(b)),
            None => Err(DbValue::mismatch("Vec<u8>", value)),
        }
    }
}

impl<'a> vstd::std_specs::convert::TryFromSpecImpl<&'a DbValue> for Vec<u8> {
    /// Not obeyed: the error carries new strings, which no spec function
    /// names, so `try_from` states its result in its own `ensures` and
    /// `try_from_spec` below is never consulted.
    open spec fn obeys_try_from_spec() -> bool {
        false
    }

    open spec fn try_from_spec(value: &'a DbValue) -> Result<Vec<u8>, DbError> {
        Err(DbError::NotFound)
    }
}

impl TryFrom<DbValue> for Vec<u8> {
    type Error = DbError;

    fn try_from(value: DbValue) -> (r: Result<Vec<u8>, DbError>)
        ensures
            match value@ {
                ValueModel::Bytes(x) => (r matches Ok(b) && b@ == x),
                _ => (r matches Err(e) && is_mismatch(e, "Vec<u8>"@, value@.type_label())),
            },
    {
        <Vec<u8> as TryFrom<&DbValue>>::try_from(&value)
    }
}

impl vstd::std_specs::convert::TryFromSpecImpl<DbValue> for Vec<u8> {
    /// Not obeyed: the error carries new strings, which no spec function
    /// names, so `try_from` states its result in its own `ensures` and
    /// `try_from_spec` below is never consulted.
    open spec fn obeys_try_from_spec() -> bool {
        false
    }

    open spec fn try_from_spec(value: DbValue) -> Result<Vec<u8>, DbError> {
        Err(DbError::NotFound)
    }
}

// =========================================================================
// Laws
// =========================================================================

/// Reading back a boolean gives the boolean written; it lives in the payload.
pub proof fn law_bool_read_after_write(v: bool)
    ensures
        DbValue::encode_bool(v)@ == ValueModel::Bool(v),
        DbValue::encode_bool(v).stored_inline(),
{
    lemma_pack_fields(CATEGORY_INLINE, TYPE_BOOL, if v { 1 } else { 0 });
}

/// Reading back an `i8`, `i16` or `i32` gives the number written; each
/// lives in the payload.
pub proof fn law_small_signed_read_after_write(a: i8, b: i16, c: i32)
    ensures
        DbValue::encode_i8(a)@ == ValueModel::I8(a),
        DbValue::encode_i16(b)@ == ValueModel::I16(b),
        DbValue::encode_i32(c)@ == ValueModel::I32(c),
        DbValue::encode_i8(a).stored_inline(),
        DbValue::encode_i16(b).stored_inline(),
        DbValue::encode_i32(c).stored_inline(),
{
    lemma_i48_roundtrip(a as i64);
    lemma_i48_roundtrip(b as i64);
    lemma_i48_roundtrip(c as i64);
    lemma_pack_fields(CATEGORY_INLINE, TYPE_I8, i48_payload(a as i64));
    lemma_pack_fields(CATEGORY_INLINE, TYPE_I16, i48_payload(b as i64));
    lemma_pack_fields(CATEGORY_INLINE, TYPE_I32, i48_payload(c as i64));
}

/// Reading back a `u8`, `u16`, `u32`, the bits of an `f32` or a character
/// gives what was written; each lives in the payload.
pub proof fn law_small_unsigned_read_after_write(a: u8, b: u16, c: u32, bits: u32, ch: char)
    ensures
        DbValue::encode_u8(a)@ == ValueModel::U8(a),
        DbValue::encode_u16(b)@ == ValueModel::U16(b),
        DbValue::encode_u32(c)@ == ValueModel::U32(c),
        DbValue::encode_f32_bits(bits)@ == ValueModel::F32(bits),
        DbValue::encode_char(ch)@ == ValueModel::Char(ch),
        DbValue::encode_u8(a).stored_inline(),
        DbValue::encode_u16(b).stored_inline(),
        DbValue::encode_u32(c).stored_inline(),
        DbValue::encode_f32_bits(bits).stored_inline(),
        DbValue::encode_char(ch).stored_inline(),
{
    lemma_pack_fields(CATEGORY_INLINE, TYPE_U8, a as u64);
    lemma_pack_fields(CATEGORY_INLINE, TYPE_U16, b as u64);
    lemma_pack_fields(CATEGORY_INLINE, TYPE_U32, c as u64);
    lemma_pack_fields(CATEGORY_INLINE, TYPE_F32, bits as u64);
    lemma_pack_fields(CATEGORY_INLINE, TYPE_CHAR, (ch as u32) as u64);
}

/// Reading back an `i64` gives the number written; it lives in the payload
/// exactly when it fits in 48-bit two's complement.
pub proof fn law_i64_read_after_write(v: i64)
    ensures
        DbValue::encode_i64(v)@ == ValueModel::I64(v),
        DbValue::encode_i64(v).stored_inline() <==> MIN_I48 <= v <= MAX_I48,
{
    if MIN_I48 <= v <= MAX_I48 {
        lemma_i48_roundtrip(v);
        lemma_pack_fields(CATEGORY_INLINE, TYPE_I64, i48_payload(v));
    }
}

/// Reading back a `u64` gives the number written; it lives in the payload
/// exactly when it is below 2^48.
pub proof fn law_u64_read_after_write(v: u64)
    ensures
        DbValue::encode_u64(v)@ == ValueModel::U64(v),
        DbValue::encode_u64(v).stored_inline() <==> v <= PAYLOAD_MASK,
{
    if v <= PAYLOAD_MASK {
        lemma_pack_fields(CATEGORY_INLINE, TYPE_U64, v);
    }
}

/// Whether a value is a float whose bits are a NaN.
pub open spec fn is_nan(m: ValueModel) -> bool {
    ||| m matches ValueModel::F32(b) && f32_is_nan(b)
    ||| m matches ValueModel::F64(b) && f64_is_nan(b)
}

/// Every value but a NaN float compares equal to itself.
pub proof fn law_eq_reflexive(m: ValueModel)
    requires
        !is_nan(m),
    ensures
        values_equal(m, m),
{
}

/// A NaN float compares unequal even to itself.
pub proof fn law_nan_unequal(m: ValueModel)
    requires
        is_nan(m),
    ensures
        !values_equal(m, m),
{
}

/// Equality is symmetric.
pub proof fn law_eq_symmetric(a: ValueModel, b: ValueModel)
    ensures
        values_equal(a, b) == values_equal(b, a),
{
}

/// Values of different kinds never compare equal.
pub proof fn law_eq_same_kind(a: ValueModel, b: ValueModel)
    requires
        values_equal(a, b),
    ensures
        a.type_code() == b.type_code(),
        a.type_label() == b.type_label(),
{
}

/// Apart from floats (compared by IEEE-754 rules), decimals and JSON
/// values (compared by their crates), two values compare equal exactly when
/// they are the same value: the same kind holding the same contents.
pub proof fn law_eq_is_sameness(a: ValueModel, b: ValueModel)
    requires
        !(a is F32),
        !(a is F64),
        !(a is Decimal),
        !(a is Json),
    ensures
        values_equal(a, b) == (a == b),
{
}

} // verus!
