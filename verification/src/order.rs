//! The partial order of values: two values of one kind compare by that
//! kind's order; values of different kinds, two JSON values, and a NaN float
//! with anything are unordered.

use vstd::prelude::*;
use core::cmp::Ordering;
use chrono::{NaiveDate, NaiveDateTime, NaiveTime};
use rust_decimal::Decimal;
use uuid::Uuid;
use vstd::std_specs::cmp::PartialOrdSpecImpl;
use vstd::std_specs::iter::IteratorSpec;

use crate::bits::{
    TYPE_BOOL, TYPE_BYTES, TYPE_CHAR, TYPE_DATE, TYPE_DECIMAL, TYPE_F32, TYPE_F64, TYPE_I128,
    TYPE_I16, TYPE_I32, TYPE_I64, TYPE_I8, TYPE_NULL, TYPE_STRING, TYPE_TIME, TYPE_TIMESTAMP,
    TYPE_TIMESTAMPZ, TYPE_U128, TYPE_U16, TYPE_U32, TYPE_U64, TYPE_U8, TYPE_UUID,
};
use crate::outside::decimal_equal;
use crate::value::{f32_bits_equal, f32_is_nan, f64_bits_equal, f64_is_nan, values_equal, DbValue, ValueModel};

verus! {

broadcast use {vstd::string::axiom_spec_iter, vstd::string::next_postcondition};

/// A position as a mathematical integer.
pub open spec fn pos(n: usize) -> int {
    n as int
}

/// The ordering given by a strict-less test and an equality test.
pub open spec fn order3(less: bool, equal: bool) -> Ordering {
    if less {
        Ordering::Less
    } else if equal {
        Ordering::Equal
    } else {
        Ordering::Greater
    }
}

/// The code point of a character.
pub open spec fn code_point(c: char) -> u32 {
    c as u32
}

/// Where single-precision float bits lie on the number line, for bits that
/// are not a NaN: the magnitude bits, negated when the sign bit is set (so
/// that both zeros sit at zero).
pub open spec fn f32_rank(bits: u32) -> int {
    let magnitude = (bits & 0x7fff_ffffu32) as int;
    if bits & 0x8000_0000u32 != 0 {
        -magnitude
    } else {
        magnitude
    }
}

/// Where double-precision float bits lie on the number line, for bits that
/// are not a NaN.
pub open spec fn f64_rank(bits: u64) -> int {
    let magnitude = (bits & 0x7fff_ffff_ffff_ffffu64) as int;
    if bits & 0x8000_0000_0000_0000u64 != 0 {
        -magnitude
    } else {
        magnitude
    }
}

/// IEEE-754 order of two single-precision floats given by their bits:
/// unordered when either is a NaN; the two zeros compare equal.
pub open spec fn f32_order(a: u32, b: u32) -> Option<Ordering> {
    if f32_is_nan(a) || f32_is_nan(b) {
        None
    } else {
        Some(order3(f32_rank(a) < f32_rank(b), f32_rank(a) == f32_rank(b)))
    }
}

/// IEEE-754 order of two double-precision floats given by their bits.
pub open spec fn f64_order(a: u64, b: u64) -> Option<Ordering> {
    if f64_is_nan(a) || f64_is_nan(b) {
        None
    } else {
        Some(order3(f64_rank(a) < f64_rank(b), f64_rank(a) == f64_rank(b)))
    }
}

/// Lexicographic order of two texts, character by character by code point;
/// a proper prefix comes first.
pub open spec fn text_order(a: Seq<char>, b: Seq<char>) -> Ordering
    decreases a.len(),
{
    if a.len() == 0 {
        order3(b.len() > 0, b.len() == 0)
    } else if b.len() == 0 {
        Ordering::Greater
    } else if a[0] != b[0] {
        order3(code_point(a[0]) < code_point(b[0]), false)
    } else {
        text_order(a.drop_first(), b.drop_first())
    }
}

/// Lexicographic order of two byte strings; a proper prefix comes first.
pub open spec fn bytes_order(a: Seq<u8>, b: Seq<u8>) -> Ordering
    decreases a.len(),
{
    if a.len() == 0 {
        order3(b.len() > 0, b.len() == 0)
    } else if b.len() == 0 {
        Ordering::Greater
    } else if a[0] != b[0] {
        order3(a[0] < b[0], false)
    } else {
        bytes_order(a.drop_first(), b.drop_first())
    }
}

/// What `<Decimal as Ord>::cmp` returns.
pub uninterp spec fn decimal_ordering(a: Decimal, b: Decimal) -> Ordering;

/// What `<NaiveDate as Ord>::cmp` returns.
pub uninterp spec fn date_ordering(a: NaiveDate, b: NaiveDate) -> Ordering;

/// What `<NaiveTime as Ord>::cmp` returns.
pub uninterp spec fn time_ordering(a: NaiveTime, b: NaiveTime) -> Ordering;

/// What `<NaiveDateTime as Ord>::cmp` returns.
pub uninterp spec fn datetime_ordering(a: NaiveDateTime, b: NaiveDateTime) -> Ordering;

/// What `<Uuid as Ord>::cmp` returns.
pub uninterp spec fn uuid_ordering(a: Uuid, b: Uuid) -> Ordering;

/// An outside order of two values, given as the order of `a` against `b`
/// and the order of `b` against `a`. The outside sources make the two
/// agree (each is the other reversed), and then this is the first; should
/// they disagree, the two values would count as unordered-equal, which keeps
/// this order antisymmetric by construction.
pub open spec fn agreed(forward: Ordering, backward: Ordering) -> Ordering {
    if forward == reversed(backward) {
        forward
    } else {
        Ordering::Equal
    }
}

/// The order of two values: `None` for values of different kinds, for two
/// JSON values, and for a NaN float; otherwise the order of their kind
/// (for decimals, dates, times, timestamps and identifiers, that of the
/// outside crate).
pub open spec fn value_order(a: ValueModel, b: ValueModel) -> Option<Ordering> {
    match (a, b) {
        (ValueModel::Null, ValueModel::Null) => Some(Ordering::Equal),
        (ValueModel::Bool(x), ValueModel::Bool(y)) => Some(order3(!x && y, x == y)),
        (ValueModel::I8(x), ValueModel::I8(y)) => Some(order3(x < y, x == y)),
        (ValueModel::I16(x), ValueModel::I16(y)) => Some(order3(x < y, x == y)),
        (ValueModel::I32(x), ValueModel::I32(y)) => Some(order3(x < y, x == y)),
        (ValueModel::I64(x), ValueModel::I64(y)) => Some(order3(x < y, x == y)),
        (ValueModel::I128(x), ValueModel::I128(y)) => Some(order3(x < y, x == y)),
        (ValueModel::U8(x), ValueModel::U8(y)) => Some(order3(x < y, x == y)),
        (ValueModel::U16(x), ValueModel::U16(y)) => Some(order3(x < y, x == y)),
        (ValueModel::U32(x), ValueModel::U32(y)) => Some(order3(x < y, x == y)),
        (ValueModel::U64(x), ValueModel::U64(y)) => Some(order3(x < y, x == y)),
        (ValueModel::U128(x), ValueModel::U128(y)) => Some(order3(x < y, x == y)),
        (ValueModel::F32(x), ValueModel::F32(y)) => f32_order(x, y),
        (ValueModel::F64(x), ValueModel::F64(y)) => f64_order(x, y),
        (ValueModel::Decimal(x), ValueModel::Decimal(y)) => Some(
            agreed(decimal_ordering(x, y), decimal_ordering(y, x)),
        ),
        (ValueModel::Char(x), ValueModel::Char(y)) => Some(
            order3(code_point(x) < code_point(y), x == y),
        ),
        (ValueModel::Text(x), ValueModel::Text(y)) => Some(text_order(x, y)),
        (ValueModel::Date(x), ValueModel::Date(y)) => Some(
            agreed(date_ordering(x, y), date_ordering(y, x)),
        ),
        (ValueModel::Time(x), ValueModel::Time(y)) => Some(
            agreed(time_ordering(x, y), time_ordering(y, x)),
        ),
        (ValueModel::Timestamp(x), ValueModel::Timestamp(y)) => Some(
            agreed(datetime_ordering(x, y), datetime_ordering(y, x)),
        ),
        (ValueModel::TimestampUtc(x), ValueModel::TimestampUtc(y)) => Some(
            agreed(datetime_ordering(x, y), datetime_ordering(y, x)),
        ),
        (ValueModel::Bytes(x), ValueModel::Bytes(y)) => Some(bytes_order(x, y)),
        (ValueModel::Uuid(x), ValueModel::Uuid(y)) => Some(
            agreed(uuid_ordering(x, y), uuid_ordering(y, x)),
        ),
        _ => None,
    }
}

/// `<Decimal as Ord>::cmp`, a numeric comparison and so a total order:
/// comparing the other way round gives the reversed result. Its source
/// defines `==` on decimals as "identical, or compared `Equal` here", and a
/// decimal compares `Equal` to itself; beyond that the result is only named.
#[verifier::external_body]
fn decimal_order(a: &Decimal, b: &Decimal) -> (r: Ordering)
    ensures
        r == decimal_ordering(*a, *b),
        r == reversed(decimal_ordering(*b, *a)),
        decimal_equal(*a, *b) == (*a == *b || r == Ordering::Equal),
        *a == *b ==> r == Ordering::Equal,
{
    a.cmp(b)
}

/// `<NaiveDate as Ord>::cmp`, derived on the date's fields beside a derived
/// `==`: a total order, so comparing the other way round gives the reversed
/// result, and `Equal` exactly for equal dates; beyond that only named.
#[verifier::external_body]
fn date_order(a: &NaiveDate, b: &NaiveDate) -> (r: Ordering)
    ensures
        r == date_ordering(*a, *b),
        r == reversed(date_ordering(*b, *a)),
        (r == Ordering::Equal) == (*a == *b),
{
    a.cmp(b)
}

/// `<NaiveTime as Ord>::cmp`, derived on the time's fields beside a derived
/// `==`: a total order, so comparing the other way round gives the reversed
/// result, and `Equal` exactly for equal times; beyond that only named.
#[verifier::external_body]
fn time_order(a: &NaiveTime, b: &NaiveTime) -> (r: Ordering)
    ensures
        r == time_ordering(*a, *b),
        r == reversed(time_ordering(*b, *a)),
        (r == Ordering::Equal) == (*a == *b),
{
    a.cmp(b)
}

/// `<NaiveDateTime as Ord>::cmp`, derived on the date and the time beside a
/// derived `==`: a total order, so comparing the other way round gives the
/// reversed result, and `Equal` exactly for equal date-times; beyond that
/// only named.
#[verifier::external_body]
fn datetime_order(a: &NaiveDateTime, b: &NaiveDateTime) -> (r: Ordering)
    ensures
        r == datetime_ordering(*a, *b),
        r == reversed(datetime_ordering(*b, *a)),
        (r == Ordering::Equal) == (*a == *b),
{
    a.cmp(b)
}

/// `<Uuid as Ord>::cmp`, derived on the 16 bytes beside a derived `==`: a
/// total order, so comparing the other way round gives the reversed result,
/// and `Equal` exactly for equal identifiers; beyond that only named.
#[verifier::external_body]
fn uuid_order(a: &Uuid, b: &Uuid) -> (r: Ordering)
    ensures
        r == uuid_ordering(*a, *b),
        r == reversed(uuid_ordering(*b, *a)),
        (r == Ordering::Equal) == (*a == *b),
{
    a.cmp(b)
}

/// The ordering given by a strict-less test and an equality test.
fn ord3(less: bool, equal: bool) -> (r: Ordering)
    ensures
        r == order3(less, equal),
{
    if less {
        Ordering::Less
    } else if equal {
        Ordering::Equal
    } else {
        Ordering::Greater
    }
}

/// The code point of a character.
fn char_code(c: char) -> (r: u32)
    ensures
        r == code_point(c),
{
    c as u32
}

/// Where non-NaN single-precision float bits lie on the number line.
fn f32_rank_of(bits: u32) -> (r: i64)
    ensures
        r == f32_rank(bits),
{
    let magnitude = (bits & 0x7fff_ffff) as i64;
    if bits & 0x8000_0000 != 0 {
        -magnitude
    } else {
        magnitude
    }
}

/// Where non-NaN double-precision float bits lie on the number line.
fn f64_rank_of(bits: u64) -> (r: i64)
    ensures
        r == f64_rank(bits),
{
    let m = bits & 0x7fff_ffff_ffff_ffff;
    assert(bits & 0x7fff_ffff_ffff_ffffu64 <= 0x7fff_ffff_ffff_ffffu64) by (bit_vector);
    let magnitude = m as i64;
    if bits & 0x8000_0000_0000_0000 != 0 {
        -magnitude
    } else {
        magnitude
    }
}

/// Whether single-precision float bits are a NaN.
fn f32_nan(bits: u32) -> (r: bool)
    ensures
        r == f32_is_nan(bits),
{
    (bits & 0x7f80_0000) == 0x7f80_0000 && (bits & 0x007f_ffff) != 0
}

/// Whether double-precision float bits are a NaN.
fn f64_nan(bits: u64) -> (r: bool)
    ensures
        r == f64_is_nan(bits),
{
    (bits & 0x7ff0_0000_0000_0000) == 0x7ff0_0000_0000_0000 && (bits & 0x000f_ffff_ffff_ffff) != 0
}

/// IEEE-754 order of two single-precision floats given by their bits.
fn f32_compare(a: u32, b: u32) -> (r: Option<Ordering>)
    ensures
        r == f32_order(a, b),
{
    if f32_nan(a) || f32_nan(b) {
        None
    } else {
        let x = f32_rank_of(a);
        let y = f32_rank_of(b);
        Some(ord3(x < y, x == y))
    }
}

/// IEEE-754 order of two double-precision floats given by their bits.
fn f64_compare(a: u64, b: u64) -> (r: Option<Ordering>)
    ensures
        r == f64_order(a, b),
{
    if f64_nan(a) || f64_nan(b) {
        None
    } else {
        let x = f64_rank_of(a);
        let y = f64_rank_of(b);
        Some(ord3(x < y, x == y))
    }
}

/// Lexicographic order of two texts, character by character.
fn text_compare(a: &str, b: &str) -> (r: Ordering)
    ensures
        r == text_order(a@, b@),
{
    let mut ia = a.chars();
    let mut ib = b.chars();
    loop
        invariant
            text_order(ia.remaining(), ib.remaining()) == text_order(a@, b@),
            ia.decrease() is Some,
        decreases ia.decrease()->0,
    {
        let x = ia.next();
        let y = ib.next();
        match (x, y) {
            (None, None) => {
                return Ordering::Equal;
            },
            (None, Some(_)) => {
                return Ordering::Less;
            },
            (Some(_), None) => {
                return Ordering::Greater;
            },
            (Some(c), Some(d)) => {
                if c != d {
                    return ord3(char_code(c) < char_code(d), false);
                }
            },
        }
    }
}

/// Lexicographic order of two byte strings.
fn bytes_compare(a: &[u8], b: &[u8]) -> (r: Ordering)
    ensures
        r == bytes_order(a@, b@),
{
    let mut i: usize = 0;
    assert(a@.skip(0) =~= a@);
    assert(b@.skip(0) =~= b@);
    while i < a.len() && i < b.len()
        invariant
            i <= a@.len(),
            i <= b@.len(),
            bytes_order(a@.skip(pos(i)), b@.skip(pos(i))) == bytes_order(a@, b@),
        decreases a@.len() - i,
    {
        assert(a@.skip(pos(i))[0] == a@[pos(i)]);
        assert(b@.skip(pos(i))[0] == b@[pos(i)]);
        if a[i] != b[i] {
            return ord3(a[i] < b[i], false);
        }
        assert(a@.skip(pos(i)).drop_first() =~= a@.skip(pos(i) + 1));
        assert(b@.skip(pos(i)).drop_first() =~= b@.skip(pos(i) + 1));
        i = i + 1;
    }
    if i < a.len() {
        Ordering::Greater
    } else if i < b.len() {
        Ordering::Less
    } else {
        Ordering::Equal
    }
}

impl PartialOrd for DbValue {
    /// Values of one kind compare by that kind's order; values of different
    /// kinds, two JSON values, and a NaN float with anything are unordered.
    fn partial_cmp(&self, other: &Self) -> (r: Option<Ordering>)
        ensures
            forall|x: Decimal, y: Decimal|
                self@ == ValueModel::Decimal(x) && other@ == ValueModel::Decimal(y) ==> r == Some(
                    #[trigger] decimal_ordering(x, y),
                ),
            forall|x: NaiveDate, y: NaiveDate|
                self@ == ValueModel::Date(x) && other@ == ValueModel::Date(y) ==> r == Some(
                    #[trigger] date_ordering(x, y),
                ),
            forall|x: NaiveTime, y: NaiveTime|
                self@ == ValueModel::Time(x) && other@ == ValueModel::Time(y) ==> r == Some(
                    #[trigger] time_ordering(x, y),
                ),
            forall|x: NaiveDateTime, y: NaiveDateTime|
                (self@ == ValueModel::Timestamp(x) && other@ == ValueModel::Timestamp(y)) || (self@
                    == ValueModel::TimestampUtc(x) && other@ == ValueModel::TimestampUtc(y)) ==> r
                    == Some(#[trigger] datetime_ordering(x, y)),
            forall|x: Uuid, y: Uuid|
                self@ == ValueModel::Uuid(x) && other@ == ValueModel::Uuid(y) ==> r == Some(
                    #[trigger] uuid_ordering(x, y),
                ),
    {
        let code = self.kind_code();
        if code != other.kind_code() {
            return None;
        }
        if code == TYPE_NULL {
            Some(Ordering::Equal)
        } else if code == TYPE_BOOL {
            match (self.as_bool(), other.as_bool()) {
                (Some(x), Some(y)) => Some(ord3(!x && y, x == y)),
                _ => None,
            }
        } else if code == TYPE_I8 {
            match (self.as_i8(), other.as_i8()) {
                (Some(x), Some(y)) => Some(ord3(x < y, x == y)),
                _ => None,
            }
        } else if code == TYPE_I16 {
            match (self.as_i16(), other.as_i16()) {
                (Some(x), Some(y)) => Some(ord3(x < y, x == y)),
                _ => None,
            }
        } else if code == TYPE_I32 {
            match (self.as_i32(), other.as_i32()) {
                (Some(x), Some(y)) => Some(ord3(x < y, x == y)),
                _ => None,
            }
        } else if code == TYPE_I64 {
            match (self.as_i64(), other.as_i64()) {
                (Some(x), Some(y)) => Some(ord3(x < y, x == y)),
                _ => None,
            }
        } else if code == TYPE_I128 {
            match (self.as_i128(), other.as_i128()) {
                (Some(x), Some(y)) => Some(ord3(*x < *y, *x == *y)),
                _ => None,
            }
        } else if code == TYPE_U8 {
            match (self.as_u8(), other.as_u8()) {
                (Some(x), Some(y)) => Some(ord3(x < y, x == y)),
                _ => None,
            }
        } else if code == TYPE_U16 {
            match (self.as_u16(), other.as_u16()) {
                (Some(x), Some(y)) => Some(ord3(x < y, x == y)),
                _ => None,
            }
        } else if code == TYPE_U32 {
            match (self.as_u32(), other.as_u32()) {
                (Some(x), Some(y)) => Some(ord3(x < y, x == y)),
                _ => None,
            }
        } else if code == TYPE_U64 {
            match (self.as_u64(), other.as_u64()) {
                (Some(x), Some(y)) => Some(ord3(x < y, x == y)),
                _ => None,
            }
        } else if code == TYPE_U128 {
            match (self.as_u128(), other.as_u128()) {
                (Some(x), Some(y)) => Some(ord3(*x < *y, *x == *y)),
                _ => None,
            }
        } else if code == TYPE_F32 {
            match (self.as_f32_bits(), other.as_f32_bits()) {
                (Some(x), Some(y)) => f32_compare(x, y),
                _ => None,
            }
        } else if code == TYPE_F64 {
            match (self.as_f64_bits(), other.as_f64_bits()) {
                (Some(x), Some(y)) => f64_compare(x, y),
                _ => None,
            }
        } else if code == TYPE_DECIMAL {
            match (self.as_decimal(), other.as_decimal()) {
                (Some(x), Some(y)) => Some(decimal_order(x, y)),
                _ => None,
            }
        } else if code == TYPE_CHAR {
            match (self.as_char(), other.as_char()) {
                (Some(x), Some(y)) => Some(ord3(char_code(x) < char_code(y), x == y)),
                _ => None,
            }
        } else if code == TYPE_STRING {
            match (self.as_string(), other.as_string()) {
                (Some(x), Some(y)) => Some(text_compare(x, y)),
                _ => None,
            }
        } else if code == TYPE_DATE {
            match (self.as_date(), other.as_date()) {
                (Some(x), Some(y)) => Some(date_order(x, y)),
                _ => None,
            }
        } else if code == TYPE_TIME {
            match (self.as_time(), other.as_time()) {
                (Some(x), Some(y)) => Some(time_order(x, y)),
                _ => None,
            }
        } else if code == TYPE_TIMESTAMP {
            match (self.as_timestamp(), other.as_timestamp()) {
                (Some(x), Some(y)) => Some(datetime_order(x, y)),
                _ => None,
            }
        } else if code == TYPE_TIMESTAMPZ {
            match (self.as_timestampz(), other.as_timestampz()) {
                (Some(x), Some(y)) => Some(datetime_order(x, y)),
                _ => None,
            }
        } else if code == TYPE_BYTES {
            match (self.as_bytes(), other.as_bytes()) {
                (Some(x), Some(y)) => Some(bytes_compare(x, y)),
                _ => None,
            }
        } else if code == TYPE_UUID {
            match (self.as_uuid(), other.as_uuid()) {
                (Some(x), Some(y)) => Some(uuid_order(x, y)),
                _ => None,
            }
        } else {
            None
        }
    }
}

impl PartialOrdSpecImpl for DbValue {
    open spec fn obeys_partial_cmp_spec() -> bool {
        true
    }

    open spec fn partial_cmp_spec(&self, other: &DbValue) -> Option<Ordering> {
        value_order(self@, other@)
    }
}

// =========================================================================
// Laws
// =========================================================================

/// The ordering seen from the other side.
pub open spec fn reversed(o: Ordering) -> Ordering {
    match o {
        Ordering::Less => Ordering::Greater,
        Ordering::Equal => Ordering::Equal,
        Ordering::Greater => Ordering::Less,
    }
}

/// A partial ordering seen from the other side.
pub open spec fn reversed_order(o: Option<Ordering>) -> Option<Ordering> {
    match o {
        Some(x) => Some(reversed(x)),
        None => None,
    }
}

/// Whether a value's kind is ordered by the library itself, rather than by
/// an outside crate's comparison (decimals, dates, times, timestamps,
/// identifiers) or not at all (JSON).
pub open spec fn ordered_here(m: ValueModel) -> bool {
    !(m is Decimal) && !(m is Date) && !(m is Time) && !(m is Timestamp) && !(m is TimestampUtc)
        && !(m is Uuid) && !(m is Json)
}

/// An agreed order seen from the other side is the reversed order.
proof fn lemma_agreed(forward: Ordering, backward: Ordering)
    ensures
        agreed(backward, forward) == reversed(agreed(forward, backward)),
{
}

/// Two characters with the same code point are the same character.
proof fn lemma_code_point_injective(x: char, y: char)
    ensures
        (code_point(x) == code_point(y)) == (x == y),
{
}

/// Texts compare `Equal` exactly when they are the same, and comparing the
/// other way round reverses the result.
proof fn lemma_text_order(a: Seq<char>, b: Seq<char>)
    ensures
        (text_order(a, b) == Ordering::Equal) == (a == b),
        text_order(b, a) == reversed(text_order(a, b)),
    decreases a.len(),
{
    if a.len() > 0 && b.len() > 0 {
        lemma_code_point_injective(a[0], b[0]);
        if a[0] == b[0] {
            lemma_text_order(a.drop_first(), b.drop_first());
            if a.drop_first() == b.drop_first() {
                assert(a =~= seq![a[0]] + a.drop_first());
                assert(b =~= seq![b[0]] + b.drop_first());
            }
        }
    }
    if a.len() == 0 && b.len() == 0 {
        assert(a =~= b);
    }
}

/// Byte strings compare `Equal` exactly when they are the same, and
/// comparing the other way round reverses the result.
proof fn lemma_bytes_order(a: Seq<u8>, b: Seq<u8>)
    ensures
        (bytes_order(a, b) == Ordering::Equal) == (a == b),
        bytes_order(b, a) == reversed(bytes_order(a, b)),
    decreases a.len(),
{
    if a.len() > 0 && b.len() > 0 && a[0] == b[0] {
        lemma_bytes_order(a.drop_first(), b.drop_first());
        if a.drop_first() == b.drop_first() {
            assert(a =~= seq![a[0]] + a.drop_first());
            assert(b =~= seq![b[0]] + b.drop_first());
        }
    }
    if a.len() == 0 && b.len() == 0 {
        assert(a =~= b);
    }
}

/// Two single-precision floats sit at one place on the number line exactly
/// when they are the same bits or both zeros.
proof fn lemma_f32_rank_equal(a: u32, b: u32)
    ensures
        (f32_rank(a) == f32_rank(b)) == (a == b || (a & 0x7fff_ffffu32 == 0 && b & 0x7fff_ffffu32 == 0)),
{
    assert(a == b <==> (a & 0x7fff_ffffu32 == b & 0x7fff_ffffu32 && (a & 0x8000_0000u32 != 0) == (b
        & 0x8000_0000u32 != 0))) by (bit_vector);
}

/// Two double-precision floats sit at one place on the number line exactly
/// when they are the same bits or both zeros.
proof fn lemma_f64_rank_equal(a: u64, b: u64)
    ensures
        (f64_rank(a) == f64_rank(b)) == (a == b || (a & 0x7fff_ffff_ffff_ffffu64 == 0 && b
            & 0x7fff_ffff_ffff_ffffu64 == 0)),
{
    assert(a == b <==> (a & 0x7fff_ffff_ffff_ffffu64 == b & 0x7fff_ffff_ffff_ffffu64 && (a
        & 0x8000_0000_0000_0000u64 != 0) == (b & 0x8000_0000_0000_0000u64 != 0))) by (bit_vector);
}

/// The order agrees with `==`: two values compare `Equal` exactly when they
/// are equal. Stated for the kinds the library orders itself; JSON values
/// are never ordered, yet two equal JSON values are equal, so JSON is where
/// the agreement fails.
pub proof fn law_order_agrees_with_eq(a: ValueModel, b: ValueModel)
    requires
        ordered_here(a),
    ensures
        (value_order(a, b) == Some(Ordering::Equal)) == values_equal(a, b),
{
    match (a, b) {
        (ValueModel::F32(x), ValueModel::F32(y)) => lemma_f32_rank_equal(x, y),
        (ValueModel::F64(x), ValueModel::F64(y)) => lemma_f64_rank_equal(x, y),
        (ValueModel::Char(x), ValueModel::Char(y)) => lemma_code_point_injective(x, y),
        (ValueModel::Text(x), ValueModel::Text(y)) => lemma_text_order(x, y),
        (ValueModel::Bytes(x), ValueModel::Bytes(y)) => lemma_bytes_order(x, y),
        _ => {},
    }
}

/// Comparing the other way round reverses the result; two values are
/// unordered one way exactly when they are unordered the other way.
pub proof fn law_order_antisymmetric(a: ValueModel, b: ValueModel)
    ensures
        value_order(b, a) == reversed_order(value_order(a, b)),
{
    if a.type_code() != b.type_code() {
        assert(value_order(a, b) is None);
        assert(value_order(b, a) is None);
    } else {
        match (a, b) {
            (ValueModel::Null, ValueModel::Null) => {},
            (ValueModel::Bool(_), ValueModel::Bool(_)) => {
                assert(value_order(b, a) == reversed_order(value_order(a, b)));
            },
            (ValueModel::I8(_), ValueModel::I8(_)) => {
                assert(value_order(b, a) == reversed_order(value_order(a, b)));
            },
            (ValueModel::I16(_), ValueModel::I16(_)) => {
                assert(value_order(b, a) == reversed_order(value_order(a, b)));
            },
            (ValueModel::I32(_), ValueModel::I32(_)) => {
                assert(value_order(b, a) == reversed_order(value_order(a, b)));
            },
            (ValueModel::I64(_), ValueModel::I64(_)) => {
                assert(value_order(b, a) == reversed_order(value_order(a, b)));
            },
            (ValueModel::I128(_), ValueModel::I128(_)) => {
                assert(value_order(b, a) == reversed_order(value_order(a, b)));
            },
            (ValueModel::U8(_), ValueModel::U8(_)) => {
                assert(value_order(b, a) == reversed_order(value_order(a, b)));
            },
            (ValueModel::U16(_), ValueModel::U16(_)) => {
                assert(value_order(b, a) == reversed_order(value_order(a, b)));
            },
            (ValueModel::U32(_), ValueModel::U32(_)) => {
                assert(value_order(b, a) == reversed_order(value_order(a, b)));
            },
            (ValueModel::U64(_), ValueModel::U64(_)) => {
                assert(value_order(b, a) == reversed_order(value_order(a, b)));
            },
            (ValueModel::U128(_), ValueModel::U128(_)) => {
                assert(value_order(b, a) == reversed_order(value_order(a, b)));
            },
            (ValueModel::F32(_), ValueModel::F32(_)) => {
                assert(value_order(b, a) == reversed_order(value_order(a, b)));
            },
            (ValueModel::F64(_), ValueModel::F64(_)) => {
                assert(value_order(b, a) == reversed_order(value_order(a, b)));
            },
            (ValueModel::Char(x), ValueModel::Char(y)) => lemma_code_point_injective(x, y),
            (ValueModel::Text(x), ValueModel::Text(y)) => lemma_text_order(x, y),
            (ValueModel::Bytes(x), ValueModel::Bytes(y)) => lemma_bytes_order(x, y),
            (ValueModel::Decimal(x), ValueModel::Decimal(y)) => lemma_agreed(
                decimal_ordering(x, y),
                decimal_ordering(y, x),
            ),
            (ValueModel::Date(x), ValueModel::Date(y)) => lemma_agreed(
                date_ordering(x, y),
                date_ordering(y, x),
            ),
            (ValueModel::Time(x), ValueModel::Time(y)) => lemma_agreed(
                time_ordering(x, y),
                time_ordering(y, x),
            ),
            (ValueModel::Timestamp(x), ValueModel::Timestamp(y)) => lemma_agreed(
                datetime_ordering(x, y),
                datetime_ordering(y, x),
            ),
            (ValueModel::TimestampUtc(x), ValueModel::TimestampUtc(y)) => lemma_agreed(
                datetime_ordering(x, y),
                datetime_ordering(y, x),
            ),
            (ValueModel::Uuid(x), ValueModel::Uuid(y)) => lemma_agreed(
                uuid_ordering(x, y),
                uuid_ordering(y, x),
            ),
            _ => {},
        }
    }
}

/// Byte strings order by their first differing byte: where `a` and `b`
/// agree on the positions before `i` and differ at `i`, `a` comes first
/// exactly when its byte there is the smaller, whatever their lengths.
pub proof fn law_bytes_order_first_difference(a: Seq<u8>, b: Seq<u8>, i: int)
    requires
        0 <= i < a.len(),
        i < b.len(),
        a.subrange(0, i) == b.subrange(0, i),
        a[i] != b[i],
    ensures
        bytes_order(a, b) == (if a[i] < b[i] {
            Ordering::Less
        } else {
            Ordering::Greater
        }),
    decreases i,
{
    if i > 0 {
        assert(a[0] == a.subrange(0, i)[0]);
        assert(b[0] == b.subrange(0, i)[0]);
        assert(a.drop_first().subrange(0, i - 1) =~= a.subrange(0, i).drop_first());
        assert(b.drop_first().subrange(0, i - 1) =~= b.subrange(0, i).drop_first());
        law_bytes_order_first_difference(a.drop_first(), b.drop_first(), i - 1);
    }
}

/// A byte string that is a proper prefix of another comes first.
pub proof fn law_bytes_order_prefix(a: Seq<u8>, b: Seq<u8>)
    requires
        a.len() < b.len(),
        a.is_prefix_of(b),
    ensures
        bytes_order(a, b) == Ordering::Less,
        bytes_order(b, a) == Ordering::Greater,
    decreases a.len(),
{
    if a.len() > 0 {
        assert(a[0] == b[0]);
        assert(a.drop_first().is_prefix_of(b.drop_first()));
        law_bytes_order_prefix(a.drop_first(), b.drop_first());
    }
}

/// Texts order by their first differing character: where `a` and `b`
/// agree on the positions before `i` and differ at `i`, `a` comes first
/// exactly when its character there has the smaller code point, whatever
/// their lengths.
pub proof fn law_text_order_first_difference(a: Seq<char>, b: Seq<char>, i: int)
    requires
        0 <= i < a.len(),
        i < b.len(),
        a.subrange(0, i) == b.subrange(0, i),
        a[i] != b[i],
    ensures
        text_order(a, b) == (if code_point(a[i]) < code_point(b[i]) {
            Ordering::Less
        } else {
            Ordering::Greater
        }),
    decreases i,
{
    if i > 0 {
        assert(a[0] == a.subrange(0, i)[0]);
        assert(b[0] == b.subrange(0, i)[0]);
        assert(a.drop_first().subrange(0, i - 1) =~= a.subrange(0, i).drop_first());
        assert(b.drop_first().subrange(0, i - 1) =~= b.subrange(0, i).drop_first());
        law_text_order_first_difference(a.drop_first(), b.drop_first(), i - 1);
    }
}

/// A text that is a proper prefix of another comes first.
pub proof fn law_text_order_prefix(a: Seq<char>, b: Seq<char>)
    requires
        a.len() < b.len(),
        a.is_prefix_of(b),
    ensures
        text_order(a, b) == Ordering::Less,
        text_order(b, a) == Ordering::Greater,
    decreases a.len(),
{
    if a.len() > 0 {
        assert(a[0] == b[0]);
        assert(a.drop_first().is_prefix_of(b.drop_first()));
        law_text_order_prefix(a.drop_first(), b.drop_first());
    }
}

/// Two decimals are ordered as their crate orders them, in the same
/// direction: the value order is `Some` of that crate's comparison of the
/// first against the second. (The crate's comparison is a total order, so
/// it is the reverse of the comparison the other way round; each call of
/// the comparison states so.)
pub proof fn law_decimal_order_direction(x: Decimal, y: Decimal)
    requires
        decimal_ordering(x, y) == reversed(decimal_ordering(y, x)),
    ensures
        value_order(ValueModel::Decimal(x), ValueModel::Decimal(y)) == Some(decimal_ordering(x, y)),
{
}

/// Two dates are ordered as their crate orders them, in the same
/// direction: the value order is `Some` of that crate's comparison of the
/// first against the second. (The crate's comparison is a total order, so
/// it is the reverse of the comparison the other way round; each call of
/// the comparison states so.)
pub proof fn law_date_order_direction(x: NaiveDate, y: NaiveDate)
    requires
        date_ordering(x, y) == reversed(date_ordering(y, x)),
    ensures
        value_order(ValueModel::Date(x), ValueModel::Date(y)) == Some(date_ordering(x, y)),
{
}

/// Two times are ordered as their crate orders them, in the same
/// direction: the value order is `Some` of that crate's comparison of the
/// first against the second. (The crate's comparison is a total order, so
/// it is the reverse of the comparison the other way round; each call of
/// the comparison states so.)
pub proof fn law_time_order_direction(x: NaiveTime, y: NaiveTime)
    requires
        time_ordering(x, y) == reversed(time_ordering(y, x)),
    ensures
        value_order(ValueModel::Time(x), ValueModel::Time(y)) == Some(time_ordering(x, y)),
{
}

/// Two timestamps, naive or UTC, are ordered as chrono orders their
/// date-times, in the same direction. (The comparison is a total order, so
/// it is the reverse of the comparison the other way round; each call of
/// the comparison states so.)
pub proof fn law_datetime_order_direction(x: NaiveDateTime, y: NaiveDateTime)
    requires
        datetime_ordering(x, y) == reversed(datetime_ordering(y, x)),
    ensures
        value_order(ValueModel::Timestamp(x), ValueModel::Timestamp(y)) == Some(
            datetime_ordering(x, y),
        ),
        value_order(ValueModel::TimestampUtc(x), ValueModel::TimestampUtc(y)) == Some(
            datetime_ordering(x, y),
        ),
{
}

/// Two identifiers are ordered as the uuid crate orders them, in the same
/// direction. (The comparison is a total order, so it is the reverse of the
/// comparison the other way round; each call of the comparison states so.)
pub proof fn law_uuid_order_direction(x: Uuid, y: Uuid)
    requires
        uuid_ordering(x, y) == reversed(uuid_ordering(y, x)),
    ensures
        value_order(ValueModel::Uuid(x), ValueModel::Uuid(y)) == Some(uuid_ordering(x, y)),
{
}

/// `i8` values order as numbers: the first is `Less` exactly when it is
/// the smaller, `Equal` exactly when they are equal, `Greater` otherwise.
pub proof fn law_i8_order(x: i8, y: i8)
    ensures
        (value_order(ValueModel::I8(x), ValueModel::I8(y)) == Some(Ordering::Less)) == (x < y),
        (value_order(ValueModel::I8(x), ValueModel::I8(y)) == Some(Ordering::Equal)) == (x == y),
        (value_order(ValueModel::I8(x), ValueModel::I8(y)) == Some(Ordering::Greater)) == (x > y),
{
}

/// `i16` values order as numbers: the first is `Less` exactly when it is
/// the smaller, `Equal` exactly when they are equal, `Greater` otherwise.
pub proof fn law_i16_order(x: i16, y: i16)
    ensures
        (value_order(ValueModel::I16(x), ValueModel::I16(y)) == Some(Ordering::Less)) == (x < y),
        (value_order(ValueModel::I16(x), ValueModel::I16(y)) == Some(Ordering::Equal)) == (x == y),
        (value_order(ValueModel::I16(x), ValueModel::I16(y)) == Some(Ordering::Greater)) == (x > y),
{
}

/// `i32` values order as numbers: the first is `Less` exactly when it is
/// the smaller, `Equal` exactly when they are equal, `Greater` otherwise.
pub proof fn law_i32_order(x: i32, y: i32)
    ensures
        (value_order(ValueModel::I32(x), ValueModel::I32(y)) == Some(Ordering::Less)) == (x < y),
        (value_order(ValueModel::I32(x), ValueModel::I32(y)) == Some(Ordering::Equal)) == (x == y),
        (value_order(ValueModel::I32(x), ValueModel::I32(y)) == Some(Ordering::Greater)) == (x > y),
{
}

/// `i64` values order as numbers: the first is `Less` exactly when it is
/// the smaller, `Equal` exactly when they are equal, `Greater` otherwise.
pub proof fn law_i64_order(x: i64, y: i64)
    ensures
        (value_order(ValueModel::I64(x), ValueModel::I64(y)) == Some(Ordering::Less)) == (x < y),
        (value_order(ValueModel::I64(x), ValueModel::I64(y)) == Some(Ordering::Equal)) == (x == y),
        (value_order(ValueModel::I64(x), ValueModel::I64(y)) == Some(Ordering::Greater)) == (x > y),
{
}

/// `i128` values order as numbers: the first is `Less` exactly when it is
/// the smaller, `Equal` exactly when they are equal, `Greater` otherwise.
pub proof fn law_i128_order(x: i128, y: i128)
    ensures
        (value_order(ValueModel::I128(x), ValueModel::I128(y)) == Some(Ordering::Less)) == (x < y),
        (value_order(ValueModel::I128(x), ValueModel::I128(y)) == Some(Ordering::Equal)) == (x == y),
        (value_order(ValueModel::I128(x), ValueModel::I128(y)) == Some(Ordering::Greater)) == (x > y),
{
}

/// `u8` values order as numbers: the first is `Less` exactly when it is
/// the smaller, `Equal` exactly when they are equal, `Greater` otherwise.
pub proof fn law_u8_order(x: u8, y: u8)
    ensures
        (value_order(ValueModel::U8(x), ValueModel::U8(y)) == Some(Ordering::Less)) == (x < y),
        (value_order(ValueModel::U8(x), ValueModel::U8(y)) == Some(Ordering::Equal)) == (x == y),
        (value_order(ValueModel::U8(x), ValueModel::U8(y)) == Some(Ordering::Greater)) == (x > y),
{
}

/// `u16` values order as numbers: the first is `Less` exactly when it is
/// the smaller, `Equal` exactly when they are equal, `Greater` otherwise.
pub proof fn law_u16_order(x: u16, y: u16)
    ensures
        (value_order(ValueModel::U16(x), ValueModel::U16(y)) == Some(Ordering::Less)) == (x < y),
        (value_order(ValueModel::U16(x), ValueModel::U16(y)) == Some(Ordering::Equal)) == (x == y),
        (value_order(ValueModel::U16(x), ValueModel::U16(y)) == Some(Ordering::Greater)) == (x > y),
{
}

/// `u32` values order as numbers: the first is `Less` exactly when it is
/// the smaller, `Equal` exactly when they are equal, `Greater` otherwise.
pub proof fn law_u32_order(x: u32, y: u32)
    ensures
        (value_order(ValueModel::U32(x), ValueModel::U32(y)) == Some(Ordering::Less)) == (x < y),
        (value_order(ValueModel::U32(x), ValueModel::U32(y)) == Some(Ordering::Equal)) == (x == y),
        (value_order(ValueModel::U32(x), ValueModel::U32(y)) == Some(Ordering::Greater)) == (x > y),
{
}

/// `u64` values order as numbers: the first is `Less` exactly when it is
/// the smaller, `Equal` exactly when they are equal, `Greater` otherwise.
pub proof fn law_u64_order(x: u64, y: u64)
    ensures
        (value_order(ValueModel::U64(x), ValueModel::U64(y)) == Some(Ordering::Less)) == (x < y),
        (value_order(ValueModel::U64(x), ValueModel::U64(y)) == Some(Ordering::Equal)) == (x == y),
        (value_order(ValueModel::U64(x), ValueModel::U64(y)) == Some(Ordering::Greater)) == (x > y),
{
}

/// `u128` values order as numbers: the first is `Less` exactly when it is
/// the smaller, `Equal` exactly when they are equal, `Greater` otherwise.
pub proof fn law_u128_order(x: u128, y: u128)
    ensures
        (value_order(ValueModel::U128(x), ValueModel::U128(y)) == Some(Ordering::Less)) == (x < y),
        (value_order(ValueModel::U128(x), ValueModel::U128(y)) == Some(Ordering::Equal)) == (x == y),
        (value_order(ValueModel::U128(x), ValueModel::U128(y)) == Some(Ordering::Greater)) == (x > y),
{
}

/// Booleans order with `false` before `true`.
pub proof fn law_bool_order(x: bool, y: bool)
    ensures
        (value_order(ValueModel::Bool(x), ValueModel::Bool(y)) == Some(Ordering::Less)) == (!x && y),
        (value_order(ValueModel::Bool(x), ValueModel::Bool(y)) == Some(Ordering::Equal)) == (x == y),
        (value_order(ValueModel::Bool(x), ValueModel::Bool(y)) == Some(Ordering::Greater)) == (x
            && !y),
{
}

/// Characters order by code point.
pub proof fn law_char_order(x: char, y: char)
    ensures
        (value_order(ValueModel::Char(x), ValueModel::Char(y)) == Some(Ordering::Less)) == (
        code_point(x) < code_point(y)),
        (value_order(ValueModel::Char(x), ValueModel::Char(y)) == Some(Ordering::Equal)) == (x == y),
        (value_order(ValueModel::Char(x), ValueModel::Char(y)) == Some(Ordering::Greater)) == (
        code_point(x) > code_point(y)),
{
    lemma_code_point_injective(x, y);
}

/// Single-precision floats order as IEEE-754 numbers, read off their bits:
/// a NaN is unordered with anything; two non-negative floats (sign bit
/// clear) order as their bit patterns; two negative ones (sign bit set)
/// order as their bit patterns reversed; a negative float comes before a
/// non-negative one, except that the two zeros compare equal.
pub proof fn law_f32_order(a: u32, b: u32)
    ensures
        f32_is_nan(a) || f32_is_nan(b) ==> value_order(ValueModel::F32(a), ValueModel::F32(b)) is None,
        !f32_is_nan(a) && !f32_is_nan(b) && a & 0x8000_0000u32 == 0 && b & 0x8000_0000u32 == 0 ==> value_order(
            ValueModel::F32(a),
            ValueModel::F32(b),
        ) == Some(order3(a < b, a == b)),
        !f32_is_nan(a) && !f32_is_nan(b) && a & 0x8000_0000u32 != 0 && b & 0x8000_0000u32 != 0 ==> value_order(
            ValueModel::F32(a),
            ValueModel::F32(b),
        ) == Some(order3(a > b, a == b)),
        !f32_is_nan(a) && !f32_is_nan(b) && a & 0x8000_0000u32 != 0 && b & 0x8000_0000u32 == 0 ==> value_order(
            ValueModel::F32(a),
            ValueModel::F32(b),
        ) == Some(order3(a & 0x7fff_ffffu32 != 0 || b != 0, true)),
{
    assert(a & 0x8000_0000u32 == 0 ==> a & 0x7fff_ffffu32 == a) by (bit_vector);
    assert(b & 0x8000_0000u32 == 0 ==> b & 0x7fff_ffffu32 == b) by (bit_vector);
    assert(a & 0x8000_0000u32 != 0 ==> a & 0x7fff_ffffu32 == a - 0x8000_0000u32) by (bit_vector);
    assert(b & 0x8000_0000u32 != 0 ==> b & 0x7fff_ffffu32 == b - 0x8000_0000u32) by (bit_vector);
}

/// Double-precision floats order as IEEE-754 numbers, read off their bits,
/// by the same rules as single-precision ones.
pub proof fn law_f64_order(a: u64, b: u64)
    ensures
        f64_is_nan(a) || f64_is_nan(b) ==> value_order(ValueModel::F64(a), ValueModel::F64(b)) is None,
        !f64_is_nan(a) && !f64_is_nan(b) && a & 0x8000_0000_0000_0000u64 == 0 && b
            & 0x8000_0000_0000_0000u64 == 0 ==> value_order(ValueModel::F64(a), ValueModel::F64(b))
            == Some(order3(a < b, a == b)),
        !f64_is_nan(a) && !f64_is_nan(b) && a & 0x8000_0000_0000_0000u64 != 0 && b
            & 0x8000_0000_0000_0000u64 != 0 ==> value_order(ValueModel::F64(a), ValueModel::F64(b))
            == Some(order3(a > b, a == b)),
        !f64_is_nan(a) && !f64_is_nan(b) && a & 0x8000_0000_0000_0000u64 != 0 && b
            & 0x8000_0000_0000_0000u64 == 0 ==> value_order(ValueModel::F64(a), ValueModel::F64(b))
            == Some(order3(a & 0x7fff_ffff_ffff_ffffu64 != 0 || b != 0, true)),
{
    assert(a & 0x8000_0000_0000_0000u64 == 0 ==> a & 0x7fff_ffff_ffff_ffffu64 == a) by (bit_vector);
    assert(b & 0x8000_0000_0000_0000u64 == 0 ==> b & 0x7fff_ffff_ffff_ffffu64 == b) by (bit_vector);
    assert(a & 0x8000_0000_0000_0000u64 != 0 ==> a & 0x7fff_ffff_ffff_ffffu64 == a
        - 0x8000_0000_0000_0000u64) by (bit_vector);
    assert(b & 0x8000_0000_0000_0000u64 != 0 ==> b & 0x7fff_ffff_ffff_ffffu64 == b
        - 0x8000_0000_0000_0000u64) by (bit_vector);
}

} // verus!
