//! The outside types that values and builders carry, and the outside calls
//! the library makes on them. Each item here is trusted: its contract is
//! what the outside crate's source or std's documentation shows.

use vstd::prelude::*;
use chrono::{NaiveDate, NaiveDateTime, NaiveTime};
use rust_decimal::Decimal;
use serde_json::Value as JsonValue;
use smol_str::SmolStr;
use uuid::Uuid;

verus! {

#[verifier::external_type_specification]
#[verifier::external_body]
pub struct ExDecimal(rust_decimal::Decimal);

#[verifier::external_type_specification]
#[verifier::external_body]
pub struct ExUuid(uuid::Uuid);

#[verifier::external_type_specification]
#[verifier::external_body]
pub struct ExJsonValue(serde_json::Value);

#[verifier::external_type_specification]
#[verifier::external_body]
pub struct ExNaiveDate(chrono::NaiveDate);

#[verifier::external_type_specification]
#[verifier::external_body]
pub struct ExNaiveTime(chrono::NaiveTime);

#[verifier::external_type_specification]
#[verifier::external_body]
pub struct ExNaiveDateTime(chrono::NaiveDateTime);

#[verifier::external_type_specification]
#[verifier::external_body]
pub struct ExSmolStr(smol_str::SmolStr);

/// The text that a `SmolStr` holds.
pub uninterp spec fn smol_text(s: SmolStr) -> Seq<char>;

/// `SmolStr::new`: the new string holds the given text.
#[verifier::external_body]
pub(crate) fn smol_new(text: &str) -> (r: SmolStr)
    ensures
        smol_text(r) == text@,
{
    SmolStr::new(text)
}

/// `<SmolStr as Clone>::clone`: the clone holds the same text (an inline
/// string is copied, a heap one shares its buffer).
pub assume_specification[ <SmolStr as Clone>::clone ](s: &SmolStr) -> (r: SmolStr)
    ensures
        smol_text(r) == smol_text(*s),
;

/// Whether `<Decimal as PartialEq>::eq` holds of two decimals.
pub uninterp spec fn decimal_equal(a: Decimal, b: Decimal) -> bool;

/// `<Decimal as PartialEq>::eq`, a numeric comparison. Its source returns
/// `true` at once for two decimals with the same bits, and otherwise
/// whether the numeric comparison finds them equal, which does not depend on
/// the order of the two; beyond that the result is only named.
#[verifier::external_body]
pub(crate) fn decimal_eq(a: &Decimal, b: &Decimal) -> (r: bool)
    ensures
        r == decimal_equal(*a, *b),
        r == decimal_equal(*b, *a),
        *a == *b ==> r,
{
    *a == *b
}

/// Whether `<serde_json::Value as PartialEq>::eq` holds of two JSON values.
pub uninterp spec fn json_equal(a: JsonValue, b: JsonValue) -> bool;

/// `<serde_json::Value as PartialEq>::eq`, derived on the value tree, with
/// numbers compared variant by variant. The type implements `Eq` (its
/// numbers are never NaN), so a value equals itself, and every comparison in
/// the tree is symmetric, so the order of the two does not matter; beyond
/// that the result is only named.
#[verifier::external_body]
pub(crate) fn json_eq(a: &JsonValue, b: &JsonValue) -> (r: bool)
    ensures
        r == json_equal(*a, *b),
        r == json_equal(*b, *a),
        *a == *b ==> r,
{
    *a == *b
}

/// `<serde_json::Value as Clone>::clone`, derived: the clone is the same tree.
#[verifier::external_body]
pub(crate) fn json_clone(v: &JsonValue) -> (r: JsonValue)
    ensures
        r == *v,
{
    v.clone()
}

/// `<Uuid as PartialEq>::eq`, derived on the 16 bytes of the identifier.
#[verifier::external_body]
pub(crate) fn uuid_eq(a: &Uuid, b: &Uuid) -> (r: bool)
    ensures
        r == (*a == *b),
{
    *a == *b
}

/// `<NaiveDate as PartialEq>::eq`, derived on the date's fields.
#[verifier::external_body]
pub(crate) fn date_eq(a: &NaiveDate, b: &NaiveDate) -> (r: bool)
    ensures
        r == (*a == *b),
{
    *a == *b
}

/// `<NaiveTime as PartialEq>::eq`, derived on the time's fields.
#[verifier::external_body]
pub(crate) fn time_eq(a: &NaiveTime, b: &NaiveTime) -> (r: bool)
    ensures
        r == (*a == *b),
{
    *a == *b
}

/// `<NaiveDateTime as PartialEq>::eq`, derived on the date and the time.
#[verifier::external_body]
pub(crate) fn datetime_eq(a: &NaiveDateTime, b: &NaiveDateTime) -> (r: bool)
    ensures
        r == (*a == *b),
{
    *a == *b
}

/// `char::from_u32`: `Some` of the character exactly when the number is a
/// Unicode scalar value.
#[verifier::external_body]
pub(crate) fn char_from_u32(code: u32) -> (r: Option<char>)
    ensures
        vstd::utf8::is_scalar(code) ==> r == Some(code as char),
        !vstd::utf8::is_scalar(code) ==> r is None,
{
    char::from_u32(code)
}

} // verus!
