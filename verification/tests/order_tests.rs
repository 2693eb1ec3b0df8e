use std::cmp::Ordering;
use std::str::FromStr;

use chrono::NaiveDate;
use rust_decimal::Decimal;
use simple_db::value::DbValue;

#[test]
fn order_within_a_kind() {
    assert_eq!(DbValue::from_i32(1).partial_cmp(&DbValue::from_i32(2)), Some(Ordering::Less));
    assert_eq!(DbValue::from_i64(-(1 << 50)).partial_cmp(&DbValue::from_i64(3)), Some(Ordering::Less));
    assert_eq!(DbValue::from_u64(1 << 55).partial_cmp(&DbValue::from_u64(7)), Some(Ordering::Greater));
    assert_eq!(DbValue::from_bool(false).partial_cmp(&DbValue::from_bool(true)), Some(Ordering::Less));
    assert_eq!(DbValue::from_null().partial_cmp(&DbValue::from_null()), Some(Ordering::Equal));
    assert_eq!(DbValue::from_char('a').partial_cmp(&DbValue::from_char('b')), Some(Ordering::Less));
    assert!(DbValue::from_u128(5) > DbValue::from_u128(4));
}

#[test]
fn order_of_texts_and_bytes_is_lexicographic() {
    assert_eq!(DbValue::from_str("ab").partial_cmp(&DbValue::from_str("b")), Some(Ordering::Less));
    assert_eq!(DbValue::from_str("ab").partial_cmp(&DbValue::from_str("a")), Some(Ordering::Greater));
    assert_eq!(DbValue::from_str("é").partial_cmp(&DbValue::from_str("z")), Some(Ordering::Greater));
    assert_eq!(DbValue::from_str("same").partial_cmp(&DbValue::from_str("same")), Some(Ordering::Equal));
    assert_eq!(DbValue::from_bytes(vec![1, 2]).partial_cmp(&DbValue::from_bytes(vec![1, 3])), Some(Ordering::Less));
    assert_eq!(DbValue::from_bytes(vec![]).partial_cmp(&DbValue::from_bytes(vec![0])), Some(Ordering::Less));
}

#[test]
fn order_of_floats_follows_ieee() {
    let f = |x: f32| DbValue::from_f32_bits(x.to_bits());
    let d = |x: f64| DbValue::from_f64_bits(x.to_bits());
    assert_eq!(f(-1.5).partial_cmp(&f(0.25)), Some(Ordering::Less));
    assert_eq!(f(-1.5).partial_cmp(&f(-2.5)), Some(Ordering::Greater));
    assert_eq!(f(0.0).partial_cmp(&f(-0.0)), Some(Ordering::Equal));
    assert_eq!(f(f32::NAN).partial_cmp(&f(1.0)), None);
    assert_eq!(f(f32::NEG_INFINITY).partial_cmp(&f(f32::MIN)), Some(Ordering::Less));
    assert_eq!(d(2.5).partial_cmp(&d(2.25)), Some(Ordering::Greater));
    assert_eq!(d(f64::NAN).partial_cmp(&d(f64::NAN)), None);
    for (x, y) in [(1.0f64, 2.0f64), (-3.0, -0.5), (0.0, -0.0), (1e300, -1e300)] {
        assert_eq!(d(x).partial_cmp(&d(y)), x.partial_cmp(&y));
    }
}

#[test]
fn order_of_outside_kinds() {
    let a = DbValue::from_decimal(Decimal::from_str("1.50").unwrap());
    let b = DbValue::from_decimal(Decimal::from_str("1.5").unwrap());
    let c = DbValue::from_decimal(Decimal::from_str("2").unwrap());
    assert_eq!(a.partial_cmp(&b), Some(Ordering::Equal));
    assert_eq!(a.partial_cmp(&c), Some(Ordering::Less));
    let d1 = DbValue::from_date(NaiveDate::from_ymd_opt(2024, 1, 1).unwrap());
    let d2 = DbValue::from_date(NaiveDate::from_ymd_opt(2025, 1, 1).unwrap());
    assert_eq!(d1.partial_cmp(&d2), Some(Ordering::Less));
}

#[test]
fn different_kinds_and_json_are_unordered() {
    assert_eq!(DbValue::from_i32(1).partial_cmp(&DbValue::from_i64(1)), None);
    assert_eq!(DbValue::from_str("1").partial_cmp(&DbValue::from_i32(1)), None);
    let j = DbValue::from_json(serde_json::Value::from(1));
    assert_eq!(j.partial_cmp(&j.clone()), None);
    assert_eq!(j, j.clone());
}

#[test]
fn order_of_outside_kinds_reverses_when_swapped() {
    let d1 = DbValue::from_date(NaiveDate::from_ymd_opt(2024, 1, 1).unwrap());
    let d2 = DbValue::from_date(NaiveDate::from_ymd_opt(2025, 1, 1).unwrap());
    assert_eq!(d2.partial_cmp(&d1), Some(Ordering::Greater));
    let a = DbValue::from_decimal(Decimal::from_str("-3.5").unwrap());
    let b = DbValue::from_decimal(Decimal::from_str("2").unwrap());
    assert_eq!(a.partial_cmp(&b), Some(Ordering::Less));
    assert_eq!(b.partial_cmp(&a), Some(Ordering::Greater));
    let u1 = DbValue::from_uuid(uuid::Uuid::from_u128(1));
    let u2 = DbValue::from_uuid(uuid::Uuid::from_u128(2));
    assert_eq!(u1.partial_cmp(&u2), Some(Ordering::Less));
    assert_eq!(u2.partial_cmp(&u1), Some(Ordering::Greater));
}
