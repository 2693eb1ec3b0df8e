use std::str::FromStr;

use chrono::{NaiveDate, NaiveTime, TimeZone, Utc};
use rust_decimal::Decimal;
use simple_db::bits::{CATEGORY_BOXED, CATEGORY_INLINE};
use simple_db::types::{DbError, TypeError};
use simple_db::value::DbValue;
use uuid::Uuid;

fn sample_json(pairs: &[(&str, serde_json::Value)]) -> serde_json::Value {
    let mut map = serde_json::Map::new();
    for (k, v) in pairs {
        map.insert(k.to_string(), v.clone());
    }
    serde_json::Value::Object(map)
}

// =========================================================================
// INLINE VALUE TESTS (no allocation)
// =========================================================================

#[test]
fn value_test_null() {
    let val = DbValue::from_null();
    assert!(val.is_null());
    assert_eq!(val.type_label(), "Null");
    assert_eq!(val.as_bool(), None);
}

#[test]
fn value_test_bool() {
    let v_true = DbValue::from_bool(true);
    let v_false = DbValue::from_bool(false);
    assert_eq!(v_true.as_bool(), Some(true));
    assert_eq!(v_false.as_bool(), Some(false));
    assert_eq!(v_true.type_label(), "bool");
}

#[test]
fn value_test_integers_inline() {
    let v_i8 = DbValue::from_i8(-42);
    assert_eq!(v_i8.as_i8(), Some(-42));

    let v_u32 = DbValue::from_u32(4_000_000_000);
    assert_eq!(v_u32.as_u32(), Some(4_000_000_000));
    assert_eq!(v_u32.category(), CATEGORY_INLINE);
}

#[test]
fn value_test_float_32_and_char() {
    let v_f32 = DbValue::from_f32_bits(3.1415f32.to_bits());
    assert_eq!(v_f32.as_f32_bits().map(f32::from_bits), Some(3.1415));

    let v_char = DbValue::from_char('🦀');
    assert_eq!(v_char.as_char(), Some('🦀'));
}

// =========================================================================
// HYBRID VALUE TESTS (types that can be inline OR boxed)
// =========================================================================

#[test]
fn value_test_i64_boundaries() {
    let v_small = DbValue::from_i64(100_000);
    assert_eq!(v_small.as_i64(), Some(100_000));
    assert_eq!(v_small.category(), CATEGORY_INLINE);

    let v_small_neg = DbValue::from_i64(-100_000);
    assert_eq!(v_small_neg.as_i64(), Some(-100_000));
    assert_eq!(v_small_neg.category(), CATEGORY_INLINE);

    let large_val = 1i64 << 50;
    let v_large = DbValue::from_i64(large_val);
    assert_eq!(v_large.as_i64(), Some(large_val));
    assert_eq!(v_large.category(), CATEGORY_BOXED);

    let large_neg = -(1i64 << 50);
    let v_large_neg = DbValue::from_i64(large_neg);
    assert_eq!(v_large_neg.as_i64(), Some(large_neg));
    assert_eq!(v_large_neg.category(), CATEGORY_BOXED);
}

#[test]
fn value_test_u64_boundaries() {
    let v_small = DbValue::from_u64(999_999);
    assert_eq!(v_small.as_u64(), Some(999_999));
    assert_eq!(v_small.category(), CATEGORY_INLINE);

    let large_val = 1u64 << 55;
    let v_large = DbValue::from_u64(large_val);
    assert_eq!(v_large.as_u64(), Some(large_val));
    assert_eq!(v_large.category(), CATEGORY_BOXED);
}

#[test]
fn value_i64_exact_48_bit_edges() {
    let max = (1i64 << 47) - 1;
    let min = -(1i64 << 47);
    assert_eq!(DbValue::from_i64(max).category(), CATEGORY_INLINE);
    assert_eq!(DbValue::from_i64(min).category(), CATEGORY_INLINE);
    assert_eq!(DbValue::from_i64(max + 1).category(), CATEGORY_BOXED);
    assert_eq!(DbValue::from_i64(min - 1).category(), CATEGORY_BOXED);
    for v in [max, min, max + 1, min - 1, -1, 0, i64::MAX, i64::MIN] {
        assert_eq!(DbValue::from_i64(v).as_i64(), Some(v));
    }
    let umax = (1u64 << 48) - 1;
    assert_eq!(DbValue::from_u64(umax).category(), CATEGORY_INLINE);
    assert_eq!(DbValue::from_u64(umax + 1).category(), CATEGORY_BOXED);
    assert_eq!(DbValue::from_u64(u64::MAX).as_u64(), Some(u64::MAX));
}

// =========================================================================
// BOXED VALUE TESTS (types always requiring heap allocation)
// =========================================================================

#[test]
fn value_test_f64() {
    let v_f64 = DbValue::from_f64_bits(2.718281828f64.to_bits());
    assert_eq!(v_f64.as_f64_bits().map(f64::from_bits), Some(2.718281828));
    assert_eq!(v_f64.category(), CATEGORY_BOXED);
}

#[test]
fn value_test_large_integers() {
    let val_i128 = DbValue::from_i128(-999_999_999_999_999_999_999);
    assert_eq!(val_i128.as_i128(), Some(&-999_999_999_999_999_999_999));

    let val_u128 = DbValue::from_u128(u128::MAX);
    assert_eq!(val_u128.as_u128(), Some(&u128::MAX));
}

#[test]
fn value_test_complex_types() {
    let dec = Decimal::from_str("123.45").unwrap();
    let v_dec = DbValue::from_decimal(dec);
    assert_eq!(v_dec.as_decimal(), Some(&dec));

    let id = Uuid::now_v7();
    let v_uuid = DbValue::from_uuid(id);
    assert_eq!(v_uuid.as_uuid(), Some(&id));

    let j = sample_json(&[("key", serde_json::Value::from("value")), ("number", serde_json::Value::from(42))]);
    let v_json = DbValue::from_json(j.clone());
    assert_eq!(v_json.as_json(), Some(&j));
}

#[test]
fn value_test_complex_types_other_keys() {
    let j = sample_json(&[("chave", serde_json::Value::from("valor")), ("numero", serde_json::Value::from(42))]);
    let v_json = DbValue::from_json(j.clone());
    assert_eq!(v_json.as_json(), Some(&j));
    assert_eq!(v_json.type_label(), "JsonValue");
}

#[test]
fn value_test_strings_and_bytes() {
    let texto = String::from("Hello, Rust!");
    let v_str = DbValue::from_string(texto.clone());
    assert_eq!(v_str.as_string(), Some(texto.as_str()));

    let bytes = vec![0xDE, 0xAD, 0xBE, 0xEF];
    let v_bytes = DbValue::from_bytes(bytes.clone());
    assert_eq!(v_bytes.as_bytes(), Some(bytes.as_slice()));
}

#[test]
fn value_test_strings_non_ascii() {
    let texto = String::from("Olá, Rust!");
    let v_str = DbValue::from_string(texto.clone());
    assert_eq!(v_str.as_string(), Some(texto.as_str()));
}

#[test]
fn value_test_chrono_dates_and_times() {
    let date = NaiveDate::from_ymd_opt(2026, 4, 10).unwrap();
    let v_date = DbValue::from_date(date);
    assert_eq!(v_date.as_date(), Some(&date));

    let time = NaiveTime::from_hms_opt(10, 30, 0).unwrap();
    let v_time = DbValue::from_time(time);
    assert_eq!(v_time.as_time(), Some(&time));

    let dt = date.and_time(time);
    let v_dt = DbValue::from_timestamp(dt);
    assert_eq!(v_dt.as_timestamp(), Some(&dt));

    let dtz = Utc.from_utc_datetime(&dt);
    let v_dtz = DbValue::from_timestampz(dtz.naive_utc());
    assert_eq!(v_dtz.as_timestampz().map(|n| Utc.from_utc_datetime(n)), Some(dtz));
    assert_eq!(v_dtz.type_label(), "DateTime<Utc>");
    assert_eq!(v_dt.as_timestampz(), None);
}

// =========================================================================
// BEHAVIOR TESTS (type mismatches, cloning, equality)
// =========================================================================

#[test]
fn value_test_type_mismatch() {
    let v_str = DbValue::from_str("I am text");
    assert_eq!(v_str.as_i32(), None);
    assert_eq!(v_str.as_f64_bits(), None);
    assert_eq!(v_str.as_bool(), None);
}

#[test]
fn value_test_clone_and_equality() {
    let val1 = DbValue::from_str("Clone Test");
    let val2 = val1.clone();

    assert_eq!(val1, val2);

    let ptr1 = val1.as_string().unwrap().as_ptr();
    let ptr2 = val2.as_string().unwrap().as_ptr();
    assert_ne!(ptr1, ptr2, "Boxed values must be deep-copied with different pointers");
}

#[test]
fn value_equality_rules() {
    // different kinds never compare equal, even with the same number
    assert_ne!(DbValue::from_i32(1), DbValue::from_i64(1));
    assert_ne!(DbValue::from_u8(1), DbValue::from_u16(1));
    // floats compare by IEEE rules: NaN is unequal to itself, zeros are equal
    let nan = DbValue::from_f32_bits(f32::NAN.to_bits());
    assert_ne!(nan, nan.clone());
    let nan64 = DbValue::from_f64_bits(f64::NAN.to_bits());
    assert_ne!(nan64, nan64.clone());
    assert_eq!(DbValue::from_f32_bits(0.0f32.to_bits()), DbValue::from_f32_bits((-0.0f32).to_bits()));
    assert_eq!(DbValue::from_f64_bits(0.0f64.to_bits()), DbValue::from_f64_bits((-0.0f64).to_bits()));
    // decimals compare by number, not by scale
    let a = DbValue::from_decimal(Decimal::from_str("1.50").unwrap());
    let b = DbValue::from_decimal(Decimal::from_str("1.5").unwrap());
    assert_eq!(a, b);
    // inline and boxed 64-bit integers
    assert_eq!(DbValue::from_i64(1 << 50), DbValue::from_i64(1 << 50));
    assert_ne!(DbValue::from_i64(1 << 50), DbValue::from_i64(-(1 << 50)));
    assert_eq!(DbValue::from_null(), DbValue::from_null());
}

#[test]
fn value_type_labels() {
    assert_eq!(DbValue::from_i8(1).type_label(), "i8");
    assert_eq!(DbValue::from_i16(1).type_label(), "i16");
    assert_eq!(DbValue::from_i32(1).type_label(), "i32");
    assert_eq!(DbValue::from_i64(1).type_label(), "i64");
    assert_eq!(DbValue::from_u64(1).type_label(), "u64");
    assert_eq!(DbValue::from_str("x").type_label(), "String");
    assert_eq!(DbValue::from_bytes(vec![1]).type_label(), "Vec<u8>");
    assert_eq!(DbValue::from_char('c').type_label(), "char");
}

#[test]
fn value_from_and_try_from() {
    let v: DbValue = 7i32.into();
    assert_eq!(i32::try_from(&v).ok(), Some(7));
    let none: DbValue = Option::<i32>::None.into();
    assert!(none.is_null());
    let some: DbValue = Some("hi").into();
    assert_eq!(String::try_from(&some).ok(), Some("hi".to_string()));
    match bool::try_from(&v) {
        Err(DbError::Type(TypeError::Mismatch { expected, found })) => {
            assert_eq!(expected, "bool");
            assert_eq!(found, "i32");
        }
        _ => panic!("expected a type mismatch"),
    }
    let owned = DbValue::from_bytes(vec![1, 2]);
    assert_eq!(Vec::<u8>::try_from(owned).ok(), Some(vec![1, 2]));
}

#[test]
fn value_equality_of_outside_kinds() {
    let a = Uuid::from_u128(1);
    let b = Uuid::from_u128(2);
    assert_eq!(DbValue::from_uuid(a), DbValue::from_uuid(a));
    assert_ne!(DbValue::from_uuid(a), DbValue::from_uuid(b));
    let d1 = NaiveDate::from_ymd_opt(2024, 2, 29).unwrap();
    let d2 = NaiveDate::from_ymd_opt(2024, 3, 1).unwrap();
    assert_eq!(DbValue::from_date(d1), DbValue::from_date(d1));
    assert_ne!(DbValue::from_date(d1), DbValue::from_date(d2));
    let t1 = NaiveTime::from_hms_opt(1, 2, 3).unwrap();
    let t2 = NaiveTime::from_hms_opt(1, 2, 4).unwrap();
    assert_ne!(DbValue::from_time(t1), DbValue::from_time(t2));
    assert_ne!(DbValue::from_timestamp(d1.and_time(t1)), DbValue::from_timestamp(d1.and_time(t2)));
    assert_ne!(
        DbValue::from_json(serde_json::Value::from(1)),
        DbValue::from_json(serde_json::Value::from(2))
    );
    assert_ne!(
        DbValue::from_decimal(Decimal::from_str("1.5").unwrap()),
        DbValue::from_decimal(Decimal::from_str("1.6").unwrap())
    );
}

#[test]
fn value_equality_is_symmetric_for_decimals_and_json() {
    let a = DbValue::from_decimal(Decimal::from_str("2.0").unwrap());
    let b = DbValue::from_decimal(Decimal::from_str("2").unwrap());
    assert_eq!(a == b, b == a);
    assert!(a == b);
    let j1 = DbValue::from_json(serde_json::Value::from(1.0));
    let j2 = DbValue::from_json(serde_json::Value::from(1));
    assert_eq!(j1 == j2, j2 == j1);
}
