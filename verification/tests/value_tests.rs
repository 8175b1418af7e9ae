use qubit_value::{DataType, UtcInstant, Value, ValueError};

use bigdecimal::BigDecimal;
use chrono::{NaiveDate, NaiveDateTime, NaiveTime};
use num_bigint::BigInt;
use std::collections::HashMap;
use std::str::FromStr;
use std::time::Duration;
use url::Url;

#[test]
fn value_generic_construction_and_retrieval() {
    let v = Value::new(8080i32);
    let port: i32 = v.get().unwrap();
    assert_eq!(port, 8080);
    assert_eq!(v.get_int32().unwrap(), 8080);
    assert_eq!(v.to::<i64>().unwrap(), 8080i64);
    assert_eq!(v.to::<String>().unwrap(), "8080".to_string());
}

#[test]
fn value_big_number_retrieval() {
    let big_int = Value::new(BigInt::from(12345678901234567890u64));
    let num: BigInt = big_int.get().unwrap();
    assert_eq!(num, BigInt::from(12345678901234567890u64));
    let big_dec = Value::new(BigDecimal::from_str("123.456").unwrap());
    assert_eq!(big_dec.get_bigdecimal().unwrap(), BigDecimal::from_str("123.456").unwrap());
    assert_eq!(big_dec.get_bigdecimal_ref().unwrap(), &BigDecimal::from_str("123.456").unwrap());
    assert_eq!(big_int.get_biginteger_ref().unwrap(), &BigInt::from(12345678901234567890u64));
}

#[test]
fn value_empty_and_type_management() {
    let mut any = Value::Int32(42);
    any.clear();
    assert!(any.is_empty());
    assert_eq!(any.data_type(), DataType::Int32);
    any.set_type(DataType::String);
    assert_eq!(any.data_type(), DataType::String);
    any.set("hello").unwrap();
    assert_eq!(any.get_string().unwrap(), "hello");
}

#[test]
fn value_set_type_keeps_value_of_same_type() {
    let mut v = Value::Int32(7);
    v.set_type(DataType::Int32);
    assert_eq!(v, Value::Int32(7));
    v.set_type(DataType::Bool);
    assert_eq!(v, Value::Empty(DataType::Bool));
}

#[test]
fn value_default_is_empty_string() {
    let v = Value::default();
    assert_eq!(v, Value::Empty(DataType::String));
    assert!(v.is_empty());
}

#[test]
fn value_getter_type_mismatch() {
    let v = Value::Int32(1);
    assert_eq!(
        v.get_string().unwrap_err(),
        ValueError::TypeMismatch { expected: DataType::String, actual: DataType::Int32 }
    );
    assert_eq!(
        v.get::<bool>().unwrap_err(),
        ValueError::TypeMismatch { expected: DataType::Bool, actual: DataType::Int32 }
    );
}

#[test]
fn value_getter_on_empty_is_no_value() {
    let v = Value::Empty(DataType::Int32);
    assert_eq!(v.get_int32().unwrap_err(), ValueError::NoValue);
    assert_eq!(v.get_string().unwrap_err(), ValueError::NoValue);
}

#[test]
fn value_setters_replace_type() {
    let mut v = Value::Bool(true);
    v.set_uint16(9).unwrap();
    assert_eq!(v, Value::UInt16(9));
    v.set(String::from("x")).unwrap();
    assert_eq!(v.data_type(), DataType::String);
    v.set_char('q').unwrap();
    assert_eq!(v.get_char().unwrap(), 'q');
    v.set_float64_bits(1.5f64.to_bits()).unwrap();
    assert_eq!(f64::from_bits(v.get_float64_bits().unwrap()), 1.5);
}

#[test]
fn value_extended_types() {
    let v = Value::new(Duration::from_secs(30));
    let d: Duration = v.get().unwrap();
    assert_eq!(d, Duration::from_secs(30));

    let url = Url::parse("https://example.com").unwrap();
    let v = Value::new(url.clone());
    let got: Url = v.get().unwrap();
    assert_eq!(got, url);
    assert_eq!(v.get_url_ref().unwrap(), &url);

    let mut map = HashMap::new();
    map.insert("host".to_string(), "localhost".to_string());
    let v = Value::new(map.clone());
    let got: HashMap<String, String> = v.get().unwrap();
    assert_eq!(got, map);
    assert_eq!(v.get_string_map_ref().unwrap(), &map);

    let j: serde_json::Value = serde_json::from_str("{\"key\": \"value\"}").unwrap();
    let v = Value::from_json_value(j.clone());
    let got: serde_json::Value = v.get().unwrap();
    assert_eq!(got, j);
    assert_eq!(v.get_json_ref().unwrap(), &j);
}

#[test]
fn value_dates_and_instants() {
    let date = NaiveDate::from_ymd_opt(2024, 1, 2).unwrap();
    let time = NaiveTime::from_hms_opt(3, 4, 5).unwrap();
    let dt = NaiveDateTime::new(date, time);
    assert_eq!(Value::new(date).get_date().unwrap(), date);
    assert_eq!(Value::new(time).get_time().unwrap(), time);
    assert_eq!(Value::new(dt).get_datetime().unwrap(), dt);
    let instant = UtcInstant::from_timestamp(86_400, 5).unwrap();
    let v = Value::new(instant);
    assert_eq!(v.get_instant().unwrap(), instant);
    assert_eq!(v.get_instant().unwrap().timestamp(), 86_400);
    assert_eq!(v.get_instant().unwrap().timestamp_subsec_nanos(), 5);
}

#[test]
fn instant_from_timestamp_out_of_range() {
    assert!(UtcInstant::from_timestamp(i64::MAX, 0).is_none());
    assert!(UtcInstant::from_timestamp(0, 2_000_000_000).is_none());
    assert!(UtcInstant::from_timestamp(0, 0).is_some());
}

#[test]
fn instant_rfc3339_text() {
    let instant = UtcInstant::from_timestamp(0, 0).unwrap();
    assert_eq!(instant.to_rfc3339(), "1970-01-01T00:00:00+00:00");
}

#[test]
fn value_json_source() {
    let j: serde_json::Value = serde_json::from_str("[1, 2]").unwrap();
    assert_eq!(Value::Json(j.clone()).json_source().unwrap(), &j);
    assert_eq!(Value::Empty(DataType::Json).json_source().unwrap_err(), ValueError::NoValue);
    assert_eq!(
        Value::Int8(1).json_source().unwrap_err(),
        ValueError::ConversionFailed { from: DataType::Int8, to: DataType::Json }
    );
}

#[test]
fn error_messages() {
    assert_eq!(ValueError::NoValue.message(), "No value");
    assert_eq!(
        ValueError::TypeMismatch { expected: DataType::Int32, actual: DataType::String }.message(),
        "Type mismatch: expected int32, actual string"
    );
    assert_eq!(
        ValueError::ConversionFailed { from: DataType::Date, to: DataType::Bool }.message(),
        "Type conversion failed: from date to bool"
    );
    assert_eq!(ValueError::ConversionError("bad".to_string()).message(), "Conversion error: bad");
    assert_eq!(
        ValueError::IndexOutOfBounds { index: 10, len: 3 }.message(),
        "Index out of bounds: index 10, length 3"
    );
    assert_eq!(
        ValueError::JsonSerializationError("x".to_string()).message(),
        "JSON serialization error: x"
    );
    assert_eq!(
        ValueError::JsonDeserializationError("y".to_string()).message(),
        "JSON deserialization error: y"
    );
}

#[test]
fn data_type_names() {
    assert_eq!(DataType::Int32.name(), "int32");
    assert_eq!(DataType::StringMap.name(), "stringmap");
    assert_eq!(DataType::UIntSize.name(), "uintsize");
    assert_eq!(DataType::BigDecimal.name(), "bigdecimal");
}
