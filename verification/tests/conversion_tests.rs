use qubit_value::{DataType, UtcInstant, Value, ValueError};

use bigdecimal::BigDecimal;
use chrono::NaiveDate;
use num_bigint::BigInt;
use std::collections::HashMap;
use std::str::FromStr;
use std::time::Duration;
use url::Url;

fn conversion_error(text: &str) -> ValueError {
    ValueError::ConversionError(text.to_string())
}

#[test]
fn to_unsigned_range_checks() {
    assert_eq!(Value::Int16(200).to::<u8>().unwrap(), 200u8);
    assert_eq!(
        Value::Int16(300).to::<u8>().unwrap_err(),
        conversion_error("Cannot convert value to u8: Parameter 'value' must be in range [0, 255] but was: 300")
    );
    assert_eq!(
        Value::Int8(-1).to::<u8>().unwrap_err(),
        conversion_error("Cannot convert value to u8: Parameter 'value' must be in range [0, 127] but was: -1")
    );
    assert_eq!(
        Value::Char('\u{100}').to::<u8>().unwrap_err(),
        conversion_error("Cannot convert value to u8: Parameter 'value' must be in range [0, 255] but was: 256")
    );
    assert_eq!(Value::Char('A').to::<u8>().unwrap(), 65u8);
    assert_eq!(Value::UInt64(70000).to::<u32>().unwrap(), 70000u32);
    assert_eq!(
        Value::UInt64(1 << 40).to::<u16>().unwrap_err(),
        conversion_error("Cannot convert value to u16: Parameter 'value' must be in range [0, 65535] but was: 1099511627776")
    );
    assert_eq!(Value::Int128(5).to::<u128>().unwrap(), 5u128);
    assert_eq!(Value::Bool(true).to::<u64>().unwrap(), 1u64);
    assert_eq!(Value::String("+42".to_string()).to::<u16>().unwrap(), 42u16);
    assert_eq!(
        Value::String("-1".to_string()).to::<u32>().unwrap_err(),
        conversion_error("Cannot convert '-1' to u32")
    );
    assert_eq!(
        Value::Float32(1.0f32.to_bits()).to::<u8>().unwrap_err(),
        ValueError::ConversionFailed { from: DataType::Float32, to: DataType::UInt8 }
    );
}

#[test]
fn to_usize_range_checks() {
    assert_eq!(Value::UInt32(7).to::<usize>().unwrap(), 7usize);
    assert_eq!(Value::UIntSize(9).to::<usize>().unwrap(), 9usize);
    assert_eq!(
        Value::Int8(-1).to::<usize>().unwrap_err(),
        conversion_error("Cannot convert value to usize: Parameter 'value' must be in range [0, 127] but was: -1")
    );
    assert_eq!(Value::String("12".to_string()).to::<usize>().unwrap(), 12usize);
    assert_eq!(Value::IntSize(3).to::<usize>().unwrap(), 3usize);
}

#[test]
fn to_signed_checks() {
    assert_eq!(Value::Int8(-5).to::<i32>().unwrap(), -5);
    assert_eq!(Value::Char('a').to::<i64>().unwrap(), 97);
    assert_eq!(Value::Int64(1 << 40).to::<i32>().unwrap_err(), conversion_error("i64 value out of i32 range"));
    assert_eq!(Value::UInt32(u32::MAX).to::<i32>().unwrap_err(), conversion_error("u32 value out of i32 range"));
    assert_eq!(Value::UInt64(u64::MAX).to::<i64>().unwrap_err(), conversion_error("u64 value out of i64 range"));
    assert_eq!(Value::String("-2147483648".to_string()).to::<i32>().unwrap(), i32::MIN);
    assert_eq!(
        Value::String("2147483648".to_string()).to::<i32>().unwrap_err(),
        conversion_error("Cannot convert '2147483648' to i32")
    );
    assert_eq!(Value::String("abc".to_string()).to::<i32>().unwrap_err(), conversion_error("Cannot convert 'abc' to i32"));
    assert_eq!(Value::String("".to_string()).to::<i64>().unwrap_err(), conversion_error("Cannot convert '' to i64"));
    assert_eq!(
        Value::Date(NaiveDate::from_ymd_opt(2024, 1, 2).unwrap()).to::<i32>().unwrap_err(),
        ValueError::ConversionFailed { from: DataType::Date, to: DataType::Int32 }
    );
    assert_eq!(Value::Empty(DataType::Int32).to::<i32>().unwrap_err(), ValueError::NoValue);
}

#[test]
fn to_small_signed_and_platform_types() {
    assert_eq!(Value::Int32(100).to::<i8>().unwrap(), 100i8);
    assert_eq!(Value::Int32(200).to::<i8>().unwrap_err(), conversion_error("i32 value out of i8 range"));
    assert_eq!(Value::Char('a').to::<i8>().unwrap(), 97i8);
    assert_eq!(Value::Char('\u{e9}').to::<i8>().unwrap_err(), conversion_error("char value out of i8 range"));
    assert_eq!(Value::String("-128".to_string()).to::<i8>().unwrap(), -128i8);
    assert_eq!(Value::String("128".to_string()).to::<i8>().unwrap_err(), conversion_error("Cannot convert '128' to i8"));
    assert_eq!(Value::UInt16(40000).to::<i16>().unwrap_err(), conversion_error("u16 value out of i16 range"));
    assert_eq!(Value::UInt128(u128::MAX).to::<i128>().unwrap_err(), conversion_error("u128 value out of i128 range"));
    assert_eq!(Value::UInt64(u64::MAX).to::<i128>().unwrap(), u64::MAX as i128);
    assert_eq!(Value::Int64(-3).to::<isize>().unwrap(), -3isize);
    assert_eq!(Value::UInt64(u64::MAX).to::<isize>().unwrap_err(), conversion_error("u64 value out of isize range"));
    assert_eq!(Value::IntSize(-7).to::<i16>().unwrap(), -7i16);
}

#[test]
fn float_bits_to_integers_truncate_and_saturate() {
    assert_eq!(Value::Float64(3.9f64.to_bits()).to::<i32>().unwrap(), 3);
    assert_eq!(Value::Float64((-3.9f64).to_bits()).to::<i32>().unwrap(), -3);
    assert_eq!(Value::Float64(1e20f64.to_bits()).to::<i32>().unwrap(), i32::MAX);
    assert_eq!(Value::Float64((-1e20f64).to_bits()).to::<i64>().unwrap(), i64::MIN);
    assert_eq!(Value::Float64(f64::NAN.to_bits()).to::<i32>().unwrap(), 0);
    assert_eq!(Value::Float64(f64::NEG_INFINITY.to_bits()).to::<i32>().unwrap(), i32::MIN);
    assert_eq!(Value::Float64(f64::INFINITY.to_bits()).to::<i64>().unwrap(), i64::MAX);
    assert_eq!(Value::Float32(2.5f32.to_bits()).to::<i64>().unwrap(), 2);
    assert_eq!(Value::Float32(f32::MIN_POSITIVE.to_bits()).to::<i32>().unwrap(), 0);
    assert_eq!(Value::Float64(1e300f64.to_bits()).to::<i128>().unwrap(), i128::MAX);
    assert_eq!(Value::Float64((-1e300f64).to_bits()).to::<i128>().unwrap(), i128::MIN);
    assert_eq!(Value::Float32(300.7f32.to_bits()).to::<i8>().unwrap(), 127i8);
    assert_eq!(Value::Float64(9007199254740993f64.to_bits()).to::<i64>().unwrap(), 9007199254740992);
    assert_eq!(Value::Float64((-0.0f64).to_bits()).to::<i16>().unwrap(), 0i16);
}

#[test]
fn big_numbers_to_integers() {
    assert_eq!(Value::BigInteger(BigInt::from(5)).to::<i32>().unwrap(), 5);
    assert_eq!(
        Value::BigInteger(BigInt::from(1i64 << 40)).to::<i32>().unwrap_err(),
        conversion_error("BigInteger value out of i32 range")
    );
    assert_eq!(Value::BigDecimal(BigDecimal::from_str("12").unwrap()).to::<i64>().unwrap(), 12);
    assert_eq!(
        Value::BigDecimal(BigDecimal::from_str("1e30").unwrap()).to::<i64>().unwrap_err(),
        conversion_error("BigDecimal value cannot be converted to i64")
    );
    assert_eq!(Value::BigInteger(BigInt::from(-7)).to::<i8>().unwrap(), -7i8);
    assert_eq!(
        Value::BigInteger(BigInt::from(1000)).to::<i8>().unwrap_err(),
        conversion_error("BigInteger value out of i8 range")
    );
}

#[test]
fn to_bool_rules() {
    assert!(Value::Int32(5).to::<bool>().unwrap());
    assert!(!Value::UInt8(0).to::<bool>().unwrap());
    assert!(Value::String("true".to_string()).to::<bool>().unwrap());
    assert!(!Value::String("false".to_string()).to::<bool>().unwrap());
    assert_eq!(
        Value::String("yes".to_string()).to::<bool>().unwrap_err(),
        conversion_error("Cannot convert 'yes' to boolean")
    );
    assert_eq!(
        Value::Char('t').to::<bool>().unwrap_err(),
        ValueError::ConversionFailed { from: DataType::Char, to: DataType::Bool }
    );
    assert_eq!(Value::Empty(DataType::Bool).to::<bool>().unwrap_err(), ValueError::NoValue);
}

#[test]
fn to_string_rules() {
    assert_eq!(Value::Bool(true).to::<String>().unwrap(), "true");
    assert_eq!(Value::Char('x').to::<String>().unwrap(), "x");
    assert_eq!(Value::Int8(-5).to::<String>().unwrap(), "-5");
    assert_eq!(Value::Int128(i128::MIN).to::<String>().unwrap(), "-170141183460469231731687303715884105728");
    assert_eq!(Value::UInt128(u128::MAX).to::<String>().unwrap(), "340282366920938463463374607431768211455");
    assert_eq!(Value::UIntSize(0).to::<String>().unwrap(), "0");
    assert_eq!(Value::new(Duration::from_secs(30)).to::<String>().unwrap(), "30000000000ns");
    assert_eq!(
        Value::Instant(UtcInstant::from_timestamp(0, 0).unwrap()).to::<String>().unwrap(),
        "1970-01-01T00:00:00+00:00"
    );
    assert_eq!(Value::Date(NaiveDate::from_ymd_opt(2024, 1, 2).unwrap()).to::<String>().unwrap(), "2024-01-02");
    assert_eq!(Value::BigInteger(BigInt::from(-12)).to::<String>().unwrap(), "-12");
    assert_eq!(Value::BigDecimal(BigDecimal::from_str("1.50").unwrap()).to::<String>().unwrap(), "1.50");
    assert_eq!(
        Value::Url(Url::parse("https://example.com").unwrap()).to::<String>().unwrap(),
        "https://example.com/"
    );
    let j: serde_json::Value = serde_json::from_str("{ \"a\" : 1 }").unwrap();
    assert_eq!(Value::Json(j).to::<String>().unwrap(), "{\"a\":1}");
    let mut map = HashMap::new();
    map.insert("host".to_string(), "localhost".to_string());
    assert_eq!(Value::StringMap(map).to::<String>().unwrap(), "{\"host\":\"localhost\"}");
    assert_eq!(Value::String("same".to_string()).to::<String>().unwrap(), "same");
    assert_eq!(Value::Empty(DataType::String).to::<String>().unwrap_err(), ValueError::NoValue);
}

#[test]
fn to_duration_rules() {
    let v2 = Value::String("30000000000ns".to_string());
    let d2: Duration = v2.to().unwrap();
    assert_eq!(d2, Duration::from_secs(30));
    assert_eq!(Value::String("  5ns\n".to_string()).to::<Duration>().unwrap(), Duration::from_nanos(5));
    assert_eq!(
        Value::String("5".to_string()).to::<Duration>().unwrap_err(),
        conversion_error("Cannot convert '5' to Duration: expected '<nanoseconds>ns'")
    );
    assert_eq!(
        Value::String("xns".to_string()).to::<Duration>().unwrap_err(),
        conversion_error("Cannot convert 'xns' to Duration: invalid nanoseconds value")
    );
    assert_eq!(
        Value::String("18446744073709551616000000000ns".to_string()).to::<Duration>().unwrap_err(),
        conversion_error("Cannot convert '18446744073709551616000000000ns' to Duration: value out of range")
    );
    assert_eq!(
        Value::String("18446744073709551615999999999ns".to_string()).to::<Duration>().unwrap(),
        Duration::new(u64::MAX, 999_999_999)
    );
    assert_eq!(Value::Duration(Duration::from_millis(3)).to::<Duration>().unwrap(), Duration::from_millis(3));
    assert_eq!(
        Value::Int32(1).to::<Duration>().unwrap_err(),
        ValueError::ConversionFailed { from: DataType::Int32, to: DataType::Duration }
    );
}

#[test]
fn parse_duration_string_directly() {
    assert_eq!(qubit_value::value_convert::parse_duration_string("7ns").unwrap(), Duration::from_nanos(7));
    assert_eq!(
        qubit_value::value_convert::parse_duration_string("1000000001ns").unwrap(),
        Duration::new(1, 1)
    );
}

#[test]
fn to_url_rules() {
    let url = Url::parse("https://example.com").unwrap();
    let v2 = Value::String("https://example.com".to_string());
    let got2: Url = v2.to().unwrap();
    assert_eq!(got2, url);
    assert_eq!(got2.as_str(), "https://example.com/");
    assert_eq!(
        Value::String("not a url".to_string()).to::<Url>().unwrap_err(),
        conversion_error("Cannot convert 'not a url' to Url: relative URL without a base")
    );
    assert_eq!(Value::Url(url.clone()).to::<Url>().unwrap(), url);
}

#[test]
fn to_json_rules() {
    let got: serde_json::Value = Value::String("{\"a\": [1, 2]}".to_string()).to().unwrap();
    assert_eq!(got, serde_json::from_str::<serde_json::Value>("{\"a\":[1,2]}").unwrap());
    let err = Value::String("{".to_string()).to::<serde_json::Value>().unwrap_err();
    assert_eq!(
        err,
        ValueError::JsonDeserializationError("EOF while parsing an object at line 1 column 1".to_string())
    );
    let mut map = HashMap::new();
    map.insert("k".to_string(), "v".to_string());
    let as_json: serde_json::Value = Value::StringMap(map).to().unwrap();
    assert_eq!(as_json, serde_json::from_str::<serde_json::Value>("{\"k\":\"v\"}").unwrap());
    assert_eq!(
        Value::Bool(true).to::<serde_json::Value>().unwrap_err(),
        ValueError::ConversionFailed { from: DataType::Bool, to: DataType::Json }
    );
}

#[test]
fn strict_targets_accept_only_their_type() {
    assert_eq!(Value::Char('a').to::<char>().unwrap(), 'a');
    assert_eq!(
        Value::Int32(97).to::<char>().unwrap_err(),
        ValueError::ConversionFailed { from: DataType::Int32, to: DataType::Char }
    );
    assert_eq!(
        Value::Bool(true).to::<NaiveDate>().unwrap_err(),
        ValueError::ConversionFailed { from: DataType::Bool, to: DataType::Date }
    );
    let date = NaiveDate::from_ymd_opt(2024, 2, 29).unwrap();
    assert_eq!(Value::Date(date).to::<NaiveDate>().unwrap(), date);
    assert_eq!(Value::Empty(DataType::Date).to::<NaiveDate>().unwrap_err(), ValueError::NoValue);
    assert_eq!(
        Value::String("2024-02-29".to_string()).to::<NaiveDate>().unwrap_err(),
        ValueError::ConversionFailed { from: DataType::String, to: DataType::Date }
    );
    assert_eq!(Value::BigInteger(BigInt::from(3)).to::<BigInt>().unwrap(), BigInt::from(3));
    let instant = UtcInstant::from_timestamp(10, 0).unwrap();
    assert_eq!(Value::Instant(instant).to::<UtcInstant>().unwrap(), instant);
}

#[test]
fn big_numbers_to_every_signed_width() {
    assert_eq!(Value::BigInteger(BigInt::from(-300)).to::<i16>().unwrap(), -300i16);
    assert_eq!(
        Value::BigInteger(BigInt::from(40000)).to::<i16>().unwrap_err(),
        conversion_error("BigInteger value out of i16 range")
    );
    assert_eq!(Value::BigInteger(BigInt::from(i64::MAX) * 4).to::<i128>().unwrap(), (i64::MAX as i128) * 4);
    assert_eq!(Value::BigInteger(BigInt::from(-9)).to::<isize>().unwrap(), -9isize);
    assert_eq!(Value::BigDecimal(BigDecimal::from_str("-5").unwrap()).to::<i8>().unwrap(), -5i8);
    assert_eq!(Value::BigDecimal(BigDecimal::from_str("77").unwrap()).to::<i16>().unwrap(), 77i16);
    assert_eq!(Value::BigDecimal(BigDecimal::from_str("123").unwrap()).to::<i32>().unwrap(), 123);
    assert_eq!(Value::BigDecimal(BigDecimal::from_str("-42").unwrap()).to::<i128>().unwrap(), -42i128);
    assert_eq!(Value::BigDecimal(BigDecimal::from_str("8").unwrap()).to::<isize>().unwrap(), 8isize);
    assert_eq!(
        Value::BigDecimal(BigDecimal::from_str("1000").unwrap()).to::<i8>().unwrap_err(),
        conversion_error("BigDecimal value cannot be converted to i8")
    );
}

#[test]
fn time_values_to_text() {
    let date = NaiveDate::from_ymd_opt(2024, 1, 2).unwrap();
    let time = chrono::NaiveTime::from_hms_opt(3, 4, 5).unwrap();
    assert_eq!(Value::Time(time).to::<String>().unwrap(), "03:04:05");
    assert_eq!(
        Value::DateTime(chrono::NaiveDateTime::new(date, time)).to::<String>().unwrap(),
        "2024-01-02 03:04:05"
    );
    assert_eq!(
        Value::Instant(UtcInstant::from_timestamp(1_700_000_000, 500_000_000).unwrap()).to::<String>().unwrap(),
        "2023-11-14T22:13:20.500+00:00"
    );
}
