//! Properties of the value containers that relate several operations.
//!
//! Each law is stated over the views and spec functions that the
//! operations' own contracts use.
use vstd::prelude::*;

use bigdecimal::BigDecimal;
use chrono::{NaiveDate, NaiveDateTime, NaiveTime};
use num_bigint::BigInt;
use serde_json::Value as JsonValue;
use std::time::Duration;
use url::Url;

use crate::data_type::DataType;
use crate::error::{ValueError, ValueErrorView};
use crate::instant::UtcInstant;
use crate::multi_values::MultiValuesView;
use crate::named::{NamedMultiValuesView, NamedValueView};
use crate::outside::{
    duration_is_canonical, duration_nanos, is_white_space, trim_end_spec, trim_spec, trim_start_spec,
};
use crate::text::{
    decimal_text, parse_unsigned_spec, lemma_decimal_text_value, lemma_parse_signed_decimal,
    lemma_parse_unsigned_decimal, signed_decimal_text,
};
use crate::value::ValueView;
use crate::value_convert::{
    duration_from_text, duration_nanos_from_text, to_bool_spec, to_text_spec, to_i8_spec, to_i16_spec, to_i32_spec, to_i64_spec, to_i128_spec, to_isize_spec, to_u8_spec, to_u16_spec, to_u32_spec, to_u64_spec, to_u128_spec, to_usize_spec,
};

verus! {

// ---------------------------------------------------------------------------
// Single values
// ---------------------------------------------------------------------------

/// A value read back with the getter of its own type gives the item that was
/// stored; the getter of any other type reports `NoValue` for an empty value
/// and a mismatch naming both types otherwise.
pub proof fn law_value_get_after_set(w: ValueView)
    ensures
        forall|x: bool| #[trigger] ValueView::Bool(x).typed_get(DataType::Bool, ValueView::Bool(x).as_bool())
            == Ok::<bool, ValueError>(x),
        w.data_type() != DataType::Bool ==> w.typed_get(DataType::Bool, w.as_bool()) == (if w is Empty {
            Err::<bool, ValueError>(ValueError::NoValue)
        } else {
            Err::<bool, ValueError>(ValueError::TypeMismatch { expected: DataType::Bool, actual: w.data_type() })
        }),
        forall|x: char| #[trigger] ValueView::Char(x).typed_get(DataType::Char, ValueView::Char(x).as_char())
            == Ok::<char, ValueError>(x),
        w.data_type() != DataType::Char ==> w.typed_get(DataType::Char, w.as_char()) == (if w is Empty {
            Err::<char, ValueError>(ValueError::NoValue)
        } else {
            Err::<char, ValueError>(ValueError::TypeMismatch { expected: DataType::Char, actual: w.data_type() })
        }),
        forall|x: i8| #[trigger] ValueView::Int8(x).typed_get(DataType::Int8, ValueView::Int8(x).as_int8())
            == Ok::<i8, ValueError>(x),
        w.data_type() != DataType::Int8 ==> w.typed_get(DataType::Int8, w.as_int8()) == (if w is Empty {
            Err::<i8, ValueError>(ValueError::NoValue)
        } else {
            Err::<i8, ValueError>(ValueError::TypeMismatch { expected: DataType::Int8, actual: w.data_type() })
        }),
        forall|x: i16| #[trigger] ValueView::Int16(x).typed_get(DataType::Int16, ValueView::Int16(x).as_int16())
            == Ok::<i16, ValueError>(x),
        w.data_type() != DataType::Int16 ==> w.typed_get(DataType::Int16, w.as_int16()) == (if w is Empty {
            Err::<i16, ValueError>(ValueError::NoValue)
        } else {
            Err::<i16, ValueError>(ValueError::TypeMismatch { expected: DataType::Int16, actual: w.data_type() })
        }),
        forall|x: i32| #[trigger] ValueView::Int32(x).typed_get(DataType::Int32, ValueView::Int32(x).as_int32())
            == Ok::<i32, ValueError>(x),
        w.data_type() != DataType::Int32 ==> w.typed_get(DataType::Int32, w.as_int32()) == (if w is Empty {
            Err::<i32, ValueError>(ValueError::NoValue)
        } else {
            Err::<i32, ValueError>(ValueError::TypeMismatch { expected: DataType::Int32, actual: w.data_type() })
        }),
        forall|x: i64| #[trigger] ValueView::Int64(x).typed_get(DataType::Int64, ValueView::Int64(x).as_int64())
            == Ok::<i64, ValueError>(x),
        w.data_type() != DataType::Int64 ==> w.typed_get(DataType::Int64, w.as_int64()) == (if w is Empty {
            Err::<i64, ValueError>(ValueError::NoValue)
        } else {
            Err::<i64, ValueError>(ValueError::TypeMismatch { expected: DataType::Int64, actual: w.data_type() })
        }),
        forall|x: i128| #[trigger] ValueView::Int128(x).typed_get(DataType::Int128, ValueView::Int128(x).as_int128())
            == Ok::<i128, ValueError>(x),
        w.data_type() != DataType::Int128 ==> w.typed_get(DataType::Int128, w.as_int128()) == (if w is Empty {
            Err::<i128, ValueError>(ValueError::NoValue)
        } else {
            Err::<i128, ValueError>(ValueError::TypeMismatch { expected: DataType::Int128, actual: w.data_type() })
        }),
        forall|x: u8| #[trigger] ValueView::UInt8(x).typed_get(DataType::UInt8, ValueView::UInt8(x).as_uint8())
            == Ok::<u8, ValueError>(x),
        w.data_type() != DataType::UInt8 ==> w.typed_get(DataType::UInt8, w.as_uint8()) == (if w is Empty {
            Err::<u8, ValueError>(ValueError::NoValue)
        } else {
            Err::<u8, ValueError>(ValueError::TypeMismatch { expected: DataType::UInt8, actual: w.data_type() })
        }),
        forall|x: u16| #[trigger] ValueView::UInt16(x).typed_get(DataType::UInt16, ValueView::UInt16(x).as_uint16())
            == Ok::<u16, ValueError>(x),
        w.data_type() != DataType::UInt16 ==> w.typed_get(DataType::UInt16, w.as_uint16()) == (if w is Empty {
            Err::<u16, ValueError>(ValueError::NoValue)
        } else {
            Err::<u16, ValueError>(ValueError::TypeMismatch { expected: DataType::UInt16, actual: w.data_type() })
        }),
        forall|x: u32| #[trigger] ValueView::UInt32(x).typed_get(DataType::UInt32, ValueView::UInt32(x).as_uint32())
            == Ok::<u32, ValueError>(x),
        w.data_type() != DataType::UInt32 ==> w.typed_get(DataType::UInt32, w.as_uint32()) == (if w is Empty {
            Err::<u32, ValueError>(ValueError::NoValue)
        } else {
            Err::<u32, ValueError>(ValueError::TypeMismatch { expected: DataType::UInt32, actual: w.data_type() })
        }),
        forall|x: u64| #[trigger] ValueView::UInt64(x).typed_get(DataType::UInt64, ValueView::UInt64(x).as_uint64())
            == Ok::<u64, ValueError>(x),
        w.data_type() != DataType::UInt64 ==> w.typed_get(DataType::UInt64, w.as_uint64()) == (if w is Empty {
            Err::<u64, ValueError>(ValueError::NoValue)
        } else {
            Err::<u64, ValueError>(ValueError::TypeMismatch { expected: DataType::UInt64, actual: w.data_type() })
        }),
        forall|x: u128| #[trigger] ValueView::UInt128(x).typed_get(DataType::UInt128, ValueView::UInt128(x).as_uint128())
            == Ok::<u128, ValueError>(x),
        w.data_type() != DataType::UInt128 ==> w.typed_get(DataType::UInt128, w.as_uint128()) == (if w is Empty {
            Err::<u128, ValueError>(ValueError::NoValue)
        } else {
            Err::<u128, ValueError>(ValueError::TypeMismatch { expected: DataType::UInt128, actual: w.data_type() })
        }),
        forall|x: isize| #[trigger] ValueView::IntSize(x).typed_get(DataType::IntSize, ValueView::IntSize(x).as_intsize())
            == Ok::<isize, ValueError>(x),
        w.data_type() != DataType::IntSize ==> w.typed_get(DataType::IntSize, w.as_intsize()) == (if w is Empty {
            Err::<isize, ValueError>(ValueError::NoValue)
        } else {
            Err::<isize, ValueError>(ValueError::TypeMismatch { expected: DataType::IntSize, actual: w.data_type() })
        }),
        forall|x: usize| #[trigger] ValueView::UIntSize(x).typed_get(DataType::UIntSize, ValueView::UIntSize(x).as_uintsize())
            == Ok::<usize, ValueError>(x),
        w.data_type() != DataType::UIntSize ==> w.typed_get(DataType::UIntSize, w.as_uintsize()) == (if w is Empty {
            Err::<usize, ValueError>(ValueError::NoValue)
        } else {
            Err::<usize, ValueError>(ValueError::TypeMismatch { expected: DataType::UIntSize, actual: w.data_type() })
        }),
        forall|x: u32| #[trigger] ValueView::Float32(x).typed_get(DataType::Float32, ValueView::Float32(x).as_float32_bits())
            == Ok::<u32, ValueError>(x),
        w.data_type() != DataType::Float32 ==> w.typed_get(DataType::Float32, w.as_float32_bits()) == (if w is Empty {
            Err::<u32, ValueError>(ValueError::NoValue)
        } else {
            Err::<u32, ValueError>(ValueError::TypeMismatch { expected: DataType::Float32, actual: w.data_type() })
        }),
        forall|x: u64| #[trigger] ValueView::Float64(x).typed_get(DataType::Float64, ValueView::Float64(x).as_float64_bits())
            == Ok::<u64, ValueError>(x),
        w.data_type() != DataType::Float64 ==> w.typed_get(DataType::Float64, w.as_float64_bits()) == (if w is Empty {
            Err::<u64, ValueError>(ValueError::NoValue)
        } else {
            Err::<u64, ValueError>(ValueError::TypeMismatch { expected: DataType::Float64, actual: w.data_type() })
        }),
        forall|x: BigInt| #[trigger] ValueView::BigInteger(x).typed_get(DataType::BigInteger, ValueView::BigInteger(x).as_biginteger())
            == Ok::<BigInt, ValueError>(x),
        w.data_type() != DataType::BigInteger ==> w.typed_get(DataType::BigInteger, w.as_biginteger()) == (if w is Empty {
            Err::<BigInt, ValueError>(ValueError::NoValue)
        } else {
            Err::<BigInt, ValueError>(ValueError::TypeMismatch { expected: DataType::BigInteger, actual: w.data_type() })
        }),
        forall|x: BigDecimal| #[trigger] ValueView::BigDecimal(x).typed_get(DataType::BigDecimal, ValueView::BigDecimal(x).as_bigdecimal())
            == Ok::<BigDecimal, ValueError>(x),
        w.data_type() != DataType::BigDecimal ==> w.typed_get(DataType::BigDecimal, w.as_bigdecimal()) == (if w is Empty {
            Err::<BigDecimal, ValueError>(ValueError::NoValue)
        } else {
            Err::<BigDecimal, ValueError>(ValueError::TypeMismatch { expected: DataType::BigDecimal, actual: w.data_type() })
        }),
        forall|x: Seq<char>| #[trigger] ValueView::String(x).typed_get(DataType::String, ValueView::String(x).as_string())
            == Ok::<Seq<char>, ValueError>(x),
        w.data_type() != DataType::String ==> w.typed_get(DataType::String, w.as_string()) == (if w is Empty {
            Err::<Seq<char>, ValueError>(ValueError::NoValue)
        } else {
            Err::<Seq<char>, ValueError>(ValueError::TypeMismatch { expected: DataType::String, actual: w.data_type() })
        }),
        forall|x: NaiveDate| #[trigger] ValueView::Date(x).typed_get(DataType::Date, ValueView::Date(x).as_date())
            == Ok::<NaiveDate, ValueError>(x),
        w.data_type() != DataType::Date ==> w.typed_get(DataType::Date, w.as_date()) == (if w is Empty {
            Err::<NaiveDate, ValueError>(ValueError::NoValue)
        } else {
            Err::<NaiveDate, ValueError>(ValueError::TypeMismatch { expected: DataType::Date, actual: w.data_type() })
        }),
        forall|x: NaiveTime| #[trigger] ValueView::Time(x).typed_get(DataType::Time, ValueView::Time(x).as_time())
            == Ok::<NaiveTime, ValueError>(x),
        w.data_type() != DataType::Time ==> w.typed_get(DataType::Time, w.as_time()) == (if w is Empty {
            Err::<NaiveTime, ValueError>(ValueError::NoValue)
        } else {
            Err::<NaiveTime, ValueError>(ValueError::TypeMismatch { expected: DataType::Time, actual: w.data_type() })
        }),
        forall|x: NaiveDateTime| #[trigger] ValueView::DateTime(x).typed_get(DataType::DateTime, ValueView::DateTime(x).as_datetime())
            == Ok::<NaiveDateTime, ValueError>(x),
        w.data_type() != DataType::DateTime ==> w.typed_get(DataType::DateTime, w.as_datetime()) == (if w is Empty {
            Err::<NaiveDateTime, ValueError>(ValueError::NoValue)
        } else {
            Err::<NaiveDateTime, ValueError>(ValueError::TypeMismatch { expected: DataType::DateTime, actual: w.data_type() })
        }),
        forall|x: UtcInstant| #[trigger] ValueView::Instant(x).typed_get(DataType::Instant, ValueView::Instant(x).as_instant())
            == Ok::<UtcInstant, ValueError>(x),
        w.data_type() != DataType::Instant ==> w.typed_get(DataType::Instant, w.as_instant()) == (if w is Empty {
            Err::<UtcInstant, ValueError>(ValueError::NoValue)
        } else {
            Err::<UtcInstant, ValueError>(ValueError::TypeMismatch { expected: DataType::Instant, actual: w.data_type() })
        }),
        forall|x: Duration| #[trigger] ValueView::Duration(x).typed_get(DataType::Duration, ValueView::Duration(x).as_duration())
            == Ok::<Duration, ValueError>(x),
        w.data_type() != DataType::Duration ==> w.typed_get(DataType::Duration, w.as_duration()) == (if w is Empty {
            Err::<Duration, ValueError>(ValueError::NoValue)
        } else {
            Err::<Duration, ValueError>(ValueError::TypeMismatch { expected: DataType::Duration, actual: w.data_type() })
        }),
        forall|x: Url| #[trigger] ValueView::Url(x).typed_get(DataType::Url, ValueView::Url(x).as_url())
            == Ok::<Url, ValueError>(x),
        w.data_type() != DataType::Url ==> w.typed_get(DataType::Url, w.as_url()) == (if w is Empty {
            Err::<Url, ValueError>(ValueError::NoValue)
        } else {
            Err::<Url, ValueError>(ValueError::TypeMismatch { expected: DataType::Url, actual: w.data_type() })
        }),
        forall|x: Map<String, String>| #[trigger] ValueView::StringMap(x).typed_get(DataType::StringMap, ValueView::StringMap(x).as_string_map())
            == Ok::<Map<String, String>, ValueError>(x),
        w.data_type() != DataType::StringMap ==> w.typed_get(DataType::StringMap, w.as_string_map()) == (if w is Empty {
            Err::<Map<String, String>, ValueError>(ValueError::NoValue)
        } else {
            Err::<Map<String, String>, ValueError>(ValueError::TypeMismatch { expected: DataType::StringMap, actual: w.data_type() })
        }),
        forall|x: JsonValue| #[trigger] ValueView::Json(x).typed_get(DataType::Json, ValueView::Json(x).as_json())
            == Ok::<JsonValue, ValueError>(x),
        w.data_type() != DataType::Json ==> w.typed_get(DataType::Json, w.as_json()) == (if w is Empty {
            Err::<JsonValue, ValueError>(ValueError::NoValue)
        } else {
            Err::<JsonValue, ValueError>(ValueError::TypeMismatch { expected: DataType::Json, actual: w.data_type() })
        }),
{
}

/// Clearing a value keeps its data type and leaves no item.
pub proof fn law_value_clear_keeps_type(w: ValueView)
    ensures
        ValueView::Empty(w.data_type()).data_type() == w.data_type(),
        ValueView::Empty(w.data_type()) is Empty,
{
}

/// Converting an integer to an integer type never changes the number: the
/// conversion gives the same number or fails.
pub proof fn law_integer_conversion_keeps_number()
    ensures
        forall|x: i8| (#[trigger] to_i8_spec(ValueView::Int8(x))) is Ok ==> to_i8_spec(ValueView::Int8(x))->Ok_0 == x,
        forall|x: i16| (#[trigger] to_i8_spec(ValueView::Int16(x))) is Ok ==> to_i8_spec(ValueView::Int16(x))->Ok_0 == x,
        forall|x: i32| (#[trigger] to_i8_spec(ValueView::Int32(x))) is Ok ==> to_i8_spec(ValueView::Int32(x))->Ok_0 == x,
        forall|x: i64| (#[trigger] to_i8_spec(ValueView::Int64(x))) is Ok ==> to_i8_spec(ValueView::Int64(x))->Ok_0 == x,
        forall|x: i128| (#[trigger] to_i8_spec(ValueView::Int128(x))) is Ok ==> to_i8_spec(ValueView::Int128(x))->Ok_0 == x,
        forall|x: isize| (#[trigger] to_i8_spec(ValueView::IntSize(x))) is Ok ==> to_i8_spec(ValueView::IntSize(x))->Ok_0 == x,
        forall|x: u8| (#[trigger] to_i8_spec(ValueView::UInt8(x))) is Ok ==> to_i8_spec(ValueView::UInt8(x))->Ok_0 == x,
        forall|x: u16| (#[trigger] to_i8_spec(ValueView::UInt16(x))) is Ok ==> to_i8_spec(ValueView::UInt16(x))->Ok_0 == x,
        forall|x: u32| (#[trigger] to_i8_spec(ValueView::UInt32(x))) is Ok ==> to_i8_spec(ValueView::UInt32(x))->Ok_0 == x,
        forall|x: u64| (#[trigger] to_i8_spec(ValueView::UInt64(x))) is Ok ==> to_i8_spec(ValueView::UInt64(x))->Ok_0 == x,
        forall|x: u128| (#[trigger] to_i8_spec(ValueView::UInt128(x))) is Ok ==> to_i8_spec(ValueView::UInt128(x))->Ok_0 == x,
        forall|x: usize| (#[trigger] to_i8_spec(ValueView::UIntSize(x))) is Ok ==> to_i8_spec(ValueView::UIntSize(x))->Ok_0 == x,
        forall|x: i8| (#[trigger] to_i16_spec(ValueView::Int8(x))) is Ok ==> to_i16_spec(ValueView::Int8(x))->Ok_0 == x,
        forall|x: i16| (#[trigger] to_i16_spec(ValueView::Int16(x))) is Ok ==> to_i16_spec(ValueView::Int16(x))->Ok_0 == x,
        forall|x: i32| (#[trigger] to_i16_spec(ValueView::Int32(x))) is Ok ==> to_i16_spec(ValueView::Int32(x))->Ok_0 == x,
        forall|x: i64| (#[trigger] to_i16_spec(ValueView::Int64(x))) is Ok ==> to_i16_spec(ValueView::Int64(x))->Ok_0 == x,
        forall|x: i128| (#[trigger] to_i16_spec(ValueView::Int128(x))) is Ok ==> to_i16_spec(ValueView::Int128(x))->Ok_0 == x,
        forall|x: isize| (#[trigger] to_i16_spec(ValueView::IntSize(x))) is Ok ==> to_i16_spec(ValueView::IntSize(x))->Ok_0 == x,
        forall|x: u8| (#[trigger] to_i16_spec(ValueView::UInt8(x))) is Ok ==> to_i16_spec(ValueView::UInt8(x))->Ok_0 == x,
        forall|x: u16| (#[trigger] to_i16_spec(ValueView::UInt16(x))) is Ok ==> to_i16_spec(ValueView::UInt16(x))->Ok_0 == x,
        forall|x: u32| (#[trigger] to_i16_spec(ValueView::UInt32(x))) is Ok ==> to_i16_spec(ValueView::UInt32(x))->Ok_0 == x,
        forall|x: u64| (#[trigger] to_i16_spec(ValueView::UInt64(x))) is Ok ==> to_i16_spec(ValueView::UInt64(x))->Ok_0 == x,
        forall|x: u128| (#[trigger] to_i16_spec(ValueView::UInt128(x))) is Ok ==> to_i16_spec(ValueView::UInt128(x))->Ok_0 == x,
        forall|x: usize| (#[trigger] to_i16_spec(ValueView::UIntSize(x))) is Ok ==> to_i16_spec(ValueView::UIntSize(x))->Ok_0 == x,
        forall|x: i8| (#[trigger] to_i32_spec(ValueView::Int8(x))) is Ok ==> to_i32_spec(ValueView::Int8(x))->Ok_0 == x,
        forall|x: i16| (#[trigger] to_i32_spec(ValueView::Int16(x))) is Ok ==> to_i32_spec(ValueView::Int16(x))->Ok_0 == x,
        forall|x: i32| (#[trigger] to_i32_spec(ValueView::Int32(x))) is Ok ==> to_i32_spec(ValueView::Int32(x))->Ok_0 == x,
        forall|x: i64| (#[trigger] to_i32_spec(ValueView::Int64(x))) is Ok ==> to_i32_spec(ValueView::Int64(x))->Ok_0 == x,
        forall|x: i128| (#[trigger] to_i32_spec(ValueView::Int128(x))) is Ok ==> to_i32_spec(ValueView::Int128(x))->Ok_0 == x,
        forall|x: isize| (#[trigger] to_i32_spec(ValueView::IntSize(x))) is Ok ==> to_i32_spec(ValueView::IntSize(x))->Ok_0 == x,
        forall|x: u8| (#[trigger] to_i32_spec(ValueView::UInt8(x))) is Ok ==> to_i32_spec(ValueView::UInt8(x))->Ok_0 == x,
        forall|x: u16| (#[trigger] to_i32_spec(ValueView::UInt16(x))) is Ok ==> to_i32_spec(ValueView::UInt16(x))->Ok_0 == x,
        forall|x: u32| (#[trigger] to_i32_spec(ValueView::UInt32(x))) is Ok ==> to_i32_spec(ValueView::UInt32(x))->Ok_0 == x,
        forall|x: u64| (#[trigger] to_i32_spec(ValueView::UInt64(x))) is Ok ==> to_i32_spec(ValueView::UInt64(x))->Ok_0 == x,
        forall|x: u128| (#[trigger] to_i32_spec(ValueView::UInt128(x))) is Ok ==> to_i32_spec(ValueView::UInt128(x))->Ok_0 == x,
        forall|x: usize| (#[trigger] to_i32_spec(ValueView::UIntSize(x))) is Ok ==> to_i32_spec(ValueView::UIntSize(x))->Ok_0 == x,
        forall|x: i8| (#[trigger] to_i64_spec(ValueView::Int8(x))) is Ok ==> to_i64_spec(ValueView::Int8(x))->Ok_0 == x,
        forall|x: i16| (#[trigger] to_i64_spec(ValueView::Int16(x))) is Ok ==> to_i64_spec(ValueView::Int16(x))->Ok_0 == x,
        forall|x: i32| (#[trigger] to_i64_spec(ValueView::Int32(x))) is Ok ==> to_i64_spec(ValueView::Int32(x))->Ok_0 == x,
        forall|x: i64| (#[trigger] to_i64_spec(ValueView::Int64(x))) is Ok ==> to_i64_spec(ValueView::Int64(x))->Ok_0 == x,
        forall|x: i128| (#[trigger] to_i64_spec(ValueView::Int128(x))) is Ok ==> to_i64_spec(ValueView::Int128(x))->Ok_0 == x,
        forall|x: isize| (#[trigger] to_i64_spec(ValueView::IntSize(x))) is Ok ==> to_i64_spec(ValueView::IntSize(x))->Ok_0 == x,
        forall|x: u8| (#[trigger] to_i64_spec(ValueView::UInt8(x))) is Ok ==> to_i64_spec(ValueView::UInt8(x))->Ok_0 == x,
        forall|x: u16| (#[trigger] to_i64_spec(ValueView::UInt16(x))) is Ok ==> to_i64_spec(ValueView::UInt16(x))->Ok_0 == x,
        forall|x: u32| (#[trigger] to_i64_spec(ValueView::UInt32(x))) is Ok ==> to_i64_spec(ValueView::UInt32(x))->Ok_0 == x,
        forall|x: u64| (#[trigger] to_i64_spec(ValueView::UInt64(x))) is Ok ==> to_i64_spec(ValueView::UInt64(x))->Ok_0 == x,
        forall|x: u128| (#[trigger] to_i64_spec(ValueView::UInt128(x))) is Ok ==> to_i64_spec(ValueView::UInt128(x))->Ok_0 == x,
        forall|x: usize| (#[trigger] to_i64_spec(ValueView::UIntSize(x))) is Ok ==> to_i64_spec(ValueView::UIntSize(x))->Ok_0 == x,
        forall|x: i8| (#[trigger] to_i128_spec(ValueView::Int8(x))) is Ok ==> to_i128_spec(ValueView::Int8(x))->Ok_0 == x,
        forall|x: i16| (#[trigger] to_i128_spec(ValueView::Int16(x))) is Ok ==> to_i128_spec(ValueView::Int16(x))->Ok_0 == x,
        forall|x: i32| (#[trigger] to_i128_spec(ValueView::Int32(x))) is Ok ==> to_i128_spec(ValueView::Int32(x))->Ok_0 == x,
        forall|x: i64| (#[trigger] to_i128_spec(ValueView::Int64(x))) is Ok ==> to_i128_spec(ValueView::Int64(x))->Ok_0 == x,
        forall|x: i128| (#[trigger] to_i128_spec(ValueView::Int128(x))) is Ok ==> to_i128_spec(ValueView::Int128(x))->Ok_0 == x,
        forall|x: isize| (#[trigger] to_i128_spec(ValueView::IntSize(x))) is Ok ==> to_i128_spec(ValueView::IntSize(x))->Ok_0 == x,
        forall|x: u8| (#[trigger] to_i128_spec(ValueView::UInt8(x))) is Ok ==> to_i128_spec(ValueView::UInt8(x))->Ok_0 == x,
        forall|x: u16| (#[trigger] to_i128_spec(ValueView::UInt16(x))) is Ok ==> to_i128_spec(ValueView::UInt16(x))->Ok_0 == x,
        forall|x: u32| (#[trigger] to_i128_spec(ValueView::UInt32(x))) is Ok ==> to_i128_spec(ValueView::UInt32(x))->Ok_0 == x,
        forall|x: u64| (#[trigger] to_i128_spec(ValueView::UInt64(x))) is Ok ==> to_i128_spec(ValueView::UInt64(x))->Ok_0 == x,
        forall|x: u128| (#[trigger] to_i128_spec(ValueView::UInt128(x))) is Ok ==> to_i128_spec(ValueView::UInt128(x))->Ok_0 == x,
        forall|x: usize| (#[trigger] to_i128_spec(ValueView::UIntSize(x))) is Ok ==> to_i128_spec(ValueView::UIntSize(x))->Ok_0 == x,
        forall|x: i8| (#[trigger] to_isize_spec(ValueView::Int8(x))) is Ok ==> to_isize_spec(ValueView::Int8(x))->Ok_0 == x,
        forall|x: i16| (#[trigger] to_isize_spec(ValueView::Int16(x))) is Ok ==> to_isize_spec(ValueView::Int16(x))->Ok_0 == x,
        forall|x: i32| (#[trigger] to_isize_spec(ValueView::Int32(x))) is Ok ==> to_isize_spec(ValueView::Int32(x))->Ok_0 == x,
        forall|x: i64| (#[trigger] to_isize_spec(ValueView::Int64(x))) is Ok ==> to_isize_spec(ValueView::Int64(x))->Ok_0 == x,
        forall|x: i128| (#[trigger] to_isize_spec(ValueView::Int128(x))) is Ok ==> to_isize_spec(ValueView::Int128(x))->Ok_0 == x,
        forall|x: isize| (#[trigger] to_isize_spec(ValueView::IntSize(x))) is Ok ==> to_isize_spec(ValueView::IntSize(x))->Ok_0 == x,
        forall|x: u8| (#[trigger] to_isize_spec(ValueView::UInt8(x))) is Ok ==> to_isize_spec(ValueView::UInt8(x))->Ok_0 == x,
        forall|x: u16| (#[trigger] to_isize_spec(ValueView::UInt16(x))) is Ok ==> to_isize_spec(ValueView::UInt16(x))->Ok_0 == x,
        forall|x: u32| (#[trigger] to_isize_spec(ValueView::UInt32(x))) is Ok ==> to_isize_spec(ValueView::UInt32(x))->Ok_0 == x,
        forall|x: u64| (#[trigger] to_isize_spec(ValueView::UInt64(x))) is Ok ==> to_isize_spec(ValueView::UInt64(x))->Ok_0 == x,
        forall|x: u128| (#[trigger] to_isize_spec(ValueView::UInt128(x))) is Ok ==> to_isize_spec(ValueView::UInt128(x))->Ok_0 == x,
        forall|x: usize| (#[trigger] to_isize_spec(ValueView::UIntSize(x))) is Ok ==> to_isize_spec(ValueView::UIntSize(x))->Ok_0 == x,
        forall|x: i8| (#[trigger] to_u8_spec(ValueView::Int8(x))) is Ok ==> to_u8_spec(ValueView::Int8(x))->Ok_0 == x,
        forall|x: i16| (#[trigger] to_u8_spec(ValueView::Int16(x))) is Ok ==> to_u8_spec(ValueView::Int16(x))->Ok_0 == x,
        forall|x: i32| (#[trigger] to_u8_spec(ValueView::Int32(x))) is Ok ==> to_u8_spec(ValueView::Int32(x))->Ok_0 == x,
        forall|x: i64| (#[trigger] to_u8_spec(ValueView::Int64(x))) is Ok ==> to_u8_spec(ValueView::Int64(x))->Ok_0 == x,
        forall|x: i128| (#[trigger] to_u8_spec(ValueView::Int128(x))) is Ok ==> to_u8_spec(ValueView::Int128(x))->Ok_0 == x,
        forall|x: isize| (#[trigger] to_u8_spec(ValueView::IntSize(x))) is Ok ==> to_u8_spec(ValueView::IntSize(x))->Ok_0 == x,
        forall|x: u8| (#[trigger] to_u8_spec(ValueView::UInt8(x))) is Ok ==> to_u8_spec(ValueView::UInt8(x))->Ok_0 == x,
        forall|x: u16| (#[trigger] to_u8_spec(ValueView::UInt16(x))) is Ok ==> to_u8_spec(ValueView::UInt16(x))->Ok_0 == x,
        forall|x: u32| (#[trigger] to_u8_spec(ValueView::UInt32(x))) is Ok ==> to_u8_spec(ValueView::UInt32(x))->Ok_0 == x,
        forall|x: u64| (#[trigger] to_u8_spec(ValueView::UInt64(x))) is Ok ==> to_u8_spec(ValueView::UInt64(x))->Ok_0 == x,
        forall|x: u128| (#[trigger] to_u8_spec(ValueView::UInt128(x))) is Ok ==> to_u8_spec(ValueView::UInt128(x))->Ok_0 == x,
        forall|x: usize| (#[trigger] to_u8_spec(ValueView::UIntSize(x))) is Ok ==> to_u8_spec(ValueView::UIntSize(x))->Ok_0 == x,
        forall|x: i8| (#[trigger] to_u16_spec(ValueView::Int8(x))) is Ok ==> to_u16_spec(ValueView::Int8(x))->Ok_0 == x,
        forall|x: i16| (#[trigger] to_u16_spec(ValueView::Int16(x))) is Ok ==> to_u16_spec(ValueView::Int16(x))->Ok_0 == x,
        forall|x: i32| (#[trigger] to_u16_spec(ValueView::Int32(x))) is Ok ==> to_u16_spec(ValueView::Int32(x))->Ok_0 == x,
        forall|x: i64| (#[trigger] to_u16_spec(ValueView::Int64(x))) is Ok ==> to_u16_spec(ValueView::Int64(x))->Ok_0 == x,
        forall|x: i128| (#[trigger] to_u16_spec(ValueView::Int128(x))) is Ok ==> to_u16_spec(ValueView::Int128(x))->Ok_0 == x,
        forall|x: isize| (#[trigger] to_u16_spec(ValueView::IntSize(x))) is Ok ==> to_u16_spec(ValueView::IntSize(x))->Ok_0 == x,
        forall|x: u8| (#[trigger] to_u16_spec(ValueView::UInt8(x))) is Ok ==> to_u16_spec(ValueView::UInt8(x))->Ok_0 == x,
        forall|x: u16| (#[trigger] to_u16_spec(ValueView::UInt16(x))) is Ok ==> to_u16_spec(ValueView::UInt16(x))->Ok_0 == x,
        forall|x: u32| (#[trigger] to_u16_spec(ValueView::UInt32(x))) is Ok ==> to_u16_spec(ValueView::UInt32(x))->Ok_0 == x,
        forall|x: u64| (#[trigger] to_u16_spec(ValueView::UInt64(x))) is Ok ==> to_u16_spec(ValueView::UInt64(x))->Ok_0 == x,
        forall|x: u128| (#[trigger] to_u16_spec(ValueView::UInt128(x))) is Ok ==> to_u16_spec(ValueView::UInt128(x))->Ok_0 == x,
        forall|x: usize| (#[trigger] to_u16_spec(ValueView::UIntSize(x))) is Ok ==> to_u16_spec(ValueView::UIntSize(x))->Ok_0 == x,
        forall|x: i8| (#[trigger] to_u32_spec(ValueView::Int8(x))) is Ok ==> to_u32_spec(ValueView::Int8(x))->Ok_0 == x,
        forall|x: i16| (#[trigger] to_u32_spec(ValueView::Int16(x))) is Ok ==> to_u32_spec(ValueView::Int16(x))->Ok_0 == x,
        forall|x: i32| (#[trigger] to_u32_spec(ValueView::Int32(x))) is Ok ==> to_u32_spec(ValueView::Int32(x))->Ok_0 == x,
        forall|x: i64| (#[trigger] to_u32_spec(ValueView::Int64(x))) is Ok ==> to_u32_spec(ValueView::Int64(x))->Ok_0 == x,
        forall|x: i128| (#[trigger] to_u32_spec(ValueView::Int128(x))) is Ok ==> to_u32_spec(ValueView::Int128(x))->Ok_0 == x,
        forall|x: isize| (#[trigger] to_u32_spec(ValueView::IntSize(x))) is Ok ==> to_u32_spec(ValueView::IntSize(x))->Ok_0 == x,
        forall|x: u8| (#[trigger] to_u32_spec(ValueView::UInt8(x))) is Ok ==> to_u32_spec(ValueView::UInt8(x))->Ok_0 == x,
        forall|x: u16| (#[trigger] to_u32_spec(ValueView::UInt16(x))) is Ok ==> to_u32_spec(ValueView::UInt16(x))->Ok_0 == x,
        forall|x: u32| (#[trigger] to_u32_spec(ValueView::UInt32(x))) is Ok ==> to_u32_spec(ValueView::UInt32(x))->Ok_0 == x,
        forall|x: u64| (#[trigger] to_u32_spec(ValueView::UInt64(x))) is Ok ==> to_u32_spec(ValueView::UInt64(x))->Ok_0 == x,
        forall|x: u128| (#[trigger] to_u32_spec(ValueView::UInt128(x))) is Ok ==> to_u32_spec(ValueView::UInt128(x))->Ok_0 == x,
        forall|x: usize| (#[trigger] to_u32_spec(ValueView::UIntSize(x))) is Ok ==> to_u32_spec(ValueView::UIntSize(x))->Ok_0 == x,
        forall|x: i8| (#[trigger] to_u64_spec(ValueView::Int8(x))) is Ok ==> to_u64_spec(ValueView::Int8(x))->Ok_0 == x,
        forall|x: i16| (#[trigger] to_u64_spec(ValueView::Int16(x))) is Ok ==> to_u64_spec(ValueView::Int16(x))->Ok_0 == x,
        forall|x: i32| (#[trigger] to_u64_spec(ValueView::Int32(x))) is Ok ==> to_u64_spec(ValueView::Int32(x))->Ok_0 == x,
        forall|x: i64| (#[trigger] to_u64_spec(ValueView::Int64(x))) is Ok ==> to_u64_spec(ValueView::Int64(x))->Ok_0 == x,
        forall|x: i128| (#[trigger] to_u64_spec(ValueView::Int128(x))) is Ok ==> to_u64_spec(ValueView::Int128(x))->Ok_0 == x,
        forall|x: isize| (#[trigger] to_u64_spec(ValueView::IntSize(x))) is Ok ==> to_u64_spec(ValueView::IntSize(x))->Ok_0 == x,
        forall|x: u8| (#[trigger] to_u64_spec(ValueView::UInt8(x))) is Ok ==> to_u64_spec(ValueView::UInt8(x))->Ok_0 == x,
        forall|x: u16| (#[trigger] to_u64_spec(ValueView::UInt16(x))) is Ok ==> to_u64_spec(ValueView::UInt16(x))->Ok_0 == x,
        forall|x: u32| (#[trigger] to_u64_spec(ValueView::UInt32(x))) is Ok ==> to_u64_spec(ValueView::UInt32(x))->Ok_0 == x,
        forall|x: u64| (#[trigger] to_u64_spec(ValueView::UInt64(x))) is Ok ==> to_u64_spec(ValueView::UInt64(x))->Ok_0 == x,
        forall|x: u128| (#[trigger] to_u64_spec(ValueView::UInt128(x))) is Ok ==> to_u64_spec(ValueView::UInt128(x))->Ok_0 == x,
        forall|x: usize| (#[trigger] to_u64_spec(ValueView::UIntSize(x))) is Ok ==> to_u64_spec(ValueView::UIntSize(x))->Ok_0 == x,
        forall|x: i8| (#[trigger] to_u128_spec(ValueView::Int8(x))) is Ok ==> to_u128_spec(ValueView::Int8(x))->Ok_0 == x,
        forall|x: i16| (#[trigger] to_u128_spec(ValueView::Int16(x))) is Ok ==> to_u128_spec(ValueView::Int16(x))->Ok_0 == x,
        forall|x: i32| (#[trigger] to_u128_spec(ValueView::Int32(x))) is Ok ==> to_u128_spec(ValueView::Int32(x))->Ok_0 == x,
        forall|x: i64| (#[trigger] to_u128_spec(ValueView::Int64(x))) is Ok ==> to_u128_spec(ValueView::Int64(x))->Ok_0 == x,
        forall|x: i128| (#[trigger] to_u128_spec(ValueView::Int128(x))) is Ok ==> to_u128_spec(ValueView::Int128(x))->Ok_0 == x,
        forall|x: isize| (#[trigger] to_u128_spec(ValueView::IntSize(x))) is Ok ==> to_u128_spec(ValueView::IntSize(x))->Ok_0 == x,
        forall|x: u8| (#[trigger] to_u128_spec(ValueView::UInt8(x))) is Ok ==> to_u128_spec(ValueView::UInt8(x))->Ok_0 == x,
        forall|x: u16| (#[trigger] to_u128_spec(ValueView::UInt16(x))) is Ok ==> to_u128_spec(ValueView::UInt16(x))->Ok_0 == x,
        forall|x: u32| (#[trigger] to_u128_spec(ValueView::UInt32(x))) is Ok ==> to_u128_spec(ValueView::UInt32(x))->Ok_0 == x,
        forall|x: u64| (#[trigger] to_u128_spec(ValueView::UInt64(x))) is Ok ==> to_u128_spec(ValueView::UInt64(x))->Ok_0 == x,
        forall|x: u128| (#[trigger] to_u128_spec(ValueView::UInt128(x))) is Ok ==> to_u128_spec(ValueView::UInt128(x))->Ok_0 == x,
        forall|x: usize| (#[trigger] to_u128_spec(ValueView::UIntSize(x))) is Ok ==> to_u128_spec(ValueView::UIntSize(x))->Ok_0 == x,
        forall|x: i8| (#[trigger] to_usize_spec(ValueView::Int8(x))) is Ok ==> to_usize_spec(ValueView::Int8(x))->Ok_0 == x,
        forall|x: i16| (#[trigger] to_usize_spec(ValueView::Int16(x))) is Ok ==> to_usize_spec(ValueView::Int16(x))->Ok_0 == x,
        forall|x: i32| (#[trigger] to_usize_spec(ValueView::Int32(x))) is Ok ==> to_usize_spec(ValueView::Int32(x))->Ok_0 == x,
        forall|x: i64| (#[trigger] to_usize_spec(ValueView::Int64(x))) is Ok ==> to_usize_spec(ValueView::Int64(x))->Ok_0 == x,
        forall|x: i128| (#[trigger] to_usize_spec(ValueView::Int128(x))) is Ok ==> to_usize_spec(ValueView::Int128(x))->Ok_0 == x,
        forall|x: isize| (#[trigger] to_usize_spec(ValueView::IntSize(x))) is Ok ==> to_usize_spec(ValueView::IntSize(x))->Ok_0 == x,
        forall|x: u8| (#[trigger] to_usize_spec(ValueView::UInt8(x))) is Ok ==> to_usize_spec(ValueView::UInt8(x))->Ok_0 == x,
        forall|x: u16| (#[trigger] to_usize_spec(ValueView::UInt16(x))) is Ok ==> to_usize_spec(ValueView::UInt16(x))->Ok_0 == x,
        forall|x: u32| (#[trigger] to_usize_spec(ValueView::UInt32(x))) is Ok ==> to_usize_spec(ValueView::UInt32(x))->Ok_0 == x,
        forall|x: u64| (#[trigger] to_usize_spec(ValueView::UInt64(x))) is Ok ==> to_usize_spec(ValueView::UInt64(x))->Ok_0 == x,
        forall|x: u128| (#[trigger] to_usize_spec(ValueView::UInt128(x))) is Ok ==> to_usize_spec(ValueView::UInt128(x))->Ok_0 == x,
        forall|x: usize| (#[trigger] to_usize_spec(ValueView::UIntSize(x))) is Ok ==> to_usize_spec(ValueView::UIntSize(x))->Ok_0 == x,
{
}

/// Converting an integer to an integer type succeeds exactly when the
/// number lies in the range of the target type.
pub proof fn law_integer_conversion_in_range()
    ensures
        forall|x: i8| (#[trigger] to_i8_spec(ValueView::Int8(x)) is Ok) <==> (i8::MIN <= x <= i8::MAX),
        forall|x: i16| (#[trigger] to_i8_spec(ValueView::Int16(x)) is Ok) <==> (i8::MIN <= x <= i8::MAX),
        forall|x: i32| (#[trigger] to_i8_spec(ValueView::Int32(x)) is Ok) <==> (i8::MIN <= x <= i8::MAX),
        forall|x: i64| (#[trigger] to_i8_spec(ValueView::Int64(x)) is Ok) <==> (i8::MIN <= x <= i8::MAX),
        forall|x: i128| (#[trigger] to_i8_spec(ValueView::Int128(x)) is Ok) <==> (i8::MIN <= x <= i8::MAX),
        forall|x: u8| (#[trigger] to_i8_spec(ValueView::UInt8(x)) is Ok) <==> (i8::MIN <= x <= i8::MAX),
        forall|x: u16| (#[trigger] to_i8_spec(ValueView::UInt16(x)) is Ok) <==> (i8::MIN <= x <= i8::MAX),
        forall|x: u32| (#[trigger] to_i8_spec(ValueView::UInt32(x)) is Ok) <==> (i8::MIN <= x <= i8::MAX),
        forall|x: u64| (#[trigger] to_i8_spec(ValueView::UInt64(x)) is Ok) <==> (i8::MIN <= x <= i8::MAX),
        forall|x: u128| (#[trigger] to_i8_spec(ValueView::UInt128(x)) is Ok) <==> (i8::MIN <= x <= i8::MAX),
        forall|x: i8| (#[trigger] to_i16_spec(ValueView::Int8(x)) is Ok) <==> (i16::MIN <= x <= i16::MAX),
        forall|x: i16| (#[trigger] to_i16_spec(ValueView::Int16(x)) is Ok) <==> (i16::MIN <= x <= i16::MAX),
        forall|x: i32| (#[trigger] to_i16_spec(ValueView::Int32(x)) is Ok) <==> (i16::MIN <= x <= i16::MAX),
        forall|x: i64| (#[trigger] to_i16_spec(ValueView::Int64(x)) is Ok) <==> (i16::MIN <= x <= i16::MAX),
        forall|x: i128| (#[trigger] to_i16_spec(ValueView::Int128(x)) is Ok) <==> (i16::MIN <= x <= i16::MAX),
        forall|x: u8| (#[trigger] to_i16_spec(ValueView::UInt8(x)) is Ok) <==> (i16::MIN <= x <= i16::MAX),
        forall|x: u16| (#[trigger] to_i16_spec(ValueView::UInt16(x)) is Ok) <==> (i16::MIN <= x <= i16::MAX),
        forall|x: u32| (#[trigger] to_i16_spec(ValueView::UInt32(x)) is Ok) <==> (i16::MIN <= x <= i16::MAX),
        forall|x: u64| (#[trigger] to_i16_spec(ValueView::UInt64(x)) is Ok) <==> (i16::MIN <= x <= i16::MAX),
        forall|x: u128| (#[trigger] to_i16_spec(ValueView::UInt128(x)) is Ok) <==> (i16::MIN <= x <= i16::MAX),
        forall|x: i8| (#[trigger] to_i32_spec(ValueView::Int8(x)) is Ok) <==> (i32::MIN <= x <= i32::MAX),
        forall|x: i16| (#[trigger] to_i32_spec(ValueView::Int16(x)) is Ok) <==> (i32::MIN <= x <= i32::MAX),
        forall|x: i32| (#[trigger] to_i32_spec(ValueView::Int32(x)) is Ok) <==> (i32::MIN <= x <= i32::MAX),
        forall|x: i64| (#[trigger] to_i32_spec(ValueView::Int64(x)) is Ok) <==> (i32::MIN <= x <= i32::MAX),
        forall|x: i128| (#[trigger] to_i32_spec(ValueView::Int128(x)) is Ok) <==> (i32::MIN <= x <= i32::MAX),
        forall|x: u8| (#[trigger] to_i32_spec(ValueView::UInt8(x)) is Ok) <==> (i32::MIN <= x <= i32::MAX),
        forall|x: u16| (#[trigger] to_i32_spec(ValueView::UInt16(x)) is Ok) <==> (i32::MIN <= x <= i32::MAX),
        forall|x: u32| (#[trigger] to_i32_spec(ValueView::UInt32(x)) is Ok) <==> (i32::MIN <= x <= i32::MAX),
        forall|x: u64| (#[trigger] to_i32_spec(ValueView::UInt64(x)) is Ok) <==> (i32::MIN <= x <= i32::MAX),
        forall|x: u128| (#[trigger] to_i32_spec(ValueView::UInt128(x)) is Ok) <==> (i32::MIN <= x <= i32::MAX),
        forall|x: i8| (#[trigger] to_i64_spec(ValueView::Int8(x)) is Ok) <==> (i64::MIN <= x <= i64::MAX),
        forall|x: i16| (#[trigger] to_i64_spec(ValueView::Int16(x)) is Ok) <==> (i64::MIN <= x <= i64::MAX),
        forall|x: i32| (#[trigger] to_i64_spec(ValueView::Int32(x)) is Ok) <==> (i64::MIN <= x <= i64::MAX),
        forall|x: i64| (#[trigger] to_i64_spec(ValueView::Int64(x)) is Ok) <==> (i64::MIN <= x <= i64::MAX),
        forall|x: i128| (#[trigger] to_i64_spec(ValueView::Int128(x)) is Ok) <==> (i64::MIN <= x <= i64::MAX),
        forall|x: u8| (#[trigger] to_i64_spec(ValueView::UInt8(x)) is Ok) <==> (i64::MIN <= x <= i64::MAX),
        forall|x: u16| (#[trigger] to_i64_spec(ValueView::UInt16(x)) is Ok) <==> (i64::MIN <= x <= i64::MAX),
        forall|x: u32| (#[trigger] to_i64_spec(ValueView::UInt32(x)) is Ok) <==> (i64::MIN <= x <= i64::MAX),
        forall|x: u64| (#[trigger] to_i64_spec(ValueView::UInt64(x)) is Ok) <==> (i64::MIN <= x <= i64::MAX),
        forall|x: u128| (#[trigger] to_i64_spec(ValueView::UInt128(x)) is Ok) <==> (i64::MIN <= x <= i64::MAX),
        forall|x: i8| (#[trigger] to_i128_spec(ValueView::Int8(x)) is Ok) <==> (i128::MIN <= x <= i128::MAX),
        forall|x: i16| (#[trigger] to_i128_spec(ValueView::Int16(x)) is Ok) <==> (i128::MIN <= x <= i128::MAX),
        forall|x: i32| (#[trigger] to_i128_spec(ValueView::Int32(x)) is Ok) <==> (i128::MIN <= x <= i128::MAX),
        forall|x: i64| (#[trigger] to_i128_spec(ValueView::Int64(x)) is Ok) <==> (i128::MIN <= x <= i128::MAX),
        forall|x: i128| (#[trigger] to_i128_spec(ValueView::Int128(x)) is Ok) <==> (i128::MIN <= x <= i128::MAX),
        forall|x: u8| (#[trigger] to_i128_spec(ValueView::UInt8(x)) is Ok) <==> (i128::MIN <= x <= i128::MAX),
        forall|x: u16| (#[trigger] to_i128_spec(ValueView::UInt16(x)) is Ok) <==> (i128::MIN <= x <= i128::MAX),
        forall|x: u32| (#[trigger] to_i128_spec(ValueView::UInt32(x)) is Ok) <==> (i128::MIN <= x <= i128::MAX),
        forall|x: u64| (#[trigger] to_i128_spec(ValueView::UInt64(x)) is Ok) <==> (i128::MIN <= x <= i128::MAX),
        forall|x: u128| (#[trigger] to_i128_spec(ValueView::UInt128(x)) is Ok) <==> (i128::MIN <= x <= i128::MAX),
        forall|x: i8| (#[trigger] to_u8_spec(ValueView::Int8(x)) is Ok) <==> (u8::MIN <= x <= u8::MAX),
        forall|x: i16| (#[trigger] to_u8_spec(ValueView::Int16(x)) is Ok) <==> (u8::MIN <= x <= u8::MAX),
        forall|x: i32| (#[trigger] to_u8_spec(ValueView::Int32(x)) is Ok) <==> (u8::MIN <= x <= u8::MAX),
        forall|x: i64| (#[trigger] to_u8_spec(ValueView::Int64(x)) is Ok) <==> (u8::MIN <= x <= u8::MAX),
        forall|x: i128| (#[trigger] to_u8_spec(ValueView::Int128(x)) is Ok) <==> (u8::MIN <= x <= u8::MAX),
        forall|x: u8| (#[trigger] to_u8_spec(ValueView::UInt8(x)) is Ok) <==> (u8::MIN <= x <= u8::MAX),
        forall|x: u16| (#[trigger] to_u8_spec(ValueView::UInt16(x)) is Ok) <==> (u8::MIN <= x <= u8::MAX),
        forall|x: u32| (#[trigger] to_u8_spec(ValueView::UInt32(x)) is Ok) <==> (u8::MIN <= x <= u8::MAX),
        forall|x: u64| (#[trigger] to_u8_spec(ValueView::UInt64(x)) is Ok) <==> (u8::MIN <= x <= u8::MAX),
        forall|x: u128| (#[trigger] to_u8_spec(ValueView::UInt128(x)) is Ok) <==> (u8::MIN <= x <= u8::MAX),
        forall|x: i8| (#[trigger] to_u16_spec(ValueView::Int8(x)) is Ok) <==> (u16::MIN <= x <= u16::MAX),
        forall|x: i16| (#[trigger] to_u16_spec(ValueView::Int16(x)) is Ok) <==> (u16::MIN <= x <= u16::MAX),
        forall|x: i32| (#[trigger] to_u16_spec(ValueView::Int32(x)) is Ok) <==> (u16::MIN <= x <= u16::MAX),
        forall|x: i64| (#[trigger] to_u16_spec(ValueView::Int64(x)) is Ok) <==> (u16::MIN <= x <= u16::MAX),
        forall|x: i128| (#[trigger] to_u16_spec(ValueView::Int128(x)) is Ok) <==> (u16::MIN <= x <= u16::MAX),
        forall|x: u8| (#[trigger] to_u16_spec(ValueView::UInt8(x)) is Ok) <==> (u16::MIN <= x <= u16::MAX),
        forall|x: u16| (#[trigger] to_u16_spec(ValueView::UInt16(x)) is Ok) <==> (u16::MIN <= x <= u16::MAX),
        forall|x: u32| (#[trigger] to_u16_spec(ValueView::UInt32(x)) is Ok) <==> (u16::MIN <= x <= u16::MAX),
        forall|x: u64| (#[trigger] to_u16_spec(ValueView::UInt64(x)) is Ok) <==> (u16::MIN <= x <= u16::MAX),
        forall|x: u128| (#[trigger] to_u16_spec(ValueView::UInt128(x)) is Ok) <==> (u16::MIN <= x <= u16::MAX),
        forall|x: i8| (#[trigger] to_u32_spec(ValueView::Int8(x)) is Ok) <==> (u32::MIN <= x <= u32::MAX),
        forall|x: i16| (#[trigger] to_u32_spec(ValueView::Int16(x)) is Ok) <==> (u32::MIN <= x <= u32::MAX),
        forall|x: i32| (#[trigger] to_u32_spec(ValueView::Int32(x)) is Ok) <==> (u32::MIN <= x <= u32::MAX),
        forall|x: i64| (#[trigger] to_u32_spec(ValueView::Int64(x)) is Ok) <==> (u32::MIN <= x <= u32::MAX),
        forall|x: i128| (#[trigger] to_u32_spec(ValueView::Int128(x)) is Ok) <==> (u32::MIN <= x <= u32::MAX),
        forall|x: u8| (#[trigger] to_u32_spec(ValueView::UInt8(x)) is Ok) <==> (u32::MIN <= x <= u32::MAX),
        forall|x: u16| (#[trigger] to_u32_spec(ValueView::UInt16(x)) is Ok) <==> (u32::MIN <= x <= u32::MAX),
        forall|x: u32| (#[trigger] to_u32_spec(ValueView::UInt32(x)) is Ok) <==> (u32::MIN <= x <= u32::MAX),
        forall|x: u64| (#[trigger] to_u32_spec(ValueView::UInt64(x)) is Ok) <==> (u32::MIN <= x <= u32::MAX),
        forall|x: u128| (#[trigger] to_u32_spec(ValueView::UInt128(x)) is Ok) <==> (u32::MIN <= x <= u32::MAX),
        forall|x: i8| (#[trigger] to_u64_spec(ValueView::Int8(x)) is Ok) <==> (u64::MIN <= x <= u64::MAX),
        forall|x: i16| (#[trigger] to_u64_spec(ValueView::Int16(x)) is Ok) <==> (u64::MIN <= x <= u64::MAX),
        forall|x: i32| (#[trigger] to_u64_spec(ValueView::Int32(x)) is Ok) <==> (u64::MIN <= x <= u64::MAX),
        forall|x: i64| (#[trigger] to_u64_spec(ValueView::Int64(x)) is Ok) <==> (u64::MIN <= x <= u64::MAX),
        forall|x: i128| (#[trigger] to_u64_spec(ValueView::Int128(x)) is Ok) <==> (u64::MIN <= x <= u64::MAX),
        forall|x: u8| (#[trigger] to_u64_spec(ValueView::UInt8(x)) is Ok) <==> (u64::MIN <= x <= u64::MAX),
        forall|x: u16| (#[trigger] to_u64_spec(ValueView::UInt16(x)) is Ok) <==> (u64::MIN <= x <= u64::MAX),
        forall|x: u32| (#[trigger] to_u64_spec(ValueView::UInt32(x)) is Ok) <==> (u64::MIN <= x <= u64::MAX),
        forall|x: u64| (#[trigger] to_u64_spec(ValueView::UInt64(x)) is Ok) <==> (u64::MIN <= x <= u64::MAX),
        forall|x: u128| (#[trigger] to_u64_spec(ValueView::UInt128(x)) is Ok) <==> (u64::MIN <= x <= u64::MAX),
        forall|x: i8| (#[trigger] to_u128_spec(ValueView::Int8(x)) is Ok) <==> (u128::MIN <= x <= u128::MAX),
        forall|x: i16| (#[trigger] to_u128_spec(ValueView::Int16(x)) is Ok) <==> (u128::MIN <= x <= u128::MAX),
        forall|x: i32| (#[trigger] to_u128_spec(ValueView::Int32(x)) is Ok) <==> (u128::MIN <= x <= u128::MAX),
        forall|x: i64| (#[trigger] to_u128_spec(ValueView::Int64(x)) is Ok) <==> (u128::MIN <= x <= u128::MAX),
        forall|x: i128| (#[trigger] to_u128_spec(ValueView::Int128(x)) is Ok) <==> (u128::MIN <= x <= u128::MAX),
        forall|x: u8| (#[trigger] to_u128_spec(ValueView::UInt8(x)) is Ok) <==> (u128::MIN <= x <= u128::MAX),
        forall|x: u16| (#[trigger] to_u128_spec(ValueView::UInt16(x)) is Ok) <==> (u128::MIN <= x <= u128::MAX),
        forall|x: u32| (#[trigger] to_u128_spec(ValueView::UInt32(x)) is Ok) <==> (u128::MIN <= x <= u128::MAX),
        forall|x: u64| (#[trigger] to_u128_spec(ValueView::UInt64(x)) is Ok) <==> (u128::MIN <= x <= u128::MAX),
        forall|x: u128| (#[trigger] to_u128_spec(ValueView::UInt128(x)) is Ok) <==> (u128::MIN <= x <= u128::MAX),
{
}

/// Converting a value to its own type gives its item.
pub proof fn law_value_converts_to_itself()
    ensures
        forall|x: i8| #[trigger] to_i8_spec(ValueView::Int8(x)) == Ok::<int, ValueErrorView>(x as int),
        forall|x: i16| #[trigger] to_i16_spec(ValueView::Int16(x)) == Ok::<int, ValueErrorView>(x as int),
        forall|x: i32| #[trigger] to_i32_spec(ValueView::Int32(x)) == Ok::<int, ValueErrorView>(x as int),
        forall|x: i64| #[trigger] to_i64_spec(ValueView::Int64(x)) == Ok::<int, ValueErrorView>(x as int),
        forall|x: i128| #[trigger] to_i128_spec(ValueView::Int128(x)) == Ok::<int, ValueErrorView>(x as int),
        forall|x: isize| #[trigger] to_isize_spec(ValueView::IntSize(x)) == Ok::<int, ValueErrorView>(x as int),
        forall|x: u8| #[trigger] to_u8_spec(ValueView::UInt8(x)) == Ok::<int, ValueErrorView>(x as int),
        forall|x: u16| #[trigger] to_u16_spec(ValueView::UInt16(x)) == Ok::<int, ValueErrorView>(x as int),
        forall|x: u32| #[trigger] to_u32_spec(ValueView::UInt32(x)) == Ok::<int, ValueErrorView>(x as int),
        forall|x: u64| #[trigger] to_u64_spec(ValueView::UInt64(x)) == Ok::<int, ValueErrorView>(x as int),
        forall|x: u128| #[trigger] to_u128_spec(ValueView::UInt128(x)) == Ok::<int, ValueErrorView>(x as int),
        forall|x: usize| #[trigger] to_usize_spec(ValueView::UIntSize(x)) == Ok::<int, ValueErrorView>(x as int),
        forall|x: bool| #[trigger] to_bool_spec(ValueView::Bool(x)) == Ok::<bool, ValueErrorView>(x),
        forall|s: Seq<char>| #[trigger] to_text_spec(ValueView::String(s)) == Some(Ok::<Seq<char>, ValueErrorView>(s)),
{
}

/// An integer written as text by the conversion to `String` converts back to
/// the same integer.
pub proof fn law_integer_text_round_trip()
    ensures
        forall|x: i8| #[trigger] to_text_spec(ValueView::Int8(x)) == Some(Ok::<Seq<char>, ValueErrorView>(signed_decimal_text(x as int)))
            && to_i8_spec(ValueView::String(signed_decimal_text(x as int))) == Ok::<int, ValueErrorView>(x as int),
        forall|x: i16| #[trigger] to_text_spec(ValueView::Int16(x)) == Some(Ok::<Seq<char>, ValueErrorView>(signed_decimal_text(x as int)))
            && to_i16_spec(ValueView::String(signed_decimal_text(x as int))) == Ok::<int, ValueErrorView>(x as int),
        forall|x: i32| #[trigger] to_text_spec(ValueView::Int32(x)) == Some(Ok::<Seq<char>, ValueErrorView>(signed_decimal_text(x as int)))
            && to_i32_spec(ValueView::String(signed_decimal_text(x as int))) == Ok::<int, ValueErrorView>(x as int),
        forall|x: i64| #[trigger] to_text_spec(ValueView::Int64(x)) == Some(Ok::<Seq<char>, ValueErrorView>(signed_decimal_text(x as int)))
            && to_i64_spec(ValueView::String(signed_decimal_text(x as int))) == Ok::<int, ValueErrorView>(x as int),
        forall|x: i128| #[trigger] to_text_spec(ValueView::Int128(x)) == Some(Ok::<Seq<char>, ValueErrorView>(signed_decimal_text(x as int)))
            && to_i128_spec(ValueView::String(signed_decimal_text(x as int))) == Ok::<int, ValueErrorView>(x as int),
        forall|x: isize| #[trigger] to_text_spec(ValueView::IntSize(x)) == Some(Ok::<Seq<char>, ValueErrorView>(signed_decimal_text(x as int)))
            && to_isize_spec(ValueView::String(signed_decimal_text(x as int))) == Ok::<int, ValueErrorView>(x as int),
        forall|x: u8| #[trigger] to_text_spec(ValueView::UInt8(x)) == Some(Ok::<Seq<char>, ValueErrorView>(decimal_text(x as nat)))
            && to_u8_spec(ValueView::String(decimal_text(x as nat))) == Ok::<int, ValueErrorView>(x as int),
        forall|x: u16| #[trigger] to_text_spec(ValueView::UInt16(x)) == Some(Ok::<Seq<char>, ValueErrorView>(decimal_text(x as nat)))
            && to_u16_spec(ValueView::String(decimal_text(x as nat))) == Ok::<int, ValueErrorView>(x as int),
        forall|x: u32| #[trigger] to_text_spec(ValueView::UInt32(x)) == Some(Ok::<Seq<char>, ValueErrorView>(decimal_text(x as nat)))
            && to_u32_spec(ValueView::String(decimal_text(x as nat))) == Ok::<int, ValueErrorView>(x as int),
        forall|x: u64| #[trigger] to_text_spec(ValueView::UInt64(x)) == Some(Ok::<Seq<char>, ValueErrorView>(decimal_text(x as nat)))
            && to_u64_spec(ValueView::String(decimal_text(x as nat))) == Ok::<int, ValueErrorView>(x as int),
        forall|x: u128| #[trigger] to_text_spec(ValueView::UInt128(x)) == Some(Ok::<Seq<char>, ValueErrorView>(decimal_text(x as nat)))
            && to_u128_spec(ValueView::String(decimal_text(x as nat))) == Ok::<int, ValueErrorView>(x as int),
        forall|x: usize| #[trigger] to_text_spec(ValueView::UIntSize(x)) == Some(Ok::<Seq<char>, ValueErrorView>(decimal_text(x as nat)))
            && to_usize_spec(ValueView::String(decimal_text(x as nat))) == Ok::<int, ValueErrorView>(x as int),
{
    assert forall|x: i8| to_i8_spec(ValueView::String(signed_decimal_text(x as int))) == Ok::<int, ValueErrorView>(x as int) by {
        lemma_parse_signed_decimal(x as int, i8::MIN as int, i8::MAX as int);
    }
    assert forall|x: i16| to_i16_spec(ValueView::String(signed_decimal_text(x as int))) == Ok::<int, ValueErrorView>(x as int) by {
        lemma_parse_signed_decimal(x as int, i16::MIN as int, i16::MAX as int);
    }
    assert forall|x: i32| to_i32_spec(ValueView::String(signed_decimal_text(x as int))) == Ok::<int, ValueErrorView>(x as int) by {
        lemma_parse_signed_decimal(x as int, i32::MIN as int, i32::MAX as int);
    }
    assert forall|x: i64| to_i64_spec(ValueView::String(signed_decimal_text(x as int))) == Ok::<int, ValueErrorView>(x as int) by {
        lemma_parse_signed_decimal(x as int, i64::MIN as int, i64::MAX as int);
    }
    assert forall|x: i128| to_i128_spec(ValueView::String(signed_decimal_text(x as int))) == Ok::<int, ValueErrorView>(x as int) by {
        lemma_parse_signed_decimal(x as int, i128::MIN as int, i128::MAX as int);
    }
    assert forall|x: isize| to_isize_spec(ValueView::String(signed_decimal_text(x as int))) == Ok::<int, ValueErrorView>(x as int) by {
        lemma_parse_signed_decimal(x as int, isize::MIN as int, isize::MAX as int);
    }
    assert forall|x: u8| to_u8_spec(ValueView::String(decimal_text(x as nat))) == Ok::<int, ValueErrorView>(x as int) by {
        lemma_parse_unsigned_decimal(x as nat, u8::MAX as int);
    }
    assert forall|x: u16| to_u16_spec(ValueView::String(decimal_text(x as nat))) == Ok::<int, ValueErrorView>(x as int) by {
        lemma_parse_unsigned_decimal(x as nat, u16::MAX as int);
    }
    assert forall|x: u32| to_u32_spec(ValueView::String(decimal_text(x as nat))) == Ok::<int, ValueErrorView>(x as int) by {
        lemma_parse_unsigned_decimal(x as nat, u32::MAX as int);
    }
    assert forall|x: u64| to_u64_spec(ValueView::String(decimal_text(x as nat))) == Ok::<int, ValueErrorView>(x as int) by {
        lemma_parse_unsigned_decimal(x as nat, u64::MAX as int);
    }
    assert forall|x: u128| to_u128_spec(ValueView::String(decimal_text(x as nat))) == Ok::<int, ValueErrorView>(x as int) by {
        lemma_parse_unsigned_decimal(x as nat, u128::MAX as int);
    }
    assert forall|x: usize| to_usize_spec(ValueView::String(decimal_text(x as nat))) == Ok::<int, ValueErrorView>(x as int) by {
        lemma_parse_unsigned_decimal(x as nat, usize::MAX as int);
    }
}

/// Text without surrounding white space is its own trim.
proof fn lemma_trim_of_unpadded(t: Seq<char>)
    requires
        t.len() > 0,
        !is_white_space(t[0]),
        !is_white_space(t.last()),
    ensures
        trim_spec(t) == t,
{
    assert(trim_start_spec(t) == t);
    assert(trim_end_spec(t) == t);
}

/// A duration written as text by the conversion to `String`
/// (`<nanoseconds>ns`) converts back to the same duration.
pub proof fn law_duration_text_round_trip(d: Duration)
    requires
        duration_is_canonical(d),
    ensures
        to_text_spec(ValueView::Duration(d)) == Some(
            Ok::<Seq<char>, ValueErrorView>(decimal_text(duration_nanos(d)) + "ns"@),
        ),
        duration_nanos_from_text(decimal_text(duration_nanos(d)) + "ns"@) == Ok::<nat, ValueErrorView>(
            duration_nanos(d),
        ),
        duration_from_text(decimal_text(duration_nanos(d)) + "ns"@) == Ok::<Duration, ValueErrorView>(d),
{
    reveal_strlit("ns");
    let n = duration_nanos(d);
    let digits = decimal_text(n);
    let t = digits + "ns"@;
    lemma_decimal_text_value(n);
    assert(t[0] == digits[0]);
    assert(t.last() == 's');
    lemma_trim_of_unpadded(t);
    assert(t.subrange(0, t.len() - 2) =~= digits);
    assert(n <= u128::MAX);
    lemma_parse_unsigned_decimal(n, u128::MAX as int);
}

// ---------------------------------------------------------------------------
// Lists of values
// ---------------------------------------------------------------------------

/// A list read back with the list getter of its own type gives the items
/// that were stored.
pub proof fn law_list_get_after_set()
    ensures
        forall|s: Seq<bool>| #[trigger] MultiValuesView::Bool(s).typed_items(DataType::Bool, MultiValuesView::Bool(s).as_bools())
            == Ok::<Seq<bool>, ValueError>(s),
        forall|s: Seq<char>| #[trigger] MultiValuesView::Char(s).typed_items(DataType::Char, MultiValuesView::Char(s).as_chars())
            == Ok::<Seq<char>, ValueError>(s),
        forall|s: Seq<i8>| #[trigger] MultiValuesView::Int8(s).typed_items(DataType::Int8, MultiValuesView::Int8(s).as_int8s())
            == Ok::<Seq<i8>, ValueError>(s),
        forall|s: Seq<i16>| #[trigger] MultiValuesView::Int16(s).typed_items(DataType::Int16, MultiValuesView::Int16(s).as_int16s())
            == Ok::<Seq<i16>, ValueError>(s),
        forall|s: Seq<i32>| #[trigger] MultiValuesView::Int32(s).typed_items(DataType::Int32, MultiValuesView::Int32(s).as_int32s())
            == Ok::<Seq<i32>, ValueError>(s),
        forall|s: Seq<i64>| #[trigger] MultiValuesView::Int64(s).typed_items(DataType::Int64, MultiValuesView::Int64(s).as_int64s())
            == Ok::<Seq<i64>, ValueError>(s),
        forall|s: Seq<i128>| #[trigger] MultiValuesView::Int128(s).typed_items(DataType::Int128, MultiValuesView::Int128(s).as_int128s())
            == Ok::<Seq<i128>, ValueError>(s),
        forall|s: Seq<u8>| #[trigger] MultiValuesView::UInt8(s).typed_items(DataType::UInt8, MultiValuesView::UInt8(s).as_uint8s())
            == Ok::<Seq<u8>, ValueError>(s),
        forall|s: Seq<u16>| #[trigger] MultiValuesView::UInt16(s).typed_items(DataType::UInt16, MultiValuesView::UInt16(s).as_uint16s())
            == Ok::<Seq<u16>, ValueError>(s),
        forall|s: Seq<u32>| #[trigger] MultiValuesView::UInt32(s).typed_items(DataType::UInt32, MultiValuesView::UInt32(s).as_uint32s())
            == Ok::<Seq<u32>, ValueError>(s),
        forall|s: Seq<u64>| #[trigger] MultiValuesView::UInt64(s).typed_items(DataType::UInt64, MultiValuesView::UInt64(s).as_uint64s())
            == Ok::<Seq<u64>, ValueError>(s),
        forall|s: Seq<u128>| #[trigger] MultiValuesView::UInt128(s).typed_items(DataType::UInt128, MultiValuesView::UInt128(s).as_uint128s())
            == Ok::<Seq<u128>, ValueError>(s),
        forall|s: Seq<isize>| #[trigger] MultiValuesView::IntSize(s).typed_items(DataType::IntSize, MultiValuesView::IntSize(s).as_intsizes())
            == Ok::<Seq<isize>, ValueError>(s),
        forall|s: Seq<usize>| #[trigger] MultiValuesView::UIntSize(s).typed_items(DataType::UIntSize, MultiValuesView::UIntSize(s).as_uintsizes())
            == Ok::<Seq<usize>, ValueError>(s),
        forall|s: Seq<u32>| #[trigger] MultiValuesView::Float32(s).typed_items(DataType::Float32, MultiValuesView::Float32(s).as_float32s_bits())
            == Ok::<Seq<u32>, ValueError>(s),
        forall|s: Seq<u64>| #[trigger] MultiValuesView::Float64(s).typed_items(DataType::Float64, MultiValuesView::Float64(s).as_float64s_bits())
            == Ok::<Seq<u64>, ValueError>(s),
        forall|s: Seq<BigInt>| #[trigger] MultiValuesView::BigInteger(s).typed_items(DataType::BigInteger, MultiValuesView::BigInteger(s).as_bigintegers())
            == Ok::<Seq<BigInt>, ValueError>(s),
        forall|s: Seq<BigDecimal>| #[trigger] MultiValuesView::BigDecimal(s).typed_items(DataType::BigDecimal, MultiValuesView::BigDecimal(s).as_bigdecimals())
            == Ok::<Seq<BigDecimal>, ValueError>(s),
        forall|s: Seq<Seq<char>>| #[trigger] MultiValuesView::String(s).typed_items(DataType::String, MultiValuesView::String(s).as_strings())
            == Ok::<Seq<Seq<char>>, ValueError>(s),
        forall|s: Seq<NaiveDate>| #[trigger] MultiValuesView::Date(s).typed_items(DataType::Date, MultiValuesView::Date(s).as_dates())
            == Ok::<Seq<NaiveDate>, ValueError>(s),
        forall|s: Seq<NaiveTime>| #[trigger] MultiValuesView::Time(s).typed_items(DataType::Time, MultiValuesView::Time(s).as_times())
            == Ok::<Seq<NaiveTime>, ValueError>(s),
        forall|s: Seq<NaiveDateTime>| #[trigger] MultiValuesView::DateTime(s).typed_items(DataType::DateTime, MultiValuesView::DateTime(s).as_datetimes())
            == Ok::<Seq<NaiveDateTime>, ValueError>(s),
        forall|s: Seq<UtcInstant>| #[trigger] MultiValuesView::Instant(s).typed_items(DataType::Instant, MultiValuesView::Instant(s).as_instants())
            == Ok::<Seq<UtcInstant>, ValueError>(s),
        forall|s: Seq<Duration>| #[trigger] MultiValuesView::Duration(s).typed_items(DataType::Duration, MultiValuesView::Duration(s).as_durations())
            == Ok::<Seq<Duration>, ValueError>(s),
        forall|s: Seq<Url>| #[trigger] MultiValuesView::Url(s).typed_items(DataType::Url, MultiValuesView::Url(s).as_urls())
            == Ok::<Seq<Url>, ValueError>(s),
        forall|s: Seq<Map<String, String>>| #[trigger] MultiValuesView::StringMap(s).typed_items(DataType::StringMap, MultiValuesView::StringMap(s).as_string_maps())
            == Ok::<Seq<Map<String, String>>, ValueError>(s),
        forall|s: Seq<JsonValue>| #[trigger] MultiValuesView::Json(s).typed_items(DataType::Json, MultiValuesView::Json(s).as_jsons())
            == Ok::<Seq<JsonValue>, ValueError>(s),
{
}

/// The first-item getter gives the first item of what the list getter gives,
/// `NoValue` when that has no item, and the same error otherwise.
pub proof fn law_first_is_first_of_items<A>(l: MultiValuesView, expected: DataType, items: Option<Seq<A>>)
    ensures
        match l.typed_items(expected, items) {
            Ok(s) => l.typed_first(expected, items) == if s.len() > 0 {
                Ok::<A, ValueError>(s[0])
            } else {
                Err::<A, ValueError>(ValueError::NoValue)
            },
            Err(e) => l.typed_first(expected, items) == Err::<A, ValueError>(e),
        },
{
}

/// Adding items to a list of their type appends them after the existing
/// items, which stay as they were; adding to a list of another type is
/// refused with a mismatch and leaves the list unchanged.
pub proof fn law_list_add_appends(l: MultiValuesView)
    ensures
        forall|extra: Seq<bool>| l.data_type() == DataType::Bool ==> {
            let (r, after) = #[trigger] l.append_bools(extra);
            &&& r is Ok
            &&& after.data_type() == DataType::Bool
            &&& after.count() == l.count() + extra.len()
            &&& forall|i: int| 0 <= i < l.count() ==> after.element(i) == l.element(i)
            &&& forall|j: int| 0 <= j < extra.len() ==> after.element(l.count() + j) == ValueView::Bool(extra[j])
        },
        forall|extra: Seq<bool>| l.data_type() != DataType::Bool ==> #[trigger] l.append_bools(extra) == (
            Err::<(), ValueError>(ValueError::TypeMismatch { expected: DataType::Bool, actual: l.data_type() }),
            l,
        ),
        forall|extra: Seq<char>| l.data_type() == DataType::Char ==> {
            let (r, after) = #[trigger] l.append_chars(extra);
            &&& r is Ok
            &&& after.data_type() == DataType::Char
            &&& after.count() == l.count() + extra.len()
            &&& forall|i: int| 0 <= i < l.count() ==> after.element(i) == l.element(i)
            &&& forall|j: int| 0 <= j < extra.len() ==> after.element(l.count() + j) == ValueView::Char(extra[j])
        },
        forall|extra: Seq<char>| l.data_type() != DataType::Char ==> #[trigger] l.append_chars(extra) == (
            Err::<(), ValueError>(ValueError::TypeMismatch { expected: DataType::Char, actual: l.data_type() }),
            l,
        ),
        forall|extra: Seq<i8>| l.data_type() == DataType::Int8 ==> {
            let (r, after) = #[trigger] l.append_int8s(extra);
            &&& r is Ok
            &&& after.data_type() == DataType::Int8
            &&& after.count() == l.count() + extra.len()
            &&& forall|i: int| 0 <= i < l.count() ==> after.element(i) == l.element(i)
            &&& forall|j: int| 0 <= j < extra.len() ==> after.element(l.count() + j) == ValueView::Int8(extra[j])
        },
        forall|extra: Seq<i8>| l.data_type() != DataType::Int8 ==> #[trigger] l.append_int8s(extra) == (
            Err::<(), ValueError>(ValueError::TypeMismatch { expected: DataType::Int8, actual: l.data_type() }),
            l,
        ),
        forall|extra: Seq<i16>| l.data_type() == DataType::Int16 ==> {
            let (r, after) = #[trigger] l.append_int16s(extra);
            &&& r is Ok
            &&& after.data_type() == DataType::Int16
            &&& after.count() == l.count() + extra.len()
            &&& forall|i: int| 0 <= i < l.count() ==> after.element(i) == l.element(i)
            &&& forall|j: int| 0 <= j < extra.len() ==> after.element(l.count() + j) == ValueView::Int16(extra[j])
        },
        forall|extra: Seq<i16>| l.data_type() != DataType::Int16 ==> #[trigger] l.append_int16s(extra) == (
            Err::<(), ValueError>(ValueError::TypeMismatch { expected: DataType::Int16, actual: l.data_type() }),
            l,
        ),
        forall|extra: Seq<i32>| l.data_type() == DataType::Int32 ==> {
            let (r, after) = #[trigger] l.append_int32s(extra);
            &&& r is Ok
            &&& after.data_type() == DataType::Int32
            &&& after.count() == l.count() + extra.len()
            &&& forall|i: int| 0 <= i < l.count() ==> after.element(i) == l.element(i)
            &&& forall|j: int| 0 <= j < extra.len() ==> after.element(l.count() + j) == ValueView::Int32(extra[j])
        },
        forall|extra: Seq<i32>| l.data_type() != DataType::Int32 ==> #[trigger] l.append_int32s(extra) == (
            Err::<(), ValueError>(ValueError::TypeMismatch { expected: DataType::Int32, actual: l.data_type() }),
            l,
        ),
        forall|extra: Seq<i64>| l.data_type() == DataType::Int64 ==> {
            let (r, after) = #[trigger] l.append_int64s(extra);
            &&& r is Ok
            &&& after.data_type() == DataType::Int64
            &&& after.count() == l.count() + extra.len()
            &&& forall|i: int| 0 <= i < l.count() ==> after.element(i) == l.element(i)
            &&& forall|j: int| 0 <= j < extra.len() ==> after.element(l.count() + j) == ValueView::Int64(extra[j])
        },
        forall|extra: Seq<i64>| l.data_type() != DataType::Int64 ==> #[trigger] l.append_int64s(extra) == (
            Err::<(), ValueError>(ValueError::TypeMismatch { expected: DataType::Int64, actual: l.data_type() }),
            l,
        ),
        forall|extra: Seq<i128>| l.data_type() == DataType::Int128 ==> {
            let (r, after) = #[trigger] l.append_int128s(extra);
            &&& r is Ok
            &&& after.data_type() == DataType::Int128
            &&& after.count() == l.count() + extra.len()
            &&& forall|i: int| 0 <= i < l.count() ==> after.element(i) == l.element(i)
            &&& forall|j: int| 0 <= j < extra.len() ==> after.element(l.count() + j) == ValueView::Int128(extra[j])
        },
        forall|extra: Seq<i128>| l.data_type() != DataType::Int128 ==> #[trigger] l.append_int128s(extra) == (
            Err::<(), ValueError>(ValueError::TypeMismatch { expected: DataType::Int128, actual: l.data_type() }),
            l,
        ),
        forall|extra: Seq<u8>| l.data_type() == DataType::UInt8 ==> {
            let (r, after) = #[trigger] l.append_uint8s(extra);
            &&& r is Ok
            &&& after.data_type() == DataType::UInt8
            &&& after.count() == l.count() + extra.len()
            &&& forall|i: int| 0 <= i < l.count() ==> after.element(i) == l.element(i)
            &&& forall|j: int| 0 <= j < extra.len() ==> after.element(l.count() + j) == ValueView::UInt8(extra[j])
        },
        forall|extra: Seq<u8>| l.data_type() != DataType::UInt8 ==> #[trigger] l.append_uint8s(extra) == (
            Err::<(), ValueError>(ValueError::TypeMismatch { expected: DataType::UInt8, actual: l.data_type() }),
            l,
        ),
        forall|extra: Seq<u16>| l.data_type() == DataType::UInt16 ==> {
            let (r, after) = #[trigger] l.append_uint16s(extra);
            &&& r is Ok
            &&& after.data_type() == DataType::UInt16
            &&& after.count() == l.count() + extra.len()
            &&& forall|i: int| 0 <= i < l.count() ==> after.element(i) == l.element(i)
            &&& forall|j: int| 0 <= j < extra.len() ==> after.element(l.count() + j) == ValueView::UInt16(extra[j])
        },
        forall|extra: Seq<u16>| l.data_type() != DataType::UInt16 ==> #[trigger] l.append_uint16s(extra) == (
            Err::<(), ValueError>(ValueError::TypeMismatch { expected: DataType::UInt16, actual: l.data_type() }),
            l,
        ),
        forall|extra: Seq<u32>| l.data_type() == DataType::UInt32 ==> {
            let (r, after) = #[trigger] l.append_uint32s(extra);
            &&& r is Ok
            &&& after.data_type() == DataType::UInt32
            &&& after.count() == l.count() + extra.len()
            &&& forall|i: int| 0 <= i < l.count() ==> after.element(i) == l.element(i)
            &&& forall|j: int| 0 <= j < extra.len() ==> after.element(l.count() + j) == ValueView::UInt32(extra[j])
        },
        forall|extra: Seq<u32>| l.data_type() != DataType::UInt32 ==> #[trigger] l.append_uint32s(extra) == (
            Err::<(), ValueError>(ValueError::TypeMismatch { expected: DataType::UInt32, actual: l.data_type() }),
            l,
        ),
        forall|extra: Seq<u64>| l.data_type() == DataType::UInt64 ==> {
            let (r, after) = #[trigger] l.append_uint64s(extra);
            &&& r is Ok
            &&& after.data_type() == DataType::UInt64
            &&& after.count() == l.count() + extra.len()
            &&& forall|i: int| 0 <= i < l.count() ==> after.element(i) == l.element(i)
            &&& forall|j: int| 0 <= j < extra.len() ==> after.element(l.count() + j) == ValueView::UInt64(extra[j])
        },
        forall|extra: Seq<u64>| l.data_type() != DataType::UInt64 ==> #[trigger] l.append_uint64s(extra) == (
            Err::<(), ValueError>(ValueError::TypeMismatch { expected: DataType::UInt64, actual: l.data_type() }),
            l,
        ),
        forall|extra: Seq<u128>| l.data_type() == DataType::UInt128 ==> {
            let (r, after) = #[trigger] l.append_uint128s(extra);
            &&& r is Ok
            &&& after.data_type() == DataType::UInt128
            &&& after.count() == l.count() + extra.len()
            &&& forall|i: int| 0 <= i < l.count() ==> after.element(i) == l.element(i)
            &&& forall|j: int| 0 <= j < extra.len() ==> after.element(l.count() + j) == ValueView::UInt128(extra[j])
        },
        forall|extra: Seq<u128>| l.data_type() != DataType::UInt128 ==> #[trigger] l.append_uint128s(extra) == (
            Err::<(), ValueError>(ValueError::TypeMismatch { expected: DataType::UInt128, actual: l.data_type() }),
            l,
        ),
        forall|extra: Seq<isize>| l.data_type() == DataType::IntSize ==> {
            let (r, after) = #[trigger] l.append_intsizes(extra);
            &&& r is Ok
            &&& after.data_type() == DataType::IntSize
            &&& after.count() == l.count() + extra.len()
            &&& forall|i: int| 0 <= i < l.count() ==> after.element(i) == l.element(i)
            &&& forall|j: int| 0 <= j < extra.len() ==> after.element(l.count() + j) == ValueView::IntSize(extra[j])
        },
        forall|extra: Seq<isize>| l.data_type() != DataType::IntSize ==> #[trigger] l.append_intsizes(extra) == (
            Err::<(), ValueError>(ValueError::TypeMismatch { expected: DataType::IntSize, actual: l.data_type() }),
            l,
        ),
        forall|extra: Seq<usize>| l.data_type() == DataType::UIntSize ==> {
            let (r, after) = #[trigger] l.append_uintsizes(extra);
            &&& r is Ok
            &&& after.data_type() == DataType::UIntSize
            &&& after.count() == l.count() + extra.len()
            &&& forall|i: int| 0 <= i < l.count() ==> after.element(i) == l.element(i)
            &&& forall|j: int| 0 <= j < extra.len() ==> after.element(l.count() + j) == ValueView::UIntSize(extra[j])
        },
        forall|extra: Seq<usize>| l.data_type() != DataType::UIntSize ==> #[trigger] l.append_uintsizes(extra) == (
            Err::<(), ValueError>(ValueError::TypeMismatch { expected: DataType::UIntSize, actual: l.data_type() }),
            l,
        ),
        forall|extra: Seq<u32>| l.data_type() == DataType::Float32 ==> {
            let (r, after) = #[trigger] l.append_float32s_bits(extra);
            &&& r is Ok
            &&& after.data_type() == DataType::Float32
            &&& after.count() == l.count() + extra.len()
            &&& forall|i: int| 0 <= i < l.count() ==> after.element(i) == l.element(i)
            &&& forall|j: int| 0 <= j < extra.len() ==> after.element(l.count() + j) == ValueView::Float32(extra[j])
        },
        forall|extra: Seq<u32>| l.data_type() != DataType::Float32 ==> #[trigger] l.append_float32s_bits(extra) == (
            Err::<(), ValueError>(ValueError::TypeMismatch { expected: DataType::Float32, actual: l.data_type() }),
            l,
        ),
        forall|extra: Seq<u64>| l.data_type() == DataType::Float64 ==> {
            let (r, after) = #[trigger] l.append_float64s_bits(extra);
            &&& r is Ok
            &&& after.data_type() == DataType::Float64
            &&& after.count() == l.count() + extra.len()
            &&& forall|i: int| 0 <= i < l.count() ==> after.element(i) == l.element(i)
            &&& forall|j: int| 0 <= j < extra.len() ==> after.element(l.count() + j) == ValueView::Float64(extra[j])
        },
        forall|extra: Seq<u64>| l.data_type() != DataType::Float64 ==> #[trigger] l.append_float64s_bits(extra) == (
            Err::<(), ValueError>(ValueError::TypeMismatch { expected: DataType::Float64, actual: l.data_type() }),
            l,
        ),
        forall|extra: Seq<BigInt>| l.data_type() == DataType::BigInteger ==> {
            let (r, after) = #[trigger] l.append_bigintegers(extra);
            &&& r is Ok
            &&& after.data_type() == DataType::BigInteger
            &&& after.count() == l.count() + extra.len()
            &&& forall|i: int| 0 <= i < l.count() ==> after.element(i) == l.element(i)
            &&& forall|j: int| 0 <= j < extra.len() ==> after.element(l.count() + j) == ValueView::BigInteger(extra[j])
        },
        forall|extra: Seq<BigInt>| l.data_type() != DataType::BigInteger ==> #[trigger] l.append_bigintegers(extra) == (
            Err::<(), ValueError>(ValueError::TypeMismatch { expected: DataType::BigInteger, actual: l.data_type() }),
            l,
        ),
        forall|extra: Seq<BigDecimal>| l.data_type() == DataType::BigDecimal ==> {
            let (r, after) = #[trigger] l.append_bigdecimals(extra);
            &&& r is Ok
            &&& after.data_type() == DataType::BigDecimal
            &&& after.count() == l.count() + extra.len()
            &&& forall|i: int| 0 <= i < l.count() ==> after.element(i) == l.element(i)
            &&& forall|j: int| 0 <= j < extra.len() ==> after.element(l.count() + j) == ValueView::BigDecimal(extra[j])
        },
        forall|extra: Seq<BigDecimal>| l.data_type() != DataType::BigDecimal ==> #[trigger] l.append_bigdecimals(extra) == (
            Err::<(), ValueError>(ValueError::TypeMismatch { expected: DataType::BigDecimal, actual: l.data_type() }),
            l,
        ),
        forall|extra: Seq<Seq<char>>| l.data_type() == DataType::String ==> {
            let (r, after) = #[trigger] l.append_strings(extra);
            &&& r is Ok
            &&& after.data_type() == DataType::String
            &&& after.count() == l.count() + extra.len()
            &&& forall|i: int| 0 <= i < l.count() ==> after.element(i) == l.element(i)
            &&& forall|j: int| 0 <= j < extra.len() ==> after.element(l.count() + j) == ValueView::String(extra[j])
        },
        forall|extra: Seq<Seq<char>>| l.data_type() != DataType::String ==> #[trigger] l.append_strings(extra) == (
            Err::<(), ValueError>(ValueError::TypeMismatch { expected: DataType::String, actual: l.data_type() }),
            l,
        ),
        forall|extra: Seq<NaiveDate>| l.data_type() == DataType::Date ==> {
            let (r, after) = #[trigger] l.append_dates(extra);
            &&& r is Ok
            &&& after.data_type() == DataType::Date
            &&& after.count() == l.count() + extra.len()
            &&& forall|i: int| 0 <= i < l.count() ==> after.element(i) == l.element(i)
            &&& forall|j: int| 0 <= j < extra.len() ==> after.element(l.count() + j) == ValueView::Date(extra[j])
        },
        forall|extra: Seq<NaiveDate>| l.data_type() != DataType::Date ==> #[trigger] l.append_dates(extra) == (
            Err::<(), ValueError>(ValueError::TypeMismatch { expected: DataType::Date, actual: l.data_type() }),
            l,
        ),
        forall|extra: Seq<NaiveTime>| l.data_type() == DataType::Time ==> {
            let (r, after) = #[trigger] l.append_times(extra);
            &&& r is Ok
            &&& after.data_type() == DataType::Time
            &&& after.count() == l.count() + extra.len()
            &&& forall|i: int| 0 <= i < l.count() ==> after.element(i) == l.element(i)
            &&& forall|j: int| 0 <= j < extra.len() ==> after.element(l.count() + j) == ValueView::Time(extra[j])
        },
        forall|extra: Seq<NaiveTime>| l.data_type() != DataType::Time ==> #[trigger] l.append_times(extra) == (
            Err::<(), ValueError>(ValueError::TypeMismatch { expected: DataType::Time, actual: l.data_type() }),
            l,
        ),
        forall|extra: Seq<NaiveDateTime>| l.data_type() == DataType::DateTime ==> {
            let (r, after) = #[trigger] l.append_datetimes(extra);
            &&& r is Ok
            &&& after.data_type() == DataType::DateTime
            &&& after.count() == l.count() + extra.len()
            &&& forall|i: int| 0 <= i < l.count() ==> after.element(i) == l.element(i)
            &&& forall|j: int| 0 <= j < extra.len() ==> after.element(l.count() + j) == ValueView::DateTime(extra[j])
        },
        forall|extra: Seq<NaiveDateTime>| l.data_type() != DataType::DateTime ==> #[trigger] l.append_datetimes(extra) == (
            Err::<(), ValueError>(ValueError::TypeMismatch { expected: DataType::DateTime, actual: l.data_type() }),
            l,
        ),
        forall|extra: Seq<UtcInstant>| l.data_type() == DataType::Instant ==> {
            let (r, after) = #[trigger] l.append_instants(extra);
            &&& r is Ok
            &&& after.data_type() == DataType::Instant
            &&& after.count() == l.count() + extra.len()
            &&& forall|i: int| 0 <= i < l.count() ==> after.element(i) == l.element(i)
            &&& forall|j: int| 0 <= j < extra.len() ==> after.element(l.count() + j) == ValueView::Instant(extra[j])
        },
        forall|extra: Seq<UtcInstant>| l.data_type() != DataType::Instant ==> #[trigger] l.append_instants(extra) == (
            Err::<(), ValueError>(ValueError::TypeMismatch { expected: DataType::Instant, actual: l.data_type() }),
            l,
        ),
        forall|extra: Seq<Duration>| l.data_type() == DataType::Duration ==> {
            let (r, after) = #[trigger] l.append_durations(extra);
            &&& r is Ok
            &&& after.data_type() == DataType::Duration
            &&& after.count() == l.count() + extra.len()
            &&& forall|i: int| 0 <= i < l.count() ==> after.element(i) == l.element(i)
            &&& forall|j: int| 0 <= j < extra.len() ==> after.element(l.count() + j) == ValueView::Duration(extra[j])
        },
        forall|extra: Seq<Duration>| l.data_type() != DataType::Duration ==> #[trigger] l.append_durations(extra) == (
            Err::<(), ValueError>(ValueError::TypeMismatch { expected: DataType::Duration, actual: l.data_type() }),
            l,
        ),
        forall|extra: Seq<Url>| l.data_type() == DataType::Url ==> {
            let (r, after) = #[trigger] l.append_urls(extra);
            &&& r is Ok
            &&& after.data_type() == DataType::Url
            &&& after.count() == l.count() + extra.len()
            &&& forall|i: int| 0 <= i < l.count() ==> after.element(i) == l.element(i)
            &&& forall|j: int| 0 <= j < extra.len() ==> after.element(l.count() + j) == ValueView::Url(extra[j])
        },
        forall|extra: Seq<Url>| l.data_type() != DataType::Url ==> #[trigger] l.append_urls(extra) == (
            Err::<(), ValueError>(ValueError::TypeMismatch { expected: DataType::Url, actual: l.data_type() }),
            l,
        ),
        forall|extra: Seq<Map<String, String>>| l.data_type() == DataType::StringMap ==> {
            let (r, after) = #[trigger] l.append_string_maps(extra);
            &&& r is Ok
            &&& after.data_type() == DataType::StringMap
            &&& after.count() == l.count() + extra.len()
            &&& forall|i: int| 0 <= i < l.count() ==> after.element(i) == l.element(i)
            &&& forall|j: int| 0 <= j < extra.len() ==> after.element(l.count() + j) == ValueView::StringMap(extra[j])
        },
        forall|extra: Seq<Map<String, String>>| l.data_type() != DataType::StringMap ==> #[trigger] l.append_string_maps(extra) == (
            Err::<(), ValueError>(ValueError::TypeMismatch { expected: DataType::StringMap, actual: l.data_type() }),
            l,
        ),
        forall|extra: Seq<JsonValue>| l.data_type() == DataType::Json ==> {
            let (r, after) = #[trigger] l.append_jsons(extra);
            &&& r is Ok
            &&& after.data_type() == DataType::Json
            &&& after.count() == l.count() + extra.len()
            &&& forall|i: int| 0 <= i < l.count() ==> after.element(i) == l.element(i)
            &&& forall|j: int| 0 <= j < extra.len() ==> after.element(l.count() + j) == ValueView::Json(extra[j])
        },
        forall|extra: Seq<JsonValue>| l.data_type() != DataType::Json ==> #[trigger] l.append_jsons(extra) == (
            Err::<(), ValueError>(ValueError::TypeMismatch { expected: DataType::Json, actual: l.data_type() }),
            l,
        ),
{
}

/// Merging a list of the same type appends its items after the existing
/// ones; merging a list of another type is refused with a mismatch that
/// names both types, and leaves the list unchanged.
pub proof fn law_merge_appends(a: MultiValuesView, b: MultiValuesView)
    ensures
        a.data_type() == b.data_type() ==> {
            let (r, after) = a.merged(b);
            &&& r is Ok
            &&& after.data_type() == a.data_type()
            &&& after.count() == a.count() + b.count()
            &&& forall|i: int| 0 <= i < a.count() ==> #[trigger] after.element(i) == a.element(i)
            &&& forall|j: int| 0 <= j < b.count() ==> #[trigger] after.element(a.count() + j) == b.element(j)
        },
        a.data_type() != b.data_type() ==> a.merged(b) == (
            Err::<(), ValueError>(ValueError::TypeMismatch { expected: a.data_type(), actual: b.data_type() }),
            a,
        ),
{
}

/// A list made from a single value converts back to that value.
pub proof fn law_value_list_round_trip(v: ValueView)
    ensures
        MultiValuesView::of_value(v).first_value() == v,
        MultiValuesView::of_value(v).data_type() == v.data_type(),
        MultiValuesView::of_value(v).count() == if v is Empty { 0nat } else { 1nat },
{
}

/// Clearing a list keeps its data type and leaves no item.
pub proof fn law_list_clear_keeps_type(l: MultiValuesView)
    ensures
        l.cleared().data_type() == l.data_type(),
        l.cleared().count() == 0,
        l.cleared().first_value() == ValueView::Empty(l.data_type()),
{
}

/// A named list made from a named value converts back to that named value.
pub proof fn law_named_round_trip(n: NamedValueView)
    ensures
        ({
            let list = NamedMultiValuesView { name: n.name, value: MultiValuesView::of_value(n.value) };
            NamedValueView { name: list.name, value: list.value.first_value() } == n
        }),
{
}


// ---------------------------------------------------------------------------
// Conversions of booleans, word-sized integers and durations
// ---------------------------------------------------------------------------

/// Converting an integer to `usize` or `isize`, or a word-sized integer to
/// another integer type that takes it, succeeds exactly when the number lies
/// in the range of the target type.
pub proof fn law_word_sized_conversion_in_range()
    ensures
        forall|x: i8| (#[trigger] to_usize_spec(ValueView::Int8(x)) is Ok) <==> (0 <= x <= usize::MAX),
        forall|x: i16| (#[trigger] to_usize_spec(ValueView::Int16(x)) is Ok) <==> (0 <= x <= usize::MAX),
        forall|x: i32| (#[trigger] to_usize_spec(ValueView::Int32(x)) is Ok) <==> (0 <= x <= usize::MAX),
        forall|x: i64| (#[trigger] to_usize_spec(ValueView::Int64(x)) is Ok) <==> (0 <= x <= usize::MAX),
        forall|x: i128| (#[trigger] to_usize_spec(ValueView::Int128(x)) is Ok) <==> (0 <= x <= usize::MAX),
        forall|x: isize| (#[trigger] to_usize_spec(ValueView::IntSize(x)) is Ok) <==> (0 <= x <= usize::MAX),
        forall|x: u8| (#[trigger] to_usize_spec(ValueView::UInt8(x)) is Ok) <==> (0 <= x <= usize::MAX),
        forall|x: u16| (#[trigger] to_usize_spec(ValueView::UInt16(x)) is Ok) <==> (0 <= x <= usize::MAX),
        forall|x: u32| (#[trigger] to_usize_spec(ValueView::UInt32(x)) is Ok) <==> (0 <= x <= usize::MAX),
        forall|x: u64| (#[trigger] to_usize_spec(ValueView::UInt64(x)) is Ok) <==> (0 <= x <= usize::MAX),
        forall|x: u128| (#[trigger] to_usize_spec(ValueView::UInt128(x)) is Ok) <==> (0 <= x <= usize::MAX),
        forall|x: usize| (#[trigger] to_usize_spec(ValueView::UIntSize(x)) is Ok) <==> (0 <= x <= usize::MAX),
        forall|x: i8| (#[trigger] to_isize_spec(ValueView::Int8(x)) is Ok) <==> (isize::MIN <= x <= isize::MAX),
        forall|x: i16| (#[trigger] to_isize_spec(ValueView::Int16(x)) is Ok) <==> (isize::MIN <= x <= isize::MAX),
        forall|x: i32| (#[trigger] to_isize_spec(ValueView::Int32(x)) is Ok) <==> (isize::MIN <= x <= isize::MAX),
        forall|x: i64| (#[trigger] to_isize_spec(ValueView::Int64(x)) is Ok) <==> (isize::MIN <= x <= isize::MAX),
        forall|x: i128| (#[trigger] to_isize_spec(ValueView::Int128(x)) is Ok) <==> (isize::MIN <= x <= isize::MAX),
        forall|x: isize| (#[trigger] to_isize_spec(ValueView::IntSize(x)) is Ok) <==> (isize::MIN <= x <= isize::MAX),
        forall|x: u8| (#[trigger] to_isize_spec(ValueView::UInt8(x)) is Ok) <==> (isize::MIN <= x <= isize::MAX),
        forall|x: u16| (#[trigger] to_isize_spec(ValueView::UInt16(x)) is Ok) <==> (isize::MIN <= x <= isize::MAX),
        forall|x: u32| (#[trigger] to_isize_spec(ValueView::UInt32(x)) is Ok) <==> (isize::MIN <= x <= isize::MAX),
        forall|x: u64| (#[trigger] to_isize_spec(ValueView::UInt64(x)) is Ok) <==> (isize::MIN <= x <= isize::MAX),
        forall|x: u128| (#[trigger] to_isize_spec(ValueView::UInt128(x)) is Ok) <==> (isize::MIN <= x <= isize::MAX),
        forall|x: usize| (#[trigger] to_isize_spec(ValueView::UIntSize(x)) is Ok) <==> (isize::MIN <= x <= isize::MAX),
        forall|x: isize| (#[trigger] to_i8_spec(ValueView::IntSize(x)) is Ok) <==> (i8::MIN <= x <= i8::MAX),
        forall|x: usize| (#[trigger] to_i8_spec(ValueView::UIntSize(x)) is Ok) <==> (i8::MIN <= x <= i8::MAX),
        forall|x: isize| (#[trigger] to_i16_spec(ValueView::IntSize(x)) is Ok) <==> (i16::MIN <= x <= i16::MAX),
        forall|x: usize| (#[trigger] to_i16_spec(ValueView::UIntSize(x)) is Ok) <==> (i16::MIN <= x <= i16::MAX),
        forall|x: isize| (#[trigger] to_i128_spec(ValueView::IntSize(x)) is Ok) <==> (i128::MIN <= x <= i128::MAX),
        forall|x: usize| (#[trigger] to_i128_spec(ValueView::UIntSize(x)) is Ok) <==> (i128::MIN <= x <= i128::MAX),
{
}

/// Converting a boolean to any integer type gives 1 for `true` and 0 for
/// `false`.
pub proof fn law_bool_converts_to_one_or_zero()
    ensures
        forall|b: bool| #[trigger] to_i8_spec(ValueView::Bool(b)) == Ok::<int, ValueErrorView>(if b { 1 } else { 0 }),
        forall|b: bool| #[trigger] to_i16_spec(ValueView::Bool(b)) == Ok::<int, ValueErrorView>(if b { 1 } else { 0 }),
        forall|b: bool| #[trigger] to_i32_spec(ValueView::Bool(b)) == Ok::<int, ValueErrorView>(if b { 1 } else { 0 }),
        forall|b: bool| #[trigger] to_i64_spec(ValueView::Bool(b)) == Ok::<int, ValueErrorView>(if b { 1 } else { 0 }),
        forall|b: bool| #[trigger] to_i128_spec(ValueView::Bool(b)) == Ok::<int, ValueErrorView>(if b { 1 } else { 0 }),
        forall|b: bool| #[trigger] to_isize_spec(ValueView::Bool(b)) == Ok::<int, ValueErrorView>(if b { 1 } else { 0 }),
        forall|b: bool| #[trigger] to_u8_spec(ValueView::Bool(b)) == Ok::<int, ValueErrorView>(if b { 1 } else { 0 }),
        forall|b: bool| #[trigger] to_u16_spec(ValueView::Bool(b)) == Ok::<int, ValueErrorView>(if b { 1 } else { 0 }),
        forall|b: bool| #[trigger] to_u32_spec(ValueView::Bool(b)) == Ok::<int, ValueErrorView>(if b { 1 } else { 0 }),
        forall|b: bool| #[trigger] to_u64_spec(ValueView::Bool(b)) == Ok::<int, ValueErrorView>(if b { 1 } else { 0 }),
        forall|b: bool| #[trigger] to_u128_spec(ValueView::Bool(b)) == Ok::<int, ValueErrorView>(if b { 1 } else { 0 }),
        forall|b: bool| #[trigger] to_usize_spec(ValueView::Bool(b)) == Ok::<int, ValueErrorView>(if b { 1 } else { 0 }),
{
}

/// Converting an integer to a boolean gives `true` exactly when the number
/// is not zero.
pub proof fn law_integer_to_bool_is_non_zero()
    ensures
        forall|x: i8| #[trigger] to_bool_spec(ValueView::Int8(x)) == Ok::<bool, ValueErrorView>(x != 0),
        forall|x: i16| #[trigger] to_bool_spec(ValueView::Int16(x)) == Ok::<bool, ValueErrorView>(x != 0),
        forall|x: i32| #[trigger] to_bool_spec(ValueView::Int32(x)) == Ok::<bool, ValueErrorView>(x != 0),
        forall|x: i64| #[trigger] to_bool_spec(ValueView::Int64(x)) == Ok::<bool, ValueErrorView>(x != 0),
        forall|x: i128| #[trigger] to_bool_spec(ValueView::Int128(x)) == Ok::<bool, ValueErrorView>(x != 0),
        forall|x: u8| #[trigger] to_bool_spec(ValueView::UInt8(x)) == Ok::<bool, ValueErrorView>(x != 0),
        forall|x: u16| #[trigger] to_bool_spec(ValueView::UInt16(x)) == Ok::<bool, ValueErrorView>(x != 0),
        forall|x: u32| #[trigger] to_bool_spec(ValueView::UInt32(x)) == Ok::<bool, ValueErrorView>(x != 0),
        forall|x: u64| #[trigger] to_bool_spec(ValueView::UInt64(x)) == Ok::<bool, ValueErrorView>(x != 0),
        forall|x: u128| #[trigger] to_bool_spec(ValueView::UInt128(x)) == Ok::<bool, ValueErrorView>(x != 0),
{
}

/// The text of a boolean is `true` or `false`, and it converts back to the
/// same boolean.
pub proof fn law_bool_text_round_trip()
    ensures
        to_text_spec(ValueView::Bool(true)) == Some(Ok::<Seq<char>, ValueErrorView>("true"@)),
        to_text_spec(ValueView::Bool(false)) == Some(Ok::<Seq<char>, ValueErrorView>("false"@)),
        forall|b: bool| #[trigger] to_text_spec(ValueView::Bool(b)) matches Some(Ok(t))
            && to_bool_spec(ValueView::String(t)) == Ok::<bool, ValueErrorView>(b),
{
    reveal_strlit("true");
    reveal_strlit("false");
    assert("true"@ != "false"@) by {
        assert("true"@[0] != "false"@[0]);
    }
}

/// Text converts to a duration only when, without its surrounding white
/// space, it is an unsigned decimal number of nanoseconds followed by `ns`;
/// the duration's nanoseconds are that number. Every such number whose whole
/// seconds fit in `u64`, written in decimal and followed by `ns`, converts
/// to itself.
pub proof fn law_duration_text_shape()
    ensures
        forall|s: Seq<char>| #[trigger] duration_nanos_from_text(s) is Ok ==> {
            let t = trim_spec(s);
            &&& t.len() >= 2
            &&& t.subrange(t.len() - 2, t.len() as int) == "ns"@
            &&& parse_unsigned_spec(t.subrange(0, t.len() - 2), u128::MAX as int)
                == Some(duration_nanos_from_text(s)->Ok_0 as int)
        },
        forall|n: nat| n <= u128::MAX && n / 1_000_000_000 <= u64::MAX ==> #[trigger] duration_nanos_from_text(
            decimal_text(n) + "ns"@,
        ) == Ok::<nat, ValueErrorView>(n),
{
    reveal_strlit("ns");
    assert forall|s: Seq<char>| #[trigger] duration_nanos_from_text(s) is Ok implies {
        let t = trim_spec(s);
        &&& t.len() >= 2
        &&& t.subrange(t.len() - 2, t.len() as int) == "ns"@
        &&& parse_unsigned_spec(t.subrange(0, t.len() - 2), u128::MAX as int)
            == Some(duration_nanos_from_text(s)->Ok_0 as int)
    } by {
        let t = trim_spec(s);
        assert(t.subrange(t.len() - 2, t.len() as int) =~= "ns"@);
    }
    assert forall|n: nat| n <= u128::MAX && n / 1_000_000_000 <= u64::MAX implies #[trigger] duration_nanos_from_text(
        decimal_text(n) + "ns"@,
    ) == Ok::<nat, ValueErrorView>(n) by {
        let digits = decimal_text(n);
        let t = digits + "ns"@;
        lemma_decimal_text_value(n);
        assert(t[0] == digits[0]);
        assert(t.last() == 's');
        lemma_trim_of_unpadded(t);
        assert(t.subrange(0, t.len() - 2) =~= digits);
        lemma_parse_unsigned_decimal(n, u128::MAX as int);
    }
}


/// Converting a character to an integer type gives its code point: a type
/// of 32 bits or more takes every character, and a narrower type exactly
/// those whose code point lies in its range.
pub proof fn law_char_converts_to_code_point()
    ensures
        forall|c: char| ((#[trigger] to_i8_spec(ValueView::Char(c)) is Ok) <==> i8::MIN <= (c as int) <= i8::MAX)
            && (to_i8_spec(ValueView::Char(c)) is Ok ==> to_i8_spec(ValueView::Char(c))->Ok_0 == c as int),
        forall|c: char| ((#[trigger] to_i16_spec(ValueView::Char(c)) is Ok) <==> i16::MIN <= (c as int) <= i16::MAX)
            && (to_i16_spec(ValueView::Char(c)) is Ok ==> to_i16_spec(ValueView::Char(c))->Ok_0 == c as int),
        forall|c: char| ((#[trigger] to_u8_spec(ValueView::Char(c)) is Ok) <==> 0 <= (c as int) <= u8::MAX)
            && (to_u8_spec(ValueView::Char(c)) is Ok ==> to_u8_spec(ValueView::Char(c))->Ok_0 == c as int),
        forall|c: char| ((#[trigger] to_u16_spec(ValueView::Char(c)) is Ok) <==> 0 <= (c as int) <= u16::MAX)
            && (to_u16_spec(ValueView::Char(c)) is Ok ==> to_u16_spec(ValueView::Char(c))->Ok_0 == c as int),
        forall|c: char| #[trigger] to_i32_spec(ValueView::Char(c)) == Ok::<int, ValueErrorView>(c as int),
        forall|c: char| #[trigger] to_i64_spec(ValueView::Char(c)) == Ok::<int, ValueErrorView>(c as int),
        forall|c: char| #[trigger] to_i128_spec(ValueView::Char(c)) == Ok::<int, ValueErrorView>(c as int),
        forall|c: char| #[trigger] to_isize_spec(ValueView::Char(c)) == Ok::<int, ValueErrorView>(c as int),
        forall|c: char| #[trigger] to_u32_spec(ValueView::Char(c)) == Ok::<int, ValueErrorView>(c as int),
        forall|c: char| #[trigger] to_u64_spec(ValueView::Char(c)) == Ok::<int, ValueErrorView>(c as int),
        forall|c: char| #[trigger] to_u128_spec(ValueView::Char(c)) == Ok::<int, ValueErrorView>(c as int),
        forall|c: char| #[trigger] to_usize_spec(ValueView::Char(c)) == Ok::<int, ValueErrorView>(c as int),
{
}

/// Converting a value with no item to any of these types reports that there
/// is no value.
pub proof fn law_empty_converts_to_no_value()
    ensures
        forall|d: DataType| #[trigger] to_i8_spec(ValueView::Empty(d)) == Err::<int, ValueErrorView>(ValueErrorView::NoValue),
        forall|d: DataType| #[trigger] to_i16_spec(ValueView::Empty(d)) == Err::<int, ValueErrorView>(ValueErrorView::NoValue),
        forall|d: DataType| #[trigger] to_i32_spec(ValueView::Empty(d)) == Err::<int, ValueErrorView>(ValueErrorView::NoValue),
        forall|d: DataType| #[trigger] to_i64_spec(ValueView::Empty(d)) == Err::<int, ValueErrorView>(ValueErrorView::NoValue),
        forall|d: DataType| #[trigger] to_i128_spec(ValueView::Empty(d)) == Err::<int, ValueErrorView>(ValueErrorView::NoValue),
        forall|d: DataType| #[trigger] to_isize_spec(ValueView::Empty(d)) == Err::<int, ValueErrorView>(ValueErrorView::NoValue),
        forall|d: DataType| #[trigger] to_u8_spec(ValueView::Empty(d)) == Err::<int, ValueErrorView>(ValueErrorView::NoValue),
        forall|d: DataType| #[trigger] to_u16_spec(ValueView::Empty(d)) == Err::<int, ValueErrorView>(ValueErrorView::NoValue),
        forall|d: DataType| #[trigger] to_u32_spec(ValueView::Empty(d)) == Err::<int, ValueErrorView>(ValueErrorView::NoValue),
        forall|d: DataType| #[trigger] to_u64_spec(ValueView::Empty(d)) == Err::<int, ValueErrorView>(ValueErrorView::NoValue),
        forall|d: DataType| #[trigger] to_u128_spec(ValueView::Empty(d)) == Err::<int, ValueErrorView>(ValueErrorView::NoValue),
        forall|d: DataType| #[trigger] to_usize_spec(ValueView::Empty(d)) == Err::<int, ValueErrorView>(ValueErrorView::NoValue),
        forall|d: DataType| #[trigger] to_bool_spec(ValueView::Empty(d)) == Err::<bool, ValueErrorView>(ValueErrorView::NoValue),
        forall|d: DataType| #[trigger] to_text_spec(ValueView::Empty(d)) == Some(Err::<Seq<char>, ValueErrorView>(ValueErrorView::NoValue)),
{
}

/// Text converts to a boolean only when it is exactly `true` or `false`,
/// and gives `true` exactly for `true`.
pub proof fn law_text_to_bool()
    ensures
        forall|s: Seq<char>| (#[trigger] to_bool_spec(ValueView::String(s)) is Ok) <==> (s == "true"@ || s == "false"@),
        forall|s: Seq<char>| #[trigger] to_bool_spec(ValueView::String(s)) is Ok
            ==> to_bool_spec(ValueView::String(s))->Ok_0 == (s == "true"@),
{
}

} // verus!
