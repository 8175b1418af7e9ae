//! The conversion rules of [`Value::to`]: which stored types convert to
//! which targets, and what each conversion gives or reports.
use vstd::prelude::*;

use bigdecimal::BigDecimal;
use chrono::{NaiveDate, NaiveDateTime, NaiveTime};
use num_bigint::BigInt;
use std::collections::HashMap;
use std::time::Duration;
use url::Url;

use crate::data_type::DataType;
use crate::error::{err_view, result_view, ValueError, ValueErrorView, ValueResult};
use crate::instant::{rfc3339_text, UtcInstant};
use crate::float_bits::{float32_bits_to_int, float32_to_int, float64_bits_to_int, float64_to_int};
use crate::outside::{
    bigdecimal_to_i128, bigdecimal_to_i128_result, bigdecimal_to_i16, bigdecimal_to_i16_result,
    bigdecimal_to_i32, bigdecimal_to_i32_result, bigdecimal_to_i64, bigdecimal_to_i64_result,
    bigdecimal_to_i8, bigdecimal_to_i8_result, bigdecimal_to_isize, bigdecimal_to_isize_result,
    bigint_to_i128, bigint_to_i128_result, bigint_to_i16, bigint_to_i16_result,
    bigint_to_i32, bigint_to_i32_result, bigint_to_i64, bigint_to_i64_result,
    bigint_to_i8, bigint_to_i8_result, bigint_to_isize, bigint_to_isize_result,
    closed_range_message, require_in_closed_range_signed, require_in_closed_range_unsigned,
    bigdecimal_text, bigint_text, char_text, duration_as_nanos, duration_from_parts, duration_is_canonical, duration_nanos,
    duration_new,
    format_bigdecimal, format_bigint, format_json, format_naive_date, format_naive_datetime,
    format_naive_time, format_string_map, format_url, json_parse_outcome, json_text,
    naive_date_text, naive_datetime_text, naive_time_text, parse_json, parse_url,
    string_map_json, string_map_to_json, trim, trim_spec, url_parse_outcome, url_text,
};
use crate::sealed::ValueConverterSealed;
use crate::text::{
    decimal_text, format_i128, format_u128, parse_signed, parse_signed_spec, parse_unsigned,
    parse_unsigned_spec, signed_decimal_text,
};
use crate::value::{ok_view, Value, ValueView};
use crate::value_traits::ValueConverter;

verus! {

/// The outcome of a range check of `x` against `min..=max` for a conversion
/// to `target`: the value, or an error that names the target, the bounds and
/// the value.
pub open spec fn range_checked(target: Seq<char>, x: int, min: int, max: int) -> Result<int, ValueErrorView> {
    if min <= x <= max {
        Ok(x)
    } else {
        Err(ValueErrorView::ConversionError("Cannot convert value to "@ + target + ": "@
            + closed_range_message(
            signed_decimal_text(x),
            signed_decimal_text(min),
            signed_decimal_text(max),
        )))
    }
}

/// `x` when it lies in `min..=max`, else a conversion error with `message`.
pub open spec fn within_or(x: int, min: int, max: int, message: Seq<char>) -> Result<int, ValueErrorView> {
    if min <= x <= max {
        Ok(x)
    } else {
        Err(ValueErrorView::ConversionError(message))
    }
}

/// The text of a failed parse of `s` as `target`.
pub open spec fn cannot_convert_message(s: Seq<char>, target: Seq<char>) -> Seq<char> {
    "Cannot convert '"@ + s + "' to "@ + target
}

/// The parsed number, or the error for text `s` that does not parse as
/// `target`.
pub open spec fn parsed_or(s: Seq<char>, parsed: Option<int>, target: Seq<char>) -> Result<int, ValueErrorView> {
    match parsed {
        Some(n) => Ok(n),
        None => Err(ValueErrorView::ConversionError(cannot_convert_message(s, target))),
    }
}

/// Checks `min <= value <= max` for a conversion to `target`.
fn check_unsigned_range(value: u128, min: u128, max: u128, target: &str) -> (r: ValueResult<u128>)
    ensures
        match r {
            Ok(n) => range_checked(target@, value as int, min as int, max as int) == Ok::<int, ValueErrorView>(n as int),
            Err(e) => range_checked(target@, value as int, min as int, max as int) == Err::<int, ValueErrorView>(e@),
        },
{
    match require_in_closed_range_unsigned(value, min, max) {
        Ok(n) => Ok(n),
        Err(m) => {
            proof {
                reveal_strlit("Cannot convert value to ");
                reveal_strlit(": ");
            }
            let mut s = String::from_str("Cannot convert value to ");
            s.append(target);
            s.append(": ");
            s.append(m.as_str());
            Err(ValueError::ConversionError(s))
        },
    }
}

/// Checks `min <= value <= max` for a conversion to `target`.
fn check_signed_range(value: i128, min: i128, max: i128, target: &str) -> (r: ValueResult<i128>)
    ensures
        match r {
            Ok(n) => range_checked(target@, value as int, min as int, max as int) == Ok::<int, ValueErrorView>(n as int),
            Err(e) => range_checked(target@, value as int, min as int, max as int) == Err::<int, ValueErrorView>(e@),
        },
{
    match require_in_closed_range_signed(value, min, max) {
        Ok(n) => Ok(n),
        Err(m) => {
            proof {
                reveal_strlit("Cannot convert value to ");
                reveal_strlit(": ");
            }
            let mut s = String::from_str("Cannot convert value to ");
            s.append(target);
            s.append(": ");
            s.append(m.as_str());
            Err(ValueError::ConversionError(s))
        },
    }
}

/// The error text for `s` that does not parse as `target`.
fn cannot_convert_text(s: &str, target: &str) -> (r: String)
    ensures
        r@ == cannot_convert_message(s@, target@),
{
    proof {
        reveal_strlit("Cannot convert '");
        reveal_strlit("' to ");
    }
    let mut t = String::from_str("Cannot convert '");
    t.append(s);
    t.append("' to ");
    t.append(target);
    t
}

/// `m`, or the largest `usize` when that is smaller.
pub open spec fn usize_bounded(m: int) -> int {
    if usize::MAX < m {
        usize::MAX as int
    } else {
        m
    }
}

/// Computes `usize_bounded(m)`.
fn usize_bounded_exec(m: i128) -> (r: i128)
    requires
        m >= 0,
    ensures
        r == usize_bounded(m as int),
{
    if (usize::MAX as i128) < m {
        usize::MAX as i128
    } else {
        m
    }
}

/// What converting a value to `u8` gives, as an integer.
pub open spec fn to_u8_spec(v: ValueView) -> Result<int, ValueErrorView> {
    match v {
        ValueView::Bool(x) => Ok(if x { 1 } else { 0 }),
        ValueView::Char(x) => range_checked("u8"@, x as int, 0, 255),
        ValueView::Int8(x) => range_checked("u8"@, x as int, 0, 127),
        ValueView::Int16(x) => range_checked("u8"@, x as int, 0, 255),
        ValueView::Int32(x) => range_checked("u8"@, x as int, 0, 255),
        ValueView::Int64(x) => range_checked("u8"@, x as int, 0, 255),
        ValueView::Int128(x) => range_checked("u8"@, x as int, 0, 255),
        ValueView::UInt8(x) => Ok(x as int),
        ValueView::UInt16(x) => range_checked("u8"@, x as int, 0, 255),
        ValueView::UInt32(x) => range_checked("u8"@, x as int, 0, 255),
        ValueView::UInt64(x) => range_checked("u8"@, x as int, 0, 255),
        ValueView::UInt128(x) => range_checked("u8"@, x as int, 0, 255),
        ValueView::String(s) => parsed_or(s, parse_unsigned_spec(s, 255), "u8"@),
        ValueView::Empty(_) => Err(ValueErrorView::NoValue),
        _ => Err(ValueErrorView::ConversionFailed { from: v.data_type(), to: DataType::UInt8 }),
    }
}

impl ValueConverterSealed<u8> for Value {}

impl ValueConverter<u8> for Value {
    open spec fn convert_requires(v: ValueView) -> bool {
        true
    }

    open spec fn convert_ensures(v: ValueView, r: ValueResult<u8>) -> bool {
        match r {
            Ok(x) => to_u8_spec(v) == Ok::<int, ValueErrorView>(x as int),
            Err(e) => to_u8_spec(v) == Err::<int, ValueErrorView>(e@),
        }
    }

    fn convert(&self) -> (r: ValueResult<u8>) {
        proof {
            reveal_strlit("u8");
        }
        match self {
            Value::Bool(x) => Ok(if *x { 1 } else { 0 }),
            Value::Char(x) => match check_unsigned_range(*x as u32 as u128, 0u128, 255u128, "u8") {
                Ok(n) => Ok(n as u8),
                Err(e) => Err(e),
            },
            Value::Int8(x) => match check_signed_range(*x as i128, 0i128, 127i128, "u8") {
                Ok(n) => Ok(n as u8),
                Err(e) => Err(e),
            },
            Value::Int16(x) => match check_signed_range(*x as i128, 0i128, 255i128, "u8") {
                Ok(n) => Ok(n as u8),
                Err(e) => Err(e),
            },
            Value::Int32(x) => match check_signed_range(*x as i128, 0i128, 255i128, "u8") {
                Ok(n) => Ok(n as u8),
                Err(e) => Err(e),
            },
            Value::Int64(x) => match check_signed_range(*x as i128, 0i128, 255i128, "u8") {
                Ok(n) => Ok(n as u8),
                Err(e) => Err(e),
            },
            Value::Int128(x) => match check_signed_range(*x as i128, 0i128, 255i128, "u8") {
                Ok(n) => Ok(n as u8),
                Err(e) => Err(e),
            },
            Value::UInt8(x) => Ok(*x as u8),
            Value::UInt16(x) => match check_unsigned_range(*x as u128, 0u128, 255u128, "u8") {
                Ok(n) => Ok(n as u8),
                Err(e) => Err(e),
            },
            Value::UInt32(x) => match check_unsigned_range(*x as u128, 0u128, 255u128, "u8") {
                Ok(n) => Ok(n as u8),
                Err(e) => Err(e),
            },
            Value::UInt64(x) => match check_unsigned_range(*x as u128, 0u128, 255u128, "u8") {
                Ok(n) => Ok(n as u8),
                Err(e) => Err(e),
            },
            Value::UInt128(x) => match check_unsigned_range(*x as u128, 0u128, 255u128, "u8") {
                Ok(n) => Ok(n as u8),
                Err(e) => Err(e),
            },
            Value::String(s) => match parse_unsigned(s.as_str(), 255u128) {
                Some(n) => Ok(n as u8),
                None => Err(ValueError::ConversionError(cannot_convert_text(s.as_str(), "u8"))),
            },
            Value::Empty(_) => Err(ValueError::NoValue),
            _ => Err(ValueError::ConversionFailed { from: self.data_type(), to: DataType::UInt8 }),
        }
    }
}

/// What converting a value to `u16` gives, as an integer.
pub open spec fn to_u16_spec(v: ValueView) -> Result<int, ValueErrorView> {
    match v {
        ValueView::Bool(x) => Ok(if x { 1 } else { 0 }),
        ValueView::Char(x) => range_checked("u16"@, x as int, 0, 65535),
        ValueView::Int8(x) => range_checked("u16"@, x as int, 0, 127),
        ValueView::Int16(x) => range_checked("u16"@, x as int, 0, 32767),
        ValueView::Int32(x) => range_checked("u16"@, x as int, 0, 65535),
        ValueView::Int64(x) => range_checked("u16"@, x as int, 0, 65535),
        ValueView::Int128(x) => range_checked("u16"@, x as int, 0, 65535),
        ValueView::UInt8(x) => Ok(x as int),
        ValueView::UInt16(x) => Ok(x as int),
        ValueView::UInt32(x) => range_checked("u16"@, x as int, 0, 65535),
        ValueView::UInt64(x) => range_checked("u16"@, x as int, 0, 65535),
        ValueView::UInt128(x) => range_checked("u16"@, x as int, 0, 65535),
        ValueView::String(s) => parsed_or(s, parse_unsigned_spec(s, 65535), "u16"@),
        ValueView::Empty(_) => Err(ValueErrorView::NoValue),
        _ => Err(ValueErrorView::ConversionFailed { from: v.data_type(), to: DataType::UInt16 }),
    }
}

impl ValueConverterSealed<u16> for Value {}

impl ValueConverter<u16> for Value {
    open spec fn convert_requires(v: ValueView) -> bool {
        true
    }

    open spec fn convert_ensures(v: ValueView, r: ValueResult<u16>) -> bool {
        match r {
            Ok(x) => to_u16_spec(v) == Ok::<int, ValueErrorView>(x as int),
            Err(e) => to_u16_spec(v) == Err::<int, ValueErrorView>(e@),
        }
    }

    fn convert(&self) -> (r: ValueResult<u16>) {
        proof {
            reveal_strlit("u16");
        }
        match self {
            Value::Bool(x) => Ok(if *x { 1 } else { 0 }),
            Value::Char(x) => match check_unsigned_range(*x as u32 as u128, 0u128, 65535u128, "u16") {
                Ok(n) => Ok(n as u16),
                Err(e) => Err(e),
            },
            Value::Int8(x) => match check_signed_range(*x as i128, 0i128, 127i128, "u16") {
                Ok(n) => Ok(n as u16),
                Err(e) => Err(e),
            },
            Value::Int16(x) => match check_signed_range(*x as i128, 0i128, 32767i128, "u16") {
                Ok(n) => Ok(n as u16),
                Err(e) => Err(e),
            },
            Value::Int32(x) => match check_signed_range(*x as i128, 0i128, 65535i128, "u16") {
                Ok(n) => Ok(n as u16),
                Err(e) => Err(e),
            },
            Value::Int64(x) => match check_signed_range(*x as i128, 0i128, 65535i128, "u16") {
                Ok(n) => Ok(n as u16),
                Err(e) => Err(e),
            },
            Value::Int128(x) => match check_signed_range(*x as i128, 0i128, 65535i128, "u16") {
                Ok(n) => Ok(n as u16),
                Err(e) => Err(e),
            },
            Value::UInt8(x) => Ok(*x as u16),
            Value::UInt16(x) => Ok(*x as u16),
            Value::UInt32(x) => match check_unsigned_range(*x as u128, 0u128, 65535u128, "u16") {
                Ok(n) => Ok(n as u16),
                Err(e) => Err(e),
            },
            Value::UInt64(x) => match check_unsigned_range(*x as u128, 0u128, 65535u128, "u16") {
                Ok(n) => Ok(n as u16),
                Err(e) => Err(e),
            },
            Value::UInt128(x) => match check_unsigned_range(*x as u128, 0u128, 65535u128, "u16") {
                Ok(n) => Ok(n as u16),
                Err(e) => Err(e),
            },
            Value::String(s) => match parse_unsigned(s.as_str(), 65535u128) {
                Some(n) => Ok(n as u16),
                None => Err(ValueError::ConversionError(cannot_convert_text(s.as_str(), "u16"))),
            },
            Value::Empty(_) => Err(ValueError::NoValue),
            _ => Err(ValueError::ConversionFailed { from: self.data_type(), to: DataType::UInt16 }),
        }
    }
}

/// What converting a value to `u32` gives, as an integer.
pub open spec fn to_u32_spec(v: ValueView) -> Result<int, ValueErrorView> {
    match v {
        ValueView::Bool(x) => Ok(if x { 1 } else { 0 }),
        ValueView::Char(x) => Ok(x as int),
        ValueView::Int8(x) => range_checked("u32"@, x as int, 0, 127),
        ValueView::Int16(x) => range_checked("u32"@, x as int, 0, 32767),
        ValueView::Int32(x) => range_checked("u32"@, x as int, 0, 2147483647),
        ValueView::Int64(x) => range_checked("u32"@, x as int, 0, 4294967295),
        ValueView::Int128(x) => range_checked("u32"@, x as int, 0, 4294967295),
        ValueView::UInt8(x) => Ok(x as int),
        ValueView::UInt16(x) => Ok(x as int),
        ValueView::UInt32(x) => Ok(x as int),
        ValueView::UInt64(x) => range_checked("u32"@, x as int, 0, 4294967295),
        ValueView::UInt128(x) => range_checked("u32"@, x as int, 0, 4294967295),
        ValueView::String(s) => parsed_or(s, parse_unsigned_spec(s, 4294967295), "u32"@),
        ValueView::Empty(_) => Err(ValueErrorView::NoValue),
        _ => Err(ValueErrorView::ConversionFailed { from: v.data_type(), to: DataType::UInt32 }),
    }
}

impl ValueConverterSealed<u32> for Value {}

impl ValueConverter<u32> for Value {
    open spec fn convert_requires(v: ValueView) -> bool {
        true
    }

    open spec fn convert_ensures(v: ValueView, r: ValueResult<u32>) -> bool {
        match r {
            Ok(x) => to_u32_spec(v) == Ok::<int, ValueErrorView>(x as int),
            Err(e) => to_u32_spec(v) == Err::<int, ValueErrorView>(e@),
        }
    }

    fn convert(&self) -> (r: ValueResult<u32>) {
        proof {
            reveal_strlit("u32");
        }
        match self {
            Value::Bool(x) => Ok(if *x { 1 } else { 0 }),
            Value::Char(x) => Ok(*x as u32 as u32),
            Value::Int8(x) => match check_signed_range(*x as i128, 0i128, 127i128, "u32") {
                Ok(n) => Ok(n as u32),
                Err(e) => Err(e),
            },
            Value::Int16(x) => match check_signed_range(*x as i128, 0i128, 32767i128, "u32") {
                Ok(n) => Ok(n as u32),
                Err(e) => Err(e),
            },
            Value::Int32(x) => match check_signed_range(*x as i128, 0i128, 2147483647i128, "u32") {
                Ok(n) => Ok(n as u32),
                Err(e) => Err(e),
            },
            Value::Int64(x) => match check_signed_range(*x as i128, 0i128, 4294967295i128, "u32") {
                Ok(n) => Ok(n as u32),
                Err(e) => Err(e),
            },
            Value::Int128(x) => match check_signed_range(*x as i128, 0i128, 4294967295i128, "u32") {
                Ok(n) => Ok(n as u32),
                Err(e) => Err(e),
            },
            Value::UInt8(x) => Ok(*x as u32),
            Value::UInt16(x) => Ok(*x as u32),
            Value::UInt32(x) => Ok(*x as u32),
            Value::UInt64(x) => match check_unsigned_range(*x as u128, 0u128, 4294967295u128, "u32") {
                Ok(n) => Ok(n as u32),
                Err(e) => Err(e),
            },
            Value::UInt128(x) => match check_unsigned_range(*x as u128, 0u128, 4294967295u128, "u32") {
                Ok(n) => Ok(n as u32),
                Err(e) => Err(e),
            },
            Value::String(s) => match parse_unsigned(s.as_str(), 4294967295u128) {
                Some(n) => Ok(n as u32),
                None => Err(ValueError::ConversionError(cannot_convert_text(s.as_str(), "u32"))),
            },
            Value::Empty(_) => Err(ValueError::NoValue),
            _ => Err(ValueError::ConversionFailed { from: self.data_type(), to: DataType::UInt32 }),
        }
    }
}

/// What converting a value to `u64` gives, as an integer.
pub open spec fn to_u64_spec(v: ValueView) -> Result<int, ValueErrorView> {
    match v {
        ValueView::Bool(x) => Ok(if x { 1 } else { 0 }),
        ValueView::Char(x) => Ok(x as int),
        ValueView::Int8(x) => range_checked("u64"@, x as int, 0, 127),
        ValueView::Int16(x) => range_checked("u64"@, x as int, 0, 32767),
        ValueView::Int32(x) => range_checked("u64"@, x as int, 0, 2147483647),
        ValueView::Int64(x) => range_checked("u64"@, x as int, 0, 9223372036854775807),
        ValueView::Int128(x) => range_checked("u64"@, x as int, 0, 18446744073709551615),
        ValueView::UInt8(x) => Ok(x as int),
        ValueView::UInt16(x) => Ok(x as int),
        ValueView::UInt32(x) => Ok(x as int),
        ValueView::UInt64(x) => Ok(x as int),
        ValueView::UInt128(x) => range_checked("u64"@, x as int, 0, 18446744073709551615),
        ValueView::String(s) => parsed_or(s, parse_unsigned_spec(s, 18446744073709551615), "u64"@),
        ValueView::Empty(_) => Err(ValueErrorView::NoValue),
        _ => Err(ValueErrorView::ConversionFailed { from: v.data_type(), to: DataType::UInt64 }),
    }
}

impl ValueConverterSealed<u64> for Value {}

impl ValueConverter<u64> for Value {
    open spec fn convert_requires(v: ValueView) -> bool {
        true
    }

    open spec fn convert_ensures(v: ValueView, r: ValueResult<u64>) -> bool {
        match r {
            Ok(x) => to_u64_spec(v) == Ok::<int, ValueErrorView>(x as int),
            Err(e) => to_u64_spec(v) == Err::<int, ValueErrorView>(e@),
        }
    }

    fn convert(&self) -> (r: ValueResult<u64>) {
        proof {
            reveal_strlit("u64");
        }
        match self {
            Value::Bool(x) => Ok(if *x { 1 } else { 0 }),
            Value::Char(x) => Ok(*x as u32 as u64),
            Value::Int8(x) => match check_signed_range(*x as i128, 0i128, 127i128, "u64") {
                Ok(n) => Ok(n as u64),
                Err(e) => Err(e),
            },
            Value::Int16(x) => match check_signed_range(*x as i128, 0i128, 32767i128, "u64") {
                Ok(n) => Ok(n as u64),
                Err(e) => Err(e),
            },
            Value::Int32(x) => match check_signed_range(*x as i128, 0i128, 2147483647i128, "u64") {
                Ok(n) => Ok(n as u64),
                Err(e) => Err(e),
            },
            Value::Int64(x) => match check_signed_range(*x as i128, 0i128, 9223372036854775807i128, "u64") {
                Ok(n) => Ok(n as u64),
                Err(e) => Err(e),
            },
            Value::Int128(x) => match check_signed_range(*x as i128, 0i128, 18446744073709551615i128, "u64") {
                Ok(n) => Ok(n as u64),
                Err(e) => Err(e),
            },
            Value::UInt8(x) => Ok(*x as u64),
            Value::UInt16(x) => Ok(*x as u64),
            Value::UInt32(x) => Ok(*x as u64),
            Value::UInt64(x) => Ok(*x as u64),
            Value::UInt128(x) => match check_unsigned_range(*x as u128, 0u128, 18446744073709551615u128, "u64") {
                Ok(n) => Ok(n as u64),
                Err(e) => Err(e),
            },
            Value::String(s) => match parse_unsigned(s.as_str(), 18446744073709551615u128) {
                Some(n) => Ok(n as u64),
                None => Err(ValueError::ConversionError(cannot_convert_text(s.as_str(), "u64"))),
            },
            Value::Empty(_) => Err(ValueError::NoValue),
            _ => Err(ValueError::ConversionFailed { from: self.data_type(), to: DataType::UInt64 }),
        }
    }
}

/// What converting a value to `u128` gives, as an integer.
pub open spec fn to_u128_spec(v: ValueView) -> Result<int, ValueErrorView> {
    match v {
        ValueView::Bool(x) => Ok(if x { 1 } else { 0 }),
        ValueView::Char(x) => Ok(x as int),
        ValueView::Int8(x) => range_checked("u128"@, x as int, 0, 127),
        ValueView::Int16(x) => range_checked("u128"@, x as int, 0, 32767),
        ValueView::Int32(x) => range_checked("u128"@, x as int, 0, 2147483647),
        ValueView::Int64(x) => range_checked("u128"@, x as int, 0, 9223372036854775807),
        ValueView::Int128(x) => range_checked("u128"@, x as int, 0, 170141183460469231731687303715884105727),
        ValueView::UInt8(x) => Ok(x as int),
        ValueView::UInt16(x) => Ok(x as int),
        ValueView::UInt32(x) => Ok(x as int),
        ValueView::UInt64(x) => Ok(x as int),
        ValueView::UInt128(x) => Ok(x as int),
        ValueView::String(s) => parsed_or(s, parse_unsigned_spec(s, 340282366920938463463374607431768211455), "u128"@),
        ValueView::Empty(_) => Err(ValueErrorView::NoValue),
        _ => Err(ValueErrorView::ConversionFailed { from: v.data_type(), to: DataType::UInt128 }),
    }
}

impl ValueConverterSealed<u128> for Value {}

impl ValueConverter<u128> for Value {
    open spec fn convert_requires(v: ValueView) -> bool {
        true
    }

    open spec fn convert_ensures(v: ValueView, r: ValueResult<u128>) -> bool {
        match r {
            Ok(x) => to_u128_spec(v) == Ok::<int, ValueErrorView>(x as int),
            Err(e) => to_u128_spec(v) == Err::<int, ValueErrorView>(e@),
        }
    }

    fn convert(&self) -> (r: ValueResult<u128>) {
        proof {
            reveal_strlit("u128");
        }
        match self {
            Value::Bool(x) => Ok(if *x { 1 } else { 0 }),
            Value::Char(x) => Ok(*x as u32 as u128),
            Value::Int8(x) => match check_signed_range(*x as i128, 0i128, 127i128, "u128") {
                Ok(n) => Ok(n as u128),
                Err(e) => Err(e),
            },
            Value::Int16(x) => match check_signed_range(*x as i128, 0i128, 32767i128, "u128") {
                Ok(n) => Ok(n as u128),
                Err(e) => Err(e),
            },
            Value::Int32(x) => match check_signed_range(*x as i128, 0i128, 2147483647i128, "u128") {
                Ok(n) => Ok(n as u128),
                Err(e) => Err(e),
            },
            Value::Int64(x) => match check_signed_range(*x as i128, 0i128, 9223372036854775807i128, "u128") {
                Ok(n) => Ok(n as u128),
                Err(e) => Err(e),
            },
            Value::Int128(x) => match check_signed_range(*x as i128, 0i128, 170141183460469231731687303715884105727i128, "u128") {
                Ok(n) => Ok(n as u128),
                Err(e) => Err(e),
            },
            Value::UInt8(x) => Ok(*x as u128),
            Value::UInt16(x) => Ok(*x as u128),
            Value::UInt32(x) => Ok(*x as u128),
            Value::UInt64(x) => Ok(*x as u128),
            Value::UInt128(x) => Ok(*x as u128),
            Value::String(s) => match parse_unsigned(s.as_str(), 340282366920938463463374607431768211455u128) {
                Some(n) => Ok(n as u128),
                None => Err(ValueError::ConversionError(cannot_convert_text(s.as_str(), "u128"))),
            },
            Value::Empty(_) => Err(ValueError::NoValue),
            _ => Err(ValueError::ConversionFailed { from: self.data_type(), to: DataType::UInt128 }),
        }
    }
}

/// What converting a value to `usize` gives, as an integer.
pub open spec fn to_usize_spec(v: ValueView) -> Result<int, ValueErrorView> {
    match v {
        ValueView::Bool(x) => Ok(if x { 1 } else { 0 }),
        ValueView::Char(x) => Ok(x as int),
        ValueView::Int8(x) => range_checked("usize"@, x as int, 0, 127),
        ValueView::Int16(x) => range_checked("usize"@, x as int, 0, 32767),
        ValueView::Int32(x) => range_checked("usize"@, x as int, 0, 2147483647),
        ValueView::Int64(x) => range_checked("usize"@, x as int, 0, usize_bounded(0x7fff_ffff_ffff_ffff)),
        ValueView::Int128(x) => range_checked("usize"@, x as int, 0, usize::MAX as int),
        ValueView::UInt8(x) => Ok(x as int),
        ValueView::UInt16(x) => Ok(x as int),
        ValueView::UInt32(x) => Ok(x as int),
        ValueView::UInt64(x) => range_checked("usize"@, x as int, 0, usize::MAX as int),
        ValueView::UInt128(x) => range_checked("usize"@, x as int, 0, usize::MAX as int),
        ValueView::IntSize(x) => range_checked("usize"@, x as int, 0, isize::MAX as int),
        ValueView::UIntSize(x) => Ok(x as int),
        ValueView::String(s) => parsed_or(s, parse_unsigned_spec(s, usize::MAX as int), "usize"@),
        ValueView::Empty(_) => Err(ValueErrorView::NoValue),
        _ => Err(ValueErrorView::ConversionFailed { from: v.data_type(), to: DataType::UIntSize }),
    }
}

impl ValueConverterSealed<usize> for Value {}

impl ValueConverter<usize> for Value {
    open spec fn convert_requires(v: ValueView) -> bool {
        true
    }

    open spec fn convert_ensures(v: ValueView, r: ValueResult<usize>) -> bool {
        match r {
            Ok(x) => to_usize_spec(v) == Ok::<int, ValueErrorView>(x as int),
            Err(e) => to_usize_spec(v) == Err::<int, ValueErrorView>(e@),
        }
    }

    fn convert(&self) -> (r: ValueResult<usize>) {
        proof {
            reveal_strlit("usize");
        }
        match self {
            Value::Bool(x) => Ok(if *x { 1 } else { 0 }),
            Value::Char(x) => Ok(*x as u32 as usize),
            Value::Int8(x) => match check_signed_range(*x as i128, 0i128, 127i128, "usize") {
                Ok(n) => Ok(n as usize),
                Err(e) => Err(e),
            },
            Value::Int16(x) => match check_signed_range(*x as i128, 0i128, 32767i128, "usize") {
                Ok(n) => Ok(n as usize),
                Err(e) => Err(e),
            },
            Value::Int32(x) => match check_signed_range(*x as i128, 0i128, 2147483647i128, "usize") {
                Ok(n) => Ok(n as usize),
                Err(e) => Err(e),
            },
            Value::Int64(x) => match check_signed_range(*x as i128, 0i128, usize_bounded_exec(0x7fff_ffff_ffff_ffff), "usize") {
                Ok(n) => Ok(n as usize),
                Err(e) => Err(e),
            },
            Value::Int128(x) => match check_signed_range(*x as i128, 0i128, usize::MAX as i128, "usize") {
                Ok(n) => Ok(n as usize),
                Err(e) => Err(e),
            },
            Value::UInt8(x) => Ok(*x as usize),
            Value::UInt16(x) => Ok(*x as usize),
            Value::UInt32(x) => Ok(*x as usize),
            Value::UInt64(x) => match check_unsigned_range(*x as u128, 0u128, usize::MAX as u128, "usize") {
                Ok(n) => Ok(n as usize),
                Err(e) => Err(e),
            },
            Value::UInt128(x) => match check_unsigned_range(*x as u128, 0u128, usize::MAX as u128, "usize") {
                Ok(n) => Ok(n as usize),
                Err(e) => Err(e),
            },
            Value::IntSize(x) => match check_signed_range(*x as i128, 0i128, isize::MAX as i128, "usize") {
                Ok(n) => Ok(n as usize),
                Err(e) => Err(e),
            },
            Value::UIntSize(x) => Ok(*x as usize),
            Value::String(s) => match parse_unsigned(s.as_str(), usize::MAX as u128) {
                Some(n) => Ok(n as usize),
                None => Err(ValueError::ConversionError(cannot_convert_text(s.as_str(), "usize"))),
            },
            Value::Empty(_) => Err(ValueError::NoValue),
            _ => Err(ValueError::ConversionFailed { from: self.data_type(), to: DataType::UIntSize }),
        }
    }
}

/// What converting a value to `i8` gives, as an integer.
pub open spec fn to_i8_spec(v: ValueView) -> Result<int, ValueErrorView> {
    match v {
        ValueView::Bool(x) => Ok(if x { 1 } else { 0 }),
        ValueView::Char(x) => within_or(x as int, -128, 127, "char value out of i8 range"@),
        ValueView::Int8(x) => Ok(x as int),
        ValueView::Int16(x) => within_or(x as int, -128, 127, "i16 value out of i8 range"@),
        ValueView::Int32(x) => within_or(x as int, -128, 127, "i32 value out of i8 range"@),
        ValueView::Int64(x) => within_or(x as int, -128, 127, "i64 value out of i8 range"@),
        ValueView::Int128(x) => within_or(x as int, -128, 127, "i128 value out of i8 range"@),
        ValueView::UInt8(x) => within_or(x as int, -128, 127, "u8 value out of i8 range"@),
        ValueView::UInt16(x) => within_or(x as int, -128, 127, "u16 value out of i8 range"@),
        ValueView::UInt32(x) => within_or(x as int, -128, 127, "u32 value out of i8 range"@),
        ValueView::UInt64(x) => within_or(x as int, -128, 127, "u64 value out of i8 range"@),
        ValueView::UInt128(x) => within_or(x as int, -128, 127, "u128 value out of i8 range"@),
        ValueView::IntSize(x) => within_or(x as int, -128, 127, "isize value out of i8 range"@),
        ValueView::UIntSize(x) => within_or(x as int, -128, 127, "usize value out of i8 range"@),
        ValueView::Float32(x) => Ok(float32_to_int(x as int, -128, 127)),
        ValueView::Float64(x) => Ok(float64_to_int(x as int, -128, 127)),
        ValueView::BigInteger(x) => match bigint_to_i8_result(x) {
            Some(n) => Ok(n as int),
            None => Err(ValueErrorView::ConversionError("BigInteger value out of i8 range"@)),
        },
        ValueView::BigDecimal(x) => match bigdecimal_to_i8_result(x) {
            Some(n) => Ok(n as int),
            None => Err(ValueErrorView::ConversionError("BigDecimal value cannot be converted to i8"@)),
        },
        ValueView::String(s) => parsed_or(s, parse_signed_spec(s, -128, 127), "i8"@),
        ValueView::Empty(_) => Err(ValueErrorView::NoValue),
        _ => Err(ValueErrorView::ConversionFailed { from: v.data_type(), to: DataType::Int8 }),
    }
}

impl ValueConverterSealed<i8> for Value {}

impl ValueConverter<i8> for Value {
    open spec fn convert_requires(v: ValueView) -> bool {
        true
    }

    open spec fn convert_ensures(v: ValueView, r: ValueResult<i8>) -> bool {
        match r {
            Ok(x) => to_i8_spec(v) == Ok::<int, ValueErrorView>(x as int),
            Err(e) => to_i8_spec(v) == Err::<int, ValueErrorView>(e@),
        }
    }

    fn convert(&self) -> (r: ValueResult<i8>) {
        proof {
            reveal_strlit("BigDecimal value cannot be converted to i8");
            reveal_strlit("BigInteger value out of i8 range");
            reveal_strlit("char value out of i8 range");
            reveal_strlit("i128 value out of i8 range");
            reveal_strlit("i16 value out of i8 range");
            reveal_strlit("i32 value out of i8 range");
            reveal_strlit("i64 value out of i8 range");
            reveal_strlit("i8");
            reveal_strlit("isize value out of i8 range");
            reveal_strlit("u128 value out of i8 range");
            reveal_strlit("u16 value out of i8 range");
            reveal_strlit("u32 value out of i8 range");
            reveal_strlit("u64 value out of i8 range");
            reveal_strlit("u8 value out of i8 range");
            reveal_strlit("usize value out of i8 range");
        }
        match self {
            Value::Bool(x) => Ok(if *x { 1 } else { 0 }),
            Value::Char(x) => if (*x as u32 as u128) <= 127u128 {
                Ok((*x as u32 as u128) as i8)
            } else {
                Err(ValueError::ConversionError(String::from_str("char value out of i8 range")))
            },
            Value::Int8(x) => Ok(*x as i8),
            Value::Int16(x) => if -128i128 <= (*x as i128) && (*x as i128) <= 127i128 {
                Ok(*x as i8)
            } else {
                Err(ValueError::ConversionError(String::from_str("i16 value out of i8 range")))
            },
            Value::Int32(x) => if -128i128 <= (*x as i128) && (*x as i128) <= 127i128 {
                Ok(*x as i8)
            } else {
                Err(ValueError::ConversionError(String::from_str("i32 value out of i8 range")))
            },
            Value::Int64(x) => if -128i128 <= (*x as i128) && (*x as i128) <= 127i128 {
                Ok(*x as i8)
            } else {
                Err(ValueError::ConversionError(String::from_str("i64 value out of i8 range")))
            },
            Value::Int128(x) => if -128i128 <= (*x as i128) && (*x as i128) <= 127i128 {
                Ok(*x as i8)
            } else {
                Err(ValueError::ConversionError(String::from_str("i128 value out of i8 range")))
            },
            Value::UInt8(x) => if (*x as u128) <= 127u128 {
                Ok((*x as u128) as i8)
            } else {
                Err(ValueError::ConversionError(String::from_str("u8 value out of i8 range")))
            },
            Value::UInt16(x) => if (*x as u128) <= 127u128 {
                Ok((*x as u128) as i8)
            } else {
                Err(ValueError::ConversionError(String::from_str("u16 value out of i8 range")))
            },
            Value::UInt32(x) => if (*x as u128) <= 127u128 {
                Ok((*x as u128) as i8)
            } else {
                Err(ValueError::ConversionError(String::from_str("u32 value out of i8 range")))
            },
            Value::UInt64(x) => if (*x as u128) <= 127u128 {
                Ok((*x as u128) as i8)
            } else {
                Err(ValueError::ConversionError(String::from_str("u64 value out of i8 range")))
            },
            Value::UInt128(x) => if (*x as u128) <= 127u128 {
                Ok((*x as u128) as i8)
            } else {
                Err(ValueError::ConversionError(String::from_str("u128 value out of i8 range")))
            },
            Value::IntSize(x) => if -128i128 <= (*x as i128) && (*x as i128) <= 127i128 {
                Ok(*x as i8)
            } else {
                Err(ValueError::ConversionError(String::from_str("isize value out of i8 range")))
            },
            Value::UIntSize(x) => if -128i128 <= (*x as i128) && (*x as i128) <= 127i128 {
                Ok(*x as i8)
            } else {
                Err(ValueError::ConversionError(String::from_str("usize value out of i8 range")))
            },
            Value::Float32(x) => Ok(float32_bits_to_int(*x, -128i128, 127i128) as i8),
            Value::Float64(x) => Ok(float64_bits_to_int(*x, -128i128, 127i128) as i8),
            Value::BigInteger(x) => match bigint_to_i8(x) {
                Some(n) => Ok(n),
                None => Err(ValueError::ConversionError(String::from_str("BigInteger value out of i8 range"))),
            },
            Value::BigDecimal(x) => match bigdecimal_to_i8(x) {
                Some(n) => Ok(n),
                None => Err(ValueError::ConversionError(String::from_str("BigDecimal value cannot be converted to i8"))),
            },
            Value::String(s) => match parse_signed(s.as_str(), 127i128) {
                Some(n) => Ok(n as i8),
                None => Err(ValueError::ConversionError(cannot_convert_text(s.as_str(), "i8"))),
            },
            Value::Empty(_) => Err(ValueError::NoValue),
            _ => Err(ValueError::ConversionFailed { from: self.data_type(), to: DataType::Int8 }),
        }
    }
}

/// What converting a value to `i16` gives, as an integer.
pub open spec fn to_i16_spec(v: ValueView) -> Result<int, ValueErrorView> {
    match v {
        ValueView::Bool(x) => Ok(if x { 1 } else { 0 }),
        ValueView::Char(x) => within_or(x as int, -32768, 32767, "char value out of i16 range"@),
        ValueView::Int8(x) => Ok(x as int),
        ValueView::Int16(x) => Ok(x as int),
        ValueView::Int32(x) => within_or(x as int, -32768, 32767, "i32 value out of i16 range"@),
        ValueView::Int64(x) => within_or(x as int, -32768, 32767, "i64 value out of i16 range"@),
        ValueView::Int128(x) => within_or(x as int, -32768, 32767, "i128 value out of i16 range"@),
        ValueView::UInt8(x) => Ok(x as int),
        ValueView::UInt16(x) => within_or(x as int, -32768, 32767, "u16 value out of i16 range"@),
        ValueView::UInt32(x) => within_or(x as int, -32768, 32767, "u32 value out of i16 range"@),
        ValueView::UInt64(x) => within_or(x as int, -32768, 32767, "u64 value out of i16 range"@),
        ValueView::UInt128(x) => within_or(x as int, -32768, 32767, "u128 value out of i16 range"@),
        ValueView::IntSize(x) => within_or(x as int, -32768, 32767, "isize value out of i16 range"@),
        ValueView::UIntSize(x) => within_or(x as int, -32768, 32767, "usize value out of i16 range"@),
        ValueView::Float32(x) => Ok(float32_to_int(x as int, -32768, 32767)),
        ValueView::Float64(x) => Ok(float64_to_int(x as int, -32768, 32767)),
        ValueView::BigInteger(x) => match bigint_to_i16_result(x) {
            Some(n) => Ok(n as int),
            None => Err(ValueErrorView::ConversionError("BigInteger value out of i16 range"@)),
        },
        ValueView::BigDecimal(x) => match bigdecimal_to_i16_result(x) {
            Some(n) => Ok(n as int),
            None => Err(ValueErrorView::ConversionError("BigDecimal value cannot be converted to i16"@)),
        },
        ValueView::String(s) => parsed_or(s, parse_signed_spec(s, -32768, 32767), "i16"@),
        ValueView::Empty(_) => Err(ValueErrorView::NoValue),
        _ => Err(ValueErrorView::ConversionFailed { from: v.data_type(), to: DataType::Int16 }),
    }
}

impl ValueConverterSealed<i16> for Value {}

impl ValueConverter<i16> for Value {
    open spec fn convert_requires(v: ValueView) -> bool {
        true
    }

    open spec fn convert_ensures(v: ValueView, r: ValueResult<i16>) -> bool {
        match r {
            Ok(x) => to_i16_spec(v) == Ok::<int, ValueErrorView>(x as int),
            Err(e) => to_i16_spec(v) == Err::<int, ValueErrorView>(e@),
        }
    }

    fn convert(&self) -> (r: ValueResult<i16>) {
        proof {
            reveal_strlit("BigDecimal value cannot be converted to i16");
            reveal_strlit("BigInteger value out of i16 range");
            reveal_strlit("char value out of i16 range");
            reveal_strlit("i128 value out of i16 range");
            reveal_strlit("i16");
            reveal_strlit("i32 value out of i16 range");
            reveal_strlit("i64 value out of i16 range");
            reveal_strlit("isize value out of i16 range");
            reveal_strlit("u128 value out of i16 range");
            reveal_strlit("u16 value out of i16 range");
            reveal_strlit("u32 value out of i16 range");
            reveal_strlit("u64 value out of i16 range");
            reveal_strlit("usize value out of i16 range");
        }
        match self {
            Value::Bool(x) => Ok(if *x { 1 } else { 0 }),
            Value::Char(x) => if (*x as u32 as u128) <= 32767u128 {
                Ok((*x as u32 as u128) as i16)
            } else {
                Err(ValueError::ConversionError(String::from_str("char value out of i16 range")))
            },
            Value::Int8(x) => Ok(*x as i16),
            Value::Int16(x) => Ok(*x as i16),
            Value::Int32(x) => if -32768i128 <= (*x as i128) && (*x as i128) <= 32767i128 {
                Ok(*x as i16)
            } else {
                Err(ValueError::ConversionError(String::from_str("i32 value out of i16 range")))
            },
            Value::Int64(x) => if -32768i128 <= (*x as i128) && (*x as i128) <= 32767i128 {
                Ok(*x as i16)
            } else {
                Err(ValueError::ConversionError(String::from_str("i64 value out of i16 range")))
            },
            Value::Int128(x) => if -32768i128 <= (*x as i128) && (*x as i128) <= 32767i128 {
                Ok(*x as i16)
            } else {
                Err(ValueError::ConversionError(String::from_str("i128 value out of i16 range")))
            },
            Value::UInt8(x) => Ok(*x as i16),
            Value::UInt16(x) => if (*x as u128) <= 32767u128 {
                Ok((*x as u128) as i16)
            } else {
                Err(ValueError::ConversionError(String::from_str("u16 value out of i16 range")))
            },
            Value::UInt32(x) => if (*x as u128) <= 32767u128 {
                Ok((*x as u128) as i16)
            } else {
                Err(ValueError::ConversionError(String::from_str("u32 value out of i16 range")))
            },
            Value::UInt64(x) => if (*x as u128) <= 32767u128 {
                Ok((*x as u128) as i16)
            } else {
                Err(ValueError::ConversionError(String::from_str("u64 value out of i16 range")))
            },
            Value::UInt128(x) => if (*x as u128) <= 32767u128 {
                Ok((*x as u128) as i16)
            } else {
                Err(ValueError::ConversionError(String::from_str("u128 value out of i16 range")))
            },
            Value::IntSize(x) => if -32768i128 <= (*x as i128) && (*x as i128) <= 32767i128 {
                Ok(*x as i16)
            } else {
                Err(ValueError::ConversionError(String::from_str("isize value out of i16 range")))
            },
            Value::UIntSize(x) => if -32768i128 <= (*x as i128) && (*x as i128) <= 32767i128 {
                Ok(*x as i16)
            } else {
                Err(ValueError::ConversionError(String::from_str("usize value out of i16 range")))
            },
            Value::Float32(x) => Ok(float32_bits_to_int(*x, -32768i128, 32767i128) as i16),
            Value::Float64(x) => Ok(float64_bits_to_int(*x, -32768i128, 32767i128) as i16),
            Value::BigInteger(x) => match bigint_to_i16(x) {
                Some(n) => Ok(n),
                None => Err(ValueError::ConversionError(String::from_str("BigInteger value out of i16 range"))),
            },
            Value::BigDecimal(x) => match bigdecimal_to_i16(x) {
                Some(n) => Ok(n),
                None => Err(ValueError::ConversionError(String::from_str("BigDecimal value cannot be converted to i16"))),
            },
            Value::String(s) => match parse_signed(s.as_str(), 32767i128) {
                Some(n) => Ok(n as i16),
                None => Err(ValueError::ConversionError(cannot_convert_text(s.as_str(), "i16"))),
            },
            Value::Empty(_) => Err(ValueError::NoValue),
            _ => Err(ValueError::ConversionFailed { from: self.data_type(), to: DataType::Int16 }),
        }
    }
}

/// What converting a value to `i32` gives, as an integer.
pub open spec fn to_i32_spec(v: ValueView) -> Result<int, ValueErrorView> {
    match v {
        ValueView::Bool(x) => Ok(if x { 1 } else { 0 }),
        ValueView::Char(x) => Ok(x as int),
        ValueView::Int8(x) => Ok(x as int),
        ValueView::Int16(x) => Ok(x as int),
        ValueView::Int32(x) => Ok(x as int),
        ValueView::Int64(x) => within_or(x as int, -2147483648, 2147483647, "i64 value out of i32 range"@),
        ValueView::Int128(x) => within_or(x as int, -2147483648, 2147483647, "i128 value out of i32 range"@),
        ValueView::UInt8(x) => Ok(x as int),
        ValueView::UInt16(x) => Ok(x as int),
        ValueView::UInt32(x) => within_or(x as int, -2147483648, 2147483647, "u32 value out of i32 range"@),
        ValueView::UInt64(x) => within_or(x as int, -2147483648, 2147483647, "u64 value out of i32 range"@),
        ValueView::UInt128(x) => within_or(x as int, -2147483648, 2147483647, "u128 value out of i32 range"@),
        ValueView::Float32(x) => Ok(float32_to_int(x as int, -2147483648, 2147483647)),
        ValueView::Float64(x) => Ok(float64_to_int(x as int, -2147483648, 2147483647)),
        ValueView::BigInteger(x) => match bigint_to_i32_result(x) {
            Some(n) => Ok(n as int),
            None => Err(ValueErrorView::ConversionError("BigInteger value out of i32 range"@)),
        },
        ValueView::BigDecimal(x) => match bigdecimal_to_i32_result(x) {
            Some(n) => Ok(n as int),
            None => Err(ValueErrorView::ConversionError("BigDecimal value cannot be converted to i32"@)),
        },
        ValueView::String(s) => parsed_or(s, parse_signed_spec(s, -2147483648, 2147483647), "i32"@),
        ValueView::Empty(_) => Err(ValueErrorView::NoValue),
        _ => Err(ValueErrorView::ConversionFailed { from: v.data_type(), to: DataType::Int32 }),
    }
}

impl ValueConverterSealed<i32> for Value {}

impl ValueConverter<i32> for Value {
    open spec fn convert_requires(v: ValueView) -> bool {
        true
    }

    open spec fn convert_ensures(v: ValueView, r: ValueResult<i32>) -> bool {
        match r {
            Ok(x) => to_i32_spec(v) == Ok::<int, ValueErrorView>(x as int),
            Err(e) => to_i32_spec(v) == Err::<int, ValueErrorView>(e@),
        }
    }

    fn convert(&self) -> (r: ValueResult<i32>) {
        proof {
            reveal_strlit("BigDecimal value cannot be converted to i32");
            reveal_strlit("BigInteger value out of i32 range");
            reveal_strlit("i128 value out of i32 range");
            reveal_strlit("i32");
            reveal_strlit("i64 value out of i32 range");
            reveal_strlit("u128 value out of i32 range");
            reveal_strlit("u32 value out of i32 range");
            reveal_strlit("u64 value out of i32 range");
        }
        match self {
            Value::Bool(x) => Ok(if *x { 1 } else { 0 }),
            Value::Char(x) => Ok(*x as u32 as i32),
            Value::Int8(x) => Ok(*x as i32),
            Value::Int16(x) => Ok(*x as i32),
            Value::Int32(x) => Ok(*x as i32),
            Value::Int64(x) => if -2147483648i128 <= (*x as i128) && (*x as i128) <= 2147483647i128 {
                Ok(*x as i32)
            } else {
                Err(ValueError::ConversionError(String::from_str("i64 value out of i32 range")))
            },
            Value::Int128(x) => if -2147483648i128 <= (*x as i128) && (*x as i128) <= 2147483647i128 {
                Ok(*x as i32)
            } else {
                Err(ValueError::ConversionError(String::from_str("i128 value out of i32 range")))
            },
            Value::UInt8(x) => Ok(*x as i32),
            Value::UInt16(x) => Ok(*x as i32),
            Value::UInt32(x) => if (*x as u128) <= 2147483647u128 {
                Ok((*x as u128) as i32)
            } else {
                Err(ValueError::ConversionError(String::from_str("u32 value out of i32 range")))
            },
            Value::UInt64(x) => if (*x as u128) <= 2147483647u128 {
                Ok((*x as u128) as i32)
            } else {
                Err(ValueError::ConversionError(String::from_str("u64 value out of i32 range")))
            },
            Value::UInt128(x) => if (*x as u128) <= 2147483647u128 {
                Ok((*x as u128) as i32)
            } else {
                Err(ValueError::ConversionError(String::from_str("u128 value out of i32 range")))
            },
            Value::Float32(x) => Ok(float32_bits_to_int(*x, -2147483648i128, 2147483647i128) as i32),
            Value::Float64(x) => Ok(float64_bits_to_int(*x, -2147483648i128, 2147483647i128) as i32),
            Value::BigInteger(x) => match bigint_to_i32(x) {
                Some(n) => Ok(n),
                None => Err(ValueError::ConversionError(String::from_str("BigInteger value out of i32 range"))),
            },
            Value::BigDecimal(x) => match bigdecimal_to_i32(x) {
                Some(n) => Ok(n),
                None => Err(ValueError::ConversionError(String::from_str("BigDecimal value cannot be converted to i32"))),
            },
            Value::String(s) => match parse_signed(s.as_str(), 2147483647i128) {
                Some(n) => Ok(n as i32),
                None => Err(ValueError::ConversionError(cannot_convert_text(s.as_str(), "i32"))),
            },
            Value::Empty(_) => Err(ValueError::NoValue),
            _ => Err(ValueError::ConversionFailed { from: self.data_type(), to: DataType::Int32 }),
        }
    }
}

/// What converting a value to `i64` gives, as an integer.
pub open spec fn to_i64_spec(v: ValueView) -> Result<int, ValueErrorView> {
    match v {
        ValueView::Bool(x) => Ok(if x { 1 } else { 0 }),
        ValueView::Char(x) => Ok(x as int),
        ValueView::Int8(x) => Ok(x as int),
        ValueView::Int16(x) => Ok(x as int),
        ValueView::Int32(x) => Ok(x as int),
        ValueView::Int64(x) => Ok(x as int),
        ValueView::Int128(x) => within_or(x as int, -9223372036854775808, 9223372036854775807, "i128 value out of i64 range"@),
        ValueView::UInt8(x) => Ok(x as int),
        ValueView::UInt16(x) => Ok(x as int),
        ValueView::UInt32(x) => Ok(x as int),
        ValueView::UInt64(x) => within_or(x as int, -9223372036854775808, 9223372036854775807, "u64 value out of i64 range"@),
        ValueView::UInt128(x) => within_or(x as int, -9223372036854775808, 9223372036854775807, "u128 value out of i64 range"@),
        ValueView::Float32(x) => Ok(float32_to_int(x as int, -9223372036854775808, 9223372036854775807)),
        ValueView::Float64(x) => Ok(float64_to_int(x as int, -9223372036854775808, 9223372036854775807)),
        ValueView::BigInteger(x) => match bigint_to_i64_result(x) {
            Some(n) => Ok(n as int),
            None => Err(ValueErrorView::ConversionError("BigInteger value out of i64 range"@)),
        },
        ValueView::BigDecimal(x) => match bigdecimal_to_i64_result(x) {
            Some(n) => Ok(n as int),
            None => Err(ValueErrorView::ConversionError("BigDecimal value cannot be converted to i64"@)),
        },
        ValueView::String(s) => parsed_or(s, parse_signed_spec(s, -9223372036854775808, 9223372036854775807), "i64"@),
        ValueView::Empty(_) => Err(ValueErrorView::NoValue),
        _ => Err(ValueErrorView::ConversionFailed { from: v.data_type(), to: DataType::Int64 }),
    }
}

impl ValueConverterSealed<i64> for Value {}

impl ValueConverter<i64> for Value {
    open spec fn convert_requires(v: ValueView) -> bool {
        true
    }

    open spec fn convert_ensures(v: ValueView, r: ValueResult<i64>) -> bool {
        match r {
            Ok(x) => to_i64_spec(v) == Ok::<int, ValueErrorView>(x as int),
            Err(e) => to_i64_spec(v) == Err::<int, ValueErrorView>(e@),
        }
    }

    fn convert(&self) -> (r: ValueResult<i64>) {
        proof {
            reveal_strlit("BigDecimal value cannot be converted to i64");
            reveal_strlit("BigInteger value out of i64 range");
            reveal_strlit("i128 value out of i64 range");
            reveal_strlit("i64");
            reveal_strlit("u128 value out of i64 range");
            reveal_strlit("u64 value out of i64 range");
        }
        match self {
            Value::Bool(x) => Ok(if *x { 1 } else { 0 }),
            Value::Char(x) => Ok(*x as u32 as i64),
            Value::Int8(x) => Ok(*x as i64),
            Value::Int16(x) => Ok(*x as i64),
            Value::Int32(x) => Ok(*x as i64),
            Value::Int64(x) => Ok(*x as i64),
            Value::Int128(x) => if -9223372036854775808i128 <= (*x as i128) && (*x as i128) <= 9223372036854775807i128 {
                Ok(*x as i64)
            } else {
                Err(ValueError::ConversionError(String::from_str("i128 value out of i64 range")))
            },
            Value::UInt8(x) => Ok(*x as i64),
            Value::UInt16(x) => Ok(*x as i64),
            Value::UInt32(x) => Ok(*x as i64),
            Value::UInt64(x) => if (*x as u128) <= 9223372036854775807u128 {
                Ok((*x as u128) as i64)
            } else {
                Err(ValueError::ConversionError(String::from_str("u64 value out of i64 range")))
            },
            Value::UInt128(x) => if (*x as u128) <= 9223372036854775807u128 {
                Ok((*x as u128) as i64)
            } else {
                Err(ValueError::ConversionError(String::from_str("u128 value out of i64 range")))
            },
            Value::Float32(x) => Ok(float32_bits_to_int(*x, -9223372036854775808i128, 9223372036854775807i128) as i64),
            Value::Float64(x) => Ok(float64_bits_to_int(*x, -9223372036854775808i128, 9223372036854775807i128) as i64),
            Value::BigInteger(x) => match bigint_to_i64(x) {
                Some(n) => Ok(n),
                None => Err(ValueError::ConversionError(String::from_str("BigInteger value out of i64 range"))),
            },
            Value::BigDecimal(x) => match bigdecimal_to_i64(x) {
                Some(n) => Ok(n),
                None => Err(ValueError::ConversionError(String::from_str("BigDecimal value cannot be converted to i64"))),
            },
            Value::String(s) => match parse_signed(s.as_str(), 9223372036854775807i128) {
                Some(n) => Ok(n as i64),
                None => Err(ValueError::ConversionError(cannot_convert_text(s.as_str(), "i64"))),
            },
            Value::Empty(_) => Err(ValueError::NoValue),
            _ => Err(ValueError::ConversionFailed { from: self.data_type(), to: DataType::Int64 }),
        }
    }
}

/// What converting a value to `i128` gives, as an integer.
pub open spec fn to_i128_spec(v: ValueView) -> Result<int, ValueErrorView> {
    match v {
        ValueView::Bool(x) => Ok(if x { 1 } else { 0 }),
        ValueView::Char(x) => Ok(x as int),
        ValueView::Int8(x) => Ok(x as int),
        ValueView::Int16(x) => Ok(x as int),
        ValueView::Int32(x) => Ok(x as int),
        ValueView::Int64(x) => Ok(x as int),
        ValueView::Int128(x) => Ok(x as int),
        ValueView::UInt8(x) => Ok(x as int),
        ValueView::UInt16(x) => Ok(x as int),
        ValueView::UInt32(x) => Ok(x as int),
        ValueView::UInt64(x) => Ok(x as int),
        ValueView::UInt128(x) => within_or(x as int, -170141183460469231731687303715884105728, 170141183460469231731687303715884105727, "u128 value out of i128 range"@),
        ValueView::IntSize(x) => Ok(x as int),
        ValueView::UIntSize(x) => Ok(x as int),
        ValueView::Float32(x) => Ok(float32_to_int(x as int, -170141183460469231731687303715884105728, 170141183460469231731687303715884105727)),
        ValueView::Float64(x) => Ok(float64_to_int(x as int, -170141183460469231731687303715884105728, 170141183460469231731687303715884105727)),
        ValueView::BigInteger(x) => match bigint_to_i128_result(x) {
            Some(n) => Ok(n as int),
            None => Err(ValueErrorView::ConversionError("BigInteger value out of i128 range"@)),
        },
        ValueView::BigDecimal(x) => match bigdecimal_to_i128_result(x) {
            Some(n) => Ok(n as int),
            None => Err(ValueErrorView::ConversionError("BigDecimal value cannot be converted to i128"@)),
        },
        ValueView::String(s) => parsed_or(s, parse_signed_spec(s, -170141183460469231731687303715884105728, 170141183460469231731687303715884105727), "i128"@),
        ValueView::Empty(_) => Err(ValueErrorView::NoValue),
        _ => Err(ValueErrorView::ConversionFailed { from: v.data_type(), to: DataType::Int128 }),
    }
}

impl ValueConverterSealed<i128> for Value {}

impl ValueConverter<i128> for Value {
    open spec fn convert_requires(v: ValueView) -> bool {
        true
    }

    open spec fn convert_ensures(v: ValueView, r: ValueResult<i128>) -> bool {
        match r {
            Ok(x) => to_i128_spec(v) == Ok::<int, ValueErrorView>(x as int),
            Err(e) => to_i128_spec(v) == Err::<int, ValueErrorView>(e@),
        }
    }

    fn convert(&self) -> (r: ValueResult<i128>) {
        proof {
            reveal_strlit("BigDecimal value cannot be converted to i128");
            reveal_strlit("BigInteger value out of i128 range");
            reveal_strlit("i128");
            reveal_strlit("u128 value out of i128 range");
        }
        match self {
            Value::Bool(x) => Ok(if *x { 1 } else { 0 }),
            Value::Char(x) => Ok(*x as u32 as i128),
            Value::Int8(x) => Ok(*x as i128),
            Value::Int16(x) => Ok(*x as i128),
            Value::Int32(x) => Ok(*x as i128),
            Value::Int64(x) => Ok(*x as i128),
            Value::Int128(x) => Ok(*x as i128),
            Value::UInt8(x) => Ok(*x as i128),
            Value::UInt16(x) => Ok(*x as i128),
            Value::UInt32(x) => Ok(*x as i128),
            Value::UInt64(x) => Ok(*x as i128),
            Value::UInt128(x) => if (*x as u128) <= 170141183460469231731687303715884105727u128 {
                Ok((*x as u128) as i128)
            } else {
                Err(ValueError::ConversionError(String::from_str("u128 value out of i128 range")))
            },
            Value::IntSize(x) => Ok(*x as i128),
            Value::UIntSize(x) => Ok(*x as i128),
            Value::Float32(x) => Ok(float32_bits_to_int(*x, -170141183460469231731687303715884105728i128, 170141183460469231731687303715884105727i128) as i128),
            Value::Float64(x) => Ok(float64_bits_to_int(*x, -170141183460469231731687303715884105728i128, 170141183460469231731687303715884105727i128) as i128),
            Value::BigInteger(x) => match bigint_to_i128(x) {
                Some(n) => Ok(n),
                None => Err(ValueError::ConversionError(String::from_str("BigInteger value out of i128 range"))),
            },
            Value::BigDecimal(x) => match bigdecimal_to_i128(x) {
                Some(n) => Ok(n),
                None => Err(ValueError::ConversionError(String::from_str("BigDecimal value cannot be converted to i128"))),
            },
            Value::String(s) => match parse_signed(s.as_str(), 170141183460469231731687303715884105727i128) {
                Some(n) => Ok(n as i128),
                None => Err(ValueError::ConversionError(cannot_convert_text(s.as_str(), "i128"))),
            },
            Value::Empty(_) => Err(ValueError::NoValue),
            _ => Err(ValueError::ConversionFailed { from: self.data_type(), to: DataType::Int128 }),
        }
    }
}

/// What converting a value to `isize` gives, as an integer.
pub open spec fn to_isize_spec(v: ValueView) -> Result<int, ValueErrorView> {
    match v {
        ValueView::Bool(x) => Ok(if x { 1 } else { 0 }),
        ValueView::Char(x) => Ok(x as int),
        ValueView::Int8(x) => Ok(x as int),
        ValueView::Int16(x) => Ok(x as int),
        ValueView::Int32(x) => Ok(x as int),
        ValueView::Int64(x) => within_or(x as int, isize::MIN as int, isize::MAX as int, "i64 value out of isize range"@),
        ValueView::Int128(x) => within_or(x as int, isize::MIN as int, isize::MAX as int, "i128 value out of isize range"@),
        ValueView::UInt8(x) => Ok(x as int),
        ValueView::UInt16(x) => Ok(x as int),
        ValueView::UInt32(x) => within_or(x as int, isize::MIN as int, isize::MAX as int, "u32 value out of isize range"@),
        ValueView::UInt64(x) => within_or(x as int, isize::MIN as int, isize::MAX as int, "u64 value out of isize range"@),
        ValueView::UInt128(x) => within_or(x as int, isize::MIN as int, isize::MAX as int, "u128 value out of isize range"@),
        ValueView::IntSize(x) => Ok(x as int),
        ValueView::UIntSize(x) => within_or(x as int, isize::MIN as int, isize::MAX as int, "usize value out of isize range"@),
        ValueView::Float32(x) => Ok(float32_to_int(x as int, isize::MIN as int, isize::MAX as int)),
        ValueView::Float64(x) => Ok(float64_to_int(x as int, isize::MIN as int, isize::MAX as int)),
        ValueView::BigInteger(x) => match bigint_to_isize_result(x) {
            Some(n) => Ok(n as int),
            None => Err(ValueErrorView::ConversionError("BigInteger value out of isize range"@)),
        },
        ValueView::BigDecimal(x) => match bigdecimal_to_isize_result(x) {
            Some(n) => Ok(n as int),
            None => Err(ValueErrorView::ConversionError("BigDecimal value cannot be converted to isize"@)),
        },
        ValueView::String(s) => parsed_or(s, parse_signed_spec(s, isize::MIN as int, isize::MAX as int), "isize"@),
        ValueView::Empty(_) => Err(ValueErrorView::NoValue),
        _ => Err(ValueErrorView::ConversionFailed { from: v.data_type(), to: DataType::IntSize }),
    }
}

impl ValueConverterSealed<isize> for Value {}

impl ValueConverter<isize> for Value {
    open spec fn convert_requires(v: ValueView) -> bool {
        true
    }

    open spec fn convert_ensures(v: ValueView, r: ValueResult<isize>) -> bool {
        match r {
            Ok(x) => to_isize_spec(v) == Ok::<int, ValueErrorView>(x as int),
            Err(e) => to_isize_spec(v) == Err::<int, ValueErrorView>(e@),
        }
    }

    fn convert(&self) -> (r: ValueResult<isize>) {
        proof {
            reveal_strlit("BigDecimal value cannot be converted to isize");
            reveal_strlit("BigInteger value out of isize range");
            reveal_strlit("i128 value out of isize range");
            reveal_strlit("i64 value out of isize range");
            reveal_strlit("isize");
            reveal_strlit("u128 value out of isize range");
            reveal_strlit("u32 value out of isize range");
            reveal_strlit("u64 value out of isize range");
            reveal_strlit("usize value out of isize range");
        }
        match self {
            Value::Bool(x) => Ok(if *x { 1 } else { 0 }),
            Value::Char(x) => Ok(*x as u32 as isize),
            Value::Int8(x) => Ok(*x as isize),
            Value::Int16(x) => Ok(*x as isize),
            Value::Int32(x) => Ok(*x as isize),
            Value::Int64(x) => if isize::MIN as i128 <= (*x as i128) && (*x as i128) <= isize::MAX as i128 {
                Ok(*x as isize)
            } else {
                Err(ValueError::ConversionError(String::from_str("i64 value out of isize range")))
            },
            Value::Int128(x) => if isize::MIN as i128 <= (*x as i128) && (*x as i128) <= isize::MAX as i128 {
                Ok(*x as isize)
            } else {
                Err(ValueError::ConversionError(String::from_str("i128 value out of isize range")))
            },
            Value::UInt8(x) => Ok(*x as isize),
            Value::UInt16(x) => Ok(*x as isize),
            Value::UInt32(x) => if (*x as u128) <= isize::MAX as u128 {
                Ok((*x as u128) as isize)
            } else {
                Err(ValueError::ConversionError(String::from_str("u32 value out of isize range")))
            },
            Value::UInt64(x) => if (*x as u128) <= isize::MAX as u128 {
                Ok((*x as u128) as isize)
            } else {
                Err(ValueError::ConversionError(String::from_str("u64 value out of isize range")))
            },
            Value::UInt128(x) => if (*x as u128) <= isize::MAX as u128 {
                Ok((*x as u128) as isize)
            } else {
                Err(ValueError::ConversionError(String::from_str("u128 value out of isize range")))
            },
            Value::IntSize(x) => Ok(*x as isize),
            Value::UIntSize(x) => if isize::MIN as i128 <= (*x as i128) && (*x as i128) <= isize::MAX as i128 {
                Ok(*x as isize)
            } else {
                Err(ValueError::ConversionError(String::from_str("usize value out of isize range")))
            },
            Value::Float32(x) => Ok(float32_bits_to_int(*x, isize::MIN as i128, isize::MAX as i128) as isize),
            Value::Float64(x) => Ok(float64_bits_to_int(*x, isize::MIN as i128, isize::MAX as i128) as isize),
            Value::BigInteger(x) => match bigint_to_isize(x) {
                Some(n) => Ok(n),
                None => Err(ValueError::ConversionError(String::from_str("BigInteger value out of isize range"))),
            },
            Value::BigDecimal(x) => match bigdecimal_to_isize(x) {
                Some(n) => Ok(n),
                None => Err(ValueError::ConversionError(String::from_str("BigDecimal value cannot be converted to isize"))),
            },
            Value::String(s) => match parse_signed(s.as_str(), isize::MAX as i128) {
                Some(n) => Ok(n as isize),
                None => Err(ValueError::ConversionError(cannot_convert_text(s.as_str(), "isize"))),
            },
            Value::Empty(_) => Err(ValueError::NoValue),
            _ => Err(ValueError::ConversionFailed { from: self.data_type(), to: DataType::IntSize }),
        }
    }
}

// ---------------------------------------------------------------------------
// bool
// ---------------------------------------------------------------------------

/// What converting a value to `bool` gives: booleans as they are, integers by
/// whether they are nonzero, and the texts `true` and `false`.
pub open spec fn to_bool_spec(v: ValueView) -> Result<bool, ValueErrorView> {
    match v {
        ValueView::Bool(x) => Ok(x),
        ValueView::Int8(x) => Ok(x != 0),
        ValueView::Int16(x) => Ok(x != 0),
        ValueView::Int32(x) => Ok(x != 0),
        ValueView::Int64(x) => Ok(x != 0),
        ValueView::Int128(x) => Ok(x != 0),
        ValueView::UInt8(x) => Ok(x != 0),
        ValueView::UInt16(x) => Ok(x != 0),
        ValueView::UInt32(x) => Ok(x != 0),
        ValueView::UInt64(x) => Ok(x != 0),
        ValueView::UInt128(x) => Ok(x != 0),
        ValueView::String(s) => if s == "true"@ {
            Ok(true)
        } else if s == "false"@ {
            Ok(false)
        } else {
            Err(ValueErrorView::ConversionError(cannot_convert_message(s, "boolean"@)))
        },
        ValueView::Empty(_) => Err(ValueErrorView::NoValue),
        _ => Err(ValueErrorView::ConversionFailed { from: v.data_type(), to: DataType::Bool }),
    }
}

impl ValueConverterSealed<bool> for Value {}

impl ValueConverter<bool> for Value {
    open spec fn convert_requires(v: ValueView) -> bool {
        true
    }

    open spec fn convert_ensures(v: ValueView, r: ValueResult<bool>) -> bool {
        err_view(r) == to_bool_spec(v)
    }

    fn convert(&self) -> (r: ValueResult<bool>) {
        match self {
            Value::Bool(x) => Ok(*x),
            Value::Int8(x) => Ok(*x != 0),
            Value::Int16(x) => Ok(*x != 0),
            Value::Int32(x) => Ok(*x != 0),
            Value::Int64(x) => Ok(*x != 0),
            Value::Int128(x) => Ok(*x != 0),
            Value::UInt8(x) => Ok(*x != 0),
            Value::UInt16(x) => Ok(*x != 0),
            Value::UInt32(x) => Ok(*x != 0),
            Value::UInt64(x) => Ok(*x != 0),
            Value::UInt128(x) => Ok(*x != 0),
            Value::String(s) => {
                let yes = String::from_str("true");
                let no = String::from_str("false");
                if *s == yes {
                    Ok(true)
                } else if *s == no {
                    Ok(false)
                } else {
                    Err(ValueError::ConversionError(cannot_convert_text(s.as_str(), "boolean")))
                }
            },
            Value::Empty(_) => Err(ValueError::NoValue),
            _ => Err(ValueError::ConversionFailed { from: self.data_type(), to: DataType::Bool }),
        }
    }
}

// ---------------------------------------------------------------------------
// String
// ---------------------------------------------------------------------------

/// What converting a value to `String` gives, for every type but the
/// floating-point ones and string maps (`None` for those): strings as they
/// are, numbers in decimal, durations as `<nanoseconds>ns`, instants in
/// RFC 3339, JSON as its text, and the other types as they display.
pub open spec fn to_text_spec(v: ValueView) -> Option<Result<Seq<char>, ValueErrorView>> {
    match v {
        ValueView::String(s) => Some(Ok(s)),
        ValueView::Bool(x) => Some(Ok(if x { "true"@ } else { "false"@ })),
        ValueView::Char(c) => Some(Ok(seq![c])),
        ValueView::Int8(x) => Some(Ok(signed_decimal_text(x as int))),
        ValueView::Int16(x) => Some(Ok(signed_decimal_text(x as int))),
        ValueView::Int32(x) => Some(Ok(signed_decimal_text(x as int))),
        ValueView::Int64(x) => Some(Ok(signed_decimal_text(x as int))),
        ValueView::Int128(x) => Some(Ok(signed_decimal_text(x as int))),
        ValueView::UInt8(x) => Some(Ok(decimal_text(x as nat))),
        ValueView::UInt16(x) => Some(Ok(decimal_text(x as nat))),
        ValueView::UInt32(x) => Some(Ok(decimal_text(x as nat))),
        ValueView::UInt64(x) => Some(Ok(decimal_text(x as nat))),
        ValueView::UInt128(x) => Some(Ok(decimal_text(x as nat))),
        ValueView::IntSize(x) => Some(Ok(signed_decimal_text(x as int))),
        ValueView::UIntSize(x) => Some(Ok(decimal_text(x as nat))),
        ValueView::Date(d) => Some(Ok(naive_date_text(d))),
        ValueView::Time(t) => Some(Ok(naive_time_text(t))),
        ValueView::DateTime(t) => Some(Ok(naive_datetime_text(t))),
        ValueView::Instant(i) => Some(Ok(rfc3339_text(i.seconds_spec(), i.nanos_spec()))),
        ValueView::BigInteger(b) => Some(Ok(bigint_text(b))),
        ValueView::BigDecimal(b) => Some(Ok(bigdecimal_text(b))),
        ValueView::Duration(d) => Some(Ok(decimal_text(duration_nanos(d)) + "ns"@)),
        ValueView::Url(u) => Some(Ok(url_text(u))),
        ValueView::Json(j) => Some(Ok(json_text(j))),
        ValueView::Empty(_) => Some(Err(ValueErrorView::NoValue)),
        _ => None,
    }
}

impl ValueConverterSealed<String> for Value {}

impl ValueConverter<String> for Value {
    /// Floating-point values have no text here: their text is written
    /// outside the library.
    open spec fn convert_requires(v: ValueView) -> bool {
        !(v is Float32) && !(v is Float64)
    }

    /// A string map always converts, to the JSON object text of the map
    /// (its entry order follows the map's iteration order, so only what the
    /// text reads back as is stated); every other type by `to_text_spec`.
    open spec fn convert_ensures(v: ValueView, r: ValueResult<String>) -> bool {
        match v {
            ValueView::StringMap(m) => match r {
                Ok(t) => json_parse_outcome(t@) == Ok::<serde_json::Value, Seq<char>>(string_map_json(m)),
                Err(_) => false,
            },
            _ => {
                &&& match to_text_spec(v) {
                    Some(expected) => result_view(r) == expected,
                    None => false,
                }
                &&& v matches ValueView::Duration(d) ==> duration_is_canonical(d)
            },
        }
    }

    fn convert(&self) -> (r: ValueResult<String>) {
        proof {
            reveal_strlit("true");
            reveal_strlit("false");
            reveal_strlit("ns");
        }
        match self {
            Value::String(s) => Ok(s.clone()),
            Value::Bool(x) => Ok(if *x { String::from_str("true") } else { String::from_str("false") }),
            Value::Char(c) => Ok(char_text(*c)),
            Value::Int8(x) => Ok(format_i128(*x as i128)),
            Value::Int16(x) => Ok(format_i128(*x as i128)),
            Value::Int32(x) => Ok(format_i128(*x as i128)),
            Value::Int64(x) => Ok(format_i128(*x as i128)),
            Value::Int128(x) => Ok(format_i128(*x)),
            Value::UInt8(x) => Ok(format_u128(*x as u128)),
            Value::UInt16(x) => Ok(format_u128(*x as u128)),
            Value::UInt32(x) => Ok(format_u128(*x as u128)),
            Value::UInt64(x) => Ok(format_u128(*x as u128)),
            Value::UInt128(x) => Ok(format_u128(*x)),
            Value::IntSize(x) => Ok(format_i128(*x as i128)),
            Value::UIntSize(x) => Ok(format_u128(*x as u128)),
            Value::Date(d) => Ok(format_naive_date(d)),
            Value::Time(t) => Ok(format_naive_time(t)),
            Value::DateTime(t) => Ok(format_naive_datetime(t)),
            Value::Instant(i) => Ok(i.to_rfc3339()),
            Value::BigInteger(b) => Ok(format_bigint(b)),
            Value::BigDecimal(b) => Ok(format_bigdecimal(b)),
            Value::Duration(d) => {
                let mut t = format_u128(duration_as_nanos(d));
                t.append("ns");
                Ok(t)
            },
            Value::Url(u) => Ok(format_url(u)),
            Value::StringMap(m) => match format_string_map(m) {
                Ok(t) => Ok(t),
                Err(e) => Err(ValueError::JsonSerializationError(e)),
            },
            Value::Json(j) => match format_json(j) {
                Ok(t) => Ok(t),
                Err(e) => Err(ValueError::JsonSerializationError(e)),
            },
            Value::Empty(_) => Err(ValueError::NoValue),
            Value::Float32(_) | Value::Float64(_) => {
                // Excluded by `convert_requires`.
                proof {
                    assert(false);
                }
                Err(ValueError::NoValue)
            },
        }
    }
}

// ---------------------------------------------------------------------------
// Duration
// ---------------------------------------------------------------------------

/// What converting the text `s` to a duration gives: the total nanoseconds
/// written as `<nanoseconds>ns`, surrounding white space allowed, with whole
/// seconds that fit in `u64`.
pub open spec fn duration_nanos_from_text(s: Seq<char>) -> Result<nat, ValueErrorView> {
    let t = trim_spec(s);
    if !(t.len() >= 2 && t[t.len() - 2] == 'n' && t[t.len() - 1] == 's') {
        Err(ValueErrorView::ConversionError(cannot_convert_message(s, "Duration"@)
            + ": expected '<nanoseconds>ns'"@))
    } else {
        match parse_unsigned_spec(t.subrange(0, t.len() - 2), u128::MAX as int) {
            None => Err(ValueErrorView::ConversionError(cannot_convert_message(s, "Duration"@)
                + ": invalid nanoseconds value"@)),
            Some(n) => if n / 1_000_000_000 > u64::MAX {
                Err(ValueErrorView::ConversionError(cannot_convert_message(s, "Duration"@)
                    + ": value out of range"@))
            } else {
                Ok(n as nat)
            },
        }
    }
}

/// What converting the text `s` to a duration gives: the duration that
/// `Duration::new` builds from the whole seconds and the nanoseconds past
/// them of the total that `duration_nanos_from_text` reads.
pub open spec fn duration_from_text(s: Seq<char>) -> Result<Duration, ValueErrorView> {
    match duration_nanos_from_text(s) {
        Ok(n) => Ok(duration_from_parts((n / 1_000_000_000) as u64, (n % 1_000_000_000) as u32)),
        Err(e) => Err(e),
    }
}

/// Parses `<nanoseconds>ns` text into a duration.
pub fn parse_duration_string(s: &str) -> (r: ValueResult<Duration>)
    ensures
        err_view(r) == duration_from_text(s@),
        match r {
            Ok(d) => {
                &&& duration_nanos_from_text(s@) == Ok::<nat, ValueErrorView>(duration_nanos(d))
                &&& duration_is_canonical(d)
            },
            Err(_) => true,
        },
{
    proof {
        reveal_strlit("Duration");
        reveal_strlit(": expected '<nanoseconds>ns'");
        reveal_strlit(": invalid nanoseconds value");
        reveal_strlit(": value out of range");
    }
    let trimmed = trim(s);
    let len = trimmed.unicode_len();
    if !(len >= 2 && trimmed.get_char(len - 2) == 'n' && trimmed.get_char(len - 1) == 's') {
        let mut m = cannot_convert_text(s, "Duration");
        m.append(": expected '<nanoseconds>ns'");
        return Err(ValueError::ConversionError(m));
    }
    let digits = trimmed.substring_char(0, len - 2);
    match parse_unsigned(digits, u128::MAX) {
        None => {
            let mut m = cannot_convert_text(s, "Duration");
            m.append(": invalid nanoseconds value");
            Err(ValueError::ConversionError(m))
        },
        Some(total) => {
            let secs = total / 1_000_000_000;
            if secs > u64::MAX as u128 {
                let mut m = cannot_convert_text(s, "Duration");
                m.append(": value out of range");
                Err(ValueError::ConversionError(m))
            } else {
                let nanos = (total % 1_000_000_000) as u32;
                let d = duration_new(secs as u64, nanos);
                assert(secs * 1_000_000_000 + nanos == total);
                Ok(d)
            }
        },
    }
}

impl ValueConverterSealed<Duration> for Value {}

impl ValueConverter<Duration> for Value {
    open spec fn convert_requires(v: ValueView) -> bool {
        true
    }

    /// Durations as they are, and text by `duration_from_text`.
    open spec fn convert_ensures(v: ValueView, r: ValueResult<Duration>) -> bool {
        match v {
            ValueView::Duration(d) => r == Ok::<Duration, ValueError>(d),
            ValueView::String(s) => err_view(r) == duration_from_text(s),
            ValueView::Empty(_) => r == Err::<Duration, ValueError>(ValueError::NoValue),
            _ => r == Err::<Duration, ValueError>(
                ValueError::ConversionFailed { from: v.data_type(), to: DataType::Duration },
            ),
        }
    }

    fn convert(&self) -> (r: ValueResult<Duration>) {
        match self {
            Value::Duration(d) => Ok(*d),
            Value::String(s) => parse_duration_string(s.as_str()),
            Value::Empty(_) => Err(ValueError::NoValue),
            _ => Err(ValueError::ConversionFailed { from: self.data_type(), to: DataType::Duration }),
        }
    }
}

// ---------------------------------------------------------------------------
// Url
// ---------------------------------------------------------------------------

impl ValueConverterSealed<Url> for Value {}

impl ValueConverter<Url> for Value {
    open spec fn convert_requires(v: ValueView) -> bool {
        true
    }

    /// URLs as they are, and text as `Url::parse` reads it, with its error
    /// text in the message of a failure.
    open spec fn convert_ensures(v: ValueView, r: ValueResult<Url>) -> bool {
        match v {
            ValueView::Url(u) => r == Ok::<Url, ValueError>(u),
            ValueView::String(s) => match url_parse_outcome(s) {
                Ok(u) => r == Ok::<Url, ValueError>(u),
                Err(m) => err_view(r) == Err::<Url, ValueErrorView>(ValueErrorView::ConversionError(
                    cannot_convert_message(s, "Url"@) + ": "@ + m,
                )),
            },
            ValueView::Empty(_) => r == Err::<Url, ValueError>(ValueError::NoValue),
            _ => r == Err::<Url, ValueError>(
                ValueError::ConversionFailed { from: v.data_type(), to: DataType::Url },
            ),
        }
    }

    fn convert(&self) -> (r: ValueResult<Url>) {
        proof {
            reveal_strlit("Url");
            reveal_strlit(": ");
        }
        match self {
            Value::Url(u) => Ok(u.clone()),
            Value::String(s) => match parse_url(s.as_str()) {
                Ok(u) => Ok(u),
                Err(e) => {
                    let mut m = cannot_convert_text(s.as_str(), "Url");
                    m.append(": ");
                    m.append(e.as_str());
                    Err(ValueError::ConversionError(m))
                },
            },
            Value::Empty(_) => Err(ValueError::NoValue),
            _ => Err(ValueError::ConversionFailed { from: self.data_type(), to: DataType::Url }),
        }
    }
}

// ---------------------------------------------------------------------------
// JSON
// ---------------------------------------------------------------------------

impl ValueConverterSealed<serde_json::Value> for Value {}

impl ValueConverter<serde_json::Value> for Value {
    open spec fn convert_requires(v: ValueView) -> bool {
        true
    }

    /// JSON as it is, text as `serde_json::from_str` reads it, and string
    /// maps as JSON objects.
    open spec fn convert_ensures(v: ValueView, r: ValueResult<serde_json::Value>) -> bool {
        match v {
            ValueView::Json(j) => r == Ok::<serde_json::Value, ValueError>(j),
            ValueView::String(s) => match json_parse_outcome(s) {
                Ok(j) => r == Ok::<serde_json::Value, ValueError>(j),
                Err(m) => err_view(r) == Err::<serde_json::Value, ValueErrorView>(
                    ValueErrorView::JsonDeserializationError(m),
                ),
            },
            ValueView::StringMap(m) => r == Ok::<serde_json::Value, ValueError>(string_map_json(m)),
            ValueView::Empty(_) => r == Err::<serde_json::Value, ValueError>(ValueError::NoValue),
            _ => r == Err::<serde_json::Value, ValueError>(
                ValueError::ConversionFailed { from: v.data_type(), to: DataType::Json },
            ),
        }
    }

    fn convert(&self) -> (r: ValueResult<serde_json::Value>) {
        match self {
            Value::Json(j) => Ok(j.clone()),
            Value::String(s) => match parse_json(s.as_str()) {
                Ok(j) => Ok(j),
                Err(e) => Err(ValueError::JsonDeserializationError(e)),
            },
            Value::StringMap(m) => match string_map_to_json(m) {
                Ok(j) => Ok(j),
                Err(e) => Err(ValueError::JsonSerializationError(e)),
            },
            Value::Empty(_) => Err(ValueError::NoValue),
            _ => Err(ValueError::ConversionFailed { from: self.data_type(), to: DataType::Json }),
        }
    }
}

// ---------------------------------------------------------------------------
// Targets that accept only their own type
// ---------------------------------------------------------------------------

/// What converting to a target that accepts only its own type gives: the
/// item of a value of that type, `NoValue` for an empty value, and a failed
/// conversion from any other type.
pub open spec fn own_type_only<A>(v: ValueView, target: DataType, item: Option<A>) -> Result<A, ValueErrorView> {
    match item {
        Some(x) => Ok(x),
        None => if v is Empty {
            Err(ValueErrorView::NoValue)
        } else {
            Err(ValueErrorView::ConversionFailed { from: v.data_type(), to: target })
        },
    }
}

impl ValueConverterSealed<char> for Value {}

impl ValueConverter<char> for Value {
    open spec fn convert_requires(v: ValueView) -> bool {
        true
    }

    /// Only a `Char` value converts, to its item.
    open spec fn convert_ensures(v: ValueView, r: ValueResult<char>) -> bool {
        err_view(r) == own_type_only(v, DataType::Char, v.as_char())
    }

    fn convert(&self) -> (r: ValueResult<char>) {
        match self {
            Value::Char(x) => Ok(*x),
            Value::Empty(_) => Err(ValueError::NoValue),
            _ => Err(ValueError::ConversionFailed { from: self.data_type(), to: DataType::Char }),
        }
    }
}

impl ValueConverterSealed<NaiveDate> for Value {}

impl ValueConverter<NaiveDate> for Value {
    open spec fn convert_requires(v: ValueView) -> bool {
        true
    }

    /// Only a `Date` value converts, to its item.
    open spec fn convert_ensures(v: ValueView, r: ValueResult<NaiveDate>) -> bool {
        err_view(r) == own_type_only(v, DataType::Date, v.as_date())
    }

    fn convert(&self) -> (r: ValueResult<NaiveDate>) {
        match self {
            Value::Date(x) => Ok(*x),
            Value::Empty(_) => Err(ValueError::NoValue),
            _ => Err(ValueError::ConversionFailed { from: self.data_type(), to: DataType::Date }),
        }
    }
}

impl ValueConverterSealed<NaiveTime> for Value {}

impl ValueConverter<NaiveTime> for Value {
    open spec fn convert_requires(v: ValueView) -> bool {
        true
    }

    /// Only a `Time` value converts, to its item.
    open spec fn convert_ensures(v: ValueView, r: ValueResult<NaiveTime>) -> bool {
        err_view(r) == own_type_only(v, DataType::Time, v.as_time())
    }

    fn convert(&self) -> (r: ValueResult<NaiveTime>) {
        match self {
            Value::Time(x) => Ok(*x),
            Value::Empty(_) => Err(ValueError::NoValue),
            _ => Err(ValueError::ConversionFailed { from: self.data_type(), to: DataType::Time }),
        }
    }
}

impl ValueConverterSealed<NaiveDateTime> for Value {}

impl ValueConverter<NaiveDateTime> for Value {
    open spec fn convert_requires(v: ValueView) -> bool {
        true
    }

    /// Only a `DateTime` value converts, to its item.
    open spec fn convert_ensures(v: ValueView, r: ValueResult<NaiveDateTime>) -> bool {
        err_view(r) == own_type_only(v, DataType::DateTime, v.as_datetime())
    }

    fn convert(&self) -> (r: ValueResult<NaiveDateTime>) {
        match self {
            Value::DateTime(x) => Ok(*x),
            Value::Empty(_) => Err(ValueError::NoValue),
            _ => Err(ValueError::ConversionFailed { from: self.data_type(), to: DataType::DateTime }),
        }
    }
}

impl ValueConverterSealed<UtcInstant> for Value {}

impl ValueConverter<UtcInstant> for Value {
    open spec fn convert_requires(v: ValueView) -> bool {
        true
    }

    /// Only a `Instant` value converts, to its item.
    open spec fn convert_ensures(v: ValueView, r: ValueResult<UtcInstant>) -> bool {
        err_view(r) == own_type_only(v, DataType::Instant, v.as_instant())
    }

    fn convert(&self) -> (r: ValueResult<UtcInstant>) {
        match self {
            Value::Instant(x) => Ok(*x),
            Value::Empty(_) => Err(ValueError::NoValue),
            _ => Err(ValueError::ConversionFailed { from: self.data_type(), to: DataType::Instant }),
        }
    }
}

impl ValueConverterSealed<BigInt> for Value {}

impl ValueConverter<BigInt> for Value {
    open spec fn convert_requires(v: ValueView) -> bool {
        true
    }

    /// Only a `BigInteger` value converts, to its item.
    open spec fn convert_ensures(v: ValueView, r: ValueResult<BigInt>) -> bool {
        err_view(r) == own_type_only(v, DataType::BigInteger, v.as_biginteger())
    }

    fn convert(&self) -> (r: ValueResult<BigInt>) {
        match self {
            Value::BigInteger(x) => Ok(x.clone()),
            Value::Empty(_) => Err(ValueError::NoValue),
            _ => Err(ValueError::ConversionFailed { from: self.data_type(), to: DataType::BigInteger }),
        }
    }
}

impl ValueConverterSealed<BigDecimal> for Value {}

impl ValueConverter<BigDecimal> for Value {
    open spec fn convert_requires(v: ValueView) -> bool {
        true
    }

    /// Only a `BigDecimal` value converts, to its item.
    open spec fn convert_ensures(v: ValueView, r: ValueResult<BigDecimal>) -> bool {
        err_view(r) == own_type_only(v, DataType::BigDecimal, v.as_bigdecimal())
    }

    fn convert(&self) -> (r: ValueResult<BigDecimal>) {
        match self {
            Value::BigDecimal(x) => Ok(x.clone()),
            Value::Empty(_) => Err(ValueError::NoValue),
            _ => Err(ValueError::ConversionFailed { from: self.data_type(), to: DataType::BigDecimal }),
        }
    }
}

impl ValueConverterSealed<HashMap<String, String>> for Value {}

impl ValueConverter<HashMap<String, String>> for Value {
    open spec fn convert_requires(v: ValueView) -> bool {
        true
    }

    /// Only a `StringMap` value converts, to its item.
    open spec fn convert_ensures(v: ValueView, r: ValueResult<HashMap<String, String>>) -> bool {
        result_view(r) == own_type_only(v, DataType::StringMap, v.as_string_map())
    }

    fn convert(&self) -> (r: ValueResult<HashMap<String, String>>) {
        match self {
            Value::StringMap(x) => Ok(x.clone()),
            Value::Empty(_) => Err(ValueError::NoValue),
            _ => Err(ValueError::ConversionFailed { from: self.data_type(), to: DataType::StringMap }),
        }
    }
}

} // verus!
