//! The dispatch traits behind `Value::new`, `Value::get`, `Value::set` and
//! `Value::to`, and their implementations for every supported type.
use vstd::prelude::*;

use bigdecimal::BigDecimal;
use chrono::{NaiveDate, NaiveDateTime, NaiveTime};
use num_bigint::BigInt;
use std::collections::HashMap;
use std::time::Duration;
use url::Url;

use crate::data_type::DataType;
use crate::error::{ValueError, ValueResult};
use crate::instant::UtcInstant;
use crate::sealed::{ValueConstructorSealed, ValueConverterSealed, ValueGetterSealed, ValueSetterSealed};
use crate::value::{ok_view, Value, ValueView};

verus! {

/// Creates a value container from a supported Rust type.
pub trait ValueConstructor<T>: ValueConstructorSealed<T> + Sized {
    /// What `from_type` returns for `value`.
    spec fn from_type_ensures(value: T, r: Self) -> bool;

    /// Builds the container that wraps `value`.
    fn from_type(value: T) -> (r: Self)
        ensures
            Self::from_type_ensures(value, r),
    ;
}

/// Extracts a supported Rust type from a value container, with strict type
/// matching.
pub trait ValueGetter<T>: ValueGetterSealed<T> + Sized {
    /// What `get_value` returns.
    spec fn get_value_ensures(&self, r: ValueResult<T>) -> bool;

    /// Gets the value as `T`.
    fn get_value(&self) -> (r: ValueResult<T>)
        ensures
            self.get_value_ensures(r),
    ;
}

/// Stores a supported Rust type in a value container.
pub trait ValueSetter<T>: ValueSetterSealed<T> + Sized {
    /// How `set_value` changes the container and what it returns.
    spec fn set_value_ensures(before: Self, after: Self, value: T, r: ValueResult<()>) -> bool;

    /// Replaces the stored value with `value`.
    fn set_value(&mut self, value: T) -> (r: ValueResult<()>)
        ensures
            Self::set_value_ensures(*old(self), *final(self), value, r),
    ;
}

/// Converts a value container to a target type.
pub trait ValueConverter<T>: ValueConverterSealed<T> + View<V = ValueView> + Sized {
    /// The values, by their views, that `convert` is defined on.
    spec fn convert_requires(v: ValueView) -> bool;

    /// What `convert` returns for the value with view `v`.
    spec fn convert_ensures(v: ValueView, r: ValueResult<T>) -> bool;

    /// Converts the value to `T`.
    fn convert(&self) -> (r: ValueResult<T>)
        requires
            Self::convert_requires(self@),
        ensures
            Self::convert_ensures(self@, r),
    ;
}

impl ValueConstructorSealed<bool> for Value {}

impl ValueConstructor<bool> for Value {
    open spec fn from_type_ensures(value: bool, r: Self) -> bool {
        r@ == ValueView::Bool(value)
    }

    fn from_type(value: bool) -> (r: Self) {
        Value::Bool(value)
    }
}

impl ValueGetterSealed<bool> for Value {}

impl ValueGetter<bool> for Value {
    open spec fn get_value_ensures(&self, r: ValueResult<bool>) -> bool {
        r == self@.typed_get(DataType::Bool, self@.as_bool())
    }

    fn get_value(&self) -> (r: ValueResult<bool>) {
        self.get_bool()
    }
}

impl ValueSetterSealed<bool> for Value {}

impl ValueSetter<bool> for Value {
    open spec fn set_value_ensures(before: Self, after: Self, value: bool, r: ValueResult<()>) -> bool {
        r == Ok::<(), ValueError>(()) && after@ == ValueView::Bool(value)
    }

    fn set_value(&mut self, value: bool) -> (r: ValueResult<()>) {
        self.set_bool(value)
    }
}

impl ValueConstructorSealed<char> for Value {}

impl ValueConstructor<char> for Value {
    open spec fn from_type_ensures(value: char, r: Self) -> bool {
        r@ == ValueView::Char(value)
    }

    fn from_type(value: char) -> (r: Self) {
        Value::Char(value)
    }
}

impl ValueGetterSealed<char> for Value {}

impl ValueGetter<char> for Value {
    open spec fn get_value_ensures(&self, r: ValueResult<char>) -> bool {
        r == self@.typed_get(DataType::Char, self@.as_char())
    }

    fn get_value(&self) -> (r: ValueResult<char>) {
        self.get_char()
    }
}

impl ValueSetterSealed<char> for Value {}

impl ValueSetter<char> for Value {
    open spec fn set_value_ensures(before: Self, after: Self, value: char, r: ValueResult<()>) -> bool {
        r == Ok::<(), ValueError>(()) && after@ == ValueView::Char(value)
    }

    fn set_value(&mut self, value: char) -> (r: ValueResult<()>) {
        self.set_char(value)
    }
}

impl ValueConstructorSealed<i8> for Value {}

impl ValueConstructor<i8> for Value {
    open spec fn from_type_ensures(value: i8, r: Self) -> bool {
        r@ == ValueView::Int8(value)
    }

    fn from_type(value: i8) -> (r: Self) {
        Value::Int8(value)
    }
}

impl ValueGetterSealed<i8> for Value {}

impl ValueGetter<i8> for Value {
    open spec fn get_value_ensures(&self, r: ValueResult<i8>) -> bool {
        r == self@.typed_get(DataType::Int8, self@.as_int8())
    }

    fn get_value(&self) -> (r: ValueResult<i8>) {
        self.get_int8()
    }
}

impl ValueSetterSealed<i8> for Value {}

impl ValueSetter<i8> for Value {
    open spec fn set_value_ensures(before: Self, after: Self, value: i8, r: ValueResult<()>) -> bool {
        r == Ok::<(), ValueError>(()) && after@ == ValueView::Int8(value)
    }

    fn set_value(&mut self, value: i8) -> (r: ValueResult<()>) {
        self.set_int8(value)
    }
}

impl ValueConstructorSealed<i16> for Value {}

impl ValueConstructor<i16> for Value {
    open spec fn from_type_ensures(value: i16, r: Self) -> bool {
        r@ == ValueView::Int16(value)
    }

    fn from_type(value: i16) -> (r: Self) {
        Value::Int16(value)
    }
}

impl ValueGetterSealed<i16> for Value {}

impl ValueGetter<i16> for Value {
    open spec fn get_value_ensures(&self, r: ValueResult<i16>) -> bool {
        r == self@.typed_get(DataType::Int16, self@.as_int16())
    }

    fn get_value(&self) -> (r: ValueResult<i16>) {
        self.get_int16()
    }
}

impl ValueSetterSealed<i16> for Value {}

impl ValueSetter<i16> for Value {
    open spec fn set_value_ensures(before: Self, after: Self, value: i16, r: ValueResult<()>) -> bool {
        r == Ok::<(), ValueError>(()) && after@ == ValueView::Int16(value)
    }

    fn set_value(&mut self, value: i16) -> (r: ValueResult<()>) {
        self.set_int16(value)
    }
}

impl ValueConstructorSealed<i32> for Value {}

impl ValueConstructor<i32> for Value {
    open spec fn from_type_ensures(value: i32, r: Self) -> bool {
        r@ == ValueView::Int32(value)
    }

    fn from_type(value: i32) -> (r: Self) {
        Value::Int32(value)
    }
}

impl ValueGetterSealed<i32> for Value {}

impl ValueGetter<i32> for Value {
    open spec fn get_value_ensures(&self, r: ValueResult<i32>) -> bool {
        r == self@.typed_get(DataType::Int32, self@.as_int32())
    }

    fn get_value(&self) -> (r: ValueResult<i32>) {
        self.get_int32()
    }
}

impl ValueSetterSealed<i32> for Value {}

impl ValueSetter<i32> for Value {
    open spec fn set_value_ensures(before: Self, after: Self, value: i32, r: ValueResult<()>) -> bool {
        r == Ok::<(), ValueError>(()) && after@ == ValueView::Int32(value)
    }

    fn set_value(&mut self, value: i32) -> (r: ValueResult<()>) {
        self.set_int32(value)
    }
}

impl ValueConstructorSealed<i64> for Value {}

impl ValueConstructor<i64> for Value {
    open spec fn from_type_ensures(value: i64, r: Self) -> bool {
        r@ == ValueView::Int64(value)
    }

    fn from_type(value: i64) -> (r: Self) {
        Value::Int64(value)
    }
}

impl ValueGetterSealed<i64> for Value {}

impl ValueGetter<i64> for Value {
    open spec fn get_value_ensures(&self, r: ValueResult<i64>) -> bool {
        r == self@.typed_get(DataType::Int64, self@.as_int64())
    }

    fn get_value(&self) -> (r: ValueResult<i64>) {
        self.get_int64()
    }
}

impl ValueSetterSealed<i64> for Value {}

impl ValueSetter<i64> for Value {
    open spec fn set_value_ensures(before: Self, after: Self, value: i64, r: ValueResult<()>) -> bool {
        r == Ok::<(), ValueError>(()) && after@ == ValueView::Int64(value)
    }

    fn set_value(&mut self, value: i64) -> (r: ValueResult<()>) {
        self.set_int64(value)
    }
}

impl ValueConstructorSealed<i128> for Value {}

impl ValueConstructor<i128> for Value {
    open spec fn from_type_ensures(value: i128, r: Self) -> bool {
        r@ == ValueView::Int128(value)
    }

    fn from_type(value: i128) -> (r: Self) {
        Value::Int128(value)
    }
}

impl ValueGetterSealed<i128> for Value {}

impl ValueGetter<i128> for Value {
    open spec fn get_value_ensures(&self, r: ValueResult<i128>) -> bool {
        r == self@.typed_get(DataType::Int128, self@.as_int128())
    }

    fn get_value(&self) -> (r: ValueResult<i128>) {
        self.get_int128()
    }
}

impl ValueSetterSealed<i128> for Value {}

impl ValueSetter<i128> for Value {
    open spec fn set_value_ensures(before: Self, after: Self, value: i128, r: ValueResult<()>) -> bool {
        r == Ok::<(), ValueError>(()) && after@ == ValueView::Int128(value)
    }

    fn set_value(&mut self, value: i128) -> (r: ValueResult<()>) {
        self.set_int128(value)
    }
}

impl ValueConstructorSealed<u8> for Value {}

impl ValueConstructor<u8> for Value {
    open spec fn from_type_ensures(value: u8, r: Self) -> bool {
        r@ == ValueView::UInt8(value)
    }

    fn from_type(value: u8) -> (r: Self) {
        Value::UInt8(value)
    }
}

impl ValueGetterSealed<u8> for Value {}

impl ValueGetter<u8> for Value {
    open spec fn get_value_ensures(&self, r: ValueResult<u8>) -> bool {
        r == self@.typed_get(DataType::UInt8, self@.as_uint8())
    }

    fn get_value(&self) -> (r: ValueResult<u8>) {
        self.get_uint8()
    }
}

impl ValueSetterSealed<u8> for Value {}

impl ValueSetter<u8> for Value {
    open spec fn set_value_ensures(before: Self, after: Self, value: u8, r: ValueResult<()>) -> bool {
        r == Ok::<(), ValueError>(()) && after@ == ValueView::UInt8(value)
    }

    fn set_value(&mut self, value: u8) -> (r: ValueResult<()>) {
        self.set_uint8(value)
    }
}

impl ValueConstructorSealed<u16> for Value {}

impl ValueConstructor<u16> for Value {
    open spec fn from_type_ensures(value: u16, r: Self) -> bool {
        r@ == ValueView::UInt16(value)
    }

    fn from_type(value: u16) -> (r: Self) {
        Value::UInt16(value)
    }
}

impl ValueGetterSealed<u16> for Value {}

impl ValueGetter<u16> for Value {
    open spec fn get_value_ensures(&self, r: ValueResult<u16>) -> bool {
        r == self@.typed_get(DataType::UInt16, self@.as_uint16())
    }

    fn get_value(&self) -> (r: ValueResult<u16>) {
        self.get_uint16()
    }
}

impl ValueSetterSealed<u16> for Value {}

impl ValueSetter<u16> for Value {
    open spec fn set_value_ensures(before: Self, after: Self, value: u16, r: ValueResult<()>) -> bool {
        r == Ok::<(), ValueError>(()) && after@ == ValueView::UInt16(value)
    }

    fn set_value(&mut self, value: u16) -> (r: ValueResult<()>) {
        self.set_uint16(value)
    }
}

impl ValueConstructorSealed<u32> for Value {}

impl ValueConstructor<u32> for Value {
    open spec fn from_type_ensures(value: u32, r: Self) -> bool {
        r@ == ValueView::UInt32(value)
    }

    fn from_type(value: u32) -> (r: Self) {
        Value::UInt32(value)
    }
}

impl ValueGetterSealed<u32> for Value {}

impl ValueGetter<u32> for Value {
    open spec fn get_value_ensures(&self, r: ValueResult<u32>) -> bool {
        r == self@.typed_get(DataType::UInt32, self@.as_uint32())
    }

    fn get_value(&self) -> (r: ValueResult<u32>) {
        self.get_uint32()
    }
}

impl ValueSetterSealed<u32> for Value {}

impl ValueSetter<u32> for Value {
    open spec fn set_value_ensures(before: Self, after: Self, value: u32, r: ValueResult<()>) -> bool {
        r == Ok::<(), ValueError>(()) && after@ == ValueView::UInt32(value)
    }

    fn set_value(&mut self, value: u32) -> (r: ValueResult<()>) {
        self.set_uint32(value)
    }
}

impl ValueConstructorSealed<u64> for Value {}

impl ValueConstructor<u64> for Value {
    open spec fn from_type_ensures(value: u64, r: Self) -> bool {
        r@ == ValueView::UInt64(value)
    }

    fn from_type(value: u64) -> (r: Self) {
        Value::UInt64(value)
    }
}

impl ValueGetterSealed<u64> for Value {}

impl ValueGetter<u64> for Value {
    open spec fn get_value_ensures(&self, r: ValueResult<u64>) -> bool {
        r == self@.typed_get(DataType::UInt64, self@.as_uint64())
    }

    fn get_value(&self) -> (r: ValueResult<u64>) {
        self.get_uint64()
    }
}

impl ValueSetterSealed<u64> for Value {}

impl ValueSetter<u64> for Value {
    open spec fn set_value_ensures(before: Self, after: Self, value: u64, r: ValueResult<()>) -> bool {
        r == Ok::<(), ValueError>(()) && after@ == ValueView::UInt64(value)
    }

    fn set_value(&mut self, value: u64) -> (r: ValueResult<()>) {
        self.set_uint64(value)
    }
}

impl ValueConstructorSealed<u128> for Value {}

impl ValueConstructor<u128> for Value {
    open spec fn from_type_ensures(value: u128, r: Self) -> bool {
        r@ == ValueView::UInt128(value)
    }

    fn from_type(value: u128) -> (r: Self) {
        Value::UInt128(value)
    }
}

impl ValueGetterSealed<u128> for Value {}

impl ValueGetter<u128> for Value {
    open spec fn get_value_ensures(&self, r: ValueResult<u128>) -> bool {
        r == self@.typed_get(DataType::UInt128, self@.as_uint128())
    }

    fn get_value(&self) -> (r: ValueResult<u128>) {
        self.get_uint128()
    }
}

impl ValueSetterSealed<u128> for Value {}

impl ValueSetter<u128> for Value {
    open spec fn set_value_ensures(before: Self, after: Self, value: u128, r: ValueResult<()>) -> bool {
        r == Ok::<(), ValueError>(()) && after@ == ValueView::UInt128(value)
    }

    fn set_value(&mut self, value: u128) -> (r: ValueResult<()>) {
        self.set_uint128(value)
    }
}

impl ValueConstructorSealed<isize> for Value {}

impl ValueConstructor<isize> for Value {
    open spec fn from_type_ensures(value: isize, r: Self) -> bool {
        r@ == ValueView::IntSize(value)
    }

    fn from_type(value: isize) -> (r: Self) {
        Value::IntSize(value)
    }
}

impl ValueGetterSealed<isize> for Value {}

impl ValueGetter<isize> for Value {
    open spec fn get_value_ensures(&self, r: ValueResult<isize>) -> bool {
        r == self@.typed_get(DataType::IntSize, self@.as_intsize())
    }

    fn get_value(&self) -> (r: ValueResult<isize>) {
        self.get_intsize()
    }
}

impl ValueSetterSealed<isize> for Value {}

impl ValueSetter<isize> for Value {
    open spec fn set_value_ensures(before: Self, after: Self, value: isize, r: ValueResult<()>) -> bool {
        r == Ok::<(), ValueError>(()) && after@ == ValueView::IntSize(value)
    }

    fn set_value(&mut self, value: isize) -> (r: ValueResult<()>) {
        self.set_intsize(value)
    }
}

impl ValueConstructorSealed<usize> for Value {}

impl ValueConstructor<usize> for Value {
    open spec fn from_type_ensures(value: usize, r: Self) -> bool {
        r@ == ValueView::UIntSize(value)
    }

    fn from_type(value: usize) -> (r: Self) {
        Value::UIntSize(value)
    }
}

impl ValueGetterSealed<usize> for Value {}

impl ValueGetter<usize> for Value {
    open spec fn get_value_ensures(&self, r: ValueResult<usize>) -> bool {
        r == self@.typed_get(DataType::UIntSize, self@.as_uintsize())
    }

    fn get_value(&self) -> (r: ValueResult<usize>) {
        self.get_uintsize()
    }
}

impl ValueSetterSealed<usize> for Value {}

impl ValueSetter<usize> for Value {
    open spec fn set_value_ensures(before: Self, after: Self, value: usize, r: ValueResult<()>) -> bool {
        r == Ok::<(), ValueError>(()) && after@ == ValueView::UIntSize(value)
    }

    fn set_value(&mut self, value: usize) -> (r: ValueResult<()>) {
        self.set_uintsize(value)
    }
}

impl ValueConstructorSealed<BigInt> for Value {}

impl ValueConstructor<BigInt> for Value {
    open spec fn from_type_ensures(value: BigInt, r: Self) -> bool {
        r@ == ValueView::BigInteger(value)
    }

    fn from_type(value: BigInt) -> (r: Self) {
        Value::BigInteger(value)
    }
}

impl ValueGetterSealed<BigInt> for Value {}

impl ValueGetter<BigInt> for Value {
    open spec fn get_value_ensures(&self, r: ValueResult<BigInt>) -> bool {
        r == self@.typed_get(DataType::BigInteger, self@.as_biginteger())
    }

    fn get_value(&self) -> (r: ValueResult<BigInt>) {
        self.get_biginteger()
    }
}

impl ValueSetterSealed<BigInt> for Value {}

impl ValueSetter<BigInt> for Value {
    open spec fn set_value_ensures(before: Self, after: Self, value: BigInt, r: ValueResult<()>) -> bool {
        r == Ok::<(), ValueError>(()) && after@ == ValueView::BigInteger(value)
    }

    fn set_value(&mut self, value: BigInt) -> (r: ValueResult<()>) {
        self.set_biginteger(value)
    }
}

impl ValueConstructorSealed<BigDecimal> for Value {}

impl ValueConstructor<BigDecimal> for Value {
    open spec fn from_type_ensures(value: BigDecimal, r: Self) -> bool {
        r@ == ValueView::BigDecimal(value)
    }

    fn from_type(value: BigDecimal) -> (r: Self) {
        Value::BigDecimal(value)
    }
}

impl ValueGetterSealed<BigDecimal> for Value {}

impl ValueGetter<BigDecimal> for Value {
    open spec fn get_value_ensures(&self, r: ValueResult<BigDecimal>) -> bool {
        r == self@.typed_get(DataType::BigDecimal, self@.as_bigdecimal())
    }

    fn get_value(&self) -> (r: ValueResult<BigDecimal>) {
        self.get_bigdecimal()
    }
}

impl ValueSetterSealed<BigDecimal> for Value {}

impl ValueSetter<BigDecimal> for Value {
    open spec fn set_value_ensures(before: Self, after: Self, value: BigDecimal, r: ValueResult<()>) -> bool {
        r == Ok::<(), ValueError>(()) && after@ == ValueView::BigDecimal(value)
    }

    fn set_value(&mut self, value: BigDecimal) -> (r: ValueResult<()>) {
        self.set_bigdecimal(value)
    }
}

impl ValueConstructorSealed<String> for Value {}

impl ValueConstructor<String> for Value {
    open spec fn from_type_ensures(value: String, r: Self) -> bool {
        r@ == ValueView::String(value@)
    }

    fn from_type(value: String) -> (r: Self) {
        Value::String(value)
    }
}

impl ValueGetterSealed<String> for Value {}

impl ValueGetter<String> for Value {
    open spec fn get_value_ensures(&self, r: ValueResult<String>) -> bool {
        ok_view(r) == self@.typed_get(DataType::String, self@.as_string())
    }

    fn get_value(&self) -> (r: ValueResult<String>) {
        match self.get_string() {
            Ok(s) => Ok(String::from_str(s)),
            Err(e) => Err(e),
        }
    }
}

impl ValueSetterSealed<String> for Value {}

impl ValueSetter<String> for Value {
    open spec fn set_value_ensures(before: Self, after: Self, value: String, r: ValueResult<()>) -> bool {
        r == Ok::<(), ValueError>(()) && after@ == ValueView::String(value@)
    }

    fn set_value(&mut self, value: String) -> (r: ValueResult<()>) {
        self.set_string(value)
    }
}

impl ValueConstructorSealed<NaiveDate> for Value {}

impl ValueConstructor<NaiveDate> for Value {
    open spec fn from_type_ensures(value: NaiveDate, r: Self) -> bool {
        r@ == ValueView::Date(value)
    }

    fn from_type(value: NaiveDate) -> (r: Self) {
        Value::Date(value)
    }
}

impl ValueGetterSealed<NaiveDate> for Value {}

impl ValueGetter<NaiveDate> for Value {
    open spec fn get_value_ensures(&self, r: ValueResult<NaiveDate>) -> bool {
        r == self@.typed_get(DataType::Date, self@.as_date())
    }

    fn get_value(&self) -> (r: ValueResult<NaiveDate>) {
        self.get_date()
    }
}

impl ValueSetterSealed<NaiveDate> for Value {}

impl ValueSetter<NaiveDate> for Value {
    open spec fn set_value_ensures(before: Self, after: Self, value: NaiveDate, r: ValueResult<()>) -> bool {
        r == Ok::<(), ValueError>(()) && after@ == ValueView::Date(value)
    }

    fn set_value(&mut self, value: NaiveDate) -> (r: ValueResult<()>) {
        self.set_date(value)
    }
}

impl ValueConstructorSealed<NaiveTime> for Value {}

impl ValueConstructor<NaiveTime> for Value {
    open spec fn from_type_ensures(value: NaiveTime, r: Self) -> bool {
        r@ == ValueView::Time(value)
    }

    fn from_type(value: NaiveTime) -> (r: Self) {
        Value::Time(value)
    }
}

impl ValueGetterSealed<NaiveTime> for Value {}

impl ValueGetter<NaiveTime> for Value {
    open spec fn get_value_ensures(&self, r: ValueResult<NaiveTime>) -> bool {
        r == self@.typed_get(DataType::Time, self@.as_time())
    }

    fn get_value(&self) -> (r: ValueResult<NaiveTime>) {
        self.get_time()
    }
}

impl ValueSetterSealed<NaiveTime> for Value {}

impl ValueSetter<NaiveTime> for Value {
    open spec fn set_value_ensures(before: Self, after: Self, value: NaiveTime, r: ValueResult<()>) -> bool {
        r == Ok::<(), ValueError>(()) && after@ == ValueView::Time(value)
    }

    fn set_value(&mut self, value: NaiveTime) -> (r: ValueResult<()>) {
        self.set_time(value)
    }
}

impl ValueConstructorSealed<NaiveDateTime> for Value {}

impl ValueConstructor<NaiveDateTime> for Value {
    open spec fn from_type_ensures(value: NaiveDateTime, r: Self) -> bool {
        r@ == ValueView::DateTime(value)
    }

    fn from_type(value: NaiveDateTime) -> (r: Self) {
        Value::DateTime(value)
    }
}

impl ValueGetterSealed<NaiveDateTime> for Value {}

impl ValueGetter<NaiveDateTime> for Value {
    open spec fn get_value_ensures(&self, r: ValueResult<NaiveDateTime>) -> bool {
        r == self@.typed_get(DataType::DateTime, self@.as_datetime())
    }

    fn get_value(&self) -> (r: ValueResult<NaiveDateTime>) {
        self.get_datetime()
    }
}

impl ValueSetterSealed<NaiveDateTime> for Value {}

impl ValueSetter<NaiveDateTime> for Value {
    open spec fn set_value_ensures(before: Self, after: Self, value: NaiveDateTime, r: ValueResult<()>) -> bool {
        r == Ok::<(), ValueError>(()) && after@ == ValueView::DateTime(value)
    }

    fn set_value(&mut self, value: NaiveDateTime) -> (r: ValueResult<()>) {
        self.set_datetime(value)
    }
}

impl ValueConstructorSealed<UtcInstant> for Value {}

impl ValueConstructor<UtcInstant> for Value {
    open spec fn from_type_ensures(value: UtcInstant, r: Self) -> bool {
        r@ == ValueView::Instant(value)
    }

    fn from_type(value: UtcInstant) -> (r: Self) {
        Value::Instant(value)
    }
}

impl ValueGetterSealed<UtcInstant> for Value {}

impl ValueGetter<UtcInstant> for Value {
    open spec fn get_value_ensures(&self, r: ValueResult<UtcInstant>) -> bool {
        r == self@.typed_get(DataType::Instant, self@.as_instant())
    }

    fn get_value(&self) -> (r: ValueResult<UtcInstant>) {
        self.get_instant()
    }
}

impl ValueSetterSealed<UtcInstant> for Value {}

impl ValueSetter<UtcInstant> for Value {
    open spec fn set_value_ensures(before: Self, after: Self, value: UtcInstant, r: ValueResult<()>) -> bool {
        r == Ok::<(), ValueError>(()) && after@ == ValueView::Instant(value)
    }

    fn set_value(&mut self, value: UtcInstant) -> (r: ValueResult<()>) {
        self.set_instant(value)
    }
}

impl ValueConstructorSealed<Duration> for Value {}

impl ValueConstructor<Duration> for Value {
    open spec fn from_type_ensures(value: Duration, r: Self) -> bool {
        r@ == ValueView::Duration(value)
    }

    fn from_type(value: Duration) -> (r: Self) {
        Value::Duration(value)
    }
}

impl ValueGetterSealed<Duration> for Value {}

impl ValueGetter<Duration> for Value {
    open spec fn get_value_ensures(&self, r: ValueResult<Duration>) -> bool {
        r == self@.typed_get(DataType::Duration, self@.as_duration())
    }

    fn get_value(&self) -> (r: ValueResult<Duration>) {
        self.get_duration()
    }
}

impl ValueSetterSealed<Duration> for Value {}

impl ValueSetter<Duration> for Value {
    open spec fn set_value_ensures(before: Self, after: Self, value: Duration, r: ValueResult<()>) -> bool {
        r == Ok::<(), ValueError>(()) && after@ == ValueView::Duration(value)
    }

    fn set_value(&mut self, value: Duration) -> (r: ValueResult<()>) {
        self.set_duration(value)
    }
}

impl ValueConstructorSealed<Url> for Value {}

impl ValueConstructor<Url> for Value {
    open spec fn from_type_ensures(value: Url, r: Self) -> bool {
        r@ == ValueView::Url(value)
    }

    fn from_type(value: Url) -> (r: Self) {
        Value::Url(value)
    }
}

impl ValueGetterSealed<Url> for Value {}

impl ValueGetter<Url> for Value {
    open spec fn get_value_ensures(&self, r: ValueResult<Url>) -> bool {
        r == self@.typed_get(DataType::Url, self@.as_url())
    }

    fn get_value(&self) -> (r: ValueResult<Url>) {
        self.get_url()
    }
}

impl ValueSetterSealed<Url> for Value {}

impl ValueSetter<Url> for Value {
    open spec fn set_value_ensures(before: Self, after: Self, value: Url, r: ValueResult<()>) -> bool {
        r == Ok::<(), ValueError>(()) && after@ == ValueView::Url(value)
    }

    fn set_value(&mut self, value: Url) -> (r: ValueResult<()>) {
        self.set_url(value)
    }
}

impl ValueConstructorSealed<HashMap<String, String>> for Value {}

impl ValueConstructor<HashMap<String, String>> for Value {
    open spec fn from_type_ensures(value: HashMap<String, String>, r: Self) -> bool {
        r@ == ValueView::StringMap(value@)
    }

    fn from_type(value: HashMap<String, String>) -> (r: Self) {
        Value::StringMap(value)
    }
}

impl ValueGetterSealed<HashMap<String, String>> for Value {}

impl ValueGetter<HashMap<String, String>> for Value {
    open spec fn get_value_ensures(&self, r: ValueResult<HashMap<String, String>>) -> bool {
        ok_view(r) == self@.typed_get(DataType::StringMap, self@.as_string_map())
    }

    fn get_value(&self) -> (r: ValueResult<HashMap<String, String>>) {
        self.get_string_map()
    }
}

impl ValueSetterSealed<HashMap<String, String>> for Value {}

impl ValueSetter<HashMap<String, String>> for Value {
    open spec fn set_value_ensures(before: Self, after: Self, value: HashMap<String, String>, r: ValueResult<()>) -> bool {
        r == Ok::<(), ValueError>(()) && after@ == ValueView::StringMap(value@)
    }

    fn set_value(&mut self, value: HashMap<String, String>) -> (r: ValueResult<()>) {
        self.set_string_map(value)
    }
}

impl ValueConstructorSealed<serde_json::Value> for Value {}

impl ValueConstructor<serde_json::Value> for Value {
    open spec fn from_type_ensures(value: serde_json::Value, r: Self) -> bool {
        r@ == ValueView::Json(value)
    }

    fn from_type(value: serde_json::Value) -> (r: Self) {
        Value::Json(value)
    }
}

impl ValueGetterSealed<serde_json::Value> for Value {}

impl ValueGetter<serde_json::Value> for Value {
    open spec fn get_value_ensures(&self, r: ValueResult<serde_json::Value>) -> bool {
        r == self@.typed_get(DataType::Json, self@.as_json())
    }

    fn get_value(&self) -> (r: ValueResult<serde_json::Value>) {
        self.get_json()
    }
}

impl ValueSetterSealed<serde_json::Value> for Value {}

impl ValueSetter<serde_json::Value> for Value {
    open spec fn set_value_ensures(before: Self, after: Self, value: serde_json::Value, r: ValueResult<()>) -> bool {
        r == Ok::<(), ValueError>(()) && after@ == ValueView::Json(value)
    }

    fn set_value(&mut self, value: serde_json::Value) -> (r: ValueResult<()>) {
        self.set_json(value)
    }
}

impl<'a> ValueConstructorSealed<&'a str> for Value {}

impl<'a> ValueConstructor<&'a str> for Value {
    open spec fn from_type_ensures(value: &'a str, r: Self) -> bool {
        r@ == ValueView::String(value@)
    }

    fn from_type(value: &'a str) -> (r: Self) {
        Value::String(String::from_str(value))
    }
}

impl<'a> ValueSetterSealed<&'a str> for Value {}

impl<'a> ValueSetter<&'a str> for Value {
    open spec fn set_value_ensures(before: Self, after: Self, value: &'a str, r: ValueResult<()>) -> bool {
        r == Ok::<(), ValueError>(()) && after@ == ValueView::String(value@)
    }

    fn set_value(&mut self, value: &'a str) -> (r: ValueResult<()>) {
        self.set_string(String::from_str(value))
    }
}

} // verus!
