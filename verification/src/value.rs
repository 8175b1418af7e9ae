//! # Single Value Container
//!
//! Type-safe storage of one value of any supported data type, or of no value
//! with a remembered type.
use vstd::prelude::*;

use bigdecimal::BigDecimal;
use chrono::{NaiveDate, NaiveDateTime, NaiveTime};
use num_bigint::BigInt;
use std::collections::HashMap;
use std::time::Duration;
use url::Url;

use crate::data_type::DataType;
use crate::error::{ValueError, ValueResult};
use crate::instant::UtcInstant;
use crate::value_traits::{ValueConstructor, ValueConverter, ValueGetter, ValueSetter};

verus! {

/// Single value container.
///
/// Floating-point values are held by their IEEE 754 bit patterns
/// (`f32::to_bits`, `f64::to_bits`).
#[derive(Debug, Clone, PartialEq)]
pub enum Value {
    /// Empty value (has type but no value)
    Empty(DataType),
    /// A value of type `bool`
    Bool(bool),
    /// A value of type `char`
    Char(char),
    /// A value of type `i8`
    Int8(i8),
    /// A value of type `i16`
    Int16(i16),
    /// A value of type `i32`
    Int32(i32),
    /// A value of type `i64`
    Int64(i64),
    /// A value of type `i128`
    Int128(i128),
    /// A value of type `u8`
    UInt8(u8),
    /// A value of type `u16`
    UInt16(u16),
    /// A value of type `u32`
    UInt32(u32),
    /// A value of type `u64`
    UInt64(u64),
    /// A value of type `u128`
    UInt128(u128),
    /// A value of type `isize`
    IntSize(isize),
    /// A value of type `usize`
    UIntSize(usize),
    /// An `f32` value, by its IEEE 754 bit pattern
    Float32(u32),
    /// An `f64` value, by its IEEE 754 bit pattern
    Float64(u64),
    /// A value of type `BigInt`
    BigInteger(BigInt),
    /// A value of type `BigDecimal`
    BigDecimal(BigDecimal),
    /// A value of type `String`
    String(String),
    /// A value of type `NaiveDate`
    Date(NaiveDate),
    /// A value of type `NaiveTime`
    Time(NaiveTime),
    /// A value of type `NaiveDateTime`
    DateTime(NaiveDateTime),
    /// A UTC instant
    Instant(UtcInstant),
    /// A value of type `Duration`
    Duration(Duration),
    /// A value of type `Url`
    Url(Url),
    /// A value of type `HashMap<String, String>`
    StringMap(HashMap<String, String>),
    /// A value of type `serde_json::Value`
    Json(serde_json::Value),
}

/// The mathematical content of a [`Value`]: strings by their characters and
/// string maps by their key-value maps.
pub enum ValueView {
    Empty(DataType),
    Bool(bool),
    Char(char),
    Int8(i8),
    Int16(i16),
    Int32(i32),
    Int64(i64),
    Int128(i128),
    UInt8(u8),
    UInt16(u16),
    UInt32(u32),
    UInt64(u64),
    UInt128(u128),
    IntSize(isize),
    UIntSize(usize),
    Float32(u32),
    Float64(u64),
    BigInteger(BigInt),
    BigDecimal(BigDecimal),
    String(Seq<char>),
    Date(NaiveDate),
    Time(NaiveTime),
    DateTime(NaiveDateTime),
    Instant(UtcInstant),
    Duration(Duration),
    Url(Url),
    StringMap(Map<String, String>),
    Json(serde_json::Value),
}

impl View for Value {
    type V = ValueView;

    open spec fn view(&self) -> ValueView {
        match self {
            Value::Empty(d) => ValueView::Empty(*d),
            Value::Bool(x) => ValueView::Bool(*x),
            Value::Char(x) => ValueView::Char(*x),
            Value::Int8(x) => ValueView::Int8(*x),
            Value::Int16(x) => ValueView::Int16(*x),
            Value::Int32(x) => ValueView::Int32(*x),
            Value::Int64(x) => ValueView::Int64(*x),
            Value::Int128(x) => ValueView::Int128(*x),
            Value::UInt8(x) => ValueView::UInt8(*x),
            Value::UInt16(x) => ValueView::UInt16(*x),
            Value::UInt32(x) => ValueView::UInt32(*x),
            Value::UInt64(x) => ValueView::UInt64(*x),
            Value::UInt128(x) => ValueView::UInt128(*x),
            Value::IntSize(x) => ValueView::IntSize(*x),
            Value::UIntSize(x) => ValueView::UIntSize(*x),
            Value::Float32(x) => ValueView::Float32(*x),
            Value::Float64(x) => ValueView::Float64(*x),
            Value::BigInteger(x) => ValueView::BigInteger(*x),
            Value::BigDecimal(x) => ValueView::BigDecimal(*x),
            Value::String(x) => ValueView::String(x@),
            Value::Date(x) => ValueView::Date(*x),
            Value::Time(x) => ValueView::Time(*x),
            Value::DateTime(x) => ValueView::DateTime(*x),
            Value::Instant(x) => ValueView::Instant(*x),
            Value::Duration(x) => ValueView::Duration(*x),
            Value::Url(x) => ValueView::Url(*x),
            Value::StringMap(x) => ValueView::StringMap(x@),
            Value::Json(x) => ValueView::Json(*x),
        }
    }
}

impl ValueView {
    /// The data type of the value.
    pub open spec fn data_type(self) -> DataType {
        match self {
            ValueView::Empty(d) => d,
            ValueView::Bool(_) => DataType::Bool,
            ValueView::Char(_) => DataType::Char,
            ValueView::Int8(_) => DataType::Int8,
            ValueView::Int16(_) => DataType::Int16,
            ValueView::Int32(_) => DataType::Int32,
            ValueView::Int64(_) => DataType::Int64,
            ValueView::Int128(_) => DataType::Int128,
            ValueView::UInt8(_) => DataType::UInt8,
            ValueView::UInt16(_) => DataType::UInt16,
            ValueView::UInt32(_) => DataType::UInt32,
            ValueView::UInt64(_) => DataType::UInt64,
            ValueView::UInt128(_) => DataType::UInt128,
            ValueView::IntSize(_) => DataType::IntSize,
            ValueView::UIntSize(_) => DataType::UIntSize,
            ValueView::Float32(_) => DataType::Float32,
            ValueView::Float64(_) => DataType::Float64,
            ValueView::BigInteger(_) => DataType::BigInteger,
            ValueView::BigDecimal(_) => DataType::BigDecimal,
            ValueView::String(_) => DataType::String,
            ValueView::Date(_) => DataType::Date,
            ValueView::Time(_) => DataType::Time,
            ValueView::DateTime(_) => DataType::DateTime,
            ValueView::Instant(_) => DataType::Instant,
            ValueView::Duration(_) => DataType::Duration,
            ValueView::Url(_) => DataType::Url,
            ValueView::StringMap(_) => DataType::StringMap,
            ValueView::Json(_) => DataType::Json,
        }
    }

    /// What a strictly typed getter returns: the item when the value holds the
    /// requested type, `NoValue` when the value is empty, and a type mismatch
    /// otherwise.
    pub open spec fn typed_get<A>(self, expected: DataType, item: Option<A>) -> ValueResult<A> {
        match item {
            Some(x) => Ok(x),
            None => if self is Empty {
                Err(ValueError::NoValue)
            } else {
                Err(ValueError::TypeMismatch { expected, actual: self.data_type() })
            },
        }
    }

    /// The held item when the value is a `Bool`.
    pub open spec fn as_bool(self) -> Option<bool> {
        match self {
            ValueView::Bool(x) => Some(x),
            _ => None,
        }
    }

    /// The held item when the value is a `Char`.
    pub open spec fn as_char(self) -> Option<char> {
        match self {
            ValueView::Char(x) => Some(x),
            _ => None,
        }
    }

    /// The held item when the value is a `Int8`.
    pub open spec fn as_int8(self) -> Option<i8> {
        match self {
            ValueView::Int8(x) => Some(x),
            _ => None,
        }
    }

    /// The held item when the value is a `Int16`.
    pub open spec fn as_int16(self) -> Option<i16> {
        match self {
            ValueView::Int16(x) => Some(x),
            _ => None,
        }
    }

    /// The held item when the value is a `Int32`.
    pub open spec fn as_int32(self) -> Option<i32> {
        match self {
            ValueView::Int32(x) => Some(x),
            _ => None,
        }
    }

    /// The held item when the value is a `Int64`.
    pub open spec fn as_int64(self) -> Option<i64> {
        match self {
            ValueView::Int64(x) => Some(x),
            _ => None,
        }
    }

    /// The held item when the value is a `Int128`.
    pub open spec fn as_int128(self) -> Option<i128> {
        match self {
            ValueView::Int128(x) => Some(x),
            _ => None,
        }
    }

    /// The held item when the value is a `UInt8`.
    pub open spec fn as_uint8(self) -> Option<u8> {
        match self {
            ValueView::UInt8(x) => Some(x),
            _ => None,
        }
    }

    /// The held item when the value is a `UInt16`.
    pub open spec fn as_uint16(self) -> Option<u16> {
        match self {
            ValueView::UInt16(x) => Some(x),
            _ => None,
        }
    }

    /// The held item when the value is a `UInt32`.
    pub open spec fn as_uint32(self) -> Option<u32> {
        match self {
            ValueView::UInt32(x) => Some(x),
            _ => None,
        }
    }

    /// The held item when the value is a `UInt64`.
    pub open spec fn as_uint64(self) -> Option<u64> {
        match self {
            ValueView::UInt64(x) => Some(x),
            _ => None,
        }
    }

    /// The held item when the value is a `UInt128`.
    pub open spec fn as_uint128(self) -> Option<u128> {
        match self {
            ValueView::UInt128(x) => Some(x),
            _ => None,
        }
    }

    /// The held item when the value is a `IntSize`.
    pub open spec fn as_intsize(self) -> Option<isize> {
        match self {
            ValueView::IntSize(x) => Some(x),
            _ => None,
        }
    }

    /// The held item when the value is a `UIntSize`.
    pub open spec fn as_uintsize(self) -> Option<usize> {
        match self {
            ValueView::UIntSize(x) => Some(x),
            _ => None,
        }
    }

    /// The held item when the value is a `Float32`.
    pub open spec fn as_float32_bits(self) -> Option<u32> {
        match self {
            ValueView::Float32(x) => Some(x),
            _ => None,
        }
    }

    /// The held item when the value is a `Float64`.
    pub open spec fn as_float64_bits(self) -> Option<u64> {
        match self {
            ValueView::Float64(x) => Some(x),
            _ => None,
        }
    }

    /// The held item when the value is a `BigInteger`.
    pub open spec fn as_biginteger(self) -> Option<BigInt> {
        match self {
            ValueView::BigInteger(x) => Some(x),
            _ => None,
        }
    }

    /// The held item when the value is a `BigDecimal`.
    pub open spec fn as_bigdecimal(self) -> Option<BigDecimal> {
        match self {
            ValueView::BigDecimal(x) => Some(x),
            _ => None,
        }
    }

    /// The held item when the value is a `String`.
    pub open spec fn as_string(self) -> Option<Seq<char>> {
        match self {
            ValueView::String(x) => Some(x),
            _ => None,
        }
    }

    /// The held item when the value is a `Date`.
    pub open spec fn as_date(self) -> Option<NaiveDate> {
        match self {
            ValueView::Date(x) => Some(x),
            _ => None,
        }
    }

    /// The held item when the value is a `Time`.
    pub open spec fn as_time(self) -> Option<NaiveTime> {
        match self {
            ValueView::Time(x) => Some(x),
            _ => None,
        }
    }

    /// The held item when the value is a `DateTime`.
    pub open spec fn as_datetime(self) -> Option<NaiveDateTime> {
        match self {
            ValueView::DateTime(x) => Some(x),
            _ => None,
        }
    }

    /// The held item when the value is a `Instant`.
    pub open spec fn as_instant(self) -> Option<UtcInstant> {
        match self {
            ValueView::Instant(x) => Some(x),
            _ => None,
        }
    }

    /// The held item when the value is a `Duration`.
    pub open spec fn as_duration(self) -> Option<Duration> {
        match self {
            ValueView::Duration(x) => Some(x),
            _ => None,
        }
    }

    /// The held item when the value is a `Url`.
    pub open spec fn as_url(self) -> Option<Url> {
        match self {
            ValueView::Url(x) => Some(x),
            _ => None,
        }
    }

    /// The held item when the value is a `StringMap`.
    pub open spec fn as_string_map(self) -> Option<Map<String, String>> {
        match self {
            ValueView::StringMap(x) => Some(x),
            _ => None,
        }
    }

    /// The held item when the value is a `Json`.
    pub open spec fn as_json(self) -> Option<serde_json::Value> {
        match self {
            ValueView::Json(x) => Some(x),
            _ => None,
        }
    }

}

/// The result with its success value taken by its view.
pub open spec fn ok_view<A: View>(r: ValueResult<A>) -> ValueResult<A::V> {
    match r {
        Ok(x) => Ok(x@),
        Err(e) => Err(e),
    }
}

/// The result with its success value dereferenced.
pub open spec fn ok_deref<A>(r: ValueResult<&A>) -> ValueResult<A> {
    match r {
        Ok(x) => Ok(*x),
        Err(e) => Err(e),
    }
}

impl Value {
    /// Creates a `Value` from any supported type.
    pub fn new<T>(value: T) -> (r: Self)
        where Self: ValueConstructor<T>,
        ensures
            <Self as ValueConstructor<T>>::from_type_ensures(value, r),
    {
        <Self as ValueConstructor<T>>::from_type(value)
    }

    /// Gets the value as `T`, with strict type matching.
    pub fn get<T>(&self) -> (r: ValueResult<T>)
        where Self: ValueGetter<T>,
        ensures
            <Self as ValueGetter<T>>::get_value_ensures(self, r),
    {
        <Self as ValueGetter<T>>::get_value(self)
    }

    /// Converts the value to `T` by the conversion rules of `T`.
    pub fn to<T>(&self) -> (r: ValueResult<T>)
        where Self: ValueConverter<T>,
        requires
            <Self as ValueConverter<T>>::convert_requires(self@),
        ensures
            <Self as ValueConverter<T>>::convert_ensures(self@, r),
    {
        <Self as ValueConverter<T>>::convert(self)
    }

    /// Replaces the stored value with `value`, changing the type as needed.
    pub fn set<T>(&mut self, value: T) -> (r: ValueResult<()>)
        where Self: ValueSetter<T>,
        ensures
            <Self as ValueSetter<T>>::set_value_ensures(*old(self), *final(self), value, r),
    {
        <Self as ValueSetter<T>>::set_value(self, value)
    }

    /// Returns the data type of the value.
    pub fn data_type(&self) -> (r: DataType)
        ensures
            r == self@.data_type(),
    {
        match self {
            Value::Empty(dt) => *dt,
            Value::Bool(_) => DataType::Bool,
            Value::Char(_) => DataType::Char,
            Value::Int8(_) => DataType::Int8,
            Value::Int16(_) => DataType::Int16,
            Value::Int32(_) => DataType::Int32,
            Value::Int64(_) => DataType::Int64,
            Value::Int128(_) => DataType::Int128,
            Value::UInt8(_) => DataType::UInt8,
            Value::UInt16(_) => DataType::UInt16,
            Value::UInt32(_) => DataType::UInt32,
            Value::UInt64(_) => DataType::UInt64,
            Value::UInt128(_) => DataType::UInt128,
            Value::IntSize(_) => DataType::IntSize,
            Value::UIntSize(_) => DataType::UIntSize,
            Value::Float32(_) => DataType::Float32,
            Value::Float64(_) => DataType::Float64,
            Value::BigInteger(_) => DataType::BigInteger,
            Value::BigDecimal(_) => DataType::BigDecimal,
            Value::String(_) => DataType::String,
            Value::Date(_) => DataType::Date,
            Value::Time(_) => DataType::Time,
            Value::DateTime(_) => DataType::DateTime,
            Value::Instant(_) => DataType::Instant,
            Value::Duration(_) => DataType::Duration,
            Value::Url(_) => DataType::Url,
            Value::StringMap(_) => DataType::StringMap,
            Value::Json(_) => DataType::Json,
        }
    }

    /// Returns whether the value is empty.
    pub fn is_empty(&self) -> (r: bool)
        ensures
            r == (self@ is Empty),
    {
        match self {
            Value::Empty(_) => true,
            _ => false,
        }
    }

    /// Clears the value while keeping its data type.
    pub fn clear(&mut self)
        ensures
            final(self)@ == ValueView::Empty(old(self)@.data_type()),
    {
        let dt = self.data_type();
        *self = Value::Empty(dt);
    }

    /// Sets the data type; a value of another type is cleared.
    pub fn set_type(&mut self, data_type: DataType)
        ensures
            if old(self)@.data_type() == data_type {
                final(self)@ == old(self)@
            } else {
                final(self)@ == ValueView::Empty(data_type)
            },
    {
        if self.data_type() != data_type {
            *self = Value::Empty(data_type);
        }
    }
}

impl Default for Value {
    fn default() -> (r: Self)
        ensures
            r@ == ValueView::Empty(DataType::String),
    {
        Value::Empty(DataType::String)
    }
}

} // verus!
