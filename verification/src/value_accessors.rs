//! Strictly typed getters and setters of [`Value`].
use vstd::prelude::*;

use bigdecimal::BigDecimal;
use chrono::{NaiveDate, NaiveDateTime, NaiveTime};
use num_bigint::BigInt;
use std::collections::HashMap;
use std::time::Duration;
use url::Url;

use crate::data_type::DataType;
use crate::error::{ValueError, ValueResult};
use crate::instant::UtcInstant;
use crate::value::{ok_deref, ok_view, Value, ValueView};

verus! {

impl Value {
    /// Gets the `Bool` item; `NoValue` when empty, a type mismatch otherwise.
    pub fn get_bool(&self) -> (r: ValueResult<bool>)
        ensures
            r == self@.typed_get(DataType::Bool, self@.as_bool()),
    {
        match self {
            Value::Bool(v) => Ok(*v),
            Value::Empty(_) => Err(ValueError::NoValue),
            _ => Err(ValueError::TypeMismatch { expected: DataType::Bool, actual: self.data_type() }),
        }
    }

    /// Replaces the value with a `Bool` item.
    pub fn set_bool(&mut self, value: bool) -> (r: ValueResult<()>)
        ensures
            r == Ok::<(), ValueError>(()),
            final(self)@ == ValueView::Bool(value),
    {
        *self = Value::Bool(value);
        Ok(())
    }

    /// Gets the `Char` item; `NoValue` when empty, a type mismatch otherwise.
    pub fn get_char(&self) -> (r: ValueResult<char>)
        ensures
            r == self@.typed_get(DataType::Char, self@.as_char()),
    {
        match self {
            Value::Char(v) => Ok(*v),
            Value::Empty(_) => Err(ValueError::NoValue),
            _ => Err(ValueError::TypeMismatch { expected: DataType::Char, actual: self.data_type() }),
        }
    }

    /// Replaces the value with a `Char` item.
    pub fn set_char(&mut self, value: char) -> (r: ValueResult<()>)
        ensures
            r == Ok::<(), ValueError>(()),
            final(self)@ == ValueView::Char(value),
    {
        *self = Value::Char(value);
        Ok(())
    }

    /// Gets the `Int8` item; `NoValue` when empty, a type mismatch otherwise.
    pub fn get_int8(&self) -> (r: ValueResult<i8>)
        ensures
            r == self@.typed_get(DataType::Int8, self@.as_int8()),
    {
        match self {
            Value::Int8(v) => Ok(*v),
            Value::Empty(_) => Err(ValueError::NoValue),
            _ => Err(ValueError::TypeMismatch { expected: DataType::Int8, actual: self.data_type() }),
        }
    }

    /// Replaces the value with a `Int8` item.
    pub fn set_int8(&mut self, value: i8) -> (r: ValueResult<()>)
        ensures
            r == Ok::<(), ValueError>(()),
            final(self)@ == ValueView::Int8(value),
    {
        *self = Value::Int8(value);
        Ok(())
    }

    /// Gets the `Int16` item; `NoValue` when empty, a type mismatch otherwise.
    pub fn get_int16(&self) -> (r: ValueResult<i16>)
        ensures
            r == self@.typed_get(DataType::Int16, self@.as_int16()),
    {
        match self {
            Value::Int16(v) => Ok(*v),
            Value::Empty(_) => Err(ValueError::NoValue),
            _ => Err(ValueError::TypeMismatch { expected: DataType::Int16, actual: self.data_type() }),
        }
    }

    /// Replaces the value with a `Int16` item.
    pub fn set_int16(&mut self, value: i16) -> (r: ValueResult<()>)
        ensures
            r == Ok::<(), ValueError>(()),
            final(self)@ == ValueView::Int16(value),
    {
        *self = Value::Int16(value);
        Ok(())
    }

    /// Gets the `Int32` item; `NoValue` when empty, a type mismatch otherwise.
    pub fn get_int32(&self) -> (r: ValueResult<i32>)
        ensures
            r == self@.typed_get(DataType::Int32, self@.as_int32()),
    {
        match self {
            Value::Int32(v) => Ok(*v),
            Value::Empty(_) => Err(ValueError::NoValue),
            _ => Err(ValueError::TypeMismatch { expected: DataType::Int32, actual: self.data_type() }),
        }
    }

    /// Replaces the value with a `Int32` item.
    pub fn set_int32(&mut self, value: i32) -> (r: ValueResult<()>)
        ensures
            r == Ok::<(), ValueError>(()),
            final(self)@ == ValueView::Int32(value),
    {
        *self = Value::Int32(value);
        Ok(())
    }

    /// Gets the `Int64` item; `NoValue` when empty, a type mismatch otherwise.
    pub fn get_int64(&self) -> (r: ValueResult<i64>)
        ensures
            r == self@.typed_get(DataType::Int64, self@.as_int64()),
    {
        match self {
            Value::Int64(v) => Ok(*v),
            Value::Empty(_) => Err(ValueError::NoValue),
            _ => Err(ValueError::TypeMismatch { expected: DataType::Int64, actual: self.data_type() }),
        }
    }

    /// Replaces the value with a `Int64` item.
    pub fn set_int64(&mut self, value: i64) -> (r: ValueResult<()>)
        ensures
            r == Ok::<(), ValueError>(()),
            final(self)@ == ValueView::Int64(value),
    {
        *self = Value::Int64(value);
        Ok(())
    }

    /// Gets the `Int128` item; `NoValue` when empty, a type mismatch otherwise.
    pub fn get_int128(&self) -> (r: ValueResult<i128>)
        ensures
            r == self@.typed_get(DataType::Int128, self@.as_int128()),
    {
        match self {
            Value::Int128(v) => Ok(*v),
            Value::Empty(_) => Err(ValueError::NoValue),
            _ => Err(ValueError::TypeMismatch { expected: DataType::Int128, actual: self.data_type() }),
        }
    }

    /// Replaces the value with a `Int128` item.
    pub fn set_int128(&mut self, value: i128) -> (r: ValueResult<()>)
        ensures
            r == Ok::<(), ValueError>(()),
            final(self)@ == ValueView::Int128(value),
    {
        *self = Value::Int128(value);
        Ok(())
    }

    /// Gets the `UInt8` item; `NoValue` when empty, a type mismatch otherwise.
    pub fn get_uint8(&self) -> (r: ValueResult<u8>)
        ensures
            r == self@.typed_get(DataType::UInt8, self@.as_uint8()),
    {
        match self {
            Value::UInt8(v) => Ok(*v),
            Value::Empty(_) => Err(ValueError::NoValue),
            _ => Err(ValueError::TypeMismatch { expected: DataType::UInt8, actual: self.data_type() }),
        }
    }

    /// Replaces the value with a `UInt8` item.
    pub fn set_uint8(&mut self, value: u8) -> (r: ValueResult<()>)
        ensures
            r == Ok::<(), ValueError>(()),
            final(self)@ == ValueView::UInt8(value),
    {
        *self = Value::UInt8(value);
        Ok(())
    }

    /// Gets the `UInt16` item; `NoValue` when empty, a type mismatch otherwise.
    pub fn get_uint16(&self) -> (r: ValueResult<u16>)
        ensures
            r == self@.typed_get(DataType::UInt16, self@.as_uint16()),
    {
        match self {
            Value::UInt16(v) => Ok(*v),
            Value::Empty(_) => Err(ValueError::NoValue),
            _ => Err(ValueError::TypeMismatch { expected: DataType::UInt16, actual: self.data_type() }),
        }
    }

    /// Replaces the value with a `UInt16` item.
    pub fn set_uint16(&mut self, value: u16) -> (r: ValueResult<()>)
        ensures
            r == Ok::<(), ValueError>(()),
            final(self)@ == ValueView::UInt16(value),
    {
        *self = Value::UInt16(value);
        Ok(())
    }

    /// Gets the `UInt32` item; `NoValue` when empty, a type mismatch otherwise.
    pub fn get_uint32(&self) -> (r: ValueResult<u32>)
        ensures
            r == self@.typed_get(DataType::UInt32, self@.as_uint32()),
    {
        match self {
            Value::UInt32(v) => Ok(*v),
            Value::Empty(_) => Err(ValueError::NoValue),
            _ => Err(ValueError::TypeMismatch { expected: DataType::UInt32, actual: self.data_type() }),
        }
    }

    /// Replaces the value with a `UInt32` item.
    pub fn set_uint32(&mut self, value: u32) -> (r: ValueResult<()>)
        ensures
            r == Ok::<(), ValueError>(()),
            final(self)@ == ValueView::UInt32(value),
    {
        *self = Value::UInt32(value);
        Ok(())
    }

    /// Gets the `UInt64` item; `NoValue` when empty, a type mismatch otherwise.
    pub fn get_uint64(&self) -> (r: ValueResult<u64>)
        ensures
            r == self@.typed_get(DataType::UInt64, self@.as_uint64()),
    {
        match self {
            Value::UInt64(v) => Ok(*v),
            Value::Empty(_) => Err(ValueError::NoValue),
            _ => Err(ValueError::TypeMismatch { expected: DataType::UInt64, actual: self.data_type() }),
        }
    }

    /// Replaces the value with a `UInt64` item.
    pub fn set_uint64(&mut self, value: u64) -> (r: ValueResult<()>)
        ensures
            r == Ok::<(), ValueError>(()),
            final(self)@ == ValueView::UInt64(value),
    {
        *self = Value::UInt64(value);
        Ok(())
    }

    /// Gets the `UInt128` item; `NoValue` when empty, a type mismatch otherwise.
    pub fn get_uint128(&self) -> (r: ValueResult<u128>)
        ensures
            r == self@.typed_get(DataType::UInt128, self@.as_uint128()),
    {
        match self {
            Value::UInt128(v) => Ok(*v),
            Value::Empty(_) => Err(ValueError::NoValue),
            _ => Err(ValueError::TypeMismatch { expected: DataType::UInt128, actual: self.data_type() }),
        }
    }

    /// Replaces the value with a `UInt128` item.
    pub fn set_uint128(&mut self, value: u128) -> (r: ValueResult<()>)
        ensures
            r == Ok::<(), ValueError>(()),
            final(self)@ == ValueView::UInt128(value),
    {
        *self = Value::UInt128(value);
        Ok(())
    }

    /// Gets the `IntSize` item; `NoValue` when empty, a type mismatch otherwise.
    pub fn get_intsize(&self) -> (r: ValueResult<isize>)
        ensures
            r == self@.typed_get(DataType::IntSize, self@.as_intsize()),
    {
        match self {
            Value::IntSize(v) => Ok(*v),
            Value::Empty(_) => Err(ValueError::NoValue),
            _ => Err(ValueError::TypeMismatch { expected: DataType::IntSize, actual: self.data_type() }),
        }
    }

    /// Replaces the value with a `IntSize` item.
    pub fn set_intsize(&mut self, value: isize) -> (r: ValueResult<()>)
        ensures
            r == Ok::<(), ValueError>(()),
            final(self)@ == ValueView::IntSize(value),
    {
        *self = Value::IntSize(value);
        Ok(())
    }

    /// Gets the `UIntSize` item; `NoValue` when empty, a type mismatch otherwise.
    pub fn get_uintsize(&self) -> (r: ValueResult<usize>)
        ensures
            r == self@.typed_get(DataType::UIntSize, self@.as_uintsize()),
    {
        match self {
            Value::UIntSize(v) => Ok(*v),
            Value::Empty(_) => Err(ValueError::NoValue),
            _ => Err(ValueError::TypeMismatch { expected: DataType::UIntSize, actual: self.data_type() }),
        }
    }

    /// Replaces the value with a `UIntSize` item.
    pub fn set_uintsize(&mut self, value: usize) -> (r: ValueResult<()>)
        ensures
            r == Ok::<(), ValueError>(()),
            final(self)@ == ValueView::UIntSize(value),
    {
        *self = Value::UIntSize(value);
        Ok(())
    }

    /// Gets the `Float32` item; `NoValue` when empty, a type mismatch otherwise.
    pub fn get_float32_bits(&self) -> (r: ValueResult<u32>)
        ensures
            r == self@.typed_get(DataType::Float32, self@.as_float32_bits()),
    {
        match self {
            Value::Float32(v) => Ok(*v),
            Value::Empty(_) => Err(ValueError::NoValue),
            _ => Err(ValueError::TypeMismatch { expected: DataType::Float32, actual: self.data_type() }),
        }
    }

    /// Replaces the value with a `Float32` item.
    pub fn set_float32_bits(&mut self, value: u32) -> (r: ValueResult<()>)
        ensures
            r == Ok::<(), ValueError>(()),
            final(self)@ == ValueView::Float32(value),
    {
        *self = Value::Float32(value);
        Ok(())
    }

    /// Gets the `Float64` item; `NoValue` when empty, a type mismatch otherwise.
    pub fn get_float64_bits(&self) -> (r: ValueResult<u64>)
        ensures
            r == self@.typed_get(DataType::Float64, self@.as_float64_bits()),
    {
        match self {
            Value::Float64(v) => Ok(*v),
            Value::Empty(_) => Err(ValueError::NoValue),
            _ => Err(ValueError::TypeMismatch { expected: DataType::Float64, actual: self.data_type() }),
        }
    }

    /// Replaces the value with a `Float64` item.
    pub fn set_float64_bits(&mut self, value: u64) -> (r: ValueResult<()>)
        ensures
            r == Ok::<(), ValueError>(()),
            final(self)@ == ValueView::Float64(value),
    {
        *self = Value::Float64(value);
        Ok(())
    }

    /// Gets the `BigInteger` item; `NoValue` when empty, a type mismatch otherwise.
    pub fn get_biginteger(&self) -> (r: ValueResult<BigInt>)
        ensures
            r == self@.typed_get(DataType::BigInteger, self@.as_biginteger()),
    {
        match self {
            Value::BigInteger(v) => Ok(v.clone()),
            Value::Empty(_) => Err(ValueError::NoValue),
            _ => Err(ValueError::TypeMismatch { expected: DataType::BigInteger, actual: self.data_type() }),
        }
    }

    /// Replaces the value with a `BigInteger` item.
    pub fn set_biginteger(&mut self, value: BigInt) -> (r: ValueResult<()>)
        ensures
            r == Ok::<(), ValueError>(()),
            final(self)@ == ValueView::BigInteger(value),
    {
        *self = Value::BigInteger(value);
        Ok(())
    }

    /// Gets the `BigDecimal` item; `NoValue` when empty, a type mismatch otherwise.
    pub fn get_bigdecimal(&self) -> (r: ValueResult<BigDecimal>)
        ensures
            r == self@.typed_get(DataType::BigDecimal, self@.as_bigdecimal()),
    {
        match self {
            Value::BigDecimal(v) => Ok(v.clone()),
            Value::Empty(_) => Err(ValueError::NoValue),
            _ => Err(ValueError::TypeMismatch { expected: DataType::BigDecimal, actual: self.data_type() }),
        }
    }

    /// Replaces the value with a `BigDecimal` item.
    pub fn set_bigdecimal(&mut self, value: BigDecimal) -> (r: ValueResult<()>)
        ensures
            r == Ok::<(), ValueError>(()),
            final(self)@ == ValueView::BigDecimal(value),
    {
        *self = Value::BigDecimal(value);
        Ok(())
    }

    /// Gets the `String` item; `NoValue` when empty, a type mismatch otherwise.
    pub fn get_string(&self) -> (r: ValueResult<&str>)
        ensures
            ok_view(r) == self@.typed_get(DataType::String, self@.as_string()),
    {
        match self {
            Value::String(v) => Ok(v.as_str()),
            Value::Empty(_) => Err(ValueError::NoValue),
            _ => Err(ValueError::TypeMismatch { expected: DataType::String, actual: self.data_type() }),
        }
    }

    /// Replaces the value with a `String` item.
    pub fn set_string(&mut self, value: String) -> (r: ValueResult<()>)
        ensures
            r == Ok::<(), ValueError>(()),
            final(self)@ == ValueView::String(value@),
    {
        *self = Value::String(value);
        Ok(())
    }

    /// Gets the `Date` item; `NoValue` when empty, a type mismatch otherwise.
    pub fn get_date(&self) -> (r: ValueResult<NaiveDate>)
        ensures
            r == self@.typed_get(DataType::Date, self@.as_date()),
    {
        match self {
            Value::Date(v) => Ok(*v),
            Value::Empty(_) => Err(ValueError::NoValue),
            _ => Err(ValueError::TypeMismatch { expected: DataType::Date, actual: self.data_type() }),
        }
    }

    /// Replaces the value with a `Date` item.
    pub fn set_date(&mut self, value: NaiveDate) -> (r: ValueResult<()>)
        ensures
            r == Ok::<(), ValueError>(()),
            final(self)@ == ValueView::Date(value),
    {
        *self = Value::Date(value);
        Ok(())
    }

    /// Gets the `Time` item; `NoValue` when empty, a type mismatch otherwise.
    pub fn get_time(&self) -> (r: ValueResult<NaiveTime>)
        ensures
            r == self@.typed_get(DataType::Time, self@.as_time()),
    {
        match self {
            Value::Time(v) => Ok(*v),
            Value::Empty(_) => Err(ValueError::NoValue),
            _ => Err(ValueError::TypeMismatch { expected: DataType::Time, actual: self.data_type() }),
        }
    }

    /// Replaces the value with a `Time` item.
    pub fn set_time(&mut self, value: NaiveTime) -> (r: ValueResult<()>)
        ensures
            r == Ok::<(), ValueError>(()),
            final(self)@ == ValueView::Time(value),
    {
        *self = Value::Time(value);
        Ok(())
    }

    /// Gets the `DateTime` item; `NoValue` when empty, a type mismatch otherwise.
    pub fn get_datetime(&self) -> (r: ValueResult<NaiveDateTime>)
        ensures
            r == self@.typed_get(DataType::DateTime, self@.as_datetime()),
    {
        match self {
            Value::DateTime(v) => Ok(*v),
            Value::Empty(_) => Err(ValueError::NoValue),
            _ => Err(ValueError::TypeMismatch { expected: DataType::DateTime, actual: self.data_type() }),
        }
    }

    /// Replaces the value with a `DateTime` item.
    pub fn set_datetime(&mut self, value: NaiveDateTime) -> (r: ValueResult<()>)
        ensures
            r == Ok::<(), ValueError>(()),
            final(self)@ == ValueView::DateTime(value),
    {
        *self = Value::DateTime(value);
        Ok(())
    }

    /// Gets the `Instant` item; `NoValue` when empty, a type mismatch otherwise.
    pub fn get_instant(&self) -> (r: ValueResult<UtcInstant>)
        ensures
            r == self@.typed_get(DataType::Instant, self@.as_instant()),
    {
        match self {
            Value::Instant(v) => Ok(*v),
            Value::Empty(_) => Err(ValueError::NoValue),
            _ => Err(ValueError::TypeMismatch { expected: DataType::Instant, actual: self.data_type() }),
        }
    }

    /// Replaces the value with a `Instant` item.
    pub fn set_instant(&mut self, value: UtcInstant) -> (r: ValueResult<()>)
        ensures
            r == Ok::<(), ValueError>(()),
            final(self)@ == ValueView::Instant(value),
    {
        *self = Value::Instant(value);
        Ok(())
    }

    /// Gets the `Duration` item; `NoValue` when empty, a type mismatch otherwise.
    pub fn get_duration(&self) -> (r: ValueResult<Duration>)
        ensures
            r == self@.typed_get(DataType::Duration, self@.as_duration()),
    {
        match self {
            Value::Duration(v) => Ok(*v),
            Value::Empty(_) => Err(ValueError::NoValue),
            _ => Err(ValueError::TypeMismatch { expected: DataType::Duration, actual: self.data_type() }),
        }
    }

    /// Replaces the value with a `Duration` item.
    pub fn set_duration(&mut self, value: Duration) -> (r: ValueResult<()>)
        ensures
            r == Ok::<(), ValueError>(()),
            final(self)@ == ValueView::Duration(value),
    {
        *self = Value::Duration(value);
        Ok(())
    }

    /// Gets the `Url` item; `NoValue` when empty, a type mismatch otherwise.
    pub fn get_url(&self) -> (r: ValueResult<Url>)
        ensures
            r == self@.typed_get(DataType::Url, self@.as_url()),
    {
        match self {
            Value::Url(v) => Ok(v.clone()),
            Value::Empty(_) => Err(ValueError::NoValue),
            _ => Err(ValueError::TypeMismatch { expected: DataType::Url, actual: self.data_type() }),
        }
    }

    /// Replaces the value with a `Url` item.
    pub fn set_url(&mut self, value: Url) -> (r: ValueResult<()>)
        ensures
            r == Ok::<(), ValueError>(()),
            final(self)@ == ValueView::Url(value),
    {
        *self = Value::Url(value);
        Ok(())
    }

    /// Gets the `StringMap` item; `NoValue` when empty, a type mismatch otherwise.
    pub fn get_string_map(&self) -> (r: ValueResult<HashMap<String, String>>)
        ensures
            ok_view(r) == self@.typed_get(DataType::StringMap, self@.as_string_map()),
    {
        match self {
            Value::StringMap(v) => Ok(v.clone()),
            Value::Empty(_) => Err(ValueError::NoValue),
            _ => Err(ValueError::TypeMismatch { expected: DataType::StringMap, actual: self.data_type() }),
        }
    }

    /// Replaces the value with a `StringMap` item.
    pub fn set_string_map(&mut self, value: HashMap<String, String>) -> (r: ValueResult<()>)
        ensures
            r == Ok::<(), ValueError>(()),
            final(self)@ == ValueView::StringMap(value@),
    {
        *self = Value::StringMap(value);
        Ok(())
    }

    /// Gets the `Json` item; `NoValue` when empty, a type mismatch otherwise.
    pub fn get_json(&self) -> (r: ValueResult<serde_json::Value>)
        ensures
            r == self@.typed_get(DataType::Json, self@.as_json()),
    {
        match self {
            Value::Json(v) => Ok(v.clone()),
            Value::Empty(_) => Err(ValueError::NoValue),
            _ => Err(ValueError::TypeMismatch { expected: DataType::Json, actual: self.data_type() }),
        }
    }

    /// Replaces the value with a `Json` item.
    pub fn set_json(&mut self, value: serde_json::Value) -> (r: ValueResult<()>)
        ensures
            r == Ok::<(), ValueError>(()),
            final(self)@ == ValueView::Json(value),
    {
        *self = Value::Json(value);
        Ok(())
    }

    /// Borrows the `BigInteger` item without cloning.
    pub fn get_biginteger_ref(&self) -> (r: ValueResult<&BigInt>)
        ensures
            ok_deref(r) == self@.typed_get(DataType::BigInteger, self@.as_biginteger()),
    {
        match self {
            Value::BigInteger(v) => Ok(v),
            Value::Empty(_) => Err(ValueError::NoValue),
            _ => Err(ValueError::TypeMismatch { expected: DataType::BigInteger, actual: self.data_type() }),
        }
    }

    /// Borrows the `BigDecimal` item without cloning.
    pub fn get_bigdecimal_ref(&self) -> (r: ValueResult<&BigDecimal>)
        ensures
            ok_deref(r) == self@.typed_get(DataType::BigDecimal, self@.as_bigdecimal()),
    {
        match self {
            Value::BigDecimal(v) => Ok(v),
            Value::Empty(_) => Err(ValueError::NoValue),
            _ => Err(ValueError::TypeMismatch { expected: DataType::BigDecimal, actual: self.data_type() }),
        }
    }

    /// Borrows the `Url` item without cloning.
    pub fn get_url_ref(&self) -> (r: ValueResult<&Url>)
        ensures
            ok_deref(r) == self@.typed_get(DataType::Url, self@.as_url()),
    {
        match self {
            Value::Url(v) => Ok(v),
            Value::Empty(_) => Err(ValueError::NoValue),
            _ => Err(ValueError::TypeMismatch { expected: DataType::Url, actual: self.data_type() }),
        }
    }

    /// Borrows the `StringMap` item without cloning.
    pub fn get_string_map_ref(&self) -> (r: ValueResult<&HashMap<String, String>>)
        ensures
            ok_view(r) == self@.typed_get(DataType::StringMap, self@.as_string_map()),
    {
        match self {
            Value::StringMap(v) => Ok(v),
            Value::Empty(_) => Err(ValueError::NoValue),
            _ => Err(ValueError::TypeMismatch { expected: DataType::StringMap, actual: self.data_type() }),
        }
    }

    /// Borrows the `Json` item without cloning.
    pub fn get_json_ref(&self) -> (r: ValueResult<&serde_json::Value>)
        ensures
            ok_deref(r) == self@.typed_get(DataType::Json, self@.as_json()),
    {
        match self {
            Value::Json(v) => Ok(v),
            Value::Empty(_) => Err(ValueError::NoValue),
            _ => Err(ValueError::TypeMismatch { expected: DataType::Json, actual: self.data_type() }),
        }
    }

    /// Creates a `Value` holding a JSON value.
    pub fn from_json_value(json: serde_json::Value) -> (r: Value)
        ensures
            r@ == ValueView::Json(json),
    {
        Value::Json(json)
    }

    /// The JSON value that deserialization reads: the held JSON value,
    /// `NoValue` when empty, and a failed conversion to JSON otherwise.
    pub fn json_source(&self) -> (r: ValueResult<&serde_json::Value>)
        ensures
            match self@ {
                ValueView::Json(j) => r == Ok::<&serde_json::Value, ValueError>(&j),
                ValueView::Empty(_) => r == Err::<&serde_json::Value, ValueError>(ValueError::NoValue),
                _ => r == Err::<&serde_json::Value, ValueError>(
                    ValueError::ConversionFailed { from: self@.data_type(), to: DataType::Json },
                ),
            },
    {
        match self {
            Value::Json(v) => Ok(v),
            Value::Empty(_) => Err(ValueError::NoValue),
            _ => Err(ValueError::ConversionFailed { from: self.data_type(), to: DataType::Json }),
        }
    }
}

} // verus!
