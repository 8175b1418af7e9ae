//! # Multiple Values Container
//!
//! Type-safe storage of a list of values of one supported data type, or of
//! an empty list with a remembered type.
use vstd::prelude::*;

use bigdecimal::BigDecimal;
use chrono::{NaiveDate, NaiveDateTime, NaiveTime};
use num_bigint::BigInt;
use serde_json::Value as JsonValue;
use std::collections::HashMap;
use std::time::Duration;
use url::Url;

use crate::data_type::DataType;
use crate::error::{ValueError, ValueErrorView, ValueResult};
use crate::instant::UtcInstant;
use crate::items::{
    append_items, append_maps, clone_items, clone_maps, lemma_maps_view_add, lemma_strings_view_add,
    maps_view, strings_view, ExactClone,
};
use crate::text::{decimal_text, format_u128};
use crate::value::{Value, ValueView};

verus! {

/// Multiple values container.
///
/// Floating-point values are held by their IEEE 754 bit patterns
/// (`f32::to_bits`, `f64::to_bits`).
#[derive(Debug, Clone, PartialEq)]
pub enum MultiValues {
    /// Empty value (has type but no values)
    Empty(DataType),
    /// A list of `bool` values
    Bool(Vec<bool>),
    /// A list of `char` values
    Char(Vec<char>),
    /// A list of `i8` values
    Int8(Vec<i8>),
    /// A list of `i16` values
    Int16(Vec<i16>),
    /// A list of `i32` values
    Int32(Vec<i32>),
    /// A list of `i64` values
    Int64(Vec<i64>),
    /// A list of `i128` values
    Int128(Vec<i128>),
    /// A list of `u8` values
    UInt8(Vec<u8>),
    /// A list of `u16` values
    UInt16(Vec<u16>),
    /// A list of `u32` values
    UInt32(Vec<u32>),
    /// A list of `u64` values
    UInt64(Vec<u64>),
    /// A list of `u128` values
    UInt128(Vec<u128>),
    /// A list of `isize` values
    IntSize(Vec<isize>),
    /// A list of `usize` values
    UIntSize(Vec<usize>),
    /// A list of `u32` values (bit patterns)
    Float32(Vec<u32>),
    /// A list of `u64` values (bit patterns)
    Float64(Vec<u64>),
    /// A list of `BigInt` values
    BigInteger(Vec<BigInt>),
    /// A list of `BigDecimal` values
    BigDecimal(Vec<BigDecimal>),
    /// A list of `String` values
    String(Vec<String>),
    /// A list of `NaiveDate` values
    Date(Vec<NaiveDate>),
    /// A list of `NaiveTime` values
    Time(Vec<NaiveTime>),
    /// A list of `NaiveDateTime` values
    DateTime(Vec<NaiveDateTime>),
    /// A list of `UtcInstant` values
    Instant(Vec<UtcInstant>),
    /// A list of `Duration` values
    Duration(Vec<Duration>),
    /// A list of `Url` values
    Url(Vec<Url>),
    /// A list of `HashMap<String, String>` values
    StringMap(Vec<HashMap<String, String>>),
    /// A list of `serde_json::Value` values
    Json(Vec<JsonValue>),
}

/// The mathematical content of a [`MultiValues`]: its items in order,
/// strings by their characters and string maps by their key-value maps.
pub enum MultiValuesView {
    Empty(DataType),
    Bool(Seq<bool>),
    Char(Seq<char>),
    Int8(Seq<i8>),
    Int16(Seq<i16>),
    Int32(Seq<i32>),
    Int64(Seq<i64>),
    Int128(Seq<i128>),
    UInt8(Seq<u8>),
    UInt16(Seq<u16>),
    UInt32(Seq<u32>),
    UInt64(Seq<u64>),
    UInt128(Seq<u128>),
    IntSize(Seq<isize>),
    UIntSize(Seq<usize>),
    Float32(Seq<u32>),
    Float64(Seq<u64>),
    BigInteger(Seq<BigInt>),
    BigDecimal(Seq<BigDecimal>),
    String(Seq<Seq<char>>),
    Date(Seq<NaiveDate>),
    Time(Seq<NaiveTime>),
    DateTime(Seq<NaiveDateTime>),
    Instant(Seq<UtcInstant>),
    Duration(Seq<Duration>),
    Url(Seq<Url>),
    StringMap(Seq<Map<String, String>>),
    Json(Seq<JsonValue>),
}

impl View for MultiValues {
    type V = MultiValuesView;

    open spec fn view(&self) -> MultiValuesView {
        match self {
            MultiValues::Empty(d) => MultiValuesView::Empty(*d),
            MultiValues::Bool(v) => MultiValuesView::Bool(v@),
            MultiValues::Char(v) => MultiValuesView::Char(v@),
            MultiValues::Int8(v) => MultiValuesView::Int8(v@),
            MultiValues::Int16(v) => MultiValuesView::Int16(v@),
            MultiValues::Int32(v) => MultiValuesView::Int32(v@),
            MultiValues::Int64(v) => MultiValuesView::Int64(v@),
            MultiValues::Int128(v) => MultiValuesView::Int128(v@),
            MultiValues::UInt8(v) => MultiValuesView::UInt8(v@),
            MultiValues::UInt16(v) => MultiValuesView::UInt16(v@),
            MultiValues::UInt32(v) => MultiValuesView::UInt32(v@),
            MultiValues::UInt64(v) => MultiValuesView::UInt64(v@),
            MultiValues::UInt128(v) => MultiValuesView::UInt128(v@),
            MultiValues::IntSize(v) => MultiValuesView::IntSize(v@),
            MultiValues::UIntSize(v) => MultiValuesView::UIntSize(v@),
            MultiValues::Float32(v) => MultiValuesView::Float32(v@),
            MultiValues::Float64(v) => MultiValuesView::Float64(v@),
            MultiValues::BigInteger(v) => MultiValuesView::BigInteger(v@),
            MultiValues::BigDecimal(v) => MultiValuesView::BigDecimal(v@),
            MultiValues::String(v) => MultiValuesView::String(strings_view(v@)),
            MultiValues::Date(v) => MultiValuesView::Date(v@),
            MultiValues::Time(v) => MultiValuesView::Time(v@),
            MultiValues::DateTime(v) => MultiValuesView::DateTime(v@),
            MultiValues::Instant(v) => MultiValuesView::Instant(v@),
            MultiValues::Duration(v) => MultiValuesView::Duration(v@),
            MultiValues::Url(v) => MultiValuesView::Url(v@),
            MultiValues::StringMap(v) => MultiValuesView::StringMap(maps_view(v@)),
            MultiValues::Json(v) => MultiValuesView::Json(v@),
        }
    }
}

/// The items of an optional list, or no items.
pub open spec fn items_or_empty<A>(items: Option<Seq<A>>) -> Seq<A> {
    match items {
        Some(s) => s,
        None => Seq::empty(),
    }
}

/// The message of a failed conversion of the item at `index`.
pub open spec fn item_error_message(index: int, error: ValueError) -> Seq<char> {
    "Cannot convert value at index "@ + decimal_text(index as nat) + ": "@ + error.message_spec()
}

impl MultiValuesView {
    /// The data type of the items.
    pub open spec fn data_type(self) -> DataType {
        match self {
            MultiValuesView::Empty(d) => d,
            MultiValuesView::Bool(_) => DataType::Bool,
            MultiValuesView::Char(_) => DataType::Char,
            MultiValuesView::Int8(_) => DataType::Int8,
            MultiValuesView::Int16(_) => DataType::Int16,
            MultiValuesView::Int32(_) => DataType::Int32,
            MultiValuesView::Int64(_) => DataType::Int64,
            MultiValuesView::Int128(_) => DataType::Int128,
            MultiValuesView::UInt8(_) => DataType::UInt8,
            MultiValuesView::UInt16(_) => DataType::UInt16,
            MultiValuesView::UInt32(_) => DataType::UInt32,
            MultiValuesView::UInt64(_) => DataType::UInt64,
            MultiValuesView::UInt128(_) => DataType::UInt128,
            MultiValuesView::IntSize(_) => DataType::IntSize,
            MultiValuesView::UIntSize(_) => DataType::UIntSize,
            MultiValuesView::Float32(_) => DataType::Float32,
            MultiValuesView::Float64(_) => DataType::Float64,
            MultiValuesView::BigInteger(_) => DataType::BigInteger,
            MultiValuesView::BigDecimal(_) => DataType::BigDecimal,
            MultiValuesView::String(_) => DataType::String,
            MultiValuesView::Date(_) => DataType::Date,
            MultiValuesView::Time(_) => DataType::Time,
            MultiValuesView::DateTime(_) => DataType::DateTime,
            MultiValuesView::Instant(_) => DataType::Instant,
            MultiValuesView::Duration(_) => DataType::Duration,
            MultiValuesView::Url(_) => DataType::Url,
            MultiValuesView::StringMap(_) => DataType::StringMap,
            MultiValuesView::Json(_) => DataType::Json,
        }
    }

    /// The number of items.
    pub open spec fn count(self) -> nat {
        match self {
            MultiValuesView::Empty(_) => 0,
            MultiValuesView::Bool(s) => s.len(),
            MultiValuesView::Char(s) => s.len(),
            MultiValuesView::Int8(s) => s.len(),
            MultiValuesView::Int16(s) => s.len(),
            MultiValuesView::Int32(s) => s.len(),
            MultiValuesView::Int64(s) => s.len(),
            MultiValuesView::Int128(s) => s.len(),
            MultiValuesView::UInt8(s) => s.len(),
            MultiValuesView::UInt16(s) => s.len(),
            MultiValuesView::UInt32(s) => s.len(),
            MultiValuesView::UInt64(s) => s.len(),
            MultiValuesView::UInt128(s) => s.len(),
            MultiValuesView::IntSize(s) => s.len(),
            MultiValuesView::UIntSize(s) => s.len(),
            MultiValuesView::Float32(s) => s.len(),
            MultiValuesView::Float64(s) => s.len(),
            MultiValuesView::BigInteger(s) => s.len(),
            MultiValuesView::BigDecimal(s) => s.len(),
            MultiValuesView::String(s) => s.len(),
            MultiValuesView::Date(s) => s.len(),
            MultiValuesView::Time(s) => s.len(),
            MultiValuesView::DateTime(s) => s.len(),
            MultiValuesView::Instant(s) => s.len(),
            MultiValuesView::Duration(s) => s.len(),
            MultiValuesView::Url(s) => s.len(),
            MultiValuesView::StringMap(s) => s.len(),
            MultiValuesView::Json(s) => s.len(),
        }
    }

    /// The item at `i`, as a single value.
    pub open spec fn element(self, i: int) -> ValueView {
        match self {
            MultiValuesView::Empty(d) => ValueView::Empty(d),
            MultiValuesView::Bool(s) => ValueView::Bool(s[i]),
            MultiValuesView::Char(s) => ValueView::Char(s[i]),
            MultiValuesView::Int8(s) => ValueView::Int8(s[i]),
            MultiValuesView::Int16(s) => ValueView::Int16(s[i]),
            MultiValuesView::Int32(s) => ValueView::Int32(s[i]),
            MultiValuesView::Int64(s) => ValueView::Int64(s[i]),
            MultiValuesView::Int128(s) => ValueView::Int128(s[i]),
            MultiValuesView::UInt8(s) => ValueView::UInt8(s[i]),
            MultiValuesView::UInt16(s) => ValueView::UInt16(s[i]),
            MultiValuesView::UInt32(s) => ValueView::UInt32(s[i]),
            MultiValuesView::UInt64(s) => ValueView::UInt64(s[i]),
            MultiValuesView::UInt128(s) => ValueView::UInt128(s[i]),
            MultiValuesView::IntSize(s) => ValueView::IntSize(s[i]),
            MultiValuesView::UIntSize(s) => ValueView::UIntSize(s[i]),
            MultiValuesView::Float32(s) => ValueView::Float32(s[i]),
            MultiValuesView::Float64(s) => ValueView::Float64(s[i]),
            MultiValuesView::BigInteger(s) => ValueView::BigInteger(s[i]),
            MultiValuesView::BigDecimal(s) => ValueView::BigDecimal(s[i]),
            MultiValuesView::String(s) => ValueView::String(s[i]),
            MultiValuesView::Date(s) => ValueView::Date(s[i]),
            MultiValuesView::Time(s) => ValueView::Time(s[i]),
            MultiValuesView::DateTime(s) => ValueView::DateTime(s[i]),
            MultiValuesView::Instant(s) => ValueView::Instant(s[i]),
            MultiValuesView::Duration(s) => ValueView::Duration(s[i]),
            MultiValuesView::Url(s) => ValueView::Url(s[i]),
            MultiValuesView::StringMap(s) => ValueView::StringMap(s[i]),
            MultiValuesView::Json(s) => ValueView::Json(s[i]),
        }
    }

    /// The first item as a single value, or an empty value of the same type.
    pub open spec fn first_value(self) -> ValueView {
        if self.count() > 0 {
            self.element(0)
        } else {
            ValueView::Empty(self.data_type())
        }
    }

    /// The list of the same type with no items.
    pub open spec fn cleared(self) -> MultiValuesView {
        match self {
            MultiValuesView::Empty(d) => MultiValuesView::Empty(d),
            MultiValuesView::Bool(_) => MultiValuesView::Bool(Seq::empty()),
            MultiValuesView::Char(_) => MultiValuesView::Char(Seq::empty()),
            MultiValuesView::Int8(_) => MultiValuesView::Int8(Seq::empty()),
            MultiValuesView::Int16(_) => MultiValuesView::Int16(Seq::empty()),
            MultiValuesView::Int32(_) => MultiValuesView::Int32(Seq::empty()),
            MultiValuesView::Int64(_) => MultiValuesView::Int64(Seq::empty()),
            MultiValuesView::Int128(_) => MultiValuesView::Int128(Seq::empty()),
            MultiValuesView::UInt8(_) => MultiValuesView::UInt8(Seq::empty()),
            MultiValuesView::UInt16(_) => MultiValuesView::UInt16(Seq::empty()),
            MultiValuesView::UInt32(_) => MultiValuesView::UInt32(Seq::empty()),
            MultiValuesView::UInt64(_) => MultiValuesView::UInt64(Seq::empty()),
            MultiValuesView::UInt128(_) => MultiValuesView::UInt128(Seq::empty()),
            MultiValuesView::IntSize(_) => MultiValuesView::IntSize(Seq::empty()),
            MultiValuesView::UIntSize(_) => MultiValuesView::UIntSize(Seq::empty()),
            MultiValuesView::Float32(_) => MultiValuesView::Float32(Seq::empty()),
            MultiValuesView::Float64(_) => MultiValuesView::Float64(Seq::empty()),
            MultiValuesView::BigInteger(_) => MultiValuesView::BigInteger(Seq::empty()),
            MultiValuesView::BigDecimal(_) => MultiValuesView::BigDecimal(Seq::empty()),
            MultiValuesView::String(_) => MultiValuesView::String(Seq::empty()),
            MultiValuesView::Date(_) => MultiValuesView::Date(Seq::empty()),
            MultiValuesView::Time(_) => MultiValuesView::Time(Seq::empty()),
            MultiValuesView::DateTime(_) => MultiValuesView::DateTime(Seq::empty()),
            MultiValuesView::Instant(_) => MultiValuesView::Instant(Seq::empty()),
            MultiValuesView::Duration(_) => MultiValuesView::Duration(Seq::empty()),
            MultiValuesView::Url(_) => MultiValuesView::Url(Seq::empty()),
            MultiValuesView::StringMap(_) => MultiValuesView::StringMap(Seq::empty()),
            MultiValuesView::Json(_) => MultiValuesView::Json(Seq::empty()),
        }
    }

    /// The list that holds the single value `v`, or an empty list of its type.
    pub open spec fn of_value(v: ValueView) -> MultiValuesView {
        match v {
            ValueView::Empty(d) => MultiValuesView::Empty(d),
            ValueView::Bool(x) => MultiValuesView::Bool(seq![x]),
            ValueView::Char(x) => MultiValuesView::Char(seq![x]),
            ValueView::Int8(x) => MultiValuesView::Int8(seq![x]),
            ValueView::Int16(x) => MultiValuesView::Int16(seq![x]),
            ValueView::Int32(x) => MultiValuesView::Int32(seq![x]),
            ValueView::Int64(x) => MultiValuesView::Int64(seq![x]),
            ValueView::Int128(x) => MultiValuesView::Int128(seq![x]),
            ValueView::UInt8(x) => MultiValuesView::UInt8(seq![x]),
            ValueView::UInt16(x) => MultiValuesView::UInt16(seq![x]),
            ValueView::UInt32(x) => MultiValuesView::UInt32(seq![x]),
            ValueView::UInt64(x) => MultiValuesView::UInt64(seq![x]),
            ValueView::UInt128(x) => MultiValuesView::UInt128(seq![x]),
            ValueView::IntSize(x) => MultiValuesView::IntSize(seq![x]),
            ValueView::UIntSize(x) => MultiValuesView::UIntSize(seq![x]),
            ValueView::Float32(x) => MultiValuesView::Float32(seq![x]),
            ValueView::Float64(x) => MultiValuesView::Float64(seq![x]),
            ValueView::BigInteger(x) => MultiValuesView::BigInteger(seq![x]),
            ValueView::BigDecimal(x) => MultiValuesView::BigDecimal(seq![x]),
            ValueView::String(x) => MultiValuesView::String(seq![x]),
            ValueView::Date(x) => MultiValuesView::Date(seq![x]),
            ValueView::Time(x) => MultiValuesView::Time(seq![x]),
            ValueView::DateTime(x) => MultiValuesView::DateTime(seq![x]),
            ValueView::Instant(x) => MultiValuesView::Instant(seq![x]),
            ValueView::Duration(x) => MultiValuesView::Duration(seq![x]),
            ValueView::Url(x) => MultiValuesView::Url(seq![x]),
            ValueView::StringMap(x) => MultiValuesView::StringMap(seq![x]),
            ValueView::Json(x) => MultiValuesView::Json(seq![x]),
        }
    }

    /// The items of `self` followed by those of `other`, for two lists of the
    /// same type; an empty list takes the other list as it is.
    pub open spec fn concat(self, other: MultiValuesView) -> MultiValuesView {
        match (self, other) {
            (MultiValuesView::Empty(_), _) => other,
            (MultiValuesView::Bool(a), MultiValuesView::Bool(b)) => MultiValuesView::Bool(a + b),
            (MultiValuesView::Char(a), MultiValuesView::Char(b)) => MultiValuesView::Char(a + b),
            (MultiValuesView::Int8(a), MultiValuesView::Int8(b)) => MultiValuesView::Int8(a + b),
            (MultiValuesView::Int16(a), MultiValuesView::Int16(b)) => MultiValuesView::Int16(a + b),
            (MultiValuesView::Int32(a), MultiValuesView::Int32(b)) => MultiValuesView::Int32(a + b),
            (MultiValuesView::Int64(a), MultiValuesView::Int64(b)) => MultiValuesView::Int64(a + b),
            (MultiValuesView::Int128(a), MultiValuesView::Int128(b)) => MultiValuesView::Int128(a + b),
            (MultiValuesView::UInt8(a), MultiValuesView::UInt8(b)) => MultiValuesView::UInt8(a + b),
            (MultiValuesView::UInt16(a), MultiValuesView::UInt16(b)) => MultiValuesView::UInt16(a + b),
            (MultiValuesView::UInt32(a), MultiValuesView::UInt32(b)) => MultiValuesView::UInt32(a + b),
            (MultiValuesView::UInt64(a), MultiValuesView::UInt64(b)) => MultiValuesView::UInt64(a + b),
            (MultiValuesView::UInt128(a), MultiValuesView::UInt128(b)) => MultiValuesView::UInt128(a + b),
            (MultiValuesView::IntSize(a), MultiValuesView::IntSize(b)) => MultiValuesView::IntSize(a + b),
            (MultiValuesView::UIntSize(a), MultiValuesView::UIntSize(b)) => MultiValuesView::UIntSize(a + b),
            (MultiValuesView::Float32(a), MultiValuesView::Float32(b)) => MultiValuesView::Float32(a + b),
            (MultiValuesView::Float64(a), MultiValuesView::Float64(b)) => MultiValuesView::Float64(a + b),
            (MultiValuesView::BigInteger(a), MultiValuesView::BigInteger(b)) => MultiValuesView::BigInteger(a + b),
            (MultiValuesView::BigDecimal(a), MultiValuesView::BigDecimal(b)) => MultiValuesView::BigDecimal(a + b),
            (MultiValuesView::String(a), MultiValuesView::String(b)) => MultiValuesView::String(a + b),
            (MultiValuesView::Date(a), MultiValuesView::Date(b)) => MultiValuesView::Date(a + b),
            (MultiValuesView::Time(a), MultiValuesView::Time(b)) => MultiValuesView::Time(a + b),
            (MultiValuesView::DateTime(a), MultiValuesView::DateTime(b)) => MultiValuesView::DateTime(a + b),
            (MultiValuesView::Instant(a), MultiValuesView::Instant(b)) => MultiValuesView::Instant(a + b),
            (MultiValuesView::Duration(a), MultiValuesView::Duration(b)) => MultiValuesView::Duration(a + b),
            (MultiValuesView::Url(a), MultiValuesView::Url(b)) => MultiValuesView::Url(a + b),
            (MultiValuesView::StringMap(a), MultiValuesView::StringMap(b)) => MultiValuesView::StringMap(a + b),
            (MultiValuesView::Json(a), MultiValuesView::Json(b)) => MultiValuesView::Json(a + b),
            _ => self,
        }
    }

    /// What merging `other` into `self` gives: the outcome and the new list.
    pub open spec fn merged(self, other: MultiValuesView) -> (ValueResult<()>, MultiValuesView) {
        if self.data_type() != other.data_type() {
            (Err(ValueError::TypeMismatch { expected: self.data_type(), actual: other.data_type() }), self)
        } else if other.count() == 0 {
            (Ok(()), self)
        } else {
            (Ok(()), self.concat(other))
        }
    }

    /// A type mismatch between `expected` and the type of the list.
    pub open spec fn mismatch<A>(self, expected: DataType) -> ValueResult<A> {
        Err(ValueError::TypeMismatch { expected, actual: self.data_type() })
    }

    /// What a strictly typed list getter returns: the items when the list
    /// has the `expected` type (none for an empty list), a mismatch otherwise.
    pub open spec fn typed_items<A>(self, expected: DataType, items: Option<Seq<A>>) -> ValueResult<Seq<A>> {
        if self.data_type() == expected {
            Ok(items_or_empty(items))
        } else {
            self.mismatch(expected)
        }
    }

    /// What a strictly typed first-item getter returns: the first item when
    /// the list has the `expected` type and an item, `NoValue` when it has
    /// the type and no item, a mismatch otherwise.
    pub open spec fn typed_first<A>(self, expected: DataType, items: Option<Seq<A>>) -> ValueResult<A> {
        if self.data_type() != expected {
            self.mismatch(expected)
        } else if items_or_empty(items).len() > 0 {
            Ok(items_or_empty(items)[0])
        } else {
            Err(ValueError::NoValue)
        }
    }

    /// The items when the list holds `Bool` items.
    pub open spec fn as_bools(self) -> Option<Seq<bool>> {
        match self {
            MultiValuesView::Bool(s) => Some(s),
            _ => None,
        }
    }

    /// What appending `extra` to a `Bool` list gives: the outcome and the new
    /// list, which is unchanged after a type mismatch.
    pub open spec fn append_bools(self, extra: Seq<bool>) -> (ValueResult<()>, MultiValuesView) {
        if self.data_type() == DataType::Bool {
            (Ok(()), MultiValuesView::Bool(items_or_empty(self.as_bools()) + extra))
        } else {
            (self.mismatch(DataType::Bool), self)
        }
    }

    /// The items when the list holds `Char` items.
    pub open spec fn as_chars(self) -> Option<Seq<char>> {
        match self {
            MultiValuesView::Char(s) => Some(s),
            _ => None,
        }
    }

    /// What appending `extra` to a `Char` list gives: the outcome and the new
    /// list, which is unchanged after a type mismatch.
    pub open spec fn append_chars(self, extra: Seq<char>) -> (ValueResult<()>, MultiValuesView) {
        if self.data_type() == DataType::Char {
            (Ok(()), MultiValuesView::Char(items_or_empty(self.as_chars()) + extra))
        } else {
            (self.mismatch(DataType::Char), self)
        }
    }

    /// The items when the list holds `Int8` items.
    pub open spec fn as_int8s(self) -> Option<Seq<i8>> {
        match self {
            MultiValuesView::Int8(s) => Some(s),
            _ => None,
        }
    }

    /// What appending `extra` to a `Int8` list gives: the outcome and the new
    /// list, which is unchanged after a type mismatch.
    pub open spec fn append_int8s(self, extra: Seq<i8>) -> (ValueResult<()>, MultiValuesView) {
        if self.data_type() == DataType::Int8 {
            (Ok(()), MultiValuesView::Int8(items_or_empty(self.as_int8s()) + extra))
        } else {
            (self.mismatch(DataType::Int8), self)
        }
    }

    /// The items when the list holds `Int16` items.
    pub open spec fn as_int16s(self) -> Option<Seq<i16>> {
        match self {
            MultiValuesView::Int16(s) => Some(s),
            _ => None,
        }
    }

    /// What appending `extra` to a `Int16` list gives: the outcome and the new
    /// list, which is unchanged after a type mismatch.
    pub open spec fn append_int16s(self, extra: Seq<i16>) -> (ValueResult<()>, MultiValuesView) {
        if self.data_type() == DataType::Int16 {
            (Ok(()), MultiValuesView::Int16(items_or_empty(self.as_int16s()) + extra))
        } else {
            (self.mismatch(DataType::Int16), self)
        }
    }

    /// The items when the list holds `Int32` items.
    pub open spec fn as_int32s(self) -> Option<Seq<i32>> {
        match self {
            MultiValuesView::Int32(s) => Some(s),
            _ => None,
        }
    }

    /// What appending `extra` to a `Int32` list gives: the outcome and the new
    /// list, which is unchanged after a type mismatch.
    pub open spec fn append_int32s(self, extra: Seq<i32>) -> (ValueResult<()>, MultiValuesView) {
        if self.data_type() == DataType::Int32 {
            (Ok(()), MultiValuesView::Int32(items_or_empty(self.as_int32s()) + extra))
        } else {
            (self.mismatch(DataType::Int32), self)
        }
    }

    /// The items when the list holds `Int64` items.
    pub open spec fn as_int64s(self) -> Option<Seq<i64>> {
        match self {
            MultiValuesView::Int64(s) => Some(s),
            _ => None,
        }
    }

    /// What appending `extra` to a `Int64` list gives: the outcome and the new
    /// list, which is unchanged after a type mismatch.
    pub open spec fn append_int64s(self, extra: Seq<i64>) -> (ValueResult<()>, MultiValuesView) {
        if self.data_type() == DataType::Int64 {
            (Ok(()), MultiValuesView::Int64(items_or_empty(self.as_int64s()) + extra))
        } else {
            (self.mismatch(DataType::Int64), self)
        }
    }

    /// The items when the list holds `Int128` items.
    pub open spec fn as_int128s(self) -> Option<Seq<i128>> {
        match self {
            MultiValuesView::Int128(s) => Some(s),
            _ => None,
        }
    }

    /// What appending `extra` to a `Int128` list gives: the outcome and the new
    /// list, which is unchanged after a type mismatch.
    pub open spec fn append_int128s(self, extra: Seq<i128>) -> (ValueResult<()>, MultiValuesView) {
        if self.data_type() == DataType::Int128 {
            (Ok(()), MultiValuesView::Int128(items_or_empty(self.as_int128s()) + extra))
        } else {
            (self.mismatch(DataType::Int128), self)
        }
    }

    /// The items when the list holds `UInt8` items.
    pub open spec fn as_uint8s(self) -> Option<Seq<u8>> {
        match self {
            MultiValuesView::UInt8(s) => Some(s),
            _ => None,
        }
    }

    /// What appending `extra` to a `UInt8` list gives: the outcome and the new
    /// list, which is unchanged after a type mismatch.
    pub open spec fn append_uint8s(self, extra: Seq<u8>) -> (ValueResult<()>, MultiValuesView) {
        if self.data_type() == DataType::UInt8 {
            (Ok(()), MultiValuesView::UInt8(items_or_empty(self.as_uint8s()) + extra))
        } else {
            (self.mismatch(DataType::UInt8), self)
        }
    }

    /// The items when the list holds `UInt16` items.
    pub open spec fn as_uint16s(self) -> Option<Seq<u16>> {
        match self {
            MultiValuesView::UInt16(s) => Some(s),
            _ => None,
        }
    }

    /// What appending `extra` to a `UInt16` list gives: the outcome and the new
    /// list, which is unchanged after a type mismatch.
    pub open spec fn append_uint16s(self, extra: Seq<u16>) -> (ValueResult<()>, MultiValuesView) {
        if self.data_type() == DataType::UInt16 {
            (Ok(()), MultiValuesView::UInt16(items_or_empty(self.as_uint16s()) + extra))
        } else {
            (self.mismatch(DataType::UInt16), self)
        }
    }

    /// The items when the list holds `UInt32` items.
    pub open spec fn as_uint32s(self) -> Option<Seq<u32>> {
        match self {
            MultiValuesView::UInt32(s) => Some(s),
            _ => None,
        }
    }

    /// What appending `extra` to a `UInt32` list gives: the outcome and the new
    /// list, which is unchanged after a type mismatch.
    pub open spec fn append_uint32s(self, extra: Seq<u32>) -> (ValueResult<()>, MultiValuesView) {
        if self.data_type() == DataType::UInt32 {
            (Ok(()), MultiValuesView::UInt32(items_or_empty(self.as_uint32s()) + extra))
        } else {
            (self.mismatch(DataType::UInt32), self)
        }
    }

    /// The items when the list holds `UInt64` items.
    pub open spec fn as_uint64s(self) -> Option<Seq<u64>> {
        match self {
            MultiValuesView::UInt64(s) => Some(s),
            _ => None,
        }
    }

    /// What appending `extra` to a `UInt64` list gives: the outcome and the new
    /// list, which is unchanged after a type mismatch.
    pub open spec fn append_uint64s(self, extra: Seq<u64>) -> (ValueResult<()>, MultiValuesView) {
        if self.data_type() == DataType::UInt64 {
            (Ok(()), MultiValuesView::UInt64(items_or_empty(self.as_uint64s()) + extra))
        } else {
            (self.mismatch(DataType::UInt64), self)
        }
    }

    /// The items when the list holds `UInt128` items.
    pub open spec fn as_uint128s(self) -> Option<Seq<u128>> {
        match self {
            MultiValuesView::UInt128(s) => Some(s),
            _ => None,
        }
    }

    /// What appending `extra` to a `UInt128` list gives: the outcome and the new
    /// list, which is unchanged after a type mismatch.
    pub open spec fn append_uint128s(self, extra: Seq<u128>) -> (ValueResult<()>, MultiValuesView) {
        if self.data_type() == DataType::UInt128 {
            (Ok(()), MultiValuesView::UInt128(items_or_empty(self.as_uint128s()) + extra))
        } else {
            (self.mismatch(DataType::UInt128), self)
        }
    }

    /// The items when the list holds `IntSize` items.
    pub open spec fn as_intsizes(self) -> Option<Seq<isize>> {
        match self {
            MultiValuesView::IntSize(s) => Some(s),
            _ => None,
        }
    }

    /// What appending `extra` to a `IntSize` list gives: the outcome and the new
    /// list, which is unchanged after a type mismatch.
    pub open spec fn append_intsizes(self, extra: Seq<isize>) -> (ValueResult<()>, MultiValuesView) {
        if self.data_type() == DataType::IntSize {
            (Ok(()), MultiValuesView::IntSize(items_or_empty(self.as_intsizes()) + extra))
        } else {
            (self.mismatch(DataType::IntSize), self)
        }
    }

    /// The items when the list holds `UIntSize` items.
    pub open spec fn as_uintsizes(self) -> Option<Seq<usize>> {
        match self {
            MultiValuesView::UIntSize(s) => Some(s),
            _ => None,
        }
    }

    /// What appending `extra` to a `UIntSize` list gives: the outcome and the new
    /// list, which is unchanged after a type mismatch.
    pub open spec fn append_uintsizes(self, extra: Seq<usize>) -> (ValueResult<()>, MultiValuesView) {
        if self.data_type() == DataType::UIntSize {
            (Ok(()), MultiValuesView::UIntSize(items_or_empty(self.as_uintsizes()) + extra))
        } else {
            (self.mismatch(DataType::UIntSize), self)
        }
    }

    /// The items when the list holds `Float32` items.
    pub open spec fn as_float32s_bits(self) -> Option<Seq<u32>> {
        match self {
            MultiValuesView::Float32(s) => Some(s),
            _ => None,
        }
    }

    /// What appending `extra` to a `Float32` list gives: the outcome and the new
    /// list, which is unchanged after a type mismatch.
    pub open spec fn append_float32s_bits(self, extra: Seq<u32>) -> (ValueResult<()>, MultiValuesView) {
        if self.data_type() == DataType::Float32 {
            (Ok(()), MultiValuesView::Float32(items_or_empty(self.as_float32s_bits()) + extra))
        } else {
            (self.mismatch(DataType::Float32), self)
        }
    }

    /// The items when the list holds `Float64` items.
    pub open spec fn as_float64s_bits(self) -> Option<Seq<u64>> {
        match self {
            MultiValuesView::Float64(s) => Some(s),
            _ => None,
        }
    }

    /// What appending `extra` to a `Float64` list gives: the outcome and the new
    /// list, which is unchanged after a type mismatch.
    pub open spec fn append_float64s_bits(self, extra: Seq<u64>) -> (ValueResult<()>, MultiValuesView) {
        if self.data_type() == DataType::Float64 {
            (Ok(()), MultiValuesView::Float64(items_or_empty(self.as_float64s_bits()) + extra))
        } else {
            (self.mismatch(DataType::Float64), self)
        }
    }

    /// The items when the list holds `BigInteger` items.
    pub open spec fn as_bigintegers(self) -> Option<Seq<BigInt>> {
        match self {
            MultiValuesView::BigInteger(s) => Some(s),
            _ => None,
        }
    }

    /// What appending `extra` to a `BigInteger` list gives: the outcome and the new
    /// list, which is unchanged after a type mismatch.
    pub open spec fn append_bigintegers(self, extra: Seq<BigInt>) -> (ValueResult<()>, MultiValuesView) {
        if self.data_type() == DataType::BigInteger {
            (Ok(()), MultiValuesView::BigInteger(items_or_empty(self.as_bigintegers()) + extra))
        } else {
            (self.mismatch(DataType::BigInteger), self)
        }
    }

    /// The items when the list holds `BigDecimal` items.
    pub open spec fn as_bigdecimals(self) -> Option<Seq<BigDecimal>> {
        match self {
            MultiValuesView::BigDecimal(s) => Some(s),
            _ => None,
        }
    }

    /// What appending `extra` to a `BigDecimal` list gives: the outcome and the new
    /// list, which is unchanged after a type mismatch.
    pub open spec fn append_bigdecimals(self, extra: Seq<BigDecimal>) -> (ValueResult<()>, MultiValuesView) {
        if self.data_type() == DataType::BigDecimal {
            (Ok(()), MultiValuesView::BigDecimal(items_or_empty(self.as_bigdecimals()) + extra))
        } else {
            (self.mismatch(DataType::BigDecimal), self)
        }
    }

    /// The items when the list holds `String` items.
    pub open spec fn as_strings(self) -> Option<Seq<Seq<char>>> {
        match self {
            MultiValuesView::String(s) => Some(s),
            _ => None,
        }
    }

    /// What appending `extra` to a `String` list gives: the outcome and the new
    /// list, which is unchanged after a type mismatch.
    pub open spec fn append_strings(self, extra: Seq<Seq<char>>) -> (ValueResult<()>, MultiValuesView) {
        if self.data_type() == DataType::String {
            (Ok(()), MultiValuesView::String(items_or_empty(self.as_strings()) + extra))
        } else {
            (self.mismatch(DataType::String), self)
        }
    }

    /// The items when the list holds `Date` items.
    pub open spec fn as_dates(self) -> Option<Seq<NaiveDate>> {
        match self {
            MultiValuesView::Date(s) => Some(s),
            _ => None,
        }
    }

    /// What appending `extra` to a `Date` list gives: the outcome and the new
    /// list, which is unchanged after a type mismatch.
    pub open spec fn append_dates(self, extra: Seq<NaiveDate>) -> (ValueResult<()>, MultiValuesView) {
        if self.data_type() == DataType::Date {
            (Ok(()), MultiValuesView::Date(items_or_empty(self.as_dates()) + extra))
        } else {
            (self.mismatch(DataType::Date), self)
        }
    }

    /// The items when the list holds `Time` items.
    pub open spec fn as_times(self) -> Option<Seq<NaiveTime>> {
        match self {
            MultiValuesView::Time(s) => Some(s),
            _ => None,
        }
    }

    /// What appending `extra` to a `Time` list gives: the outcome and the new
    /// list, which is unchanged after a type mismatch.
    pub open spec fn append_times(self, extra: Seq<NaiveTime>) -> (ValueResult<()>, MultiValuesView) {
        if self.data_type() == DataType::Time {
            (Ok(()), MultiValuesView::Time(items_or_empty(self.as_times()) + extra))
        } else {
            (self.mismatch(DataType::Time), self)
        }
    }

    /// The items when the list holds `DateTime` items.
    pub open spec fn as_datetimes(self) -> Option<Seq<NaiveDateTime>> {
        match self {
            MultiValuesView::DateTime(s) => Some(s),
            _ => None,
        }
    }

    /// What appending `extra` to a `DateTime` list gives: the outcome and the new
    /// list, which is unchanged after a type mismatch.
    pub open spec fn append_datetimes(self, extra: Seq<NaiveDateTime>) -> (ValueResult<()>, MultiValuesView) {
        if self.data_type() == DataType::DateTime {
            (Ok(()), MultiValuesView::DateTime(items_or_empty(self.as_datetimes()) + extra))
        } else {
            (self.mismatch(DataType::DateTime), self)
        }
    }

    /// The items when the list holds `Instant` items.
    pub open spec fn as_instants(self) -> Option<Seq<UtcInstant>> {
        match self {
            MultiValuesView::Instant(s) => Some(s),
            _ => None,
        }
    }

    /// What appending `extra` to a `Instant` list gives: the outcome and the new
    /// list, which is unchanged after a type mismatch.
    pub open spec fn append_instants(self, extra: Seq<UtcInstant>) -> (ValueResult<()>, MultiValuesView) {
        if self.data_type() == DataType::Instant {
            (Ok(()), MultiValuesView::Instant(items_or_empty(self.as_instants()) + extra))
        } else {
            (self.mismatch(DataType::Instant), self)
        }
    }

    /// The items when the list holds `Duration` items.
    pub open spec fn as_durations(self) -> Option<Seq<Duration>> {
        match self {
            MultiValuesView::Duration(s) => Some(s),
            _ => None,
        }
    }

    /// What appending `extra` to a `Duration` list gives: the outcome and the new
    /// list, which is unchanged after a type mismatch.
    pub open spec fn append_durations(self, extra: Seq<Duration>) -> (ValueResult<()>, MultiValuesView) {
        if self.data_type() == DataType::Duration {
            (Ok(()), MultiValuesView::Duration(items_or_empty(self.as_durations()) + extra))
        } else {
            (self.mismatch(DataType::Duration), self)
        }
    }

    /// The items when the list holds `Url` items.
    pub open spec fn as_urls(self) -> Option<Seq<Url>> {
        match self {
            MultiValuesView::Url(s) => Some(s),
            _ => None,
        }
    }

    /// What appending `extra` to a `Url` list gives: the outcome and the new
    /// list, which is unchanged after a type mismatch.
    pub open spec fn append_urls(self, extra: Seq<Url>) -> (ValueResult<()>, MultiValuesView) {
        if self.data_type() == DataType::Url {
            (Ok(()), MultiValuesView::Url(items_or_empty(self.as_urls()) + extra))
        } else {
            (self.mismatch(DataType::Url), self)
        }
    }

    /// The items when the list holds `StringMap` items.
    pub open spec fn as_string_maps(self) -> Option<Seq<Map<String, String>>> {
        match self {
            MultiValuesView::StringMap(s) => Some(s),
            _ => None,
        }
    }

    /// What appending `extra` to a `StringMap` list gives: the outcome and the new
    /// list, which is unchanged after a type mismatch.
    pub open spec fn append_string_maps(self, extra: Seq<Map<String, String>>) -> (ValueResult<()>, MultiValuesView) {
        if self.data_type() == DataType::StringMap {
            (Ok(()), MultiValuesView::StringMap(items_or_empty(self.as_string_maps()) + extra))
        } else {
            (self.mismatch(DataType::StringMap), self)
        }
    }

    /// The items when the list holds `Json` items.
    pub open spec fn as_jsons(self) -> Option<Seq<JsonValue>> {
        match self {
            MultiValuesView::Json(s) => Some(s),
            _ => None,
        }
    }

    /// What appending `extra` to a `Json` list gives: the outcome and the new
    /// list, which is unchanged after a type mismatch.
    pub open spec fn append_jsons(self, extra: Seq<JsonValue>) -> (ValueResult<()>, MultiValuesView) {
        if self.data_type() == DataType::Json {
            (Ok(()), MultiValuesView::Json(items_or_empty(self.as_jsons()) + extra))
        } else {
            (self.mismatch(DataType::Json), self)
        }
    }

}

impl MultiValues {
    /// Returns the data type of the values.
    pub fn data_type(&self) -> (r: DataType)
        ensures
            r == self@.data_type(),
    {
        match self {
            MultiValues::Empty(dt) => *dt,
            MultiValues::Bool(_) => DataType::Bool,
            MultiValues::Char(_) => DataType::Char,
            MultiValues::Int8(_) => DataType::Int8,
            MultiValues::Int16(_) => DataType::Int16,
            MultiValues::Int32(_) => DataType::Int32,
            MultiValues::Int64(_) => DataType::Int64,
            MultiValues::Int128(_) => DataType::Int128,
            MultiValues::UInt8(_) => DataType::UInt8,
            MultiValues::UInt16(_) => DataType::UInt16,
            MultiValues::UInt32(_) => DataType::UInt32,
            MultiValues::UInt64(_) => DataType::UInt64,
            MultiValues::UInt128(_) => DataType::UInt128,
            MultiValues::IntSize(_) => DataType::IntSize,
            MultiValues::UIntSize(_) => DataType::UIntSize,
            MultiValues::Float32(_) => DataType::Float32,
            MultiValues::Float64(_) => DataType::Float64,
            MultiValues::BigInteger(_) => DataType::BigInteger,
            MultiValues::BigDecimal(_) => DataType::BigDecimal,
            MultiValues::String(_) => DataType::String,
            MultiValues::Date(_) => DataType::Date,
            MultiValues::Time(_) => DataType::Time,
            MultiValues::DateTime(_) => DataType::DateTime,
            MultiValues::Instant(_) => DataType::Instant,
            MultiValues::Duration(_) => DataType::Duration,
            MultiValues::Url(_) => DataType::Url,
            MultiValues::StringMap(_) => DataType::StringMap,
            MultiValues::Json(_) => DataType::Json,
        }
    }

    /// Returns the number of values.
    pub fn count(&self) -> (r: usize)
        ensures
            r == self@.count(),
    {
        match self {
            MultiValues::Empty(_) => 0,
            MultiValues::Bool(v) => v.len(),
            MultiValues::Char(v) => v.len(),
            MultiValues::Int8(v) => v.len(),
            MultiValues::Int16(v) => v.len(),
            MultiValues::Int32(v) => v.len(),
            MultiValues::Int64(v) => v.len(),
            MultiValues::Int128(v) => v.len(),
            MultiValues::UInt8(v) => v.len(),
            MultiValues::UInt16(v) => v.len(),
            MultiValues::UInt32(v) => v.len(),
            MultiValues::UInt64(v) => v.len(),
            MultiValues::UInt128(v) => v.len(),
            MultiValues::IntSize(v) => v.len(),
            MultiValues::UIntSize(v) => v.len(),
            MultiValues::Float32(v) => v.len(),
            MultiValues::Float64(v) => v.len(),
            MultiValues::BigInteger(v) => v.len(),
            MultiValues::BigDecimal(v) => v.len(),
            MultiValues::String(v) => v.len(),
            MultiValues::Date(v) => v.len(),
            MultiValues::Time(v) => v.len(),
            MultiValues::DateTime(v) => v.len(),
            MultiValues::Instant(v) => v.len(),
            MultiValues::Duration(v) => v.len(),
            MultiValues::Url(v) => v.len(),
            MultiValues::StringMap(v) => v.len(),
            MultiValues::Json(v) => v.len(),
        }
    }

    /// Returns whether there are no values.
    pub fn is_empty(&self) -> (r: bool)
        ensures
            r == (self@.count() == 0),
    {
        self.count() == 0
    }

    /// Removes all values while keeping the data type.
    pub fn clear(&mut self)
        ensures
            final(self)@ == old(self)@.cleared(),
    {
        match self {
            MultiValues::Empty(_) => {},
            MultiValues::Bool(v) => v.clear(),
            MultiValues::Char(v) => v.clear(),
            MultiValues::Int8(v) => v.clear(),
            MultiValues::Int16(v) => v.clear(),
            MultiValues::Int32(v) => v.clear(),
            MultiValues::Int64(v) => v.clear(),
            MultiValues::Int128(v) => v.clear(),
            MultiValues::UInt8(v) => v.clear(),
            MultiValues::UInt16(v) => v.clear(),
            MultiValues::UInt32(v) => v.clear(),
            MultiValues::UInt64(v) => v.clear(),
            MultiValues::UInt128(v) => v.clear(),
            MultiValues::IntSize(v) => v.clear(),
            MultiValues::UIntSize(v) => v.clear(),
            MultiValues::Float32(v) => v.clear(),
            MultiValues::Float64(v) => v.clear(),
            MultiValues::BigInteger(v) => v.clear(),
            MultiValues::BigDecimal(v) => v.clear(),
            MultiValues::String(v) => {
                v.clear();
                assert(strings_view(v@) =~= Seq::empty());
            },
            MultiValues::Date(v) => v.clear(),
            MultiValues::Time(v) => v.clear(),
            MultiValues::DateTime(v) => v.clear(),
            MultiValues::Instant(v) => v.clear(),
            MultiValues::Duration(v) => v.clear(),
            MultiValues::Url(v) => v.clear(),
            MultiValues::StringMap(v) => {
                v.clear();
                assert(maps_view(v@) =~= Seq::empty());
            },
            MultiValues::Json(v) => v.clear(),
        }
    }

    /// Sets the data type; values of another type are removed.
    pub fn set_type(&mut self, data_type: DataType)
        ensures
            if old(self)@.data_type() == data_type {
                final(self)@ == old(self)@
            } else {
                final(self)@ == MultiValuesView::Empty(data_type)
            },
    {
        if self.data_type() != data_type {
            *self = MultiValues::Empty(data_type);
        }
    }

    /// Returns a copy with the same items.
    pub fn duplicate(&self) -> (r: MultiValues)
        ensures
            r@ == self@,
    {
        match self {
            MultiValues::Empty(dt) => MultiValues::Empty(*dt),
            MultiValues::Bool(v) => MultiValues::Bool(clone_items(v.as_slice())),
            MultiValues::Char(v) => MultiValues::Char(clone_items(v.as_slice())),
            MultiValues::Int8(v) => MultiValues::Int8(clone_items(v.as_slice())),
            MultiValues::Int16(v) => MultiValues::Int16(clone_items(v.as_slice())),
            MultiValues::Int32(v) => MultiValues::Int32(clone_items(v.as_slice())),
            MultiValues::Int64(v) => MultiValues::Int64(clone_items(v.as_slice())),
            MultiValues::Int128(v) => MultiValues::Int128(clone_items(v.as_slice())),
            MultiValues::UInt8(v) => MultiValues::UInt8(clone_items(v.as_slice())),
            MultiValues::UInt16(v) => MultiValues::UInt16(clone_items(v.as_slice())),
            MultiValues::UInt32(v) => MultiValues::UInt32(clone_items(v.as_slice())),
            MultiValues::UInt64(v) => MultiValues::UInt64(clone_items(v.as_slice())),
            MultiValues::UInt128(v) => MultiValues::UInt128(clone_items(v.as_slice())),
            MultiValues::IntSize(v) => MultiValues::IntSize(clone_items(v.as_slice())),
            MultiValues::UIntSize(v) => MultiValues::UIntSize(clone_items(v.as_slice())),
            MultiValues::Float32(v) => MultiValues::Float32(clone_items(v.as_slice())),
            MultiValues::Float64(v) => MultiValues::Float64(clone_items(v.as_slice())),
            MultiValues::BigInteger(v) => MultiValues::BigInteger(clone_items(v.as_slice())),
            MultiValues::BigDecimal(v) => MultiValues::BigDecimal(clone_items(v.as_slice())),
            MultiValues::String(v) => MultiValues::String(clone_items(v.as_slice())),
            MultiValues::Date(v) => MultiValues::Date(clone_items(v.as_slice())),
            MultiValues::Time(v) => MultiValues::Time(clone_items(v.as_slice())),
            MultiValues::DateTime(v) => MultiValues::DateTime(clone_items(v.as_slice())),
            MultiValues::Instant(v) => MultiValues::Instant(clone_items(v.as_slice())),
            MultiValues::Duration(v) => MultiValues::Duration(clone_items(v.as_slice())),
            MultiValues::Url(v) => MultiValues::Url(clone_items(v.as_slice())),
            MultiValues::StringMap(v) => MultiValues::StringMap(clone_maps(v.as_slice())),
            MultiValues::Json(v) => MultiValues::Json(clone_items(v.as_slice())),
        }
    }

    /// Returns the value at `index` as a single value.
    pub fn value_at(&self, index: usize) -> (r: Value)
        requires
            index < self@.count(),
        ensures
            r@ == self@.element(index as int),
    {
        match self {
            MultiValues::Empty(dt) => Value::Empty(*dt),
            MultiValues::Bool(v) => Value::Bool(v[index]),
            MultiValues::Char(v) => Value::Char(v[index]),
            MultiValues::Int8(v) => Value::Int8(v[index]),
            MultiValues::Int16(v) => Value::Int16(v[index]),
            MultiValues::Int32(v) => Value::Int32(v[index]),
            MultiValues::Int64(v) => Value::Int64(v[index]),
            MultiValues::Int128(v) => Value::Int128(v[index]),
            MultiValues::UInt8(v) => Value::UInt8(v[index]),
            MultiValues::UInt16(v) => Value::UInt16(v[index]),
            MultiValues::UInt32(v) => Value::UInt32(v[index]),
            MultiValues::UInt64(v) => Value::UInt64(v[index]),
            MultiValues::UInt128(v) => Value::UInt128(v[index]),
            MultiValues::IntSize(v) => Value::IntSize(v[index]),
            MultiValues::UIntSize(v) => Value::UIntSize(v[index]),
            MultiValues::Float32(v) => Value::Float32(v[index]),
            MultiValues::Float64(v) => Value::Float64(v[index]),
            MultiValues::BigInteger(v) => Value::BigInteger(v[index].exact_clone()),
            MultiValues::BigDecimal(v) => Value::BigDecimal(v[index].exact_clone()),
            MultiValues::String(v) => Value::String(v[index].exact_clone()),
            MultiValues::Date(v) => Value::Date(v[index]),
            MultiValues::Time(v) => Value::Time(v[index]),
            MultiValues::DateTime(v) => Value::DateTime(v[index]),
            MultiValues::Instant(v) => Value::Instant(v[index]),
            MultiValues::Duration(v) => Value::Duration(v[index]),
            MultiValues::Url(v) => Value::Url(v[index].exact_clone()),
            MultiValues::StringMap(v) => Value::StringMap(v[index].clone()),
            MultiValues::Json(v) => Value::Json(v[index].exact_clone()),
        }
    }

    /// Converts to a single value: the first value, or an empty value of the
    /// same type when there is none.
    pub fn to_value(&self) -> (r: Value)
        ensures
            r@ == self@.first_value(),
    {
        if self.count() > 0 {
            self.value_at(0)
        } else {
            Value::Empty(self.data_type())
        }
    }

    /// Makes the list that holds a single value, or an empty list of its type.
    pub fn from_value(value: Value) -> (r: MultiValues)
        ensures
            r@ == MultiValuesView::of_value(value@),
    {
        match value {
            Value::Empty(dt) => MultiValues::Empty(dt),
            Value::Bool(x) => {
                let v = vec![x];
                proof {
                    assert(v@ =~= seq![x]);
                }
                MultiValues::Bool(v)
            },
            Value::Char(x) => {
                let v = vec![x];
                proof {
                    assert(v@ =~= seq![x]);
                }
                MultiValues::Char(v)
            },
            Value::Int8(x) => {
                let v = vec![x];
                proof {
                    assert(v@ =~= seq![x]);
                }
                MultiValues::Int8(v)
            },
            Value::Int16(x) => {
                let v = vec![x];
                proof {
                    assert(v@ =~= seq![x]);
                }
                MultiValues::Int16(v)
            },
            Value::Int32(x) => {
                let v = vec![x];
                proof {
                    assert(v@ =~= seq![x]);
                }
                MultiValues::Int32(v)
            },
            Value::Int64(x) => {
                let v = vec![x];
                proof {
                    assert(v@ =~= seq![x]);
                }
                MultiValues::Int64(v)
            },
            Value::Int128(x) => {
                let v = vec![x];
                proof {
                    assert(v@ =~= seq![x]);
                }
                MultiValues::Int128(v)
            },
            Value::UInt8(x) => {
                let v = vec![x];
                proof {
                    assert(v@ =~= seq![x]);
                }
                MultiValues::UInt8(v)
            },
            Value::UInt16(x) => {
                let v = vec![x];
                proof {
                    assert(v@ =~= seq![x]);
                }
                MultiValues::UInt16(v)
            },
            Value::UInt32(x) => {
                let v = vec![x];
                proof {
                    assert(v@ =~= seq![x]);
                }
                MultiValues::UInt32(v)
            },
            Value::UInt64(x) => {
                let v = vec![x];
                proof {
                    assert(v@ =~= seq![x]);
                }
                MultiValues::UInt64(v)
            },
            Value::UInt128(x) => {
                let v = vec![x];
                proof {
                    assert(v@ =~= seq![x]);
                }
                MultiValues::UInt128(v)
            },
            Value::IntSize(x) => {
                let v = vec![x];
                proof {
                    assert(v@ =~= seq![x]);
                }
                MultiValues::IntSize(v)
            },
            Value::UIntSize(x) => {
                let v = vec![x];
                proof {
                    assert(v@ =~= seq![x]);
                }
                MultiValues::UIntSize(v)
            },
            Value::Float32(x) => {
                let v = vec![x];
                proof {
                    assert(v@ =~= seq![x]);
                }
                MultiValues::Float32(v)
            },
            Value::Float64(x) => {
                let v = vec![x];
                proof {
                    assert(v@ =~= seq![x]);
                }
                MultiValues::Float64(v)
            },
            Value::BigInteger(x) => {
                let v = vec![x];
                proof {
                    assert(v@ =~= seq![x]);
                }
                MultiValues::BigInteger(v)
            },
            Value::BigDecimal(x) => {
                let v = vec![x];
                proof {
                    assert(v@ =~= seq![x]);
                }
                MultiValues::BigDecimal(v)
            },
            Value::String(x) => {
                let v = vec![x];
                proof {
                    assert(v@ =~= seq![x]);
                    assert(strings_view(v@) =~= seq![x@]);
                }
                MultiValues::String(v)
            },
            Value::Date(x) => {
                let v = vec![x];
                proof {
                    assert(v@ =~= seq![x]);
                }
                MultiValues::Date(v)
            },
            Value::Time(x) => {
                let v = vec![x];
                proof {
                    assert(v@ =~= seq![x]);
                }
                MultiValues::Time(v)
            },
            Value::DateTime(x) => {
                let v = vec![x];
                proof {
                    assert(v@ =~= seq![x]);
                }
                MultiValues::DateTime(v)
            },
            Value::Instant(x) => {
                let v = vec![x];
                proof {
                    assert(v@ =~= seq![x]);
                }
                MultiValues::Instant(v)
            },
            Value::Duration(x) => {
                let v = vec![x];
                proof {
                    assert(v@ =~= seq![x]);
                }
                MultiValues::Duration(v)
            },
            Value::Url(x) => {
                let v = vec![x];
                proof {
                    assert(v@ =~= seq![x]);
                }
                MultiValues::Url(v)
            },
            Value::StringMap(x) => {
                let v = vec![x];
                proof {
                    assert(v@ =~= seq![x]);
                    assert(maps_view(v@) =~= seq![x@]);
                }
                MultiValues::StringMap(v)
            },
            Value::Json(x) => {
                let v = vec![x];
                proof {
                    assert(v@ =~= seq![x]);
                }
                MultiValues::Json(v)
            },
        }
    }

    /// Appends the values of `other`, which must have the same data type.
    /// An empty list takes the values of `other`.
    pub fn merge(&mut self, other: &MultiValues) -> (r: ValueResult<()>)
        ensures
            (r, final(self)@) == old(self)@.merged(other@),
    {
        if self.data_type() != other.data_type() {
            return Err(ValueError::TypeMismatch { expected: self.data_type(), actual: other.data_type() });
        }
        if other.count() == 0 {
            return Ok(());
        }
        match other {
            MultiValues::Empty(_) => {},
            MultiValues::Bool(o) => match self {
                MultiValues::Bool(v) => append_items(v, o.as_slice()),
                _ => {
                    *self = other.duplicate();
                },
            },
            MultiValues::Char(o) => match self {
                MultiValues::Char(v) => append_items(v, o.as_slice()),
                _ => {
                    *self = other.duplicate();
                },
            },
            MultiValues::Int8(o) => match self {
                MultiValues::Int8(v) => append_items(v, o.as_slice()),
                _ => {
                    *self = other.duplicate();
                },
            },
            MultiValues::Int16(o) => match self {
                MultiValues::Int16(v) => append_items(v, o.as_slice()),
                _ => {
                    *self = other.duplicate();
                },
            },
            MultiValues::Int32(o) => match self {
                MultiValues::Int32(v) => append_items(v, o.as_slice()),
                _ => {
                    *self = other.duplicate();
                },
            },
            MultiValues::Int64(o) => match self {
                MultiValues::Int64(v) => append_items(v, o.as_slice()),
                _ => {
                    *self = other.duplicate();
                },
            },
            MultiValues::Int128(o) => match self {
                MultiValues::Int128(v) => append_items(v, o.as_slice()),
                _ => {
                    *self = other.duplicate();
                },
            },
            MultiValues::UInt8(o) => match self {
                MultiValues::UInt8(v) => append_items(v, o.as_slice()),
                _ => {
                    *self = other.duplicate();
                },
            },
            MultiValues::UInt16(o) => match self {
                MultiValues::UInt16(v) => append_items(v, o.as_slice()),
                _ => {
                    *self = other.duplicate();
                },
            },
            MultiValues::UInt32(o) => match self {
                MultiValues::UInt32(v) => append_items(v, o.as_slice()),
                _ => {
                    *self = other.duplicate();
                },
            },
            MultiValues::UInt64(o) => match self {
                MultiValues::UInt64(v) => append_items(v, o.as_slice()),
                _ => {
                    *self = other.duplicate();
                },
            },
            MultiValues::UInt128(o) => match self {
                MultiValues::UInt128(v) => append_items(v, o.as_slice()),
                _ => {
                    *self = other.duplicate();
                },
            },
            MultiValues::IntSize(o) => match self {
                MultiValues::IntSize(v) => append_items(v, o.as_slice()),
                _ => {
                    *self = other.duplicate();
                },
            },
            MultiValues::UIntSize(o) => match self {
                MultiValues::UIntSize(v) => append_items(v, o.as_slice()),
                _ => {
                    *self = other.duplicate();
                },
            },
            MultiValues::Float32(o) => match self {
                MultiValues::Float32(v) => append_items(v, o.as_slice()),
                _ => {
                    *self = other.duplicate();
                },
            },
            MultiValues::Float64(o) => match self {
                MultiValues::Float64(v) => append_items(v, o.as_slice()),
                _ => {
                    *self = other.duplicate();
                },
            },
            MultiValues::BigInteger(o) => match self {
                MultiValues::BigInteger(v) => append_items(v, o.as_slice()),
                _ => {
                    *self = other.duplicate();
                },
            },
            MultiValues::BigDecimal(o) => match self {
                MultiValues::BigDecimal(v) => append_items(v, o.as_slice()),
                _ => {
                    *self = other.duplicate();
                },
            },
            MultiValues::String(o) => match self {
                MultiValues::String(v) => {
                    let ghost before = v@;
                    append_items(v, o.as_slice());
                    proof {
                        lemma_strings_view_add(before, o@);
                    }
                },
                _ => {
                    *self = other.duplicate();
                },
            },
            MultiValues::Date(o) => match self {
                MultiValues::Date(v) => append_items(v, o.as_slice()),
                _ => {
                    *self = other.duplicate();
                },
            },
            MultiValues::Time(o) => match self {
                MultiValues::Time(v) => append_items(v, o.as_slice()),
                _ => {
                    *self = other.duplicate();
                },
            },
            MultiValues::DateTime(o) => match self {
                MultiValues::DateTime(v) => append_items(v, o.as_slice()),
                _ => {
                    *self = other.duplicate();
                },
            },
            MultiValues::Instant(o) => match self {
                MultiValues::Instant(v) => append_items(v, o.as_slice()),
                _ => {
                    *self = other.duplicate();
                },
            },
            MultiValues::Duration(o) => match self {
                MultiValues::Duration(v) => append_items(v, o.as_slice()),
                _ => {
                    *self = other.duplicate();
                },
            },
            MultiValues::Url(o) => match self {
                MultiValues::Url(v) => append_items(v, o.as_slice()),
                _ => {
                    *self = other.duplicate();
                },
            },
            MultiValues::StringMap(o) => match self {
                MultiValues::StringMap(v) => {
                    let ghost before = v@;
                    append_maps(v, o.as_slice());
                    proof {
                        lemma_maps_view_add(before, o@);
                    }
                },
                _ => {
                    *self = other.duplicate();
                },
            },
            MultiValues::Json(o) => match self {
                MultiValues::Json(v) => append_items(v, o.as_slice()),
                _ => {
                    *self = other.duplicate();
                },
            },
        }
        Ok(())
    }
}

/// The error for the item at `index` of a list that failed to convert with
/// `source`: a conversion error whose message gives the index and the
/// message of `source`.
pub fn item_conversion_error(index: usize, source: &ValueError) -> (r: ValueError)
    ensures
        r@ == ValueErrorView::ConversionError(item_error_message(index as int, *source)),
{
    proof {
        reveal_strlit("Cannot convert value at index ");
        reveal_strlit(": ");
    }
    let mut m = String::from_str("Cannot convert value at index ");
    let index_text = format_u128(index as u128);
    m.append(index_text.as_str());
    m.append(": ");
    let source_text = source.message();
    m.append(source_text.as_str());
    ValueError::ConversionError(m)
}

/// The kind of a failed conversion by the shared conversion engine that
/// converts list items to any target type.
#[derive(Debug, Clone, Copy, PartialEq, Eq)]
pub enum ConversionFailureKind {
    /// The source had no value.
    Missing,
    /// The first value of an empty collection was asked for.
    EmptyCollection,
    /// The engine has no conversion between the two types.
    Unsupported,
    /// The conversion exists, but the source value is not valid for it.
    InvalidValue,
    /// A configured resource limit was exceeded.
    LimitExceeded,
    /// A measurement did not fit the configured resource quantity.
    Quantity,
}

/// A failed conversion by the shared conversion engine, as the library reads
/// it: its kind, the source type where the engine knows one, the target type
/// and the engine's description of the failure.
pub struct ConversionFailure {
    /// What went wrong.
    pub kind: ConversionFailureKind,
    /// The source data type, where known.
    pub from: Option<DataType>,
    /// The target data type.
    pub to: DataType,
    /// The engine's description of the failure.
    pub message: String,
}

/// The library error for a failed engine conversion: no value for a missing
/// source or an empty collection, a failed conversion between the two types
/// for an unsupported pair with a known source type, and otherwise a
/// conversion error with the engine's description.
pub open spec fn failure_error(f: ConversionFailure) -> ValueError {
    match f.kind {
        ConversionFailureKind::Missing => ValueError::NoValue,
        ConversionFailureKind::EmptyCollection => ValueError::NoValue,
        ConversionFailureKind::Unsupported => match f.from {
            Some(from) => ValueError::ConversionFailed { from, to: f.to },
            None => ValueError::ConversionError(f.message),
        },
        _ => ValueError::ConversionError(f.message),
    }
}

/// Maps a failed engine conversion to the library's error.
pub fn conversion_failure_error(f: ConversionFailure) -> (r: ValueError)
    ensures
        r == failure_error(f),
{
    match f.kind {
        ConversionFailureKind::Missing => ValueError::NoValue,
        ConversionFailureKind::EmptyCollection => ValueError::NoValue,
        ConversionFailureKind::Unsupported => match f.from {
            Some(from) => ValueError::ConversionFailed { from, to: f.to },
            None => ValueError::ConversionError(f.message),
        },
        _ => ValueError::ConversionError(f.message),
    }
}

/// The outcome of converting the first value of `values` with the shared
/// engine, whose result is `outcome` (`None` where the engine was not asked).
/// A list with no value gives `NoValue`; otherwise the engine's value, or its
/// failure mapped by `failure_error`.
pub fn first_conversion_result<T>(
    values: &MultiValues,
    outcome: Option<Result<T, ConversionFailure>>,
) -> (r: ValueResult<T>)
    requires
        !(values@ is Empty) ==> outcome is Some,
    ensures
        values@ is Empty ==> r == Err::<T, ValueError>(ValueError::NoValue),
        !(values@ is Empty) ==> match outcome {
            Some(Ok(x)) => r == Ok::<T, ValueError>(x),
            Some(Err(f)) => r == Err::<T, ValueError>(failure_error(f)),
            None => false,
        },
{
    if let MultiValues::Empty(_) = values {
        return Err(ValueError::NoValue);
    }
    match outcome {
        Some(Ok(x)) => Ok(x),
        Some(Err(f)) => Err(conversion_failure_error(f)),
        None => Err(ValueError::NoValue),
    }
}

/// The outcome of converting every value of `values` with the shared
/// engine, whose result is `outcome` (`None` where the engine was not asked;
/// on failure, the index of the item that failed and the failure). A list
/// with no value gives no items; otherwise the engine's items, or the error
/// for the failed item built by `item_conversion_error`.
pub fn list_conversion_result<T>(
    values: &MultiValues,
    outcome: Option<Result<Vec<T>, (usize, ConversionFailure)>>,
) -> (r: ValueResult<Vec<T>>)
    requires
        !(values@ is Empty) ==> outcome is Some,
    ensures
        values@ is Empty ==> (r matches Ok(v) && v@.len() == 0),
        !(values@ is Empty) ==> match outcome {
            Some(Ok(v)) => r == Ok::<Vec<T>, ValueError>(v),
            Some(Err((index, f))) => r matches Err(e) && e@ == ValueErrorView::ConversionError(
                item_error_message(index as int, failure_error(f)),
            ),
            None => false,
        },
{
    if let MultiValues::Empty(_) = values {
        return Ok(Vec::new());
    }
    match outcome {
        Some(Ok(v)) => Ok(v),
        Some(Err((index, f))) => {
            let source = conversion_failure_error(f);
            Err(item_conversion_error(index, &source))
        },
        None => Ok(Vec::new()),
    }
}

impl From<Value> for MultiValues {
    /// The list that holds the single value, or an empty list of its type.
    fn from(value: Value) -> (r: Self)
        ensures
            r@ == MultiValuesView::of_value(value@),
    {
        MultiValues::from_value(value)
    }
}

impl vstd::std_specs::convert::FromSpecImpl<Value> for MultiValues {
    /// Lists are compared by their views, which `from` states; no single
    /// list is singled out here.
    open spec fn obeys_from_spec() -> bool {
        false
    }

    open spec fn from_spec(v: Value) -> MultiValues {
        choose|m: MultiValues| m@ == MultiValuesView::of_value(v@)
    }
}

impl Default for MultiValues {
    fn default() -> (r: Self)
        ensures
            r@ == MultiValuesView::Empty(DataType::String),
    {
        MultiValues::Empty(DataType::String)
    }
}

} // verus!
