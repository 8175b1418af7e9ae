//! The closed vocabulary of runtime data types a value can carry.
use vstd::prelude::*;

verus! {

/// Runtime data type tag of a [`crate::Value`] or [`crate::MultiValues`].
#[derive(Debug, Clone, Copy, PartialEq, Eq, Structural, Hash)]
pub enum DataType {
    Bool,
    Char,
    Int8,
    Int16,
    Int32,
    Int64,
    Int128,
    UInt8,
    UInt16,
    UInt32,
    UInt64,
    UInt128,
    IntSize,
    UIntSize,
    Float32,
    Float64,
    BigInteger,
    BigDecimal,
    String,
    Date,
    Time,
    DateTime,
    Instant,
    Duration,
    Url,
    StringMap,
    Json,
}

impl DataType {
    /// The lower-case name of the data type, as shown in messages.
    pub open spec fn name_spec(self) -> Seq<char> {
        match self {
            DataType::Bool => "bool"@,
            DataType::Char => "char"@,
            DataType::Int8 => "int8"@,
            DataType::Int16 => "int16"@,
            DataType::Int32 => "int32"@,
            DataType::Int64 => "int64"@,
            DataType::Int128 => "int128"@,
            DataType::UInt8 => "uint8"@,
            DataType::UInt16 => "uint16"@,
            DataType::UInt32 => "uint32"@,
            DataType::UInt64 => "uint64"@,
            DataType::UInt128 => "uint128"@,
            DataType::IntSize => "intsize"@,
            DataType::UIntSize => "uintsize"@,
            DataType::Float32 => "float32"@,
            DataType::Float64 => "float64"@,
            DataType::BigInteger => "biginteger"@,
            DataType::BigDecimal => "bigdecimal"@,
            DataType::String => "string"@,
            DataType::Date => "date"@,
            DataType::Time => "time"@,
            DataType::DateTime => "datetime"@,
            DataType::Instant => "instant"@,
            DataType::Duration => "duration"@,
            DataType::Url => "url"@,
            DataType::StringMap => "stringmap"@,
            DataType::Json => "json"@,
        }
    }

    /// Returns the lower-case name of the data type, as shown in messages.
    pub fn name(&self) -> (r: &'static str)
        ensures
            r@ == self.name_spec(),
    {
        proof {
            reveal_strlit("bool");
            reveal_strlit("char");
            reveal_strlit("int8");
            reveal_strlit("int16");
            reveal_strlit("int32");
            reveal_strlit("int64");
            reveal_strlit("int128");
            reveal_strlit("uint8");
            reveal_strlit("uint16");
            reveal_strlit("uint32");
            reveal_strlit("uint64");
            reveal_strlit("uint128");
            reveal_strlit("intsize");
            reveal_strlit("uintsize");
            reveal_strlit("float32");
            reveal_strlit("float64");
            reveal_strlit("biginteger");
            reveal_strlit("bigdecimal");
            reveal_strlit("string");
            reveal_strlit("date");
            reveal_strlit("time");
            reveal_strlit("datetime");
            reveal_strlit("instant");
            reveal_strlit("duration");
            reveal_strlit("url");
            reveal_strlit("stringmap");
            reveal_strlit("json");
        }
        match self {
            DataType::Bool => "bool",
            DataType::Char => "char",
            DataType::Int8 => "int8",
            DataType::Int16 => "int16",
            DataType::Int32 => "int32",
            DataType::Int64 => "int64",
            DataType::Int128 => "int128",
            DataType::UInt8 => "uint8",
            DataType::UInt16 => "uint16",
            DataType::UInt32 => "uint32",
            DataType::UInt64 => "uint64",
            DataType::UInt128 => "uint128",
            DataType::IntSize => "intsize",
            DataType::UIntSize => "uintsize",
            DataType::Float32 => "float32",
            DataType::Float64 => "float64",
            DataType::BigInteger => "biginteger",
            DataType::BigDecimal => "bigdecimal",
            DataType::String => "string",
            DataType::Date => "date",
            DataType::Time => "time",
            DataType::DateTime => "datetime",
            DataType::Instant => "instant",
            DataType::Duration => "duration",
            DataType::Url => "url",
            DataType::StringMap => "stringmap",
            DataType::Json => "json",
        }
    }

    /// Returns whether two data types are the same.
    pub fn same_as(&self, other: &DataType) -> (r: bool)
        ensures
            r == (*self == *other),
    {
        *self == *other
    }
}

} // verus!
