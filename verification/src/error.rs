//! Errors of value operations.
use vstd::prelude::*;

use crate::data_type::DataType;
use crate::text::{decimal_text, format_u128};

verus! {

/// Value processing error type.
#[derive(Debug, Clone, PartialEq)]
pub enum ValueError {
    /// The value is empty.
    NoValue,
    /// The stored type is not the requested one.
    TypeMismatch {
        /// Expected data type
        expected: DataType,
        /// Actual data type
        actual: DataType,
    },
    /// No conversion exists between the two types.
    ConversionFailed {
        /// Source data type
        from: DataType,
        /// Target data type
        to: DataType,
    },
    /// A conversion was attempted and failed, with a description.
    ConversionError(String),
    /// An index lies outside a collection.
    IndexOutOfBounds {
        /// Accessed index
        index: usize,
        /// Actual length
        len: usize,
    },
    /// Writing JSON failed.
    JsonSerializationError(String),
    /// Reading JSON failed.
    JsonDeserializationError(String),
}

/// Value processing result type.
pub type ValueResult<T> = Result<T, ValueError>;

/// The mathematical content of a [`ValueError`]: messages by their characters.
pub enum ValueErrorView {
    NoValue,
    TypeMismatch { expected: DataType, actual: DataType },
    ConversionFailed { from: DataType, to: DataType },
    ConversionError(Seq<char>),
    IndexOutOfBounds { index: usize, len: usize },
    JsonSerializationError(Seq<char>),
    JsonDeserializationError(Seq<char>),
}

impl View for ValueError {
    type V = ValueErrorView;

    open spec fn view(&self) -> ValueErrorView {
        match self {
            ValueError::NoValue => ValueErrorView::NoValue,
            ValueError::TypeMismatch { expected, actual } => ValueErrorView::TypeMismatch {
                expected: *expected,
                actual: *actual,
            },
            ValueError::ConversionFailed { from, to } => ValueErrorView::ConversionFailed {
                from: *from,
                to: *to,
            },
            ValueError::ConversionError(m) => ValueErrorView::ConversionError(m@),
            ValueError::IndexOutOfBounds { index, len } => ValueErrorView::IndexOutOfBounds {
                index: *index,
                len: *len,
            },
            ValueError::JsonSerializationError(m) => ValueErrorView::JsonSerializationError(m@),
            ValueError::JsonDeserializationError(m) => ValueErrorView::JsonDeserializationError(m@),
        }
    }
}

/// A result with its error taken by its view.
pub open spec fn err_view<A>(r: ValueResult<A>) -> Result<A, ValueErrorView> {
    match r {
        Ok(x) => Ok(x),
        Err(e) => Err(e@),
    }
}

/// A result with both its success value and its error taken by their views.
pub open spec fn result_view<A: View>(r: ValueResult<A>) -> Result<A::V, ValueErrorView> {
    match r {
        Ok(x) => Ok(x@),
        Err(e) => Err(e@),
    }
}

impl ValueError {
    /// The human-readable description of the error.
    pub open spec fn message_spec(&self) -> Seq<char> {
        match self {
            ValueError::NoValue => "No value"@,
            ValueError::TypeMismatch { expected, actual } => "Type mismatch: expected "@
                + expected.name_spec() + ", actual "@ + actual.name_spec(),
            ValueError::ConversionFailed { from, to } => "Type conversion failed: from "@
                + from.name_spec() + " to "@ + to.name_spec(),
            ValueError::ConversionError(m) => "Conversion error: "@ + m@,
            ValueError::IndexOutOfBounds { index, len } => "Index out of bounds: index "@
                + decimal_text(*index as nat) + ", length "@ + decimal_text(*len as nat),
            ValueError::JsonSerializationError(m) => "JSON serialization error: "@ + m@,
            ValueError::JsonDeserializationError(m) => "JSON deserialization error: "@ + m@,
        }
    }

    /// Returns the human-readable description of the error.
    pub fn message(&self) -> (r: String)
        ensures
            r@ == self.message_spec(),
    {
        match self {
            ValueError::NoValue => {
                proof {
                    reveal_strlit("No value");
                }
                String::from_str("No value")
            },
            ValueError::TypeMismatch { expected, actual } => {
                proof {
                    reveal_strlit("Type mismatch: expected ");
                    reveal_strlit(", actual ");
                }
                let mut s = String::from_str("Type mismatch: expected ");
                s.append(expected.name());
                s.append(", actual ");
                s.append(actual.name());
                s
            },
            ValueError::ConversionFailed { from, to } => {
                proof {
                    reveal_strlit("Type conversion failed: from ");
                    reveal_strlit(" to ");
                }
                let mut s = String::from_str("Type conversion failed: from ");
                s.append(from.name());
                s.append(" to ");
                s.append(to.name());
                s
            },
            ValueError::ConversionError(m) => {
                proof {
                    reveal_strlit("Conversion error: ");
                }
                let mut s = String::from_str("Conversion error: ");
                s.append(m.as_str());
                s
            },
            ValueError::IndexOutOfBounds { index, len } => {
                proof {
                    reveal_strlit("Index out of bounds: index ");
                    reveal_strlit(", length ");
                }
                let mut s = String::from_str("Index out of bounds: index ");
                let i = format_u128(*index as u128);
                s.append(i.as_str());
                s.append(", length ");
                let l = format_u128(*len as u128);
                s.append(l.as_str());
                s
            },
            ValueError::JsonSerializationError(m) => {
                proof {
                    reveal_strlit("JSON serialization error: ");
                }
                let mut s = String::from_str("JSON serialization error: ");
                s.append(m.as_str());
                s
            },
            ValueError::JsonDeserializationError(m) => {
                proof {
                    reveal_strlit("JSON deserialization error: ");
                }
                let mut s = String::from_str("JSON deserialization error: ");
                s.append(m.as_str());
                s
            },
        }
    }
}

} // verus!
