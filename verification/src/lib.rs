//! Type-safe containers for dynamically typed values: single values, lists
//! of values of one type, and named variants of both, with strictly typed
//! access and rule-based conversion between types.
use vstd::prelude::*;

pub mod data_type;
pub mod error;
pub mod float_bits;
pub mod instant;
pub mod items;
pub mod laws;
pub mod multi_values;
pub mod multi_values_accessors;
pub mod multi_values_traits;
pub mod named;
pub mod outside;
pub mod sealed;
pub mod text;
pub mod value;
pub mod value_accessors;
pub mod value_convert;
pub mod value_traits;

pub use data_type::DataType;
pub use error::{ValueError, ValueResult};
pub use instant::UtcInstant;
pub use items::collect_strings;
pub use multi_values::{
    conversion_failure_error, first_conversion_result, item_conversion_error, list_conversion_result,
    ConversionFailure, ConversionFailureKind, MultiValues, MultiValuesView,
};
pub use multi_values_traits::{
    MultiValuesAddArg, MultiValuesAdder, MultiValuesConstructor, MultiValuesConstructorArg,
    MultiValuesFirstGetter, MultiValuesGetter, MultiValuesMultiAdder, MultiValuesSetArg,
    MultiValuesSetter, MultiValuesSetterSlice, MultiValuesSingleSetter,
};
pub use named::{NamedMultiValues, NamedValue};
pub use value::{Value, ValueView};
pub use value_traits::{ValueConstructor, ValueConverter, ValueGetter, ValueSetter};

verus! {

} // verus!
