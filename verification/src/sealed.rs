//! Marker traits that keep the dispatch traits of the value containers
//! closed to this crate's own implementations.
use vstd::prelude::*;

verus! {

/// Seals `ValueConstructor`.
pub trait ValueConstructorSealed<T> {}

/// Seals `ValueConverter`.
pub trait ValueConverterSealed<T> {}

/// Seals `ValueGetter`.
pub trait ValueGetterSealed<T> {}

/// Seals `ValueSetter`.
pub trait ValueSetterSealed<T> {}

/// Seals `MultiValuesAddArg`.
pub trait MultiValuesAddArgSealed {}

/// Seals `MultiValuesAdder`.
pub trait MultiValuesAdderSealed<T> {}

/// Seals `MultiValuesConstructorArg`.
pub trait MultiValuesConstructorArgSealed {}

/// Seals `MultiValuesConstructor`.
pub trait MultiValuesConstructorSealed<T> {}

/// Seals `MultiValuesFirstGetter`.
pub trait MultiValuesFirstGetterSealed<T> {}

/// Seals `MultiValuesGetter`.
pub trait MultiValuesGetterSealed<T> {}

/// Seals `MultiValuesMultiAdder`.
pub trait MultiValuesMultiAdderSealed<T> {}

/// Seals `MultiValuesSetArg`.
pub trait MultiValuesSetArgSealed {}

/// Seals `MultiValuesSetter`.
pub trait MultiValuesSetterSealed<T> {}

/// Seals `MultiValuesSetterSlice`.
pub trait MultiValuesSetterSliceSealed<T> {}

/// Seals `MultiValuesSingleSetter`.
pub trait MultiValuesSingleSetterSealed<T> {}

} // verus!
