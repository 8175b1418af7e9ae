//! The dispatch traits behind `MultiValues::new`, `get`, `get_first`, `set`
//! and `add`, and their implementations for every supported item type.
use vstd::prelude::*;

use bigdecimal::BigDecimal;
use chrono::{NaiveDate, NaiveDateTime, NaiveTime};
use num_bigint::BigInt;
use serde_json::Value as JsonValue;
use std::collections::HashMap;
use std::time::Duration;
use url::Url;

use crate::data_type::DataType;
use crate::error::{ValueError, ValueResult};
use crate::instant::UtcInstant;
use crate::items::{clone_items, clone_maps, collect_strings, maps_view, strings_view};
use crate::multi_values::{MultiValues, MultiValuesView};
use crate::sealed::{
    MultiValuesAddArgSealed, MultiValuesAdderSealed, MultiValuesConstructorArgSealed,
    MultiValuesConstructorSealed, MultiValuesFirstGetterSealed, MultiValuesGetterSealed,
    MultiValuesMultiAdderSealed, MultiValuesSetArgSealed, MultiValuesSetterSealed,
    MultiValuesSetterSliceSealed, MultiValuesSingleSetterSealed,
};
use crate::value::ok_view;
use vstd::array::array_as_slice;

verus! {

/// Gets all items as `T`, with strict type matching.
pub trait MultiValuesGetter<T>: MultiValuesGetterSealed<T> + Sized {
    /// What `get_values` returns.
    spec fn get_values_ensures(&self, r: ValueResult<Vec<T>>) -> bool;

    /// Returns copies of all items.
    fn get_values(&self) -> (r: ValueResult<Vec<T>>)
        ensures
            self.get_values_ensures(r),
    ;
}

/// Gets the first item as `T`, with strict type matching.
pub trait MultiValuesFirstGetter<T>: MultiValuesFirstGetterSealed<T> + Sized {
    /// What `get_first_value` returns.
    spec fn get_first_value_ensures(&self, r: ValueResult<T>) -> bool;

    /// Returns a copy of the first item.
    fn get_first_value(&self) -> (r: ValueResult<T>)
        ensures
            self.get_first_value_ensures(r),
    ;
}

/// Replaces the whole list with items of type `T`.
pub trait MultiValuesSetter<T>: MultiValuesSetterSealed<T> + Sized {
    /// How `set_values` changes the list and what it returns.
    spec fn set_values_ensures(before: Self, after: Self, values: Vec<T>, r: ValueResult<()>) -> bool;

    /// Replaces the list with `values`.
    fn set_values(&mut self, values: Vec<T>) -> (r: ValueResult<()>)
        ensures
            Self::set_values_ensures(*old(self), *final(self), values, r),
    ;
}

/// Replaces the whole list with copies of a slice of `T`.
pub trait MultiValuesSetterSlice<T>: MultiValuesSetterSliceSealed<T> + Sized {
    /// How `set_values_slice` changes the list and what it returns.
    spec fn set_values_slice_ensures(before: Self, after: Self, values: Seq<T>, r: ValueResult<()>) -> bool;

    /// Replaces the list with copies of `values`.
    fn set_values_slice(&mut self, values: &[T]) -> (r: ValueResult<()>)
        ensures
            Self::set_values_slice_ensures(*old(self), *final(self), values@, r),
    ;
}

/// Replaces the whole list with one item of type `T`.
pub trait MultiValuesSingleSetter<T>: MultiValuesSingleSetterSealed<T> + Sized {
    /// How `set_single_value` changes the list and what it returns.
    spec fn set_single_value_ensures(before: Self, after: Self, value: T, r: ValueResult<()>) -> bool;

    /// Replaces the list with the single item `value`.
    fn set_single_value(&mut self, value: T) -> (r: ValueResult<()>)
        ensures
            Self::set_single_value_ensures(*old(self), *final(self), value, r),
    ;
}

/// Appends one item of type `T`, with strict type matching.
pub trait MultiValuesAdder<T>: MultiValuesAdderSealed<T> + Sized {
    /// How `add_value` changes the list and what it returns.
    spec fn add_value_ensures(before: Self, after: Self, value: T, r: ValueResult<()>) -> bool;

    /// Appends `value`.
    fn add_value(&mut self, value: T) -> (r: ValueResult<()>)
        ensures
            Self::add_value_ensures(*old(self), *final(self), value, r),
    ;
}

/// Appends several items of type `T`, with strict type matching.
pub trait MultiValuesMultiAdder<T>: MultiValuesMultiAdderSealed<T> + Sized {
    /// How `add_values` changes the list and what it returns.
    spec fn add_values_ensures(before: Self, after: Self, values: Vec<T>, r: ValueResult<()>) -> bool;

    /// Appends `values` in order.
    fn add_values(&mut self, values: Vec<T>) -> (r: ValueResult<()>)
        ensures
            Self::add_values_ensures(*old(self), *final(self), values, r),
    ;
}

/// Builds a list from a vector of `T`.
pub trait MultiValuesConstructor<T>: MultiValuesConstructorSealed<T> + Sized {
    /// What `from_vec` builds.
    spec fn from_vec_ensures(values: Vec<T>, r: Self) -> bool;

    /// Wraps `values`.
    fn from_vec(values: Vec<T>) -> (r: Self)
        ensures
            Self::from_vec_ensures(values, r),
    ;
}

/// An argument of `MultiValues::set`: one item, a vector or a slice.
pub trait MultiValuesSetArg<'a>: MultiValuesSetArgSealed + Sized {
    /// The item type.
    type Item;

    /// How `apply` changes the list and what it returns.
    spec fn apply_ensures(self, before: MultiValues, after: MultiValues, r: ValueResult<()>) -> bool;

    /// Replaces the whole list of `target` with the argument.
    fn apply(self, target: &mut MultiValues) -> (r: ValueResult<()>)
        ensures
            self.apply_ensures(*old(target), *final(target), r),
    ;
}

/// An argument of `MultiValues::add`: one item, a vector or a slice.
pub trait MultiValuesAddArg<'a>: MultiValuesAddArgSealed + Sized {
    /// The item type.
    type Item;

    /// How `apply_add` changes the list and what it returns.
    spec fn apply_add_ensures(self, before: MultiValues, after: MultiValues, r: ValueResult<()>) -> bool;

    /// Appends the argument to `target`, with strict type matching.
    fn apply_add(self, target: &mut MultiValues) -> (r: ValueResult<()>)
        ensures
            self.apply_add_ensures(*old(target), *final(target), r),
    ;
}

/// A source of a new list: a vector or a slice.
pub trait MultiValuesConstructorArg<'a>: MultiValuesConstructorArgSealed + Sized {
    /// What `into_multi_values` builds.
    spec fn into_multi_values_ensures(self, r: MultiValues) -> bool;

    /// Builds the list that holds the items.
    fn into_multi_values(self) -> (r: MultiValues)
        ensures
            self.into_multi_values_ensures(r),
    ;
}

impl MultiValues {
    /// Creates a list from a vector of any supported item type.
    pub fn new<T>(values: Vec<T>) -> (r: Self)
        where Self: MultiValuesConstructor<T>,
        ensures
            <Self as MultiValuesConstructor<T>>::from_vec_ensures(values, r),
    {
        <Self as MultiValuesConstructor<T>>::from_vec(values)
    }

    /// Gets all items as `T`, with strict type matching.
    pub fn get<T>(&self) -> (r: ValueResult<Vec<T>>)
        where Self: MultiValuesGetter<T>,
        ensures
            <Self as MultiValuesGetter<T>>::get_values_ensures(self, r),
    {
        <Self as MultiValuesGetter<T>>::get_values(self)
    }

    /// Gets the first item as `T`, with strict type matching.
    pub fn get_first<T>(&self) -> (r: ValueResult<T>)
        where Self: MultiValuesFirstGetter<T>,
        ensures
            <Self as MultiValuesFirstGetter<T>>::get_first_value_ensures(self, r),
    {
        <Self as MultiValuesFirstGetter<T>>::get_first_value(self)
    }

    /// Replaces the whole list with one item, a vector or a slice; the data
    /// type becomes that of the items.
    pub fn set<'a, S>(&mut self, values: S) -> (r: ValueResult<()>)
        where S: MultiValuesSetArg<'a>,
        ensures
            values.apply_ensures(*old(self), *final(self), r),
    {
        values.apply(self)
    }

    /// Appends one item, a vector or a slice, with strict type matching.
    pub fn add<'a, S>(&mut self, values: S) -> (r: ValueResult<()>)
        where S: MultiValuesAddArg<'a>,
        ensures
            values.apply_add_ensures(*old(self), *final(self), r),
    {
        values.apply_add(self)
    }
}

// ---------------------------------------------------------------------------
// bool
// ---------------------------------------------------------------------------

impl MultiValuesGetterSealed<bool> for MultiValues {}

impl MultiValuesGetter<bool> for MultiValues {
    open spec fn get_values_ensures(&self, r: ValueResult<Vec<bool>>) -> bool {
        ok_view(r) == self@.typed_items(DataType::Bool, self@.as_bools())
    }

    fn get_values(&self) -> (r: ValueResult<Vec<bool>>) {
        match self.get_bools() {
            Ok(s) => Ok(clone_items(s)),
            Err(e) => Err(e),
        }
    }
}

impl MultiValuesFirstGetterSealed<bool> for MultiValues {}

impl MultiValuesFirstGetter<bool> for MultiValues {
    open spec fn get_first_value_ensures(&self, r: ValueResult<bool>) -> bool {
        r == self@.typed_first(DataType::Bool, self@.as_bools())
    }

    fn get_first_value(&self) -> (r: ValueResult<bool>) {
        self.get_first_bool()
    }
}

impl MultiValuesSetterSealed<bool> for MultiValues {}

impl MultiValuesSetter<bool> for MultiValues {
    open spec fn set_values_ensures(before: Self, after: Self, values: Vec<bool>, r: ValueResult<()>) -> bool {
        r == Ok::<(), ValueError>(()) && after@ == MultiValuesView::Bool(values@)
    }

    fn set_values(&mut self, values: Vec<bool>) -> (r: ValueResult<()>) {
        self.set_bools(values)
    }
}

impl MultiValuesSetterSliceSealed<bool> for MultiValues {}

impl MultiValuesSetterSlice<bool> for MultiValues {
    open spec fn set_values_slice_ensures(before: Self, after: Self, values: Seq<bool>, r: ValueResult<()>) -> bool {
        r == Ok::<(), ValueError>(()) && after@ == MultiValuesView::Bool(values)
    }

    fn set_values_slice(&mut self, values: &[bool]) -> (r: ValueResult<()>) {
        self.set_bools_slice(values)
    }
}

impl MultiValuesSingleSetterSealed<bool> for MultiValues {}

impl MultiValuesSingleSetter<bool> for MultiValues {
    open spec fn set_single_value_ensures(before: Self, after: Self, value: bool, r: ValueResult<()>) -> bool {
        r == Ok::<(), ValueError>(()) && after@ == MultiValuesView::Bool(seq![value])
    }

    fn set_single_value(&mut self, value: bool) -> (r: ValueResult<()>) {
        self.set_bool(value)
    }
}

impl MultiValuesAdderSealed<bool> for MultiValues {}

impl MultiValuesAdder<bool> for MultiValues {
    open spec fn add_value_ensures(before: Self, after: Self, value: bool, r: ValueResult<()>) -> bool {
        (r, after@) == before@.append_bools(seq![value])
    }

    fn add_value(&mut self, value: bool) -> (r: ValueResult<()>) {
        self.add_bool(value)
    }
}

impl MultiValuesMultiAdderSealed<bool> for MultiValues {}

impl MultiValuesMultiAdder<bool> for MultiValues {
    open spec fn add_values_ensures(before: Self, after: Self, values: Vec<bool>, r: ValueResult<()>) -> bool {
        (r, after@) == before@.append_bools(values@)
    }

    fn add_values(&mut self, values: Vec<bool>) -> (r: ValueResult<()>) {
        self.add_bools(values)
    }
}

impl MultiValuesConstructorSealed<bool> for MultiValues {}

impl MultiValuesConstructor<bool> for MultiValues {
    open spec fn from_vec_ensures(values: Vec<bool>, r: Self) -> bool {
        r@ == MultiValuesView::Bool(values@)
    }

    fn from_vec(values: Vec<bool>) -> (r: Self) {
        MultiValues::Bool(values)
    }
}

impl MultiValuesSetArgSealed for bool {}

impl<'a> MultiValuesSetArg<'a> for bool {
    type Item = bool;

    open spec fn apply_ensures(self, before: MultiValues, after: MultiValues, r: ValueResult<()>) -> bool {
        r == Ok::<(), ValueError>(()) && after@ == MultiValuesView::Bool(seq![self])
    }

    fn apply(self, target: &mut MultiValues) -> (r: ValueResult<()>) {
        target.set_bool(self)
    }
}

impl MultiValuesSetArgSealed for Vec<bool> {}

impl<'a> MultiValuesSetArg<'a> for Vec<bool> {
    type Item = bool;

    open spec fn apply_ensures(self, before: MultiValues, after: MultiValues, r: ValueResult<()>) -> bool {
        r == Ok::<(), ValueError>(()) && after@ == MultiValuesView::Bool(self@)
    }

    fn apply(self, target: &mut MultiValues) -> (r: ValueResult<()>) {
        target.set_bools(self)
    }
}

impl<'a> MultiValuesSetArgSealed for &'a [bool] {}

impl<'a> MultiValuesSetArg<'a> for &'a [bool] {
    type Item = bool;

    open spec fn apply_ensures(self, before: MultiValues, after: MultiValues, r: ValueResult<()>) -> bool {
        r == Ok::<(), ValueError>(()) && after@ == MultiValuesView::Bool(self@)
    }

    fn apply(self, target: &mut MultiValues) -> (r: ValueResult<()>) {
        target.set_bools_slice(self)
    }
}

impl<'a> MultiValuesSetArgSealed for &'a Vec<bool> {}

impl<'a> MultiValuesSetArg<'a> for &'a Vec<bool> {
    type Item = bool;

    open spec fn apply_ensures(self, before: MultiValues, after: MultiValues, r: ValueResult<()>) -> bool {
        r == Ok::<(), ValueError>(()) && after@ == MultiValuesView::Bool(self@)
    }

    fn apply(self, target: &mut MultiValues) -> (r: ValueResult<()>) {
        target.set_bools_slice(self.as_slice())
    }
}

impl MultiValuesAddArgSealed for bool {}

impl<'a> MultiValuesAddArg<'a> for bool {
    type Item = bool;

    open spec fn apply_add_ensures(self, before: MultiValues, after: MultiValues, r: ValueResult<()>) -> bool {
        (r, after@) == before@.append_bools(seq![self])
    }

    fn apply_add(self, target: &mut MultiValues) -> (r: ValueResult<()>) {
        target.add_bool(self)
    }
}

impl MultiValuesAddArgSealed for Vec<bool> {}

impl<'a> MultiValuesAddArg<'a> for Vec<bool> {
    type Item = bool;

    open spec fn apply_add_ensures(self, before: MultiValues, after: MultiValues, r: ValueResult<()>) -> bool {
        (r, after@) == before@.append_bools(self@)
    }

    fn apply_add(self, target: &mut MultiValues) -> (r: ValueResult<()>) {
        target.add_bools(self)
    }
}

impl<'a> MultiValuesAddArgSealed for &'a [bool] {}

impl<'a> MultiValuesAddArg<'a> for &'a [bool] {
    type Item = bool;

    open spec fn apply_add_ensures(self, before: MultiValues, after: MultiValues, r: ValueResult<()>) -> bool {
        (r, after@) == before@.append_bools(self@)
    }

    fn apply_add(self, target: &mut MultiValues) -> (r: ValueResult<()>) {
        target.add_bools_slice(self)
    }
}

impl<'a> MultiValuesAddArgSealed for &'a Vec<bool> {}

impl<'a> MultiValuesAddArg<'a> for &'a Vec<bool> {
    type Item = bool;

    open spec fn apply_add_ensures(self, before: MultiValues, after: MultiValues, r: ValueResult<()>) -> bool {
        (r, after@) == before@.append_bools(self@)
    }

    fn apply_add(self, target: &mut MultiValues) -> (r: ValueResult<()>) {
        target.add_bools_slice(self.as_slice())
    }
}

impl MultiValuesConstructorArgSealed for Vec<bool> {}

impl<'a> MultiValuesConstructorArg<'a> for Vec<bool> {
    open spec fn into_multi_values_ensures(self, r: MultiValues) -> bool {
        r@ == MultiValuesView::Bool(self@)
    }

    fn into_multi_values(self) -> (r: MultiValues) {
        MultiValues::Bool(self)
    }
}

impl<'a> MultiValuesConstructorArgSealed for &'a [bool] {}

impl<'a> MultiValuesConstructorArg<'a> for &'a [bool] {
    open spec fn into_multi_values_ensures(self, r: MultiValues) -> bool {
        r@ == MultiValuesView::Bool(self@)
    }

    fn into_multi_values(self) -> (r: MultiValues) {
        MultiValues::Bool(clone_items(self))
    }
}

impl<'a> MultiValuesConstructorArgSealed for &'a Vec<bool> {}

impl<'a> MultiValuesConstructorArg<'a> for &'a Vec<bool> {
    open spec fn into_multi_values_ensures(self, r: MultiValues) -> bool {
        r@ == MultiValuesView::Bool(self@)
    }

    fn into_multi_values(self) -> (r: MultiValues) {
        MultiValues::Bool(clone_items(self.as_slice()))
    }
}

impl<const N: usize> MultiValuesSetArgSealed for [bool; N] {}

impl<'a, const N: usize> MultiValuesSetArg<'a> for [bool; N] {
    type Item = bool;

    open spec fn apply_ensures(self, before: MultiValues, after: MultiValues, r: ValueResult<()>) -> bool {
        r == Ok::<(), ValueError>(()) && after@ == MultiValuesView::Bool(self@)
    }

    fn apply(self, target: &mut MultiValues) -> (r: ValueResult<()>) {
        broadcast use vstd::array::group_array_axioms;
        target.set_bools_slice(array_as_slice(&self))
    }
}

impl<'a, const N: usize> MultiValuesSetArgSealed for &'a [bool; N] {}

impl<'a, const N: usize> MultiValuesSetArg<'a> for &'a [bool; N] {
    type Item = bool;

    open spec fn apply_ensures(self, before: MultiValues, after: MultiValues, r: ValueResult<()>) -> bool {
        r == Ok::<(), ValueError>(()) && after@ == MultiValuesView::Bool(self@)
    }

    fn apply(self, target: &mut MultiValues) -> (r: ValueResult<()>) {
        broadcast use vstd::array::group_array_axioms;
        target.set_bools_slice(array_as_slice(self))
    }
}

impl<const N: usize> MultiValuesAddArgSealed for [bool; N] {}

impl<'a, const N: usize> MultiValuesAddArg<'a> for [bool; N] {
    type Item = bool;

    open spec fn apply_add_ensures(self, before: MultiValues, after: MultiValues, r: ValueResult<()>) -> bool {
        (r, after@) == before@.append_bools(self@)
    }

    fn apply_add(self, target: &mut MultiValues) -> (r: ValueResult<()>) {
        broadcast use vstd::array::group_array_axioms;
        target.add_bools_slice(array_as_slice(&self))
    }
}

impl<'a, const N: usize> MultiValuesAddArgSealed for &'a [bool; N] {}

impl<'a, const N: usize> MultiValuesAddArg<'a> for &'a [bool; N] {
    type Item = bool;

    open spec fn apply_add_ensures(self, before: MultiValues, after: MultiValues, r: ValueResult<()>) -> bool {
        (r, after@) == before@.append_bools(self@)
    }

    fn apply_add(self, target: &mut MultiValues) -> (r: ValueResult<()>) {
        broadcast use vstd::array::group_array_axioms;
        target.add_bools_slice(array_as_slice(self))
    }
}

impl<const N: usize> MultiValuesConstructorArgSealed for [bool; N] {}

impl<'a, const N: usize> MultiValuesConstructorArg<'a> for [bool; N] {
    open spec fn into_multi_values_ensures(self, r: MultiValues) -> bool {
        r@ == MultiValuesView::Bool(self@)
    }

    fn into_multi_values(self) -> (r: MultiValues) {
        broadcast use vstd::array::group_array_axioms;
        MultiValues::Bool(clone_items(array_as_slice(&self)))
    }
}

impl<'a, const N: usize> MultiValuesConstructorArgSealed for &'a [bool; N] {}

impl<'a, const N: usize> MultiValuesConstructorArg<'a> for &'a [bool; N] {
    open spec fn into_multi_values_ensures(self, r: MultiValues) -> bool {
        r@ == MultiValuesView::Bool(self@)
    }

    fn into_multi_values(self) -> (r: MultiValues) {
        broadcast use vstd::array::group_array_axioms;
        MultiValues::Bool(clone_items(array_as_slice(self)))
    }
}

// ---------------------------------------------------------------------------
// char
// ---------------------------------------------------------------------------

impl MultiValuesGetterSealed<char> for MultiValues {}

impl MultiValuesGetter<char> for MultiValues {
    open spec fn get_values_ensures(&self, r: ValueResult<Vec<char>>) -> bool {
        ok_view(r) == self@.typed_items(DataType::Char, self@.as_chars())
    }

    fn get_values(&self) -> (r: ValueResult<Vec<char>>) {
        match self.get_chars() {
            Ok(s) => Ok(clone_items(s)),
            Err(e) => Err(e),
        }
    }
}

impl MultiValuesFirstGetterSealed<char> for MultiValues {}

impl MultiValuesFirstGetter<char> for MultiValues {
    open spec fn get_first_value_ensures(&self, r: ValueResult<char>) -> bool {
        r == self@.typed_first(DataType::Char, self@.as_chars())
    }

    fn get_first_value(&self) -> (r: ValueResult<char>) {
        self.get_first_char()
    }
}

impl MultiValuesSetterSealed<char> for MultiValues {}

impl MultiValuesSetter<char> for MultiValues {
    open spec fn set_values_ensures(before: Self, after: Self, values: Vec<char>, r: ValueResult<()>) -> bool {
        r == Ok::<(), ValueError>(()) && after@ == MultiValuesView::Char(values@)
    }

    fn set_values(&mut self, values: Vec<char>) -> (r: ValueResult<()>) {
        self.set_chars(values)
    }
}

impl MultiValuesSetterSliceSealed<char> for MultiValues {}

impl MultiValuesSetterSlice<char> for MultiValues {
    open spec fn set_values_slice_ensures(before: Self, after: Self, values: Seq<char>, r: ValueResult<()>) -> bool {
        r == Ok::<(), ValueError>(()) && after@ == MultiValuesView::Char(values)
    }

    fn set_values_slice(&mut self, values: &[char]) -> (r: ValueResult<()>) {
        self.set_chars_slice(values)
    }
}

impl MultiValuesSingleSetterSealed<char> for MultiValues {}

impl MultiValuesSingleSetter<char> for MultiValues {
    open spec fn set_single_value_ensures(before: Self, after: Self, value: char, r: ValueResult<()>) -> bool {
        r == Ok::<(), ValueError>(()) && after@ == MultiValuesView::Char(seq![value])
    }

    fn set_single_value(&mut self, value: char) -> (r: ValueResult<()>) {
        self.set_char(value)
    }
}

impl MultiValuesAdderSealed<char> for MultiValues {}

impl MultiValuesAdder<char> for MultiValues {
    open spec fn add_value_ensures(before: Self, after: Self, value: char, r: ValueResult<()>) -> bool {
        (r, after@) == before@.append_chars(seq![value])
    }

    fn add_value(&mut self, value: char) -> (r: ValueResult<()>) {
        self.add_char(value)
    }
}

impl MultiValuesMultiAdderSealed<char> for MultiValues {}

impl MultiValuesMultiAdder<char> for MultiValues {
    open spec fn add_values_ensures(before: Self, after: Self, values: Vec<char>, r: ValueResult<()>) -> bool {
        (r, after@) == before@.append_chars(values@)
    }

    fn add_values(&mut self, values: Vec<char>) -> (r: ValueResult<()>) {
        self.add_chars(values)
    }
}

impl MultiValuesConstructorSealed<char> for MultiValues {}

impl MultiValuesConstructor<char> for MultiValues {
    open spec fn from_vec_ensures(values: Vec<char>, r: Self) -> bool {
        r@ == MultiValuesView::Char(values@)
    }

    fn from_vec(values: Vec<char>) -> (r: Self) {
        MultiValues::Char(values)
    }
}

impl MultiValuesSetArgSealed for char {}

impl<'a> MultiValuesSetArg<'a> for char {
    type Item = char;

    open spec fn apply_ensures(self, before: MultiValues, after: MultiValues, r: ValueResult<()>) -> bool {
        r == Ok::<(), ValueError>(()) && after@ == MultiValuesView::Char(seq![self])
    }

    fn apply(self, target: &mut MultiValues) -> (r: ValueResult<()>) {
        target.set_char(self)
    }
}

impl MultiValuesSetArgSealed for Vec<char> {}

impl<'a> MultiValuesSetArg<'a> for Vec<char> {
    type Item = char;

    open spec fn apply_ensures(self, before: MultiValues, after: MultiValues, r: ValueResult<()>) -> bool {
        r == Ok::<(), ValueError>(()) && after@ == MultiValuesView::Char(self@)
    }

    fn apply(self, target: &mut MultiValues) -> (r: ValueResult<()>) {
        target.set_chars(self)
    }
}

impl<'a> MultiValuesSetArgSealed for &'a [char] {}

impl<'a> MultiValuesSetArg<'a> for &'a [char] {
    type Item = char;

    open spec fn apply_ensures(self, before: MultiValues, after: MultiValues, r: ValueResult<()>) -> bool {
        r == Ok::<(), ValueError>(()) && after@ == MultiValuesView::Char(self@)
    }

    fn apply(self, target: &mut MultiValues) -> (r: ValueResult<()>) {
        target.set_chars_slice(self)
    }
}

impl<'a> MultiValuesSetArgSealed for &'a Vec<char> {}

impl<'a> MultiValuesSetArg<'a> for &'a Vec<char> {
    type Item = char;

    open spec fn apply_ensures(self, before: MultiValues, after: MultiValues, r: ValueResult<()>) -> bool {
        r == Ok::<(), ValueError>(()) && after@ == MultiValuesView::Char(self@)
    }

    fn apply(self, target: &mut MultiValues) -> (r: ValueResult<()>) {
        target.set_chars_slice(self.as_slice())
    }
}

impl MultiValuesAddArgSealed for char {}

impl<'a> MultiValuesAddArg<'a> for char {
    type Item = char;

    open spec fn apply_add_ensures(self, before: MultiValues, after: MultiValues, r: ValueResult<()>) -> bool {
        (r, after@) == before@.append_chars(seq![self])
    }

    fn apply_add(self, target: &mut MultiValues) -> (r: ValueResult<()>) {
        target.add_char(self)
    }
}

impl MultiValuesAddArgSealed for Vec<char> {}

impl<'a> MultiValuesAddArg<'a> for Vec<char> {
    type Item = char;

    open spec fn apply_add_ensures(self, before: MultiValues, after: MultiValues, r: ValueResult<()>) -> bool {
        (r, after@) == before@.append_chars(self@)
    }

    fn apply_add(self, target: &mut MultiValues) -> (r: ValueResult<()>) {
        target.add_chars(self)
    }
}

impl<'a> MultiValuesAddArgSealed for &'a [char] {}

impl<'a> MultiValuesAddArg<'a> for &'a [char] {
    type Item = char;

    open spec fn apply_add_ensures(self, before: MultiValues, after: MultiValues, r: ValueResult<()>) -> bool {
        (r, after@) == before@.append_chars(self@)
    }

    fn apply_add(self, target: &mut MultiValues) -> (r: ValueResult<()>) {
        target.add_chars_slice(self)
    }
}

impl<'a> MultiValuesAddArgSealed for &'a Vec<char> {}

impl<'a> MultiValuesAddArg<'a> for &'a Vec<char> {
    type Item = char;

    open spec fn apply_add_ensures(self, before: MultiValues, after: MultiValues, r: ValueResult<()>) -> bool {
        (r, after@) == before@.append_chars(self@)
    }

    fn apply_add(self, target: &mut MultiValues) -> (r: ValueResult<()>) {
        target.add_chars_slice(self.as_slice())
    }
}

impl MultiValuesConstructorArgSealed for Vec<char> {}

impl<'a> MultiValuesConstructorArg<'a> for Vec<char> {
    open spec fn into_multi_values_ensures(self, r: MultiValues) -> bool {
        r@ == MultiValuesView::Char(self@)
    }

    fn into_multi_values(self) -> (r: MultiValues) {
        MultiValues::Char(self)
    }
}

impl<'a> MultiValuesConstructorArgSealed for &'a [char] {}

impl<'a> MultiValuesConstructorArg<'a> for &'a [char] {
    open spec fn into_multi_values_ensures(self, r: MultiValues) -> bool {
        r@ == MultiValuesView::Char(self@)
    }

    fn into_multi_values(self) -> (r: MultiValues) {
        MultiValues::Char(clone_items(self))
    }
}

impl<'a> MultiValuesConstructorArgSealed for &'a Vec<char> {}

impl<'a> MultiValuesConstructorArg<'a> for &'a Vec<char> {
    open spec fn into_multi_values_ensures(self, r: MultiValues) -> bool {
        r@ == MultiValuesView::Char(self@)
    }

    fn into_multi_values(self) -> (r: MultiValues) {
        MultiValues::Char(clone_items(self.as_slice()))
    }
}

impl<const N: usize> MultiValuesSetArgSealed for [char; N] {}

impl<'a, const N: usize> MultiValuesSetArg<'a> for [char; N] {
    type Item = char;

    open spec fn apply_ensures(self, before: MultiValues, after: MultiValues, r: ValueResult<()>) -> bool {
        r == Ok::<(), ValueError>(()) && after@ == MultiValuesView::Char(self@)
    }

    fn apply(self, target: &mut MultiValues) -> (r: ValueResult<()>) {
        broadcast use vstd::array::group_array_axioms;
        target.set_chars_slice(array_as_slice(&self))
    }
}

impl<'a, const N: usize> MultiValuesSetArgSealed for &'a [char; N] {}

impl<'a, const N: usize> MultiValuesSetArg<'a> for &'a [char; N] {
    type Item = char;

    open spec fn apply_ensures(self, before: MultiValues, after: MultiValues, r: ValueResult<()>) -> bool {
        r == Ok::<(), ValueError>(()) && after@ == MultiValuesView::Char(self@)
    }

    fn apply(self, target: &mut MultiValues) -> (r: ValueResult<()>) {
        broadcast use vstd::array::group_array_axioms;
        target.set_chars_slice(array_as_slice(self))
    }
}

impl<const N: usize> MultiValuesAddArgSealed for [char; N] {}

impl<'a, const N: usize> MultiValuesAddArg<'a> for [char; N] {
    type Item = char;

    open spec fn apply_add_ensures(self, before: MultiValues, after: MultiValues, r: ValueResult<()>) -> bool {
        (r, after@) == before@.append_chars(self@)
    }

    fn apply_add(self, target: &mut MultiValues) -> (r: ValueResult<()>) {
        broadcast use vstd::array::group_array_axioms;
        target.add_chars_slice(array_as_slice(&self))
    }
}

impl<'a, const N: usize> MultiValuesAddArgSealed for &'a [char; N] {}

impl<'a, const N: usize> MultiValuesAddArg<'a> for &'a [char; N] {
    type Item = char;

    open spec fn apply_add_ensures(self, before: MultiValues, after: MultiValues, r: ValueResult<()>) -> bool {
        (r, after@) == before@.append_chars(self@)
    }

    fn apply_add(self, target: &mut MultiValues) -> (r: ValueResult<()>) {
        broadcast use vstd::array::group_array_axioms;
        target.add_chars_slice(array_as_slice(self))
    }
}

impl<const N: usize> MultiValuesConstructorArgSealed for [char; N] {}

impl<'a, const N: usize> MultiValuesConstructorArg<'a> for [char; N] {
    open spec fn into_multi_values_ensures(self, r: MultiValues) -> bool {
        r@ == MultiValuesView::Char(self@)
    }

    fn into_multi_values(self) -> (r: MultiValues) {
        broadcast use vstd::array::group_array_axioms;
        MultiValues::Char(clone_items(array_as_slice(&self)))
    }
}

impl<'a, const N: usize> MultiValuesConstructorArgSealed for &'a [char; N] {}

impl<'a, const N: usize> MultiValuesConstructorArg<'a> for &'a [char; N] {
    open spec fn into_multi_values_ensures(self, r: MultiValues) -> bool {
        r@ == MultiValuesView::Char(self@)
    }

    fn into_multi_values(self) -> (r: MultiValues) {
        broadcast use vstd::array::group_array_axioms;
        MultiValues::Char(clone_items(array_as_slice(self)))
    }
}

// ---------------------------------------------------------------------------
// i8
// ---------------------------------------------------------------------------

impl MultiValuesGetterSealed<i8> for MultiValues {}

impl MultiValuesGetter<i8> for MultiValues {
    open spec fn get_values_ensures(&self, r: ValueResult<Vec<i8>>) -> bool {
        ok_view(r) == self@.typed_items(DataType::Int8, self@.as_int8s())
    }

    fn get_values(&self) -> (r: ValueResult<Vec<i8>>) {
        match self.get_int8s() {
            Ok(s) => Ok(clone_items(s)),
            Err(e) => Err(e),
        }
    }
}

impl MultiValuesFirstGetterSealed<i8> for MultiValues {}

impl MultiValuesFirstGetter<i8> for MultiValues {
    open spec fn get_first_value_ensures(&self, r: ValueResult<i8>) -> bool {
        r == self@.typed_first(DataType::Int8, self@.as_int8s())
    }

    fn get_first_value(&self) -> (r: ValueResult<i8>) {
        self.get_first_int8()
    }
}

impl MultiValuesSetterSealed<i8> for MultiValues {}

impl MultiValuesSetter<i8> for MultiValues {
    open spec fn set_values_ensures(before: Self, after: Self, values: Vec<i8>, r: ValueResult<()>) -> bool {
        r == Ok::<(), ValueError>(()) && after@ == MultiValuesView::Int8(values@)
    }

    fn set_values(&mut self, values: Vec<i8>) -> (r: ValueResult<()>) {
        self.set_int8s(values)
    }
}

impl MultiValuesSetterSliceSealed<i8> for MultiValues {}

impl MultiValuesSetterSlice<i8> for MultiValues {
    open spec fn set_values_slice_ensures(before: Self, after: Self, values: Seq<i8>, r: ValueResult<()>) -> bool {
        r == Ok::<(), ValueError>(()) && after@ == MultiValuesView::Int8(values)
    }

    fn set_values_slice(&mut self, values: &[i8]) -> (r: ValueResult<()>) {
        self.set_int8s_slice(values)
    }
}

impl MultiValuesSingleSetterSealed<i8> for MultiValues {}

impl MultiValuesSingleSetter<i8> for MultiValues {
    open spec fn set_single_value_ensures(before: Self, after: Self, value: i8, r: ValueResult<()>) -> bool {
        r == Ok::<(), ValueError>(()) && after@ == MultiValuesView::Int8(seq![value])
    }

    fn set_single_value(&mut self, value: i8) -> (r: ValueResult<()>) {
        self.set_int8(value)
    }
}

impl MultiValuesAdderSealed<i8> for MultiValues {}

impl MultiValuesAdder<i8> for MultiValues {
    open spec fn add_value_ensures(before: Self, after: Self, value: i8, r: ValueResult<()>) -> bool {
        (r, after@) == before@.append_int8s(seq![value])
    }

    fn add_value(&mut self, value: i8) -> (r: ValueResult<()>) {
        self.add_int8(value)
    }
}

impl MultiValuesMultiAdderSealed<i8> for MultiValues {}

impl MultiValuesMultiAdder<i8> for MultiValues {
    open spec fn add_values_ensures(before: Self, after: Self, values: Vec<i8>, r: ValueResult<()>) -> bool {
        (r, after@) == before@.append_int8s(values@)
    }

    fn add_values(&mut self, values: Vec<i8>) -> (r: ValueResult<()>) {
        self.add_int8s(values)
    }
}

impl MultiValuesConstructorSealed<i8> for MultiValues {}

impl MultiValuesConstructor<i8> for MultiValues {
    open spec fn from_vec_ensures(values: Vec<i8>, r: Self) -> bool {
        r@ == MultiValuesView::Int8(values@)
    }

    fn from_vec(values: Vec<i8>) -> (r: Self) {
        MultiValues::Int8(values)
    }
}

impl MultiValuesSetArgSealed for i8 {}

impl<'a> MultiValuesSetArg<'a> for i8 {
    type Item = i8;

    open spec fn apply_ensures(self, before: MultiValues, after: MultiValues, r: ValueResult<()>) -> bool {
        r == Ok::<(), ValueError>(()) && after@ == MultiValuesView::Int8(seq![self])
    }

    fn apply(self, target: &mut MultiValues) -> (r: ValueResult<()>) {
        target.set_int8(self)
    }
}

impl MultiValuesSetArgSealed for Vec<i8> {}

impl<'a> MultiValuesSetArg<'a> for Vec<i8> {
    type Item = i8;

    open spec fn apply_ensures(self, before: MultiValues, after: MultiValues, r: ValueResult<()>) -> bool {
        r == Ok::<(), ValueError>(()) && after@ == MultiValuesView::Int8(self@)
    }

    fn apply(self, target: &mut MultiValues) -> (r: ValueResult<()>) {
        target.set_int8s(self)
    }
}

impl<'a> MultiValuesSetArgSealed for &'a [i8] {}

impl<'a> MultiValuesSetArg<'a> for &'a [i8] {
    type Item = i8;

    open spec fn apply_ensures(self, before: MultiValues, after: MultiValues, r: ValueResult<()>) -> bool {
        r == Ok::<(), ValueError>(()) && after@ == MultiValuesView::Int8(self@)
    }

    fn apply(self, target: &mut MultiValues) -> (r: ValueResult<()>) {
        target.set_int8s_slice(self)
    }
}

impl<'a> MultiValuesSetArgSealed for &'a Vec<i8> {}

impl<'a> MultiValuesSetArg<'a> for &'a Vec<i8> {
    type Item = i8;

    open spec fn apply_ensures(self, before: MultiValues, after: MultiValues, r: ValueResult<()>) -> bool {
        r == Ok::<(), ValueError>(()) && after@ == MultiValuesView::Int8(self@)
    }

    fn apply(self, target: &mut MultiValues) -> (r: ValueResult<()>) {
        target.set_int8s_slice(self.as_slice())
    }
}

impl MultiValuesAddArgSealed for i8 {}

impl<'a> MultiValuesAddArg<'a> for i8 {
    type Item = i8;

    open spec fn apply_add_ensures(self, before: MultiValues, after: MultiValues, r: ValueResult<()>) -> bool {
        (r, after@) == before@.append_int8s(seq![self])
    }

    fn apply_add(self, target: &mut MultiValues) -> (r: ValueResult<()>) {
        target.add_int8(self)
    }
}

impl MultiValuesAddArgSealed for Vec<i8> {}

impl<'a> MultiValuesAddArg<'a> for Vec<i8> {
    type Item = i8;

    open spec fn apply_add_ensures(self, before: MultiValues, after: MultiValues, r: ValueResult<()>) -> bool {
        (r, after@) == before@.append_int8s(self@)
    }

    fn apply_add(self, target: &mut MultiValues) -> (r: ValueResult<()>) {
        target.add_int8s(self)
    }
}

impl<'a> MultiValuesAddArgSealed for &'a [i8] {}

impl<'a> MultiValuesAddArg<'a> for &'a [i8] {
    type Item = i8;

    open spec fn apply_add_ensures(self, before: MultiValues, after: MultiValues, r: ValueResult<()>) -> bool {
        (r, after@) == before@.append_int8s(self@)
    }

    fn apply_add(self, target: &mut MultiValues) -> (r: ValueResult<()>) {
        target.add_int8s_slice(self)
    }
}

impl<'a> MultiValuesAddArgSealed for &'a Vec<i8> {}

impl<'a> MultiValuesAddArg<'a> for &'a Vec<i8> {
    type Item = i8;

    open spec fn apply_add_ensures(self, before: MultiValues, after: MultiValues, r: ValueResult<()>) -> bool {
        (r, after@) == before@.append_int8s(self@)
    }

    fn apply_add(self, target: &mut MultiValues) -> (r: ValueResult<()>) {
        target.add_int8s_slice(self.as_slice())
    }
}

impl MultiValuesConstructorArgSealed for Vec<i8> {}

impl<'a> MultiValuesConstructorArg<'a> for Vec<i8> {
    open spec fn into_multi_values_ensures(self, r: MultiValues) -> bool {
        r@ == MultiValuesView::Int8(self@)
    }

    fn into_multi_values(self) -> (r: MultiValues) {
        MultiValues::Int8(self)
    }
}

impl<'a> MultiValuesConstructorArgSealed for &'a [i8] {}

impl<'a> MultiValuesConstructorArg<'a> for &'a [i8] {
    open spec fn into_multi_values_ensures(self, r: MultiValues) -> bool {
        r@ == MultiValuesView::Int8(self@)
    }

    fn into_multi_values(self) -> (r: MultiValues) {
        MultiValues::Int8(clone_items(self))
    }
}

impl<'a> MultiValuesConstructorArgSealed for &'a Vec<i8> {}

impl<'a> MultiValuesConstructorArg<'a> for &'a Vec<i8> {
    open spec fn into_multi_values_ensures(self, r: MultiValues) -> bool {
        r@ == MultiValuesView::Int8(self@)
    }

    fn into_multi_values(self) -> (r: MultiValues) {
        MultiValues::Int8(clone_items(self.as_slice()))
    }
}

impl<const N: usize> MultiValuesSetArgSealed for [i8; N] {}

impl<'a, const N: usize> MultiValuesSetArg<'a> for [i8; N] {
    type Item = i8;

    open spec fn apply_ensures(self, before: MultiValues, after: MultiValues, r: ValueResult<()>) -> bool {
        r == Ok::<(), ValueError>(()) && after@ == MultiValuesView::Int8(self@)
    }

    fn apply(self, target: &mut MultiValues) -> (r: ValueResult<()>) {
        broadcast use vstd::array::group_array_axioms;
        target.set_int8s_slice(array_as_slice(&self))
    }
}

impl<'a, const N: usize> MultiValuesSetArgSealed for &'a [i8; N] {}

impl<'a, const N: usize> MultiValuesSetArg<'a> for &'a [i8; N] {
    type Item = i8;

    open spec fn apply_ensures(self, before: MultiValues, after: MultiValues, r: ValueResult<()>) -> bool {
        r == Ok::<(), ValueError>(()) && after@ == MultiValuesView::Int8(self@)
    }

    fn apply(self, target: &mut MultiValues) -> (r: ValueResult<()>) {
        broadcast use vstd::array::group_array_axioms;
        target.set_int8s_slice(array_as_slice(self))
    }
}

impl<const N: usize> MultiValuesAddArgSealed for [i8; N] {}

impl<'a, const N: usize> MultiValuesAddArg<'a> for [i8; N] {
    type Item = i8;

    open spec fn apply_add_ensures(self, before: MultiValues, after: MultiValues, r: ValueResult<()>) -> bool {
        (r, after@) == before@.append_int8s(self@)
    }

    fn apply_add(self, target: &mut MultiValues) -> (r: ValueResult<()>) {
        broadcast use vstd::array::group_array_axioms;
        target.add_int8s_slice(array_as_slice(&self))
    }
}

impl<'a, const N: usize> MultiValuesAddArgSealed for &'a [i8; N] {}

impl<'a, const N: usize> MultiValuesAddArg<'a> for &'a [i8; N] {
    type Item = i8;

    open spec fn apply_add_ensures(self, before: MultiValues, after: MultiValues, r: ValueResult<()>) -> bool {
        (r, after@) == before@.append_int8s(self@)
    }

    fn apply_add(self, target: &mut MultiValues) -> (r: ValueResult<()>) {
        broadcast use vstd::array::group_array_axioms;
        target.add_int8s_slice(array_as_slice(self))
    }
}

impl<const N: usize> MultiValuesConstructorArgSealed for [i8; N] {}

impl<'a, const N: usize> MultiValuesConstructorArg<'a> for [i8; N] {
    open spec fn into_multi_values_ensures(self, r: MultiValues) -> bool {
        r@ == MultiValuesView::Int8(self@)
    }

    fn into_multi_values(self) -> (r: MultiValues) {
        broadcast use vstd::array::group_array_axioms;
        MultiValues::Int8(clone_items(array_as_slice(&self)))
    }
}

impl<'a, const N: usize> MultiValuesConstructorArgSealed for &'a [i8; N] {}

impl<'a, const N: usize> MultiValuesConstructorArg<'a> for &'a [i8; N] {
    open spec fn into_multi_values_ensures(self, r: MultiValues) -> bool {
        r@ == MultiValuesView::Int8(self@)
    }

    fn into_multi_values(self) -> (r: MultiValues) {
        broadcast use vstd::array::group_array_axioms;
        MultiValues::Int8(clone_items(array_as_slice(self)))
    }
}

// ---------------------------------------------------------------------------
// i16
// ---------------------------------------------------------------------------

impl MultiValuesGetterSealed<i16> for MultiValues {}

impl MultiValuesGetter<i16> for MultiValues {
    open spec fn get_values_ensures(&self, r: ValueResult<Vec<i16>>) -> bool {
        ok_view(r) == self@.typed_items(DataType::Int16, self@.as_int16s())
    }

    fn get_values(&self) -> (r: ValueResult<Vec<i16>>) {
        match self.get_int16s() {
            Ok(s) => Ok(clone_items(s)),
            Err(e) => Err(e),
        }
    }
}

impl MultiValuesFirstGetterSealed<i16> for MultiValues {}

impl MultiValuesFirstGetter<i16> for MultiValues {
    open spec fn get_first_value_ensures(&self, r: ValueResult<i16>) -> bool {
        r == self@.typed_first(DataType::Int16, self@.as_int16s())
    }

    fn get_first_value(&self) -> (r: ValueResult<i16>) {
        self.get_first_int16()
    }
}

impl MultiValuesSetterSealed<i16> for MultiValues {}

impl MultiValuesSetter<i16> for MultiValues {
    open spec fn set_values_ensures(before: Self, after: Self, values: Vec<i16>, r: ValueResult<()>) -> bool {
        r == Ok::<(), ValueError>(()) && after@ == MultiValuesView::Int16(values@)
    }

    fn set_values(&mut self, values: Vec<i16>) -> (r: ValueResult<()>) {
        self.set_int16s(values)
    }
}

impl MultiValuesSetterSliceSealed<i16> for MultiValues {}

impl MultiValuesSetterSlice<i16> for MultiValues {
    open spec fn set_values_slice_ensures(before: Self, after: Self, values: Seq<i16>, r: ValueResult<()>) -> bool {
        r == Ok::<(), ValueError>(()) && after@ == MultiValuesView::Int16(values)
    }

    fn set_values_slice(&mut self, values: &[i16]) -> (r: ValueResult<()>) {
        self.set_int16s_slice(values)
    }
}

impl MultiValuesSingleSetterSealed<i16> for MultiValues {}

impl MultiValuesSingleSetter<i16> for MultiValues {
    open spec fn set_single_value_ensures(before: Self, after: Self, value: i16, r: ValueResult<()>) -> bool {
        r == Ok::<(), ValueError>(()) && after@ == MultiValuesView::Int16(seq![value])
    }

    fn set_single_value(&mut self, value: i16) -> (r: ValueResult<()>) {
        self.set_int16(value)
    }
}

impl MultiValuesAdderSealed<i16> for MultiValues {}

impl MultiValuesAdder<i16> for MultiValues {
    open spec fn add_value_ensures(before: Self, after: Self, value: i16, r: ValueResult<()>) -> bool {
        (r, after@) == before@.append_int16s(seq![value])
    }

    fn add_value(&mut self, value: i16) -> (r: ValueResult<()>) {
        self.add_int16(value)
    }
}

impl MultiValuesMultiAdderSealed<i16> for MultiValues {}

impl MultiValuesMultiAdder<i16> for MultiValues {
    open spec fn add_values_ensures(before: Self, after: Self, values: Vec<i16>, r: ValueResult<()>) -> bool {
        (r, after@) == before@.append_int16s(values@)
    }

    fn add_values(&mut self, values: Vec<i16>) -> (r: ValueResult<()>) {
        self.add_int16s(values)
    }
}

impl MultiValuesConstructorSealed<i16> for MultiValues {}

impl MultiValuesConstructor<i16> for MultiValues {
    open spec fn from_vec_ensures(values: Vec<i16>, r: Self) -> bool {
        r@ == MultiValuesView::Int16(values@)
    }

    fn from_vec(values: Vec<i16>) -> (r: Self) {
        MultiValues::Int16(values)
    }
}

impl MultiValuesSetArgSealed for i16 {}

impl<'a> MultiValuesSetArg<'a> for i16 {
    type Item = i16;

    open spec fn apply_ensures(self, before: MultiValues, after: MultiValues, r: ValueResult<()>) -> bool {
        r == Ok::<(), ValueError>(()) && after@ == MultiValuesView::Int16(seq![self])
    }

    fn apply(self, target: &mut MultiValues) -> (r: ValueResult<()>) {
        target.set_int16(self)
    }
}

impl MultiValuesSetArgSealed for Vec<i16> {}

impl<'a> MultiValuesSetArg<'a> for Vec<i16> {
    type Item = i16;

    open spec fn apply_ensures(self, before: MultiValues, after: MultiValues, r: ValueResult<()>) -> bool {
        r == Ok::<(), ValueError>(()) && after@ == MultiValuesView::Int16(self@)
    }

    fn apply(self, target: &mut MultiValues) -> (r: ValueResult<()>) {
        target.set_int16s(self)
    }
}

impl<'a> MultiValuesSetArgSealed for &'a [i16] {}

impl<'a> MultiValuesSetArg<'a> for &'a [i16] {
    type Item = i16;

    open spec fn apply_ensures(self, before: MultiValues, after: MultiValues, r: ValueResult<()>) -> bool {
        r == Ok::<(), ValueError>(()) && after@ == MultiValuesView::Int16(self@)
    }

    fn apply(self, target: &mut MultiValues) -> (r: ValueResult<()>) {
        target.set_int16s_slice(self)
    }
}

impl<'a> MultiValuesSetArgSealed for &'a Vec<i16> {}

impl<'a> MultiValuesSetArg<'a> for &'a Vec<i16> {
    type Item = i16;

    open spec fn apply_ensures(self, before: MultiValues, after: MultiValues, r: ValueResult<()>) -> bool {
        r == Ok::<(), ValueError>(()) && after@ == MultiValuesView::Int16(self@)
    }

    fn apply(self, target: &mut MultiValues) -> (r: ValueResult<()>) {
        target.set_int16s_slice(self.as_slice())
    }
}

impl MultiValuesAddArgSealed for i16 {}

impl<'a> MultiValuesAddArg<'a> for i16 {
    type Item = i16;

    open spec fn apply_add_ensures(self, before: MultiValues, after: MultiValues, r: ValueResult<()>) -> bool {
        (r, after@) == before@.append_int16s(seq![self])
    }

    fn apply_add(self, target: &mut MultiValues) -> (r: ValueResult<()>) {
        target.add_int16(self)
    }
}

impl MultiValuesAddArgSealed for Vec<i16> {}

impl<'a> MultiValuesAddArg<'a> for Vec<i16> {
    type Item = i16;

    open spec fn apply_add_ensures(self, before: MultiValues, after: MultiValues, r: ValueResult<()>) -> bool {
        (r, after@) == before@.append_int16s(self@)
    }

    fn apply_add(self, target: &mut MultiValues) -> (r: ValueResult<()>) {
        target.add_int16s(self)
    }
}

impl<'a> MultiValuesAddArgSealed for &'a [i16] {}

impl<'a> MultiValuesAddArg<'a> for &'a [i16] {
    type Item = i16;

    open spec fn apply_add_ensures(self, before: MultiValues, after: MultiValues, r: ValueResult<()>) -> bool {
        (r, after@) == before@.append_int16s(self@)
    }

    fn apply_add(self, target: &mut MultiValues) -> (r: ValueResult<()>) {
        target.add_int16s_slice(self)
    }
}

impl<'a> MultiValuesAddArgSealed for &'a Vec<i16> {}

impl<'a> MultiValuesAddArg<'a> for &'a Vec<i16> {
    type Item = i16;

    open spec fn apply_add_ensures(self, before: MultiValues, after: MultiValues, r: ValueResult<()>) -> bool {
        (r, after@) == before@.append_int16s(self@)
    }

    fn apply_add(self, target: &mut MultiValues) -> (r: ValueResult<()>) {
        target.add_int16s_slice(self.as_slice())
    }
}

impl MultiValuesConstructorArgSealed for Vec<i16> {}

impl<'a> MultiValuesConstructorArg<'a> for Vec<i16> {
    open spec fn into_multi_values_ensures(self, r: MultiValues) -> bool {
        r@ == MultiValuesView::Int16(self@)
    }

    fn into_multi_values(self) -> (r: MultiValues) {
        MultiValues::Int16(self)
    }
}

impl<'a> MultiValuesConstructorArgSealed for &'a [i16] {}

impl<'a> MultiValuesConstructorArg<'a> for &'a [i16] {
    open spec fn into_multi_values_ensures(self, r: MultiValues) -> bool {
        r@ == MultiValuesView::Int16(self@)
    }

    fn into_multi_values(self) -> (r: MultiValues) {
        MultiValues::Int16(clone_items(self))
    }
}

impl<'a> MultiValuesConstructorArgSealed for &'a Vec<i16> {}

impl<'a> MultiValuesConstructorArg<'a> for &'a Vec<i16> {
    open spec fn into_multi_values_ensures(self, r: MultiValues) -> bool {
        r@ == MultiValuesView::Int16(self@)
    }

    fn into_multi_values(self) -> (r: MultiValues) {
        MultiValues::Int16(clone_items(self.as_slice()))
    }
}

impl<const N: usize> MultiValuesSetArgSealed for [i16; N] {}

impl<'a, const N: usize> MultiValuesSetArg<'a> for [i16; N] {
    type Item = i16;

    open spec fn apply_ensures(self, before: MultiValues, after: MultiValues, r: ValueResult<()>) -> bool {
        r == Ok::<(), ValueError>(()) && after@ == MultiValuesView::Int16(self@)
    }

    fn apply(self, target: &mut MultiValues) -> (r: ValueResult<()>) {
        broadcast use vstd::array::group_array_axioms;
        target.set_int16s_slice(array_as_slice(&self))
    }
}

impl<'a, const N: usize> MultiValuesSetArgSealed for &'a [i16; N] {}

impl<'a, const N: usize> MultiValuesSetArg<'a> for &'a [i16; N] {
    type Item = i16;

    open spec fn apply_ensures(self, before: MultiValues, after: MultiValues, r: ValueResult<()>) -> bool {
        r == Ok::<(), ValueError>(()) && after@ == MultiValuesView::Int16(self@)
    }

    fn apply(self, target: &mut MultiValues) -> (r: ValueResult<()>) {
        broadcast use vstd::array::group_array_axioms;
        target.set_int16s_slice(array_as_slice(self))
    }
}

impl<const N: usize> MultiValuesAddArgSealed for [i16; N] {}

impl<'a, const N: usize> MultiValuesAddArg<'a> for [i16; N] {
    type Item = i16;

    open spec fn apply_add_ensures(self, before: MultiValues, after: MultiValues, r: ValueResult<()>) -> bool {
        (r, after@) == before@.append_int16s(self@)
    }

    fn apply_add(self, target: &mut MultiValues) -> (r: ValueResult<()>) {
        broadcast use vstd::array::group_array_axioms;
        target.add_int16s_slice(array_as_slice(&self))
    }
}

impl<'a, const N: usize> MultiValuesAddArgSealed for &'a [i16; N] {}

impl<'a, const N: usize> MultiValuesAddArg<'a> for &'a [i16; N] {
    type Item = i16;

    open spec fn apply_add_ensures(self, before: MultiValues, after: MultiValues, r: ValueResult<()>) -> bool {
        (r, after@) == before@.append_int16s(self@)
    }

    fn apply_add(self, target: &mut MultiValues) -> (r: ValueResult<()>) {
        broadcast use vstd::array::group_array_axioms;
        target.add_int16s_slice(array_as_slice(self))
    }
}

impl<const N: usize> MultiValuesConstructorArgSealed for [i16; N] {}

impl<'a, const N: usize> MultiValuesConstructorArg<'a> for [i16; N] {
    open spec fn into_multi_values_ensures(self, r: MultiValues) -> bool {
        r@ == MultiValuesView::Int16(self@)
    }

    fn into_multi_values(self) -> (r: MultiValues) {
        broadcast use vstd::array::group_array_axioms;
        MultiValues::Int16(clone_items(array_as_slice(&self)))
    }
}

impl<'a, const N: usize> MultiValuesConstructorArgSealed for &'a [i16; N] {}

impl<'a, const N: usize> MultiValuesConstructorArg<'a> for &'a [i16; N] {
    open spec fn into_multi_values_ensures(self, r: MultiValues) -> bool {
        r@ == MultiValuesView::Int16(self@)
    }

    fn into_multi_values(self) -> (r: MultiValues) {
        broadcast use vstd::array::group_array_axioms;
        MultiValues::Int16(clone_items(array_as_slice(self)))
    }
}

// ---------------------------------------------------------------------------
// i32
// ---------------------------------------------------------------------------

impl MultiValuesGetterSealed<i32> for MultiValues {}

impl MultiValuesGetter<i32> for MultiValues {
    open spec fn get_values_ensures(&self, r: ValueResult<Vec<i32>>) -> bool {
        ok_view(r) == self@.typed_items(DataType::Int32, self@.as_int32s())
    }

    fn get_values(&self) -> (r: ValueResult<Vec<i32>>) {
        match self.get_int32s() {
            Ok(s) => Ok(clone_items(s)),
            Err(e) => Err(e),
        }
    }
}

impl MultiValuesFirstGetterSealed<i32> for MultiValues {}

impl MultiValuesFirstGetter<i32> for MultiValues {
    open spec fn get_first_value_ensures(&self, r: ValueResult<i32>) -> bool {
        r == self@.typed_first(DataType::Int32, self@.as_int32s())
    }

    fn get_first_value(&self) -> (r: ValueResult<i32>) {
        self.get_first_int32()
    }
}

impl MultiValuesSetterSealed<i32> for MultiValues {}

impl MultiValuesSetter<i32> for MultiValues {
    open spec fn set_values_ensures(before: Self, after: Self, values: Vec<i32>, r: ValueResult<()>) -> bool {
        r == Ok::<(), ValueError>(()) && after@ == MultiValuesView::Int32(values@)
    }

    fn set_values(&mut self, values: Vec<i32>) -> (r: ValueResult<()>) {
        self.set_int32s(values)
    }
}

impl MultiValuesSetterSliceSealed<i32> for MultiValues {}

impl MultiValuesSetterSlice<i32> for MultiValues {
    open spec fn set_values_slice_ensures(before: Self, after: Self, values: Seq<i32>, r: ValueResult<()>) -> bool {
        r == Ok::<(), ValueError>(()) && after@ == MultiValuesView::Int32(values)
    }

    fn set_values_slice(&mut self, values: &[i32]) -> (r: ValueResult<()>) {
        self.set_int32s_slice(values)
    }
}

impl MultiValuesSingleSetterSealed<i32> for MultiValues {}

impl MultiValuesSingleSetter<i32> for MultiValues {
    open spec fn set_single_value_ensures(before: Self, after: Self, value: i32, r: ValueResult<()>) -> bool {
        r == Ok::<(), ValueError>(()) && after@ == MultiValuesView::Int32(seq![value])
    }

    fn set_single_value(&mut self, value: i32) -> (r: ValueResult<()>) {
        self.set_int32(value)
    }
}

impl MultiValuesAdderSealed<i32> for MultiValues {}

impl MultiValuesAdder<i32> for MultiValues {
    open spec fn add_value_ensures(before: Self, after: Self, value: i32, r: ValueResult<()>) -> bool {
        (r, after@) == before@.append_int32s(seq![value])
    }

    fn add_value(&mut self, value: i32) -> (r: ValueResult<()>) {
        self.add_int32(value)
    }
}

impl MultiValuesMultiAdderSealed<i32> for MultiValues {}

impl MultiValuesMultiAdder<i32> for MultiValues {
    open spec fn add_values_ensures(before: Self, after: Self, values: Vec<i32>, r: ValueResult<()>) -> bool {
        (r, after@) == before@.append_int32s(values@)
    }

    fn add_values(&mut self, values: Vec<i32>) -> (r: ValueResult<()>) {
        self.add_int32s(values)
    }
}

impl MultiValuesConstructorSealed<i32> for MultiValues {}

impl MultiValuesConstructor<i32> for MultiValues {
    open spec fn from_vec_ensures(values: Vec<i32>, r: Self) -> bool {
        r@ == MultiValuesView::Int32(values@)
    }

    fn from_vec(values: Vec<i32>) -> (r: Self) {
        MultiValues::Int32(values)
    }
}

impl MultiValuesSetArgSealed for i32 {}

impl<'a> MultiValuesSetArg<'a> for i32 {
    type Item = i32;

    open spec fn apply_ensures(self, before: MultiValues, after: MultiValues, r: ValueResult<()>) -> bool {
        r == Ok::<(), ValueError>(()) && after@ == MultiValuesView::Int32(seq![self])
    }

    fn apply(self, target: &mut MultiValues) -> (r: ValueResult<()>) {
        target.set_int32(self)
    }
}

impl MultiValuesSetArgSealed for Vec<i32> {}

impl<'a> MultiValuesSetArg<'a> for Vec<i32> {
    type Item = i32;

    open spec fn apply_ensures(self, before: MultiValues, after: MultiValues, r: ValueResult<()>) -> bool {
        r == Ok::<(), ValueError>(()) && after@ == MultiValuesView::Int32(self@)
    }

    fn apply(self, target: &mut MultiValues) -> (r: ValueResult<()>) {
        target.set_int32s(self)
    }
}

impl<'a> MultiValuesSetArgSealed for &'a [i32] {}

impl<'a> MultiValuesSetArg<'a> for &'a [i32] {
    type Item = i32;

    open spec fn apply_ensures(self, before: MultiValues, after: MultiValues, r: ValueResult<()>) -> bool {
        r == Ok::<(), ValueError>(()) && after@ == MultiValuesView::Int32(self@)
    }

    fn apply(self, target: &mut MultiValues) -> (r: ValueResult<()>) {
        target.set_int32s_slice(self)
    }
}

impl<'a> MultiValuesSetArgSealed for &'a Vec<i32> {}

impl<'a> MultiValuesSetArg<'a> for &'a Vec<i32> {
    type Item = i32;

    open spec fn apply_ensures(self, before: MultiValues, after: MultiValues, r: ValueResult<()>) -> bool {
        r == Ok::<(), ValueError>(()) && after@ == MultiValuesView::Int32(self@)
    }

    fn apply(self, target: &mut MultiValues) -> (r: ValueResult<()>) {
        target.set_int32s_slice(self.as_slice())
    }
}

impl MultiValuesAddArgSealed for i32 {}

impl<'a> MultiValuesAddArg<'a> for i32 {
    type Item = i32;

    open spec fn apply_add_ensures(self, before: MultiValues, after: MultiValues, r: ValueResult<()>) -> bool {
        (r, after@) == before@.append_int32s(seq![self])
    }

    fn apply_add(self, target: &mut MultiValues) -> (r: ValueResult<()>) {
        target.add_int32(self)
    }
}

impl MultiValuesAddArgSealed for Vec<i32> {}

impl<'a> MultiValuesAddArg<'a> for Vec<i32> {
    type Item = i32;

    open spec fn apply_add_ensures(self, before: MultiValues, after: MultiValues, r: ValueResult<()>) -> bool {
        (r, after@) == before@.append_int32s(self@)
    }

    fn apply_add(self, target: &mut MultiValues) -> (r: ValueResult<()>) {
        target.add_int32s(self)
    }
}

impl<'a> MultiValuesAddArgSealed for &'a [i32] {}

impl<'a> MultiValuesAddArg<'a> for &'a [i32] {
    type Item = i32;

    open spec fn apply_add_ensures(self, before: MultiValues, after: MultiValues, r: ValueResult<()>) -> bool {
        (r, after@) == before@.append_int32s(self@)
    }

    fn apply_add(self, target: &mut MultiValues) -> (r: ValueResult<()>) {
        target.add_int32s_slice(self)
    }
}

impl<'a> MultiValuesAddArgSealed for &'a Vec<i32> {}

impl<'a> MultiValuesAddArg<'a> for &'a Vec<i32> {
    type Item = i32;

    open spec fn apply_add_ensures(self, before: MultiValues, after: MultiValues, r: ValueResult<()>) -> bool {
        (r, after@) == before@.append_int32s(self@)
    }

    fn apply_add(self, target: &mut MultiValues) -> (r: ValueResult<()>) {
        target.add_int32s_slice(self.as_slice())
    }
}

impl MultiValuesConstructorArgSealed for Vec<i32> {}

impl<'a> MultiValuesConstructorArg<'a> for Vec<i32> {
    open spec fn into_multi_values_ensures(self, r: MultiValues) -> bool {
        r@ == MultiValuesView::Int32(self@)
    }

    fn into_multi_values(self) -> (r: MultiValues) {
        MultiValues::Int32(self)
    }
}

impl<'a> MultiValuesConstructorArgSealed for &'a [i32] {}

impl<'a> MultiValuesConstructorArg<'a> for &'a [i32] {
    open spec fn into_multi_values_ensures(self, r: MultiValues) -> bool {
        r@ == MultiValuesView::Int32(self@)
    }

    fn into_multi_values(self) -> (r: MultiValues) {
        MultiValues::Int32(clone_items(self))
    }
}

impl<'a> MultiValuesConstructorArgSealed for &'a Vec<i32> {}

impl<'a> MultiValuesConstructorArg<'a> for &'a Vec<i32> {
    open spec fn into_multi_values_ensures(self, r: MultiValues) -> bool {
        r@ == MultiValuesView::Int32(self@)
    }

    fn into_multi_values(self) -> (r: MultiValues) {
        MultiValues::Int32(clone_items(self.as_slice()))
    }
}

impl<const N: usize> MultiValuesSetArgSealed for [i32; N] {}

impl<'a, const N: usize> MultiValuesSetArg<'a> for [i32; N] {
    type Item = i32;

    open spec fn apply_ensures(self, before: MultiValues, after: MultiValues, r: ValueResult<()>) -> bool {
        r == Ok::<(), ValueError>(()) && after@ == MultiValuesView::Int32(self@)
    }

    fn apply(self, target: &mut MultiValues) -> (r: ValueResult<()>) {
        broadcast use vstd::array::group_array_axioms;
        target.set_int32s_slice(array_as_slice(&self))
    }
}

impl<'a, const N: usize> MultiValuesSetArgSealed for &'a [i32; N] {}

impl<'a, const N: usize> MultiValuesSetArg<'a> for &'a [i32; N] {
    type Item = i32;

    open spec fn apply_ensures(self, before: MultiValues, after: MultiValues, r: ValueResult<()>) -> bool {
        r == Ok::<(), ValueError>(()) && after@ == MultiValuesView::Int32(self@)
    }

    fn apply(self, target: &mut MultiValues) -> (r: ValueResult<()>) {
        broadcast use vstd::array::group_array_axioms;
        target.set_int32s_slice(array_as_slice(self))
    }
}

impl<const N: usize> MultiValuesAddArgSealed for [i32; N] {}

impl<'a, const N: usize> MultiValuesAddArg<'a> for [i32; N] {
    type Item = i32;

    open spec fn apply_add_ensures(self, before: MultiValues, after: MultiValues, r: ValueResult<()>) -> bool {
        (r, after@) == before@.append_int32s(self@)
    }

    fn apply_add(self, target: &mut MultiValues) -> (r: ValueResult<()>) {
        broadcast use vstd::array::group_array_axioms;
        target.add_int32s_slice(array_as_slice(&self))
    }
}

impl<'a, const N: usize> MultiValuesAddArgSealed for &'a [i32; N] {}

impl<'a, const N: usize> MultiValuesAddArg<'a> for &'a [i32; N] {
    type Item = i32;

    open spec fn apply_add_ensures(self, before: MultiValues, after: MultiValues, r: ValueResult<()>) -> bool {
        (r, after@) == before@.append_int32s(self@)
    }

    fn apply_add(self, target: &mut MultiValues) -> (r: ValueResult<()>) {
        broadcast use vstd::array::group_array_axioms;
        target.add_int32s_slice(array_as_slice(self))
    }
}

impl<const N: usize> MultiValuesConstructorArgSealed for [i32; N] {}

impl<'a, const N: usize> MultiValuesConstructorArg<'a> for [i32; N] {
    open spec fn into_multi_values_ensures(self, r: MultiValues) -> bool {
        r@ == MultiValuesView::Int32(self@)
    }

    fn into_multi_values(self) -> (r: MultiValues) {
        broadcast use vstd::array::group_array_axioms;
        MultiValues::Int32(clone_items(array_as_slice(&self)))
    }
}

impl<'a, const N: usize> MultiValuesConstructorArgSealed for &'a [i32; N] {}

impl<'a, const N: usize> MultiValuesConstructorArg<'a> for &'a [i32; N] {
    open spec fn into_multi_values_ensures(self, r: MultiValues) -> bool {
        r@ == MultiValuesView::Int32(self@)
    }

    fn into_multi_values(self) -> (r: MultiValues) {
        broadcast use vstd::array::group_array_axioms;
        MultiValues::Int32(clone_items(array_as_slice(self)))
    }
}

// ---------------------------------------------------------------------------
// i64
// ---------------------------------------------------------------------------

impl MultiValuesGetterSealed<i64> for MultiValues {}

impl MultiValuesGetter<i64> for MultiValues {
    open spec fn get_values_ensures(&self, r: ValueResult<Vec<i64>>) -> bool {
        ok_view(r) == self@.typed_items(DataType::Int64, self@.as_int64s())
    }

    fn get_values(&self) -> (r: ValueResult<Vec<i64>>) {
        match self.get_int64s() {
            Ok(s) => Ok(clone_items(s)),
            Err(e) => Err(e),
        }
    }
}

impl MultiValuesFirstGetterSealed<i64> for MultiValues {}

impl MultiValuesFirstGetter<i64> for MultiValues {
    open spec fn get_first_value_ensures(&self, r: ValueResult<i64>) -> bool {
        r == self@.typed_first(DataType::Int64, self@.as_int64s())
    }

    fn get_first_value(&self) -> (r: ValueResult<i64>) {
        self.get_first_int64()
    }
}

impl MultiValuesSetterSealed<i64> for MultiValues {}

impl MultiValuesSetter<i64> for MultiValues {
    open spec fn set_values_ensures(before: Self, after: Self, values: Vec<i64>, r: ValueResult<()>) -> bool {
        r == Ok::<(), ValueError>(()) && after@ == MultiValuesView::Int64(values@)
    }

    fn set_values(&mut self, values: Vec<i64>) -> (r: ValueResult<()>) {
        self.set_int64s(values)
    }
}

impl MultiValuesSetterSliceSealed<i64> for MultiValues {}

impl MultiValuesSetterSlice<i64> for MultiValues {
    open spec fn set_values_slice_ensures(before: Self, after: Self, values: Seq<i64>, r: ValueResult<()>) -> bool {
        r == Ok::<(), ValueError>(()) && after@ == MultiValuesView::Int64(values)
    }

    fn set_values_slice(&mut self, values: &[i64]) -> (r: ValueResult<()>) {
        self.set_int64s_slice(values)
    }
}

impl MultiValuesSingleSetterSealed<i64> for MultiValues {}

impl MultiValuesSingleSetter<i64> for MultiValues {
    open spec fn set_single_value_ensures(before: Self, after: Self, value: i64, r: ValueResult<()>) -> bool {
        r == Ok::<(), ValueError>(()) && after@ == MultiValuesView::Int64(seq![value])
    }

    fn set_single_value(&mut self, value: i64) -> (r: ValueResult<()>) {
        self.set_int64(value)
    }
}

impl MultiValuesAdderSealed<i64> for MultiValues {}

impl MultiValuesAdder<i64> for MultiValues {
    open spec fn add_value_ensures(before: Self, after: Self, value: i64, r: ValueResult<()>) -> bool {
        (r, after@) == before@.append_int64s(seq![value])
    }

    fn add_value(&mut self, value: i64) -> (r: ValueResult<()>) {
        self.add_int64(value)
    }
}

impl MultiValuesMultiAdderSealed<i64> for MultiValues {}

impl MultiValuesMultiAdder<i64> for MultiValues {
    open spec fn add_values_ensures(before: Self, after: Self, values: Vec<i64>, r: ValueResult<()>) -> bool {
        (r, after@) == before@.append_int64s(values@)
    }

    fn add_values(&mut self, values: Vec<i64>) -> (r: ValueResult<()>) {
        self.add_int64s(values)
    }
}

impl MultiValuesConstructorSealed<i64> for MultiValues {}

impl MultiValuesConstructor<i64> for MultiValues {
    open spec fn from_vec_ensures(values: Vec<i64>, r: Self) -> bool {
        r@ == MultiValuesView::Int64(values@)
    }

    fn from_vec(values: Vec<i64>) -> (r: Self) {
        MultiValues::Int64(values)
    }
}

impl MultiValuesSetArgSealed for i64 {}

impl<'a> MultiValuesSetArg<'a> for i64 {
    type Item = i64;

    open spec fn apply_ensures(self, before: MultiValues, after: MultiValues, r: ValueResult<()>) -> bool {
        r == Ok::<(), ValueError>(()) && after@ == MultiValuesView::Int64(seq![self])
    }

    fn apply(self, target: &mut MultiValues) -> (r: ValueResult<()>) {
        target.set_int64(self)
    }
}

impl MultiValuesSetArgSealed for Vec<i64> {}

impl<'a> MultiValuesSetArg<'a> for Vec<i64> {
    type Item = i64;

    open spec fn apply_ensures(self, before: MultiValues, after: MultiValues, r: ValueResult<()>) -> bool {
        r == Ok::<(), ValueError>(()) && after@ == MultiValuesView::Int64(self@)
    }

    fn apply(self, target: &mut MultiValues) -> (r: ValueResult<()>) {
        target.set_int64s(self)
    }
}

impl<'a> MultiValuesSetArgSealed for &'a [i64] {}

impl<'a> MultiValuesSetArg<'a> for &'a [i64] {
    type Item = i64;

    open spec fn apply_ensures(self, before: MultiValues, after: MultiValues, r: ValueResult<()>) -> bool {
        r == Ok::<(), ValueError>(()) && after@ == MultiValuesView::Int64(self@)
    }

    fn apply(self, target: &mut MultiValues) -> (r: ValueResult<()>) {
        target.set_int64s_slice(self)
    }
}

impl<'a> MultiValuesSetArgSealed for &'a Vec<i64> {}

impl<'a> MultiValuesSetArg<'a> for &'a Vec<i64> {
    type Item = i64;

    open spec fn apply_ensures(self, before: MultiValues, after: MultiValues, r: ValueResult<()>) -> bool {
        r == Ok::<(), ValueError>(()) && after@ == MultiValuesView::Int64(self@)
    }

    fn apply(self, target: &mut MultiValues) -> (r: ValueResult<()>) {
        target.set_int64s_slice(self.as_slice())
    }
}

impl MultiValuesAddArgSealed for i64 {}

impl<'a> MultiValuesAddArg<'a> for i64 {
    type Item = i64;

    open spec fn apply_add_ensures(self, before: MultiValues, after: MultiValues, r: ValueResult<()>) -> bool {
        (r, after@) == before@.append_int64s(seq![self])
    }

    fn apply_add(self, target: &mut MultiValues) -> (r: ValueResult<()>) {
        target.add_int64(self)
    }
}

impl MultiValuesAddArgSealed for Vec<i64> {}

impl<'a> MultiValuesAddArg<'a> for Vec<i64> {
    type Item = i64;

    open spec fn apply_add_ensures(self, before: MultiValues, after: MultiValues, r: ValueResult<()>) -> bool {
        (r, after@) == before@.append_int64s(self@)
    }

    fn apply_add(self, target: &mut MultiValues) -> (r: ValueResult<()>) {
        target.add_int64s(self)
    }
}

impl<'a> MultiValuesAddArgSealed for &'a [i64] {}

impl<'a> MultiValuesAddArg<'a> for &'a [i64] {
    type Item = i64;

    open spec fn apply_add_ensures(self, before: MultiValues, after: MultiValues, r: ValueResult<()>) -> bool {
        (r, after@) == before@.append_int64s(self@)
    }

    fn apply_add(self, target: &mut MultiValues) -> (r: ValueResult<()>) {
        target.add_int64s_slice(self)
    }
}

impl<'a> MultiValuesAddArgSealed for &'a Vec<i64> {}

impl<'a> MultiValuesAddArg<'a> for &'a Vec<i64> {
    type Item = i64;

    open spec fn apply_add_ensures(self, before: MultiValues, after: MultiValues, r: ValueResult<()>) -> bool {
        (r, after@) == before@.append_int64s(self@)
    }

    fn apply_add(self, target: &mut MultiValues) -> (r: ValueResult<()>) {
        target.add_int64s_slice(self.as_slice())
    }
}

impl MultiValuesConstructorArgSealed for Vec<i64> {}

impl<'a> MultiValuesConstructorArg<'a> for Vec<i64> {
    open spec fn into_multi_values_ensures(self, r: MultiValues) -> bool {
        r@ == MultiValuesView::Int64(self@)
    }

    fn into_multi_values(self) -> (r: MultiValues) {
        MultiValues::Int64(self)
    }
}

impl<'a> MultiValuesConstructorArgSealed for &'a [i64] {}

impl<'a> MultiValuesConstructorArg<'a> for &'a [i64] {
    open spec fn into_multi_values_ensures(self, r: MultiValues) -> bool {
        r@ == MultiValuesView::Int64(self@)
    }

    fn into_multi_values(self) -> (r: MultiValues) {
        MultiValues::Int64(clone_items(self))
    }
}

impl<'a> MultiValuesConstructorArgSealed for &'a Vec<i64> {}

impl<'a> MultiValuesConstructorArg<'a> for &'a Vec<i64> {
    open spec fn into_multi_values_ensures(self, r: MultiValues) -> bool {
        r@ == MultiValuesView::Int64(self@)
    }

    fn into_multi_values(self) -> (r: MultiValues) {
        MultiValues::Int64(clone_items(self.as_slice()))
    }
}

impl<const N: usize> MultiValuesSetArgSealed for [i64; N] {}

impl<'a, const N: usize> MultiValuesSetArg<'a> for [i64; N] {
    type Item = i64;

    open spec fn apply_ensures(self, before: MultiValues, after: MultiValues, r: ValueResult<()>) -> bool {
        r == Ok::<(), ValueError>(()) && after@ == MultiValuesView::Int64(self@)
    }

    fn apply(self, target: &mut MultiValues) -> (r: ValueResult<()>) {
        broadcast use vstd::array::group_array_axioms;
        target.set_int64s_slice(array_as_slice(&self))
    }
}

impl<'a, const N: usize> MultiValuesSetArgSealed for &'a [i64; N] {}

impl<'a, const N: usize> MultiValuesSetArg<'a> for &'a [i64; N] {
    type Item = i64;

    open spec fn apply_ensures(self, before: MultiValues, after: MultiValues, r: ValueResult<()>) -> bool {
        r == Ok::<(), ValueError>(()) && after@ == MultiValuesView::Int64(self@)
    }

    fn apply(self, target: &mut MultiValues) -> (r: ValueResult<()>) {
        broadcast use vstd::array::group_array_axioms;
        target.set_int64s_slice(array_as_slice(self))
    }
}

impl<const N: usize> MultiValuesAddArgSealed for [i64; N] {}

impl<'a, const N: usize> MultiValuesAddArg<'a> for [i64; N] {
    type Item = i64;

    open spec fn apply_add_ensures(self, before: MultiValues, after: MultiValues, r: ValueResult<()>) -> bool {
        (r, after@) == before@.append_int64s(self@)
    }

    fn apply_add(self, target: &mut MultiValues) -> (r: ValueResult<()>) {
        broadcast use vstd::array::group_array_axioms;
        target.add_int64s_slice(array_as_slice(&self))
    }
}

impl<'a, const N: usize> MultiValuesAddArgSealed for &'a [i64; N] {}

impl<'a, const N: usize> MultiValuesAddArg<'a> for &'a [i64; N] {
    type Item = i64;

    open spec fn apply_add_ensures(self, before: MultiValues, after: MultiValues, r: ValueResult<()>) -> bool {
        (r, after@) == before@.append_int64s(self@)
    }

    fn apply_add(self, target: &mut MultiValues) -> (r: ValueResult<()>) {
        broadcast use vstd::array::group_array_axioms;
        target.add_int64s_slice(array_as_slice(self))
    }
}

impl<const N: usize> MultiValuesConstructorArgSealed for [i64; N] {}

impl<'a, const N: usize> MultiValuesConstructorArg<'a> for [i64; N] {
    open spec fn into_multi_values_ensures(self, r: MultiValues) -> bool {
        r@ == MultiValuesView::Int64(self@)
    }

    fn into_multi_values(self) -> (r: MultiValues) {
        broadcast use vstd::array::group_array_axioms;
        MultiValues::Int64(clone_items(array_as_slice(&self)))
    }
}

impl<'a, const N: usize> MultiValuesConstructorArgSealed for &'a [i64; N] {}

impl<'a, const N: usize> MultiValuesConstructorArg<'a> for &'a [i64; N] {
    open spec fn into_multi_values_ensures(self, r: MultiValues) -> bool {
        r@ == MultiValuesView::Int64(self@)
    }

    fn into_multi_values(self) -> (r: MultiValues) {
        broadcast use vstd::array::group_array_axioms;
        MultiValues::Int64(clone_items(array_as_slice(self)))
    }
}

// ---------------------------------------------------------------------------
// i128
// ---------------------------------------------------------------------------

impl MultiValuesGetterSealed<i128> for MultiValues {}

impl MultiValuesGetter<i128> for MultiValues {
    open spec fn get_values_ensures(&self, r: ValueResult<Vec<i128>>) -> bool {
        ok_view(r) == self@.typed_items(DataType::Int128, self@.as_int128s())
    }

    fn get_values(&self) -> (r: ValueResult<Vec<i128>>) {
        match self.get_int128s() {
            Ok(s) => Ok(clone_items(s)),
            Err(e) => Err(e),
        }
    }
}

impl MultiValuesFirstGetterSealed<i128> for MultiValues {}

impl MultiValuesFirstGetter<i128> for MultiValues {
    open spec fn get_first_value_ensures(&self, r: ValueResult<i128>) -> bool {
        r == self@.typed_first(DataType::Int128, self@.as_int128s())
    }

    fn get_first_value(&self) -> (r: ValueResult<i128>) {
        self.get_first_int128()
    }
}

impl MultiValuesSetterSealed<i128> for MultiValues {}

impl MultiValuesSetter<i128> for MultiValues {
    open spec fn set_values_ensures(before: Self, after: Self, values: Vec<i128>, r: ValueResult<()>) -> bool {
        r == Ok::<(), ValueError>(()) && after@ == MultiValuesView::Int128(values@)
    }

    fn set_values(&mut self, values: Vec<i128>) -> (r: ValueResult<()>) {
        self.set_int128s(values)
    }
}

impl MultiValuesSetterSliceSealed<i128> for MultiValues {}

impl MultiValuesSetterSlice<i128> for MultiValues {
    open spec fn set_values_slice_ensures(before: Self, after: Self, values: Seq<i128>, r: ValueResult<()>) -> bool {
        r == Ok::<(), ValueError>(()) && after@ == MultiValuesView::Int128(values)
    }

    fn set_values_slice(&mut self, values: &[i128]) -> (r: ValueResult<()>) {
        self.set_int128s_slice(values)
    }
}

impl MultiValuesSingleSetterSealed<i128> for MultiValues {}

impl MultiValuesSingleSetter<i128> for MultiValues {
    open spec fn set_single_value_ensures(before: Self, after: Self, value: i128, r: ValueResult<()>) -> bool {
        r == Ok::<(), ValueError>(()) && after@ == MultiValuesView::Int128(seq![value])
    }

    fn set_single_value(&mut self, value: i128) -> (r: ValueResult<()>) {
        self.set_int128(value)
    }
}

impl MultiValuesAdderSealed<i128> for MultiValues {}

impl MultiValuesAdder<i128> for MultiValues {
    open spec fn add_value_ensures(before: Self, after: Self, value: i128, r: ValueResult<()>) -> bool {
        (r, after@) == before@.append_int128s(seq![value])
    }

    fn add_value(&mut self, value: i128) -> (r: ValueResult<()>) {
        self.add_int128(value)
    }
}

impl MultiValuesMultiAdderSealed<i128> for MultiValues {}

impl MultiValuesMultiAdder<i128> for MultiValues {
    open spec fn add_values_ensures(before: Self, after: Self, values: Vec<i128>, r: ValueResult<()>) -> bool {
        (r, after@) == before@.append_int128s(values@)
    }

    fn add_values(&mut self, values: Vec<i128>) -> (r: ValueResult<()>) {
        self.add_int128s(values)
    }
}

impl MultiValuesConstructorSealed<i128> for MultiValues {}

impl MultiValuesConstructor<i128> for MultiValues {
    open spec fn from_vec_ensures(values: Vec<i128>, r: Self) -> bool {
        r@ == MultiValuesView::Int128(values@)
    }

    fn from_vec(values: Vec<i128>) -> (r: Self) {
        MultiValues::Int128(values)
    }
}

impl MultiValuesSetArgSealed for i128 {}

impl<'a> MultiValuesSetArg<'a> for i128 {
    type Item = i128;

    open spec fn apply_ensures(self, before: MultiValues, after: MultiValues, r: ValueResult<()>) -> bool {
        r == Ok::<(), ValueError>(()) && after@ == MultiValuesView::Int128(seq![self])
    }

    fn apply(self, target: &mut MultiValues) -> (r: ValueResult<()>) {
        target.set_int128(self)
    }
}

impl MultiValuesSetArgSealed for Vec<i128> {}

impl<'a> MultiValuesSetArg<'a> for Vec<i128> {
    type Item = i128;

    open spec fn apply_ensures(self, before: MultiValues, after: MultiValues, r: ValueResult<()>) -> bool {
        r == Ok::<(), ValueError>(()) && after@ == MultiValuesView::Int128(self@)
    }

    fn apply(self, target: &mut MultiValues) -> (r: ValueResult<()>) {
        target.set_int128s(self)
    }
}

impl<'a> MultiValuesSetArgSealed for &'a [i128] {}

impl<'a> MultiValuesSetArg<'a> for &'a [i128] {
    type Item = i128;

    open spec fn apply_ensures(self, before: MultiValues, after: MultiValues, r: ValueResult<()>) -> bool {
        r == Ok::<(), ValueError>(()) && after@ == MultiValuesView::Int128(self@)
    }

    fn apply(self, target: &mut MultiValues) -> (r: ValueResult<()>) {
        target.set_int128s_slice(self)
    }
}

impl<'a> MultiValuesSetArgSealed for &'a Vec<i128> {}

impl<'a> MultiValuesSetArg<'a> for &'a Vec<i128> {
    type Item = i128;

    open spec fn apply_ensures(self, before: MultiValues, after: MultiValues, r: ValueResult<()>) -> bool {
        r == Ok::<(), ValueError>(()) && after@ == MultiValuesView::Int128(self@)
    }

    fn apply(self, target: &mut MultiValues) -> (r: ValueResult<()>) {
        target.set_int128s_slice(self.as_slice())
    }
}

impl MultiValuesAddArgSealed for i128 {}

impl<'a> MultiValuesAddArg<'a> for i128 {
    type Item = i128;

    open spec fn apply_add_ensures(self, before: MultiValues, after: MultiValues, r: ValueResult<()>) -> bool {
        (r, after@) == before@.append_int128s(seq![self])
    }

    fn apply_add(self, target: &mut MultiValues) -> (r: ValueResult<()>) {
        target.add_int128(self)
    }
}

impl MultiValuesAddArgSealed for Vec<i128> {}

impl<'a> MultiValuesAddArg<'a> for Vec<i128> {
    type Item = i128;

    open spec fn apply_add_ensures(self, before: MultiValues, after: MultiValues, r: ValueResult<()>) -> bool {
        (r, after@) == before@.append_int128s(self@)
    }

    fn apply_add(self, target: &mut MultiValues) -> (r: ValueResult<()>) {
        target.add_int128s(self)
    }
}

impl<'a> MultiValuesAddArgSealed for &'a [i128] {}

impl<'a> MultiValuesAddArg<'a> for &'a [i128] {
    type Item = i128;

    open spec fn apply_add_ensures(self, before: MultiValues, after: MultiValues, r: ValueResult<()>) -> bool {
        (r, after@) == before@.append_int128s(self@)
    }

    fn apply_add(self, target: &mut MultiValues) -> (r: ValueResult<()>) {
        target.add_int128s_slice(self)
    }
}

impl<'a> MultiValuesAddArgSealed for &'a Vec<i128> {}

impl<'a> MultiValuesAddArg<'a> for &'a Vec<i128> {
    type Item = i128;

    open spec fn apply_add_ensures(self, before: MultiValues, after: MultiValues, r: ValueResult<()>) -> bool {
        (r, after@) == before@.append_int128s(self@)
    }

    fn apply_add(self, target: &mut MultiValues) -> (r: ValueResult<()>) {
        target.add_int128s_slice(self.as_slice())
    }
}

impl MultiValuesConstructorArgSealed for Vec<i128> {}

impl<'a> MultiValuesConstructorArg<'a> for Vec<i128> {
    open spec fn into_multi_values_ensures(self, r: MultiValues) -> bool {
        r@ == MultiValuesView::Int128(self@)
    }

    fn into_multi_values(self) -> (r: MultiValues) {
        MultiValues::Int128(self)
    }
}

impl<'a> MultiValuesConstructorArgSealed for &'a [i128] {}

impl<'a> MultiValuesConstructorArg<'a> for &'a [i128] {
    open spec fn into_multi_values_ensures(self, r: MultiValues) -> bool {
        r@ == MultiValuesView::Int128(self@)
    }

    fn into_multi_values(self) -> (r: MultiValues) {
        MultiValues::Int128(clone_items(self))
    }
}

impl<'a> MultiValuesConstructorArgSealed for &'a Vec<i128> {}

impl<'a> MultiValuesConstructorArg<'a> for &'a Vec<i128> {
    open spec fn into_multi_values_ensures(self, r: MultiValues) -> bool {
        r@ == MultiValuesView::Int128(self@)
    }

    fn into_multi_values(self) -> (r: MultiValues) {
        MultiValues::Int128(clone_items(self.as_slice()))
    }
}

impl<const N: usize> MultiValuesSetArgSealed for [i128; N] {}

impl<'a, const N: usize> MultiValuesSetArg<'a> for [i128; N] {
    type Item = i128;

    open spec fn apply_ensures(self, before: MultiValues, after: MultiValues, r: ValueResult<()>) -> bool {
        r == Ok::<(), ValueError>(()) && after@ == MultiValuesView::Int128(self@)
    }

    fn apply(self, target: &mut MultiValues) -> (r: ValueResult<()>) {
        broadcast use vstd::array::group_array_axioms;
        target.set_int128s_slice(array_as_slice(&self))
    }
}

impl<'a, const N: usize> MultiValuesSetArgSealed for &'a [i128; N] {}

impl<'a, const N: usize> MultiValuesSetArg<'a> for &'a [i128; N] {
    type Item = i128;

    open spec fn apply_ensures(self, before: MultiValues, after: MultiValues, r: ValueResult<()>) -> bool {
        r == Ok::<(), ValueError>(()) && after@ == MultiValuesView::Int128(self@)
    }

    fn apply(self, target: &mut MultiValues) -> (r: ValueResult<()>) {
        broadcast use vstd::array::group_array_axioms;
        target.set_int128s_slice(array_as_slice(self))
    }
}

impl<const N: usize> MultiValuesAddArgSealed for [i128; N] {}

impl<'a, const N: usize> MultiValuesAddArg<'a> for [i128; N] {
    type Item = i128;

    open spec fn apply_add_ensures(self, before: MultiValues, after: MultiValues, r: ValueResult<()>) -> bool {
        (r, after@) == before@.append_int128s(self@)
    }

    fn apply_add(self, target: &mut MultiValues) -> (r: ValueResult<()>) {
        broadcast use vstd::array::group_array_axioms;
        target.add_int128s_slice(array_as_slice(&self))
    }
}

impl<'a, const N: usize> MultiValuesAddArgSealed for &'a [i128; N] {}

impl<'a, const N: usize> MultiValuesAddArg<'a> for &'a [i128; N] {
    type Item = i128;

    open spec fn apply_add_ensures(self, before: MultiValues, after: MultiValues, r: ValueResult<()>) -> bool {
        (r, after@) == before@.append_int128s(self@)
    }

    fn apply_add(self, target: &mut MultiValues) -> (r: ValueResult<()>) {
        broadcast use vstd::array::group_array_axioms;
        target.add_int128s_slice(array_as_slice(self))
    }
}

impl<const N: usize> MultiValuesConstructorArgSealed for [i128; N] {}

impl<'a, const N: usize> MultiValuesConstructorArg<'a> for [i128; N] {
    open spec fn into_multi_values_ensures(self, r: MultiValues) -> bool {
        r@ == MultiValuesView::Int128(self@)
    }

    fn into_multi_values(self) -> (r: MultiValues) {
        broadcast use vstd::array::group_array_axioms;
        MultiValues::Int128(clone_items(array_as_slice(&self)))
    }
}

impl<'a, const N: usize> MultiValuesConstructorArgSealed for &'a [i128; N] {}

impl<'a, const N: usize> MultiValuesConstructorArg<'a> for &'a [i128; N] {
    open spec fn into_multi_values_ensures(self, r: MultiValues) -> bool {
        r@ == MultiValuesView::Int128(self@)
    }

    fn into_multi_values(self) -> (r: MultiValues) {
        broadcast use vstd::array::group_array_axioms;
        MultiValues::Int128(clone_items(array_as_slice(self)))
    }
}

// ---------------------------------------------------------------------------
// u8
// ---------------------------------------------------------------------------

impl MultiValuesGetterSealed<u8> for MultiValues {}

impl MultiValuesGetter<u8> for MultiValues {
    open spec fn get_values_ensures(&self, r: ValueResult<Vec<u8>>) -> bool {
        ok_view(r) == self@.typed_items(DataType::UInt8, self@.as_uint8s())
    }

    fn get_values(&self) -> (r: ValueResult<Vec<u8>>) {
        match self.get_uint8s() {
            Ok(s) => Ok(clone_items(s)),
            Err(e) => Err(e),
        }
    }
}

impl MultiValuesFirstGetterSealed<u8> for MultiValues {}

impl MultiValuesFirstGetter<u8> for MultiValues {
    open spec fn get_first_value_ensures(&self, r: ValueResult<u8>) -> bool {
        r == self@.typed_first(DataType::UInt8, self@.as_uint8s())
    }

    fn get_first_value(&self) -> (r: ValueResult<u8>) {
        self.get_first_uint8()
    }
}

impl MultiValuesSetterSealed<u8> for MultiValues {}

impl MultiValuesSetter<u8> for MultiValues {
    open spec fn set_values_ensures(before: Self, after: Self, values: Vec<u8>, r: ValueResult<()>) -> bool {
        r == Ok::<(), ValueError>(()) && after@ == MultiValuesView::UInt8(values@)
    }

    fn set_values(&mut self, values: Vec<u8>) -> (r: ValueResult<()>) {
        self.set_uint8s(values)
    }
}

impl MultiValuesSetterSliceSealed<u8> for MultiValues {}

impl MultiValuesSetterSlice<u8> for MultiValues {
    open spec fn set_values_slice_ensures(before: Self, after: Self, values: Seq<u8>, r: ValueResult<()>) -> bool {
        r == Ok::<(), ValueError>(()) && after@ == MultiValuesView::UInt8(values)
    }

    fn set_values_slice(&mut self, values: &[u8]) -> (r: ValueResult<()>) {
        self.set_uint8s_slice(values)
    }
}

impl MultiValuesSingleSetterSealed<u8> for MultiValues {}

impl MultiValuesSingleSetter<u8> for MultiValues {
    open spec fn set_single_value_ensures(before: Self, after: Self, value: u8, r: ValueResult<()>) -> bool {
        r == Ok::<(), ValueError>(()) && after@ == MultiValuesView::UInt8(seq![value])
    }

    fn set_single_value(&mut self, value: u8) -> (r: ValueResult<()>) {
        self.set_uint8(value)
    }
}

impl MultiValuesAdderSealed<u8> for MultiValues {}

impl MultiValuesAdder<u8> for MultiValues {
    open spec fn add_value_ensures(before: Self, after: Self, value: u8, r: ValueResult<()>) -> bool {
        (r, after@) == before@.append_uint8s(seq![value])
    }

    fn add_value(&mut self, value: u8) -> (r: ValueResult<()>) {
        self.add_uint8(value)
    }
}

impl MultiValuesMultiAdderSealed<u8> for MultiValues {}

impl MultiValuesMultiAdder<u8> for MultiValues {
    open spec fn add_values_ensures(before: Self, after: Self, values: Vec<u8>, r: ValueResult<()>) -> bool {
        (r, after@) == before@.append_uint8s(values@)
    }

    fn add_values(&mut self, values: Vec<u8>) -> (r: ValueResult<()>) {
        self.add_uint8s(values)
    }
}

impl MultiValuesConstructorSealed<u8> for MultiValues {}

impl MultiValuesConstructor<u8> for MultiValues {
    open spec fn from_vec_ensures(values: Vec<u8>, r: Self) -> bool {
        r@ == MultiValuesView::UInt8(values@)
    }

    fn from_vec(values: Vec<u8>) -> (r: Self) {
        MultiValues::UInt8(values)
    }
}

impl MultiValuesSetArgSealed for u8 {}

impl<'a> MultiValuesSetArg<'a> for u8 {
    type Item = u8;

    open spec fn apply_ensures(self, before: MultiValues, after: MultiValues, r: ValueResult<()>) -> bool {
        r == Ok::<(), ValueError>(()) && after@ == MultiValuesView::UInt8(seq![self])
    }

    fn apply(self, target: &mut MultiValues) -> (r: ValueResult<()>) {
        target.set_uint8(self)
    }
}

impl MultiValuesSetArgSealed for Vec<u8> {}

impl<'a> MultiValuesSetArg<'a> for Vec<u8> {
    type Item = u8;

    open spec fn apply_ensures(self, before: MultiValues, after: MultiValues, r: ValueResult<()>) -> bool {
        r == Ok::<(), ValueError>(()) && after@ == MultiValuesView::UInt8(self@)
    }

    fn apply(self, target: &mut MultiValues) -> (r: ValueResult<()>) {
        target.set_uint8s(self)
    }
}

impl<'a> MultiValuesSetArgSealed for &'a [u8] {}

impl<'a> MultiValuesSetArg<'a> for &'a [u8] {
    type Item = u8;

    open spec fn apply_ensures(self, before: MultiValues, after: MultiValues, r: ValueResult<()>) -> bool {
        r == Ok::<(), ValueError>(()) && after@ == MultiValuesView::UInt8(self@)
    }

    fn apply(self, target: &mut MultiValues) -> (r: ValueResult<()>) {
        target.set_uint8s_slice(self)
    }
}

impl<'a> MultiValuesSetArgSealed for &'a Vec<u8> {}

impl<'a> MultiValuesSetArg<'a> for &'a Vec<u8> {
    type Item = u8;

    open spec fn apply_ensures(self, before: MultiValues, after: MultiValues, r: ValueResult<()>) -> bool {
        r == Ok::<(), ValueError>(()) && after@ == MultiValuesView::UInt8(self@)
    }

    fn apply(self, target: &mut MultiValues) -> (r: ValueResult<()>) {
        target.set_uint8s_slice(self.as_slice())
    }
}

impl MultiValuesAddArgSealed for u8 {}

impl<'a> MultiValuesAddArg<'a> for u8 {
    type Item = u8;

    open spec fn apply_add_ensures(self, before: MultiValues, after: MultiValues, r: ValueResult<()>) -> bool {
        (r, after@) == before@.append_uint8s(seq![self])
    }

    fn apply_add(self, target: &mut MultiValues) -> (r: ValueResult<()>) {
        target.add_uint8(self)
    }
}

impl MultiValuesAddArgSealed for Vec<u8> {}

impl<'a> MultiValuesAddArg<'a> for Vec<u8> {
    type Item = u8;

    open spec fn apply_add_ensures(self, before: MultiValues, after: MultiValues, r: ValueResult<()>) -> bool {
        (r, after@) == before@.append_uint8s(self@)
    }

    fn apply_add(self, target: &mut MultiValues) -> (r: ValueResult<()>) {
        target.add_uint8s(self)
    }
}

impl<'a> MultiValuesAddArgSealed for &'a [u8] {}

impl<'a> MultiValuesAddArg<'a> for &'a [u8] {
    type Item = u8;

    open spec fn apply_add_ensures(self, before: MultiValues, after: MultiValues, r: ValueResult<()>) -> bool {
        (r, after@) == before@.append_uint8s(self@)
    }

    fn apply_add(self, target: &mut MultiValues) -> (r: ValueResult<()>) {
        target.add_uint8s_slice(self)
    }
}

impl<'a> MultiValuesAddArgSealed for &'a Vec<u8> {}

impl<'a> MultiValuesAddArg<'a> for &'a Vec<u8> {
    type Item = u8;

    open spec fn apply_add_ensures(self, before: MultiValues, after: MultiValues, r: ValueResult<()>) -> bool {
        (r, after@) == before@.append_uint8s(self@)
    }

    fn apply_add(self, target: &mut MultiValues) -> (r: ValueResult<()>) {
        target.add_uint8s_slice(self.as_slice())
    }
}

impl MultiValuesConstructorArgSealed for Vec<u8> {}

impl<'a> MultiValuesConstructorArg<'a> for Vec<u8> {
    open spec fn into_multi_values_ensures(self, r: MultiValues) -> bool {
        r@ == MultiValuesView::UInt8(self@)
    }

    fn into_multi_values(self) -> (r: MultiValues) {
        MultiValues::UInt8(self)
    }
}

impl<'a> MultiValuesConstructorArgSealed for &'a [u8] {}

impl<'a> MultiValuesConstructorArg<'a> for &'a [u8] {
    open spec fn into_multi_values_ensures(self, r: MultiValues) -> bool {
        r@ == MultiValuesView::UInt8(self@)
    }

    fn into_multi_values(self) -> (r: MultiValues) {
        MultiValues::UInt8(clone_items(self))
    }
}

impl<'a> MultiValuesConstructorArgSealed for &'a Vec<u8> {}

impl<'a> MultiValuesConstructorArg<'a> for &'a Vec<u8> {
    open spec fn into_multi_values_ensures(self, r: MultiValues) -> bool {
        r@ == MultiValuesView::UInt8(self@)
    }

    fn into_multi_values(self) -> (r: MultiValues) {
        MultiValues::UInt8(clone_items(self.as_slice()))
    }
}

impl<const N: usize> MultiValuesSetArgSealed for [u8; N] {}

impl<'a, const N: usize> MultiValuesSetArg<'a> for [u8; N] {
    type Item = u8;

    open spec fn apply_ensures(self, before: MultiValues, after: MultiValues, r: ValueResult<()>) -> bool {
        r == Ok::<(), ValueError>(()) && after@ == MultiValuesView::UInt8(self@)
    }

    fn apply(self, target: &mut MultiValues) -> (r: ValueResult<()>) {
        broadcast use vstd::array::group_array_axioms;
        target.set_uint8s_slice(array_as_slice(&self))
    }
}

impl<'a, const N: usize> MultiValuesSetArgSealed for &'a [u8; N] {}

impl<'a, const N: usize> MultiValuesSetArg<'a> for &'a [u8; N] {
    type Item = u8;

    open spec fn apply_ensures(self, before: MultiValues, after: MultiValues, r: ValueResult<()>) -> bool {
        r == Ok::<(), ValueError>(()) && after@ == MultiValuesView::UInt8(self@)
    }

    fn apply(self, target: &mut MultiValues) -> (r: ValueResult<()>) {
        broadcast use vstd::array::group_array_axioms;
        target.set_uint8s_slice(array_as_slice(self))
    }
}

impl<const N: usize> MultiValuesAddArgSealed for [u8; N] {}

impl<'a, const N: usize> MultiValuesAddArg<'a> for [u8; N] {
    type Item = u8;

    open spec fn apply_add_ensures(self, before: MultiValues, after: MultiValues, r: ValueResult<()>) -> bool {
        (r, after@) == before@.append_uint8s(self@)
    }

    fn apply_add(self, target: &mut MultiValues) -> (r: ValueResult<()>) {
        broadcast use vstd::array::group_array_axioms;
        target.add_uint8s_slice(array_as_slice(&self))
    }
}

impl<'a, const N: usize> MultiValuesAddArgSealed for &'a [u8; N] {}

impl<'a, const N: usize> MultiValuesAddArg<'a> for &'a [u8; N] {
    type Item = u8;

    open spec fn apply_add_ensures(self, before: MultiValues, after: MultiValues, r: ValueResult<()>) -> bool {
        (r, after@) == before@.append_uint8s(self@)
    }

    fn apply_add(self, target: &mut MultiValues) -> (r: ValueResult<()>) {
        broadcast use vstd::array::group_array_axioms;
        target.add_uint8s_slice(array_as_slice(self))
    }
}

impl<const N: usize> MultiValuesConstructorArgSealed for [u8; N] {}

impl<'a, const N: usize> MultiValuesConstructorArg<'a> for [u8; N] {
    open spec fn into_multi_values_ensures(self, r: MultiValues) -> bool {
        r@ == MultiValuesView::UInt8(self@)
    }

    fn into_multi_values(self) -> (r: MultiValues) {
        broadcast use vstd::array::group_array_axioms;
        MultiValues::UInt8(clone_items(array_as_slice(&self)))
    }
}

impl<'a, const N: usize> MultiValuesConstructorArgSealed for &'a [u8; N] {}

impl<'a, const N: usize> MultiValuesConstructorArg<'a> for &'a [u8; N] {
    open spec fn into_multi_values_ensures(self, r: MultiValues) -> bool {
        r@ == MultiValuesView::UInt8(self@)
    }

    fn into_multi_values(self) -> (r: MultiValues) {
        broadcast use vstd::array::group_array_axioms;
        MultiValues::UInt8(clone_items(array_as_slice(self)))
    }
}

// ---------------------------------------------------------------------------
// u16
// ---------------------------------------------------------------------------

impl MultiValuesGetterSealed<u16> for MultiValues {}

impl MultiValuesGetter<u16> for MultiValues {
    open spec fn get_values_ensures(&self, r: ValueResult<Vec<u16>>) -> bool {
        ok_view(r) == self@.typed_items(DataType::UInt16, self@.as_uint16s())
    }

    fn get_values(&self) -> (r: ValueResult<Vec<u16>>) {
        match self.get_uint16s() {
            Ok(s) => Ok(clone_items(s)),
            Err(e) => Err(e),
        }
    }
}

impl MultiValuesFirstGetterSealed<u16> for MultiValues {}

impl MultiValuesFirstGetter<u16> for MultiValues {
    open spec fn get_first_value_ensures(&self, r: ValueResult<u16>) -> bool {
        r == self@.typed_first(DataType::UInt16, self@.as_uint16s())
    }

    fn get_first_value(&self) -> (r: ValueResult<u16>) {
        self.get_first_uint16()
    }
}

impl MultiValuesSetterSealed<u16> for MultiValues {}

impl MultiValuesSetter<u16> for MultiValues {
    open spec fn set_values_ensures(before: Self, after: Self, values: Vec<u16>, r: ValueResult<()>) -> bool {
        r == Ok::<(), ValueError>(()) && after@ == MultiValuesView::UInt16(values@)
    }

    fn set_values(&mut self, values: Vec<u16>) -> (r: ValueResult<()>) {
        self.set_uint16s(values)
    }
}

impl MultiValuesSetterSliceSealed<u16> for MultiValues {}

impl MultiValuesSetterSlice<u16> for MultiValues {
    open spec fn set_values_slice_ensures(before: Self, after: Self, values: Seq<u16>, r: ValueResult<()>) -> bool {
        r == Ok::<(), ValueError>(()) && after@ == MultiValuesView::UInt16(values)
    }

    fn set_values_slice(&mut self, values: &[u16]) -> (r: ValueResult<()>) {
        self.set_uint16s_slice(values)
    }
}

impl MultiValuesSingleSetterSealed<u16> for MultiValues {}

impl MultiValuesSingleSetter<u16> for MultiValues {
    open spec fn set_single_value_ensures(before: Self, after: Self, value: u16, r: ValueResult<()>) -> bool {
        r == Ok::<(), ValueError>(()) && after@ == MultiValuesView::UInt16(seq![value])
    }

    fn set_single_value(&mut self, value: u16) -> (r: ValueResult<()>) {
        self.set_uint16(value)
    }
}

impl MultiValuesAdderSealed<u16> for MultiValues {}

impl MultiValuesAdder<u16> for MultiValues {
    open spec fn add_value_ensures(before: Self, after: Self, value: u16, r: ValueResult<()>) -> bool {
        (r, after@) == before@.append_uint16s(seq![value])
    }

    fn add_value(&mut self, value: u16) -> (r: ValueResult<()>) {
        self.add_uint16(value)
    }
}

impl MultiValuesMultiAdderSealed<u16> for MultiValues {}

impl MultiValuesMultiAdder<u16> for MultiValues {
    open spec fn add_values_ensures(before: Self, after: Self, values: Vec<u16>, r: ValueResult<()>) -> bool {
        (r, after@) == before@.append_uint16s(values@)
    }

    fn add_values(&mut self, values: Vec<u16>) -> (r: ValueResult<()>) {
        self.add_uint16s(values)
    }
}

impl MultiValuesConstructorSealed<u16> for MultiValues {}

impl MultiValuesConstructor<u16> for MultiValues {
    open spec fn from_vec_ensures(values: Vec<u16>, r: Self) -> bool {
        r@ == MultiValuesView::UInt16(values@)
    }

    fn from_vec(values: Vec<u16>) -> (r: Self) {
        MultiValues::UInt16(values)
    }
}

impl MultiValuesSetArgSealed for u16 {}

impl<'a> MultiValuesSetArg<'a> for u16 {
    type Item = u16;

    open spec fn apply_ensures(self, before: MultiValues, after: MultiValues, r: ValueResult<()>) -> bool {
        r == Ok::<(), ValueError>(()) && after@ == MultiValuesView::UInt16(seq![self])
    }

    fn apply(self, target: &mut MultiValues) -> (r: ValueResult<()>) {
        target.set_uint16(self)
    }
}

impl MultiValuesSetArgSealed for Vec<u16> {}

impl<'a> MultiValuesSetArg<'a> for Vec<u16> {
    type Item = u16;

    open spec fn apply_ensures(self, before: MultiValues, after: MultiValues, r: ValueResult<()>) -> bool {
        r == Ok::<(), ValueError>(()) && after@ == MultiValuesView::UInt16(self@)
    }

    fn apply(self, target: &mut MultiValues) -> (r: ValueResult<()>) {
        target.set_uint16s(self)
    }
}

impl<'a> MultiValuesSetArgSealed for &'a [u16] {}

impl<'a> MultiValuesSetArg<'a> for &'a [u16] {
    type Item = u16;

    open spec fn apply_ensures(self, before: MultiValues, after: MultiValues, r: ValueResult<()>) -> bool {
        r == Ok::<(), ValueError>(()) && after@ == MultiValuesView::UInt16(self@)
    }

    fn apply(self, target: &mut MultiValues) -> (r: ValueResult<()>) {
        target.set_uint16s_slice(self)
    }
}

impl<'a> MultiValuesSetArgSealed for &'a Vec<u16> {}

impl<'a> MultiValuesSetArg<'a> for &'a Vec<u16> {
    type Item = u16;

    open spec fn apply_ensures(self, before: MultiValues, after: MultiValues, r: ValueResult<()>) -> bool {
        r == Ok::<(), ValueError>(()) && after@ == MultiValuesView::UInt16(self@)
    }

    fn apply(self, target: &mut MultiValues) -> (r: ValueResult<()>) {
        target.set_uint16s_slice(self.as_slice())
    }
}

impl MultiValuesAddArgSealed for u16 {}

impl<'a> MultiValuesAddArg<'a> for u16 {
    type Item = u16;

    open spec fn apply_add_ensures(self, before: MultiValues, after: MultiValues, r: ValueResult<()>) -> bool {
        (r, after@) == before@.append_uint16s(seq![self])
    }

    fn apply_add(self, target: &mut MultiValues) -> (r: ValueResult<()>) {
        target.add_uint16(self)
    }
}

impl MultiValuesAddArgSealed for Vec<u16> {}

impl<'a> MultiValuesAddArg<'a> for Vec<u16> {
    type Item = u16;

    open spec fn apply_add_ensures(self, before: MultiValues, after: MultiValues, r: ValueResult<()>) -> bool {
        (r, after@) == before@.append_uint16s(self@)
    }

    fn apply_add(self, target: &mut MultiValues) -> (r: ValueResult<()>) {
        target.add_uint16s(self)
    }
}

impl<'a> MultiValuesAddArgSealed for &'a [u16] {}

impl<'a> MultiValuesAddArg<'a> for &'a [u16] {
    type Item = u16;

    open spec fn apply_add_ensures(self, before: MultiValues, after: MultiValues, r: ValueResult<()>) -> bool {
        (r, after@) == before@.append_uint16s(self@)
    }

    fn apply_add(self, target: &mut MultiValues) -> (r: ValueResult<()>) {
        target.add_uint16s_slice(self)
    }
}

impl<'a> MultiValuesAddArgSealed for &'a Vec<u16> {}

impl<'a> MultiValuesAddArg<'a> for &'a Vec<u16> {
    type Item = u16;

    open spec fn apply_add_ensures(self, before: MultiValues, after: MultiValues, r: ValueResult<()>) -> bool {
        (r, after@) == before@.append_uint16s(self@)
    }

    fn apply_add(self, target: &mut MultiValues) -> (r: ValueResult<()>) {
        target.add_uint16s_slice(self.as_slice())
    }
}

impl MultiValuesConstructorArgSealed for Vec<u16> {}

impl<'a> MultiValuesConstructorArg<'a> for Vec<u16> {
    open spec fn into_multi_values_ensures(self, r: MultiValues) -> bool {
        r@ == MultiValuesView::UInt16(self@)
    }

    fn into_multi_values(self) -> (r: MultiValues) {
        MultiValues::UInt16(self)
    }
}

impl<'a> MultiValuesConstructorArgSealed for &'a [u16] {}

impl<'a> MultiValuesConstructorArg<'a> for &'a [u16] {
    open spec fn into_multi_values_ensures(self, r: MultiValues) -> bool {
        r@ == MultiValuesView::UInt16(self@)
    }

    fn into_multi_values(self) -> (r: MultiValues) {
        MultiValues::UInt16(clone_items(self))
    }
}

impl<'a> MultiValuesConstructorArgSealed for &'a Vec<u16> {}

impl<'a> MultiValuesConstructorArg<'a> for &'a Vec<u16> {
    open spec fn into_multi_values_ensures(self, r: MultiValues) -> bool {
        r@ == MultiValuesView::UInt16(self@)
    }

    fn into_multi_values(self) -> (r: MultiValues) {
        MultiValues::UInt16(clone_items(self.as_slice()))
    }
}

impl<const N: usize> MultiValuesSetArgSealed for [u16; N] {}

impl<'a, const N: usize> MultiValuesSetArg<'a> for [u16; N] {
    type Item = u16;

    open spec fn apply_ensures(self, before: MultiValues, after: MultiValues, r: ValueResult<()>) -> bool {
        r == Ok::<(), ValueError>(()) && after@ == MultiValuesView::UInt16(self@)
    }

    fn apply(self, target: &mut MultiValues) -> (r: ValueResult<()>) {
        broadcast use vstd::array::group_array_axioms;
        target.set_uint16s_slice(array_as_slice(&self))
    }
}

impl<'a, const N: usize> MultiValuesSetArgSealed for &'a [u16; N] {}

impl<'a, const N: usize> MultiValuesSetArg<'a> for &'a [u16; N] {
    type Item = u16;

    open spec fn apply_ensures(self, before: MultiValues, after: MultiValues, r: ValueResult<()>) -> bool {
        r == Ok::<(), ValueError>(()) && after@ == MultiValuesView::UInt16(self@)
    }

    fn apply(self, target: &mut MultiValues) -> (r: ValueResult<()>) {
        broadcast use vstd::array::group_array_axioms;
        target.set_uint16s_slice(array_as_slice(self))
    }
}

impl<const N: usize> MultiValuesAddArgSealed for [u16; N] {}

impl<'a, const N: usize> MultiValuesAddArg<'a> for [u16; N] {
    type Item = u16;

    open spec fn apply_add_ensures(self, before: MultiValues, after: MultiValues, r: ValueResult<()>) -> bool {
        (r, after@) == before@.append_uint16s(self@)
    }

    fn apply_add(self, target: &mut MultiValues) -> (r: ValueResult<()>) {
        broadcast use vstd::array::group_array_axioms;
        target.add_uint16s_slice(array_as_slice(&self))
    }
}

impl<'a, const N: usize> MultiValuesAddArgSealed for &'a [u16; N] {}

impl<'a, const N: usize> MultiValuesAddArg<'a> for &'a [u16; N] {
    type Item = u16;

    open spec fn apply_add_ensures(self, before: MultiValues, after: MultiValues, r: ValueResult<()>) -> bool {
        (r, after@) == before@.append_uint16s(self@)
    }

    fn apply_add(self, target: &mut MultiValues) -> (r: ValueResult<()>) {
        broadcast use vstd::array::group_array_axioms;
        target.add_uint16s_slice(array_as_slice(self))
    }
}

impl<const N: usize> MultiValuesConstructorArgSealed for [u16; N] {}

impl<'a, const N: usize> MultiValuesConstructorArg<'a> for [u16; N] {
    open spec fn into_multi_values_ensures(self, r: MultiValues) -> bool {
        r@ == MultiValuesView::UInt16(self@)
    }

    fn into_multi_values(self) -> (r: MultiValues) {
        broadcast use vstd::array::group_array_axioms;
        MultiValues::UInt16(clone_items(array_as_slice(&self)))
    }
}

impl<'a, const N: usize> MultiValuesConstructorArgSealed for &'a [u16; N] {}

impl<'a, const N: usize> MultiValuesConstructorArg<'a> for &'a [u16; N] {
    open spec fn into_multi_values_ensures(self, r: MultiValues) -> bool {
        r@ == MultiValuesView::UInt16(self@)
    }

    fn into_multi_values(self) -> (r: MultiValues) {
        broadcast use vstd::array::group_array_axioms;
        MultiValues::UInt16(clone_items(array_as_slice(self)))
    }
}

// ---------------------------------------------------------------------------
// u32
// ---------------------------------------------------------------------------

impl MultiValuesGetterSealed<u32> for MultiValues {}

impl MultiValuesGetter<u32> for MultiValues {
    open spec fn get_values_ensures(&self, r: ValueResult<Vec<u32>>) -> bool {
        ok_view(r) == self@.typed_items(DataType::UInt32, self@.as_uint32s())
    }

    fn get_values(&self) -> (r: ValueResult<Vec<u32>>) {
        match self.get_uint32s() {
            Ok(s) => Ok(clone_items(s)),
            Err(e) => Err(e),
        }
    }
}

impl MultiValuesFirstGetterSealed<u32> for MultiValues {}

impl MultiValuesFirstGetter<u32> for MultiValues {
    open spec fn get_first_value_ensures(&self, r: ValueResult<u32>) -> bool {
        r == self@.typed_first(DataType::UInt32, self@.as_uint32s())
    }

    fn get_first_value(&self) -> (r: ValueResult<u32>) {
        self.get_first_uint32()
    }
}

impl MultiValuesSetterSealed<u32> for MultiValues {}

impl MultiValuesSetter<u32> for MultiValues {
    open spec fn set_values_ensures(before: Self, after: Self, values: Vec<u32>, r: ValueResult<()>) -> bool {
        r == Ok::<(), ValueError>(()) && after@ == MultiValuesView::UInt32(values@)
    }

    fn set_values(&mut self, values: Vec<u32>) -> (r: ValueResult<()>) {
        self.set_uint32s(values)
    }
}

impl MultiValuesSetterSliceSealed<u32> for MultiValues {}

impl MultiValuesSetterSlice<u32> for MultiValues {
    open spec fn set_values_slice_ensures(before: Self, after: Self, values: Seq<u32>, r: ValueResult<()>) -> bool {
        r == Ok::<(), ValueError>(()) && after@ == MultiValuesView::UInt32(values)
    }

    fn set_values_slice(&mut self, values: &[u32]) -> (r: ValueResult<()>) {
        self.set_uint32s_slice(values)
    }
}

impl MultiValuesSingleSetterSealed<u32> for MultiValues {}

impl MultiValuesSingleSetter<u32> for MultiValues {
    open spec fn set_single_value_ensures(before: Self, after: Self, value: u32, r: ValueResult<()>) -> bool {
        r == Ok::<(), ValueError>(()) && after@ == MultiValuesView::UInt32(seq![value])
    }

    fn set_single_value(&mut self, value: u32) -> (r: ValueResult<()>) {
        self.set_uint32(value)
    }
}

impl MultiValuesAdderSealed<u32> for MultiValues {}

impl MultiValuesAdder<u32> for MultiValues {
    open spec fn add_value_ensures(before: Self, after: Self, value: u32, r: ValueResult<()>) -> bool {
        (r, after@) == before@.append_uint32s(seq![value])
    }

    fn add_value(&mut self, value: u32) -> (r: ValueResult<()>) {
        self.add_uint32(value)
    }
}

impl MultiValuesMultiAdderSealed<u32> for MultiValues {}

impl MultiValuesMultiAdder<u32> for MultiValues {
    open spec fn add_values_ensures(before: Self, after: Self, values: Vec<u32>, r: ValueResult<()>) -> bool {
        (r, after@) == before@.append_uint32s(values@)
    }

    fn add_values(&mut self, values: Vec<u32>) -> (r: ValueResult<()>) {
        self.add_uint32s(values)
    }
}

impl MultiValuesConstructorSealed<u32> for MultiValues {}

impl MultiValuesConstructor<u32> for MultiValues {
    open spec fn from_vec_ensures(values: Vec<u32>, r: Self) -> bool {
        r@ == MultiValuesView::UInt32(values@)
    }

    fn from_vec(values: Vec<u32>) -> (r: Self) {
        MultiValues::UInt32(values)
    }
}

impl MultiValuesSetArgSealed for u32 {}

impl<'a> MultiValuesSetArg<'a> for u32 {
    type Item = u32;

    open spec fn apply_ensures(self, before: MultiValues, after: MultiValues, r: ValueResult<()>) -> bool {
        r == Ok::<(), ValueError>(()) && after@ == MultiValuesView::UInt32(seq![self])
    }

    fn apply(self, target: &mut MultiValues) -> (r: ValueResult<()>) {
        target.set_uint32(self)
    }
}

impl MultiValuesSetArgSealed for Vec<u32> {}

impl<'a> MultiValuesSetArg<'a> for Vec<u32> {
    type Item = u32;

    open spec fn apply_ensures(self, before: MultiValues, after: MultiValues, r: ValueResult<()>) -> bool {
        r == Ok::<(), ValueError>(()) && after@ == MultiValuesView::UInt32(self@)
    }

    fn apply(self, target: &mut MultiValues) -> (r: ValueResult<()>) {
        target.set_uint32s(self)
    }
}

impl<'a> MultiValuesSetArgSealed for &'a [u32] {}

impl<'a> MultiValuesSetArg<'a> for &'a [u32] {
    type Item = u32;

    open spec fn apply_ensures(self, before: MultiValues, after: MultiValues, r: ValueResult<()>) -> bool {
        r == Ok::<(), ValueError>(()) && after@ == MultiValuesView::UInt32(self@)
    }

    fn apply(self, target: &mut MultiValues) -> (r: ValueResult<()>) {
        target.set_uint32s_slice(self)
    }
}

impl<'a> MultiValuesSetArgSealed for &'a Vec<u32> {}

impl<'a> MultiValuesSetArg<'a> for &'a Vec<u32> {
    type Item = u32;

    open spec fn apply_ensures(self, before: MultiValues, after: MultiValues, r: ValueResult<()>) -> bool {
        r == Ok::<(), ValueError>(()) && after@ == MultiValuesView::UInt32(self@)
    }

    fn apply(self, target: &mut MultiValues) -> (r: ValueResult<()>) {
        target.set_uint32s_slice(self.as_slice())
    }
}

impl MultiValuesAddArgSealed for u32 {}

impl<'a> MultiValuesAddArg<'a> for u32 {
    type Item = u32;

    open spec fn apply_add_ensures(self, before: MultiValues, after: MultiValues, r: ValueResult<()>) -> bool {
        (r, after@) == before@.append_uint32s(seq![self])
    }

    fn apply_add(self, target: &mut MultiValues) -> (r: ValueResult<()>) {
        target.add_uint32(self)
    }
}

impl MultiValuesAddArgSealed for Vec<u32> {}

impl<'a> MultiValuesAddArg<'a> for Vec<u32> {
    type Item = u32;

    open spec fn apply_add_ensures(self, before: MultiValues, after: MultiValues, r: ValueResult<()>) -> bool {
        (r, after@) == before@.append_uint32s(self@)
    }

    fn apply_add(self, target: &mut MultiValues) -> (r: ValueResult<()>) {
        target.add_uint32s(self)
    }
}

impl<'a> MultiValuesAddArgSealed for &'a [u32] {}

impl<'a> MultiValuesAddArg<'a> for &'a [u32] {
    type Item = u32;

    open spec fn apply_add_ensures(self, before: MultiValues, after: MultiValues, r: ValueResult<()>) -> bool {
        (r, after@) == before@.append_uint32s(self@)
    }

    fn apply_add(self, target: &mut MultiValues) -> (r: ValueResult<()>) {
        target.add_uint32s_slice(self)
    }
}

impl<'a> MultiValuesAddArgSealed for &'a Vec<u32> {}

impl<'a> MultiValuesAddArg<'a> for &'a Vec<u32> {
    type Item = u32;

    open spec fn apply_add_ensures(self, before: MultiValues, after: MultiValues, r: ValueResult<()>) -> bool {
        (r, after@) == before@.append_uint32s(self@)
    }

    fn apply_add(self, target: &mut MultiValues) -> (r: ValueResult<()>) {
        target.add_uint32s_slice(self.as_slice())
    }
}

impl MultiValuesConstructorArgSealed for Vec<u32> {}

impl<'a> MultiValuesConstructorArg<'a> for Vec<u32> {
    open spec fn into_multi_values_ensures(self, r: MultiValues) -> bool {
        r@ == MultiValuesView::UInt32(self@)
    }

    fn into_multi_values(self) -> (r: MultiValues) {
        MultiValues::UInt32(self)
    }
}

impl<'a> MultiValuesConstructorArgSealed for &'a [u32] {}

impl<'a> MultiValuesConstructorArg<'a> for &'a [u32] {
    open spec fn into_multi_values_ensures(self, r: MultiValues) -> bool {
        r@ == MultiValuesView::UInt32(self@)
    }

    fn into_multi_values(self) -> (r: MultiValues) {
        MultiValues::UInt32(clone_items(self))
    }
}

impl<'a> MultiValuesConstructorArgSealed for &'a Vec<u32> {}

impl<'a> MultiValuesConstructorArg<'a> for &'a Vec<u32> {
    open spec fn into_multi_values_ensures(self, r: MultiValues) -> bool {
        r@ == MultiValuesView::UInt32(self@)
    }

    fn into_multi_values(self) -> (r: MultiValues) {
        MultiValues::UInt32(clone_items(self.as_slice()))
    }
}

impl<const N: usize> MultiValuesSetArgSealed for [u32; N] {}

impl<'a, const N: usize> MultiValuesSetArg<'a> for [u32; N] {
    type Item = u32;

    open spec fn apply_ensures(self, before: MultiValues, after: MultiValues, r: ValueResult<()>) -> bool {
        r == Ok::<(), ValueError>(()) && after@ == MultiValuesView::UInt32(self@)
    }

    fn apply(self, target: &mut MultiValues) -> (r: ValueResult<()>) {
        broadcast use vstd::array::group_array_axioms;
        target.set_uint32s_slice(array_as_slice(&self))
    }
}

impl<'a, const N: usize> MultiValuesSetArgSealed for &'a [u32; N] {}

impl<'a, const N: usize> MultiValuesSetArg<'a> for &'a [u32; N] {
    type Item = u32;

    open spec fn apply_ensures(self, before: MultiValues, after: MultiValues, r: ValueResult<()>) -> bool {
        r == Ok::<(), ValueError>(()) && after@ == MultiValuesView::UInt32(self@)
    }

    fn apply(self, target: &mut MultiValues) -> (r: ValueResult<()>) {
        broadcast use vstd::array::group_array_axioms;
        target.set_uint32s_slice(array_as_slice(self))
    }
}

impl<const N: usize> MultiValuesAddArgSealed for [u32; N] {}

impl<'a, const N: usize> MultiValuesAddArg<'a> for [u32; N] {
    type Item = u32;

    open spec fn apply_add_ensures(self, before: MultiValues, after: MultiValues, r: ValueResult<()>) -> bool {
        (r, after@) == before@.append_uint32s(self@)
    }

    fn apply_add(self, target: &mut MultiValues) -> (r: ValueResult<()>) {
        broadcast use vstd::array::group_array_axioms;
        target.add_uint32s_slice(array_as_slice(&self))
    }
}

impl<'a, const N: usize> MultiValuesAddArgSealed for &'a [u32; N] {}

impl<'a, const N: usize> MultiValuesAddArg<'a> for &'a [u32; N] {
    type Item = u32;

    open spec fn apply_add_ensures(self, before: MultiValues, after: MultiValues, r: ValueResult<()>) -> bool {
        (r, after@) == before@.append_uint32s(self@)
    }

    fn apply_add(self, target: &mut MultiValues) -> (r: ValueResult<()>) {
        broadcast use vstd::array::group_array_axioms;
        target.add_uint32s_slice(array_as_slice(self))
    }
}

impl<const N: usize> MultiValuesConstructorArgSealed for [u32; N] {}

impl<'a, const N: usize> MultiValuesConstructorArg<'a> for [u32; N] {
    open spec fn into_multi_values_ensures(self, r: MultiValues) -> bool {
        r@ == MultiValuesView::UInt32(self@)
    }

    fn into_multi_values(self) -> (r: MultiValues) {
        broadcast use vstd::array::group_array_axioms;
        MultiValues::UInt32(clone_items(array_as_slice(&self)))
    }
}

impl<'a, const N: usize> MultiValuesConstructorArgSealed for &'a [u32; N] {}

impl<'a, const N: usize> MultiValuesConstructorArg<'a> for &'a [u32; N] {
    open spec fn into_multi_values_ensures(self, r: MultiValues) -> bool {
        r@ == MultiValuesView::UInt32(self@)
    }

    fn into_multi_values(self) -> (r: MultiValues) {
        broadcast use vstd::array::group_array_axioms;
        MultiValues::UInt32(clone_items(array_as_slice(self)))
    }
}

// ---------------------------------------------------------------------------
// u64
// ---------------------------------------------------------------------------

impl MultiValuesGetterSealed<u64> for MultiValues {}

impl MultiValuesGetter<u64> for MultiValues {
    open spec fn get_values_ensures(&self, r: ValueResult<Vec<u64>>) -> bool {
        ok_view(r) == self@.typed_items(DataType::UInt64, self@.as_uint64s())
    }

    fn get_values(&self) -> (r: ValueResult<Vec<u64>>) {
        match self.get_uint64s() {
            Ok(s) => Ok(clone_items(s)),
            Err(e) => Err(e),
        }
    }
}

impl MultiValuesFirstGetterSealed<u64> for MultiValues {}

impl MultiValuesFirstGetter<u64> for MultiValues {
    open spec fn get_first_value_ensures(&self, r: ValueResult<u64>) -> bool {
        r == self@.typed_first(DataType::UInt64, self@.as_uint64s())
    }

    fn get_first_value(&self) -> (r: ValueResult<u64>) {
        self.get_first_uint64()
    }
}

impl MultiValuesSetterSealed<u64> for MultiValues {}

impl MultiValuesSetter<u64> for MultiValues {
    open spec fn set_values_ensures(before: Self, after: Self, values: Vec<u64>, r: ValueResult<()>) -> bool {
        r == Ok::<(), ValueError>(()) && after@ == MultiValuesView::UInt64(values@)
    }

    fn set_values(&mut self, values: Vec<u64>) -> (r: ValueResult<()>) {
        self.set_uint64s(values)
    }
}

impl MultiValuesSetterSliceSealed<u64> for MultiValues {}

impl MultiValuesSetterSlice<u64> for MultiValues {
    open spec fn set_values_slice_ensures(before: Self, after: Self, values: Seq<u64>, r: ValueResult<()>) -> bool {
        r == Ok::<(), ValueError>(()) && after@ == MultiValuesView::UInt64(values)
    }

    fn set_values_slice(&mut self, values: &[u64]) -> (r: ValueResult<()>) {
        self.set_uint64s_slice(values)
    }
}

impl MultiValuesSingleSetterSealed<u64> for MultiValues {}

impl MultiValuesSingleSetter<u64> for MultiValues {
    open spec fn set_single_value_ensures(before: Self, after: Self, value: u64, r: ValueResult<()>) -> bool {
        r == Ok::<(), ValueError>(()) && after@ == MultiValuesView::UInt64(seq![value])
    }

    fn set_single_value(&mut self, value: u64) -> (r: ValueResult<()>) {
        self.set_uint64(value)
    }
}

impl MultiValuesAdderSealed<u64> for MultiValues {}

impl MultiValuesAdder<u64> for MultiValues {
    open spec fn add_value_ensures(before: Self, after: Self, value: u64, r: ValueResult<()>) -> bool {
        (r, after@) == before@.append_uint64s(seq![value])
    }

    fn add_value(&mut self, value: u64) -> (r: ValueResult<()>) {
        self.add_uint64(value)
    }
}

impl MultiValuesMultiAdderSealed<u64> for MultiValues {}

impl MultiValuesMultiAdder<u64> for MultiValues {
    open spec fn add_values_ensures(before: Self, after: Self, values: Vec<u64>, r: ValueResult<()>) -> bool {
        (r, after@) == before@.append_uint64s(values@)
    }

    fn add_values(&mut self, values: Vec<u64>) -> (r: ValueResult<()>) {
        self.add_uint64s(values)
    }
}

impl MultiValuesConstructorSealed<u64> for MultiValues {}

impl MultiValuesConstructor<u64> for MultiValues {
    open spec fn from_vec_ensures(values: Vec<u64>, r: Self) -> bool {
        r@ == MultiValuesView::UInt64(values@)
    }

    fn from_vec(values: Vec<u64>) -> (r: Self) {
        MultiValues::UInt64(values)
    }
}

impl MultiValuesSetArgSealed for u64 {}

impl<'a> MultiValuesSetArg<'a> for u64 {
    type Item = u64;

    open spec fn apply_ensures(self, before: MultiValues, after: MultiValues, r: ValueResult<()>) -> bool {
        r == Ok::<(), ValueError>(()) && after@ == MultiValuesView::UInt64(seq![self])
    }

    fn apply(self, target: &mut MultiValues) -> (r: ValueResult<()>) {
        target.set_uint64(self)
    }
}

impl MultiValuesSetArgSealed for Vec<u64> {}

impl<'a> MultiValuesSetArg<'a> for Vec<u64> {
    type Item = u64;

    open spec fn apply_ensures(self, before: MultiValues, after: MultiValues, r: ValueResult<()>) -> bool {
        r == Ok::<(), ValueError>(()) && after@ == MultiValuesView::UInt64(self@)
    }

    fn apply(self, target: &mut MultiValues) -> (r: ValueResult<()>) {
        target.set_uint64s(self)
    }
}

impl<'a> MultiValuesSetArgSealed for &'a [u64] {}

impl<'a> MultiValuesSetArg<'a> for &'a [u64] {
    type Item = u64;

    open spec fn apply_ensures(self, before: MultiValues, after: MultiValues, r: ValueResult<()>) -> bool {
        r == Ok::<(), ValueError>(()) && after@ == MultiValuesView::UInt64(self@)
    }

    fn apply(self, target: &mut MultiValues) -> (r: ValueResult<()>) {
        target.set_uint64s_slice(self)
    }
}

impl<'a> MultiValuesSetArgSealed for &'a Vec<u64> {}

impl<'a> MultiValuesSetArg<'a> for &'a Vec<u64> {
    type Item = u64;

    open spec fn apply_ensures(self, before: MultiValues, after: MultiValues, r: ValueResult<()>) -> bool {
        r == Ok::<(), ValueError>(()) && after@ == MultiValuesView::UInt64(self@)
    }

    fn apply(self, target: &mut MultiValues) -> (r: ValueResult<()>) {
        target.set_uint64s_slice(self.as_slice())
    }
}

impl MultiValuesAddArgSealed for u64 {}

impl<'a> MultiValuesAddArg<'a> for u64 {
    type Item = u64;

    open spec fn apply_add_ensures(self, before: MultiValues, after: MultiValues, r: ValueResult<()>) -> bool {
        (r, after@) == before@.append_uint64s(seq![self])
    }

    fn apply_add(self, target: &mut MultiValues) -> (r: ValueResult<()>) {
        target.add_uint64(self)
    }
}

impl MultiValuesAddArgSealed for Vec<u64> {}

impl<'a> MultiValuesAddArg<'a> for Vec<u64> {
    type Item = u64;

    open spec fn apply_add_ensures(self, before: MultiValues, after: MultiValues, r: ValueResult<()>) -> bool {
        (r, after@) == before@.append_uint64s(self@)
    }

    fn apply_add(self, target: &mut MultiValues) -> (r: ValueResult<()>) {
        target.add_uint64s(self)
    }
}

impl<'a> MultiValuesAddArgSealed for &'a [u64] {}

impl<'a> MultiValuesAddArg<'a> for &'a [u64] {
    type Item = u64;

    open spec fn apply_add_ensures(self, before: MultiValues, after: MultiValues, r: ValueResult<()>) -> bool {
        (r, after@) == before@.append_uint64s(self@)
    }

    fn apply_add(self, target: &mut MultiValues) -> (r: ValueResult<()>) {
        target.add_uint64s_slice(self)
    }
}

impl<'a> MultiValuesAddArgSealed for &'a Vec<u64> {}

impl<'a> MultiValuesAddArg<'a> for &'a Vec<u64> {
    type Item = u64;

    open spec fn apply_add_ensures(self, before: MultiValues, after: MultiValues, r: ValueResult<()>) -> bool {
        (r, after@) == before@.append_uint64s(self@)
    }

    fn apply_add(self, target: &mut MultiValues) -> (r: ValueResult<()>) {
        target.add_uint64s_slice(self.as_slice())
    }
}

impl MultiValuesConstructorArgSealed for Vec<u64> {}

impl<'a> MultiValuesConstructorArg<'a> for Vec<u64> {
    open spec fn into_multi_values_ensures(self, r: MultiValues) -> bool {
        r@ == MultiValuesView::UInt64(self@)
    }

    fn into_multi_values(self) -> (r: MultiValues) {
        MultiValues::UInt64(self)
    }
}

impl<'a> MultiValuesConstructorArgSealed for &'a [u64] {}

impl<'a> MultiValuesConstructorArg<'a> for &'a [u64] {
    open spec fn into_multi_values_ensures(self, r: MultiValues) -> bool {
        r@ == MultiValuesView::UInt64(self@)
    }

    fn into_multi_values(self) -> (r: MultiValues) {
        MultiValues::UInt64(clone_items(self))
    }
}

impl<'a> MultiValuesConstructorArgSealed for &'a Vec<u64> {}

impl<'a> MultiValuesConstructorArg<'a> for &'a Vec<u64> {
    open spec fn into_multi_values_ensures(self, r: MultiValues) -> bool {
        r@ == MultiValuesView::UInt64(self@)
    }

    fn into_multi_values(self) -> (r: MultiValues) {
        MultiValues::UInt64(clone_items(self.as_slice()))
    }
}

impl<const N: usize> MultiValuesSetArgSealed for [u64; N] {}

impl<'a, const N: usize> MultiValuesSetArg<'a> for [u64; N] {
    type Item = u64;

    open spec fn apply_ensures(self, before: MultiValues, after: MultiValues, r: ValueResult<()>) -> bool {
        r == Ok::<(), ValueError>(()) && after@ == MultiValuesView::UInt64(self@)
    }

    fn apply(self, target: &mut MultiValues) -> (r: ValueResult<()>) {
        broadcast use vstd::array::group_array_axioms;
        target.set_uint64s_slice(array_as_slice(&self))
    }
}

impl<'a, const N: usize> MultiValuesSetArgSealed for &'a [u64; N] {}

impl<'a, const N: usize> MultiValuesSetArg<'a> for &'a [u64; N] {
    type Item = u64;

    open spec fn apply_ensures(self, before: MultiValues, after: MultiValues, r: ValueResult<()>) -> bool {
        r == Ok::<(), ValueError>(()) && after@ == MultiValuesView::UInt64(self@)
    }

    fn apply(self, target: &mut MultiValues) -> (r: ValueResult<()>) {
        broadcast use vstd::array::group_array_axioms;
        target.set_uint64s_slice(array_as_slice(self))
    }
}

impl<const N: usize> MultiValuesAddArgSealed for [u64; N] {}

impl<'a, const N: usize> MultiValuesAddArg<'a> for [u64; N] {
    type Item = u64;

    open spec fn apply_add_ensures(self, before: MultiValues, after: MultiValues, r: ValueResult<()>) -> bool {
        (r, after@) == before@.append_uint64s(self@)
    }

    fn apply_add(self, target: &mut MultiValues) -> (r: ValueResult<()>) {
        broadcast use vstd::array::group_array_axioms;
        target.add_uint64s_slice(array_as_slice(&self))
    }
}

impl<'a, const N: usize> MultiValuesAddArgSealed for &'a [u64; N] {}

impl<'a, const N: usize> MultiValuesAddArg<'a> for &'a [u64; N] {
    type Item = u64;

    open spec fn apply_add_ensures(self, before: MultiValues, after: MultiValues, r: ValueResult<()>) -> bool {
        (r, after@) == before@.append_uint64s(self@)
    }

    fn apply_add(self, target: &mut MultiValues) -> (r: ValueResult<()>) {
        broadcast use vstd::array::group_array_axioms;
        target.add_uint64s_slice(array_as_slice(self))
    }
}

impl<const N: usize> MultiValuesConstructorArgSealed for [u64; N] {}

impl<'a, const N: usize> MultiValuesConstructorArg<'a> for [u64; N] {
    open spec fn into_multi_values_ensures(self, r: MultiValues) -> bool {
        r@ == MultiValuesView::UInt64(self@)
    }

    fn into_multi_values(self) -> (r: MultiValues) {
        broadcast use vstd::array::group_array_axioms;
        MultiValues::UInt64(clone_items(array_as_slice(&self)))
    }
}

impl<'a, const N: usize> MultiValuesConstructorArgSealed for &'a [u64; N] {}

impl<'a, const N: usize> MultiValuesConstructorArg<'a> for &'a [u64; N] {
    open spec fn into_multi_values_ensures(self, r: MultiValues) -> bool {
        r@ == MultiValuesView::UInt64(self@)
    }

    fn into_multi_values(self) -> (r: MultiValues) {
        broadcast use vstd::array::group_array_axioms;
        MultiValues::UInt64(clone_items(array_as_slice(self)))
    }
}

// ---------------------------------------------------------------------------
// u128
// ---------------------------------------------------------------------------

impl MultiValuesGetterSealed<u128> for MultiValues {}

impl MultiValuesGetter<u128> for MultiValues {
    open spec fn get_values_ensures(&self, r: ValueResult<Vec<u128>>) -> bool {
        ok_view(r) == self@.typed_items(DataType::UInt128, self@.as_uint128s())
    }

    fn get_values(&self) -> (r: ValueResult<Vec<u128>>) {
        match self.get_uint128s() {
            Ok(s) => Ok(clone_items(s)),
            Err(e) => Err(e),
        }
    }
}

impl MultiValuesFirstGetterSealed<u128> for MultiValues {}

impl MultiValuesFirstGetter<u128> for MultiValues {
    open spec fn get_first_value_ensures(&self, r: ValueResult<u128>) -> bool {
        r == self@.typed_first(DataType::UInt128, self@.as_uint128s())
    }

    fn get_first_value(&self) -> (r: ValueResult<u128>) {
        self.get_first_uint128()
    }
}

impl MultiValuesSetterSealed<u128> for MultiValues {}

impl MultiValuesSetter<u128> for MultiValues {
    open spec fn set_values_ensures(before: Self, after: Self, values: Vec<u128>, r: ValueResult<()>) -> bool {
        r == Ok::<(), ValueError>(()) && after@ == MultiValuesView::UInt128(values@)
    }

    fn set_values(&mut self, values: Vec<u128>) -> (r: ValueResult<()>) {
        self.set_uint128s(values)
    }
}

impl MultiValuesSetterSliceSealed<u128> for MultiValues {}

impl MultiValuesSetterSlice<u128> for MultiValues {
    open spec fn set_values_slice_ensures(before: Self, after: Self, values: Seq<u128>, r: ValueResult<()>) -> bool {
        r == Ok::<(), ValueError>(()) && after@ == MultiValuesView::UInt128(values)
    }

    fn set_values_slice(&mut self, values: &[u128]) -> (r: ValueResult<()>) {
        self.set_uint128s_slice(values)
    }
}

impl MultiValuesSingleSetterSealed<u128> for MultiValues {}

impl MultiValuesSingleSetter<u128> for MultiValues {
    open spec fn set_single_value_ensures(before: Self, after: Self, value: u128, r: ValueResult<()>) -> bool {
        r == Ok::<(), ValueError>(()) && after@ == MultiValuesView::UInt128(seq![value])
    }

    fn set_single_value(&mut self, value: u128) -> (r: ValueResult<()>) {
        self.set_uint128(value)
    }
}

impl MultiValuesAdderSealed<u128> for MultiValues {}

impl MultiValuesAdder<u128> for MultiValues {
    open spec fn add_value_ensures(before: Self, after: Self, value: u128, r: ValueResult<()>) -> bool {
        (r, after@) == before@.append_uint128s(seq![value])
    }

    fn add_value(&mut self, value: u128) -> (r: ValueResult<()>) {
        self.add_uint128(value)
    }
}

impl MultiValuesMultiAdderSealed<u128> for MultiValues {}

impl MultiValuesMultiAdder<u128> for MultiValues {
    open spec fn add_values_ensures(before: Self, after: Self, values: Vec<u128>, r: ValueResult<()>) -> bool {
        (r, after@) == before@.append_uint128s(values@)
    }

    fn add_values(&mut self, values: Vec<u128>) -> (r: ValueResult<()>) {
        self.add_uint128s(values)
    }
}

impl MultiValuesConstructorSealed<u128> for MultiValues {}

impl MultiValuesConstructor<u128> for MultiValues {
    open spec fn from_vec_ensures(values: Vec<u128>, r: Self) -> bool {
        r@ == MultiValuesView::UInt128(values@)
    }

    fn from_vec(values: Vec<u128>) -> (r: Self) {
        MultiValues::UInt128(values)
    }
}

impl MultiValuesSetArgSealed for u128 {}

impl<'a> MultiValuesSetArg<'a> for u128 {
    type Item = u128;

    open spec fn apply_ensures(self, before: MultiValues, after: MultiValues, r: ValueResult<()>) -> bool {
        r == Ok::<(), ValueError>(()) && after@ == MultiValuesView::UInt128(seq![self])
    }

    fn apply(self, target: &mut MultiValues) -> (r: ValueResult<()>) {
        target.set_uint128(self)
    }
}

impl MultiValuesSetArgSealed for Vec<u128> {}

impl<'a> MultiValuesSetArg<'a> for Vec<u128> {
    type Item = u128;

    open spec fn apply_ensures(self, before: MultiValues, after: MultiValues, r: ValueResult<()>) -> bool {
        r == Ok::<(), ValueError>(()) && after@ == MultiValuesView::UInt128(self@)
    }

    fn apply(self, target: &mut MultiValues) -> (r: ValueResult<()>) {
        target.set_uint128s(self)
    }
}

impl<'a> MultiValuesSetArgSealed for &'a [u128] {}

impl<'a> MultiValuesSetArg<'a> for &'a [u128] {
    type Item = u128;

    open spec fn apply_ensures(self, before: MultiValues, after: MultiValues, r: ValueResult<()>) -> bool {
        r == Ok::<(), ValueError>(()) && after@ == MultiValuesView::UInt128(self@)
    }

    fn apply(self, target: &mut MultiValues) -> (r: ValueResult<()>) {
        target.set_uint128s_slice(self)
    }
}

impl<'a> MultiValuesSetArgSealed for &'a Vec<u128> {}

impl<'a> MultiValuesSetArg<'a> for &'a Vec<u128> {
    type Item = u128;

    open spec fn apply_ensures(self, before: MultiValues, after: MultiValues, r: ValueResult<()>) -> bool {
        r == Ok::<(), ValueError>(()) && after@ == MultiValuesView::UInt128(self@)
    }

    fn apply(self, target: &mut MultiValues) -> (r: ValueResult<()>) {
        target.set_uint128s_slice(self.as_slice())
    }
}

impl MultiValuesAddArgSealed for u128 {}

impl<'a> MultiValuesAddArg<'a> for u128 {
    type Item = u128;

    open spec fn apply_add_ensures(self, before: MultiValues, after: MultiValues, r: ValueResult<()>) -> bool {
        (r, after@) == before@.append_uint128s(seq![self])
    }

    fn apply_add(self, target: &mut MultiValues) -> (r: ValueResult<()>) {
        target.add_uint128(self)
    }
}

impl MultiValuesAddArgSealed for Vec<u128> {}

impl<'a> MultiValuesAddArg<'a> for Vec<u128> {
    type Item = u128;

    open spec fn apply_add_ensures(self, before: MultiValues, after: MultiValues, r: ValueResult<()>) -> bool {
        (r, after@) == before@.append_uint128s(self@)
    }

    fn apply_add(self, target: &mut MultiValues) -> (r: ValueResult<()>) {
        target.add_uint128s(self)
    }
}

impl<'a> MultiValuesAddArgSealed for &'a [u128] {}

impl<'a> MultiValuesAddArg<'a> for &'a [u128] {
    type Item = u128;

    open spec fn apply_add_ensures(self, before: MultiValues, after: MultiValues, r: ValueResult<()>) -> bool {
        (r, after@) == before@.append_uint128s(self@)
    }

    fn apply_add(self, target: &mut MultiValues) -> (r: ValueResult<()>) {
        target.add_uint128s_slice(self)
    }
}

impl<'a> MultiValuesAddArgSealed for &'a Vec<u128> {}

impl<'a> MultiValuesAddArg<'a> for &'a Vec<u128> {
    type Item = u128;

    open spec fn apply_add_ensures(self, before: MultiValues, after: MultiValues, r: ValueResult<()>) -> bool {
        (r, after@) == before@.append_uint128s(self@)
    }

    fn apply_add(self, target: &mut MultiValues) -> (r: ValueResult<()>) {
        target.add_uint128s_slice(self.as_slice())
    }
}

impl MultiValuesConstructorArgSealed for Vec<u128> {}

impl<'a> MultiValuesConstructorArg<'a> for Vec<u128> {
    open spec fn into_multi_values_ensures(self, r: MultiValues) -> bool {
        r@ == MultiValuesView::UInt128(self@)
    }

    fn into_multi_values(self) -> (r: MultiValues) {
        MultiValues::UInt128(self)
    }
}

impl<'a> MultiValuesConstructorArgSealed for &'a [u128] {}

impl<'a> MultiValuesConstructorArg<'a> for &'a [u128] {
    open spec fn into_multi_values_ensures(self, r: MultiValues) -> bool {
        r@ == MultiValuesView::UInt128(self@)
    }

    fn into_multi_values(self) -> (r: MultiValues) {
        MultiValues::UInt128(clone_items(self))
    }
}

impl<'a> MultiValuesConstructorArgSealed for &'a Vec<u128> {}

impl<'a> MultiValuesConstructorArg<'a> for &'a Vec<u128> {
    open spec fn into_multi_values_ensures(self, r: MultiValues) -> bool {
        r@ == MultiValuesView::UInt128(self@)
    }

    fn into_multi_values(self) -> (r: MultiValues) {
        MultiValues::UInt128(clone_items(self.as_slice()))
    }
}

impl<const N: usize> MultiValuesSetArgSealed for [u128; N] {}

impl<'a, const N: usize> MultiValuesSetArg<'a> for [u128; N] {
    type Item = u128;

    open spec fn apply_ensures(self, before: MultiValues, after: MultiValues, r: ValueResult<()>) -> bool {
        r == Ok::<(), ValueError>(()) && after@ == MultiValuesView::UInt128(self@)
    }

    fn apply(self, target: &mut MultiValues) -> (r: ValueResult<()>) {
        broadcast use vstd::array::group_array_axioms;
        target.set_uint128s_slice(array_as_slice(&self))
    }
}

impl<'a, const N: usize> MultiValuesSetArgSealed for &'a [u128; N] {}

impl<'a, const N: usize> MultiValuesSetArg<'a> for &'a [u128; N] {
    type Item = u128;

    open spec fn apply_ensures(self, before: MultiValues, after: MultiValues, r: ValueResult<()>) -> bool {
        r == Ok::<(), ValueError>(()) && after@ == MultiValuesView::UInt128(self@)
    }

    fn apply(self, target: &mut MultiValues) -> (r: ValueResult<()>) {
        broadcast use vstd::array::group_array_axioms;
        target.set_uint128s_slice(array_as_slice(self))
    }
}

impl<const N: usize> MultiValuesAddArgSealed for [u128; N] {}

impl<'a, const N: usize> MultiValuesAddArg<'a> for [u128; N] {
    type Item = u128;

    open spec fn apply_add_ensures(self, before: MultiValues, after: MultiValues, r: ValueResult<()>) -> bool {
        (r, after@) == before@.append_uint128s(self@)
    }

    fn apply_add(self, target: &mut MultiValues) -> (r: ValueResult<()>) {
        broadcast use vstd::array::group_array_axioms;
        target.add_uint128s_slice(array_as_slice(&self))
    }
}

impl<'a, const N: usize> MultiValuesAddArgSealed for &'a [u128; N] {}

impl<'a, const N: usize> MultiValuesAddArg<'a> for &'a [u128; N] {
    type Item = u128;

    open spec fn apply_add_ensures(self, before: MultiValues, after: MultiValues, r: ValueResult<()>) -> bool {
        (r, after@) == before@.append_uint128s(self@)
    }

    fn apply_add(self, target: &mut MultiValues) -> (r: ValueResult<()>) {
        broadcast use vstd::array::group_array_axioms;
        target.add_uint128s_slice(array_as_slice(self))
    }
}

impl<const N: usize> MultiValuesConstructorArgSealed for [u128; N] {}

impl<'a, const N: usize> MultiValuesConstructorArg<'a> for [u128; N] {
    open spec fn into_multi_values_ensures(self, r: MultiValues) -> bool {
        r@ == MultiValuesView::UInt128(self@)
    }

    fn into_multi_values(self) -> (r: MultiValues) {
        broadcast use vstd::array::group_array_axioms;
        MultiValues::UInt128(clone_items(array_as_slice(&self)))
    }
}

impl<'a, const N: usize> MultiValuesConstructorArgSealed for &'a [u128; N] {}

impl<'a, const N: usize> MultiValuesConstructorArg<'a> for &'a [u128; N] {
    open spec fn into_multi_values_ensures(self, r: MultiValues) -> bool {
        r@ == MultiValuesView::UInt128(self@)
    }

    fn into_multi_values(self) -> (r: MultiValues) {
        broadcast use vstd::array::group_array_axioms;
        MultiValues::UInt128(clone_items(array_as_slice(self)))
    }
}

// ---------------------------------------------------------------------------
// isize
// ---------------------------------------------------------------------------

impl MultiValuesGetterSealed<isize> for MultiValues {}

impl MultiValuesGetter<isize> for MultiValues {
    open spec fn get_values_ensures(&self, r: ValueResult<Vec<isize>>) -> bool {
        ok_view(r) == self@.typed_items(DataType::IntSize, self@.as_intsizes())
    }

    fn get_values(&self) -> (r: ValueResult<Vec<isize>>) {
        match self.get_intsizes() {
            Ok(s) => Ok(clone_items(s)),
            Err(e) => Err(e),
        }
    }
}

impl MultiValuesFirstGetterSealed<isize> for MultiValues {}

impl MultiValuesFirstGetter<isize> for MultiValues {
    open spec fn get_first_value_ensures(&self, r: ValueResult<isize>) -> bool {
        r == self@.typed_first(DataType::IntSize, self@.as_intsizes())
    }

    fn get_first_value(&self) -> (r: ValueResult<isize>) {
        self.get_first_intsize()
    }
}

impl MultiValuesSetterSealed<isize> for MultiValues {}

impl MultiValuesSetter<isize> for MultiValues {
    open spec fn set_values_ensures(before: Self, after: Self, values: Vec<isize>, r: ValueResult<()>) -> bool {
        r == Ok::<(), ValueError>(()) && after@ == MultiValuesView::IntSize(values@)
    }

    fn set_values(&mut self, values: Vec<isize>) -> (r: ValueResult<()>) {
        self.set_intsizes(values)
    }
}

impl MultiValuesSetterSliceSealed<isize> for MultiValues {}

impl MultiValuesSetterSlice<isize> for MultiValues {
    open spec fn set_values_slice_ensures(before: Self, after: Self, values: Seq<isize>, r: ValueResult<()>) -> bool {
        r == Ok::<(), ValueError>(()) && after@ == MultiValuesView::IntSize(values)
    }

    fn set_values_slice(&mut self, values: &[isize]) -> (r: ValueResult<()>) {
        self.set_intsizes_slice(values)
    }
}

impl MultiValuesSingleSetterSealed<isize> for MultiValues {}

impl MultiValuesSingleSetter<isize> for MultiValues {
    open spec fn set_single_value_ensures(before: Self, after: Self, value: isize, r: ValueResult<()>) -> bool {
        r == Ok::<(), ValueError>(()) && after@ == MultiValuesView::IntSize(seq![value])
    }

    fn set_single_value(&mut self, value: isize) -> (r: ValueResult<()>) {
        self.set_intsize(value)
    }
}

impl MultiValuesAdderSealed<isize> for MultiValues {}

impl MultiValuesAdder<isize> for MultiValues {
    open spec fn add_value_ensures(before: Self, after: Self, value: isize, r: ValueResult<()>) -> bool {
        (r, after@) == before@.append_intsizes(seq![value])
    }

    fn add_value(&mut self, value: isize) -> (r: ValueResult<()>) {
        self.add_intsize(value)
    }
}

impl MultiValuesMultiAdderSealed<isize> for MultiValues {}

impl MultiValuesMultiAdder<isize> for MultiValues {
    open spec fn add_values_ensures(before: Self, after: Self, values: Vec<isize>, r: ValueResult<()>) -> bool {
        (r, after@) == before@.append_intsizes(values@)
    }

    fn add_values(&mut self, values: Vec<isize>) -> (r: ValueResult<()>) {
        self.add_intsizes(values)
    }
}

impl MultiValuesConstructorSealed<isize> for MultiValues {}

impl MultiValuesConstructor<isize> for MultiValues {
    open spec fn from_vec_ensures(values: Vec<isize>, r: Self) -> bool {
        r@ == MultiValuesView::IntSize(values@)
    }

    fn from_vec(values: Vec<isize>) -> (r: Self) {
        MultiValues::IntSize(values)
    }
}

impl MultiValuesSetArgSealed for isize {}

impl<'a> MultiValuesSetArg<'a> for isize {
    type Item = isize;

    open spec fn apply_ensures(self, before: MultiValues, after: MultiValues, r: ValueResult<()>) -> bool {
        r == Ok::<(), ValueError>(()) && after@ == MultiValuesView::IntSize(seq![self])
    }

    fn apply(self, target: &mut MultiValues) -> (r: ValueResult<()>) {
        target.set_intsize(self)
    }
}

impl MultiValuesSetArgSealed for Vec<isize> {}

impl<'a> MultiValuesSetArg<'a> for Vec<isize> {
    type Item = isize;

    open spec fn apply_ensures(self, before: MultiValues, after: MultiValues, r: ValueResult<()>) -> bool {
        r == Ok::<(), ValueError>(()) && after@ == MultiValuesView::IntSize(self@)
    }

    fn apply(self, target: &mut MultiValues) -> (r: ValueResult<()>) {
        target.set_intsizes(self)
    }
}

impl<'a> MultiValuesSetArgSealed for &'a [isize] {}

impl<'a> MultiValuesSetArg<'a> for &'a [isize] {
    type Item = isize;

    open spec fn apply_ensures(self, before: MultiValues, after: MultiValues, r: ValueResult<()>) -> bool {
        r == Ok::<(), ValueError>(()) && after@ == MultiValuesView::IntSize(self@)
    }

    fn apply(self, target: &mut MultiValues) -> (r: ValueResult<()>) {
        target.set_intsizes_slice(self)
    }
}

impl<'a> MultiValuesSetArgSealed for &'a Vec<isize> {}

impl<'a> MultiValuesSetArg<'a> for &'a Vec<isize> {
    type Item = isize;

    open spec fn apply_ensures(self, before: MultiValues, after: MultiValues, r: ValueResult<()>) -> bool {
        r == Ok::<(), ValueError>(()) && after@ == MultiValuesView::IntSize(self@)
    }

    fn apply(self, target: &mut MultiValues) -> (r: ValueResult<()>) {
        target.set_intsizes_slice(self.as_slice())
    }
}

impl MultiValuesAddArgSealed for isize {}

impl<'a> MultiValuesAddArg<'a> for isize {
    type Item = isize;

    open spec fn apply_add_ensures(self, before: MultiValues, after: MultiValues, r: ValueResult<()>) -> bool {
        (r, after@) == before@.append_intsizes(seq![self])
    }

    fn apply_add(self, target: &mut MultiValues) -> (r: ValueResult<()>) {
        target.add_intsize(self)
    }
}

impl MultiValuesAddArgSealed for Vec<isize> {}

impl<'a> MultiValuesAddArg<'a> for Vec<isize> {
    type Item = isize;

    open spec fn apply_add_ensures(self, before: MultiValues, after: MultiValues, r: ValueResult<()>) -> bool {
        (r, after@) == before@.append_intsizes(self@)
    }

    fn apply_add(self, target: &mut MultiValues) -> (r: ValueResult<()>) {
        target.add_intsizes(self)
    }
}

impl<'a> MultiValuesAddArgSealed for &'a [isize] {}

impl<'a> MultiValuesAddArg<'a> for &'a [isize] {
    type Item = isize;

    open spec fn apply_add_ensures(self, before: MultiValues, after: MultiValues, r: ValueResult<()>) -> bool {
        (r, after@) == before@.append_intsizes(self@)
    }

    fn apply_add(self, target: &mut MultiValues) -> (r: ValueResult<()>) {
        target.add_intsizes_slice(self)
    }
}

impl<'a> MultiValuesAddArgSealed for &'a Vec<isize> {}

impl<'a> MultiValuesAddArg<'a> for &'a Vec<isize> {
    type Item = isize;

    open spec fn apply_add_ensures(self, before: MultiValues, after: MultiValues, r: ValueResult<()>) -> bool {
        (r, after@) == before@.append_intsizes(self@)
    }

    fn apply_add(self, target: &mut MultiValues) -> (r: ValueResult<()>) {
        target.add_intsizes_slice(self.as_slice())
    }
}

impl MultiValuesConstructorArgSealed for Vec<isize> {}

impl<'a> MultiValuesConstructorArg<'a> for Vec<isize> {
    open spec fn into_multi_values_ensures(self, r: MultiValues) -> bool {
        r@ == MultiValuesView::IntSize(self@)
    }

    fn into_multi_values(self) -> (r: MultiValues) {
        MultiValues::IntSize(self)
    }
}

impl<'a> MultiValuesConstructorArgSealed for &'a [isize] {}

impl<'a> MultiValuesConstructorArg<'a> for &'a [isize] {
    open spec fn into_multi_values_ensures(self, r: MultiValues) -> bool {
        r@ == MultiValuesView::IntSize(self@)
    }

    fn into_multi_values(self) -> (r: MultiValues) {
        MultiValues::IntSize(clone_items(self))
    }
}

impl<'a> MultiValuesConstructorArgSealed for &'a Vec<isize> {}

impl<'a> MultiValuesConstructorArg<'a> for &'a Vec<isize> {
    open spec fn into_multi_values_ensures(self, r: MultiValues) -> bool {
        r@ == MultiValuesView::IntSize(self@)
    }

    fn into_multi_values(self) -> (r: MultiValues) {
        MultiValues::IntSize(clone_items(self.as_slice()))
    }
}

impl<const N: usize> MultiValuesSetArgSealed for [isize; N] {}

impl<'a, const N: usize> MultiValuesSetArg<'a> for [isize; N] {
    type Item = isize;

    open spec fn apply_ensures(self, before: MultiValues, after: MultiValues, r: ValueResult<()>) -> bool {
        r == Ok::<(), ValueError>(()) && after@ == MultiValuesView::IntSize(self@)
    }

    fn apply(self, target: &mut MultiValues) -> (r: ValueResult<()>) {
        broadcast use vstd::array::group_array_axioms;
        target.set_intsizes_slice(array_as_slice(&self))
    }
}

impl<'a, const N: usize> MultiValuesSetArgSealed for &'a [isize; N] {}

impl<'a, const N: usize> MultiValuesSetArg<'a> for &'a [isize; N] {
    type Item = isize;

    open spec fn apply_ensures(self, before: MultiValues, after: MultiValues, r: ValueResult<()>) -> bool {
        r == Ok::<(), ValueError>(()) && after@ == MultiValuesView::IntSize(self@)
    }

    fn apply(self, target: &mut MultiValues) -> (r: ValueResult<()>) {
        broadcast use vstd::array::group_array_axioms;
        target.set_intsizes_slice(array_as_slice(self))
    }
}

impl<const N: usize> MultiValuesAddArgSealed for [isize; N] {}

impl<'a, const N: usize> MultiValuesAddArg<'a> for [isize; N] {
    type Item = isize;

    open spec fn apply_add_ensures(self, before: MultiValues, after: MultiValues, r: ValueResult<()>) -> bool {
        (r, after@) == before@.append_intsizes(self@)
    }

    fn apply_add(self, target: &mut MultiValues) -> (r: ValueResult<()>) {
        broadcast use vstd::array::group_array_axioms;
        target.add_intsizes_slice(array_as_slice(&self))
    }
}

impl<'a, const N: usize> MultiValuesAddArgSealed for &'a [isize; N] {}

impl<'a, const N: usize> MultiValuesAddArg<'a> for &'a [isize; N] {
    type Item = isize;

    open spec fn apply_add_ensures(self, before: MultiValues, after: MultiValues, r: ValueResult<()>) -> bool {
        (r, after@) == before@.append_intsizes(self@)
    }

    fn apply_add(self, target: &mut MultiValues) -> (r: ValueResult<()>) {
        broadcast use vstd::array::group_array_axioms;
        target.add_intsizes_slice(array_as_slice(self))
    }
}

impl<const N: usize> MultiValuesConstructorArgSealed for [isize; N] {}

impl<'a, const N: usize> MultiValuesConstructorArg<'a> for [isize; N] {
    open spec fn into_multi_values_ensures(self, r: MultiValues) -> bool {
        r@ == MultiValuesView::IntSize(self@)
    }

    fn into_multi_values(self) -> (r: MultiValues) {
        broadcast use vstd::array::group_array_axioms;
        MultiValues::IntSize(clone_items(array_as_slice(&self)))
    }
}

impl<'a, const N: usize> MultiValuesConstructorArgSealed for &'a [isize; N] {}

impl<'a, const N: usize> MultiValuesConstructorArg<'a> for &'a [isize; N] {
    open spec fn into_multi_values_ensures(self, r: MultiValues) -> bool {
        r@ == MultiValuesView::IntSize(self@)
    }

    fn into_multi_values(self) -> (r: MultiValues) {
        broadcast use vstd::array::group_array_axioms;
        MultiValues::IntSize(clone_items(array_as_slice(self)))
    }
}

// ---------------------------------------------------------------------------
// usize
// ---------------------------------------------------------------------------

impl MultiValuesGetterSealed<usize> for MultiValues {}

impl MultiValuesGetter<usize> for MultiValues {
    open spec fn get_values_ensures(&self, r: ValueResult<Vec<usize>>) -> bool {
        ok_view(r) == self@.typed_items(DataType::UIntSize, self@.as_uintsizes())
    }

    fn get_values(&self) -> (r: ValueResult<Vec<usize>>) {
        match self.get_uintsizes() {
            Ok(s) => Ok(clone_items(s)),
            Err(e) => Err(e),
        }
    }
}

impl MultiValuesFirstGetterSealed<usize> for MultiValues {}

impl MultiValuesFirstGetter<usize> for MultiValues {
    open spec fn get_first_value_ensures(&self, r: ValueResult<usize>) -> bool {
        r == self@.typed_first(DataType::UIntSize, self@.as_uintsizes())
    }

    fn get_first_value(&self) -> (r: ValueResult<usize>) {
        self.get_first_uintsize()
    }
}

impl MultiValuesSetterSealed<usize> for MultiValues {}

impl MultiValuesSetter<usize> for MultiValues {
    open spec fn set_values_ensures(before: Self, after: Self, values: Vec<usize>, r: ValueResult<()>) -> bool {
        r == Ok::<(), ValueError>(()) && after@ == MultiValuesView::UIntSize(values@)
    }

    fn set_values(&mut self, values: Vec<usize>) -> (r: ValueResult<()>) {
        self.set_uintsizes(values)
    }
}

impl MultiValuesSetterSliceSealed<usize> for MultiValues {}

impl MultiValuesSetterSlice<usize> for MultiValues {
    open spec fn set_values_slice_ensures(before: Self, after: Self, values: Seq<usize>, r: ValueResult<()>) -> bool {
        r == Ok::<(), ValueError>(()) && after@ == MultiValuesView::UIntSize(values)
    }

    fn set_values_slice(&mut self, values: &[usize]) -> (r: ValueResult<()>) {
        self.set_uintsizes_slice(values)
    }
}

impl MultiValuesSingleSetterSealed<usize> for MultiValues {}

impl MultiValuesSingleSetter<usize> for MultiValues {
    open spec fn set_single_value_ensures(before: Self, after: Self, value: usize, r: ValueResult<()>) -> bool {
        r == Ok::<(), ValueError>(()) && after@ == MultiValuesView::UIntSize(seq![value])
    }

    fn set_single_value(&mut self, value: usize) -> (r: ValueResult<()>) {
        self.set_uintsize(value)
    }
}

impl MultiValuesAdderSealed<usize> for MultiValues {}

impl MultiValuesAdder<usize> for MultiValues {
    open spec fn add_value_ensures(before: Self, after: Self, value: usize, r: ValueResult<()>) -> bool {
        (r, after@) == before@.append_uintsizes(seq![value])
    }

    fn add_value(&mut self, value: usize) -> (r: ValueResult<()>) {
        self.add_uintsize(value)
    }
}

impl MultiValuesMultiAdderSealed<usize> for MultiValues {}

impl MultiValuesMultiAdder<usize> for MultiValues {
    open spec fn add_values_ensures(before: Self, after: Self, values: Vec<usize>, r: ValueResult<()>) -> bool {
        (r, after@) == before@.append_uintsizes(values@)
    }

    fn add_values(&mut self, values: Vec<usize>) -> (r: ValueResult<()>) {
        self.add_uintsizes(values)
    }
}

impl MultiValuesConstructorSealed<usize> for MultiValues {}

impl MultiValuesConstructor<usize> for MultiValues {
    open spec fn from_vec_ensures(values: Vec<usize>, r: Self) -> bool {
        r@ == MultiValuesView::UIntSize(values@)
    }

    fn from_vec(values: Vec<usize>) -> (r: Self) {
        MultiValues::UIntSize(values)
    }
}

impl MultiValuesSetArgSealed for usize {}

impl<'a> MultiValuesSetArg<'a> for usize {
    type Item = usize;

    open spec fn apply_ensures(self, before: MultiValues, after: MultiValues, r: ValueResult<()>) -> bool {
        r == Ok::<(), ValueError>(()) && after@ == MultiValuesView::UIntSize(seq![self])
    }

    fn apply(self, target: &mut MultiValues) -> (r: ValueResult<()>) {
        target.set_uintsize(self)
    }
}

impl MultiValuesSetArgSealed for Vec<usize> {}

impl<'a> MultiValuesSetArg<'a> for Vec<usize> {
    type Item = usize;

    open spec fn apply_ensures(self, before: MultiValues, after: MultiValues, r: ValueResult<()>) -> bool {
        r == Ok::<(), ValueError>(()) && after@ == MultiValuesView::UIntSize(self@)
    }

    fn apply(self, target: &mut MultiValues) -> (r: ValueResult<()>) {
        target.set_uintsizes(self)
    }
}

impl<'a> MultiValuesSetArgSealed for &'a [usize] {}

impl<'a> MultiValuesSetArg<'a> for &'a [usize] {
    type Item = usize;

    open spec fn apply_ensures(self, before: MultiValues, after: MultiValues, r: ValueResult<()>) -> bool {
        r == Ok::<(), ValueError>(()) && after@ == MultiValuesView::UIntSize(self@)
    }

    fn apply(self, target: &mut MultiValues) -> (r: ValueResult<()>) {
        target.set_uintsizes_slice(self)
    }
}

impl<'a> MultiValuesSetArgSealed for &'a Vec<usize> {}

impl<'a> MultiValuesSetArg<'a> for &'a Vec<usize> {
    type Item = usize;

    open spec fn apply_ensures(self, before: MultiValues, after: MultiValues, r: ValueResult<()>) -> bool {
        r == Ok::<(), ValueError>(()) && after@ == MultiValuesView::UIntSize(self@)
    }

    fn apply(self, target: &mut MultiValues) -> (r: ValueResult<()>) {
        target.set_uintsizes_slice(self.as_slice())
    }
}

impl MultiValuesAddArgSealed for usize {}

impl<'a> MultiValuesAddArg<'a> for usize {
    type Item = usize;

    open spec fn apply_add_ensures(self, before: MultiValues, after: MultiValues, r: ValueResult<()>) -> bool {
        (r, after@) == before@.append_uintsizes(seq![self])
    }

    fn apply_add(self, target: &mut MultiValues) -> (r: ValueResult<()>) {
        target.add_uintsize(self)
    }
}

impl MultiValuesAddArgSealed for Vec<usize> {}

impl<'a> MultiValuesAddArg<'a> for Vec<usize> {
    type Item = usize;

    open spec fn apply_add_ensures(self, before: MultiValues, after: MultiValues, r: ValueResult<()>) -> bool {
        (r, after@) == before@.append_uintsizes(self@)
    }

    fn apply_add(self, target: &mut MultiValues) -> (r: ValueResult<()>) {
        target.add_uintsizes(self)
    }
}

impl<'a> MultiValuesAddArgSealed for &'a [usize] {}

impl<'a> MultiValuesAddArg<'a> for &'a [usize] {
    type Item = usize;

    open spec fn apply_add_ensures(self, before: MultiValues, after: MultiValues, r: ValueResult<()>) -> bool {
        (r, after@) == before@.append_uintsizes(self@)
    }

    fn apply_add(self, target: &mut MultiValues) -> (r: ValueResult<()>) {
        target.add_uintsizes_slice(self)
    }
}

impl<'a> MultiValuesAddArgSealed for &'a Vec<usize> {}

impl<'a> MultiValuesAddArg<'a> for &'a Vec<usize> {
    type Item = usize;

    open spec fn apply_add_ensures(self, before: MultiValues, after: MultiValues, r: ValueResult<()>) -> bool {
        (r, after@) == before@.append_uintsizes(self@)
    }

    fn apply_add(self, target: &mut MultiValues) -> (r: ValueResult<()>) {
        target.add_uintsizes_slice(self.as_slice())
    }
}

impl MultiValuesConstructorArgSealed for Vec<usize> {}

impl<'a> MultiValuesConstructorArg<'a> for Vec<usize> {
    open spec fn into_multi_values_ensures(self, r: MultiValues) -> bool {
        r@ == MultiValuesView::UIntSize(self@)
    }

    fn into_multi_values(self) -> (r: MultiValues) {
        MultiValues::UIntSize(self)
    }
}

impl<'a> MultiValuesConstructorArgSealed for &'a [usize] {}

impl<'a> MultiValuesConstructorArg<'a> for &'a [usize] {
    open spec fn into_multi_values_ensures(self, r: MultiValues) -> bool {
        r@ == MultiValuesView::UIntSize(self@)
    }

    fn into_multi_values(self) -> (r: MultiValues) {
        MultiValues::UIntSize(clone_items(self))
    }
}

impl<'a> MultiValuesConstructorArgSealed for &'a Vec<usize> {}

impl<'a> MultiValuesConstructorArg<'a> for &'a Vec<usize> {
    open spec fn into_multi_values_ensures(self, r: MultiValues) -> bool {
        r@ == MultiValuesView::UIntSize(self@)
    }

    fn into_multi_values(self) -> (r: MultiValues) {
        MultiValues::UIntSize(clone_items(self.as_slice()))
    }
}

impl<const N: usize> MultiValuesSetArgSealed for [usize; N] {}

impl<'a, const N: usize> MultiValuesSetArg<'a> for [usize; N] {
    type Item = usize;

    open spec fn apply_ensures(self, before: MultiValues, after: MultiValues, r: ValueResult<()>) -> bool {
        r == Ok::<(), ValueError>(()) && after@ == MultiValuesView::UIntSize(self@)
    }

    fn apply(self, target: &mut MultiValues) -> (r: ValueResult<()>) {
        broadcast use vstd::array::group_array_axioms;
        target.set_uintsizes_slice(array_as_slice(&self))
    }
}

impl<'a, const N: usize> MultiValuesSetArgSealed for &'a [usize; N] {}

impl<'a, const N: usize> MultiValuesSetArg<'a> for &'a [usize; N] {
    type Item = usize;

    open spec fn apply_ensures(self, before: MultiValues, after: MultiValues, r: ValueResult<()>) -> bool {
        r == Ok::<(), ValueError>(()) && after@ == MultiValuesView::UIntSize(self@)
    }

    fn apply(self, target: &mut MultiValues) -> (r: ValueResult<()>) {
        broadcast use vstd::array::group_array_axioms;
        target.set_uintsizes_slice(array_as_slice(self))
    }
}

impl<const N: usize> MultiValuesAddArgSealed for [usize; N] {}

impl<'a, const N: usize> MultiValuesAddArg<'a> for [usize; N] {
    type Item = usize;

    open spec fn apply_add_ensures(self, before: MultiValues, after: MultiValues, r: ValueResult<()>) -> bool {
        (r, after@) == before@.append_uintsizes(self@)
    }

    fn apply_add(self, target: &mut MultiValues) -> (r: ValueResult<()>) {
        broadcast use vstd::array::group_array_axioms;
        target.add_uintsizes_slice(array_as_slice(&self))
    }
}

impl<'a, const N: usize> MultiValuesAddArgSealed for &'a [usize; N] {}

impl<'a, const N: usize> MultiValuesAddArg<'a> for &'a [usize; N] {
    type Item = usize;

    open spec fn apply_add_ensures(self, before: MultiValues, after: MultiValues, r: ValueResult<()>) -> bool {
        (r, after@) == before@.append_uintsizes(self@)
    }

    fn apply_add(self, target: &mut MultiValues) -> (r: ValueResult<()>) {
        broadcast use vstd::array::group_array_axioms;
        target.add_uintsizes_slice(array_as_slice(self))
    }
}

impl<const N: usize> MultiValuesConstructorArgSealed for [usize; N] {}

impl<'a, const N: usize> MultiValuesConstructorArg<'a> for [usize; N] {
    open spec fn into_multi_values_ensures(self, r: MultiValues) -> bool {
        r@ == MultiValuesView::UIntSize(self@)
    }

    fn into_multi_values(self) -> (r: MultiValues) {
        broadcast use vstd::array::group_array_axioms;
        MultiValues::UIntSize(clone_items(array_as_slice(&self)))
    }
}

impl<'a, const N: usize> MultiValuesConstructorArgSealed for &'a [usize; N] {}

impl<'a, const N: usize> MultiValuesConstructorArg<'a> for &'a [usize; N] {
    open spec fn into_multi_values_ensures(self, r: MultiValues) -> bool {
        r@ == MultiValuesView::UIntSize(self@)
    }

    fn into_multi_values(self) -> (r: MultiValues) {
        broadcast use vstd::array::group_array_axioms;
        MultiValues::UIntSize(clone_items(array_as_slice(self)))
    }
}

// ---------------------------------------------------------------------------
// BigInt
// ---------------------------------------------------------------------------

impl MultiValuesGetterSealed<BigInt> for MultiValues {}

impl MultiValuesGetter<BigInt> for MultiValues {
    open spec fn get_values_ensures(&self, r: ValueResult<Vec<BigInt>>) -> bool {
        ok_view(r) == self@.typed_items(DataType::BigInteger, self@.as_bigintegers())
    }

    fn get_values(&self) -> (r: ValueResult<Vec<BigInt>>) {
        match self.get_bigintegers() {
            Ok(s) => Ok(clone_items(s)),
            Err(e) => Err(e),
        }
    }
}

impl MultiValuesFirstGetterSealed<BigInt> for MultiValues {}

impl MultiValuesFirstGetter<BigInt> for MultiValues {
    open spec fn get_first_value_ensures(&self, r: ValueResult<BigInt>) -> bool {
        r == self@.typed_first(DataType::BigInteger, self@.as_bigintegers())
    }

    fn get_first_value(&self) -> (r: ValueResult<BigInt>) {
        self.get_first_biginteger()
    }
}

impl MultiValuesSetterSealed<BigInt> for MultiValues {}

impl MultiValuesSetter<BigInt> for MultiValues {
    open spec fn set_values_ensures(before: Self, after: Self, values: Vec<BigInt>, r: ValueResult<()>) -> bool {
        r == Ok::<(), ValueError>(()) && after@ == MultiValuesView::BigInteger(values@)
    }

    fn set_values(&mut self, values: Vec<BigInt>) -> (r: ValueResult<()>) {
        self.set_bigintegers(values)
    }
}

impl MultiValuesSetterSliceSealed<BigInt> for MultiValues {}

impl MultiValuesSetterSlice<BigInt> for MultiValues {
    open spec fn set_values_slice_ensures(before: Self, after: Self, values: Seq<BigInt>, r: ValueResult<()>) -> bool {
        r == Ok::<(), ValueError>(()) && after@ == MultiValuesView::BigInteger(values)
    }

    fn set_values_slice(&mut self, values: &[BigInt]) -> (r: ValueResult<()>) {
        self.set_bigintegers_slice(values)
    }
}

impl MultiValuesSingleSetterSealed<BigInt> for MultiValues {}

impl MultiValuesSingleSetter<BigInt> for MultiValues {
    open spec fn set_single_value_ensures(before: Self, after: Self, value: BigInt, r: ValueResult<()>) -> bool {
        r == Ok::<(), ValueError>(()) && after@ == MultiValuesView::BigInteger(seq![value])
    }

    fn set_single_value(&mut self, value: BigInt) -> (r: ValueResult<()>) {
        self.set_biginteger(value)
    }
}

impl MultiValuesAdderSealed<BigInt> for MultiValues {}

impl MultiValuesAdder<BigInt> for MultiValues {
    open spec fn add_value_ensures(before: Self, after: Self, value: BigInt, r: ValueResult<()>) -> bool {
        (r, after@) == before@.append_bigintegers(seq![value])
    }

    fn add_value(&mut self, value: BigInt) -> (r: ValueResult<()>) {
        self.add_biginteger(value)
    }
}

impl MultiValuesMultiAdderSealed<BigInt> for MultiValues {}

impl MultiValuesMultiAdder<BigInt> for MultiValues {
    open spec fn add_values_ensures(before: Self, after: Self, values: Vec<BigInt>, r: ValueResult<()>) -> bool {
        (r, after@) == before@.append_bigintegers(values@)
    }

    fn add_values(&mut self, values: Vec<BigInt>) -> (r: ValueResult<()>) {
        self.add_bigintegers(values)
    }
}

impl MultiValuesConstructorSealed<BigInt> for MultiValues {}

impl MultiValuesConstructor<BigInt> for MultiValues {
    open spec fn from_vec_ensures(values: Vec<BigInt>, r: Self) -> bool {
        r@ == MultiValuesView::BigInteger(values@)
    }

    fn from_vec(values: Vec<BigInt>) -> (r: Self) {
        MultiValues::BigInteger(values)
    }
}

impl MultiValuesSetArgSealed for BigInt {}

impl<'a> MultiValuesSetArg<'a> for BigInt {
    type Item = BigInt;

    open spec fn apply_ensures(self, before: MultiValues, after: MultiValues, r: ValueResult<()>) -> bool {
        r == Ok::<(), ValueError>(()) && after@ == MultiValuesView::BigInteger(seq![self])
    }

    fn apply(self, target: &mut MultiValues) -> (r: ValueResult<()>) {
        target.set_biginteger(self)
    }
}

impl MultiValuesSetArgSealed for Vec<BigInt> {}

impl<'a> MultiValuesSetArg<'a> for Vec<BigInt> {
    type Item = BigInt;

    open spec fn apply_ensures(self, before: MultiValues, after: MultiValues, r: ValueResult<()>) -> bool {
        r == Ok::<(), ValueError>(()) && after@ == MultiValuesView::BigInteger(self@)
    }

    fn apply(self, target: &mut MultiValues) -> (r: ValueResult<()>) {
        target.set_bigintegers(self)
    }
}

impl<'a> MultiValuesSetArgSealed for &'a [BigInt] {}

impl<'a> MultiValuesSetArg<'a> for &'a [BigInt] {
    type Item = BigInt;

    open spec fn apply_ensures(self, before: MultiValues, after: MultiValues, r: ValueResult<()>) -> bool {
        r == Ok::<(), ValueError>(()) && after@ == MultiValuesView::BigInteger(self@)
    }

    fn apply(self, target: &mut MultiValues) -> (r: ValueResult<()>) {
        target.set_bigintegers_slice(self)
    }
}

impl<'a> MultiValuesSetArgSealed for &'a Vec<BigInt> {}

impl<'a> MultiValuesSetArg<'a> for &'a Vec<BigInt> {
    type Item = BigInt;

    open spec fn apply_ensures(self, before: MultiValues, after: MultiValues, r: ValueResult<()>) -> bool {
        r == Ok::<(), ValueError>(()) && after@ == MultiValuesView::BigInteger(self@)
    }

    fn apply(self, target: &mut MultiValues) -> (r: ValueResult<()>) {
        target.set_bigintegers_slice(self.as_slice())
    }
}

impl MultiValuesAddArgSealed for BigInt {}

impl<'a> MultiValuesAddArg<'a> for BigInt {
    type Item = BigInt;

    open spec fn apply_add_ensures(self, before: MultiValues, after: MultiValues, r: ValueResult<()>) -> bool {
        (r, after@) == before@.append_bigintegers(seq![self])
    }

    fn apply_add(self, target: &mut MultiValues) -> (r: ValueResult<()>) {
        target.add_biginteger(self)
    }
}

impl MultiValuesAddArgSealed for Vec<BigInt> {}

impl<'a> MultiValuesAddArg<'a> for Vec<BigInt> {
    type Item = BigInt;

    open spec fn apply_add_ensures(self, before: MultiValues, after: MultiValues, r: ValueResult<()>) -> bool {
        (r, after@) == before@.append_bigintegers(self@)
    }

    fn apply_add(self, target: &mut MultiValues) -> (r: ValueResult<()>) {
        target.add_bigintegers(self)
    }
}

impl<'a> MultiValuesAddArgSealed for &'a [BigInt] {}

impl<'a> MultiValuesAddArg<'a> for &'a [BigInt] {
    type Item = BigInt;

    open spec fn apply_add_ensures(self, before: MultiValues, after: MultiValues, r: ValueResult<()>) -> bool {
        (r, after@) == before@.append_bigintegers(self@)
    }

    fn apply_add(self, target: &mut MultiValues) -> (r: ValueResult<()>) {
        target.add_bigintegers_slice(self)
    }
}

impl<'a> MultiValuesAddArgSealed for &'a Vec<BigInt> {}

impl<'a> MultiValuesAddArg<'a> for &'a Vec<BigInt> {
    type Item = BigInt;

    open spec fn apply_add_ensures(self, before: MultiValues, after: MultiValues, r: ValueResult<()>) -> bool {
        (r, after@) == before@.append_bigintegers(self@)
    }

    fn apply_add(self, target: &mut MultiValues) -> (r: ValueResult<()>) {
        target.add_bigintegers_slice(self.as_slice())
    }
}

impl MultiValuesConstructorArgSealed for Vec<BigInt> {}

impl<'a> MultiValuesConstructorArg<'a> for Vec<BigInt> {
    open spec fn into_multi_values_ensures(self, r: MultiValues) -> bool {
        r@ == MultiValuesView::BigInteger(self@)
    }

    fn into_multi_values(self) -> (r: MultiValues) {
        MultiValues::BigInteger(self)
    }
}

impl<'a> MultiValuesConstructorArgSealed for &'a [BigInt] {}

impl<'a> MultiValuesConstructorArg<'a> for &'a [BigInt] {
    open spec fn into_multi_values_ensures(self, r: MultiValues) -> bool {
        r@ == MultiValuesView::BigInteger(self@)
    }

    fn into_multi_values(self) -> (r: MultiValues) {
        MultiValues::BigInteger(clone_items(self))
    }
}

impl<'a> MultiValuesConstructorArgSealed for &'a Vec<BigInt> {}

impl<'a> MultiValuesConstructorArg<'a> for &'a Vec<BigInt> {
    open spec fn into_multi_values_ensures(self, r: MultiValues) -> bool {
        r@ == MultiValuesView::BigInteger(self@)
    }

    fn into_multi_values(self) -> (r: MultiValues) {
        MultiValues::BigInteger(clone_items(self.as_slice()))
    }
}

impl<const N: usize> MultiValuesSetArgSealed for [BigInt; N] {}

impl<'a, const N: usize> MultiValuesSetArg<'a> for [BigInt; N] {
    type Item = BigInt;

    open spec fn apply_ensures(self, before: MultiValues, after: MultiValues, r: ValueResult<()>) -> bool {
        r == Ok::<(), ValueError>(()) && after@ == MultiValuesView::BigInteger(self@)
    }

    fn apply(self, target: &mut MultiValues) -> (r: ValueResult<()>) {
        broadcast use vstd::array::group_array_axioms;
        target.set_bigintegers_slice(array_as_slice(&self))
    }
}

impl<'a, const N: usize> MultiValuesSetArgSealed for &'a [BigInt; N] {}

impl<'a, const N: usize> MultiValuesSetArg<'a> for &'a [BigInt; N] {
    type Item = BigInt;

    open spec fn apply_ensures(self, before: MultiValues, after: MultiValues, r: ValueResult<()>) -> bool {
        r == Ok::<(), ValueError>(()) && after@ == MultiValuesView::BigInteger(self@)
    }

    fn apply(self, target: &mut MultiValues) -> (r: ValueResult<()>) {
        broadcast use vstd::array::group_array_axioms;
        target.set_bigintegers_slice(array_as_slice(self))
    }
}

impl<const N: usize> MultiValuesAddArgSealed for [BigInt; N] {}

impl<'a, const N: usize> MultiValuesAddArg<'a> for [BigInt; N] {
    type Item = BigInt;

    open spec fn apply_add_ensures(self, before: MultiValues, after: MultiValues, r: ValueResult<()>) -> bool {
        (r, after@) == before@.append_bigintegers(self@)
    }

    fn apply_add(self, target: &mut MultiValues) -> (r: ValueResult<()>) {
        broadcast use vstd::array::group_array_axioms;
        target.add_bigintegers_slice(array_as_slice(&self))
    }
}

impl<'a, const N: usize> MultiValuesAddArgSealed for &'a [BigInt; N] {}

impl<'a, const N: usize> MultiValuesAddArg<'a> for &'a [BigInt; N] {
    type Item = BigInt;

    open spec fn apply_add_ensures(self, before: MultiValues, after: MultiValues, r: ValueResult<()>) -> bool {
        (r, after@) == before@.append_bigintegers(self@)
    }

    fn apply_add(self, target: &mut MultiValues) -> (r: ValueResult<()>) {
        broadcast use vstd::array::group_array_axioms;
        target.add_bigintegers_slice(array_as_slice(self))
    }
}

impl<const N: usize> MultiValuesConstructorArgSealed for [BigInt; N] {}

impl<'a, const N: usize> MultiValuesConstructorArg<'a> for [BigInt; N] {
    open spec fn into_multi_values_ensures(self, r: MultiValues) -> bool {
        r@ == MultiValuesView::BigInteger(self@)
    }

    fn into_multi_values(self) -> (r: MultiValues) {
        broadcast use vstd::array::group_array_axioms;
        MultiValues::BigInteger(clone_items(array_as_slice(&self)))
    }
}

impl<'a, const N: usize> MultiValuesConstructorArgSealed for &'a [BigInt; N] {}

impl<'a, const N: usize> MultiValuesConstructorArg<'a> for &'a [BigInt; N] {
    open spec fn into_multi_values_ensures(self, r: MultiValues) -> bool {
        r@ == MultiValuesView::BigInteger(self@)
    }

    fn into_multi_values(self) -> (r: MultiValues) {
        broadcast use vstd::array::group_array_axioms;
        MultiValues::BigInteger(clone_items(array_as_slice(self)))
    }
}

// ---------------------------------------------------------------------------
// BigDecimal
// ---------------------------------------------------------------------------

impl MultiValuesGetterSealed<BigDecimal> for MultiValues {}

impl MultiValuesGetter<BigDecimal> for MultiValues {
    open spec fn get_values_ensures(&self, r: ValueResult<Vec<BigDecimal>>) -> bool {
        ok_view(r) == self@.typed_items(DataType::BigDecimal, self@.as_bigdecimals())
    }

    fn get_values(&self) -> (r: ValueResult<Vec<BigDecimal>>) {
        match self.get_bigdecimals() {
            Ok(s) => Ok(clone_items(s)),
            Err(e) => Err(e),
        }
    }
}

impl MultiValuesFirstGetterSealed<BigDecimal> for MultiValues {}

impl MultiValuesFirstGetter<BigDecimal> for MultiValues {
    open spec fn get_first_value_ensures(&self, r: ValueResult<BigDecimal>) -> bool {
        r == self@.typed_first(DataType::BigDecimal, self@.as_bigdecimals())
    }

    fn get_first_value(&self) -> (r: ValueResult<BigDecimal>) {
        self.get_first_bigdecimal()
    }
}

impl MultiValuesSetterSealed<BigDecimal> for MultiValues {}

impl MultiValuesSetter<BigDecimal> for MultiValues {
    open spec fn set_values_ensures(before: Self, after: Self, values: Vec<BigDecimal>, r: ValueResult<()>) -> bool {
        r == Ok::<(), ValueError>(()) && after@ == MultiValuesView::BigDecimal(values@)
    }

    fn set_values(&mut self, values: Vec<BigDecimal>) -> (r: ValueResult<()>) {
        self.set_bigdecimals(values)
    }
}

impl MultiValuesSetterSliceSealed<BigDecimal> for MultiValues {}

impl MultiValuesSetterSlice<BigDecimal> for MultiValues {
    open spec fn set_values_slice_ensures(before: Self, after: Self, values: Seq<BigDecimal>, r: ValueResult<()>) -> bool {
        r == Ok::<(), ValueError>(()) && after@ == MultiValuesView::BigDecimal(values)
    }

    fn set_values_slice(&mut self, values: &[BigDecimal]) -> (r: ValueResult<()>) {
        self.set_bigdecimals_slice(values)
    }
}

impl MultiValuesSingleSetterSealed<BigDecimal> for MultiValues {}

impl MultiValuesSingleSetter<BigDecimal> for MultiValues {
    open spec fn set_single_value_ensures(before: Self, after: Self, value: BigDecimal, r: ValueResult<()>) -> bool {
        r == Ok::<(), ValueError>(()) && after@ == MultiValuesView::BigDecimal(seq![value])
    }

    fn set_single_value(&mut self, value: BigDecimal) -> (r: ValueResult<()>) {
        self.set_bigdecimal(value)
    }
}

impl MultiValuesAdderSealed<BigDecimal> for MultiValues {}

impl MultiValuesAdder<BigDecimal> for MultiValues {
    open spec fn add_value_ensures(before: Self, after: Self, value: BigDecimal, r: ValueResult<()>) -> bool {
        (r, after@) == before@.append_bigdecimals(seq![value])
    }

    fn add_value(&mut self, value: BigDecimal) -> (r: ValueResult<()>) {
        self.add_bigdecimal(value)
    }
}

impl MultiValuesMultiAdderSealed<BigDecimal> for MultiValues {}

impl MultiValuesMultiAdder<BigDecimal> for MultiValues {
    open spec fn add_values_ensures(before: Self, after: Self, values: Vec<BigDecimal>, r: ValueResult<()>) -> bool {
        (r, after@) == before@.append_bigdecimals(values@)
    }

    fn add_values(&mut self, values: Vec<BigDecimal>) -> (r: ValueResult<()>) {
        self.add_bigdecimals(values)
    }
}

impl MultiValuesConstructorSealed<BigDecimal> for MultiValues {}

impl MultiValuesConstructor<BigDecimal> for MultiValues {
    open spec fn from_vec_ensures(values: Vec<BigDecimal>, r: Self) -> bool {
        r@ == MultiValuesView::BigDecimal(values@)
    }

    fn from_vec(values: Vec<BigDecimal>) -> (r: Self) {
        MultiValues::BigDecimal(values)
    }
}

impl MultiValuesSetArgSealed for BigDecimal {}

impl<'a> MultiValuesSetArg<'a> for BigDecimal {
    type Item = BigDecimal;

    open spec fn apply_ensures(self, before: MultiValues, after: MultiValues, r: ValueResult<()>) -> bool {
        r == Ok::<(), ValueError>(()) && after@ == MultiValuesView::BigDecimal(seq![self])
    }

    fn apply(self, target: &mut MultiValues) -> (r: ValueResult<()>) {
        target.set_bigdecimal(self)
    }
}

impl MultiValuesSetArgSealed for Vec<BigDecimal> {}

impl<'a> MultiValuesSetArg<'a> for Vec<BigDecimal> {
    type Item = BigDecimal;

    open spec fn apply_ensures(self, before: MultiValues, after: MultiValues, r: ValueResult<()>) -> bool {
        r == Ok::<(), ValueError>(()) && after@ == MultiValuesView::BigDecimal(self@)
    }

    fn apply(self, target: &mut MultiValues) -> (r: ValueResult<()>) {
        target.set_bigdecimals(self)
    }
}

impl<'a> MultiValuesSetArgSealed for &'a [BigDecimal] {}

impl<'a> MultiValuesSetArg<'a> for &'a [BigDecimal] {
    type Item = BigDecimal;

    open spec fn apply_ensures(self, before: MultiValues, after: MultiValues, r: ValueResult<()>) -> bool {
        r == Ok::<(), ValueError>(()) && after@ == MultiValuesView::BigDecimal(self@)
    }

    fn apply(self, target: &mut MultiValues) -> (r: ValueResult<()>) {
        target.set_bigdecimals_slice(self)
    }
}

impl<'a> MultiValuesSetArgSealed for &'a Vec<BigDecimal> {}

impl<'a> MultiValuesSetArg<'a> for &'a Vec<BigDecimal> {
    type Item = BigDecimal;

    open spec fn apply_ensures(self, before: MultiValues, after: MultiValues, r: ValueResult<()>) -> bool {
        r == Ok::<(), ValueError>(()) && after@ == MultiValuesView::BigDecimal(self@)
    }

    fn apply(self, target: &mut MultiValues) -> (r: ValueResult<()>) {
        target.set_bigdecimals_slice(self.as_slice())
    }
}

impl MultiValuesAddArgSealed for BigDecimal {}

impl<'a> MultiValuesAddArg<'a> for BigDecimal {
    type Item = BigDecimal;

    open spec fn apply_add_ensures(self, before: MultiValues, after: MultiValues, r: ValueResult<()>) -> bool {
        (r, after@) == before@.append_bigdecimals(seq![self])
    }

    fn apply_add(self, target: &mut MultiValues) -> (r: ValueResult<()>) {
        target.add_bigdecimal(self)
    }
}

impl MultiValuesAddArgSealed for Vec<BigDecimal> {}

impl<'a> MultiValuesAddArg<'a> for Vec<BigDecimal> {
    type Item = BigDecimal;

    open spec fn apply_add_ensures(self, before: MultiValues, after: MultiValues, r: ValueResult<()>) -> bool {
        (r, after@) == before@.append_bigdecimals(self@)
    }

    fn apply_add(self, target: &mut MultiValues) -> (r: ValueResult<()>) {
        target.add_bigdecimals(self)
    }
}

impl<'a> MultiValuesAddArgSealed for &'a [BigDecimal] {}

impl<'a> MultiValuesAddArg<'a> for &'a [BigDecimal] {
    type Item = BigDecimal;

    open spec fn apply_add_ensures(self, before: MultiValues, after: MultiValues, r: ValueResult<()>) -> bool {
        (r, after@) == before@.append_bigdecimals(self@)
    }

    fn apply_add(self, target: &mut MultiValues) -> (r: ValueResult<()>) {
        target.add_bigdecimals_slice(self)
    }
}

impl<'a> MultiValuesAddArgSealed for &'a Vec<BigDecimal> {}

impl<'a> MultiValuesAddArg<'a> for &'a Vec<BigDecimal> {
    type Item = BigDecimal;

    open spec fn apply_add_ensures(self, before: MultiValues, after: MultiValues, r: ValueResult<()>) -> bool {
        (r, after@) == before@.append_bigdecimals(self@)
    }

    fn apply_add(self, target: &mut MultiValues) -> (r: ValueResult<()>) {
        target.add_bigdecimals_slice(self.as_slice())
    }
}

impl MultiValuesConstructorArgSealed for Vec<BigDecimal> {}

impl<'a> MultiValuesConstructorArg<'a> for Vec<BigDecimal> {
    open spec fn into_multi_values_ensures(self, r: MultiValues) -> bool {
        r@ == MultiValuesView::BigDecimal(self@)
    }

    fn into_multi_values(self) -> (r: MultiValues) {
        MultiValues::BigDecimal(self)
    }
}

impl<'a> MultiValuesConstructorArgSealed for &'a [BigDecimal] {}

impl<'a> MultiValuesConstructorArg<'a> for &'a [BigDecimal] {
    open spec fn into_multi_values_ensures(self, r: MultiValues) -> bool {
        r@ == MultiValuesView::BigDecimal(self@)
    }

    fn into_multi_values(self) -> (r: MultiValues) {
        MultiValues::BigDecimal(clone_items(self))
    }
}

impl<'a> MultiValuesConstructorArgSealed for &'a Vec<BigDecimal> {}

impl<'a> MultiValuesConstructorArg<'a> for &'a Vec<BigDecimal> {
    open spec fn into_multi_values_ensures(self, r: MultiValues) -> bool {
        r@ == MultiValuesView::BigDecimal(self@)
    }

    fn into_multi_values(self) -> (r: MultiValues) {
        MultiValues::BigDecimal(clone_items(self.as_slice()))
    }
}

impl<const N: usize> MultiValuesSetArgSealed for [BigDecimal; N] {}

impl<'a, const N: usize> MultiValuesSetArg<'a> for [BigDecimal; N] {
    type Item = BigDecimal;

    open spec fn apply_ensures(self, before: MultiValues, after: MultiValues, r: ValueResult<()>) -> bool {
        r == Ok::<(), ValueError>(()) && after@ == MultiValuesView::BigDecimal(self@)
    }

    fn apply(self, target: &mut MultiValues) -> (r: ValueResult<()>) {
        broadcast use vstd::array::group_array_axioms;
        target.set_bigdecimals_slice(array_as_slice(&self))
    }
}

impl<'a, const N: usize> MultiValuesSetArgSealed for &'a [BigDecimal; N] {}

impl<'a, const N: usize> MultiValuesSetArg<'a> for &'a [BigDecimal; N] {
    type Item = BigDecimal;

    open spec fn apply_ensures(self, before: MultiValues, after: MultiValues, r: ValueResult<()>) -> bool {
        r == Ok::<(), ValueError>(()) && after@ == MultiValuesView::BigDecimal(self@)
    }

    fn apply(self, target: &mut MultiValues) -> (r: ValueResult<()>) {
        broadcast use vstd::array::group_array_axioms;
        target.set_bigdecimals_slice(array_as_slice(self))
    }
}

impl<const N: usize> MultiValuesAddArgSealed for [BigDecimal; N] {}

impl<'a, const N: usize> MultiValuesAddArg<'a> for [BigDecimal; N] {
    type Item = BigDecimal;

    open spec fn apply_add_ensures(self, before: MultiValues, after: MultiValues, r: ValueResult<()>) -> bool {
        (r, after@) == before@.append_bigdecimals(self@)
    }

    fn apply_add(self, target: &mut MultiValues) -> (r: ValueResult<()>) {
        broadcast use vstd::array::group_array_axioms;
        target.add_bigdecimals_slice(array_as_slice(&self))
    }
}

impl<'a, const N: usize> MultiValuesAddArgSealed for &'a [BigDecimal; N] {}

impl<'a, const N: usize> MultiValuesAddArg<'a> for &'a [BigDecimal; N] {
    type Item = BigDecimal;

    open spec fn apply_add_ensures(self, before: MultiValues, after: MultiValues, r: ValueResult<()>) -> bool {
        (r, after@) == before@.append_bigdecimals(self@)
    }

    fn apply_add(self, target: &mut MultiValues) -> (r: ValueResult<()>) {
        broadcast use vstd::array::group_array_axioms;
        target.add_bigdecimals_slice(array_as_slice(self))
    }
}

impl<const N: usize> MultiValuesConstructorArgSealed for [BigDecimal; N] {}

impl<'a, const N: usize> MultiValuesConstructorArg<'a> for [BigDecimal; N] {
    open spec fn into_multi_values_ensures(self, r: MultiValues) -> bool {
        r@ == MultiValuesView::BigDecimal(self@)
    }

    fn into_multi_values(self) -> (r: MultiValues) {
        broadcast use vstd::array::group_array_axioms;
        MultiValues::BigDecimal(clone_items(array_as_slice(&self)))
    }
}

impl<'a, const N: usize> MultiValuesConstructorArgSealed for &'a [BigDecimal; N] {}

impl<'a, const N: usize> MultiValuesConstructorArg<'a> for &'a [BigDecimal; N] {
    open spec fn into_multi_values_ensures(self, r: MultiValues) -> bool {
        r@ == MultiValuesView::BigDecimal(self@)
    }

    fn into_multi_values(self) -> (r: MultiValues) {
        broadcast use vstd::array::group_array_axioms;
        MultiValues::BigDecimal(clone_items(array_as_slice(self)))
    }
}

// ---------------------------------------------------------------------------
// String
// ---------------------------------------------------------------------------

impl MultiValuesGetterSealed<String> for MultiValues {}

impl MultiValuesGetter<String> for MultiValues {
    open spec fn get_values_ensures(&self, r: ValueResult<Vec<String>>) -> bool {
        match r {
            Ok(v) => self@.typed_items(DataType::String, self@.as_strings()) == Ok::<Seq<Seq<char>>, ValueError>(strings_view(v@)),
            Err(e) => self@.typed_items(DataType::String, self@.as_strings()) == Err::<Seq<Seq<char>>, ValueError>(e),
        }
    }

    fn get_values(&self) -> (r: ValueResult<Vec<String>>) {
        match self.get_strings() {
            Ok(s) => Ok(clone_items(s)),
            Err(e) => Err(e),
        }
    }
}

impl MultiValuesFirstGetterSealed<String> for MultiValues {}

impl MultiValuesFirstGetter<String> for MultiValues {
    open spec fn get_first_value_ensures(&self, r: ValueResult<String>) -> bool {
        ok_view(r) == self@.typed_first(DataType::String, self@.as_strings())
    }

    fn get_first_value(&self) -> (r: ValueResult<String>) {
        match self.get_first_string() {
            Ok(s) => Ok(String::from_str(s)),
            Err(e) => Err(e),
        }
    }
}

impl MultiValuesSetterSealed<String> for MultiValues {}

impl MultiValuesSetter<String> for MultiValues {
    open spec fn set_values_ensures(before: Self, after: Self, values: Vec<String>, r: ValueResult<()>) -> bool {
        r == Ok::<(), ValueError>(()) && after@ == MultiValuesView::String(strings_view(values@))
    }

    fn set_values(&mut self, values: Vec<String>) -> (r: ValueResult<()>) {
        self.set_strings(values)
    }
}

impl MultiValuesSetterSliceSealed<String> for MultiValues {}

impl MultiValuesSetterSlice<String> for MultiValues {
    open spec fn set_values_slice_ensures(before: Self, after: Self, values: Seq<String>, r: ValueResult<()>) -> bool {
        r == Ok::<(), ValueError>(()) && after@ == MultiValuesView::String(strings_view(values))
    }

    fn set_values_slice(&mut self, values: &[String]) -> (r: ValueResult<()>) {
        self.set_strings_slice(values)
    }
}

impl MultiValuesSingleSetterSealed<String> for MultiValues {}

impl MultiValuesSingleSetter<String> for MultiValues {
    open spec fn set_single_value_ensures(before: Self, after: Self, value: String, r: ValueResult<()>) -> bool {
        r == Ok::<(), ValueError>(()) && after@ == MultiValuesView::String(seq![value@])
    }

    fn set_single_value(&mut self, value: String) -> (r: ValueResult<()>) {
        self.set_string(value)
    }
}

impl MultiValuesAdderSealed<String> for MultiValues {}

impl MultiValuesAdder<String> for MultiValues {
    open spec fn add_value_ensures(before: Self, after: Self, value: String, r: ValueResult<()>) -> bool {
        (r, after@) == before@.append_strings(seq![value@])
    }

    fn add_value(&mut self, value: String) -> (r: ValueResult<()>) {
        self.add_string(value)
    }
}

impl MultiValuesMultiAdderSealed<String> for MultiValues {}

impl MultiValuesMultiAdder<String> for MultiValues {
    open spec fn add_values_ensures(before: Self, after: Self, values: Vec<String>, r: ValueResult<()>) -> bool {
        (r, after@) == before@.append_strings(strings_view(values@))
    }

    fn add_values(&mut self, values: Vec<String>) -> (r: ValueResult<()>) {
        self.add_strings(values)
    }
}

impl MultiValuesConstructorSealed<String> for MultiValues {}

impl MultiValuesConstructor<String> for MultiValues {
    open spec fn from_vec_ensures(values: Vec<String>, r: Self) -> bool {
        r@ == MultiValuesView::String(strings_view(values@))
    }

    fn from_vec(values: Vec<String>) -> (r: Self) {
        MultiValues::String(values)
    }
}

impl MultiValuesSetArgSealed for String {}

impl<'a> MultiValuesSetArg<'a> for String {
    type Item = String;

    open spec fn apply_ensures(self, before: MultiValues, after: MultiValues, r: ValueResult<()>) -> bool {
        r == Ok::<(), ValueError>(()) && after@ == MultiValuesView::String(seq![self@])
    }

    fn apply(self, target: &mut MultiValues) -> (r: ValueResult<()>) {
        target.set_string(self)
    }
}

impl MultiValuesSetArgSealed for Vec<String> {}

impl<'a> MultiValuesSetArg<'a> for Vec<String> {
    type Item = String;

    open spec fn apply_ensures(self, before: MultiValues, after: MultiValues, r: ValueResult<()>) -> bool {
        r == Ok::<(), ValueError>(()) && after@ == MultiValuesView::String(strings_view(self@))
    }

    fn apply(self, target: &mut MultiValues) -> (r: ValueResult<()>) {
        target.set_strings(self)
    }
}

impl<'a> MultiValuesSetArgSealed for &'a [String] {}

impl<'a> MultiValuesSetArg<'a> for &'a [String] {
    type Item = String;

    open spec fn apply_ensures(self, before: MultiValues, after: MultiValues, r: ValueResult<()>) -> bool {
        r == Ok::<(), ValueError>(()) && after@ == MultiValuesView::String(strings_view(self@))
    }

    fn apply(self, target: &mut MultiValues) -> (r: ValueResult<()>) {
        target.set_strings_slice(self)
    }
}

impl<'a> MultiValuesSetArgSealed for &'a Vec<String> {}

impl<'a> MultiValuesSetArg<'a> for &'a Vec<String> {
    type Item = String;

    open spec fn apply_ensures(self, before: MultiValues, after: MultiValues, r: ValueResult<()>) -> bool {
        r == Ok::<(), ValueError>(()) && after@ == MultiValuesView::String(strings_view(self@))
    }

    fn apply(self, target: &mut MultiValues) -> (r: ValueResult<()>) {
        target.set_strings_slice(self.as_slice())
    }
}

impl MultiValuesAddArgSealed for String {}

impl<'a> MultiValuesAddArg<'a> for String {
    type Item = String;

    open spec fn apply_add_ensures(self, before: MultiValues, after: MultiValues, r: ValueResult<()>) -> bool {
        (r, after@) == before@.append_strings(seq![self@])
    }

    fn apply_add(self, target: &mut MultiValues) -> (r: ValueResult<()>) {
        target.add_string(self)
    }
}

impl MultiValuesAddArgSealed for Vec<String> {}

impl<'a> MultiValuesAddArg<'a> for Vec<String> {
    type Item = String;

    open spec fn apply_add_ensures(self, before: MultiValues, after: MultiValues, r: ValueResult<()>) -> bool {
        (r, after@) == before@.append_strings(strings_view(self@))
    }

    fn apply_add(self, target: &mut MultiValues) -> (r: ValueResult<()>) {
        target.add_strings(self)
    }
}

impl<'a> MultiValuesAddArgSealed for &'a [String] {}

impl<'a> MultiValuesAddArg<'a> for &'a [String] {
    type Item = String;

    open spec fn apply_add_ensures(self, before: MultiValues, after: MultiValues, r: ValueResult<()>) -> bool {
        (r, after@) == before@.append_strings(strings_view(self@))
    }

    fn apply_add(self, target: &mut MultiValues) -> (r: ValueResult<()>) {
        target.add_strings_slice(self)
    }
}

impl<'a> MultiValuesAddArgSealed for &'a Vec<String> {}

impl<'a> MultiValuesAddArg<'a> for &'a Vec<String> {
    type Item = String;

    open spec fn apply_add_ensures(self, before: MultiValues, after: MultiValues, r: ValueResult<()>) -> bool {
        (r, after@) == before@.append_strings(strings_view(self@))
    }

    fn apply_add(self, target: &mut MultiValues) -> (r: ValueResult<()>) {
        target.add_strings_slice(self.as_slice())
    }
}

impl MultiValuesConstructorArgSealed for Vec<String> {}

impl<'a> MultiValuesConstructorArg<'a> for Vec<String> {
    open spec fn into_multi_values_ensures(self, r: MultiValues) -> bool {
        r@ == MultiValuesView::String(strings_view(self@))
    }

    fn into_multi_values(self) -> (r: MultiValues) {
        MultiValues::String(self)
    }
}

impl<'a> MultiValuesConstructorArgSealed for &'a [String] {}

impl<'a> MultiValuesConstructorArg<'a> for &'a [String] {
    open spec fn into_multi_values_ensures(self, r: MultiValues) -> bool {
        r@ == MultiValuesView::String(strings_view(self@))
    }

    fn into_multi_values(self) -> (r: MultiValues) {
        MultiValues::String(clone_items(self))
    }
}

impl<'a> MultiValuesConstructorArgSealed for &'a Vec<String> {}

impl<'a> MultiValuesConstructorArg<'a> for &'a Vec<String> {
    open spec fn into_multi_values_ensures(self, r: MultiValues) -> bool {
        r@ == MultiValuesView::String(strings_view(self@))
    }

    fn into_multi_values(self) -> (r: MultiValues) {
        MultiValues::String(clone_items(self.as_slice()))
    }
}

impl<const N: usize> MultiValuesSetArgSealed for [String; N] {}

impl<'a, const N: usize> MultiValuesSetArg<'a> for [String; N] {
    type Item = String;

    open spec fn apply_ensures(self, before: MultiValues, after: MultiValues, r: ValueResult<()>) -> bool {
        r == Ok::<(), ValueError>(()) && after@ == MultiValuesView::String(strings_view(self@))
    }

    fn apply(self, target: &mut MultiValues) -> (r: ValueResult<()>) {
        broadcast use vstd::array::group_array_axioms;
        target.set_strings_slice(array_as_slice(&self))
    }
}

impl<'a, const N: usize> MultiValuesSetArgSealed for &'a [String; N] {}

impl<'a, const N: usize> MultiValuesSetArg<'a> for &'a [String; N] {
    type Item = String;

    open spec fn apply_ensures(self, before: MultiValues, after: MultiValues, r: ValueResult<()>) -> bool {
        r == Ok::<(), ValueError>(()) && after@ == MultiValuesView::String(strings_view(self@))
    }

    fn apply(self, target: &mut MultiValues) -> (r: ValueResult<()>) {
        broadcast use vstd::array::group_array_axioms;
        target.set_strings_slice(array_as_slice(self))
    }
}

impl<const N: usize> MultiValuesAddArgSealed for [String; N] {}

impl<'a, const N: usize> MultiValuesAddArg<'a> for [String; N] {
    type Item = String;

    open spec fn apply_add_ensures(self, before: MultiValues, after: MultiValues, r: ValueResult<()>) -> bool {
        (r, after@) == before@.append_strings(strings_view(self@))
    }

    fn apply_add(self, target: &mut MultiValues) -> (r: ValueResult<()>) {
        broadcast use vstd::array::group_array_axioms;
        target.add_strings_slice(array_as_slice(&self))
    }
}

impl<'a, const N: usize> MultiValuesAddArgSealed for &'a [String; N] {}

impl<'a, const N: usize> MultiValuesAddArg<'a> for &'a [String; N] {
    type Item = String;

    open spec fn apply_add_ensures(self, before: MultiValues, after: MultiValues, r: ValueResult<()>) -> bool {
        (r, after@) == before@.append_strings(strings_view(self@))
    }

    fn apply_add(self, target: &mut MultiValues) -> (r: ValueResult<()>) {
        broadcast use vstd::array::group_array_axioms;
        target.add_strings_slice(array_as_slice(self))
    }
}

impl<const N: usize> MultiValuesConstructorArgSealed for [String; N] {}

impl<'a, const N: usize> MultiValuesConstructorArg<'a> for [String; N] {
    open spec fn into_multi_values_ensures(self, r: MultiValues) -> bool {
        r@ == MultiValuesView::String(strings_view(self@))
    }

    fn into_multi_values(self) -> (r: MultiValues) {
        broadcast use vstd::array::group_array_axioms;
        MultiValues::String(clone_items(array_as_slice(&self)))
    }
}

impl<'a, const N: usize> MultiValuesConstructorArgSealed for &'a [String; N] {}

impl<'a, const N: usize> MultiValuesConstructorArg<'a> for &'a [String; N] {
    open spec fn into_multi_values_ensures(self, r: MultiValues) -> bool {
        r@ == MultiValuesView::String(strings_view(self@))
    }

    fn into_multi_values(self) -> (r: MultiValues) {
        broadcast use vstd::array::group_array_axioms;
        MultiValues::String(clone_items(array_as_slice(self)))
    }
}

// ---------------------------------------------------------------------------
// NaiveDate
// ---------------------------------------------------------------------------

impl MultiValuesGetterSealed<NaiveDate> for MultiValues {}

impl MultiValuesGetter<NaiveDate> for MultiValues {
    open spec fn get_values_ensures(&self, r: ValueResult<Vec<NaiveDate>>) -> bool {
        ok_view(r) == self@.typed_items(DataType::Date, self@.as_dates())
    }

    fn get_values(&self) -> (r: ValueResult<Vec<NaiveDate>>) {
        match self.get_dates() {
            Ok(s) => Ok(clone_items(s)),
            Err(e) => Err(e),
        }
    }
}

impl MultiValuesFirstGetterSealed<NaiveDate> for MultiValues {}

impl MultiValuesFirstGetter<NaiveDate> for MultiValues {
    open spec fn get_first_value_ensures(&self, r: ValueResult<NaiveDate>) -> bool {
        r == self@.typed_first(DataType::Date, self@.as_dates())
    }

    fn get_first_value(&self) -> (r: ValueResult<NaiveDate>) {
        self.get_first_date()
    }
}

impl MultiValuesSetterSealed<NaiveDate> for MultiValues {}

impl MultiValuesSetter<NaiveDate> for MultiValues {
    open spec fn set_values_ensures(before: Self, after: Self, values: Vec<NaiveDate>, r: ValueResult<()>) -> bool {
        r == Ok::<(), ValueError>(()) && after@ == MultiValuesView::Date(values@)
    }

    fn set_values(&mut self, values: Vec<NaiveDate>) -> (r: ValueResult<()>) {
        self.set_dates(values)
    }
}

impl MultiValuesSetterSliceSealed<NaiveDate> for MultiValues {}

impl MultiValuesSetterSlice<NaiveDate> for MultiValues {
    open spec fn set_values_slice_ensures(before: Self, after: Self, values: Seq<NaiveDate>, r: ValueResult<()>) -> bool {
        r == Ok::<(), ValueError>(()) && after@ == MultiValuesView::Date(values)
    }

    fn set_values_slice(&mut self, values: &[NaiveDate]) -> (r: ValueResult<()>) {
        self.set_dates_slice(values)
    }
}

impl MultiValuesSingleSetterSealed<NaiveDate> for MultiValues {}

impl MultiValuesSingleSetter<NaiveDate> for MultiValues {
    open spec fn set_single_value_ensures(before: Self, after: Self, value: NaiveDate, r: ValueResult<()>) -> bool {
        r == Ok::<(), ValueError>(()) && after@ == MultiValuesView::Date(seq![value])
    }

    fn set_single_value(&mut self, value: NaiveDate) -> (r: ValueResult<()>) {
        self.set_date(value)
    }
}

impl MultiValuesAdderSealed<NaiveDate> for MultiValues {}

impl MultiValuesAdder<NaiveDate> for MultiValues {
    open spec fn add_value_ensures(before: Self, after: Self, value: NaiveDate, r: ValueResult<()>) -> bool {
        (r, after@) == before@.append_dates(seq![value])
    }

    fn add_value(&mut self, value: NaiveDate) -> (r: ValueResult<()>) {
        self.add_date(value)
    }
}

impl MultiValuesMultiAdderSealed<NaiveDate> for MultiValues {}

impl MultiValuesMultiAdder<NaiveDate> for MultiValues {
    open spec fn add_values_ensures(before: Self, after: Self, values: Vec<NaiveDate>, r: ValueResult<()>) -> bool {
        (r, after@) == before@.append_dates(values@)
    }

    fn add_values(&mut self, values: Vec<NaiveDate>) -> (r: ValueResult<()>) {
        self.add_dates(values)
    }
}

impl MultiValuesConstructorSealed<NaiveDate> for MultiValues {}

impl MultiValuesConstructor<NaiveDate> for MultiValues {
    open spec fn from_vec_ensures(values: Vec<NaiveDate>, r: Self) -> bool {
        r@ == MultiValuesView::Date(values@)
    }

    fn from_vec(values: Vec<NaiveDate>) -> (r: Self) {
        MultiValues::Date(values)
    }
}

impl MultiValuesSetArgSealed for NaiveDate {}

impl<'a> MultiValuesSetArg<'a> for NaiveDate {
    type Item = NaiveDate;

    open spec fn apply_ensures(self, before: MultiValues, after: MultiValues, r: ValueResult<()>) -> bool {
        r == Ok::<(), ValueError>(()) && after@ == MultiValuesView::Date(seq![self])
    }

    fn apply(self, target: &mut MultiValues) -> (r: ValueResult<()>) {
        target.set_date(self)
    }
}

impl MultiValuesSetArgSealed for Vec<NaiveDate> {}

impl<'a> MultiValuesSetArg<'a> for Vec<NaiveDate> {
    type Item = NaiveDate;

    open spec fn apply_ensures(self, before: MultiValues, after: MultiValues, r: ValueResult<()>) -> bool {
        r == Ok::<(), ValueError>(()) && after@ == MultiValuesView::Date(self@)
    }

    fn apply(self, target: &mut MultiValues) -> (r: ValueResult<()>) {
        target.set_dates(self)
    }
}

impl<'a> MultiValuesSetArgSealed for &'a [NaiveDate] {}

impl<'a> MultiValuesSetArg<'a> for &'a [NaiveDate] {
    type Item = NaiveDate;

    open spec fn apply_ensures(self, before: MultiValues, after: MultiValues, r: ValueResult<()>) -> bool {
        r == Ok::<(), ValueError>(()) && after@ == MultiValuesView::Date(self@)
    }

    fn apply(self, target: &mut MultiValues) -> (r: ValueResult<()>) {
        target.set_dates_slice(self)
    }
}

impl<'a> MultiValuesSetArgSealed for &'a Vec<NaiveDate> {}

impl<'a> MultiValuesSetArg<'a> for &'a Vec<NaiveDate> {
    type Item = NaiveDate;

    open spec fn apply_ensures(self, before: MultiValues, after: MultiValues, r: ValueResult<()>) -> bool {
        r == Ok::<(), ValueError>(()) && after@ == MultiValuesView::Date(self@)
    }

    fn apply(self, target: &mut MultiValues) -> (r: ValueResult<()>) {
        target.set_dates_slice(self.as_slice())
    }
}

impl MultiValuesAddArgSealed for NaiveDate {}

impl<'a> MultiValuesAddArg<'a> for NaiveDate {
    type Item = NaiveDate;

    open spec fn apply_add_ensures(self, before: MultiValues, after: MultiValues, r: ValueResult<()>) -> bool {
        (r, after@) == before@.append_dates(seq![self])
    }

    fn apply_add(self, target: &mut MultiValues) -> (r: ValueResult<()>) {
        target.add_date(self)
    }
}

impl MultiValuesAddArgSealed for Vec<NaiveDate> {}

impl<'a> MultiValuesAddArg<'a> for Vec<NaiveDate> {
    type Item = NaiveDate;

    open spec fn apply_add_ensures(self, before: MultiValues, after: MultiValues, r: ValueResult<()>) -> bool {
        (r, after@) == before@.append_dates(self@)
    }

    fn apply_add(self, target: &mut MultiValues) -> (r: ValueResult<()>) {
        target.add_dates(self)
    }
}

impl<'a> MultiValuesAddArgSealed for &'a [NaiveDate] {}

impl<'a> MultiValuesAddArg<'a> for &'a [NaiveDate] {
    type Item = NaiveDate;

    open spec fn apply_add_ensures(self, before: MultiValues, after: MultiValues, r: ValueResult<()>) -> bool {
        (r, after@) == before@.append_dates(self@)
    }

    fn apply_add(self, target: &mut MultiValues) -> (r: ValueResult<()>) {
        target.add_dates_slice(self)
    }
}

impl<'a> MultiValuesAddArgSealed for &'a Vec<NaiveDate> {}

impl<'a> MultiValuesAddArg<'a> for &'a Vec<NaiveDate> {
    type Item = NaiveDate;

    open spec fn apply_add_ensures(self, before: MultiValues, after: MultiValues, r: ValueResult<()>) -> bool {
        (r, after@) == before@.append_dates(self@)
    }

    fn apply_add(self, target: &mut MultiValues) -> (r: ValueResult<()>) {
        target.add_dates_slice(self.as_slice())
    }
}

impl MultiValuesConstructorArgSealed for Vec<NaiveDate> {}

impl<'a> MultiValuesConstructorArg<'a> for Vec<NaiveDate> {
    open spec fn into_multi_values_ensures(self, r: MultiValues) -> bool {
        r@ == MultiValuesView::Date(self@)
    }

    fn into_multi_values(self) -> (r: MultiValues) {
        MultiValues::Date(self)
    }
}

impl<'a> MultiValuesConstructorArgSealed for &'a [NaiveDate] {}

impl<'a> MultiValuesConstructorArg<'a> for &'a [NaiveDate] {
    open spec fn into_multi_values_ensures(self, r: MultiValues) -> bool {
        r@ == MultiValuesView::Date(self@)
    }

    fn into_multi_values(self) -> (r: MultiValues) {
        MultiValues::Date(clone_items(self))
    }
}

impl<'a> MultiValuesConstructorArgSealed for &'a Vec<NaiveDate> {}

impl<'a> MultiValuesConstructorArg<'a> for &'a Vec<NaiveDate> {
    open spec fn into_multi_values_ensures(self, r: MultiValues) -> bool {
        r@ == MultiValuesView::Date(self@)
    }

    fn into_multi_values(self) -> (r: MultiValues) {
        MultiValues::Date(clone_items(self.as_slice()))
    }
}

impl<const N: usize> MultiValuesSetArgSealed for [NaiveDate; N] {}

impl<'a, const N: usize> MultiValuesSetArg<'a> for [NaiveDate; N] {
    type Item = NaiveDate;

    open spec fn apply_ensures(self, before: MultiValues, after: MultiValues, r: ValueResult<()>) -> bool {
        r == Ok::<(), ValueError>(()) && after@ == MultiValuesView::Date(self@)
    }

    fn apply(self, target: &mut MultiValues) -> (r: ValueResult<()>) {
        broadcast use vstd::array::group_array_axioms;
        target.set_dates_slice(array_as_slice(&self))
    }
}

impl<'a, const N: usize> MultiValuesSetArgSealed for &'a [NaiveDate; N] {}

impl<'a, const N: usize> MultiValuesSetArg<'a> for &'a [NaiveDate; N] {
    type Item = NaiveDate;

    open spec fn apply_ensures(self, before: MultiValues, after: MultiValues, r: ValueResult<()>) -> bool {
        r == Ok::<(), ValueError>(()) && after@ == MultiValuesView::Date(self@)
    }

    fn apply(self, target: &mut MultiValues) -> (r: ValueResult<()>) {
        broadcast use vstd::array::group_array_axioms;
        target.set_dates_slice(array_as_slice(self))
    }
}

impl<const N: usize> MultiValuesAddArgSealed for [NaiveDate; N] {}

impl<'a, const N: usize> MultiValuesAddArg<'a> for [NaiveDate; N] {
    type Item = NaiveDate;

    open spec fn apply_add_ensures(self, before: MultiValues, after: MultiValues, r: ValueResult<()>) -> bool {
        (r, after@) == before@.append_dates(self@)
    }

    fn apply_add(self, target: &mut MultiValues) -> (r: ValueResult<()>) {
        broadcast use vstd::array::group_array_axioms;
        target.add_dates_slice(array_as_slice(&self))
    }
}

impl<'a, const N: usize> MultiValuesAddArgSealed for &'a [NaiveDate; N] {}

impl<'a, const N: usize> MultiValuesAddArg<'a> for &'a [NaiveDate; N] {
    type Item = NaiveDate;

    open spec fn apply_add_ensures(self, before: MultiValues, after: MultiValues, r: ValueResult<()>) -> bool {
        (r, after@) == before@.append_dates(self@)
    }

    fn apply_add(self, target: &mut MultiValues) -> (r: ValueResult<()>) {
        broadcast use vstd::array::group_array_axioms;
        target.add_dates_slice(array_as_slice(self))
    }
}

impl<const N: usize> MultiValuesConstructorArgSealed for [NaiveDate; N] {}

impl<'a, const N: usize> MultiValuesConstructorArg<'a> for [NaiveDate; N] {
    open spec fn into_multi_values_ensures(self, r: MultiValues) -> bool {
        r@ == MultiValuesView::Date(self@)
    }

    fn into_multi_values(self) -> (r: MultiValues) {
        broadcast use vstd::array::group_array_axioms;
        MultiValues::Date(clone_items(array_as_slice(&self)))
    }
}

impl<'a, const N: usize> MultiValuesConstructorArgSealed for &'a [NaiveDate; N] {}

impl<'a, const N: usize> MultiValuesConstructorArg<'a> for &'a [NaiveDate; N] {
    open spec fn into_multi_values_ensures(self, r: MultiValues) -> bool {
        r@ == MultiValuesView::Date(self@)
    }

    fn into_multi_values(self) -> (r: MultiValues) {
        broadcast use vstd::array::group_array_axioms;
        MultiValues::Date(clone_items(array_as_slice(self)))
    }
}

// ---------------------------------------------------------------------------
// NaiveTime
// ---------------------------------------------------------------------------

impl MultiValuesGetterSealed<NaiveTime> for MultiValues {}

impl MultiValuesGetter<NaiveTime> for MultiValues {
    open spec fn get_values_ensures(&self, r: ValueResult<Vec<NaiveTime>>) -> bool {
        ok_view(r) == self@.typed_items(DataType::Time, self@.as_times())
    }

    fn get_values(&self) -> (r: ValueResult<Vec<NaiveTime>>) {
        match self.get_times() {
            Ok(s) => Ok(clone_items(s)),
            Err(e) => Err(e),
        }
    }
}

impl MultiValuesFirstGetterSealed<NaiveTime> for MultiValues {}

impl MultiValuesFirstGetter<NaiveTime> for MultiValues {
    open spec fn get_first_value_ensures(&self, r: ValueResult<NaiveTime>) -> bool {
        r == self@.typed_first(DataType::Time, self@.as_times())
    }

    fn get_first_value(&self) -> (r: ValueResult<NaiveTime>) {
        self.get_first_time()
    }
}

impl MultiValuesSetterSealed<NaiveTime> for MultiValues {}

impl MultiValuesSetter<NaiveTime> for MultiValues {
    open spec fn set_values_ensures(before: Self, after: Self, values: Vec<NaiveTime>, r: ValueResult<()>) -> bool {
        r == Ok::<(), ValueError>(()) && after@ == MultiValuesView::Time(values@)
    }

    fn set_values(&mut self, values: Vec<NaiveTime>) -> (r: ValueResult<()>) {
        self.set_times(values)
    }
}

impl MultiValuesSetterSliceSealed<NaiveTime> for MultiValues {}

impl MultiValuesSetterSlice<NaiveTime> for MultiValues {
    open spec fn set_values_slice_ensures(before: Self, after: Self, values: Seq<NaiveTime>, r: ValueResult<()>) -> bool {
        r == Ok::<(), ValueError>(()) && after@ == MultiValuesView::Time(values)
    }

    fn set_values_slice(&mut self, values: &[NaiveTime]) -> (r: ValueResult<()>) {
        self.set_times_slice(values)
    }
}

impl MultiValuesSingleSetterSealed<NaiveTime> for MultiValues {}

impl MultiValuesSingleSetter<NaiveTime> for MultiValues {
    open spec fn set_single_value_ensures(before: Self, after: Self, value: NaiveTime, r: ValueResult<()>) -> bool {
        r == Ok::<(), ValueError>(()) && after@ == MultiValuesView::Time(seq![value])
    }

    fn set_single_value(&mut self, value: NaiveTime) -> (r: ValueResult<()>) {
        self.set_time(value)
    }
}

impl MultiValuesAdderSealed<NaiveTime> for MultiValues {}

impl MultiValuesAdder<NaiveTime> for MultiValues {
    open spec fn add_value_ensures(before: Self, after: Self, value: NaiveTime, r: ValueResult<()>) -> bool {
        (r, after@) == before@.append_times(seq![value])
    }

    fn add_value(&mut self, value: NaiveTime) -> (r: ValueResult<()>) {
        self.add_time(value)
    }
}

impl MultiValuesMultiAdderSealed<NaiveTime> for MultiValues {}

impl MultiValuesMultiAdder<NaiveTime> for MultiValues {
    open spec fn add_values_ensures(before: Self, after: Self, values: Vec<NaiveTime>, r: ValueResult<()>) -> bool {
        (r, after@) == before@.append_times(values@)
    }

    fn add_values(&mut self, values: Vec<NaiveTime>) -> (r: ValueResult<()>) {
        self.add_times(values)
    }
}

impl MultiValuesConstructorSealed<NaiveTime> for MultiValues {}

impl MultiValuesConstructor<NaiveTime> for MultiValues {
    open spec fn from_vec_ensures(values: Vec<NaiveTime>, r: Self) -> bool {
        r@ == MultiValuesView::Time(values@)
    }

    fn from_vec(values: Vec<NaiveTime>) -> (r: Self) {
        MultiValues::Time(values)
    }
}

impl MultiValuesSetArgSealed for NaiveTime {}

impl<'a> MultiValuesSetArg<'a> for NaiveTime {
    type Item = NaiveTime;

    open spec fn apply_ensures(self, before: MultiValues, after: MultiValues, r: ValueResult<()>) -> bool {
        r == Ok::<(), ValueError>(()) && after@ == MultiValuesView::Time(seq![self])
    }

    fn apply(self, target: &mut MultiValues) -> (r: ValueResult<()>) {
        target.set_time(self)
    }
}

impl MultiValuesSetArgSealed for Vec<NaiveTime> {}

impl<'a> MultiValuesSetArg<'a> for Vec<NaiveTime> {
    type Item = NaiveTime;

    open spec fn apply_ensures(self, before: MultiValues, after: MultiValues, r: ValueResult<()>) -> bool {
        r == Ok::<(), ValueError>(()) && after@ == MultiValuesView::Time(self@)
    }

    fn apply(self, target: &mut MultiValues) -> (r: ValueResult<()>) {
        target.set_times(self)
    }
}

impl<'a> MultiValuesSetArgSealed for &'a [NaiveTime] {}

impl<'a> MultiValuesSetArg<'a> for &'a [NaiveTime] {
    type Item = NaiveTime;

    open spec fn apply_ensures(self, before: MultiValues, after: MultiValues, r: ValueResult<()>) -> bool {
        r == Ok::<(), ValueError>(()) && after@ == MultiValuesView::Time(self@)
    }

    fn apply(self, target: &mut MultiValues) -> (r: ValueResult<()>) {
        target.set_times_slice(self)
    }
}

impl<'a> MultiValuesSetArgSealed for &'a Vec<NaiveTime> {}

impl<'a> MultiValuesSetArg<'a> for &'a Vec<NaiveTime> {
    type Item = NaiveTime;

    open spec fn apply_ensures(self, before: MultiValues, after: MultiValues, r: ValueResult<()>) -> bool {
        r == Ok::<(), ValueError>(()) && after@ == MultiValuesView::Time(self@)
    }

    fn apply(self, target: &mut MultiValues) -> (r: ValueResult<()>) {
        target.set_times_slice(self.as_slice())
    }
}

impl MultiValuesAddArgSealed for NaiveTime {}

impl<'a> MultiValuesAddArg<'a> for NaiveTime {
    type Item = NaiveTime;

    open spec fn apply_add_ensures(self, before: MultiValues, after: MultiValues, r: ValueResult<()>) -> bool {
        (r, after@) == before@.append_times(seq![self])
    }

    fn apply_add(self, target: &mut MultiValues) -> (r: ValueResult<()>) {
        target.add_time(self)
    }
}

impl MultiValuesAddArgSealed for Vec<NaiveTime> {}

impl<'a> MultiValuesAddArg<'a> for Vec<NaiveTime> {
    type Item = NaiveTime;

    open spec fn apply_add_ensures(self, before: MultiValues, after: MultiValues, r: ValueResult<()>) -> bool {
        (r, after@) == before@.append_times(self@)
    }

    fn apply_add(self, target: &mut MultiValues) -> (r: ValueResult<()>) {
        target.add_times(self)
    }
}

impl<'a> MultiValuesAddArgSealed for &'a [NaiveTime] {}

impl<'a> MultiValuesAddArg<'a> for &'a [NaiveTime] {
    type Item = NaiveTime;

    open spec fn apply_add_ensures(self, before: MultiValues, after: MultiValues, r: ValueResult<()>) -> bool {
        (r, after@) == before@.append_times(self@)
    }

    fn apply_add(self, target: &mut MultiValues) -> (r: ValueResult<()>) {
        target.add_times_slice(self)
    }
}

impl<'a> MultiValuesAddArgSealed for &'a Vec<NaiveTime> {}

impl<'a> MultiValuesAddArg<'a> for &'a Vec<NaiveTime> {
    type Item = NaiveTime;

    open spec fn apply_add_ensures(self, before: MultiValues, after: MultiValues, r: ValueResult<()>) -> bool {
        (r, after@) == before@.append_times(self@)
    }

    fn apply_add(self, target: &mut MultiValues) -> (r: ValueResult<()>) {
        target.add_times_slice(self.as_slice())
    }
}

impl MultiValuesConstructorArgSealed for Vec<NaiveTime> {}

impl<'a> MultiValuesConstructorArg<'a> for Vec<NaiveTime> {
    open spec fn into_multi_values_ensures(self, r: MultiValues) -> bool {
        r@ == MultiValuesView::Time(self@)
    }

    fn into_multi_values(self) -> (r: MultiValues) {
        MultiValues::Time(self)
    }
}

impl<'a> MultiValuesConstructorArgSealed for &'a [NaiveTime] {}

impl<'a> MultiValuesConstructorArg<'a> for &'a [NaiveTime] {
    open spec fn into_multi_values_ensures(self, r: MultiValues) -> bool {
        r@ == MultiValuesView::Time(self@)
    }

    fn into_multi_values(self) -> (r: MultiValues) {
        MultiValues::Time(clone_items(self))
    }
}

impl<'a> MultiValuesConstructorArgSealed for &'a Vec<NaiveTime> {}

impl<'a> MultiValuesConstructorArg<'a> for &'a Vec<NaiveTime> {
    open spec fn into_multi_values_ensures(self, r: MultiValues) -> bool {
        r@ == MultiValuesView::Time(self@)
    }

    fn into_multi_values(self) -> (r: MultiValues) {
        MultiValues::Time(clone_items(self.as_slice()))
    }
}

impl<const N: usize> MultiValuesSetArgSealed for [NaiveTime; N] {}

impl<'a, const N: usize> MultiValuesSetArg<'a> for [NaiveTime; N] {
    type Item = NaiveTime;

    open spec fn apply_ensures(self, before: MultiValues, after: MultiValues, r: ValueResult<()>) -> bool {
        r == Ok::<(), ValueError>(()) && after@ == MultiValuesView::Time(self@)
    }

    fn apply(self, target: &mut MultiValues) -> (r: ValueResult<()>) {
        broadcast use vstd::array::group_array_axioms;
        target.set_times_slice(array_as_slice(&self))
    }
}

impl<'a, const N: usize> MultiValuesSetArgSealed for &'a [NaiveTime; N] {}

impl<'a, const N: usize> MultiValuesSetArg<'a> for &'a [NaiveTime; N] {
    type Item = NaiveTime;

    open spec fn apply_ensures(self, before: MultiValues, after: MultiValues, r: ValueResult<()>) -> bool {
        r == Ok::<(), ValueError>(()) && after@ == MultiValuesView::Time(self@)
    }

    fn apply(self, target: &mut MultiValues) -> (r: ValueResult<()>) {
        broadcast use vstd::array::group_array_axioms;
        target.set_times_slice(array_as_slice(self))
    }
}

impl<const N: usize> MultiValuesAddArgSealed for [NaiveTime; N] {}

impl<'a, const N: usize> MultiValuesAddArg<'a> for [NaiveTime; N] {
    type Item = NaiveTime;

    open spec fn apply_add_ensures(self, before: MultiValues, after: MultiValues, r: ValueResult<()>) -> bool {
        (r, after@) == before@.append_times(self@)
    }

    fn apply_add(self, target: &mut MultiValues) -> (r: ValueResult<()>) {
        broadcast use vstd::array::group_array_axioms;
        target.add_times_slice(array_as_slice(&self))
    }
}

impl<'a, const N: usize> MultiValuesAddArgSealed for &'a [NaiveTime; N] {}

impl<'a, const N: usize> MultiValuesAddArg<'a> for &'a [NaiveTime; N] {
    type Item = NaiveTime;

    open spec fn apply_add_ensures(self, before: MultiValues, after: MultiValues, r: ValueResult<()>) -> bool {
        (r, after@) == before@.append_times(self@)
    }

    fn apply_add(self, target: &mut MultiValues) -> (r: ValueResult<()>) {
        broadcast use vstd::array::group_array_axioms;
        target.add_times_slice(array_as_slice(self))
    }
}

impl<const N: usize> MultiValuesConstructorArgSealed for [NaiveTime; N] {}

impl<'a, const N: usize> MultiValuesConstructorArg<'a> for [NaiveTime; N] {
    open spec fn into_multi_values_ensures(self, r: MultiValues) -> bool {
        r@ == MultiValuesView::Time(self@)
    }

    fn into_multi_values(self) -> (r: MultiValues) {
        broadcast use vstd::array::group_array_axioms;
        MultiValues::Time(clone_items(array_as_slice(&self)))
    }
}

impl<'a, const N: usize> MultiValuesConstructorArgSealed for &'a [NaiveTime; N] {}

impl<'a, const N: usize> MultiValuesConstructorArg<'a> for &'a [NaiveTime; N] {
    open spec fn into_multi_values_ensures(self, r: MultiValues) -> bool {
        r@ == MultiValuesView::Time(self@)
    }

    fn into_multi_values(self) -> (r: MultiValues) {
        broadcast use vstd::array::group_array_axioms;
        MultiValues::Time(clone_items(array_as_slice(self)))
    }
}

// ---------------------------------------------------------------------------
// NaiveDateTime
// ---------------------------------------------------------------------------

impl MultiValuesGetterSealed<NaiveDateTime> for MultiValues {}

impl MultiValuesGetter<NaiveDateTime> for MultiValues {
    open spec fn get_values_ensures(&self, r: ValueResult<Vec<NaiveDateTime>>) -> bool {
        ok_view(r) == self@.typed_items(DataType::DateTime, self@.as_datetimes())
    }

    fn get_values(&self) -> (r: ValueResult<Vec<NaiveDateTime>>) {
        match self.get_datetimes() {
            Ok(s) => Ok(clone_items(s)),
            Err(e) => Err(e),
        }
    }
}

impl MultiValuesFirstGetterSealed<NaiveDateTime> for MultiValues {}

impl MultiValuesFirstGetter<NaiveDateTime> for MultiValues {
    open spec fn get_first_value_ensures(&self, r: ValueResult<NaiveDateTime>) -> bool {
        r == self@.typed_first(DataType::DateTime, self@.as_datetimes())
    }

    fn get_first_value(&self) -> (r: ValueResult<NaiveDateTime>) {
        self.get_first_datetime()
    }
}

impl MultiValuesSetterSealed<NaiveDateTime> for MultiValues {}

impl MultiValuesSetter<NaiveDateTime> for MultiValues {
    open spec fn set_values_ensures(before: Self, after: Self, values: Vec<NaiveDateTime>, r: ValueResult<()>) -> bool {
        r == Ok::<(), ValueError>(()) && after@ == MultiValuesView::DateTime(values@)
    }

    fn set_values(&mut self, values: Vec<NaiveDateTime>) -> (r: ValueResult<()>) {
        self.set_datetimes(values)
    }
}

impl MultiValuesSetterSliceSealed<NaiveDateTime> for MultiValues {}

impl MultiValuesSetterSlice<NaiveDateTime> for MultiValues {
    open spec fn set_values_slice_ensures(before: Self, after: Self, values: Seq<NaiveDateTime>, r: ValueResult<()>) -> bool {
        r == Ok::<(), ValueError>(()) && after@ == MultiValuesView::DateTime(values)
    }

    fn set_values_slice(&mut self, values: &[NaiveDateTime]) -> (r: ValueResult<()>) {
        self.set_datetimes_slice(values)
    }
}

impl MultiValuesSingleSetterSealed<NaiveDateTime> for MultiValues {}

impl MultiValuesSingleSetter<NaiveDateTime> for MultiValues {
    open spec fn set_single_value_ensures(before: Self, after: Self, value: NaiveDateTime, r: ValueResult<()>) -> bool {
        r == Ok::<(), ValueError>(()) && after@ == MultiValuesView::DateTime(seq![value])
    }

    fn set_single_value(&mut self, value: NaiveDateTime) -> (r: ValueResult<()>) {
        self.set_datetime(value)
    }
}

impl MultiValuesAdderSealed<NaiveDateTime> for MultiValues {}

impl MultiValuesAdder<NaiveDateTime> for MultiValues {
    open spec fn add_value_ensures(before: Self, after: Self, value: NaiveDateTime, r: ValueResult<()>) -> bool {
        (r, after@) == before@.append_datetimes(seq![value])
    }

    fn add_value(&mut self, value: NaiveDateTime) -> (r: ValueResult<()>) {
        self.add_datetime(value)
    }
}

impl MultiValuesMultiAdderSealed<NaiveDateTime> for MultiValues {}

impl MultiValuesMultiAdder<NaiveDateTime> for MultiValues {
    open spec fn add_values_ensures(before: Self, after: Self, values: Vec<NaiveDateTime>, r: ValueResult<()>) -> bool {
        (r, after@) == before@.append_datetimes(values@)
    }

    fn add_values(&mut self, values: Vec<NaiveDateTime>) -> (r: ValueResult<()>) {
        self.add_datetimes(values)
    }
}

impl MultiValuesConstructorSealed<NaiveDateTime> for MultiValues {}

impl MultiValuesConstructor<NaiveDateTime> for MultiValues {
    open spec fn from_vec_ensures(values: Vec<NaiveDateTime>, r: Self) -> bool {
        r@ == MultiValuesView::DateTime(values@)
    }

    fn from_vec(values: Vec<NaiveDateTime>) -> (r: Self) {
        MultiValues::DateTime(values)
    }
}

impl MultiValuesSetArgSealed for NaiveDateTime {}

impl<'a> MultiValuesSetArg<'a> for NaiveDateTime {
    type Item = NaiveDateTime;

    open spec fn apply_ensures(self, before: MultiValues, after: MultiValues, r: ValueResult<()>) -> bool {
        r == Ok::<(), ValueError>(()) && after@ == MultiValuesView::DateTime(seq![self])
    }

    fn apply(self, target: &mut MultiValues) -> (r: ValueResult<()>) {
        target.set_datetime(self)
    }
}

impl MultiValuesSetArgSealed for Vec<NaiveDateTime> {}

impl<'a> MultiValuesSetArg<'a> for Vec<NaiveDateTime> {
    type Item = NaiveDateTime;

    open spec fn apply_ensures(self, before: MultiValues, after: MultiValues, r: ValueResult<()>) -> bool {
        r == Ok::<(), ValueError>(()) && after@ == MultiValuesView::DateTime(self@)
    }

    fn apply(self, target: &mut MultiValues) -> (r: ValueResult<()>) {
        target.set_datetimes(self)
    }
}

impl<'a> MultiValuesSetArgSealed for &'a [NaiveDateTime] {}

impl<'a> MultiValuesSetArg<'a> for &'a [NaiveDateTime] {
    type Item = NaiveDateTime;

    open spec fn apply_ensures(self, before: MultiValues, after: MultiValues, r: ValueResult<()>) -> bool {
        r == Ok::<(), ValueError>(()) && after@ == MultiValuesView::DateTime(self@)
    }

    fn apply(self, target: &mut MultiValues) -> (r: ValueResult<()>) {
        target.set_datetimes_slice(self)
    }
}

impl<'a> MultiValuesSetArgSealed for &'a Vec<NaiveDateTime> {}

impl<'a> MultiValuesSetArg<'a> for &'a Vec<NaiveDateTime> {
    type Item = NaiveDateTime;

    open spec fn apply_ensures(self, before: MultiValues, after: MultiValues, r: ValueResult<()>) -> bool {
        r == Ok::<(), ValueError>(()) && after@ == MultiValuesView::DateTime(self@)
    }

    fn apply(self, target: &mut MultiValues) -> (r: ValueResult<()>) {
        target.set_datetimes_slice(self.as_slice())
    }
}

impl MultiValuesAddArgSealed for NaiveDateTime {}

impl<'a> MultiValuesAddArg<'a> for NaiveDateTime {
    type Item = NaiveDateTime;

    open spec fn apply_add_ensures(self, before: MultiValues, after: MultiValues, r: ValueResult<()>) -> bool {
        (r, after@) == before@.append_datetimes(seq![self])
    }

    fn apply_add(self, target: &mut MultiValues) -> (r: ValueResult<()>) {
        target.add_datetime(self)
    }
}

impl MultiValuesAddArgSealed for Vec<NaiveDateTime> {}

impl<'a> MultiValuesAddArg<'a> for Vec<NaiveDateTime> {
    type Item = NaiveDateTime;

    open spec fn apply_add_ensures(self, before: MultiValues, after: MultiValues, r: ValueResult<()>) -> bool {
        (r, after@) == before@.append_datetimes(self@)
    }

    fn apply_add(self, target: &mut MultiValues) -> (r: ValueResult<()>) {
        target.add_datetimes(self)
    }
}

impl<'a> MultiValuesAddArgSealed for &'a [NaiveDateTime] {}

impl<'a> MultiValuesAddArg<'a> for &'a [NaiveDateTime] {
    type Item = NaiveDateTime;

    open spec fn apply_add_ensures(self, before: MultiValues, after: MultiValues, r: ValueResult<()>) -> bool {
        (r, after@) == before@.append_datetimes(self@)
    }

    fn apply_add(self, target: &mut MultiValues) -> (r: ValueResult<()>) {
        target.add_datetimes_slice(self)
    }
}

impl<'a> MultiValuesAddArgSealed for &'a Vec<NaiveDateTime> {}

impl<'a> MultiValuesAddArg<'a> for &'a Vec<NaiveDateTime> {
    type Item = NaiveDateTime;

    open spec fn apply_add_ensures(self, before: MultiValues, after: MultiValues, r: ValueResult<()>) -> bool {
        (r, after@) == before@.append_datetimes(self@)
    }

    fn apply_add(self, target: &mut MultiValues) -> (r: ValueResult<()>) {
        target.add_datetimes_slice(self.as_slice())
    }
}

impl MultiValuesConstructorArgSealed for Vec<NaiveDateTime> {}

impl<'a> MultiValuesConstructorArg<'a> for Vec<NaiveDateTime> {
    open spec fn into_multi_values_ensures(self, r: MultiValues) -> bool {
        r@ == MultiValuesView::DateTime(self@)
    }

    fn into_multi_values(self) -> (r: MultiValues) {
        MultiValues::DateTime(self)
    }
}

impl<'a> MultiValuesConstructorArgSealed for &'a [NaiveDateTime] {}

impl<'a> MultiValuesConstructorArg<'a> for &'a [NaiveDateTime] {
    open spec fn into_multi_values_ensures(self, r: MultiValues) -> bool {
        r@ == MultiValuesView::DateTime(self@)
    }

    fn into_multi_values(self) -> (r: MultiValues) {
        MultiValues::DateTime(clone_items(self))
    }
}

impl<'a> MultiValuesConstructorArgSealed for &'a Vec<NaiveDateTime> {}

impl<'a> MultiValuesConstructorArg<'a> for &'a Vec<NaiveDateTime> {
    open spec fn into_multi_values_ensures(self, r: MultiValues) -> bool {
        r@ == MultiValuesView::DateTime(self@)
    }

    fn into_multi_values(self) -> (r: MultiValues) {
        MultiValues::DateTime(clone_items(self.as_slice()))
    }
}

impl<const N: usize> MultiValuesSetArgSealed for [NaiveDateTime; N] {}

impl<'a, const N: usize> MultiValuesSetArg<'a> for [NaiveDateTime; N] {
    type Item = NaiveDateTime;

    open spec fn apply_ensures(self, before: MultiValues, after: MultiValues, r: ValueResult<()>) -> bool {
        r == Ok::<(), ValueError>(()) && after@ == MultiValuesView::DateTime(self@)
    }

    fn apply(self, target: &mut MultiValues) -> (r: ValueResult<()>) {
        broadcast use vstd::array::group_array_axioms;
        target.set_datetimes_slice(array_as_slice(&self))
    }
}

impl<'a, const N: usize> MultiValuesSetArgSealed for &'a [NaiveDateTime; N] {}

impl<'a, const N: usize> MultiValuesSetArg<'a> for &'a [NaiveDateTime; N] {
    type Item = NaiveDateTime;

    open spec fn apply_ensures(self, before: MultiValues, after: MultiValues, r: ValueResult<()>) -> bool {
        r == Ok::<(), ValueError>(()) && after@ == MultiValuesView::DateTime(self@)
    }

    fn apply(self, target: &mut MultiValues) -> (r: ValueResult<()>) {
        broadcast use vstd::array::group_array_axioms;
        target.set_datetimes_slice(array_as_slice(self))
    }
}

impl<const N: usize> MultiValuesAddArgSealed for [NaiveDateTime; N] {}

impl<'a, const N: usize> MultiValuesAddArg<'a> for [NaiveDateTime; N] {
    type Item = NaiveDateTime;

    open spec fn apply_add_ensures(self, before: MultiValues, after: MultiValues, r: ValueResult<()>) -> bool {
        (r, after@) == before@.append_datetimes(self@)
    }

    fn apply_add(self, target: &mut MultiValues) -> (r: ValueResult<()>) {
        broadcast use vstd::array::group_array_axioms;
        target.add_datetimes_slice(array_as_slice(&self))
    }
}

impl<'a, const N: usize> MultiValuesAddArgSealed for &'a [NaiveDateTime; N] {}

impl<'a, const N: usize> MultiValuesAddArg<'a> for &'a [NaiveDateTime; N] {
    type Item = NaiveDateTime;

    open spec fn apply_add_ensures(self, before: MultiValues, after: MultiValues, r: ValueResult<()>) -> bool {
        (r, after@) == before@.append_datetimes(self@)
    }

    fn apply_add(self, target: &mut MultiValues) -> (r: ValueResult<()>) {
        broadcast use vstd::array::group_array_axioms;
        target.add_datetimes_slice(array_as_slice(self))
    }
}

impl<const N: usize> MultiValuesConstructorArgSealed for [NaiveDateTime; N] {}

impl<'a, const N: usize> MultiValuesConstructorArg<'a> for [NaiveDateTime; N] {
    open spec fn into_multi_values_ensures(self, r: MultiValues) -> bool {
        r@ == MultiValuesView::DateTime(self@)
    }

    fn into_multi_values(self) -> (r: MultiValues) {
        broadcast use vstd::array::group_array_axioms;
        MultiValues::DateTime(clone_items(array_as_slice(&self)))
    }
}

impl<'a, const N: usize> MultiValuesConstructorArgSealed for &'a [NaiveDateTime; N] {}

impl<'a, const N: usize> MultiValuesConstructorArg<'a> for &'a [NaiveDateTime; N] {
    open spec fn into_multi_values_ensures(self, r: MultiValues) -> bool {
        r@ == MultiValuesView::DateTime(self@)
    }

    fn into_multi_values(self) -> (r: MultiValues) {
        broadcast use vstd::array::group_array_axioms;
        MultiValues::DateTime(clone_items(array_as_slice(self)))
    }
}

// ---------------------------------------------------------------------------
// UtcInstant
// ---------------------------------------------------------------------------

impl MultiValuesGetterSealed<UtcInstant> for MultiValues {}

impl MultiValuesGetter<UtcInstant> for MultiValues {
    open spec fn get_values_ensures(&self, r: ValueResult<Vec<UtcInstant>>) -> bool {
        ok_view(r) == self@.typed_items(DataType::Instant, self@.as_instants())
    }

    fn get_values(&self) -> (r: ValueResult<Vec<UtcInstant>>) {
        match self.get_instants() {
            Ok(s) => Ok(clone_items(s)),
            Err(e) => Err(e),
        }
    }
}

impl MultiValuesFirstGetterSealed<UtcInstant> for MultiValues {}

impl MultiValuesFirstGetter<UtcInstant> for MultiValues {
    open spec fn get_first_value_ensures(&self, r: ValueResult<UtcInstant>) -> bool {
        r == self@.typed_first(DataType::Instant, self@.as_instants())
    }

    fn get_first_value(&self) -> (r: ValueResult<UtcInstant>) {
        self.get_first_instant()
    }
}

impl MultiValuesSetterSealed<UtcInstant> for MultiValues {}

impl MultiValuesSetter<UtcInstant> for MultiValues {
    open spec fn set_values_ensures(before: Self, after: Self, values: Vec<UtcInstant>, r: ValueResult<()>) -> bool {
        r == Ok::<(), ValueError>(()) && after@ == MultiValuesView::Instant(values@)
    }

    fn set_values(&mut self, values: Vec<UtcInstant>) -> (r: ValueResult<()>) {
        self.set_instants(values)
    }
}

impl MultiValuesSetterSliceSealed<UtcInstant> for MultiValues {}

impl MultiValuesSetterSlice<UtcInstant> for MultiValues {
    open spec fn set_values_slice_ensures(before: Self, after: Self, values: Seq<UtcInstant>, r: ValueResult<()>) -> bool {
        r == Ok::<(), ValueError>(()) && after@ == MultiValuesView::Instant(values)
    }

    fn set_values_slice(&mut self, values: &[UtcInstant]) -> (r: ValueResult<()>) {
        self.set_instants_slice(values)
    }
}

impl MultiValuesSingleSetterSealed<UtcInstant> for MultiValues {}

impl MultiValuesSingleSetter<UtcInstant> for MultiValues {
    open spec fn set_single_value_ensures(before: Self, after: Self, value: UtcInstant, r: ValueResult<()>) -> bool {
        r == Ok::<(), ValueError>(()) && after@ == MultiValuesView::Instant(seq![value])
    }

    fn set_single_value(&mut self, value: UtcInstant) -> (r: ValueResult<()>) {
        self.set_instant(value)
    }
}

impl MultiValuesAdderSealed<UtcInstant> for MultiValues {}

impl MultiValuesAdder<UtcInstant> for MultiValues {
    open spec fn add_value_ensures(before: Self, after: Self, value: UtcInstant, r: ValueResult<()>) -> bool {
        (r, after@) == before@.append_instants(seq![value])
    }

    fn add_value(&mut self, value: UtcInstant) -> (r: ValueResult<()>) {
        self.add_instant(value)
    }
}

impl MultiValuesMultiAdderSealed<UtcInstant> for MultiValues {}

impl MultiValuesMultiAdder<UtcInstant> for MultiValues {
    open spec fn add_values_ensures(before: Self, after: Self, values: Vec<UtcInstant>, r: ValueResult<()>) -> bool {
        (r, after@) == before@.append_instants(values@)
    }

    fn add_values(&mut self, values: Vec<UtcInstant>) -> (r: ValueResult<()>) {
        self.add_instants(values)
    }
}

impl MultiValuesConstructorSealed<UtcInstant> for MultiValues {}

impl MultiValuesConstructor<UtcInstant> for MultiValues {
    open spec fn from_vec_ensures(values: Vec<UtcInstant>, r: Self) -> bool {
        r@ == MultiValuesView::Instant(values@)
    }

    fn from_vec(values: Vec<UtcInstant>) -> (r: Self) {
        MultiValues::Instant(values)
    }
}

impl MultiValuesSetArgSealed for UtcInstant {}

impl<'a> MultiValuesSetArg<'a> for UtcInstant {
    type Item = UtcInstant;

    open spec fn apply_ensures(self, before: MultiValues, after: MultiValues, r: ValueResult<()>) -> bool {
        r == Ok::<(), ValueError>(()) && after@ == MultiValuesView::Instant(seq![self])
    }

    fn apply(self, target: &mut MultiValues) -> (r: ValueResult<()>) {
        target.set_instant(self)
    }
}

impl MultiValuesSetArgSealed for Vec<UtcInstant> {}

impl<'a> MultiValuesSetArg<'a> for Vec<UtcInstant> {
    type Item = UtcInstant;

    open spec fn apply_ensures(self, before: MultiValues, after: MultiValues, r: ValueResult<()>) -> bool {
        r == Ok::<(), ValueError>(()) && after@ == MultiValuesView::Instant(self@)
    }

    fn apply(self, target: &mut MultiValues) -> (r: ValueResult<()>) {
        target.set_instants(self)
    }
}

impl<'a> MultiValuesSetArgSealed for &'a [UtcInstant] {}

impl<'a> MultiValuesSetArg<'a> for &'a [UtcInstant] {
    type Item = UtcInstant;

    open spec fn apply_ensures(self, before: MultiValues, after: MultiValues, r: ValueResult<()>) -> bool {
        r == Ok::<(), ValueError>(()) && after@ == MultiValuesView::Instant(self@)
    }

    fn apply(self, target: &mut MultiValues) -> (r: ValueResult<()>) {
        target.set_instants_slice(self)
    }
}

impl<'a> MultiValuesSetArgSealed for &'a Vec<UtcInstant> {}

impl<'a> MultiValuesSetArg<'a> for &'a Vec<UtcInstant> {
    type Item = UtcInstant;

    open spec fn apply_ensures(self, before: MultiValues, after: MultiValues, r: ValueResult<()>) -> bool {
        r == Ok::<(), ValueError>(()) && after@ == MultiValuesView::Instant(self@)
    }

    fn apply(self, target: &mut MultiValues) -> (r: ValueResult<()>) {
        target.set_instants_slice(self.as_slice())
    }
}

impl MultiValuesAddArgSealed for UtcInstant {}

impl<'a> MultiValuesAddArg<'a> for UtcInstant {
    type Item = UtcInstant;

    open spec fn apply_add_ensures(self, before: MultiValues, after: MultiValues, r: ValueResult<()>) -> bool {
        (r, after@) == before@.append_instants(seq![self])
    }

    fn apply_add(self, target: &mut MultiValues) -> (r: ValueResult<()>) {
        target.add_instant(self)
    }
}

impl MultiValuesAddArgSealed for Vec<UtcInstant> {}

impl<'a> MultiValuesAddArg<'a> for Vec<UtcInstant> {
    type Item = UtcInstant;

    open spec fn apply_add_ensures(self, before: MultiValues, after: MultiValues, r: ValueResult<()>) -> bool {
        (r, after@) == before@.append_instants(self@)
    }

    fn apply_add(self, target: &mut MultiValues) -> (r: ValueResult<()>) {
        target.add_instants(self)
    }
}

impl<'a> MultiValuesAddArgSealed for &'a [UtcInstant] {}

impl<'a> MultiValuesAddArg<'a> for &'a [UtcInstant] {
    type Item = UtcInstant;

    open spec fn apply_add_ensures(self, before: MultiValues, after: MultiValues, r: ValueResult<()>) -> bool {
        (r, after@) == before@.append_instants(self@)
    }

    fn apply_add(self, target: &mut MultiValues) -> (r: ValueResult<()>) {
        target.add_instants_slice(self)
    }
}

impl<'a> MultiValuesAddArgSealed for &'a Vec<UtcInstant> {}

impl<'a> MultiValuesAddArg<'a> for &'a Vec<UtcInstant> {
    type Item = UtcInstant;

    open spec fn apply_add_ensures(self, before: MultiValues, after: MultiValues, r: ValueResult<()>) -> bool {
        (r, after@) == before@.append_instants(self@)
    }

    fn apply_add(self, target: &mut MultiValues) -> (r: ValueResult<()>) {
        target.add_instants_slice(self.as_slice())
    }
}

impl MultiValuesConstructorArgSealed for Vec<UtcInstant> {}

impl<'a> MultiValuesConstructorArg<'a> for Vec<UtcInstant> {
    open spec fn into_multi_values_ensures(self, r: MultiValues) -> bool {
        r@ == MultiValuesView::Instant(self@)
    }

    fn into_multi_values(self) -> (r: MultiValues) {
        MultiValues::Instant(self)
    }
}

impl<'a> MultiValuesConstructorArgSealed for &'a [UtcInstant] {}

impl<'a> MultiValuesConstructorArg<'a> for &'a [UtcInstant] {
    open spec fn into_multi_values_ensures(self, r: MultiValues) -> bool {
        r@ == MultiValuesView::Instant(self@)
    }

    fn into_multi_values(self) -> (r: MultiValues) {
        MultiValues::Instant(clone_items(self))
    }
}

impl<'a> MultiValuesConstructorArgSealed for &'a Vec<UtcInstant> {}

impl<'a> MultiValuesConstructorArg<'a> for &'a Vec<UtcInstant> {
    open spec fn into_multi_values_ensures(self, r: MultiValues) -> bool {
        r@ == MultiValuesView::Instant(self@)
    }

    fn into_multi_values(self) -> (r: MultiValues) {
        MultiValues::Instant(clone_items(self.as_slice()))
    }
}

impl<const N: usize> MultiValuesSetArgSealed for [UtcInstant; N] {}

impl<'a, const N: usize> MultiValuesSetArg<'a> for [UtcInstant; N] {
    type Item = UtcInstant;

    open spec fn apply_ensures(self, before: MultiValues, after: MultiValues, r: ValueResult<()>) -> bool {
        r == Ok::<(), ValueError>(()) && after@ == MultiValuesView::Instant(self@)
    }

    fn apply(self, target: &mut MultiValues) -> (r: ValueResult<()>) {
        broadcast use vstd::array::group_array_axioms;
        target.set_instants_slice(array_as_slice(&self))
    }
}

impl<'a, const N: usize> MultiValuesSetArgSealed for &'a [UtcInstant; N] {}

impl<'a, const N: usize> MultiValuesSetArg<'a> for &'a [UtcInstant; N] {
    type Item = UtcInstant;

    open spec fn apply_ensures(self, before: MultiValues, after: MultiValues, r: ValueResult<()>) -> bool {
        r == Ok::<(), ValueError>(()) && after@ == MultiValuesView::Instant(self@)
    }

    fn apply(self, target: &mut MultiValues) -> (r: ValueResult<()>) {
        broadcast use vstd::array::group_array_axioms;
        target.set_instants_slice(array_as_slice(self))
    }
}

impl<const N: usize> MultiValuesAddArgSealed for [UtcInstant; N] {}

impl<'a, const N: usize> MultiValuesAddArg<'a> for [UtcInstant; N] {
    type Item = UtcInstant;

    open spec fn apply_add_ensures(self, before: MultiValues, after: MultiValues, r: ValueResult<()>) -> bool {
        (r, after@) == before@.append_instants(self@)
    }

    fn apply_add(self, target: &mut MultiValues) -> (r: ValueResult<()>) {
        broadcast use vstd::array::group_array_axioms;
        target.add_instants_slice(array_as_slice(&self))
    }
}

impl<'a, const N: usize> MultiValuesAddArgSealed for &'a [UtcInstant; N] {}

impl<'a, const N: usize> MultiValuesAddArg<'a> for &'a [UtcInstant; N] {
    type Item = UtcInstant;

    open spec fn apply_add_ensures(self, before: MultiValues, after: MultiValues, r: ValueResult<()>) -> bool {
        (r, after@) == before@.append_instants(self@)
    }

    fn apply_add(self, target: &mut MultiValues) -> (r: ValueResult<()>) {
        broadcast use vstd::array::group_array_axioms;
        target.add_instants_slice(array_as_slice(self))
    }
}

impl<const N: usize> MultiValuesConstructorArgSealed for [UtcInstant; N] {}

impl<'a, const N: usize> MultiValuesConstructorArg<'a> for [UtcInstant; N] {
    open spec fn into_multi_values_ensures(self, r: MultiValues) -> bool {
        r@ == MultiValuesView::Instant(self@)
    }

    fn into_multi_values(self) -> (r: MultiValues) {
        broadcast use vstd::array::group_array_axioms;
        MultiValues::Instant(clone_items(array_as_slice(&self)))
    }
}

impl<'a, const N: usize> MultiValuesConstructorArgSealed for &'a [UtcInstant; N] {}

impl<'a, const N: usize> MultiValuesConstructorArg<'a> for &'a [UtcInstant; N] {
    open spec fn into_multi_values_ensures(self, r: MultiValues) -> bool {
        r@ == MultiValuesView::Instant(self@)
    }

    fn into_multi_values(self) -> (r: MultiValues) {
        broadcast use vstd::array::group_array_axioms;
        MultiValues::Instant(clone_items(array_as_slice(self)))
    }
}

// ---------------------------------------------------------------------------
// Duration
// ---------------------------------------------------------------------------

impl MultiValuesGetterSealed<Duration> for MultiValues {}

impl MultiValuesGetter<Duration> for MultiValues {
    open spec fn get_values_ensures(&self, r: ValueResult<Vec<Duration>>) -> bool {
        ok_view(r) == self@.typed_items(DataType::Duration, self@.as_durations())
    }

    fn get_values(&self) -> (r: ValueResult<Vec<Duration>>) {
        match self.get_durations() {
            Ok(s) => Ok(clone_items(s)),
            Err(e) => Err(e),
        }
    }
}

impl MultiValuesFirstGetterSealed<Duration> for MultiValues {}

impl MultiValuesFirstGetter<Duration> for MultiValues {
    open spec fn get_first_value_ensures(&self, r: ValueResult<Duration>) -> bool {
        r == self@.typed_first(DataType::Duration, self@.as_durations())
    }

    fn get_first_value(&self) -> (r: ValueResult<Duration>) {
        self.get_first_duration()
    }
}

impl MultiValuesSetterSealed<Duration> for MultiValues {}

impl MultiValuesSetter<Duration> for MultiValues {
    open spec fn set_values_ensures(before: Self, after: Self, values: Vec<Duration>, r: ValueResult<()>) -> bool {
        r == Ok::<(), ValueError>(()) && after@ == MultiValuesView::Duration(values@)
    }

    fn set_values(&mut self, values: Vec<Duration>) -> (r: ValueResult<()>) {
        self.set_durations(values)
    }
}

impl MultiValuesSetterSliceSealed<Duration> for MultiValues {}

impl MultiValuesSetterSlice<Duration> for MultiValues {
    open spec fn set_values_slice_ensures(before: Self, after: Self, values: Seq<Duration>, r: ValueResult<()>) -> bool {
        r == Ok::<(), ValueError>(()) && after@ == MultiValuesView::Duration(values)
    }

    fn set_values_slice(&mut self, values: &[Duration]) -> (r: ValueResult<()>) {
        self.set_durations_slice(values)
    }
}

impl MultiValuesSingleSetterSealed<Duration> for MultiValues {}

impl MultiValuesSingleSetter<Duration> for MultiValues {
    open spec fn set_single_value_ensures(before: Self, after: Self, value: Duration, r: ValueResult<()>) -> bool {
        r == Ok::<(), ValueError>(()) && after@ == MultiValuesView::Duration(seq![value])
    }

    fn set_single_value(&mut self, value: Duration) -> (r: ValueResult<()>) {
        self.set_duration(value)
    }
}

impl MultiValuesAdderSealed<Duration> for MultiValues {}

impl MultiValuesAdder<Duration> for MultiValues {
    open spec fn add_value_ensures(before: Self, after: Self, value: Duration, r: ValueResult<()>) -> bool {
        (r, after@) == before@.append_durations(seq![value])
    }

    fn add_value(&mut self, value: Duration) -> (r: ValueResult<()>) {
        self.add_duration(value)
    }
}

impl MultiValuesMultiAdderSealed<Duration> for MultiValues {}

impl MultiValuesMultiAdder<Duration> for MultiValues {
    open spec fn add_values_ensures(before: Self, after: Self, values: Vec<Duration>, r: ValueResult<()>) -> bool {
        (r, after@) == before@.append_durations(values@)
    }

    fn add_values(&mut self, values: Vec<Duration>) -> (r: ValueResult<()>) {
        self.add_durations(values)
    }
}

impl MultiValuesConstructorSealed<Duration> for MultiValues {}

impl MultiValuesConstructor<Duration> for MultiValues {
    open spec fn from_vec_ensures(values: Vec<Duration>, r: Self) -> bool {
        r@ == MultiValuesView::Duration(values@)
    }

    fn from_vec(values: Vec<Duration>) -> (r: Self) {
        MultiValues::Duration(values)
    }
}

impl MultiValuesSetArgSealed for Duration {}

impl<'a> MultiValuesSetArg<'a> for Duration {
    type Item = Duration;

    open spec fn apply_ensures(self, before: MultiValues, after: MultiValues, r: ValueResult<()>) -> bool {
        r == Ok::<(), ValueError>(()) && after@ == MultiValuesView::Duration(seq![self])
    }

    fn apply(self, target: &mut MultiValues) -> (r: ValueResult<()>) {
        target.set_duration(self)
    }
}

impl MultiValuesSetArgSealed for Vec<Duration> {}

impl<'a> MultiValuesSetArg<'a> for Vec<Duration> {
    type Item = Duration;

    open spec fn apply_ensures(self, before: MultiValues, after: MultiValues, r: ValueResult<()>) -> bool {
        r == Ok::<(), ValueError>(()) && after@ == MultiValuesView::Duration(self@)
    }

    fn apply(self, target: &mut MultiValues) -> (r: ValueResult<()>) {
        target.set_durations(self)
    }
}

impl<'a> MultiValuesSetArgSealed for &'a [Duration] {}

impl<'a> MultiValuesSetArg<'a> for &'a [Duration] {
    type Item = Duration;

    open spec fn apply_ensures(self, before: MultiValues, after: MultiValues, r: ValueResult<()>) -> bool {
        r == Ok::<(), ValueError>(()) && after@ == MultiValuesView::Duration(self@)
    }

    fn apply(self, target: &mut MultiValues) -> (r: ValueResult<()>) {
        target.set_durations_slice(self)
    }
}

impl<'a> MultiValuesSetArgSealed for &'a Vec<Duration> {}

impl<'a> MultiValuesSetArg<'a> for &'a Vec<Duration> {
    type Item = Duration;

    open spec fn apply_ensures(self, before: MultiValues, after: MultiValues, r: ValueResult<()>) -> bool {
        r == Ok::<(), ValueError>(()) && after@ == MultiValuesView::Duration(self@)
    }

    fn apply(self, target: &mut MultiValues) -> (r: ValueResult<()>) {
        target.set_durations_slice(self.as_slice())
    }
}

impl MultiValuesAddArgSealed for Duration {}

impl<'a> MultiValuesAddArg<'a> for Duration {
    type Item = Duration;

    open spec fn apply_add_ensures(self, before: MultiValues, after: MultiValues, r: ValueResult<()>) -> bool {
        (r, after@) == before@.append_durations(seq![self])
    }

    fn apply_add(self, target: &mut MultiValues) -> (r: ValueResult<()>) {
        target.add_duration(self)
    }
}

impl MultiValuesAddArgSealed for Vec<Duration> {}

impl<'a> MultiValuesAddArg<'a> for Vec<Duration> {
    type Item = Duration;

    open spec fn apply_add_ensures(self, before: MultiValues, after: MultiValues, r: ValueResult<()>) -> bool {
        (r, after@) == before@.append_durations(self@)
    }

    fn apply_add(self, target: &mut MultiValues) -> (r: ValueResult<()>) {
        target.add_durations(self)
    }
}

impl<'a> MultiValuesAddArgSealed for &'a [Duration] {}

impl<'a> MultiValuesAddArg<'a> for &'a [Duration] {
    type Item = Duration;

    open spec fn apply_add_ensures(self, before: MultiValues, after: MultiValues, r: ValueResult<()>) -> bool {
        (r, after@) == before@.append_durations(self@)
    }

    fn apply_add(self, target: &mut MultiValues) -> (r: ValueResult<()>) {
        target.add_durations_slice(self)
    }
}

impl<'a> MultiValuesAddArgSealed for &'a Vec<Duration> {}

impl<'a> MultiValuesAddArg<'a> for &'a Vec<Duration> {
    type Item = Duration;

    open spec fn apply_add_ensures(self, before: MultiValues, after: MultiValues, r: ValueResult<()>) -> bool {
        (r, after@) == before@.append_durations(self@)
    }

    fn apply_add(self, target: &mut MultiValues) -> (r: ValueResult<()>) {
        target.add_durations_slice(self.as_slice())
    }
}

impl MultiValuesConstructorArgSealed for Vec<Duration> {}

impl<'a> MultiValuesConstructorArg<'a> for Vec<Duration> {
    open spec fn into_multi_values_ensures(self, r: MultiValues) -> bool {
        r@ == MultiValuesView::Duration(self@)
    }

    fn into_multi_values(self) -> (r: MultiValues) {
        MultiValues::Duration(self)
    }
}

impl<'a> MultiValuesConstructorArgSealed for &'a [Duration] {}

impl<'a> MultiValuesConstructorArg<'a> for &'a [Duration] {
    open spec fn into_multi_values_ensures(self, r: MultiValues) -> bool {
        r@ == MultiValuesView::Duration(self@)
    }

    fn into_multi_values(self) -> (r: MultiValues) {
        MultiValues::Duration(clone_items(self))
    }
}

impl<'a> MultiValuesConstructorArgSealed for &'a Vec<Duration> {}

impl<'a> MultiValuesConstructorArg<'a> for &'a Vec<Duration> {
    open spec fn into_multi_values_ensures(self, r: MultiValues) -> bool {
        r@ == MultiValuesView::Duration(self@)
    }

    fn into_multi_values(self) -> (r: MultiValues) {
        MultiValues::Duration(clone_items(self.as_slice()))
    }
}

impl<const N: usize> MultiValuesSetArgSealed for [Duration; N] {}

impl<'a, const N: usize> MultiValuesSetArg<'a> for [Duration; N] {
    type Item = Duration;

    open spec fn apply_ensures(self, before: MultiValues, after: MultiValues, r: ValueResult<()>) -> bool {
        r == Ok::<(), ValueError>(()) && after@ == MultiValuesView::Duration(self@)
    }

    fn apply(self, target: &mut MultiValues) -> (r: ValueResult<()>) {
        broadcast use vstd::array::group_array_axioms;
        target.set_durations_slice(array_as_slice(&self))
    }
}

impl<'a, const N: usize> MultiValuesSetArgSealed for &'a [Duration; N] {}

impl<'a, const N: usize> MultiValuesSetArg<'a> for &'a [Duration; N] {
    type Item = Duration;

    open spec fn apply_ensures(self, before: MultiValues, after: MultiValues, r: ValueResult<()>) -> bool {
        r == Ok::<(), ValueError>(()) && after@ == MultiValuesView::Duration(self@)
    }

    fn apply(self, target: &mut MultiValues) -> (r: ValueResult<()>) {
        broadcast use vstd::array::group_array_axioms;
        target.set_durations_slice(array_as_slice(self))
    }
}

impl<const N: usize> MultiValuesAddArgSealed for [Duration; N] {}

impl<'a, const N: usize> MultiValuesAddArg<'a> for [Duration; N] {
    type Item = Duration;

    open spec fn apply_add_ensures(self, before: MultiValues, after: MultiValues, r: ValueResult<()>) -> bool {
        (r, after@) == before@.append_durations(self@)
    }

    fn apply_add(self, target: &mut MultiValues) -> (r: ValueResult<()>) {
        broadcast use vstd::array::group_array_axioms;
        target.add_durations_slice(array_as_slice(&self))
    }
}

impl<'a, const N: usize> MultiValuesAddArgSealed for &'a [Duration; N] {}

impl<'a, const N: usize> MultiValuesAddArg<'a> for &'a [Duration; N] {
    type Item = Duration;

    open spec fn apply_add_ensures(self, before: MultiValues, after: MultiValues, r: ValueResult<()>) -> bool {
        (r, after@) == before@.append_durations(self@)
    }

    fn apply_add(self, target: &mut MultiValues) -> (r: ValueResult<()>) {
        broadcast use vstd::array::group_array_axioms;
        target.add_durations_slice(array_as_slice(self))
    }
}

impl<const N: usize> MultiValuesConstructorArgSealed for [Duration; N] {}

impl<'a, const N: usize> MultiValuesConstructorArg<'a> for [Duration; N] {
    open spec fn into_multi_values_ensures(self, r: MultiValues) -> bool {
        r@ == MultiValuesView::Duration(self@)
    }

    fn into_multi_values(self) -> (r: MultiValues) {
        broadcast use vstd::array::group_array_axioms;
        MultiValues::Duration(clone_items(array_as_slice(&self)))
    }
}

impl<'a, const N: usize> MultiValuesConstructorArgSealed for &'a [Duration; N] {}

impl<'a, const N: usize> MultiValuesConstructorArg<'a> for &'a [Duration; N] {
    open spec fn into_multi_values_ensures(self, r: MultiValues) -> bool {
        r@ == MultiValuesView::Duration(self@)
    }

    fn into_multi_values(self) -> (r: MultiValues) {
        broadcast use vstd::array::group_array_axioms;
        MultiValues::Duration(clone_items(array_as_slice(self)))
    }
}

// ---------------------------------------------------------------------------
// Url
// ---------------------------------------------------------------------------

impl MultiValuesGetterSealed<Url> for MultiValues {}

impl MultiValuesGetter<Url> for MultiValues {
    open spec fn get_values_ensures(&self, r: ValueResult<Vec<Url>>) -> bool {
        ok_view(r) == self@.typed_items(DataType::Url, self@.as_urls())
    }

    fn get_values(&self) -> (r: ValueResult<Vec<Url>>) {
        match self.get_urls() {
            Ok(s) => Ok(clone_items(s)),
            Err(e) => Err(e),
        }
    }
}

impl MultiValuesFirstGetterSealed<Url> for MultiValues {}

impl MultiValuesFirstGetter<Url> for MultiValues {
    open spec fn get_first_value_ensures(&self, r: ValueResult<Url>) -> bool {
        r == self@.typed_first(DataType::Url, self@.as_urls())
    }

    fn get_first_value(&self) -> (r: ValueResult<Url>) {
        self.get_first_url()
    }
}

impl MultiValuesSetterSealed<Url> for MultiValues {}

impl MultiValuesSetter<Url> for MultiValues {
    open spec fn set_values_ensures(before: Self, after: Self, values: Vec<Url>, r: ValueResult<()>) -> bool {
        r == Ok::<(), ValueError>(()) && after@ == MultiValuesView::Url(values@)
    }

    fn set_values(&mut self, values: Vec<Url>) -> (r: ValueResult<()>) {
        self.set_urls(values)
    }
}

impl MultiValuesSetterSliceSealed<Url> for MultiValues {}

impl MultiValuesSetterSlice<Url> for MultiValues {
    open spec fn set_values_slice_ensures(before: Self, after: Self, values: Seq<Url>, r: ValueResult<()>) -> bool {
        r == Ok::<(), ValueError>(()) && after@ == MultiValuesView::Url(values)
    }

    fn set_values_slice(&mut self, values: &[Url]) -> (r: ValueResult<()>) {
        self.set_urls_slice(values)
    }
}

impl MultiValuesSingleSetterSealed<Url> for MultiValues {}

impl MultiValuesSingleSetter<Url> for MultiValues {
    open spec fn set_single_value_ensures(before: Self, after: Self, value: Url, r: ValueResult<()>) -> bool {
        r == Ok::<(), ValueError>(()) && after@ == MultiValuesView::Url(seq![value])
    }

    fn set_single_value(&mut self, value: Url) -> (r: ValueResult<()>) {
        self.set_url(value)
    }
}

impl MultiValuesAdderSealed<Url> for MultiValues {}

impl MultiValuesAdder<Url> for MultiValues {
    open spec fn add_value_ensures(before: Self, after: Self, value: Url, r: ValueResult<()>) -> bool {
        (r, after@) == before@.append_urls(seq![value])
    }

    fn add_value(&mut self, value: Url) -> (r: ValueResult<()>) {
        self.add_url(value)
    }
}

impl MultiValuesMultiAdderSealed<Url> for MultiValues {}

impl MultiValuesMultiAdder<Url> for MultiValues {
    open spec fn add_values_ensures(before: Self, after: Self, values: Vec<Url>, r: ValueResult<()>) -> bool {
        (r, after@) == before@.append_urls(values@)
    }

    fn add_values(&mut self, values: Vec<Url>) -> (r: ValueResult<()>) {
        self.add_urls(values)
    }
}

impl MultiValuesConstructorSealed<Url> for MultiValues {}

impl MultiValuesConstructor<Url> for MultiValues {
    open spec fn from_vec_ensures(values: Vec<Url>, r: Self) -> bool {
        r@ == MultiValuesView::Url(values@)
    }

    fn from_vec(values: Vec<Url>) -> (r: Self) {
        MultiValues::Url(values)
    }
}

impl MultiValuesSetArgSealed for Url {}

impl<'a> MultiValuesSetArg<'a> for Url {
    type Item = Url;

    open spec fn apply_ensures(self, before: MultiValues, after: MultiValues, r: ValueResult<()>) -> bool {
        r == Ok::<(), ValueError>(()) && after@ == MultiValuesView::Url(seq![self])
    }

    fn apply(self, target: &mut MultiValues) -> (r: ValueResult<()>) {
        target.set_url(self)
    }
}

impl MultiValuesSetArgSealed for Vec<Url> {}

impl<'a> MultiValuesSetArg<'a> for Vec<Url> {
    type Item = Url;

    open spec fn apply_ensures(self, before: MultiValues, after: MultiValues, r: ValueResult<()>) -> bool {
        r == Ok::<(), ValueError>(()) && after@ == MultiValuesView::Url(self@)
    }

    fn apply(self, target: &mut MultiValues) -> (r: ValueResult<()>) {
        target.set_urls(self)
    }
}

impl<'a> MultiValuesSetArgSealed for &'a [Url] {}

impl<'a> MultiValuesSetArg<'a> for &'a [Url] {
    type Item = Url;

    open spec fn apply_ensures(self, before: MultiValues, after: MultiValues, r: ValueResult<()>) -> bool {
        r == Ok::<(), ValueError>(()) && after@ == MultiValuesView::Url(self@)
    }

    fn apply(self, target: &mut MultiValues) -> (r: ValueResult<()>) {
        target.set_urls_slice(self)
    }
}

impl<'a> MultiValuesSetArgSealed for &'a Vec<Url> {}

impl<'a> MultiValuesSetArg<'a> for &'a Vec<Url> {
    type Item = Url;

    open spec fn apply_ensures(self, before: MultiValues, after: MultiValues, r: ValueResult<()>) -> bool {
        r == Ok::<(), ValueError>(()) && after@ == MultiValuesView::Url(self@)
    }

    fn apply(self, target: &mut MultiValues) -> (r: ValueResult<()>) {
        target.set_urls_slice(self.as_slice())
    }
}

impl MultiValuesAddArgSealed for Url {}

impl<'a> MultiValuesAddArg<'a> for Url {
    type Item = Url;

    open spec fn apply_add_ensures(self, before: MultiValues, after: MultiValues, r: ValueResult<()>) -> bool {
        (r, after@) == before@.append_urls(seq![self])
    }

    fn apply_add(self, target: &mut MultiValues) -> (r: ValueResult<()>) {
        target.add_url(self)
    }
}

impl MultiValuesAddArgSealed for Vec<Url> {}

impl<'a> MultiValuesAddArg<'a> for Vec<Url> {
    type Item = Url;

    open spec fn apply_add_ensures(self, before: MultiValues, after: MultiValues, r: ValueResult<()>) -> bool {
        (r, after@) == before@.append_urls(self@)
    }

    fn apply_add(self, target: &mut MultiValues) -> (r: ValueResult<()>) {
        target.add_urls(self)
    }
}

impl<'a> MultiValuesAddArgSealed for &'a [Url] {}

impl<'a> MultiValuesAddArg<'a> for &'a [Url] {
    type Item = Url;

    open spec fn apply_add_ensures(self, before: MultiValues, after: MultiValues, r: ValueResult<()>) -> bool {
        (r, after@) == before@.append_urls(self@)
    }

    fn apply_add(self, target: &mut MultiValues) -> (r: ValueResult<()>) {
        target.add_urls_slice(self)
    }
}

impl<'a> MultiValuesAddArgSealed for &'a Vec<Url> {}

impl<'a> MultiValuesAddArg<'a> for &'a Vec<Url> {
    type Item = Url;

    open spec fn apply_add_ensures(self, before: MultiValues, after: MultiValues, r: ValueResult<()>) -> bool {
        (r, after@) == before@.append_urls(self@)
    }

    fn apply_add(self, target: &mut MultiValues) -> (r: ValueResult<()>) {
        target.add_urls_slice(self.as_slice())
    }
}

impl MultiValuesConstructorArgSealed for Vec<Url> {}

impl<'a> MultiValuesConstructorArg<'a> for Vec<Url> {
    open spec fn into_multi_values_ensures(self, r: MultiValues) -> bool {
        r@ == MultiValuesView::Url(self@)
    }

    fn into_multi_values(self) -> (r: MultiValues) {
        MultiValues::Url(self)
    }
}

impl<'a> MultiValuesConstructorArgSealed for &'a [Url] {}

impl<'a> MultiValuesConstructorArg<'a> for &'a [Url] {
    open spec fn into_multi_values_ensures(self, r: MultiValues) -> bool {
        r@ == MultiValuesView::Url(self@)
    }

    fn into_multi_values(self) -> (r: MultiValues) {
        MultiValues::Url(clone_items(self))
    }
}

impl<'a> MultiValuesConstructorArgSealed for &'a Vec<Url> {}

impl<'a> MultiValuesConstructorArg<'a> for &'a Vec<Url> {
    open spec fn into_multi_values_ensures(self, r: MultiValues) -> bool {
        r@ == MultiValuesView::Url(self@)
    }

    fn into_multi_values(self) -> (r: MultiValues) {
        MultiValues::Url(clone_items(self.as_slice()))
    }
}

impl<const N: usize> MultiValuesSetArgSealed for [Url; N] {}

impl<'a, const N: usize> MultiValuesSetArg<'a> for [Url; N] {
    type Item = Url;

    open spec fn apply_ensures(self, before: MultiValues, after: MultiValues, r: ValueResult<()>) -> bool {
        r == Ok::<(), ValueError>(()) && after@ == MultiValuesView::Url(self@)
    }

    fn apply(self, target: &mut MultiValues) -> (r: ValueResult<()>) {
        broadcast use vstd::array::group_array_axioms;
        target.set_urls_slice(array_as_slice(&self))
    }
}

impl<'a, const N: usize> MultiValuesSetArgSealed for &'a [Url; N] {}

impl<'a, const N: usize> MultiValuesSetArg<'a> for &'a [Url; N] {
    type Item = Url;

    open spec fn apply_ensures(self, before: MultiValues, after: MultiValues, r: ValueResult<()>) -> bool {
        r == Ok::<(), ValueError>(()) && after@ == MultiValuesView::Url(self@)
    }

    fn apply(self, target: &mut MultiValues) -> (r: ValueResult<()>) {
        broadcast use vstd::array::group_array_axioms;
        target.set_urls_slice(array_as_slice(self))
    }
}

impl<const N: usize> MultiValuesAddArgSealed for [Url; N] {}

impl<'a, const N: usize> MultiValuesAddArg<'a> for [Url; N] {
    type Item = Url;

    open spec fn apply_add_ensures(self, before: MultiValues, after: MultiValues, r: ValueResult<()>) -> bool {
        (r, after@) == before@.append_urls(self@)
    }

    fn apply_add(self, target: &mut MultiValues) -> (r: ValueResult<()>) {
        broadcast use vstd::array::group_array_axioms;
        target.add_urls_slice(array_as_slice(&self))
    }
}

impl<'a, const N: usize> MultiValuesAddArgSealed for &'a [Url; N] {}

impl<'a, const N: usize> MultiValuesAddArg<'a> for &'a [Url; N] {
    type Item = Url;

    open spec fn apply_add_ensures(self, before: MultiValues, after: MultiValues, r: ValueResult<()>) -> bool {
        (r, after@) == before@.append_urls(self@)
    }

    fn apply_add(self, target: &mut MultiValues) -> (r: ValueResult<()>) {
        broadcast use vstd::array::group_array_axioms;
        target.add_urls_slice(array_as_slice(self))
    }
}

impl<const N: usize> MultiValuesConstructorArgSealed for [Url; N] {}

impl<'a, const N: usize> MultiValuesConstructorArg<'a> for [Url; N] {
    open spec fn into_multi_values_ensures(self, r: MultiValues) -> bool {
        r@ == MultiValuesView::Url(self@)
    }

    fn into_multi_values(self) -> (r: MultiValues) {
        broadcast use vstd::array::group_array_axioms;
        MultiValues::Url(clone_items(array_as_slice(&self)))
    }
}

impl<'a, const N: usize> MultiValuesConstructorArgSealed for &'a [Url; N] {}

impl<'a, const N: usize> MultiValuesConstructorArg<'a> for &'a [Url; N] {
    open spec fn into_multi_values_ensures(self, r: MultiValues) -> bool {
        r@ == MultiValuesView::Url(self@)
    }

    fn into_multi_values(self) -> (r: MultiValues) {
        broadcast use vstd::array::group_array_axioms;
        MultiValues::Url(clone_items(array_as_slice(self)))
    }
}

// ---------------------------------------------------------------------------
// HashMap<String, String>
// ---------------------------------------------------------------------------

impl MultiValuesGetterSealed<HashMap<String, String>> for MultiValues {}

impl MultiValuesGetter<HashMap<String, String>> for MultiValues {
    open spec fn get_values_ensures(&self, r: ValueResult<Vec<HashMap<String, String>>>) -> bool {
        match r {
            Ok(v) => self@.typed_items(DataType::StringMap, self@.as_string_maps()) == Ok::<Seq<Map<String, String>>, ValueError>(maps_view(v@)),
            Err(e) => self@.typed_items(DataType::StringMap, self@.as_string_maps()) == Err::<Seq<Map<String, String>>, ValueError>(e),
        }
    }

    fn get_values(&self) -> (r: ValueResult<Vec<HashMap<String, String>>>) {
        match self.get_string_maps() {
            Ok(s) => Ok(clone_maps(s)),
            Err(e) => Err(e),
        }
    }
}

impl MultiValuesFirstGetterSealed<HashMap<String, String>> for MultiValues {}

impl MultiValuesFirstGetter<HashMap<String, String>> for MultiValues {
    open spec fn get_first_value_ensures(&self, r: ValueResult<HashMap<String, String>>) -> bool {
        ok_view(r) == self@.typed_first(DataType::StringMap, self@.as_string_maps())
    }

    fn get_first_value(&self) -> (r: ValueResult<HashMap<String, String>>) {
        self.get_first_string_map()
    }
}

impl MultiValuesSetterSealed<HashMap<String, String>> for MultiValues {}

impl MultiValuesSetter<HashMap<String, String>> for MultiValues {
    open spec fn set_values_ensures(before: Self, after: Self, values: Vec<HashMap<String, String>>, r: ValueResult<()>) -> bool {
        r == Ok::<(), ValueError>(()) && after@ == MultiValuesView::StringMap(maps_view(values@))
    }

    fn set_values(&mut self, values: Vec<HashMap<String, String>>) -> (r: ValueResult<()>) {
        self.set_string_maps(values)
    }
}

impl MultiValuesSetterSliceSealed<HashMap<String, String>> for MultiValues {}

impl MultiValuesSetterSlice<HashMap<String, String>> for MultiValues {
    open spec fn set_values_slice_ensures(before: Self, after: Self, values: Seq<HashMap<String, String>>, r: ValueResult<()>) -> bool {
        r == Ok::<(), ValueError>(()) && after@ == MultiValuesView::StringMap(maps_view(values))
    }

    fn set_values_slice(&mut self, values: &[HashMap<String, String>]) -> (r: ValueResult<()>) {
        self.set_string_maps_slice(values)
    }
}

impl MultiValuesSingleSetterSealed<HashMap<String, String>> for MultiValues {}

impl MultiValuesSingleSetter<HashMap<String, String>> for MultiValues {
    open spec fn set_single_value_ensures(before: Self, after: Self, value: HashMap<String, String>, r: ValueResult<()>) -> bool {
        r == Ok::<(), ValueError>(()) && after@ == MultiValuesView::StringMap(seq![value@])
    }

    fn set_single_value(&mut self, value: HashMap<String, String>) -> (r: ValueResult<()>) {
        self.set_string_map(value)
    }
}

impl MultiValuesAdderSealed<HashMap<String, String>> for MultiValues {}

impl MultiValuesAdder<HashMap<String, String>> for MultiValues {
    open spec fn add_value_ensures(before: Self, after: Self, value: HashMap<String, String>, r: ValueResult<()>) -> bool {
        (r, after@) == before@.append_string_maps(seq![value@])
    }

    fn add_value(&mut self, value: HashMap<String, String>) -> (r: ValueResult<()>) {
        self.add_string_map(value)
    }
}

impl MultiValuesMultiAdderSealed<HashMap<String, String>> for MultiValues {}

impl MultiValuesMultiAdder<HashMap<String, String>> for MultiValues {
    open spec fn add_values_ensures(before: Self, after: Self, values: Vec<HashMap<String, String>>, r: ValueResult<()>) -> bool {
        (r, after@) == before@.append_string_maps(maps_view(values@))
    }

    fn add_values(&mut self, values: Vec<HashMap<String, String>>) -> (r: ValueResult<()>) {
        self.add_string_maps(values)
    }
}

impl MultiValuesConstructorSealed<HashMap<String, String>> for MultiValues {}

impl MultiValuesConstructor<HashMap<String, String>> for MultiValues {
    open spec fn from_vec_ensures(values: Vec<HashMap<String, String>>, r: Self) -> bool {
        r@ == MultiValuesView::StringMap(maps_view(values@))
    }

    fn from_vec(values: Vec<HashMap<String, String>>) -> (r: Self) {
        MultiValues::StringMap(values)
    }
}

impl MultiValuesSetArgSealed for HashMap<String, String> {}

impl<'a> MultiValuesSetArg<'a> for HashMap<String, String> {
    type Item = HashMap<String, String>;

    open spec fn apply_ensures(self, before: MultiValues, after: MultiValues, r: ValueResult<()>) -> bool {
        r == Ok::<(), ValueError>(()) && after@ == MultiValuesView::StringMap(seq![self@])
    }

    fn apply(self, target: &mut MultiValues) -> (r: ValueResult<()>) {
        target.set_string_map(self)
    }
}

impl MultiValuesSetArgSealed for Vec<HashMap<String, String>> {}

impl<'a> MultiValuesSetArg<'a> for Vec<HashMap<String, String>> {
    type Item = HashMap<String, String>;

    open spec fn apply_ensures(self, before: MultiValues, after: MultiValues, r: ValueResult<()>) -> bool {
        r == Ok::<(), ValueError>(()) && after@ == MultiValuesView::StringMap(maps_view(self@))
    }

    fn apply(self, target: &mut MultiValues) -> (r: ValueResult<()>) {
        target.set_string_maps(self)
    }
}

impl<'a> MultiValuesSetArgSealed for &'a [HashMap<String, String>] {}

impl<'a> MultiValuesSetArg<'a> for &'a [HashMap<String, String>] {
    type Item = HashMap<String, String>;

    open spec fn apply_ensures(self, before: MultiValues, after: MultiValues, r: ValueResult<()>) -> bool {
        r == Ok::<(), ValueError>(()) && after@ == MultiValuesView::StringMap(maps_view(self@))
    }

    fn apply(self, target: &mut MultiValues) -> (r: ValueResult<()>) {
        target.set_string_maps_slice(self)
    }
}

impl<'a> MultiValuesSetArgSealed for &'a Vec<HashMap<String, String>> {}

impl<'a> MultiValuesSetArg<'a> for &'a Vec<HashMap<String, String>> {
    type Item = HashMap<String, String>;

    open spec fn apply_ensures(self, before: MultiValues, after: MultiValues, r: ValueResult<()>) -> bool {
        r == Ok::<(), ValueError>(()) && after@ == MultiValuesView::StringMap(maps_view(self@))
    }

    fn apply(self, target: &mut MultiValues) -> (r: ValueResult<()>) {
        target.set_string_maps_slice(self.as_slice())
    }
}

impl MultiValuesAddArgSealed for HashMap<String, String> {}

impl<'a> MultiValuesAddArg<'a> for HashMap<String, String> {
    type Item = HashMap<String, String>;

    open spec fn apply_add_ensures(self, before: MultiValues, after: MultiValues, r: ValueResult<()>) -> bool {
        (r, after@) == before@.append_string_maps(seq![self@])
    }

    fn apply_add(self, target: &mut MultiValues) -> (r: ValueResult<()>) {
        target.add_string_map(self)
    }
}

impl MultiValuesAddArgSealed for Vec<HashMap<String, String>> {}

impl<'a> MultiValuesAddArg<'a> for Vec<HashMap<String, String>> {
    type Item = HashMap<String, String>;

    open spec fn apply_add_ensures(self, before: MultiValues, after: MultiValues, r: ValueResult<()>) -> bool {
        (r, after@) == before@.append_string_maps(maps_view(self@))
    }

    fn apply_add(self, target: &mut MultiValues) -> (r: ValueResult<()>) {
        target.add_string_maps(self)
    }
}

impl<'a> MultiValuesAddArgSealed for &'a [HashMap<String, String>] {}

impl<'a> MultiValuesAddArg<'a> for &'a [HashMap<String, String>] {
    type Item = HashMap<String, String>;

    open spec fn apply_add_ensures(self, before: MultiValues, after: MultiValues, r: ValueResult<()>) -> bool {
        (r, after@) == before@.append_string_maps(maps_view(self@))
    }

    fn apply_add(self, target: &mut MultiValues) -> (r: ValueResult<()>) {
        target.add_string_maps_slice(self)
    }
}

impl<'a> MultiValuesAddArgSealed for &'a Vec<HashMap<String, String>> {}

impl<'a> MultiValuesAddArg<'a> for &'a Vec<HashMap<String, String>> {
    type Item = HashMap<String, String>;

    open spec fn apply_add_ensures(self, before: MultiValues, after: MultiValues, r: ValueResult<()>) -> bool {
        (r, after@) == before@.append_string_maps(maps_view(self@))
    }

    fn apply_add(self, target: &mut MultiValues) -> (r: ValueResult<()>) {
        target.add_string_maps_slice(self.as_slice())
    }
}

impl MultiValuesConstructorArgSealed for Vec<HashMap<String, String>> {}

impl<'a> MultiValuesConstructorArg<'a> for Vec<HashMap<String, String>> {
    open spec fn into_multi_values_ensures(self, r: MultiValues) -> bool {
        r@ == MultiValuesView::StringMap(maps_view(self@))
    }

    fn into_multi_values(self) -> (r: MultiValues) {
        MultiValues::StringMap(self)
    }
}

impl<'a> MultiValuesConstructorArgSealed for &'a [HashMap<String, String>] {}

impl<'a> MultiValuesConstructorArg<'a> for &'a [HashMap<String, String>] {
    open spec fn into_multi_values_ensures(self, r: MultiValues) -> bool {
        r@ == MultiValuesView::StringMap(maps_view(self@))
    }

    fn into_multi_values(self) -> (r: MultiValues) {
        MultiValues::StringMap(clone_maps(self))
    }
}

impl<'a> MultiValuesConstructorArgSealed for &'a Vec<HashMap<String, String>> {}

impl<'a> MultiValuesConstructorArg<'a> for &'a Vec<HashMap<String, String>> {
    open spec fn into_multi_values_ensures(self, r: MultiValues) -> bool {
        r@ == MultiValuesView::StringMap(maps_view(self@))
    }

    fn into_multi_values(self) -> (r: MultiValues) {
        MultiValues::StringMap(clone_maps(self.as_slice()))
    }
}

impl<const N: usize> MultiValuesSetArgSealed for [HashMap<String, String>; N] {}

impl<'a, const N: usize> MultiValuesSetArg<'a> for [HashMap<String, String>; N] {
    type Item = HashMap<String, String>;

    open spec fn apply_ensures(self, before: MultiValues, after: MultiValues, r: ValueResult<()>) -> bool {
        r == Ok::<(), ValueError>(()) && after@ == MultiValuesView::StringMap(maps_view(self@))
    }

    fn apply(self, target: &mut MultiValues) -> (r: ValueResult<()>) {
        broadcast use vstd::array::group_array_axioms;
        target.set_string_maps_slice(array_as_slice(&self))
    }
}

impl<'a, const N: usize> MultiValuesSetArgSealed for &'a [HashMap<String, String>; N] {}

impl<'a, const N: usize> MultiValuesSetArg<'a> for &'a [HashMap<String, String>; N] {
    type Item = HashMap<String, String>;

    open spec fn apply_ensures(self, before: MultiValues, after: MultiValues, r: ValueResult<()>) -> bool {
        r == Ok::<(), ValueError>(()) && after@ == MultiValuesView::StringMap(maps_view(self@))
    }

    fn apply(self, target: &mut MultiValues) -> (r: ValueResult<()>) {
        broadcast use vstd::array::group_array_axioms;
        target.set_string_maps_slice(array_as_slice(self))
    }
}

impl<const N: usize> MultiValuesAddArgSealed for [HashMap<String, String>; N] {}

impl<'a, const N: usize> MultiValuesAddArg<'a> for [HashMap<String, String>; N] {
    type Item = HashMap<String, String>;

    open spec fn apply_add_ensures(self, before: MultiValues, after: MultiValues, r: ValueResult<()>) -> bool {
        (r, after@) == before@.append_string_maps(maps_view(self@))
    }

    fn apply_add(self, target: &mut MultiValues) -> (r: ValueResult<()>) {
        broadcast use vstd::array::group_array_axioms;
        target.add_string_maps_slice(array_as_slice(&self))
    }
}

impl<'a, const N: usize> MultiValuesAddArgSealed for &'a [HashMap<String, String>; N] {}

impl<'a, const N: usize> MultiValuesAddArg<'a> for &'a [HashMap<String, String>; N] {
    type Item = HashMap<String, String>;

    open spec fn apply_add_ensures(self, before: MultiValues, after: MultiValues, r: ValueResult<()>) -> bool {
        (r, after@) == before@.append_string_maps(maps_view(self@))
    }

    fn apply_add(self, target: &mut MultiValues) -> (r: ValueResult<()>) {
        broadcast use vstd::array::group_array_axioms;
        target.add_string_maps_slice(array_as_slice(self))
    }
}

impl<const N: usize> MultiValuesConstructorArgSealed for [HashMap<String, String>; N] {}

impl<'a, const N: usize> MultiValuesConstructorArg<'a> for [HashMap<String, String>; N] {
    open spec fn into_multi_values_ensures(self, r: MultiValues) -> bool {
        r@ == MultiValuesView::StringMap(maps_view(self@))
    }

    fn into_multi_values(self) -> (r: MultiValues) {
        broadcast use vstd::array::group_array_axioms;
        MultiValues::StringMap(clone_maps(array_as_slice(&self)))
    }
}

impl<'a, const N: usize> MultiValuesConstructorArgSealed for &'a [HashMap<String, String>; N] {}

impl<'a, const N: usize> MultiValuesConstructorArg<'a> for &'a [HashMap<String, String>; N] {
    open spec fn into_multi_values_ensures(self, r: MultiValues) -> bool {
        r@ == MultiValuesView::StringMap(maps_view(self@))
    }

    fn into_multi_values(self) -> (r: MultiValues) {
        broadcast use vstd::array::group_array_axioms;
        MultiValues::StringMap(clone_maps(array_as_slice(self)))
    }
}

// ---------------------------------------------------------------------------
// JsonValue
// ---------------------------------------------------------------------------

impl MultiValuesGetterSealed<JsonValue> for MultiValues {}

impl MultiValuesGetter<JsonValue> for MultiValues {
    open spec fn get_values_ensures(&self, r: ValueResult<Vec<JsonValue>>) -> bool {
        ok_view(r) == self@.typed_items(DataType::Json, self@.as_jsons())
    }

    fn get_values(&self) -> (r: ValueResult<Vec<JsonValue>>) {
        match self.get_jsons() {
            Ok(s) => Ok(clone_items(s)),
            Err(e) => Err(e),
        }
    }
}

impl MultiValuesFirstGetterSealed<JsonValue> for MultiValues {}

impl MultiValuesFirstGetter<JsonValue> for MultiValues {
    open spec fn get_first_value_ensures(&self, r: ValueResult<JsonValue>) -> bool {
        r == self@.typed_first(DataType::Json, self@.as_jsons())
    }

    fn get_first_value(&self) -> (r: ValueResult<JsonValue>) {
        self.get_first_json()
    }
}

impl MultiValuesSetterSealed<JsonValue> for MultiValues {}

impl MultiValuesSetter<JsonValue> for MultiValues {
    open spec fn set_values_ensures(before: Self, after: Self, values: Vec<JsonValue>, r: ValueResult<()>) -> bool {
        r == Ok::<(), ValueError>(()) && after@ == MultiValuesView::Json(values@)
    }

    fn set_values(&mut self, values: Vec<JsonValue>) -> (r: ValueResult<()>) {
        self.set_jsons(values)
    }
}

impl MultiValuesSetterSliceSealed<JsonValue> for MultiValues {}

impl MultiValuesSetterSlice<JsonValue> for MultiValues {
    open spec fn set_values_slice_ensures(before: Self, after: Self, values: Seq<JsonValue>, r: ValueResult<()>) -> bool {
        r == Ok::<(), ValueError>(()) && after@ == MultiValuesView::Json(values)
    }

    fn set_values_slice(&mut self, values: &[JsonValue]) -> (r: ValueResult<()>) {
        self.set_jsons_slice(values)
    }
}

impl MultiValuesSingleSetterSealed<JsonValue> for MultiValues {}

impl MultiValuesSingleSetter<JsonValue> for MultiValues {
    open spec fn set_single_value_ensures(before: Self, after: Self, value: JsonValue, r: ValueResult<()>) -> bool {
        r == Ok::<(), ValueError>(()) && after@ == MultiValuesView::Json(seq![value])
    }

    fn set_single_value(&mut self, value: JsonValue) -> (r: ValueResult<()>) {
        self.set_json(value)
    }
}

impl MultiValuesAdderSealed<JsonValue> for MultiValues {}

impl MultiValuesAdder<JsonValue> for MultiValues {
    open spec fn add_value_ensures(before: Self, after: Self, value: JsonValue, r: ValueResult<()>) -> bool {
        (r, after@) == before@.append_jsons(seq![value])
    }

    fn add_value(&mut self, value: JsonValue) -> (r: ValueResult<()>) {
        self.add_json(value)
    }
}

impl MultiValuesMultiAdderSealed<JsonValue> for MultiValues {}

impl MultiValuesMultiAdder<JsonValue> for MultiValues {
    open spec fn add_values_ensures(before: Self, after: Self, values: Vec<JsonValue>, r: ValueResult<()>) -> bool {
        (r, after@) == before@.append_jsons(values@)
    }

    fn add_values(&mut self, values: Vec<JsonValue>) -> (r: ValueResult<()>) {
        self.add_jsons(values)
    }
}

impl MultiValuesConstructorSealed<JsonValue> for MultiValues {}

impl MultiValuesConstructor<JsonValue> for MultiValues {
    open spec fn from_vec_ensures(values: Vec<JsonValue>, r: Self) -> bool {
        r@ == MultiValuesView::Json(values@)
    }

    fn from_vec(values: Vec<JsonValue>) -> (r: Self) {
        MultiValues::Json(values)
    }
}

impl MultiValuesSetArgSealed for JsonValue {}

impl<'a> MultiValuesSetArg<'a> for JsonValue {
    type Item = JsonValue;

    open spec fn apply_ensures(self, before: MultiValues, after: MultiValues, r: ValueResult<()>) -> bool {
        r == Ok::<(), ValueError>(()) && after@ == MultiValuesView::Json(seq![self])
    }

    fn apply(self, target: &mut MultiValues) -> (r: ValueResult<()>) {
        target.set_json(self)
    }
}

impl MultiValuesSetArgSealed for Vec<JsonValue> {}

impl<'a> MultiValuesSetArg<'a> for Vec<JsonValue> {
    type Item = JsonValue;

    open spec fn apply_ensures(self, before: MultiValues, after: MultiValues, r: ValueResult<()>) -> bool {
        r == Ok::<(), ValueError>(()) && after@ == MultiValuesView::Json(self@)
    }

    fn apply(self, target: &mut MultiValues) -> (r: ValueResult<()>) {
        target.set_jsons(self)
    }
}

impl<'a> MultiValuesSetArgSealed for &'a [JsonValue] {}

impl<'a> MultiValuesSetArg<'a> for &'a [JsonValue] {
    type Item = JsonValue;

    open spec fn apply_ensures(self, before: MultiValues, after: MultiValues, r: ValueResult<()>) -> bool {
        r == Ok::<(), ValueError>(()) && after@ == MultiValuesView::Json(self@)
    }

    fn apply(self, target: &mut MultiValues) -> (r: ValueResult<()>) {
        target.set_jsons_slice(self)
    }
}

impl<'a> MultiValuesSetArgSealed for &'a Vec<JsonValue> {}

impl<'a> MultiValuesSetArg<'a> for &'a Vec<JsonValue> {
    type Item = JsonValue;

    open spec fn apply_ensures(self, before: MultiValues, after: MultiValues, r: ValueResult<()>) -> bool {
        r == Ok::<(), ValueError>(()) && after@ == MultiValuesView::Json(self@)
    }

    fn apply(self, target: &mut MultiValues) -> (r: ValueResult<()>) {
        target.set_jsons_slice(self.as_slice())
    }
}

impl MultiValuesAddArgSealed for JsonValue {}

impl<'a> MultiValuesAddArg<'a> for JsonValue {
    type Item = JsonValue;

    open spec fn apply_add_ensures(self, before: MultiValues, after: MultiValues, r: ValueResult<()>) -> bool {
        (r, after@) == before@.append_jsons(seq![self])
    }

    fn apply_add(self, target: &mut MultiValues) -> (r: ValueResult<()>) {
        target.add_json(self)
    }
}

impl MultiValuesAddArgSealed for Vec<JsonValue> {}

impl<'a> MultiValuesAddArg<'a> for Vec<JsonValue> {
    type Item = JsonValue;

    open spec fn apply_add_ensures(self, before: MultiValues, after: MultiValues, r: ValueResult<()>) -> bool {
        (r, after@) == before@.append_jsons(self@)
    }

    fn apply_add(self, target: &mut MultiValues) -> (r: ValueResult<()>) {
        target.add_jsons(self)
    }
}

impl<'a> MultiValuesAddArgSealed for &'a [JsonValue] {}

impl<'a> MultiValuesAddArg<'a> for &'a [JsonValue] {
    type Item = JsonValue;

    open spec fn apply_add_ensures(self, before: MultiValues, after: MultiValues, r: ValueResult<()>) -> bool {
        (r, after@) == before@.append_jsons(self@)
    }

    fn apply_add(self, target: &mut MultiValues) -> (r: ValueResult<()>) {
        target.add_jsons_slice(self)
    }
}

impl<'a> MultiValuesAddArgSealed for &'a Vec<JsonValue> {}

impl<'a> MultiValuesAddArg<'a> for &'a Vec<JsonValue> {
    type Item = JsonValue;

    open spec fn apply_add_ensures(self, before: MultiValues, after: MultiValues, r: ValueResult<()>) -> bool {
        (r, after@) == before@.append_jsons(self@)
    }

    fn apply_add(self, target: &mut MultiValues) -> (r: ValueResult<()>) {
        target.add_jsons_slice(self.as_slice())
    }
}

impl MultiValuesConstructorArgSealed for Vec<JsonValue> {}

impl<'a> MultiValuesConstructorArg<'a> for Vec<JsonValue> {
    open spec fn into_multi_values_ensures(self, r: MultiValues) -> bool {
        r@ == MultiValuesView::Json(self@)
    }

    fn into_multi_values(self) -> (r: MultiValues) {
        MultiValues::Json(self)
    }
}

impl<'a> MultiValuesConstructorArgSealed for &'a [JsonValue] {}

impl<'a> MultiValuesConstructorArg<'a> for &'a [JsonValue] {
    open spec fn into_multi_values_ensures(self, r: MultiValues) -> bool {
        r@ == MultiValuesView::Json(self@)
    }

    fn into_multi_values(self) -> (r: MultiValues) {
        MultiValues::Json(clone_items(self))
    }
}

impl<'a> MultiValuesConstructorArgSealed for &'a Vec<JsonValue> {}

impl<'a> MultiValuesConstructorArg<'a> for &'a Vec<JsonValue> {
    open spec fn into_multi_values_ensures(self, r: MultiValues) -> bool {
        r@ == MultiValuesView::Json(self@)
    }

    fn into_multi_values(self) -> (r: MultiValues) {
        MultiValues::Json(clone_items(self.as_slice()))
    }
}

impl<const N: usize> MultiValuesSetArgSealed for [JsonValue; N] {}

impl<'a, const N: usize> MultiValuesSetArg<'a> for [JsonValue; N] {
    type Item = JsonValue;

    open spec fn apply_ensures(self, before: MultiValues, after: MultiValues, r: ValueResult<()>) -> bool {
        r == Ok::<(), ValueError>(()) && after@ == MultiValuesView::Json(self@)
    }

    fn apply(self, target: &mut MultiValues) -> (r: ValueResult<()>) {
        broadcast use vstd::array::group_array_axioms;
        target.set_jsons_slice(array_as_slice(&self))
    }
}

impl<'a, const N: usize> MultiValuesSetArgSealed for &'a [JsonValue; N] {}

impl<'a, const N: usize> MultiValuesSetArg<'a> for &'a [JsonValue; N] {
    type Item = JsonValue;

    open spec fn apply_ensures(self, before: MultiValues, after: MultiValues, r: ValueResult<()>) -> bool {
        r == Ok::<(), ValueError>(()) && after@ == MultiValuesView::Json(self@)
    }

    fn apply(self, target: &mut MultiValues) -> (r: ValueResult<()>) {
        broadcast use vstd::array::group_array_axioms;
        target.set_jsons_slice(array_as_slice(self))
    }
}

impl<const N: usize> MultiValuesAddArgSealed for [JsonValue; N] {}

impl<'a, const N: usize> MultiValuesAddArg<'a> for [JsonValue; N] {
    type Item = JsonValue;

    open spec fn apply_add_ensures(self, before: MultiValues, after: MultiValues, r: ValueResult<()>) -> bool {
        (r, after@) == before@.append_jsons(self@)
    }

    fn apply_add(self, target: &mut MultiValues) -> (r: ValueResult<()>) {
        broadcast use vstd::array::group_array_axioms;
        target.add_jsons_slice(array_as_slice(&self))
    }
}

impl<'a, const N: usize> MultiValuesAddArgSealed for &'a [JsonValue; N] {}

impl<'a, const N: usize> MultiValuesAddArg<'a> for &'a [JsonValue; N] {
    type Item = JsonValue;

    open spec fn apply_add_ensures(self, before: MultiValues, after: MultiValues, r: ValueResult<()>) -> bool {
        (r, after@) == before@.append_jsons(self@)
    }

    fn apply_add(self, target: &mut MultiValues) -> (r: ValueResult<()>) {
        broadcast use vstd::array::group_array_axioms;
        target.add_jsons_slice(array_as_slice(self))
    }
}

impl<const N: usize> MultiValuesConstructorArgSealed for [JsonValue; N] {}

impl<'a, const N: usize> MultiValuesConstructorArg<'a> for [JsonValue; N] {
    open spec fn into_multi_values_ensures(self, r: MultiValues) -> bool {
        r@ == MultiValuesView::Json(self@)
    }

    fn into_multi_values(self) -> (r: MultiValues) {
        broadcast use vstd::array::group_array_axioms;
        MultiValues::Json(clone_items(array_as_slice(&self)))
    }
}

impl<'a, const N: usize> MultiValuesConstructorArgSealed for &'a [JsonValue; N] {}

impl<'a, const N: usize> MultiValuesConstructorArg<'a> for &'a [JsonValue; N] {
    open spec fn into_multi_values_ensures(self, r: MultiValues) -> bool {
        r@ == MultiValuesView::Json(self@)
    }

    fn into_multi_values(self) -> (r: MultiValues) {
        broadcast use vstd::array::group_array_axioms;
        MultiValues::Json(clone_items(array_as_slice(self)))
    }
}

// ---------------------------------------------------------------------------
// Borrowed text, taken as owned strings
// ---------------------------------------------------------------------------

/// The characters of each item of a sequence of borrowed texts.
pub open spec fn texts_view(s: Seq<&str>) -> Seq<Seq<char>> {
    s.map_values(|x: &str| x@)
}

impl<'a> MultiValuesSetArgSealed for &'a str {}

impl<'a> MultiValuesSetArg<'a> for &'a str {
    type Item = String;

    open spec fn apply_ensures(self, before: MultiValues, after: MultiValues, r: ValueResult<()>) -> bool {
        r == Ok::<(), ValueError>(()) && after@ == MultiValuesView::String(seq![self@])
    }

    fn apply(self, target: &mut MultiValues) -> (r: ValueResult<()>) {
        target.set_string(String::from_str(self))
    }
}

impl<'a> MultiValuesSetArgSealed for Vec<&'a str> {}

impl<'a> MultiValuesSetArg<'a> for Vec<&'a str> {
    type Item = String;

    open spec fn apply_ensures(self, before: MultiValues, after: MultiValues, r: ValueResult<()>) -> bool {
        r == Ok::<(), ValueError>(()) && after@ == MultiValuesView::String(texts_view(self@))
    }

    fn apply(self, target: &mut MultiValues) -> (r: ValueResult<()>) {
        target.set_strings(collect_strings(self.as_slice()))
    }
}

impl<'a> MultiValuesAddArgSealed for Vec<&'a str> {}

impl<'a> MultiValuesAddArg<'a> for Vec<&'a str> {
    type Item = String;

    open spec fn apply_add_ensures(self, before: MultiValues, after: MultiValues, r: ValueResult<()>) -> bool {
        (r, after@) == before@.append_strings(texts_view(self@))
    }

    fn apply_add(self, target: &mut MultiValues) -> (r: ValueResult<()>) {
        target.add_strings(collect_strings(self.as_slice()))
    }
}

impl<'a> MultiValuesConstructorArgSealed for Vec<&'a str> {}

impl<'a> MultiValuesConstructorArg<'a> for Vec<&'a str> {
    open spec fn into_multi_values_ensures(self, r: MultiValues) -> bool {
        r@ == MultiValuesView::String(texts_view(self@))
    }

    fn into_multi_values(self) -> (r: MultiValues) {
        MultiValues::String(collect_strings(self.as_slice()))
    }
}

impl<'a> MultiValuesSetArgSealed for &'a [&'a str] {}

impl<'a> MultiValuesSetArg<'a> for &'a [&'a str] {
    type Item = String;

    open spec fn apply_ensures(self, before: MultiValues, after: MultiValues, r: ValueResult<()>) -> bool {
        r == Ok::<(), ValueError>(()) && after@ == MultiValuesView::String(texts_view(self@))
    }

    fn apply(self, target: &mut MultiValues) -> (r: ValueResult<()>) {
        target.set_strings(collect_strings(self))
    }
}

impl<'a> MultiValuesAddArgSealed for &'a [&'a str] {}

impl<'a> MultiValuesAddArg<'a> for &'a [&'a str] {
    type Item = String;

    open spec fn apply_add_ensures(self, before: MultiValues, after: MultiValues, r: ValueResult<()>) -> bool {
        (r, after@) == before@.append_strings(texts_view(self@))
    }

    fn apply_add(self, target: &mut MultiValues) -> (r: ValueResult<()>) {
        target.add_strings(collect_strings(self))
    }
}

impl<'a> MultiValuesConstructorArgSealed for &'a [&'a str] {}

impl<'a> MultiValuesConstructorArg<'a> for &'a [&'a str] {
    open spec fn into_multi_values_ensures(self, r: MultiValues) -> bool {
        r@ == MultiValuesView::String(texts_view(self@))
    }

    fn into_multi_values(self) -> (r: MultiValues) {
        MultiValues::String(collect_strings(self))
    }
}

impl<'a> MultiValuesSetArgSealed for &'a Vec<&'a str> {}

impl<'a> MultiValuesSetArg<'a> for &'a Vec<&'a str> {
    type Item = String;

    open spec fn apply_ensures(self, before: MultiValues, after: MultiValues, r: ValueResult<()>) -> bool {
        r == Ok::<(), ValueError>(()) && after@ == MultiValuesView::String(texts_view(self@))
    }

    fn apply(self, target: &mut MultiValues) -> (r: ValueResult<()>) {
        target.set_strings(collect_strings(self.as_slice()))
    }
}

impl<'a> MultiValuesAddArgSealed for &'a Vec<&'a str> {}

impl<'a> MultiValuesAddArg<'a> for &'a Vec<&'a str> {
    type Item = String;

    open spec fn apply_add_ensures(self, before: MultiValues, after: MultiValues, r: ValueResult<()>) -> bool {
        (r, after@) == before@.append_strings(texts_view(self@))
    }

    fn apply_add(self, target: &mut MultiValues) -> (r: ValueResult<()>) {
        target.add_strings(collect_strings(self.as_slice()))
    }
}

impl<'a> MultiValuesConstructorArgSealed for &'a Vec<&'a str> {}

impl<'a> MultiValuesConstructorArg<'a> for &'a Vec<&'a str> {
    open spec fn into_multi_values_ensures(self, r: MultiValues) -> bool {
        r@ == MultiValuesView::String(texts_view(self@))
    }

    fn into_multi_values(self) -> (r: MultiValues) {
        MultiValues::String(collect_strings(self.as_slice()))
    }
}

impl<'a, const N: usize> MultiValuesSetArgSealed for [&'a str; N] {}

impl<'a, const N: usize> MultiValuesSetArg<'a> for [&'a str; N] {
    type Item = String;

    open spec fn apply_ensures(self, before: MultiValues, after: MultiValues, r: ValueResult<()>) -> bool {
        r == Ok::<(), ValueError>(()) && after@ == MultiValuesView::String(texts_view(self@))
    }

    fn apply(self, target: &mut MultiValues) -> (r: ValueResult<()>) {
        broadcast use vstd::array::group_array_axioms;
        target.set_strings(collect_strings(array_as_slice(&self)))
    }
}

impl<'a, const N: usize> MultiValuesAddArgSealed for [&'a str; N] {}

impl<'a, const N: usize> MultiValuesAddArg<'a> for [&'a str; N] {
    type Item = String;

    open spec fn apply_add_ensures(self, before: MultiValues, after: MultiValues, r: ValueResult<()>) -> bool {
        (r, after@) == before@.append_strings(texts_view(self@))
    }

    fn apply_add(self, target: &mut MultiValues) -> (r: ValueResult<()>) {
        broadcast use vstd::array::group_array_axioms;
        target.add_strings(collect_strings(array_as_slice(&self)))
    }
}

impl<'a, const N: usize> MultiValuesConstructorArgSealed for [&'a str; N] {}

impl<'a, const N: usize> MultiValuesConstructorArg<'a> for [&'a str; N] {
    open spec fn into_multi_values_ensures(self, r: MultiValues) -> bool {
        r@ == MultiValuesView::String(texts_view(self@))
    }

    fn into_multi_values(self) -> (r: MultiValues) {
        broadcast use vstd::array::group_array_axioms;
        MultiValues::String(collect_strings(array_as_slice(&self)))
    }
}

impl<'a, const N: usize> MultiValuesSetArgSealed for &'a [&'a str; N] {}

impl<'a, const N: usize> MultiValuesSetArg<'a> for &'a [&'a str; N] {
    type Item = String;

    open spec fn apply_ensures(self, before: MultiValues, after: MultiValues, r: ValueResult<()>) -> bool {
        r == Ok::<(), ValueError>(()) && after@ == MultiValuesView::String(texts_view(self@))
    }

    fn apply(self, target: &mut MultiValues) -> (r: ValueResult<()>) {
        broadcast use vstd::array::group_array_axioms;
        target.set_strings(collect_strings(array_as_slice(self)))
    }
}

impl<'a, const N: usize> MultiValuesAddArgSealed for &'a [&'a str; N] {}

impl<'a, const N: usize> MultiValuesAddArg<'a> for &'a [&'a str; N] {
    type Item = String;

    open spec fn apply_add_ensures(self, before: MultiValues, after: MultiValues, r: ValueResult<()>) -> bool {
        (r, after@) == before@.append_strings(texts_view(self@))
    }

    fn apply_add(self, target: &mut MultiValues) -> (r: ValueResult<()>) {
        broadcast use vstd::array::group_array_axioms;
        target.add_strings(collect_strings(array_as_slice(self)))
    }
}

impl<'a, const N: usize> MultiValuesConstructorArgSealed for &'a [&'a str; N] {}

impl<'a, const N: usize> MultiValuesConstructorArg<'a> for &'a [&'a str; N] {
    open spec fn into_multi_values_ensures(self, r: MultiValues) -> bool {
        r@ == MultiValuesView::String(texts_view(self@))
    }

    fn into_multi_values(self) -> (r: MultiValues) {
        broadcast use vstd::array::group_array_axioms;
        MultiValues::String(collect_strings(array_as_slice(self)))
    }
}

impl<'a> MultiValuesAddArgSealed for &'a str {}

impl<'a> MultiValuesAddArg<'a> for &'a str {
    type Item = String;

    open spec fn apply_add_ensures(self, before: MultiValues, after: MultiValues, r: ValueResult<()>) -> bool {
        (r, after@) == before@.append_strings(seq![self@])
    }

    fn apply_add(self, target: &mut MultiValues) -> (r: ValueResult<()>) {
        target.add_string(String::from_str(self))
    }
}

} // verus!
