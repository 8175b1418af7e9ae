//! Values and lists of values that carry a name.
use vstd::prelude::*;

use crate::multi_values::{MultiValues, MultiValuesView};
use crate::value::{Value, ValueView};

verus! {

/// A single value with a name.
#[derive(Debug, Clone, PartialEq)]
pub struct NamedValue {
    name: String,
    value: Value,
}

/// The mathematical content of a [`NamedValue`].
pub struct NamedValueView {
    /// The characters of the name
    pub name: Seq<char>,
    /// The value
    pub value: ValueView,
}

impl View for NamedValue {
    type V = NamedValueView;

    closed spec fn view(&self) -> NamedValueView {
        NamedValueView { name: self.name@, value: self.value@ }
    }
}

impl NamedValue {
    /// Creates a named value.
    pub fn new(name: &str, value: Value) -> (r: Self)
        ensures
            r@ == (NamedValueView { name: name@, value: value@ }),
    {
        NamedValue { name: String::from_str(name), value }
    }

    /// Returns the name.
    pub fn name(&self) -> (r: &str)
        ensures
            r@ == self@.name,
    {
        self.name.as_str()
    }

    /// Replaces the name, keeping the value.
    pub fn set_name(&mut self, name: &str)
        ensures
            final(self)@ == (NamedValueView { name: name@, value: old(self)@.value }),
    {
        self.name = String::from_str(name);
    }

    /// Returns the value.
    pub fn value(&self) -> (r: &Value)
        ensures
            r@ == self@.value,
    {
        &self.value
    }

    /// Returns the value for changing it in place.
    pub fn value_mut(&mut self) -> (r: &mut Value)
        ensures
            r@ == old(self)@.value,
            final(self)@ == (NamedValueView { name: old(self)@.name, value: final(r)@ }),
    {
        &mut self.value
    }

    /// Splits into the name and the value.
    pub fn into_parts(self) -> (r: (String, Value))
        ensures
            r.0@ == self@.name,
            r.1@ == self@.value,
    {
        (self.name, self.value)
    }
}

impl core::ops::Deref for NamedValue {
    type Target = Value;

    /// The value.
    fn deref(&self) -> (r: &Value)
        ensures
            r@ == self@.value,
    {
        &self.value
    }
}

/// A list of values with a name.
#[derive(Debug, Clone, PartialEq)]
pub struct NamedMultiValues {
    name: String,
    value: MultiValues,
}

/// The mathematical content of a [`NamedMultiValues`].
pub struct NamedMultiValuesView {
    /// The characters of the name
    pub name: Seq<char>,
    /// The list
    pub value: MultiValuesView,
}

impl View for NamedMultiValues {
    type V = NamedMultiValuesView;

    closed spec fn view(&self) -> NamedMultiValuesView {
        NamedMultiValuesView { name: self.name@, value: self.value@ }
    }
}

impl NamedMultiValues {
    /// Creates a named list.
    pub fn new(name: &str, value: MultiValues) -> (r: Self)
        ensures
            r@ == (NamedMultiValuesView { name: name@, value: value@ }),
    {
        NamedMultiValues { name: String::from_str(name), value }
    }

    /// Returns the name.
    pub fn name(&self) -> (r: &str)
        ensures
            r@ == self@.name,
    {
        self.name.as_str()
    }

    /// Replaces the name, keeping the list.
    pub fn set_name(&mut self, name: &str)
        ensures
            final(self)@ == (NamedMultiValuesView { name: name@, value: old(self)@.value }),
    {
        self.name = String::from_str(name);
    }

    /// Returns the list.
    pub fn value(&self) -> (r: &MultiValues)
        ensures
            r@ == self@.value,
    {
        &self.value
    }

    /// Returns the list for changing it in place.
    pub fn value_mut(&mut self) -> (r: &mut MultiValues)
        ensures
            r@ == old(self)@.value,
            final(self)@ == (NamedMultiValuesView { name: old(self)@.name, value: final(r)@ }),
    {
        &mut self.value
    }

    /// Converts to a named single value: the same name and the first value
    /// of the list (an empty value of the list's type when there is none).
    pub fn to_named_value(&self) -> (r: NamedValue)
        ensures
            r@ == (NamedValueView { name: self@.name, value: self@.value.first_value() }),
    {
        NamedValue::new(self.name.as_str(), self.value.to_value())
    }

    /// Makes a named list from a named value, with the same name.
    pub fn from_named_value(named: NamedValue) -> (r: NamedMultiValues)
        ensures
            r@ == (NamedMultiValuesView {
                name: named@.name,
                value: MultiValuesView::of_value(named@.value),
            }),
    {
        let (name, value) = named.into_parts();
        NamedMultiValues { name, value: MultiValues::from_value(value) }
    }
}

impl core::ops::Deref for NamedMultiValues {
    type Target = MultiValues;

    /// The list.
    fn deref(&self) -> (r: &MultiValues)
        ensures
            r@ == self@.value,
    {
        &self.value
    }
}

impl From<NamedValue> for NamedMultiValues {
    /// The named list with the same name that holds the single value.
    fn from(named: NamedValue) -> (r: Self)
        ensures
            r@ == (NamedMultiValuesView {
                name: named@.name,
                value: MultiValuesView::of_value(named@.value),
            }),
    {
        NamedMultiValues::from_named_value(named)
    }
}

impl vstd::std_specs::convert::FromSpecImpl<NamedValue> for NamedMultiValues {
    /// Named lists are compared by their views, which `from` states; no
    /// single list is singled out here.
    open spec fn obeys_from_spec() -> bool {
        false
    }

    open spec fn from_spec(v: NamedValue) -> NamedMultiValues {
        choose|m: NamedMultiValues| m@ == (NamedMultiValuesView {
            name: v@.name,
            value: MultiValuesView::of_value(v@.value),
        })
    }
}

} // verus!
