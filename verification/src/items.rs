//! Copying sequences of items whose clones equal what they copy, and the
//! conversion of borrowed text to owned strings.
use vstd::prelude::*;

use bigdecimal::BigDecimal;
use chrono::{NaiveDate, NaiveDateTime, NaiveTime};
use num_bigint::BigInt;
use serde_json::Value as JsonValue;
use std::collections::HashMap;
use std::time::Duration;
use url::Url;

use crate::instant::UtcInstant;

verus! {

/// A type whose clone is the same value as the one cloned.
pub trait ExactClone: Sized {
    /// Returns a copy equal to `self`.
    fn exact_clone(&self) -> (r: Self)
        ensures
            r == *self,
    ;
}

impl ExactClone for bool {
    fn exact_clone(&self) -> (r: Self) {
        *self
    }
}

impl ExactClone for char {
    fn exact_clone(&self) -> (r: Self) {
        *self
    }
}

impl ExactClone for i8 {
    fn exact_clone(&self) -> (r: Self) {
        *self
    }
}

impl ExactClone for i16 {
    fn exact_clone(&self) -> (r: Self) {
        *self
    }
}

impl ExactClone for i32 {
    fn exact_clone(&self) -> (r: Self) {
        *self
    }
}

impl ExactClone for i64 {
    fn exact_clone(&self) -> (r: Self) {
        *self
    }
}

impl ExactClone for i128 {
    fn exact_clone(&self) -> (r: Self) {
        *self
    }
}

impl ExactClone for u8 {
    fn exact_clone(&self) -> (r: Self) {
        *self
    }
}

impl ExactClone for u16 {
    fn exact_clone(&self) -> (r: Self) {
        *self
    }
}

impl ExactClone for u32 {
    fn exact_clone(&self) -> (r: Self) {
        *self
    }
}

impl ExactClone for u64 {
    fn exact_clone(&self) -> (r: Self) {
        *self
    }
}

impl ExactClone for u128 {
    fn exact_clone(&self) -> (r: Self) {
        *self
    }
}

impl ExactClone for isize {
    fn exact_clone(&self) -> (r: Self) {
        *self
    }
}

impl ExactClone for usize {
    fn exact_clone(&self) -> (r: Self) {
        *self
    }
}

impl ExactClone for NaiveDate {
    fn exact_clone(&self) -> (r: Self) {
        *self
    }
}

impl ExactClone for NaiveTime {
    fn exact_clone(&self) -> (r: Self) {
        *self
    }
}

impl ExactClone for NaiveDateTime {
    fn exact_clone(&self) -> (r: Self) {
        *self
    }
}

impl ExactClone for UtcInstant {
    fn exact_clone(&self) -> (r: Self) {
        *self
    }
}

impl ExactClone for Duration {
    fn exact_clone(&self) -> (r: Self) {
        *self
    }
}

impl ExactClone for String {
    fn exact_clone(&self) -> (r: Self) {
        self.clone()
    }
}

impl ExactClone for BigInt {
    fn exact_clone(&self) -> (r: Self) {
        self.clone()
    }
}

impl ExactClone for BigDecimal {
    fn exact_clone(&self) -> (r: Self) {
        self.clone()
    }
}

impl ExactClone for Url {
    fn exact_clone(&self) -> (r: Self) {
        self.clone()
    }
}

impl ExactClone for JsonValue {
    fn exact_clone(&self) -> (r: Self) {
        self.clone()
    }
}

/// Copies a slice into a new vector.
pub fn clone_items<T: ExactClone>(items: &[T]) -> (r: Vec<T>)
    ensures
        r@ == items@,
{
    let mut r: Vec<T> = Vec::new();
    let mut i: usize = 0;
    while i < items.len()
        invariant
            i <= items@.len(),
            r@ == items@.subrange(0, i as int),
        decreases items@.len() - i,
    {
        r.push(items[i].exact_clone());
        i = i + 1;
    }
    assert(r@ =~= items@);
    r
}

/// Appends copies of the items of a slice to a vector.
pub fn append_items<T: ExactClone>(target: &mut Vec<T>, items: &[T])
    ensures
        final(target)@ == old(target)@ + items@,
{
    let mut i: usize = 0;
    while i < items.len()
        invariant
            i <= items@.len(),
            target@ == old(target)@ + items@.subrange(0, i as int),
        decreases items@.len() - i,
    {
        target.push(items[i].exact_clone());
        i = i + 1;
        assert(target@ =~= old(target)@ + items@.subrange(0, i as int));
    }
    assert(items@.subrange(0, i as int) =~= items@);
}

/// The key-value maps of a sequence of string maps.
pub open spec fn maps_view(s: Seq<HashMap<String, String>>) -> Seq<Map<String, String>> {
    s.map_values(|m: HashMap<String, String>| m@)
}

/// The characters of a sequence of strings.
pub open spec fn strings_view(s: Seq<String>) -> Seq<Seq<char>> {
    s.map_values(|x: String| x@)
}

/// Copies a slice of string maps into a new vector.
pub fn clone_maps(items: &[HashMap<String, String>]) -> (r: Vec<HashMap<String, String>>)
    ensures
        maps_view(r@) == maps_view(items@),
{
    let mut r: Vec<HashMap<String, String>> = Vec::new();
    let mut i: usize = 0;
    while i < items.len()
        invariant
            i <= items@.len(),
            r@.len() == i,
            forall|j: int| 0 <= j < i ==> (#[trigger] r@[j])@ == items@[j]@,
        decreases items@.len() - i,
    {
        r.push(items[i].clone());
        i = i + 1;
    }
    assert(maps_view(r@) =~= maps_view(items@));
    r
}

/// Appends copies of a slice of string maps to a vector.
pub fn append_maps(target: &mut Vec<HashMap<String, String>>, items: &[HashMap<String, String>])
    ensures
        maps_view(final(target)@) == maps_view(old(target)@) + maps_view(items@),
{
    let mut i: usize = 0;
    while i < items.len()
        invariant
            i <= items@.len(),
            target@.len() == old(target)@.len() + i,
            forall|j: int| 0 <= j < old(target)@.len() ==> #[trigger] target@[j] == old(target)@[j],
            forall|j: int| 0 <= j < i ==> (#[trigger] target@[old(target)@.len() + j])@ == items@[j]@,
        decreases items@.len() - i,
    {
        target.push(items[i].clone());
        i = i + 1;
    }
    assert forall|j: int| 0 <= j < maps_view(target@).len() implies #[trigger] maps_view(target@)[j]
        == (maps_view(old(target)@) + maps_view(items@))[j] by {
        if j >= old(target)@.len() {
            let k = j - old(target)@.len();
            assert(target@[old(target)@.len() + k]@ == items@[k]@);
        }
    }
    assert(maps_view(target@) =~= maps_view(old(target)@) + maps_view(items@));
}

/// Converts borrowed text to owned strings, in order.
pub fn collect_strings(values: &[&str]) -> (r: Vec<String>)
    ensures
        strings_view(r@) == values@.map_values(|s: &str| s@),
{
    let mut r: Vec<String> = Vec::new();
    let mut i: usize = 0;
    while i < values.len()
        invariant
            i <= values@.len(),
            r@.len() == i,
            forall|j: int| 0 <= j < i ==> (#[trigger] r@[j])@ == values@[j]@,
        decreases values@.len() - i,
    {
        r.push(String::from_str(values[i]));
        i = i + 1;
    }
    assert(strings_view(r@) =~= values@.map_values(|s: &str| s@));
    r
}

/// The characters of strings, item by item, across a push.
pub proof fn lemma_strings_view_push(s: Seq<String>, x: String)
    ensures
        strings_view(s.push(x)) == strings_view(s).push(x@),
{
    assert(strings_view(s.push(x)) =~= strings_view(s).push(x@));
}

/// The characters of strings, item by item, across a concatenation.
pub proof fn lemma_strings_view_add(a: Seq<String>, b: Seq<String>)
    ensures
        strings_view(a + b) == strings_view(a) + strings_view(b),
{
    assert(strings_view(a + b) =~= strings_view(a) + strings_view(b));
}

/// The key-value maps of string maps, item by item, across a push.
pub proof fn lemma_maps_view_push(s: Seq<HashMap<String, String>>, x: HashMap<String, String>)
    ensures
        maps_view(s.push(x)) == maps_view(s).push(x@),
{
    assert(maps_view(s.push(x)) =~= maps_view(s).push(x@));
}

/// The key-value maps of string maps, item by item, across a concatenation.
pub proof fn lemma_maps_view_add(a: Seq<HashMap<String, String>>, b: Seq<HashMap<String, String>>)
    ensures
        maps_view(a + b) == maps_view(a) + maps_view(b),
{
    assert(maps_view(a + b) =~= maps_view(a) + maps_view(b));
}

} // verus!
