//! Strictly typed list and first-item getters, setters and adders of
//! [`MultiValues`].
use vstd::prelude::*;

use bigdecimal::BigDecimal;
use chrono::{NaiveDate, NaiveDateTime, NaiveTime};
use num_bigint::BigInt;
use serde_json::Value as JsonValue;
use std::collections::HashMap;
use std::time::Duration;
use url::Url;

use crate::data_type::DataType;
use crate::error::{ValueError, ValueResult};
use crate::instant::UtcInstant;
use crate::items::{
    append_items, append_maps, clone_items, clone_maps, lemma_maps_view_add, lemma_maps_view_push,
    lemma_strings_view_add, lemma_strings_view_push, maps_view, strings_view, ExactClone,
};
use crate::multi_values::{MultiValues, MultiValuesView};
use crate::value::ok_view;

verus! {

impl MultiValues {
    /// Gets the `Bool` items; none for an empty `Bool` list, a type mismatch
    /// otherwise.
    pub fn get_bools(&self) -> (r: ValueResult<&[bool]>)
        ensures
            ok_view(r) == self@.typed_items(DataType::Bool, self@.as_bools()),
    {
        match self {
            MultiValues::Bool(v) => Ok(v.as_slice()),
            MultiValues::Empty(DataType::Bool) => {
                let empty: &[bool] = &[];
                assert(empty@ =~= Seq::empty());
                Ok(empty)
            },
            _ => Err(ValueError::TypeMismatch { expected: DataType::Bool, actual: self.data_type() }),
        }
    }

    /// Gets the first `Bool` item; `NoValue` for a `Bool` list without items,
    /// a type mismatch otherwise.
    pub fn get_first_bool(&self) -> (r: ValueResult<bool>)
        ensures
            r == self@.typed_first(DataType::Bool, self@.as_bools()),
    {
        match self {
            MultiValues::Bool(v) => if v.len() > 0 {
                Ok(v[0])
            } else {
                Err(ValueError::NoValue)
            },
            MultiValues::Empty(DataType::Bool) => Err(ValueError::NoValue),
            _ => Err(ValueError::TypeMismatch { expected: DataType::Bool, actual: self.data_type() }),
        }
    }

    /// Replaces the list with the `Bool` items `values`.
    pub fn set_bools(&mut self, values: Vec<bool>) -> (r: ValueResult<()>)
        ensures
            r == Ok::<(), ValueError>(()),
            final(self)@ == MultiValuesView::Bool(values@),
    {
        *self = MultiValues::Bool(values);
        Ok(())
    }

    /// Replaces the list with copies of the `Bool` items `values`.
    pub fn set_bools_slice(&mut self, values: &[bool]) -> (r: ValueResult<()>)
        ensures
            r == Ok::<(), ValueError>(()),
            final(self)@ == MultiValuesView::Bool(values@),
    {
        *self = MultiValues::Bool(clone_items(values));
        Ok(())
    }

    /// Replaces the list with the single `Bool` item `value`.
    pub fn set_bool(&mut self, value: bool) -> (r: ValueResult<()>)
        ensures
            r == Ok::<(), ValueError>(()),
            final(self)@ == MultiValuesView::Bool(seq![value]),
    {
        let v = vec![value];
        proof {
            assert(v@ =~= seq![value]);
        }
        *self = MultiValues::Bool(v);
        Ok(())
    }

    /// Appends the `Bool` item `value`; an empty `Bool` list takes it as its
    /// first item, and a list of another type is left unchanged with a type
    /// mismatch.
    pub fn add_bool(&mut self, value: bool) -> (r: ValueResult<()>)
        ensures
            (r, final(self)@) == old(self)@.append_bools(seq![value]),
    {
        match self {
            MultiValues::Bool(v) => {
                let ghost before = v@;
                v.push(value);
                proof {
                    
                    assert(v@ =~= before + seq![value]);
                }
                Ok(())
            },
            MultiValues::Empty(DataType::Bool) => {
                let v = vec![value];
                proof {
                    assert(v@ =~= seq![value]);
                }
                *self = MultiValues::Bool(v);
                Ok(())
            },
            _ => Err(ValueError::TypeMismatch { expected: DataType::Bool, actual: self.data_type() }),
        }
    }

    /// Appends the `Bool` items `values`, as `add_bool` does one item.
    pub fn add_bools(&mut self, values: Vec<bool>) -> (r: ValueResult<()>)
        ensures
            (r, final(self)@) == old(self)@.append_bools(values@),
    {
        match self {
            MultiValues::Bool(v) => {
                let ghost before = v@;
                append_items(v, values.as_slice());
                proof {
                    
                }
                Ok(())
            },
            MultiValues::Empty(DataType::Bool) => {
                *self = MultiValues::Bool(values);
                Ok(())
            },
            _ => Err(ValueError::TypeMismatch { expected: DataType::Bool, actual: self.data_type() }),
        }
    }

    /// Appends copies of the `Bool` items `values`, as `add_bool` does one
    /// item.
    pub fn add_bools_slice(&mut self, values: &[bool]) -> (r: ValueResult<()>)
        ensures
            (r, final(self)@) == old(self)@.append_bools(values@),
    {
        match self {
            MultiValues::Bool(v) => {
                let ghost before = v@;
                append_items(v, values);
                proof {
                    
                }
                Ok(())
            },
            MultiValues::Empty(DataType::Bool) => {
                *self = MultiValues::Bool(clone_items(values));
                Ok(())
            },
            _ => Err(ValueError::TypeMismatch { expected: DataType::Bool, actual: self.data_type() }),
        }
    }

    /// Gets the `Char` items; none for an empty `Char` list, a type mismatch
    /// otherwise.
    pub fn get_chars(&self) -> (r: ValueResult<&[char]>)
        ensures
            ok_view(r) == self@.typed_items(DataType::Char, self@.as_chars()),
    {
        match self {
            MultiValues::Char(v) => Ok(v.as_slice()),
            MultiValues::Empty(DataType::Char) => {
                let empty: &[char] = &[];
                assert(empty@ =~= Seq::empty());
                Ok(empty)
            },
            _ => Err(ValueError::TypeMismatch { expected: DataType::Char, actual: self.data_type() }),
        }
    }

    /// Gets the first `Char` item; `NoValue` for a `Char` list without items,
    /// a type mismatch otherwise.
    pub fn get_first_char(&self) -> (r: ValueResult<char>)
        ensures
            r == self@.typed_first(DataType::Char, self@.as_chars()),
    {
        match self {
            MultiValues::Char(v) => if v.len() > 0 {
                Ok(v[0])
            } else {
                Err(ValueError::NoValue)
            },
            MultiValues::Empty(DataType::Char) => Err(ValueError::NoValue),
            _ => Err(ValueError::TypeMismatch { expected: DataType::Char, actual: self.data_type() }),
        }
    }

    /// Replaces the list with the `Char` items `values`.
    pub fn set_chars(&mut self, values: Vec<char>) -> (r: ValueResult<()>)
        ensures
            r == Ok::<(), ValueError>(()),
            final(self)@ == MultiValuesView::Char(values@),
    {
        *self = MultiValues::Char(values);
        Ok(())
    }

    /// Replaces the list with copies of the `Char` items `values`.
    pub fn set_chars_slice(&mut self, values: &[char]) -> (r: ValueResult<()>)
        ensures
            r == Ok::<(), ValueError>(()),
            final(self)@ == MultiValuesView::Char(values@),
    {
        *self = MultiValues::Char(clone_items(values));
        Ok(())
    }

    /// Replaces the list with the single `Char` item `value`.
    pub fn set_char(&mut self, value: char) -> (r: ValueResult<()>)
        ensures
            r == Ok::<(), ValueError>(()),
            final(self)@ == MultiValuesView::Char(seq![value]),
    {
        let v = vec![value];
        proof {
            assert(v@ =~= seq![value]);
        }
        *self = MultiValues::Char(v);
        Ok(())
    }

    /// Appends the `Char` item `value`; an empty `Char` list takes it as its
    /// first item, and a list of another type is left unchanged with a type
    /// mismatch.
    pub fn add_char(&mut self, value: char) -> (r: ValueResult<()>)
        ensures
            (r, final(self)@) == old(self)@.append_chars(seq![value]),
    {
        match self {
            MultiValues::Char(v) => {
                let ghost before = v@;
                v.push(value);
                proof {
                    
                    assert(v@ =~= before + seq![value]);
                }
                Ok(())
            },
            MultiValues::Empty(DataType::Char) => {
                let v = vec![value];
                proof {
                    assert(v@ =~= seq![value]);
                }
                *self = MultiValues::Char(v);
                Ok(())
            },
            _ => Err(ValueError::TypeMismatch { expected: DataType::Char, actual: self.data_type() }),
        }
    }

    /// Appends the `Char` items `values`, as `add_char` does one item.
    pub fn add_chars(&mut self, values: Vec<char>) -> (r: ValueResult<()>)
        ensures
            (r, final(self)@) == old(self)@.append_chars(values@),
    {
        match self {
            MultiValues::Char(v) => {
                let ghost before = v@;
                append_items(v, values.as_slice());
                proof {
                    
                }
                Ok(())
            },
            MultiValues::Empty(DataType::Char) => {
                *self = MultiValues::Char(values);
                Ok(())
            },
            _ => Err(ValueError::TypeMismatch { expected: DataType::Char, actual: self.data_type() }),
        }
    }

    /// Appends copies of the `Char` items `values`, as `add_char` does one
    /// item.
    pub fn add_chars_slice(&mut self, values: &[char]) -> (r: ValueResult<()>)
        ensures
            (r, final(self)@) == old(self)@.append_chars(values@),
    {
        match self {
            MultiValues::Char(v) => {
                let ghost before = v@;
                append_items(v, values);
                proof {
                    
                }
                Ok(())
            },
            MultiValues::Empty(DataType::Char) => {
                *self = MultiValues::Char(clone_items(values));
                Ok(())
            },
            _ => Err(ValueError::TypeMismatch { expected: DataType::Char, actual: self.data_type() }),
        }
    }

    /// Gets the `Int8` items; none for an empty `Int8` list, a type mismatch
    /// otherwise.
    pub fn get_int8s(&self) -> (r: ValueResult<&[i8]>)
        ensures
            ok_view(r) == self@.typed_items(DataType::Int8, self@.as_int8s()),
    {
        match self {
            MultiValues::Int8(v) => Ok(v.as_slice()),
            MultiValues::Empty(DataType::Int8) => {
                let empty: &[i8] = &[];
                assert(empty@ =~= Seq::empty());
                Ok(empty)
            },
            _ => Err(ValueError::TypeMismatch { expected: DataType::Int8, actual: self.data_type() }),
        }
    }

    /// Gets the first `Int8` item; `NoValue` for a `Int8` list without items,
    /// a type mismatch otherwise.
    pub fn get_first_int8(&self) -> (r: ValueResult<i8>)
        ensures
            r == self@.typed_first(DataType::Int8, self@.as_int8s()),
    {
        match self {
            MultiValues::Int8(v) => if v.len() > 0 {
                Ok(v[0])
            } else {
                Err(ValueError::NoValue)
            },
            MultiValues::Empty(DataType::Int8) => Err(ValueError::NoValue),
            _ => Err(ValueError::TypeMismatch { expected: DataType::Int8, actual: self.data_type() }),
        }
    }

    /// Replaces the list with the `Int8` items `values`.
    pub fn set_int8s(&mut self, values: Vec<i8>) -> (r: ValueResult<()>)
        ensures
            r == Ok::<(), ValueError>(()),
            final(self)@ == MultiValuesView::Int8(values@),
    {
        *self = MultiValues::Int8(values);
        Ok(())
    }

    /// Replaces the list with copies of the `Int8` items `values`.
    pub fn set_int8s_slice(&mut self, values: &[i8]) -> (r: ValueResult<()>)
        ensures
            r == Ok::<(), ValueError>(()),
            final(self)@ == MultiValuesView::Int8(values@),
    {
        *self = MultiValues::Int8(clone_items(values));
        Ok(())
    }

    /// Replaces the list with the single `Int8` item `value`.
    pub fn set_int8(&mut self, value: i8) -> (r: ValueResult<()>)
        ensures
            r == Ok::<(), ValueError>(()),
            final(self)@ == MultiValuesView::Int8(seq![value]),
    {
        let v = vec![value];
        proof {
            assert(v@ =~= seq![value]);
        }
        *self = MultiValues::Int8(v);
        Ok(())
    }

    /// Appends the `Int8` item `value`; an empty `Int8` list takes it as its
    /// first item, and a list of another type is left unchanged with a type
    /// mismatch.
    pub fn add_int8(&mut self, value: i8) -> (r: ValueResult<()>)
        ensures
            (r, final(self)@) == old(self)@.append_int8s(seq![value]),
    {
        match self {
            MultiValues::Int8(v) => {
                let ghost before = v@;
                v.push(value);
                proof {
                    
                    assert(v@ =~= before + seq![value]);
                }
                Ok(())
            },
            MultiValues::Empty(DataType::Int8) => {
                let v = vec![value];
                proof {
                    assert(v@ =~= seq![value]);
                }
                *self = MultiValues::Int8(v);
                Ok(())
            },
            _ => Err(ValueError::TypeMismatch { expected: DataType::Int8, actual: self.data_type() }),
        }
    }

    /// Appends the `Int8` items `values`, as `add_int8` does one item.
    pub fn add_int8s(&mut self, values: Vec<i8>) -> (r: ValueResult<()>)
        ensures
            (r, final(self)@) == old(self)@.append_int8s(values@),
    {
        match self {
            MultiValues::Int8(v) => {
                let ghost before = v@;
                append_items(v, values.as_slice());
                proof {
                    
                }
                Ok(())
            },
            MultiValues::Empty(DataType::Int8) => {
                *self = MultiValues::Int8(values);
                Ok(())
            },
            _ => Err(ValueError::TypeMismatch { expected: DataType::Int8, actual: self.data_type() }),
        }
    }

    /// Appends copies of the `Int8` items `values`, as `add_int8` does one
    /// item.
    pub fn add_int8s_slice(&mut self, values: &[i8]) -> (r: ValueResult<()>)
        ensures
            (r, final(self)@) == old(self)@.append_int8s(values@),
    {
        match self {
            MultiValues::Int8(v) => {
                let ghost before = v@;
                append_items(v, values);
                proof {
                    
                }
                Ok(())
            },
            MultiValues::Empty(DataType::Int8) => {
                *self = MultiValues::Int8(clone_items(values));
                Ok(())
            },
            _ => Err(ValueError::TypeMismatch { expected: DataType::Int8, actual: self.data_type() }),
        }
    }

    /// Gets the `Int16` items; none for an empty `Int16` list, a type mismatch
    /// otherwise.
    pub fn get_int16s(&self) -> (r: ValueResult<&[i16]>)
        ensures
            ok_view(r) == self@.typed_items(DataType::Int16, self@.as_int16s()),
    {
        match self {
            MultiValues::Int16(v) => Ok(v.as_slice()),
            MultiValues::Empty(DataType::Int16) => {
                let empty: &[i16] = &[];
                assert(empty@ =~= Seq::empty());
                Ok(empty)
            },
            _ => Err(ValueError::TypeMismatch { expected: DataType::Int16, actual: self.data_type() }),
        }
    }

    /// Gets the first `Int16` item; `NoValue` for a `Int16` list without items,
    /// a type mismatch otherwise.
    pub fn get_first_int16(&self) -> (r: ValueResult<i16>)
        ensures
            r == self@.typed_first(DataType::Int16, self@.as_int16s()),
    {
        match self {
            MultiValues::Int16(v) => if v.len() > 0 {
                Ok(v[0])
            } else {
                Err(ValueError::NoValue)
            },
            MultiValues::Empty(DataType::Int16) => Err(ValueError::NoValue),
            _ => Err(ValueError::TypeMismatch { expected: DataType::Int16, actual: self.data_type() }),
        }
    }

    /// Replaces the list with the `Int16` items `values`.
    pub fn set_int16s(&mut self, values: Vec<i16>) -> (r: ValueResult<()>)
        ensures
            r == Ok::<(), ValueError>(()),
            final(self)@ == MultiValuesView::Int16(values@),
    {
        *self = MultiValues::Int16(values);
        Ok(())
    }

    /// Replaces the list with copies of the `Int16` items `values`.
    pub fn set_int16s_slice(&mut self, values: &[i16]) -> (r: ValueResult<()>)
        ensures
            r == Ok::<(), ValueError>(()),
            final(self)@ == MultiValuesView::Int16(values@),
    {
        *self = MultiValues::Int16(clone_items(values));
        Ok(())
    }

    /// Replaces the list with the single `Int16` item `value`.
    pub fn set_int16(&mut self, value: i16) -> (r: ValueResult<()>)
        ensures
            r == Ok::<(), ValueError>(()),
            final(self)@ == MultiValuesView::Int16(seq![value]),
    {
        let v = vec![value];
        proof {
            assert(v@ =~= seq![value]);
        }
        *self = MultiValues::Int16(v);
        Ok(())
    }

    /// Appends the `Int16` item `value`; an empty `Int16` list takes it as its
    /// first item, and a list of another type is left unchanged with a type
    /// mismatch.
    pub fn add_int16(&mut self, value: i16) -> (r: ValueResult<()>)
        ensures
            (r, final(self)@) == old(self)@.append_int16s(seq![value]),
    {
        match self {
            MultiValues::Int16(v) => {
                let ghost before = v@;
                v.push(value);
                proof {
                    
                    assert(v@ =~= before + seq![value]);
                }
                Ok(())
            },
            MultiValues::Empty(DataType::Int16) => {
                let v = vec![value];
                proof {
                    assert(v@ =~= seq![value]);
                }
                *self = MultiValues::Int16(v);
                Ok(())
            },
            _ => Err(ValueError::TypeMismatch { expected: DataType::Int16, actual: self.data_type() }),
        }
    }

    /// Appends the `Int16` items `values`, as `add_int16` does one item.
    pub fn add_int16s(&mut self, values: Vec<i16>) -> (r: ValueResult<()>)
        ensures
            (r, final(self)@) == old(self)@.append_int16s(values@),
    {
        match self {
            MultiValues::Int16(v) => {
                let ghost before = v@;
                append_items(v, values.as_slice());
                proof {
                    
                }
                Ok(())
            },
            MultiValues::Empty(DataType::Int16) => {
                *self = MultiValues::Int16(values);
                Ok(())
            },
            _ => Err(ValueError::TypeMismatch { expected: DataType::Int16, actual: self.data_type() }),
        }
    }

    /// Appends copies of the `Int16` items `values`, as `add_int16` does one
    /// item.
    pub fn add_int16s_slice(&mut self, values: &[i16]) -> (r: ValueResult<()>)
        ensures
            (r, final(self)@) == old(self)@.append_int16s(values@),
    {
        match self {
            MultiValues::Int16(v) => {
                let ghost before = v@;
                append_items(v, values);
                proof {
                    
                }
                Ok(())
            },
            MultiValues::Empty(DataType::Int16) => {
                *self = MultiValues::Int16(clone_items(values));
                Ok(())
            },
            _ => Err(ValueError::TypeMismatch { expected: DataType::Int16, actual: self.data_type() }),
        }
    }

    /// Gets the `Int32` items; none for an empty `Int32` list, a type mismatch
    /// otherwise.
    pub fn get_int32s(&self) -> (r: ValueResult<&[i32]>)
        ensures
            ok_view(r) == self@.typed_items(DataType::Int32, self@.as_int32s()),
    {
        match self {
            MultiValues::Int32(v) => Ok(v.as_slice()),
            MultiValues::Empty(DataType::Int32) => {
                let empty: &[i32] = &[];
                assert(empty@ =~= Seq::empty());
                Ok(empty)
            },
            _ => Err(ValueError::TypeMismatch { expected: DataType::Int32, actual: self.data_type() }),
        }
    }

    /// Gets the first `Int32` item; `NoValue` for a `Int32` list without items,
    /// a type mismatch otherwise.
    pub fn get_first_int32(&self) -> (r: ValueResult<i32>)
        ensures
            r == self@.typed_first(DataType::Int32, self@.as_int32s()),
    {
        match self {
            MultiValues::Int32(v) => if v.len() > 0 {
                Ok(v[0])
            } else {
                Err(ValueError::NoValue)
            },
            MultiValues::Empty(DataType::Int32) => Err(ValueError::NoValue),
            _ => Err(ValueError::TypeMismatch { expected: DataType::Int32, actual: self.data_type() }),
        }
    }

    /// Replaces the list with the `Int32` items `values`.
    pub fn set_int32s(&mut self, values: Vec<i32>) -> (r: ValueResult<()>)
        ensures
            r == Ok::<(), ValueError>(()),
            final(self)@ == MultiValuesView::Int32(values@),
    {
        *self = MultiValues::Int32(values);
        Ok(())
    }

    /// Replaces the list with copies of the `Int32` items `values`.
    pub fn set_int32s_slice(&mut self, values: &[i32]) -> (r: ValueResult<()>)
        ensures
            r == Ok::<(), ValueError>(()),
            final(self)@ == MultiValuesView::Int32(values@),
    {
        *self = MultiValues::Int32(clone_items(values));
        Ok(())
    }

    /// Replaces the list with the single `Int32` item `value`.
    pub fn set_int32(&mut self, value: i32) -> (r: ValueResult<()>)
        ensures
            r == Ok::<(), ValueError>(()),
            final(self)@ == MultiValuesView::Int32(seq![value]),
    {
        let v = vec![value];
        proof {
            assert(v@ =~= seq![value]);
        }
        *self = MultiValues::Int32(v);
        Ok(())
    }

    /// Appends the `Int32` item `value`; an empty `Int32` list takes it as its
    /// first item, and a list of another type is left unchanged with a type
    /// mismatch.
    pub fn add_int32(&mut self, value: i32) -> (r: ValueResult<()>)
        ensures
            (r, final(self)@) == old(self)@.append_int32s(seq![value]),
    {
        match self {
            MultiValues::Int32(v) => {
                let ghost before = v@;
                v.push(value);
                proof {
                    
                    assert(v@ =~= before + seq![value]);
                }
                Ok(())
            },
            MultiValues::Empty(DataType::Int32) => {
                let v = vec![value];
                proof {
                    assert(v@ =~= seq![value]);
                }
                *self = MultiValues::Int32(v);
                Ok(())
            },
            _ => Err(ValueError::TypeMismatch { expected: DataType::Int32, actual: self.data_type() }),
        }
    }

    /// Appends the `Int32` items `values`, as `add_int32` does one item.
    pub fn add_int32s(&mut self, values: Vec<i32>) -> (r: ValueResult<()>)
        ensures
            (r, final(self)@) == old(self)@.append_int32s(values@),
    {
        match self {
            MultiValues::Int32(v) => {
                let ghost before = v@;
                append_items(v, values.as_slice());
                proof {
                    
                }
                Ok(())
            },
            MultiValues::Empty(DataType::Int32) => {
                *self = MultiValues::Int32(values);
                Ok(())
            },
            _ => Err(ValueError::TypeMismatch { expected: DataType::Int32, actual: self.data_type() }),
        }
    }

    /// Appends copies of the `Int32` items `values`, as `add_int32` does one
    /// item.
    pub fn add_int32s_slice(&mut self, values: &[i32]) -> (r: ValueResult<()>)
        ensures
            (r, final(self)@) == old(self)@.append_int32s(values@),
    {
        match self {
            MultiValues::Int32(v) => {
                let ghost before = v@;
                append_items(v, values);
                proof {
                    
                }
                Ok(())
            },
            MultiValues::Empty(DataType::Int32) => {
                *self = MultiValues::Int32(clone_items(values));
                Ok(())
            },
            _ => Err(ValueError::TypeMismatch { expected: DataType::Int32, actual: self.data_type() }),
        }
    }

    /// Gets the `Int64` items; none for an empty `Int64` list, a type mismatch
    /// otherwise.
    pub fn get_int64s(&self) -> (r: ValueResult<&[i64]>)
        ensures
            ok_view(r) == self@.typed_items(DataType::Int64, self@.as_int64s()),
    {
        match self {
            MultiValues::Int64(v) => Ok(v.as_slice()),
            MultiValues::Empty(DataType::Int64) => {
                let empty: &[i64] = &[];
                assert(empty@ =~= Seq::empty());
                Ok(empty)
            },
            _ => Err(ValueError::TypeMismatch { expected: DataType::Int64, actual: self.data_type() }),
        }
    }

    /// Gets the first `Int64` item; `NoValue` for a `Int64` list without items,
    /// a type mismatch otherwise.
    pub fn get_first_int64(&self) -> (r: ValueResult<i64>)
        ensures
            r == self@.typed_first(DataType::Int64, self@.as_int64s()),
    {
        match self {
            MultiValues::Int64(v) => if v.len() > 0 {
                Ok(v[0])
            } else {
                Err(ValueError::NoValue)
            },
            MultiValues::Empty(DataType::Int64) => Err(ValueError::NoValue),
            _ => Err(ValueError::TypeMismatch { expected: DataType::Int64, actual: self.data_type() }),
        }
    }

    /// Replaces the list with the `Int64` items `values`.
    pub fn set_int64s(&mut self, values: Vec<i64>) -> (r: ValueResult<()>)
        ensures
            r == Ok::<(), ValueError>(()),
            final(self)@ == MultiValuesView::Int64(values@),
    {
        *self = MultiValues::Int64(values);
        Ok(())
    }

    /// Replaces the list with copies of the `Int64` items `values`.
    pub fn set_int64s_slice(&mut self, values: &[i64]) -> (r: ValueResult<()>)
        ensures
            r == Ok::<(), ValueError>(()),
            final(self)@ == MultiValuesView::Int64(values@),
    {
        *self = MultiValues::Int64(clone_items(values));
        Ok(())
    }

    /// Replaces the list with the single `Int64` item `value`.
    pub fn set_int64(&mut self, value: i64) -> (r: ValueResult<()>)
        ensures
            r == Ok::<(), ValueError>(()),
            final(self)@ == MultiValuesView::Int64(seq![value]),
    {
        let v = vec![value];
        proof {
            assert(v@ =~= seq![value]);
        }
        *self = MultiValues::Int64(v);
        Ok(())
    }

    /// Appends the `Int64` item `value`; an empty `Int64` list takes it as its
    /// first item, and a list of another type is left unchanged with a type
    /// mismatch.
    pub fn add_int64(&mut self, value: i64) -> (r: ValueResult<()>)
        ensures
            (r, final(self)@) == old(self)@.append_int64s(seq![value]),
    {
        match self {
            MultiValues::Int64(v) => {
                let ghost before = v@;
                v.push(value);
                proof {
                    
                    assert(v@ =~= before + seq![value]);
                }
                Ok(())
            },
            MultiValues::Empty(DataType::Int64) => {
                let v = vec![value];
                proof {
                    assert(v@ =~= seq![value]);
                }
                *self = MultiValues::Int64(v);
                Ok(())
            },
            _ => Err(ValueError::TypeMismatch { expected: DataType::Int64, actual: self.data_type() }),
        }
    }

    /// Appends the `Int64` items `values`, as `add_int64` does one item.
    pub fn add_int64s(&mut self, values: Vec<i64>) -> (r: ValueResult<()>)
        ensures
            (r, final(self)@) == old(self)@.append_int64s(values@),
    {
        match self {
            MultiValues::Int64(v) => {
                let ghost before = v@;
                append_items(v, values.as_slice());
                proof {
                    
                }
                Ok(())
            },
            MultiValues::Empty(DataType::Int64) => {
                *self = MultiValues::Int64(values);
                Ok(())
            },
            _ => Err(ValueError::TypeMismatch { expected: DataType::Int64, actual: self.data_type() }),
        }
    }

    /// Appends copies of the `Int64` items `values`, as `add_int64` does one
    /// item.
    pub fn add_int64s_slice(&mut self, values: &[i64]) -> (r: ValueResult<()>)
        ensures
            (r, final(self)@) == old(self)@.append_int64s(values@),
    {
        match self {
            MultiValues::Int64(v) => {
                let ghost before = v@;
                append_items(v, values);
                proof {
                    
                }
                Ok(())
            },
            MultiValues::Empty(DataType::Int64) => {
                *self = MultiValues::Int64(clone_items(values));
                Ok(())
            },
            _ => Err(ValueError::TypeMismatch { expected: DataType::Int64, actual: self.data_type() }),
        }
    }

    /// Gets the `Int128` items; none for an empty `Int128` list, a type mismatch
    /// otherwise.
    pub fn get_int128s(&self) -> (r: ValueResult<&[i128]>)
        ensures
            ok_view(r) == self@.typed_items(DataType::Int128, self@.as_int128s()),
    {
        match self {
            MultiValues::Int128(v) => Ok(v.as_slice()),
            MultiValues::Empty(DataType::Int128) => {
                let empty: &[i128] = &[];
                assert(empty@ =~= Seq::empty());
                Ok(empty)
            },
            _ => Err(ValueError::TypeMismatch { expected: DataType::Int128, actual: self.data_type() }),
        }
    }

    /// Gets the first `Int128` item; `NoValue` for a `Int128` list without items,
    /// a type mismatch otherwise.
    pub fn get_first_int128(&self) -> (r: ValueResult<i128>)
        ensures
            r == self@.typed_first(DataType::Int128, self@.as_int128s()),
    {
        match self {
            MultiValues::Int128(v) => if v.len() > 0 {
                Ok(v[0])
            } else {
                Err(ValueError::NoValue)
            },
            MultiValues::Empty(DataType::Int128) => Err(ValueError::NoValue),
            _ => Err(ValueError::TypeMismatch { expected: DataType::Int128, actual: self.data_type() }),
        }
    }

    /// Replaces the list with the `Int128` items `values`.
    pub fn set_int128s(&mut self, values: Vec<i128>) -> (r: ValueResult<()>)
        ensures
            r == Ok::<(), ValueError>(()),
            final(self)@ == MultiValuesView::Int128(values@),
    {
        *self = MultiValues::Int128(values);
        Ok(())
    }

    /// Replaces the list with copies of the `Int128` items `values`.
    pub fn set_int128s_slice(&mut self, values: &[i128]) -> (r: ValueResult<()>)
        ensures
            r == Ok::<(), ValueError>(()),
            final(self)@ == MultiValuesView::Int128(values@),
    {
        *self = MultiValues::Int128(clone_items(values));
        Ok(())
    }

    /// Replaces the list with the single `Int128` item `value`.
    pub fn set_int128(&mut self, value: i128) -> (r: ValueResult<()>)
        ensures
            r == Ok::<(), ValueError>(()),
            final(self)@ == MultiValuesView::Int128(seq![value]),
    {
        let v = vec![value];
        proof {
            assert(v@ =~= seq![value]);
        }
        *self = MultiValues::Int128(v);
        Ok(())
    }

    /// Appends the `Int128` item `value`; an empty `Int128` list takes it as its
    /// first item, and a list of another type is left unchanged with a type
    /// mismatch.
    pub fn add_int128(&mut self, value: i128) -> (r: ValueResult<()>)
        ensures
            (r, final(self)@) == old(self)@.append_int128s(seq![value]),
    {
        match self {
            MultiValues::Int128(v) => {
                let ghost before = v@;
                v.push(value);
                proof {
                    
                    assert(v@ =~= before + seq![value]);
                }
                Ok(())
            },
            MultiValues::Empty(DataType::Int128) => {
                let v = vec![value];
                proof {
                    assert(v@ =~= seq![value]);
                }
                *self = MultiValues::Int128(v);
                Ok(())
            },
            _ => Err(ValueError::TypeMismatch { expected: DataType::Int128, actual: self.data_type() }),
        }
    }

    /// Appends the `Int128` items `values`, as `add_int128` does one item.
    pub fn add_int128s(&mut self, values: Vec<i128>) -> (r: ValueResult<()>)
        ensures
            (r, final(self)@) == old(self)@.append_int128s(values@),
    {
        match self {
            MultiValues::Int128(v) => {
                let ghost before = v@;
                append_items(v, values.as_slice());
                proof {
                    
                }
                Ok(())
            },
            MultiValues::Empty(DataType::Int128) => {
                *self = MultiValues::Int128(values);
                Ok(())
            },
            _ => Err(ValueError::TypeMismatch { expected: DataType::Int128, actual: self.data_type() }),
        }
    }

    /// Appends copies of the `Int128` items `values`, as `add_int128` does one
    /// item.
    pub fn add_int128s_slice(&mut self, values: &[i128]) -> (r: ValueResult<()>)
        ensures
            (r, final(self)@) == old(self)@.append_int128s(values@),
    {
        match self {
            MultiValues::Int128(v) => {
                let ghost before = v@;
                append_items(v, values);
                proof {
                    
                }
                Ok(())
            },
            MultiValues::Empty(DataType::Int128) => {
                *self = MultiValues::Int128(clone_items(values));
                Ok(())
            },
            _ => Err(ValueError::TypeMismatch { expected: DataType::Int128, actual: self.data_type() }),
        }
    }

    /// Gets the `UInt8` items; none for an empty `UInt8` list, a type mismatch
    /// otherwise.
    pub fn get_uint8s(&self) -> (r: ValueResult<&[u8]>)
        ensures
            ok_view(r) == self@.typed_items(DataType::UInt8, self@.as_uint8s()),
    {
        match self {
            MultiValues::UInt8(v) => Ok(v.as_slice()),
            MultiValues::Empty(DataType::UInt8) => {
                let empty: &[u8] = &[];
                assert(empty@ =~= Seq::empty());
                Ok(empty)
            },
            _ => Err(ValueError::TypeMismatch { expected: DataType::UInt8, actual: self.data_type() }),
        }
    }

    /// Gets the first `UInt8` item; `NoValue` for a `UInt8` list without items,
    /// a type mismatch otherwise.
    pub fn get_first_uint8(&self) -> (r: ValueResult<u8>)
        ensures
            r == self@.typed_first(DataType::UInt8, self@.as_uint8s()),
    {
        match self {
            MultiValues::UInt8(v) => if v.len() > 0 {
                Ok(v[0])
            } else {
                Err(ValueError::NoValue)
            },
            MultiValues::Empty(DataType::UInt8) => Err(ValueError::NoValue),
            _ => Err(ValueError::TypeMismatch { expected: DataType::UInt8, actual: self.data_type() }),
        }
    }

    /// Replaces the list with the `UInt8` items `values`.
    pub fn set_uint8s(&mut self, values: Vec<u8>) -> (r: ValueResult<()>)
        ensures
            r == Ok::<(), ValueError>(()),
            final(self)@ == MultiValuesView::UInt8(values@),
    {
        *self = MultiValues::UInt8(values);
        Ok(())
    }

    /// Replaces the list with copies of the `UInt8` items `values`.
    pub fn set_uint8s_slice(&mut self, values: &[u8]) -> (r: ValueResult<()>)
        ensures
            r == Ok::<(), ValueError>(()),
            final(self)@ == MultiValuesView::UInt8(values@),
    {
        *self = MultiValues::UInt8(clone_items(values));
        Ok(())
    }

    /// Replaces the list with the single `UInt8` item `value`.
    pub fn set_uint8(&mut self, value: u8) -> (r: ValueResult<()>)
        ensures
            r == Ok::<(), ValueError>(()),
            final(self)@ == MultiValuesView::UInt8(seq![value]),
    {
        let v = vec![value];
        proof {
            assert(v@ =~= seq![value]);
        }
        *self = MultiValues::UInt8(v);
        Ok(())
    }

    /// Appends the `UInt8` item `value`; an empty `UInt8` list takes it as its
    /// first item, and a list of another type is left unchanged with a type
    /// mismatch.
    pub fn add_uint8(&mut self, value: u8) -> (r: ValueResult<()>)
        ensures
            (r, final(self)@) == old(self)@.append_uint8s(seq![value]),
    {
        match self {
            MultiValues::UInt8(v) => {
                let ghost before = v@;
                v.push(value);
                proof {
                    
                    assert(v@ =~= before + seq![value]);
                }
                Ok(())
            },
            MultiValues::Empty(DataType::UInt8) => {
                let v = vec![value];
                proof {
                    assert(v@ =~= seq![value]);
                }
                *self = MultiValues::UInt8(v);
                Ok(())
            },
            _ => Err(ValueError::TypeMismatch { expected: DataType::UInt8, actual: self.data_type() }),
        }
    }

    /// Appends the `UInt8` items `values`, as `add_uint8` does one item.
    pub fn add_uint8s(&mut self, values: Vec<u8>) -> (r: ValueResult<()>)
        ensures
            (r, final(self)@) == old(self)@.append_uint8s(values@),
    {
        match self {
            MultiValues::UInt8(v) => {
                let ghost before = v@;
                append_items(v, values.as_slice());
                proof {
                    
                }
                Ok(())
            },
            MultiValues::Empty(DataType::UInt8) => {
                *self = MultiValues::UInt8(values);
                Ok(())
            },
            _ => Err(ValueError::TypeMismatch { expected: DataType::UInt8, actual: self.data_type() }),
        }
    }

    /// Appends copies of the `UInt8` items `values`, as `add_uint8` does one
    /// item.
    pub fn add_uint8s_slice(&mut self, values: &[u8]) -> (r: ValueResult<()>)
        ensures
            (r, final(self)@) == old(self)@.append_uint8s(values@),
    {
        match self {
            MultiValues::UInt8(v) => {
                let ghost before = v@;
                append_items(v, values);
                proof {
                    
                }
                Ok(())
            },
            MultiValues::Empty(DataType::UInt8) => {
                *self = MultiValues::UInt8(clone_items(values));
                Ok(())
            },
            _ => Err(ValueError::TypeMismatch { expected: DataType::UInt8, actual: self.data_type() }),
        }
    }

    /// Gets the `UInt16` items; none for an empty `UInt16` list, a type mismatch
    /// otherwise.
    pub fn get_uint16s(&self) -> (r: ValueResult<&[u16]>)
        ensures
            ok_view(r) == self@.typed_items(DataType::UInt16, self@.as_uint16s()),
    {
        match self {
            MultiValues::UInt16(v) => Ok(v.as_slice()),
            MultiValues::Empty(DataType::UInt16) => {
                let empty: &[u16] = &[];
                assert(empty@ =~= Seq::empty());
                Ok(empty)
            },
            _ => Err(ValueError::TypeMismatch { expected: DataType::UInt16, actual: self.data_type() }),
        }
    }

    /// Gets the first `UInt16` item; `NoValue` for a `UInt16` list without items,
    /// a type mismatch otherwise.
    pub fn get_first_uint16(&self) -> (r: ValueResult<u16>)
        ensures
            r == self@.typed_first(DataType::UInt16, self@.as_uint16s()),
    {
        match self {
            MultiValues::UInt16(v) => if v.len() > 0 {
                Ok(v[0])
            } else {
                Err(ValueError::NoValue)
            },
            MultiValues::Empty(DataType::UInt16) => Err(ValueError::NoValue),
            _ => Err(ValueError::TypeMismatch { expected: DataType::UInt16, actual: self.data_type() }),
        }
    }

    /// Replaces the list with the `UInt16` items `values`.
    pub fn set_uint16s(&mut self, values: Vec<u16>) -> (r: ValueResult<()>)
        ensures
            r == Ok::<(), ValueError>(()),
            final(self)@ == MultiValuesView::UInt16(values@),
    {
        *self = MultiValues::UInt16(values);
        Ok(())
    }

    /// Replaces the list with copies of the `UInt16` items `values`.
    pub fn set_uint16s_slice(&mut self, values: &[u16]) -> (r: ValueResult<()>)
        ensures
            r == Ok::<(), ValueError>(()),
            final(self)@ == MultiValuesView::UInt16(values@),
    {
        *self = MultiValues::UInt16(clone_items(values));
        Ok(())
    }

    /// Replaces the list with the single `UInt16` item `value`.
    pub fn set_uint16(&mut self, value: u16) -> (r: ValueResult<()>)
        ensures
            r == Ok::<(), ValueError>(()),
            final(self)@ == MultiValuesView::UInt16(seq![value]),
    {
        let v = vec![value];
        proof {
            assert(v@ =~= seq![value]);
        }
        *self = MultiValues::UInt16(v);
        Ok(())
    }

    /// Appends the `UInt16` item `value`; an empty `UInt16` list takes it as its
    /// first item, and a list of another type is left unchanged with a type
    /// mismatch.
    pub fn add_uint16(&mut self, value: u16) -> (r: ValueResult<()>)
        ensures
            (r, final(self)@) == old(self)@.append_uint16s(seq![value]),
    {
        match self {
            MultiValues::UInt16(v) => {
                let ghost before = v@;
                v.push(value);
                proof {
                    
                    assert(v@ =~= before + seq![value]);
                }
                Ok(())
            },
            MultiValues::Empty(DataType::UInt16) => {
                let v = vec![value];
                proof {
                    assert(v@ =~= seq![value]);
                }
                *self = MultiValues::UInt16(v);
                Ok(())
            },
            _ => Err(ValueError::TypeMismatch { expected: DataType::UInt16, actual: self.data_type() }),
        }
    }

    /// Appends the `UInt16` items `values`, as `add_uint16` does one item.
    pub fn add_uint16s(&mut self, values: Vec<u16>) -> (r: ValueResult<()>)
        ensures
            (r, final(self)@) == old(self)@.append_uint16s(values@),
    {
        match self {
            MultiValues::UInt16(v) => {
                let ghost before = v@;
                append_items(v, values.as_slice());
                proof {
                    
                }
                Ok(())
            },
            MultiValues::Empty(DataType::UInt16) => {
                *self = MultiValues::UInt16(values);
                Ok(())
            },
            _ => Err(ValueError::TypeMismatch { expected: DataType::UInt16, actual: self.data_type() }),
        }
    }

    /// Appends copies of the `UInt16` items `values`, as `add_uint16` does one
    /// item.
    pub fn add_uint16s_slice(&mut self, values: &[u16]) -> (r: ValueResult<()>)
        ensures
            (r, final(self)@) == old(self)@.append_uint16s(values@),
    {
        match self {
            MultiValues::UInt16(v) => {
                let ghost before = v@;
                append_items(v, values);
                proof {
                    
                }
                Ok(())
            },
            MultiValues::Empty(DataType::UInt16) => {
                *self = MultiValues::UInt16(clone_items(values));
                Ok(())
            },
            _ => Err(ValueError::TypeMismatch { expected: DataType::UInt16, actual: self.data_type() }),
        }
    }

    /// Gets the `UInt32` items; none for an empty `UInt32` list, a type mismatch
    /// otherwise.
    pub fn get_uint32s(&self) -> (r: ValueResult<&[u32]>)
        ensures
            ok_view(r) == self@.typed_items(DataType::UInt32, self@.as_uint32s()),
    {
        match self {
            MultiValues::UInt32(v) => Ok(v.as_slice()),
            MultiValues::Empty(DataType::UInt32) => {
                let empty: &[u32] = &[];
                assert(empty@ =~= Seq::empty());
                Ok(empty)
            },
            _ => Err(ValueError::TypeMismatch { expected: DataType::UInt32, actual: self.data_type() }),
        }
    }

    /// Gets the first `UInt32` item; `NoValue` for a `UInt32` list without items,
    /// a type mismatch otherwise.
    pub fn get_first_uint32(&self) -> (r: ValueResult<u32>)
        ensures
            r == self@.typed_first(DataType::UInt32, self@.as_uint32s()),
    {
        match self {
            MultiValues::UInt32(v) => if v.len() > 0 {
                Ok(v[0])
            } else {
                Err(ValueError::NoValue)
            },
            MultiValues::Empty(DataType::UInt32) => Err(ValueError::NoValue),
            _ => Err(ValueError::TypeMismatch { expected: DataType::UInt32, actual: self.data_type() }),
        }
    }

    /// Replaces the list with the `UInt32` items `values`.
    pub fn set_uint32s(&mut self, values: Vec<u32>) -> (r: ValueResult<()>)
        ensures
            r == Ok::<(), ValueError>(()),
            final(self)@ == MultiValuesView::UInt32(values@),
    {
        *self = MultiValues::UInt32(values);
        Ok(())
    }

    /// Replaces the list with copies of the `UInt32` items `values`.
    pub fn set_uint32s_slice(&mut self, values: &[u32]) -> (r: ValueResult<()>)
        ensures
            r == Ok::<(), ValueError>(()),
            final(self)@ == MultiValuesView::UInt32(values@),
    {
        *self = MultiValues::UInt32(clone_items(values));
        Ok(())
    }

    /// Replaces the list with the single `UInt32` item `value`.
    pub fn set_uint32(&mut self, value: u32) -> (r: ValueResult<()>)
        ensures
            r == Ok::<(), ValueError>(()),
            final(self)@ == MultiValuesView::UInt32(seq![value]),
    {
        let v = vec![value];
        proof {
            assert(v@ =~= seq![value]);
        }
        *self = MultiValues::UInt32(v);
        Ok(())
    }

    /// Appends the `UInt32` item `value`; an empty `UInt32` list takes it as its
    /// first item, and a list of another type is left unchanged with a type
    /// mismatch.
    pub fn add_uint32(&mut self, value: u32) -> (r: ValueResult<()>)
        ensures
            (r, final(self)@) == old(self)@.append_uint32s(seq![value]),
    {
        match self {
            MultiValues::UInt32(v) => {
                let ghost before = v@;
                v.push(value);
                proof {
                    
                    assert(v@ =~= before + seq![value]);
                }
                Ok(())
            },
            MultiValues::Empty(DataType::UInt32) => {
                let v = vec![value];
                proof {
                    assert(v@ =~= seq![value]);
                }
                *self = MultiValues::UInt32(v);
                Ok(())
            },
            _ => Err(ValueError::TypeMismatch { expected: DataType::UInt32, actual: self.data_type() }),
        }
    }

    /// Appends the `UInt32` items `values`, as `add_uint32` does one item.
    pub fn add_uint32s(&mut self, values: Vec<u32>) -> (r: ValueResult<()>)
        ensures
            (r, final(self)@) == old(self)@.append_uint32s(values@),
    {
        match self {
            MultiValues::UInt32(v) => {
                let ghost before = v@;
                append_items(v, values.as_slice());
                proof {
                    
                }
                Ok(())
            },
            MultiValues::Empty(DataType::UInt32) => {
                *self = MultiValues::UInt32(values);
                Ok(())
            },
            _ => Err(ValueError::TypeMismatch { expected: DataType::UInt32, actual: self.data_type() }),
        }
    }

    /// Appends copies of the `UInt32` items `values`, as `add_uint32` does one
    /// item.
    pub fn add_uint32s_slice(&mut self, values: &[u32]) -> (r: ValueResult<()>)
        ensures
            (r, final(self)@) == old(self)@.append_uint32s(values@),
    {
        match self {
            MultiValues::UInt32(v) => {
                let ghost before = v@;
                append_items(v, values);
                proof {
                    
                }
                Ok(())
            },
            MultiValues::Empty(DataType::UInt32) => {
                *self = MultiValues::UInt32(clone_items(values));
                Ok(())
            },
            _ => Err(ValueError::TypeMismatch { expected: DataType::UInt32, actual: self.data_type() }),
        }
    }

    /// Gets the `UInt64` items; none for an empty `UInt64` list, a type mismatch
    /// otherwise.
    pub fn get_uint64s(&self) -> (r: ValueResult<&[u64]>)
        ensures
            ok_view(r) == self@.typed_items(DataType::UInt64, self@.as_uint64s()),
    {
        match self {
            MultiValues::UInt64(v) => Ok(v.as_slice()),
            MultiValues::Empty(DataType::UInt64) => {
                let empty: &[u64] = &[];
                assert(empty@ =~= Seq::empty());
                Ok(empty)
            },
            _ => Err(ValueError::TypeMismatch { expected: DataType::UInt64, actual: self.data_type() }),
        }
    }

    /// Gets the first `UInt64` item; `NoValue` for a `UInt64` list without items,
    /// a type mismatch otherwise.
    pub fn get_first_uint64(&self) -> (r: ValueResult<u64>)
        ensures
            r == self@.typed_first(DataType::UInt64, self@.as_uint64s()),
    {
        match self {
            MultiValues::UInt64(v) => if v.len() > 0 {
                Ok(v[0])
            } else {
                Err(ValueError::NoValue)
            },
            MultiValues::Empty(DataType::UInt64) => Err(ValueError::NoValue),
            _ => Err(ValueError::TypeMismatch { expected: DataType::UInt64, actual: self.data_type() }),
        }
    }

    /// Replaces the list with the `UInt64` items `values`.
    pub fn set_uint64s(&mut self, values: Vec<u64>) -> (r: ValueResult<()>)
        ensures
            r == Ok::<(), ValueError>(()),
            final(self)@ == MultiValuesView::UInt64(values@),
    {
        *self = MultiValues::UInt64(values);
        Ok(())
    }

    /// Replaces the list with copies of the `UInt64` items `values`.
    pub fn set_uint64s_slice(&mut self, values: &[u64]) -> (r: ValueResult<()>)
        ensures
            r == Ok::<(), ValueError>(()),
            final(self)@ == MultiValuesView::UInt64(values@),
    {
        *self = MultiValues::UInt64(clone_items(values));
        Ok(())
    }

    /// Replaces the list with the single `UInt64` item `value`.
    pub fn set_uint64(&mut self, value: u64) -> (r: ValueResult<()>)
        ensures
            r == Ok::<(), ValueError>(()),
            final(self)@ == MultiValuesView::UInt64(seq![value]),
    {
        let v = vec![value];
        proof {
            assert(v@ =~= seq![value]);
        }
        *self = MultiValues::UInt64(v);
        Ok(())
    }

    /// Appends the `UInt64` item `value`; an empty `UInt64` list takes it as its
    /// first item, and a list of another type is left unchanged with a type
    /// mismatch.
    pub fn add_uint64(&mut self, value: u64) -> (r: ValueResult<()>)
        ensures
            (r, final(self)@) == old(self)@.append_uint64s(seq![value]),
    {
        match self {
            MultiValues::UInt64(v) => {
                let ghost before = v@;
                v.push(value);
                proof {
                    
                    assert(v@ =~= before + seq![value]);
                }
                Ok(())
            },
            MultiValues::Empty(DataType::UInt64) => {
                let v = vec![value];
                proof {
                    assert(v@ =~= seq![value]);
                }
                *self = MultiValues::UInt64(v);
                Ok(())
            },
            _ => Err(ValueError::TypeMismatch { expected: DataType::UInt64, actual: self.data_type() }),
        }
    }

    /// Appends the `UInt64` items `values`, as `add_uint64` does one item.
    pub fn add_uint64s(&mut self, values: Vec<u64>) -> (r: ValueResult<()>)
        ensures
            (r, final(self)@) == old(self)@.append_uint64s(values@),
    {
        match self {
            MultiValues::UInt64(v) => {
                let ghost before = v@;
                append_items(v, values.as_slice());
                proof {
                    
                }
                Ok(())
            },
            MultiValues::Empty(DataType::UInt64) => {
                *self = MultiValues::UInt64(values);
                Ok(())
            },
            _ => Err(ValueError::TypeMismatch { expected: DataType::UInt64, actual: self.data_type() }),
        }
    }

    /// Appends copies of the `UInt64` items `values`, as `add_uint64` does one
    /// item.
    pub fn add_uint64s_slice(&mut self, values: &[u64]) -> (r: ValueResult<()>)
        ensures
            (r, final(self)@) == old(self)@.append_uint64s(values@),
    {
        match self {
            MultiValues::UInt64(v) => {
                let ghost before = v@;
                append_items(v, values);
                proof {
                    
                }
                Ok(())
            },
            MultiValues::Empty(DataType::UInt64) => {
                *self = MultiValues::UInt64(clone_items(values));
                Ok(())
            },
            _ => Err(ValueError::TypeMismatch { expected: DataType::UInt64, actual: self.data_type() }),
        }
    }

    /// Gets the `UInt128` items; none for an empty `UInt128` list, a type mismatch
    /// otherwise.
    pub fn get_uint128s(&self) -> (r: ValueResult<&[u128]>)
        ensures
            ok_view(r) == self@.typed_items(DataType::UInt128, self@.as_uint128s()),
    {
        match self {
            MultiValues::UInt128(v) => Ok(v.as_slice()),
            MultiValues::Empty(DataType::UInt128) => {
                let empty: &[u128] = &[];
                assert(empty@ =~= Seq::empty());
                Ok(empty)
            },
            _ => Err(ValueError::TypeMismatch { expected: DataType::UInt128, actual: self.data_type() }),
        }
    }

    /// Gets the first `UInt128` item; `NoValue` for a `UInt128` list without items,
    /// a type mismatch otherwise.
    pub fn get_first_uint128(&self) -> (r: ValueResult<u128>)
        ensures
            r == self@.typed_first(DataType::UInt128, self@.as_uint128s()),
    {
        match self {
            MultiValues::UInt128(v) => if v.len() > 0 {
                Ok(v[0])
            } else {
                Err(ValueError::NoValue)
            },
            MultiValues::Empty(DataType::UInt128) => Err(ValueError::NoValue),
            _ => Err(ValueError::TypeMismatch { expected: DataType::UInt128, actual: self.data_type() }),
        }
    }

    /// Replaces the list with the `UInt128` items `values`.
    pub fn set_uint128s(&mut self, values: Vec<u128>) -> (r: ValueResult<()>)
        ensures
            r == Ok::<(), ValueError>(()),
            final(self)@ == MultiValuesView::UInt128(values@),
    {
        *self = MultiValues::UInt128(values);
        Ok(())
    }

    /// Replaces the list with copies of the `UInt128` items `values`.
    pub fn set_uint128s_slice(&mut self, values: &[u128]) -> (r: ValueResult<()>)
        ensures
            r == Ok::<(), ValueError>(()),
            final(self)@ == MultiValuesView::UInt128(values@),
    {
        *self = MultiValues::UInt128(clone_items(values));
        Ok(())
    }

    /// Replaces the list with the single `UInt128` item `value`.
    pub fn set_uint128(&mut self, value: u128) -> (r: ValueResult<()>)
        ensures
            r == Ok::<(), ValueError>(()),
            final(self)@ == MultiValuesView::UInt128(seq![value]),
    {
        let v = vec![value];
        proof {
            assert(v@ =~= seq![value]);
        }
        *self = MultiValues::UInt128(v);
        Ok(())
    }

    /// Appends the `UInt128` item `value`; an empty `UInt128` list takes it as its
    /// first item, and a list of another type is left unchanged with a type
    /// mismatch.
    pub fn add_uint128(&mut self, value: u128) -> (r: ValueResult<()>)
        ensures
            (r, final(self)@) == old(self)@.append_uint128s(seq![value]),
    {
        match self {
            MultiValues::UInt128(v) => {
                let ghost before = v@;
                v.push(value);
                proof {
                    
                    assert(v@ =~= before + seq![value]);
                }
                Ok(())
            },
            MultiValues::Empty(DataType::UInt128) => {
                let v = vec![value];
                proof {
                    assert(v@ =~= seq![value]);
                }
                *self = MultiValues::UInt128(v);
                Ok(())
            },
            _ => Err(ValueError::TypeMismatch { expected: DataType::UInt128, actual: self.data_type() }),
        }
    }

    /// Appends the `UInt128` items `values`, as `add_uint128` does one item.
    pub fn add_uint128s(&mut self, values: Vec<u128>) -> (r: ValueResult<()>)
        ensures
            (r, final(self)@) == old(self)@.append_uint128s(values@),
    {
        match self {
            MultiValues::UInt128(v) => {
                let ghost before = v@;
                append_items(v, values.as_slice());
                proof {
                    
                }
                Ok(())
            },
            MultiValues::Empty(DataType::UInt128) => {
                *self = MultiValues::UInt128(values);
                Ok(())
            },
            _ => Err(ValueError::TypeMismatch { expected: DataType::UInt128, actual: self.data_type() }),
        }
    }

    /// Appends copies of the `UInt128` items `values`, as `add_uint128` does one
    /// item.
    pub fn add_uint128s_slice(&mut self, values: &[u128]) -> (r: ValueResult<()>)
        ensures
            (r, final(self)@) == old(self)@.append_uint128s(values@),
    {
        match self {
            MultiValues::UInt128(v) => {
                let ghost before = v@;
                append_items(v, values);
                proof {
                    
                }
                Ok(())
            },
            MultiValues::Empty(DataType::UInt128) => {
                *self = MultiValues::UInt128(clone_items(values));
                Ok(())
            },
            _ => Err(ValueError::TypeMismatch { expected: DataType::UInt128, actual: self.data_type() }),
        }
    }

    /// Gets the `IntSize` items; none for an empty `IntSize` list, a type mismatch
    /// otherwise.
    pub fn get_intsizes(&self) -> (r: ValueResult<&[isize]>)
        ensures
            ok_view(r) == self@.typed_items(DataType::IntSize, self@.as_intsizes()),
    {
        match self {
            MultiValues::IntSize(v) => Ok(v.as_slice()),
            MultiValues::Empty(DataType::IntSize) => {
                let empty: &[isize] = &[];
                assert(empty@ =~= Seq::empty());
                Ok(empty)
            },
            _ => Err(ValueError::TypeMismatch { expected: DataType::IntSize, actual: self.data_type() }),
        }
    }

    /// Gets the first `IntSize` item; `NoValue` for a `IntSize` list without items,
    /// a type mismatch otherwise.
    pub fn get_first_intsize(&self) -> (r: ValueResult<isize>)
        ensures
            r == self@.typed_first(DataType::IntSize, self@.as_intsizes()),
    {
        match self {
            MultiValues::IntSize(v) => if v.len() > 0 {
                Ok(v[0])
            } else {
                Err(ValueError::NoValue)
            },
            MultiValues::Empty(DataType::IntSize) => Err(ValueError::NoValue),
            _ => Err(ValueError::TypeMismatch { expected: DataType::IntSize, actual: self.data_type() }),
        }
    }

    /// Replaces the list with the `IntSize` items `values`.
    pub fn set_intsizes(&mut self, values: Vec<isize>) -> (r: ValueResult<()>)
        ensures
            r == Ok::<(), ValueError>(()),
            final(self)@ == MultiValuesView::IntSize(values@),
    {
        *self = MultiValues::IntSize(values);
        Ok(())
    }

    /// Replaces the list with copies of the `IntSize` items `values`.
    pub fn set_intsizes_slice(&mut self, values: &[isize]) -> (r: ValueResult<()>)
        ensures
            r == Ok::<(), ValueError>(()),
            final(self)@ == MultiValuesView::IntSize(values@),
    {
        *self = MultiValues::IntSize(clone_items(values));
        Ok(())
    }

    /// Replaces the list with the single `IntSize` item `value`.
    pub fn set_intsize(&mut self, value: isize) -> (r: ValueResult<()>)
        ensures
            r == Ok::<(), ValueError>(()),
            final(self)@ == MultiValuesView::IntSize(seq![value]),
    {
        let v = vec![value];
        proof {
            assert(v@ =~= seq![value]);
        }
        *self = MultiValues::IntSize(v);
        Ok(())
    }

    /// Appends the `IntSize` item `value`; an empty `IntSize` list takes it as its
    /// first item, and a list of another type is left unchanged with a type
    /// mismatch.
    pub fn add_intsize(&mut self, value: isize) -> (r: ValueResult<()>)
        ensures
            (r, final(self)@) == old(self)@.append_intsizes(seq![value]),
    {
        match self {
            MultiValues::IntSize(v) => {
                let ghost before = v@;
                v.push(value);
                proof {
                    
                    assert(v@ =~= before + seq![value]);
                }
                Ok(())
            },
            MultiValues::Empty(DataType::IntSize) => {
                let v = vec![value];
                proof {
                    assert(v@ =~= seq![value]);
                }
                *self = MultiValues::IntSize(v);
                Ok(())
            },
            _ => Err(ValueError::TypeMismatch { expected: DataType::IntSize, actual: self.data_type() }),
        }
    }

    /// Appends the `IntSize` items `values`, as `add_intsize` does one item.
    pub fn add_intsizes(&mut self, values: Vec<isize>) -> (r: ValueResult<()>)
        ensures
            (r, final(self)@) == old(self)@.append_intsizes(values@),
    {
        match self {
            MultiValues::IntSize(v) => {
                let ghost before = v@;
                append_items(v, values.as_slice());
                proof {
                    
                }
                Ok(())
            },
            MultiValues::Empty(DataType::IntSize) => {
                *self = MultiValues::IntSize(values);
                Ok(())
            },
            _ => Err(ValueError::TypeMismatch { expected: DataType::IntSize, actual: self.data_type() }),
        }
    }

    /// Appends copies of the `IntSize` items `values`, as `add_intsize` does one
    /// item.
    pub fn add_intsizes_slice(&mut self, values: &[isize]) -> (r: ValueResult<()>)
        ensures
            (r, final(self)@) == old(self)@.append_intsizes(values@),
    {
        match self {
            MultiValues::IntSize(v) => {
                let ghost before = v@;
                append_items(v, values);
                proof {
                    
                }
                Ok(())
            },
            MultiValues::Empty(DataType::IntSize) => {
                *self = MultiValues::IntSize(clone_items(values));
                Ok(())
            },
            _ => Err(ValueError::TypeMismatch { expected: DataType::IntSize, actual: self.data_type() }),
        }
    }

    /// Gets the `UIntSize` items; none for an empty `UIntSize` list, a type mismatch
    /// otherwise.
    pub fn get_uintsizes(&self) -> (r: ValueResult<&[usize]>)
        ensures
            ok_view(r) == self@.typed_items(DataType::UIntSize, self@.as_uintsizes()),
    {
        match self {
            MultiValues::UIntSize(v) => Ok(v.as_slice()),
            MultiValues::Empty(DataType::UIntSize) => {
                let empty: &[usize] = &[];
                assert(empty@ =~= Seq::empty());
                Ok(empty)
            },
            _ => Err(ValueError::TypeMismatch { expected: DataType::UIntSize, actual: self.data_type() }),
        }
    }

    /// Gets the first `UIntSize` item; `NoValue` for a `UIntSize` list without items,
    /// a type mismatch otherwise.
    pub fn get_first_uintsize(&self) -> (r: ValueResult<usize>)
        ensures
            r == self@.typed_first(DataType::UIntSize, self@.as_uintsizes()),
    {
        match self {
            MultiValues::UIntSize(v) => if v.len() > 0 {
                Ok(v[0])
            } else {
                Err(ValueError::NoValue)
            },
            MultiValues::Empty(DataType::UIntSize) => Err(ValueError::NoValue),
            _ => Err(ValueError::TypeMismatch { expected: DataType::UIntSize, actual: self.data_type() }),
        }
    }

    /// Replaces the list with the `UIntSize` items `values`.
    pub fn set_uintsizes(&mut self, values: Vec<usize>) -> (r: ValueResult<()>)
        ensures
            r == Ok::<(), ValueError>(()),
            final(self)@ == MultiValuesView::UIntSize(values@),
    {
        *self = MultiValues::UIntSize(values);
        Ok(())
    }

    /// Replaces the list with copies of the `UIntSize` items `values`.
    pub fn set_uintsizes_slice(&mut self, values: &[usize]) -> (r: ValueResult<()>)
        ensures
            r == Ok::<(), ValueError>(()),
            final(self)@ == MultiValuesView::UIntSize(values@),
    {
        *self = MultiValues::UIntSize(clone_items(values));
        Ok(())
    }

    /// Replaces the list with the single `UIntSize` item `value`.
    pub fn set_uintsize(&mut self, value: usize) -> (r: ValueResult<()>)
        ensures
            r == Ok::<(), ValueError>(()),
            final(self)@ == MultiValuesView::UIntSize(seq![value]),
    {
        let v = vec![value];
        proof {
            assert(v@ =~= seq![value]);
        }
        *self = MultiValues::UIntSize(v);
        Ok(())
    }

    /// Appends the `UIntSize` item `value`; an empty `UIntSize` list takes it as its
    /// first item, and a list of another type is left unchanged with a type
    /// mismatch.
    pub fn add_uintsize(&mut self, value: usize) -> (r: ValueResult<()>)
        ensures
            (r, final(self)@) == old(self)@.append_uintsizes(seq![value]),
    {
        match self {
            MultiValues::UIntSize(v) => {
                let ghost before = v@;
                v.push(value);
                proof {
                    
                    assert(v@ =~= before + seq![value]);
                }
                Ok(())
            },
            MultiValues::Empty(DataType::UIntSize) => {
                let v = vec![value];
                proof {
                    assert(v@ =~= seq![value]);
                }
                *self = MultiValues::UIntSize(v);
                Ok(())
            },
            _ => Err(ValueError::TypeMismatch { expected: DataType::UIntSize, actual: self.data_type() }),
        }
    }

    /// Appends the `UIntSize` items `values`, as `add_uintsize` does one item.
    pub fn add_uintsizes(&mut self, values: Vec<usize>) -> (r: ValueResult<()>)
        ensures
            (r, final(self)@) == old(self)@.append_uintsizes(values@),
    {
        match self {
            MultiValues::UIntSize(v) => {
                let ghost before = v@;
                append_items(v, values.as_slice());
                proof {
                    
                }
                Ok(())
            },
            MultiValues::Empty(DataType::UIntSize) => {
                *self = MultiValues::UIntSize(values);
                Ok(())
            },
            _ => Err(ValueError::TypeMismatch { expected: DataType::UIntSize, actual: self.data_type() }),
        }
    }

    /// Appends copies of the `UIntSize` items `values`, as `add_uintsize` does one
    /// item.
    pub fn add_uintsizes_slice(&mut self, values: &[usize]) -> (r: ValueResult<()>)
        ensures
            (r, final(self)@) == old(self)@.append_uintsizes(values@),
    {
        match self {
            MultiValues::UIntSize(v) => {
                let ghost before = v@;
                append_items(v, values);
                proof {
                    
                }
                Ok(())
            },
            MultiValues::Empty(DataType::UIntSize) => {
                *self = MultiValues::UIntSize(clone_items(values));
                Ok(())
            },
            _ => Err(ValueError::TypeMismatch { expected: DataType::UIntSize, actual: self.data_type() }),
        }
    }

    /// Gets the `Float32` items; none for an empty `Float32` list, a type mismatch
    /// otherwise.
    pub fn get_float32s_bits(&self) -> (r: ValueResult<&[u32]>)
        ensures
            ok_view(r) == self@.typed_items(DataType::Float32, self@.as_float32s_bits()),
    {
        match self {
            MultiValues::Float32(v) => Ok(v.as_slice()),
            MultiValues::Empty(DataType::Float32) => {
                let empty: &[u32] = &[];
                assert(empty@ =~= Seq::empty());
                Ok(empty)
            },
            _ => Err(ValueError::TypeMismatch { expected: DataType::Float32, actual: self.data_type() }),
        }
    }

    /// Gets the first `Float32` item; `NoValue` for a `Float32` list without items,
    /// a type mismatch otherwise.
    pub fn get_first_float32_bits(&self) -> (r: ValueResult<u32>)
        ensures
            r == self@.typed_first(DataType::Float32, self@.as_float32s_bits()),
    {
        match self {
            MultiValues::Float32(v) => if v.len() > 0 {
                Ok(v[0])
            } else {
                Err(ValueError::NoValue)
            },
            MultiValues::Empty(DataType::Float32) => Err(ValueError::NoValue),
            _ => Err(ValueError::TypeMismatch { expected: DataType::Float32, actual: self.data_type() }),
        }
    }

    /// Replaces the list with the `Float32` items `values`.
    pub fn set_float32s_bits(&mut self, values: Vec<u32>) -> (r: ValueResult<()>)
        ensures
            r == Ok::<(), ValueError>(()),
            final(self)@ == MultiValuesView::Float32(values@),
    {
        *self = MultiValues::Float32(values);
        Ok(())
    }

    /// Replaces the list with copies of the `Float32` items `values`.
    pub fn set_float32s_bits_slice(&mut self, values: &[u32]) -> (r: ValueResult<()>)
        ensures
            r == Ok::<(), ValueError>(()),
            final(self)@ == MultiValuesView::Float32(values@),
    {
        *self = MultiValues::Float32(clone_items(values));
        Ok(())
    }

    /// Replaces the list with the single `Float32` item `value`.
    pub fn set_float32_bits(&mut self, value: u32) -> (r: ValueResult<()>)
        ensures
            r == Ok::<(), ValueError>(()),
            final(self)@ == MultiValuesView::Float32(seq![value]),
    {
        let v = vec![value];
        proof {
            assert(v@ =~= seq![value]);
        }
        *self = MultiValues::Float32(v);
        Ok(())
    }

    /// Appends the `Float32` item `value`; an empty `Float32` list takes it as its
    /// first item, and a list of another type is left unchanged with a type
    /// mismatch.
    pub fn add_float32_bits(&mut self, value: u32) -> (r: ValueResult<()>)
        ensures
            (r, final(self)@) == old(self)@.append_float32s_bits(seq![value]),
    {
        match self {
            MultiValues::Float32(v) => {
                let ghost before = v@;
                v.push(value);
                proof {
                    
                    assert(v@ =~= before + seq![value]);
                }
                Ok(())
            },
            MultiValues::Empty(DataType::Float32) => {
                let v = vec![value];
                proof {
                    assert(v@ =~= seq![value]);
                }
                *self = MultiValues::Float32(v);
                Ok(())
            },
            _ => Err(ValueError::TypeMismatch { expected: DataType::Float32, actual: self.data_type() }),
        }
    }

    /// Appends the `Float32` items `values`, as `add_float32_bits` does one item.
    pub fn add_float32s_bits(&mut self, values: Vec<u32>) -> (r: ValueResult<()>)
        ensures
            (r, final(self)@) == old(self)@.append_float32s_bits(values@),
    {
        match self {
            MultiValues::Float32(v) => {
                let ghost before = v@;
                append_items(v, values.as_slice());
                proof {
                    
                }
                Ok(())
            },
            MultiValues::Empty(DataType::Float32) => {
                *self = MultiValues::Float32(values);
                Ok(())
            },
            _ => Err(ValueError::TypeMismatch { expected: DataType::Float32, actual: self.data_type() }),
        }
    }

    /// Appends copies of the `Float32` items `values`, as `add_float32_bits` does one
    /// item.
    pub fn add_float32s_bits_slice(&mut self, values: &[u32]) -> (r: ValueResult<()>)
        ensures
            (r, final(self)@) == old(self)@.append_float32s_bits(values@),
    {
        match self {
            MultiValues::Float32(v) => {
                let ghost before = v@;
                append_items(v, values);
                proof {
                    
                }
                Ok(())
            },
            MultiValues::Empty(DataType::Float32) => {
                *self = MultiValues::Float32(clone_items(values));
                Ok(())
            },
            _ => Err(ValueError::TypeMismatch { expected: DataType::Float32, actual: self.data_type() }),
        }
    }

    /// Gets the `Float64` items; none for an empty `Float64` list, a type mismatch
    /// otherwise.
    pub fn get_float64s_bits(&self) -> (r: ValueResult<&[u64]>)
        ensures
            ok_view(r) == self@.typed_items(DataType::Float64, self@.as_float64s_bits()),
    {
        match self {
            MultiValues::Float64(v) => Ok(v.as_slice()),
            MultiValues::Empty(DataType::Float64) => {
                let empty: &[u64] = &[];
                assert(empty@ =~= Seq::empty());
                Ok(empty)
            },
            _ => Err(ValueError::TypeMismatch { expected: DataType::Float64, actual: self.data_type() }),
        }
    }

    /// Gets the first `Float64` item; `NoValue` for a `Float64` list without items,
    /// a type mismatch otherwise.
    pub fn get_first_float64_bits(&self) -> (r: ValueResult<u64>)
        ensures
            r == self@.typed_first(DataType::Float64, self@.as_float64s_bits()),
    {
        match self {
            MultiValues::Float64(v) => if v.len() > 0 {
                Ok(v[0])
            } else {
                Err(ValueError::NoValue)
            },
            MultiValues::Empty(DataType::Float64) => Err(ValueError::NoValue),
            _ => Err(ValueError::TypeMismatch { expected: DataType::Float64, actual: self.data_type() }),
        }
    }

    /// Replaces the list with the `Float64` items `values`.
    pub fn set_float64s_bits(&mut self, values: Vec<u64>) -> (r: ValueResult<()>)
        ensures
            r == Ok::<(), ValueError>(()),
            final(self)@ == MultiValuesView::Float64(values@),
    {
        *self = MultiValues::Float64(values);
        Ok(())
    }

    /// Replaces the list with copies of the `Float64` items `values`.
    pub fn set_float64s_bits_slice(&mut self, values: &[u64]) -> (r: ValueResult<()>)
        ensures
            r == Ok::<(), ValueError>(()),
            final(self)@ == MultiValuesView::Float64(values@),
    {
        *self = MultiValues::Float64(clone_items(values));
        Ok(())
    }

    /// Replaces the list with the single `Float64` item `value`.
    pub fn set_float64_bits(&mut self, value: u64) -> (r: ValueResult<()>)
        ensures
            r == Ok::<(), ValueError>(()),
            final(self)@ == MultiValuesView::Float64(seq![value]),
    {
        let v = vec![value];
        proof {
            assert(v@ =~= seq![value]);
        }
        *self = MultiValues::Float64(v);
        Ok(())
    }

    /// Appends the `Float64` item `value`; an empty `Float64` list takes it as its
    /// first item, and a list of another type is left unchanged with a type
    /// mismatch.
    pub fn add_float64_bits(&mut self, value: u64) -> (r: ValueResult<()>)
        ensures
            (r, final(self)@) == old(self)@.append_float64s_bits(seq![value]),
    {
        match self {
            MultiValues::Float64(v) => {
                let ghost before = v@;
                v.push(value);
                proof {
                    
                    assert(v@ =~= before + seq![value]);
                }
                Ok(())
            },
            MultiValues::Empty(DataType::Float64) => {
                let v = vec![value];
                proof {
                    assert(v@ =~= seq![value]);
                }
                *self = MultiValues::Float64(v);
                Ok(())
            },
            _ => Err(ValueError::TypeMismatch { expected: DataType::Float64, actual: self.data_type() }),
        }
    }

    /// Appends the `Float64` items `values`, as `add_float64_bits` does one item.
    pub fn add_float64s_bits(&mut self, values: Vec<u64>) -> (r: ValueResult<()>)
        ensures
            (r, final(self)@) == old(self)@.append_float64s_bits(values@),
    {
        match self {
            MultiValues::Float64(v) => {
                let ghost before = v@;
                append_items(v, values.as_slice());
                proof {
                    
                }
                Ok(())
            },
            MultiValues::Empty(DataType::Float64) => {
                *self = MultiValues::Float64(values);
                Ok(())
            },
            _ => Err(ValueError::TypeMismatch { expected: DataType::Float64, actual: self.data_type() }),
        }
    }

    /// Appends copies of the `Float64` items `values`, as `add_float64_bits` does one
    /// item.
    pub fn add_float64s_bits_slice(&mut self, values: &[u64]) -> (r: ValueResult<()>)
        ensures
            (r, final(self)@) == old(self)@.append_float64s_bits(values@),
    {
        match self {
            MultiValues::Float64(v) => {
                let ghost before = v@;
                append_items(v, values);
                proof {
                    
                }
                Ok(())
            },
            MultiValues::Empty(DataType::Float64) => {
                *self = MultiValues::Float64(clone_items(values));
                Ok(())
            },
            _ => Err(ValueError::TypeMismatch { expected: DataType::Float64, actual: self.data_type() }),
        }
    }

    /// Gets the `BigInteger` items; none for an empty `BigInteger` list, a type mismatch
    /// otherwise.
    pub fn get_bigintegers(&self) -> (r: ValueResult<&[BigInt]>)
        ensures
            ok_view(r) == self@.typed_items(DataType::BigInteger, self@.as_bigintegers()),
    {
        match self {
            MultiValues::BigInteger(v) => Ok(v.as_slice()),
            MultiValues::Empty(DataType::BigInteger) => {
                let empty: &[BigInt] = &[];
                assert(empty@ =~= Seq::empty());
                Ok(empty)
            },
            _ => Err(ValueError::TypeMismatch { expected: DataType::BigInteger, actual: self.data_type() }),
        }
    }

    /// Gets the first `BigInteger` item; `NoValue` for a `BigInteger` list without items,
    /// a type mismatch otherwise.
    pub fn get_first_biginteger(&self) -> (r: ValueResult<BigInt>)
        ensures
            r == self@.typed_first(DataType::BigInteger, self@.as_bigintegers()),
    {
        match self {
            MultiValues::BigInteger(v) => if v.len() > 0 {
                Ok(v[0].exact_clone())
            } else {
                Err(ValueError::NoValue)
            },
            MultiValues::Empty(DataType::BigInteger) => Err(ValueError::NoValue),
            _ => Err(ValueError::TypeMismatch { expected: DataType::BigInteger, actual: self.data_type() }),
        }
    }

    /// Replaces the list with the `BigInteger` items `values`.
    pub fn set_bigintegers(&mut self, values: Vec<BigInt>) -> (r: ValueResult<()>)
        ensures
            r == Ok::<(), ValueError>(()),
            final(self)@ == MultiValuesView::BigInteger(values@),
    {
        *self = MultiValues::BigInteger(values);
        Ok(())
    }

    /// Replaces the list with copies of the `BigInteger` items `values`.
    pub fn set_bigintegers_slice(&mut self, values: &[BigInt]) -> (r: ValueResult<()>)
        ensures
            r == Ok::<(), ValueError>(()),
            final(self)@ == MultiValuesView::BigInteger(values@),
    {
        *self = MultiValues::BigInteger(clone_items(values));
        Ok(())
    }

    /// Replaces the list with the single `BigInteger` item `value`.
    pub fn set_biginteger(&mut self, value: BigInt) -> (r: ValueResult<()>)
        ensures
            r == Ok::<(), ValueError>(()),
            final(self)@ == MultiValuesView::BigInteger(seq![value]),
    {
        let v = vec![value];
        proof {
            assert(v@ =~= seq![value]);
        }
        *self = MultiValues::BigInteger(v);
        Ok(())
    }

    /// Appends the `BigInteger` item `value`; an empty `BigInteger` list takes it as its
    /// first item, and a list of another type is left unchanged with a type
    /// mismatch.
    pub fn add_biginteger(&mut self, value: BigInt) -> (r: ValueResult<()>)
        ensures
            (r, final(self)@) == old(self)@.append_bigintegers(seq![value]),
    {
        match self {
            MultiValues::BigInteger(v) => {
                let ghost before = v@;
                v.push(value);
                proof {
                    
                    assert(v@ =~= before + seq![value]);
                }
                Ok(())
            },
            MultiValues::Empty(DataType::BigInteger) => {
                let v = vec![value];
                proof {
                    assert(v@ =~= seq![value]);
                }
                *self = MultiValues::BigInteger(v);
                Ok(())
            },
            _ => Err(ValueError::TypeMismatch { expected: DataType::BigInteger, actual: self.data_type() }),
        }
    }

    /// Appends the `BigInteger` items `values`, as `add_biginteger` does one item.
    pub fn add_bigintegers(&mut self, values: Vec<BigInt>) -> (r: ValueResult<()>)
        ensures
            (r, final(self)@) == old(self)@.append_bigintegers(values@),
    {
        match self {
            MultiValues::BigInteger(v) => {
                let ghost before = v@;
                append_items(v, values.as_slice());
                proof {
                    
                }
                Ok(())
            },
            MultiValues::Empty(DataType::BigInteger) => {
                *self = MultiValues::BigInteger(values);
                Ok(())
            },
            _ => Err(ValueError::TypeMismatch { expected: DataType::BigInteger, actual: self.data_type() }),
        }
    }

    /// Appends copies of the `BigInteger` items `values`, as `add_biginteger` does one
    /// item.
    pub fn add_bigintegers_slice(&mut self, values: &[BigInt]) -> (r: ValueResult<()>)
        ensures
            (r, final(self)@) == old(self)@.append_bigintegers(values@),
    {
        match self {
            MultiValues::BigInteger(v) => {
                let ghost before = v@;
                append_items(v, values);
                proof {
                    
                }
                Ok(())
            },
            MultiValues::Empty(DataType::BigInteger) => {
                *self = MultiValues::BigInteger(clone_items(values));
                Ok(())
            },
            _ => Err(ValueError::TypeMismatch { expected: DataType::BigInteger, actual: self.data_type() }),
        }
    }

    /// Gets the `BigDecimal` items; none for an empty `BigDecimal` list, a type mismatch
    /// otherwise.
    pub fn get_bigdecimals(&self) -> (r: ValueResult<&[BigDecimal]>)
        ensures
            ok_view(r) == self@.typed_items(DataType::BigDecimal, self@.as_bigdecimals()),
    {
        match self {
            MultiValues::BigDecimal(v) => Ok(v.as_slice()),
            MultiValues::Empty(DataType::BigDecimal) => {
                let empty: &[BigDecimal] = &[];
                assert(empty@ =~= Seq::empty());
                Ok(empty)
            },
            _ => Err(ValueError::TypeMismatch { expected: DataType::BigDecimal, actual: self.data_type() }),
        }
    }

    /// Gets the first `BigDecimal` item; `NoValue` for a `BigDecimal` list without items,
    /// a type mismatch otherwise.
    pub fn get_first_bigdecimal(&self) -> (r: ValueResult<BigDecimal>)
        ensures
            r == self@.typed_first(DataType::BigDecimal, self@.as_bigdecimals()),
    {
        match self {
            MultiValues::BigDecimal(v) => if v.len() > 0 {
                Ok(v[0].exact_clone())
            } else {
                Err(ValueError::NoValue)
            },
            MultiValues::Empty(DataType::BigDecimal) => Err(ValueError::NoValue),
            _ => Err(ValueError::TypeMismatch { expected: DataType::BigDecimal, actual: self.data_type() }),
        }
    }

    /// Replaces the list with the `BigDecimal` items `values`.
    pub fn set_bigdecimals(&mut self, values: Vec<BigDecimal>) -> (r: ValueResult<()>)
        ensures
            r == Ok::<(), ValueError>(()),
            final(self)@ == MultiValuesView::BigDecimal(values@),
    {
        *self = MultiValues::BigDecimal(values);
        Ok(())
    }

    /// Replaces the list with copies of the `BigDecimal` items `values`.
    pub fn set_bigdecimals_slice(&mut self, values: &[BigDecimal]) -> (r: ValueResult<()>)
        ensures
            r == Ok::<(), ValueError>(()),
            final(self)@ == MultiValuesView::BigDecimal(values@),
    {
        *self = MultiValues::BigDecimal(clone_items(values));
        Ok(())
    }

    /// Replaces the list with the single `BigDecimal` item `value`.
    pub fn set_bigdecimal(&mut self, value: BigDecimal) -> (r: ValueResult<()>)
        ensures
            r == Ok::<(), ValueError>(()),
            final(self)@ == MultiValuesView::BigDecimal(seq![value]),
    {
        let v = vec![value];
        proof {
            assert(v@ =~= seq![value]);
        }
        *self = MultiValues::BigDecimal(v);
        Ok(())
    }

    /// Appends the `BigDecimal` item `value`; an empty `BigDecimal` list takes it as its
    /// first item, and a list of another type is left unchanged with a type
    /// mismatch.
    pub fn add_bigdecimal(&mut self, value: BigDecimal) -> (r: ValueResult<()>)
        ensures
            (r, final(self)@) == old(self)@.append_bigdecimals(seq![value]),
    {
        match self {
            MultiValues::BigDecimal(v) => {
                let ghost before = v@;
                v.push(value);
                proof {
                    
                    assert(v@ =~= before + seq![value]);
                }
                Ok(())
            },
            MultiValues::Empty(DataType::BigDecimal) => {
                let v = vec![value];
                proof {
                    assert(v@ =~= seq![value]);
                }
                *self = MultiValues::BigDecimal(v);
                Ok(())
            },
            _ => Err(ValueError::TypeMismatch { expected: DataType::BigDecimal, actual: self.data_type() }),
        }
    }

    /// Appends the `BigDecimal` items `values`, as `add_bigdecimal` does one item.
    pub fn add_bigdecimals(&mut self, values: Vec<BigDecimal>) -> (r: ValueResult<()>)
        ensures
            (r, final(self)@) == old(self)@.append_bigdecimals(values@),
    {
        match self {
            MultiValues::BigDecimal(v) => {
                let ghost before = v@;
                append_items(v, values.as_slice());
                proof {
                    
                }
                Ok(())
            },
            MultiValues::Empty(DataType::BigDecimal) => {
                *self = MultiValues::BigDecimal(values);
                Ok(())
            },
            _ => Err(ValueError::TypeMismatch { expected: DataType::BigDecimal, actual: self.data_type() }),
        }
    }

    /// Appends copies of the `BigDecimal` items `values`, as `add_bigdecimal` does one
    /// item.
    pub fn add_bigdecimals_slice(&mut self, values: &[BigDecimal]) -> (r: ValueResult<()>)
        ensures
            (r, final(self)@) == old(self)@.append_bigdecimals(values@),
    {
        match self {
            MultiValues::BigDecimal(v) => {
                let ghost before = v@;
                append_items(v, values);
                proof {
                    
                }
                Ok(())
            },
            MultiValues::Empty(DataType::BigDecimal) => {
                *self = MultiValues::BigDecimal(clone_items(values));
                Ok(())
            },
            _ => Err(ValueError::TypeMismatch { expected: DataType::BigDecimal, actual: self.data_type() }),
        }
    }

    /// Gets the `String` items; none for an empty `String` list, a type mismatch
    /// otherwise.
    pub fn get_strings(&self) -> (r: ValueResult<&[String]>)
        ensures
            match r {
                Ok(s) => self@.typed_items(DataType::String, self@.as_strings()) == Ok::<Seq<Seq<char>>, ValueError>(strings_view(s@)),
                Err(e) => self@.typed_items(DataType::String, self@.as_strings()) == Err::<Seq<Seq<char>>, ValueError>(e),
            },
    {
        match self {
            MultiValues::String(v) => Ok(v.as_slice()),
            MultiValues::Empty(DataType::String) => {
                let empty: &[String] = &[];
                assert(strings_view(empty@) =~= Seq::empty());
                Ok(empty)
            },
            _ => Err(ValueError::TypeMismatch { expected: DataType::String, actual: self.data_type() }),
        }
    }

    /// Gets the first `String` item; `NoValue` for a `String` list without items,
    /// a type mismatch otherwise.
    pub fn get_first_string(&self) -> (r: ValueResult<&str>)
        ensures
            ok_view(r) == self@.typed_first(DataType::String, self@.as_strings()),
    {
        match self {
            MultiValues::String(v) => if v.len() > 0 {
                Ok(v[0].as_str())
            } else {
                Err(ValueError::NoValue)
            },
            MultiValues::Empty(DataType::String) => Err(ValueError::NoValue),
            _ => Err(ValueError::TypeMismatch { expected: DataType::String, actual: self.data_type() }),
        }
    }

    /// Replaces the list with the `String` items `values`.
    pub fn set_strings(&mut self, values: Vec<String>) -> (r: ValueResult<()>)
        ensures
            r == Ok::<(), ValueError>(()),
            final(self)@ == MultiValuesView::String(strings_view(values@)),
    {
        *self = MultiValues::String(values);
        Ok(())
    }

    /// Replaces the list with copies of the `String` items `values`.
    pub fn set_strings_slice(&mut self, values: &[String]) -> (r: ValueResult<()>)
        ensures
            r == Ok::<(), ValueError>(()),
            final(self)@ == MultiValuesView::String(strings_view(values@)),
    {
        *self = MultiValues::String(clone_items(values));
        Ok(())
    }

    /// Replaces the list with the single `String` item `value`.
    pub fn set_string(&mut self, value: String) -> (r: ValueResult<()>)
        ensures
            r == Ok::<(), ValueError>(()),
            final(self)@ == MultiValuesView::String(seq![value@]),
    {
        let v = vec![value];
        proof {
            assert(v@ =~= seq![value]);
        }
        proof {
            assert(strings_view(v@) =~= seq![value@]);
        }
        *self = MultiValues::String(v);
        Ok(())
    }

    /// Appends the `String` item `value`; an empty `String` list takes it as its
    /// first item, and a list of another type is left unchanged with a type
    /// mismatch.
    pub fn add_string(&mut self, value: String) -> (r: ValueResult<()>)
        ensures
            (r, final(self)@) == old(self)@.append_strings(seq![value@]),
    {
        match self {
            MultiValues::String(v) => {
                let ghost before = v@;
                v.push(value);
                proof {
                    lemma_strings_view_push(before, value);
                    assert(strings_view(v@) =~= strings_view(before) + seq![value@]);
                }
                Ok(())
            },
            MultiValues::Empty(DataType::String) => {
                let v = vec![value];
                proof {
                    assert(v@ =~= seq![value]);
                    assert(strings_view(v@) =~= seq![value@]);
                }
                *self = MultiValues::String(v);
                Ok(())
            },
            _ => Err(ValueError::TypeMismatch { expected: DataType::String, actual: self.data_type() }),
        }
    }

    /// Appends the `String` items `values`, as `add_string` does one item.
    pub fn add_strings(&mut self, values: Vec<String>) -> (r: ValueResult<()>)
        ensures
            (r, final(self)@) == old(self)@.append_strings(strings_view(values@)),
    {
        match self {
            MultiValues::String(v) => {
                let ghost before = v@;
                append_items(v, values.as_slice());
                proof {
                    lemma_strings_view_add(before, values@);
                }
                Ok(())
            },
            MultiValues::Empty(DataType::String) => {
                *self = MultiValues::String(values);
                Ok(())
            },
            _ => Err(ValueError::TypeMismatch { expected: DataType::String, actual: self.data_type() }),
        }
    }

    /// Appends copies of the `String` items `values`, as `add_string` does one
    /// item.
    pub fn add_strings_slice(&mut self, values: &[String]) -> (r: ValueResult<()>)
        ensures
            (r, final(self)@) == old(self)@.append_strings(strings_view(values@)),
    {
        match self {
            MultiValues::String(v) => {
                let ghost before = v@;
                append_items(v, values);
                proof {
                    lemma_strings_view_add(before, values@);
                }
                Ok(())
            },
            MultiValues::Empty(DataType::String) => {
                *self = MultiValues::String(clone_items(values));
                Ok(())
            },
            _ => Err(ValueError::TypeMismatch { expected: DataType::String, actual: self.data_type() }),
        }
    }

    /// Gets the `Date` items; none for an empty `Date` list, a type mismatch
    /// otherwise.
    pub fn get_dates(&self) -> (r: ValueResult<&[NaiveDate]>)
        ensures
            ok_view(r) == self@.typed_items(DataType::Date, self@.as_dates()),
    {
        match self {
            MultiValues::Date(v) => Ok(v.as_slice()),
            MultiValues::Empty(DataType::Date) => {
                let empty: &[NaiveDate] = &[];
                assert(empty@ =~= Seq::empty());
                Ok(empty)
            },
            _ => Err(ValueError::TypeMismatch { expected: DataType::Date, actual: self.data_type() }),
        }
    }

    /// Gets the first `Date` item; `NoValue` for a `Date` list without items,
    /// a type mismatch otherwise.
    pub fn get_first_date(&self) -> (r: ValueResult<NaiveDate>)
        ensures
            r == self@.typed_first(DataType::Date, self@.as_dates()),
    {
        match self {
            MultiValues::Date(v) => if v.len() > 0 {
                Ok(v[0])
            } else {
                Err(ValueError::NoValue)
            },
            MultiValues::Empty(DataType::Date) => Err(ValueError::NoValue),
            _ => Err(ValueError::TypeMismatch { expected: DataType::Date, actual: self.data_type() }),
        }
    }

    /// Replaces the list with the `Date` items `values`.
    pub fn set_dates(&mut self, values: Vec<NaiveDate>) -> (r: ValueResult<()>)
        ensures
            r == Ok::<(), ValueError>(()),
            final(self)@ == MultiValuesView::Date(values@),
    {
        *self = MultiValues::Date(values);
        Ok(())
    }

    /// Replaces the list with copies of the `Date` items `values`.
    pub fn set_dates_slice(&mut self, values: &[NaiveDate]) -> (r: ValueResult<()>)
        ensures
            r == Ok::<(), ValueError>(()),
            final(self)@ == MultiValuesView::Date(values@),
    {
        *self = MultiValues::Date(clone_items(values));
        Ok(())
    }

    /// Replaces the list with the single `Date` item `value`.
    pub fn set_date(&mut self, value: NaiveDate) -> (r: ValueResult<()>)
        ensures
            r == Ok::<(), ValueError>(()),
            final(self)@ == MultiValuesView::Date(seq![value]),
    {
        let v = vec![value];
        proof {
            assert(v@ =~= seq![value]);
        }
        *self = MultiValues::Date(v);
        Ok(())
    }

    /// Appends the `Date` item `value`; an empty `Date` list takes it as its
    /// first item, and a list of another type is left unchanged with a type
    /// mismatch.
    pub fn add_date(&mut self, value: NaiveDate) -> (r: ValueResult<()>)
        ensures
            (r, final(self)@) == old(self)@.append_dates(seq![value]),
    {
        match self {
            MultiValues::Date(v) => {
                let ghost before = v@;
                v.push(value);
                proof {
                    
                    assert(v@ =~= before + seq![value]);
                }
                Ok(())
            },
            MultiValues::Empty(DataType::Date) => {
                let v = vec![value];
                proof {
                    assert(v@ =~= seq![value]);
                }
                *self = MultiValues::Date(v);
                Ok(())
            },
            _ => Err(ValueError::TypeMismatch { expected: DataType::Date, actual: self.data_type() }),
        }
    }

    /// Appends the `Date` items `values`, as `add_date` does one item.
    pub fn add_dates(&mut self, values: Vec<NaiveDate>) -> (r: ValueResult<()>)
        ensures
            (r, final(self)@) == old(self)@.append_dates(values@),
    {
        match self {
            MultiValues::Date(v) => {
                let ghost before = v@;
                append_items(v, values.as_slice());
                proof {
                    
                }
                Ok(())
            },
            MultiValues::Empty(DataType::Date) => {
                *self = MultiValues::Date(values);
                Ok(())
            },
            _ => Err(ValueError::TypeMismatch { expected: DataType::Date, actual: self.data_type() }),
        }
    }

    /// Appends copies of the `Date` items `values`, as `add_date` does one
    /// item.
    pub fn add_dates_slice(&mut self, values: &[NaiveDate]) -> (r: ValueResult<()>)
        ensures
            (r, final(self)@) == old(self)@.append_dates(values@),
    {
        match self {
            MultiValues::Date(v) => {
                let ghost before = v@;
                append_items(v, values);
                proof {
                    
                }
                Ok(())
            },
            MultiValues::Empty(DataType::Date) => {
                *self = MultiValues::Date(clone_items(values));
                Ok(())
            },
            _ => Err(ValueError::TypeMismatch { expected: DataType::Date, actual: self.data_type() }),
        }
    }

    /// Gets the `Time` items; none for an empty `Time` list, a type mismatch
    /// otherwise.
    pub fn get_times(&self) -> (r: ValueResult<&[NaiveTime]>)
        ensures
            ok_view(r) == self@.typed_items(DataType::Time, self@.as_times()),
    {
        match self {
            MultiValues::Time(v) => Ok(v.as_slice()),
            MultiValues::Empty(DataType::Time) => {
                let empty: &[NaiveTime] = &[];
                assert(empty@ =~= Seq::empty());
                Ok(empty)
            },
            _ => Err(ValueError::TypeMismatch { expected: DataType::Time, actual: self.data_type() }),
        }
    }

    /// Gets the first `Time` item; `NoValue` for a `Time` list without items,
    /// a type mismatch otherwise.
    pub fn get_first_time(&self) -> (r: ValueResult<NaiveTime>)
        ensures
            r == self@.typed_first(DataType::Time, self@.as_times()),
    {
        match self {
            MultiValues::Time(v) => if v.len() > 0 {
                Ok(v[0])
            } else {
                Err(ValueError::NoValue)
            },
            MultiValues::Empty(DataType::Time) => Err(ValueError::NoValue),
            _ => Err(ValueError::TypeMismatch { expected: DataType::Time, actual: self.data_type() }),
        }
    }

    /// Replaces the list with the `Time` items `values`.
    pub fn set_times(&mut self, values: Vec<NaiveTime>) -> (r: ValueResult<()>)
        ensures
            r == Ok::<(), ValueError>(()),
            final(self)@ == MultiValuesView::Time(values@),
    {
        *self = MultiValues::Time(values);
        Ok(())
    }

    /// Replaces the list with copies of the `Time` items `values`.
    pub fn set_times_slice(&mut self, values: &[NaiveTime]) -> (r: ValueResult<()>)
        ensures
            r == Ok::<(), ValueError>(()),
            final(self)@ == MultiValuesView::Time(values@),
    {
        *self = MultiValues::Time(clone_items(values));
        Ok(())
    }

    /// Replaces the list with the single `Time` item `value`.
    pub fn set_time(&mut self, value: NaiveTime) -> (r: ValueResult<()>)
        ensures
            r == Ok::<(), ValueError>(()),
            final(self)@ == MultiValuesView::Time(seq![value]),
    {
        let v = vec![value];
        proof {
            assert(v@ =~= seq![value]);
        }
        *self = MultiValues::Time(v);
        Ok(())
    }

    /// Appends the `Time` item `value`; an empty `Time` list takes it as its
    /// first item, and a list of another type is left unchanged with a type
    /// mismatch.
    pub fn add_time(&mut self, value: NaiveTime) -> (r: ValueResult<()>)
        ensures
            (r, final(self)@) == old(self)@.append_times(seq![value]),
    {
        match self {
            MultiValues::Time(v) => {
                let ghost before = v@;
                v.push(value);
                proof {
                    
                    assert(v@ =~= before + seq![value]);
                }
                Ok(())
            },
            MultiValues::Empty(DataType::Time) => {
                let v = vec![value];
                proof {
                    assert(v@ =~= seq![value]);
                }
                *self = MultiValues::Time(v);
                Ok(())
            },
            _ => Err(ValueError::TypeMismatch { expected: DataType::Time, actual: self.data_type() }),
        }
    }

    /// Appends the `Time` items `values`, as `add_time` does one item.
    pub fn add_times(&mut self, values: Vec<NaiveTime>) -> (r: ValueResult<()>)
        ensures
            (r, final(self)@) == old(self)@.append_times(values@),
    {
        match self {
            MultiValues::Time(v) => {
                let ghost before = v@;
                append_items(v, values.as_slice());
                proof {
                    
                }
                Ok(())
            },
            MultiValues::Empty(DataType::Time) => {
                *self = MultiValues::Time(values);
                Ok(())
            },
            _ => Err(ValueError::TypeMismatch { expected: DataType::Time, actual: self.data_type() }),
        }
    }

    /// Appends copies of the `Time` items `values`, as `add_time` does one
    /// item.
    pub fn add_times_slice(&mut self, values: &[NaiveTime]) -> (r: ValueResult<()>)
        ensures
            (r, final(self)@) == old(self)@.append_times(values@),
    {
        match self {
            MultiValues::Time(v) => {
                let ghost before = v@;
                append_items(v, values);
                proof {
                    
                }
                Ok(())
            },
            MultiValues::Empty(DataType::Time) => {
                *self = MultiValues::Time(clone_items(values));
                Ok(())
            },
            _ => Err(ValueError::TypeMismatch { expected: DataType::Time, actual: self.data_type() }),
        }
    }

    /// Gets the `DateTime` items; none for an empty `DateTime` list, a type mismatch
    /// otherwise.
    pub fn get_datetimes(&self) -> (r: ValueResult<&[NaiveDateTime]>)
        ensures
            ok_view(r) == self@.typed_items(DataType::DateTime, self@.as_datetimes()),
    {
        match self {
            MultiValues::DateTime(v) => Ok(v.as_slice()),
            MultiValues::Empty(DataType::DateTime) => {
                let empty: &[NaiveDateTime] = &[];
                assert(empty@ =~= Seq::empty());
                Ok(empty)
            },
            _ => Err(ValueError::TypeMismatch { expected: DataType::DateTime, actual: self.data_type() }),
        }
    }

    /// Gets the first `DateTime` item; `NoValue` for a `DateTime` list without items,
    /// a type mismatch otherwise.
    pub fn get_first_datetime(&self) -> (r: ValueResult<NaiveDateTime>)
        ensures
            r == self@.typed_first(DataType::DateTime, self@.as_datetimes()),
    {
        match self {
            MultiValues::DateTime(v) => if v.len() > 0 {
                Ok(v[0])
            } else {
                Err(ValueError::NoValue)
            },
            MultiValues::Empty(DataType::DateTime) => Err(ValueError::NoValue),
            _ => Err(ValueError::TypeMismatch { expected: DataType::DateTime, actual: self.data_type() }),
        }
    }

    /// Replaces the list with the `DateTime` items `values`.
    pub fn set_datetimes(&mut self, values: Vec<NaiveDateTime>) -> (r: ValueResult<()>)
        ensures
            r == Ok::<(), ValueError>(()),
            final(self)@ == MultiValuesView::DateTime(values@),
    {
        *self = MultiValues::DateTime(values);
        Ok(())
    }

    /// Replaces the list with copies of the `DateTime` items `values`.
    pub fn set_datetimes_slice(&mut self, values: &[NaiveDateTime]) -> (r: ValueResult<()>)
        ensures
            r == Ok::<(), ValueError>(()),
            final(self)@ == MultiValuesView::DateTime(values@),
    {
        *self = MultiValues::DateTime(clone_items(values));
        Ok(())
    }

    /// Replaces the list with the single `DateTime` item `value`.
    pub fn set_datetime(&mut self, value: NaiveDateTime) -> (r: ValueResult<()>)
        ensures
            r == Ok::<(), ValueError>(()),
            final(self)@ == MultiValuesView::DateTime(seq![value]),
    {
        let v = vec![value];
        proof {
            assert(v@ =~= seq![value]);
        }
        *self = MultiValues::DateTime(v);
        Ok(())
    }

    /// Appends the `DateTime` item `value`; an empty `DateTime` list takes it as its
    /// first item, and a list of another type is left unchanged with a type
    /// mismatch.
    pub fn add_datetime(&mut self, value: NaiveDateTime) -> (r: ValueResult<()>)
        ensures
            (r, final(self)@) == old(self)@.append_datetimes(seq![value]),
    {
        match self {
            MultiValues::DateTime(v) => {
                let ghost before = v@;
                v.push(value);
                proof {
                    
                    assert(v@ =~= before + seq![value]);
                }
                Ok(())
            },
            MultiValues::Empty(DataType::DateTime) => {
                let v = vec![value];
                proof {
                    assert(v@ =~= seq![value]);
                }
                *self = MultiValues::DateTime(v);
                Ok(())
            },
            _ => Err(ValueError::TypeMismatch { expected: DataType::DateTime, actual: self.data_type() }),
        }
    }

    /// Appends the `DateTime` items `values`, as `add_datetime` does one item.
    pub fn add_datetimes(&mut self, values: Vec<NaiveDateTime>) -> (r: ValueResult<()>)
        ensures
            (r, final(self)@) == old(self)@.append_datetimes(values@),
    {
        match self {
            MultiValues::DateTime(v) => {
                let ghost before = v@;
                append_items(v, values.as_slice());
                proof {
                    
                }
                Ok(())
            },
            MultiValues::Empty(DataType::DateTime) => {
                *self = MultiValues::DateTime(values);
                Ok(())
            },
            _ => Err(ValueError::TypeMismatch { expected: DataType::DateTime, actual: self.data_type() }),
        }
    }

    /// Appends copies of the `DateTime` items `values`, as `add_datetime` does one
    /// item.
    pub fn add_datetimes_slice(&mut self, values: &[NaiveDateTime]) -> (r: ValueResult<()>)
        ensures
            (r, final(self)@) == old(self)@.append_datetimes(values@),
    {
        match self {
            MultiValues::DateTime(v) => {
                let ghost before = v@;
                append_items(v, values);
                proof {
                    
                }
                Ok(())
            },
            MultiValues::Empty(DataType::DateTime) => {
                *self = MultiValues::DateTime(clone_items(values));
                Ok(())
            },
            _ => Err(ValueError::TypeMismatch { expected: DataType::DateTime, actual: self.data_type() }),
        }
    }

    /// Gets the `Instant` items; none for an empty `Instant` list, a type mismatch
    /// otherwise.
    pub fn get_instants(&self) -> (r: ValueResult<&[UtcInstant]>)
        ensures
            ok_view(r) == self@.typed_items(DataType::Instant, self@.as_instants()),
    {
        match self {
            MultiValues::Instant(v) => Ok(v.as_slice()),
            MultiValues::Empty(DataType::Instant) => {
                let empty: &[UtcInstant] = &[];
                assert(empty@ =~= Seq::empty());
                Ok(empty)
            },
            _ => Err(ValueError::TypeMismatch { expected: DataType::Instant, actual: self.data_type() }),
        }
    }

    /// Gets the first `Instant` item; `NoValue` for a `Instant` list without items,
    /// a type mismatch otherwise.
    pub fn get_first_instant(&self) -> (r: ValueResult<UtcInstant>)
        ensures
            r == self@.typed_first(DataType::Instant, self@.as_instants()),
    {
        match self {
            MultiValues::Instant(v) => if v.len() > 0 {
                Ok(v[0])
            } else {
                Err(ValueError::NoValue)
            },
            MultiValues::Empty(DataType::Instant) => Err(ValueError::NoValue),
            _ => Err(ValueError::TypeMismatch { expected: DataType::Instant, actual: self.data_type() }),
        }
    }

    /// Replaces the list with the `Instant` items `values`.
    pub fn set_instants(&mut self, values: Vec<UtcInstant>) -> (r: ValueResult<()>)
        ensures
            r == Ok::<(), ValueError>(()),
            final(self)@ == MultiValuesView::Instant(values@),
    {
        *self = MultiValues::Instant(values);
        Ok(())
    }

    /// Replaces the list with copies of the `Instant` items `values`.
    pub fn set_instants_slice(&mut self, values: &[UtcInstant]) -> (r: ValueResult<()>)
        ensures
            r == Ok::<(), ValueError>(()),
            final(self)@ == MultiValuesView::Instant(values@),
    {
        *self = MultiValues::Instant(clone_items(values));
        Ok(())
    }

    /// Replaces the list with the single `Instant` item `value`.
    pub fn set_instant(&mut self, value: UtcInstant) -> (r: ValueResult<()>)
        ensures
            r == Ok::<(), ValueError>(()),
            final(self)@ == MultiValuesView::Instant(seq![value]),
    {
        let v = vec![value];
        proof {
            assert(v@ =~= seq![value]);
        }
        *self = MultiValues::Instant(v);
        Ok(())
    }

    /// Appends the `Instant` item `value`; an empty `Instant` list takes it as its
    /// first item, and a list of another type is left unchanged with a type
    /// mismatch.
    pub fn add_instant(&mut self, value: UtcInstant) -> (r: ValueResult<()>)
        ensures
            (r, final(self)@) == old(self)@.append_instants(seq![value]),
    {
        match self {
            MultiValues::Instant(v) => {
                let ghost before = v@;
                v.push(value);
                proof {
                    
                    assert(v@ =~= before + seq![value]);
                }
                Ok(())
            },
            MultiValues::Empty(DataType::Instant) => {
                let v = vec![value];
                proof {
                    assert(v@ =~= seq![value]);
                }
                *self = MultiValues::Instant(v);
                Ok(())
            },
            _ => Err(ValueError::TypeMismatch { expected: DataType::Instant, actual: self.data_type() }),
        }
    }

    /// Appends the `Instant` items `values`, as `add_instant` does one item.
    pub fn add_instants(&mut self, values: Vec<UtcInstant>) -> (r: ValueResult<()>)
        ensures
            (r, final(self)@) == old(self)@.append_instants(values@),
    {
        match self {
            MultiValues::Instant(v) => {
                let ghost before = v@;
                append_items(v, values.as_slice());
                proof {
                    
                }
                Ok(())
            },
            MultiValues::Empty(DataType::Instant) => {
                *self = MultiValues::Instant(values);
                Ok(())
            },
            _ => Err(ValueError::TypeMismatch { expected: DataType::Instant, actual: self.data_type() }),
        }
    }

    /// Appends copies of the `Instant` items `values`, as `add_instant` does one
    /// item.
    pub fn add_instants_slice(&mut self, values: &[UtcInstant]) -> (r: ValueResult<()>)
        ensures
            (r, final(self)@) == old(self)@.append_instants(values@),
    {
        match self {
            MultiValues::Instant(v) => {
                let ghost before = v@;
                append_items(v, values);
                proof {
                    
                }
                Ok(())
            },
            MultiValues::Empty(DataType::Instant) => {
                *self = MultiValues::Instant(clone_items(values));
                Ok(())
            },
            _ => Err(ValueError::TypeMismatch { expected: DataType::Instant, actual: self.data_type() }),
        }
    }

    /// Gets the `Duration` items; none for an empty `Duration` list, a type mismatch
    /// otherwise.
    pub fn get_durations(&self) -> (r: ValueResult<&[Duration]>)
        ensures
            ok_view(r) == self@.typed_items(DataType::Duration, self@.as_durations()),
    {
        match self {
            MultiValues::Duration(v) => Ok(v.as_slice()),
            MultiValues::Empty(DataType::Duration) => {
                let empty: &[Duration] = &[];
                assert(empty@ =~= Seq::empty());
                Ok(empty)
            },
            _ => Err(ValueError::TypeMismatch { expected: DataType::Duration, actual: self.data_type() }),
        }
    }

    /// Gets the first `Duration` item; `NoValue` for a `Duration` list without items,
    /// a type mismatch otherwise.
    pub fn get_first_duration(&self) -> (r: ValueResult<Duration>)
        ensures
            r == self@.typed_first(DataType::Duration, self@.as_durations()),
    {
        match self {
            MultiValues::Duration(v) => if v.len() > 0 {
                Ok(v[0])
            } else {
                Err(ValueError::NoValue)
            },
            MultiValues::Empty(DataType::Duration) => Err(ValueError::NoValue),
            _ => Err(ValueError::TypeMismatch { expected: DataType::Duration, actual: self.data_type() }),
        }
    }

    /// Replaces the list with the `Duration` items `values`.
    pub fn set_durations(&mut self, values: Vec<Duration>) -> (r: ValueResult<()>)
        ensures
            r == Ok::<(), ValueError>(()),
            final(self)@ == MultiValuesView::Duration(values@),
    {
        *self = MultiValues::Duration(values);
        Ok(())
    }

    /// Replaces the list with copies of the `Duration` items `values`.
    pub fn set_durations_slice(&mut self, values: &[Duration]) -> (r: ValueResult<()>)
        ensures
            r == Ok::<(), ValueError>(()),
            final(self)@ == MultiValuesView::Duration(values@),
    {
        *self = MultiValues::Duration(clone_items(values));
        Ok(())
    }

    /// Replaces the list with the single `Duration` item `value`.
    pub fn set_duration(&mut self, value: Duration) -> (r: ValueResult<()>)
        ensures
            r == Ok::<(), ValueError>(()),
            final(self)@ == MultiValuesView::Duration(seq![value]),
    {
        let v = vec![value];
        proof {
            assert(v@ =~= seq![value]);
        }
        *self = MultiValues::Duration(v);
        Ok(())
    }

    /// Appends the `Duration` item `value`; an empty `Duration` list takes it as its
    /// first item, and a list of another type is left unchanged with a type
    /// mismatch.
    pub fn add_duration(&mut self, value: Duration) -> (r: ValueResult<()>)
        ensures
            (r, final(self)@) == old(self)@.append_durations(seq![value]),
    {
        match self {
            MultiValues::Duration(v) => {
                let ghost before = v@;
                v.push(value);
                proof {
                    
                    assert(v@ =~= before + seq![value]);
                }
                Ok(())
            },
            MultiValues::Empty(DataType::Duration) => {
                let v = vec![value];
                proof {
                    assert(v@ =~= seq![value]);
                }
                *self = MultiValues::Duration(v);
                Ok(())
            },
            _ => Err(ValueError::TypeMismatch { expected: DataType::Duration, actual: self.data_type() }),
        }
    }

    /// Appends the `Duration` items `values`, as `add_duration` does one item.
    pub fn add_durations(&mut self, values: Vec<Duration>) -> (r: ValueResult<()>)
        ensures
            (r, final(self)@) == old(self)@.append_durations(values@),
    {
        match self {
            MultiValues::Duration(v) => {
                let ghost before = v@;
                append_items(v, values.as_slice());
                proof {
                    
                }
                Ok(())
            },
            MultiValues::Empty(DataType::Duration) => {
                *self = MultiValues::Duration(values);
                Ok(())
            },
            _ => Err(ValueError::TypeMismatch { expected: DataType::Duration, actual: self.data_type() }),
        }
    }

    /// Appends copies of the `Duration` items `values`, as `add_duration` does one
    /// item.
    pub fn add_durations_slice(&mut self, values: &[Duration]) -> (r: ValueResult<()>)
        ensures
            (r, final(self)@) == old(self)@.append_durations(values@),
    {
        match self {
            MultiValues::Duration(v) => {
                let ghost before = v@;
                append_items(v, values);
                proof {
                    
                }
                Ok(())
            },
            MultiValues::Empty(DataType::Duration) => {
                *self = MultiValues::Duration(clone_items(values));
                Ok(())
            },
            _ => Err(ValueError::TypeMismatch { expected: DataType::Duration, actual: self.data_type() }),
        }
    }

    /// Gets the `Url` items; none for an empty `Url` list, a type mismatch
    /// otherwise.
    pub fn get_urls(&self) -> (r: ValueResult<&[Url]>)
        ensures
            ok_view(r) == self@.typed_items(DataType::Url, self@.as_urls()),
    {
        match self {
            MultiValues::Url(v) => Ok(v.as_slice()),
            MultiValues::Empty(DataType::Url) => {
                let empty: &[Url] = &[];
                assert(empty@ =~= Seq::empty());
                Ok(empty)
            },
            _ => Err(ValueError::TypeMismatch { expected: DataType::Url, actual: self.data_type() }),
        }
    }

    /// Gets the first `Url` item; `NoValue` for a `Url` list without items,
    /// a type mismatch otherwise.
    pub fn get_first_url(&self) -> (r: ValueResult<Url>)
        ensures
            r == self@.typed_first(DataType::Url, self@.as_urls()),
    {
        match self {
            MultiValues::Url(v) => if v.len() > 0 {
                Ok(v[0].exact_clone())
            } else {
                Err(ValueError::NoValue)
            },
            MultiValues::Empty(DataType::Url) => Err(ValueError::NoValue),
            _ => Err(ValueError::TypeMismatch { expected: DataType::Url, actual: self.data_type() }),
        }
    }

    /// Replaces the list with the `Url` items `values`.
    pub fn set_urls(&mut self, values: Vec<Url>) -> (r: ValueResult<()>)
        ensures
            r == Ok::<(), ValueError>(()),
            final(self)@ == MultiValuesView::Url(values@),
    {
        *self = MultiValues::Url(values);
        Ok(())
    }

    /// Replaces the list with copies of the `Url` items `values`.
    pub fn set_urls_slice(&mut self, values: &[Url]) -> (r: ValueResult<()>)
        ensures
            r == Ok::<(), ValueError>(()),
            final(self)@ == MultiValuesView::Url(values@),
    {
        *self = MultiValues::Url(clone_items(values));
        Ok(())
    }

    /// Replaces the list with the single `Url` item `value`.
    pub fn set_url(&mut self, value: Url) -> (r: ValueResult<()>)
        ensures
            r == Ok::<(), ValueError>(()),
            final(self)@ == MultiValuesView::Url(seq![value]),
    {
        let v = vec![value];
        proof {
            assert(v@ =~= seq![value]);
        }
        *self = MultiValues::Url(v);
        Ok(())
    }

    /// Appends the `Url` item `value`; an empty `Url` list takes it as its
    /// first item, and a list of another type is left unchanged with a type
    /// mismatch.
    pub fn add_url(&mut self, value: Url) -> (r: ValueResult<()>)
        ensures
            (r, final(self)@) == old(self)@.append_urls(seq![value]),
    {
        match self {
            MultiValues::Url(v) => {
                let ghost before = v@;
                v.push(value);
                proof {
                    
                    assert(v@ =~= before + seq![value]);
                }
                Ok(())
            },
            MultiValues::Empty(DataType::Url) => {
                let v = vec![value];
                proof {
                    assert(v@ =~= seq![value]);
                }
                *self = MultiValues::Url(v);
                Ok(())
            },
            _ => Err(ValueError::TypeMismatch { expected: DataType::Url, actual: self.data_type() }),
        }
    }

    /// Appends the `Url` items `values`, as `add_url` does one item.
    pub fn add_urls(&mut self, values: Vec<Url>) -> (r: ValueResult<()>)
        ensures
            (r, final(self)@) == old(self)@.append_urls(values@),
    {
        match self {
            MultiValues::Url(v) => {
                let ghost before = v@;
                append_items(v, values.as_slice());
                proof {
                    
                }
                Ok(())
            },
            MultiValues::Empty(DataType::Url) => {
                *self = MultiValues::Url(values);
                Ok(())
            },
            _ => Err(ValueError::TypeMismatch { expected: DataType::Url, actual: self.data_type() }),
        }
    }

    /// Appends copies of the `Url` items `values`, as `add_url` does one
    /// item.
    pub fn add_urls_slice(&mut self, values: &[Url]) -> (r: ValueResult<()>)
        ensures
            (r, final(self)@) == old(self)@.append_urls(values@),
    {
        match self {
            MultiValues::Url(v) => {
                let ghost before = v@;
                append_items(v, values);
                proof {
                    
                }
                Ok(())
            },
            MultiValues::Empty(DataType::Url) => {
                *self = MultiValues::Url(clone_items(values));
                Ok(())
            },
            _ => Err(ValueError::TypeMismatch { expected: DataType::Url, actual: self.data_type() }),
        }
    }

    /// Gets the `StringMap` items; none for an empty `StringMap` list, a type mismatch
    /// otherwise.
    pub fn get_string_maps(&self) -> (r: ValueResult<&[HashMap<String, String>]>)
        ensures
            match r {
                Ok(s) => self@.typed_items(DataType::StringMap, self@.as_string_maps()) == Ok::<Seq<Map<String, String>>, ValueError>(maps_view(s@)),
                Err(e) => self@.typed_items(DataType::StringMap, self@.as_string_maps()) == Err::<Seq<Map<String, String>>, ValueError>(e),
            },
    {
        match self {
            MultiValues::StringMap(v) => Ok(v.as_slice()),
            MultiValues::Empty(DataType::StringMap) => {
                let empty: &[HashMap<String, String>] = &[];
                assert(maps_view(empty@) =~= Seq::empty());
                Ok(empty)
            },
            _ => Err(ValueError::TypeMismatch { expected: DataType::StringMap, actual: self.data_type() }),
        }
    }

    /// Gets the first `StringMap` item; `NoValue` for a `StringMap` list without items,
    /// a type mismatch otherwise.
    pub fn get_first_string_map(&self) -> (r: ValueResult<HashMap<String, String>>)
        ensures
            ok_view(r) == self@.typed_first(DataType::StringMap, self@.as_string_maps()),
    {
        match self {
            MultiValues::StringMap(v) => if v.len() > 0 {
                Ok(v[0].clone())
            } else {
                Err(ValueError::NoValue)
            },
            MultiValues::Empty(DataType::StringMap) => Err(ValueError::NoValue),
            _ => Err(ValueError::TypeMismatch { expected: DataType::StringMap, actual: self.data_type() }),
        }
    }

    /// Replaces the list with the `StringMap` items `values`.
    pub fn set_string_maps(&mut self, values: Vec<HashMap<String, String>>) -> (r: ValueResult<()>)
        ensures
            r == Ok::<(), ValueError>(()),
            final(self)@ == MultiValuesView::StringMap(maps_view(values@)),
    {
        *self = MultiValues::StringMap(values);
        Ok(())
    }

    /// Replaces the list with copies of the `StringMap` items `values`.
    pub fn set_string_maps_slice(&mut self, values: &[HashMap<String, String>]) -> (r: ValueResult<()>)
        ensures
            r == Ok::<(), ValueError>(()),
            final(self)@ == MultiValuesView::StringMap(maps_view(values@)),
    {
        *self = MultiValues::StringMap(clone_maps(values));
        Ok(())
    }

    /// Replaces the list with the single `StringMap` item `value`.
    pub fn set_string_map(&mut self, value: HashMap<String, String>) -> (r: ValueResult<()>)
        ensures
            r == Ok::<(), ValueError>(()),
            final(self)@ == MultiValuesView::StringMap(seq![value@]),
    {
        let v = vec![value];
        proof {
            assert(v@ =~= seq![value]);
        }
        proof {
            assert(maps_view(v@) =~= seq![value@]);
        }
        *self = MultiValues::StringMap(v);
        Ok(())
    }

    /// Appends the `StringMap` item `value`; an empty `StringMap` list takes it as its
    /// first item, and a list of another type is left unchanged with a type
    /// mismatch.
    pub fn add_string_map(&mut self, value: HashMap<String, String>) -> (r: ValueResult<()>)
        ensures
            (r, final(self)@) == old(self)@.append_string_maps(seq![value@]),
    {
        match self {
            MultiValues::StringMap(v) => {
                let ghost before = v@;
                v.push(value);
                proof {
                    lemma_maps_view_push(before, value);
                    assert(maps_view(v@) =~= maps_view(before) + seq![value@]);
                }
                Ok(())
            },
            MultiValues::Empty(DataType::StringMap) => {
                let v = vec![value];
                proof {
                    assert(v@ =~= seq![value]);
                    assert(maps_view(v@) =~= seq![value@]);
                }
                *self = MultiValues::StringMap(v);
                Ok(())
            },
            _ => Err(ValueError::TypeMismatch { expected: DataType::StringMap, actual: self.data_type() }),
        }
    }

    /// Appends the `StringMap` items `values`, as `add_string_map` does one item.
    pub fn add_string_maps(&mut self, values: Vec<HashMap<String, String>>) -> (r: ValueResult<()>)
        ensures
            (r, final(self)@) == old(self)@.append_string_maps(maps_view(values@)),
    {
        match self {
            MultiValues::StringMap(v) => {
                let ghost before = v@;
                append_maps(v, values.as_slice());
                proof {
                    lemma_maps_view_add(before, values@);
                }
                Ok(())
            },
            MultiValues::Empty(DataType::StringMap) => {
                *self = MultiValues::StringMap(values);
                Ok(())
            },
            _ => Err(ValueError::TypeMismatch { expected: DataType::StringMap, actual: self.data_type() }),
        }
    }

    /// Appends copies of the `StringMap` items `values`, as `add_string_map` does one
    /// item.
    pub fn add_string_maps_slice(&mut self, values: &[HashMap<String, String>]) -> (r: ValueResult<()>)
        ensures
            (r, final(self)@) == old(self)@.append_string_maps(maps_view(values@)),
    {
        match self {
            MultiValues::StringMap(v) => {
                let ghost before = v@;
                append_maps(v, values);
                proof {
                    lemma_maps_view_add(before, values@);
                }
                Ok(())
            },
            MultiValues::Empty(DataType::StringMap) => {
                *self = MultiValues::StringMap(clone_maps(values));
                Ok(())
            },
            _ => Err(ValueError::TypeMismatch { expected: DataType::StringMap, actual: self.data_type() }),
        }
    }

    /// Gets the `Json` items; none for an empty `Json` list, a type mismatch
    /// otherwise.
    pub fn get_jsons(&self) -> (r: ValueResult<&[JsonValue]>)
        ensures
            ok_view(r) == self@.typed_items(DataType::Json, self@.as_jsons()),
    {
        match self {
            MultiValues::Json(v) => Ok(v.as_slice()),
            MultiValues::Empty(DataType::Json) => {
                let empty: &[JsonValue] = &[];
                assert(empty@ =~= Seq::empty());
                Ok(empty)
            },
            _ => Err(ValueError::TypeMismatch { expected: DataType::Json, actual: self.data_type() }),
        }
    }

    /// Gets the first `Json` item; `NoValue` for a `Json` list without items,
    /// a type mismatch otherwise.
    pub fn get_first_json(&self) -> (r: ValueResult<JsonValue>)
        ensures
            r == self@.typed_first(DataType::Json, self@.as_jsons()),
    {
        match self {
            MultiValues::Json(v) => if v.len() > 0 {
                Ok(v[0].exact_clone())
            } else {
                Err(ValueError::NoValue)
            },
            MultiValues::Empty(DataType::Json) => Err(ValueError::NoValue),
            _ => Err(ValueError::TypeMismatch { expected: DataType::Json, actual: self.data_type() }),
        }
    }

    /// Replaces the list with the `Json` items `values`.
    pub fn set_jsons(&mut self, values: Vec<JsonValue>) -> (r: ValueResult<()>)
        ensures
            r == Ok::<(), ValueError>(()),
            final(self)@ == MultiValuesView::Json(values@),
    {
        *self = MultiValues::Json(values);
        Ok(())
    }

    /// Replaces the list with copies of the `Json` items `values`.
    pub fn set_jsons_slice(&mut self, values: &[JsonValue]) -> (r: ValueResult<()>)
        ensures
            r == Ok::<(), ValueError>(()),
            final(self)@ == MultiValuesView::Json(values@),
    {
        *self = MultiValues::Json(clone_items(values));
        Ok(())
    }

    /// Replaces the list with the single `Json` item `value`.
    pub fn set_json(&mut self, value: JsonValue) -> (r: ValueResult<()>)
        ensures
            r == Ok::<(), ValueError>(()),
            final(self)@ == MultiValuesView::Json(seq![value]),
    {
        let v = vec![value];
        proof {
            assert(v@ =~= seq![value]);
        }
        *self = MultiValues::Json(v);
        Ok(())
    }

    /// Appends the `Json` item `value`; an empty `Json` list takes it as its
    /// first item, and a list of another type is left unchanged with a type
    /// mismatch.
    pub fn add_json(&mut self, value: JsonValue) -> (r: ValueResult<()>)
        ensures
            (r, final(self)@) == old(self)@.append_jsons(seq![value]),
    {
        match self {
            MultiValues::Json(v) => {
                let ghost before = v@;
                v.push(value);
                proof {
                    
                    assert(v@ =~= before + seq![value]);
                }
                Ok(())
            },
            MultiValues::Empty(DataType::Json) => {
                let v = vec![value];
                proof {
                    assert(v@ =~= seq![value]);
                }
                *self = MultiValues::Json(v);
                Ok(())
            },
            _ => Err(ValueError::TypeMismatch { expected: DataType::Json, actual: self.data_type() }),
        }
    }

    /// Appends the `Json` items `values`, as `add_json` does one item.
    pub fn add_jsons(&mut self, values: Vec<JsonValue>) -> (r: ValueResult<()>)
        ensures
            (r, final(self)@) == old(self)@.append_jsons(values@),
    {
        match self {
            MultiValues::Json(v) => {
                let ghost before = v@;
                append_items(v, values.as_slice());
                proof {
                    
                }
                Ok(())
            },
            MultiValues::Empty(DataType::Json) => {
                *self = MultiValues::Json(values);
                Ok(())
            },
            _ => Err(ValueError::TypeMismatch { expected: DataType::Json, actual: self.data_type() }),
        }
    }

    /// Appends copies of the `Json` items `values`, as `add_json` does one
    /// item.
    pub fn add_jsons_slice(&mut self, values: &[JsonValue]) -> (r: ValueResult<()>)
        ensures
            (r, final(self)@) == old(self)@.append_jsons(values@),
    {
        match self {
            MultiValues::Json(v) => {
                let ghost before = v@;
                append_items(v, values);
                proof {
                    
                }
                Ok(())
            },
            MultiValues::Empty(DataType::Json) => {
                *self = MultiValues::Json(clone_items(values));
                Ok(())
            },
            _ => Err(ValueError::TypeMismatch { expected: DataType::Json, actual: self.data_type() }),
        }
    }

}

} // verus!
