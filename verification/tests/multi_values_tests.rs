use qubit_value::multi_values::{
    conversion_failure_error, first_conversion_result, item_conversion_error, list_conversion_result,
    ConversionFailure, ConversionFailureKind,
};
use qubit_value::{collect_strings, DataType, MultiValues, MultiValuesConstructorArg, Value, ValueError};

use std::collections::HashMap;

#[test]
fn multi_values_generic_operations() {
    let mut ports = MultiValues::new(vec![8080i32, 8081, 8082]);
    assert_eq!(ports.count(), 3);
    assert_eq!(ports.get_int32s().unwrap(), &[8080, 8081, 8082]);
    let nums: Vec<i32> = ports.get().unwrap();
    assert_eq!(nums, vec![8080, 8081, 8082]);
    let first: i32 = ports.get_first().unwrap();
    assert_eq!(first, 8080);
    ports.add(8083).unwrap();
    ports.add(vec![8084, 8085]).unwrap();
    ports.add(&[8086, 8087][..]).unwrap();
    assert_eq!(ports.get_int32s().unwrap(), &[8080, 8081, 8082, 8083, 8084, 8085, 8086, 8087]);
    ports.set(vec![9001, 9002]).unwrap();
    assert_eq!(ports.get_int32s().unwrap(), &[9001, 9002]);
}

#[test]
fn multi_values_set_forms() {
    let mut mv = MultiValues::Empty(DataType::Int32);
    mv.set(vec![42, 100, 200]).unwrap();
    assert_eq!(mv.get_int32s().unwrap(), &[42, 100, 200]);
    let mut mv = MultiValues::Empty(DataType::Int32);
    let slice = &[7, 8, 9][..];
    mv.set(slice).unwrap();
    assert_eq!(mv.get_int32s().unwrap(), &[7, 8, 9]);
    let mut mv = MultiValues::Empty(DataType::Int32);
    mv.set(42).unwrap();
    assert_eq!(mv.get_int32s().unwrap(), &[42]);
    let mut mv = MultiValues::Empty(DataType::String);
    mv.set(vec!["hello".to_string(), "world".to_string()]).unwrap();
    assert_eq!(mv.get_strings().unwrap(), &["hello", "world"]);
    mv.set("single").unwrap();
    assert_eq!(mv.get_strings().unwrap(), &["single"]);
    mv.set(vec!["a", "b"]).unwrap();
    assert_eq!(mv.get_strings().unwrap(), &["a", "b"]);
    let owned = vec![1u8, 2];
    mv.set(&owned).unwrap();
    assert_eq!(mv.get_uint8s().unwrap(), &[1, 2]);
}

#[test]
fn multi_values_set_ignores_previous_type() {
    let mut mv = MultiValues::Bool(vec![true]);
    mv.set_int64s(vec![1, 2]).unwrap();
    assert_eq!(mv.data_type(), DataType::Int64);
    mv.set_char('z').unwrap();
    assert_eq!(mv.get_chars().unwrap(), &['z']);
    mv.set_strings_slice(&["p".to_string()]).unwrap();
    assert_eq!(mv.get_first_string().unwrap(), "p");
}

#[test]
fn multi_values_add_checks_type() {
    let mut mv = MultiValues::Int32(vec![1]);
    assert_eq!(
        mv.add_string("x".to_string()).unwrap_err(),
        ValueError::TypeMismatch { expected: DataType::String, actual: DataType::Int32 }
    );
    assert_eq!(mv.get_int32s().unwrap(), &[1]);
    let mut empty = MultiValues::Empty(DataType::Bool);
    empty.add_bool(true).unwrap();
    assert_eq!(empty, MultiValues::Bool(vec![true]));
    let mut empty = MultiValues::Empty(DataType::Bool);
    assert_eq!(
        empty.add_int8(1).unwrap_err(),
        ValueError::TypeMismatch { expected: DataType::Int8, actual: DataType::Bool }
    );
    assert_eq!(empty, MultiValues::Empty(DataType::Bool));
    let mut strings = MultiValues::String(vec![]);
    strings.add("a").unwrap();
    strings.add(vec!["b", "c"]).unwrap();
    strings.add_strings_slice(&["d".to_string()]).unwrap();
    assert_eq!(strings.get_strings().unwrap(), &["a", "b", "c", "d"]);
}

#[test]
fn multi_values_getters_on_empty() {
    let empty = MultiValues::Empty(DataType::Int32);
    assert_eq!(empty.get_int32s().unwrap(), &[] as &[i32]);
    assert_eq!(empty.get_first_int32().unwrap_err(), ValueError::NoValue);
    assert_eq!(
        empty.get_strings().unwrap_err(),
        ValueError::TypeMismatch { expected: DataType::String, actual: DataType::Int32 }
    );
    let none = MultiValues::Int32(vec![]);
    assert_eq!(none.get_first_int32().unwrap_err(), ValueError::NoValue);
    assert_eq!(
        none.get_first::<bool>().unwrap_err(),
        ValueError::TypeMismatch { expected: DataType::Bool, actual: DataType::Int32 }
    );
}

#[test]
fn multi_values_count_clear_set_type() {
    let mut values = MultiValues::Int32(vec![1, 2, 3]);
    assert!(!values.is_empty());
    values.clear();
    assert!(values.is_empty());
    assert_eq!(values.data_type(), DataType::Int32);
    assert_eq!(values, MultiValues::Int32(vec![]));
    let mut values = MultiValues::Int32(vec![1, 2, 3]);
    values.set_type(DataType::String);
    assert!(values.is_empty());
    assert_eq!(values.data_type(), DataType::String);
    let mut same = MultiValues::Int32(vec![1]);
    same.set_type(DataType::Int32);
    assert_eq!(same, MultiValues::Int32(vec![1]));
    assert_eq!(MultiValues::default(), MultiValues::Empty(DataType::String));
    assert_eq!(MultiValues::Empty(DataType::Url).count(), 0);
}

#[test]
fn multi_values_merge() {
    let mut a = MultiValues::Int32(vec![1, 2]);
    let b = MultiValues::Int32(vec![3, 4]);
    a.merge(&b).unwrap();
    assert_eq!(a.get_int32s().unwrap(), &[1, 2, 3, 4]);
    let mut c = MultiValues::Empty(DataType::Int32);
    c.merge(&b).unwrap();
    assert_eq!(c, MultiValues::Int32(vec![3, 4]));
    let mut d = MultiValues::Int32(vec![9]);
    d.merge(&MultiValues::Empty(DataType::Int32)).unwrap();
    assert_eq!(d, MultiValues::Int32(vec![9]));
    let mut e = MultiValues::Int32(vec![9]);
    assert_eq!(
        e.merge(&MultiValues::String(vec!["x".to_string()])).unwrap_err(),
        ValueError::TypeMismatch { expected: DataType::Int32, actual: DataType::String }
    );
    assert_eq!(e, MultiValues::Int32(vec![9]));
    let mut m1 = HashMap::new();
    m1.insert("a".to_string(), "1".to_string());
    let mut maps = MultiValues::StringMap(vec![m1.clone()]);
    maps.merge(&MultiValues::StringMap(vec![HashMap::new()])).unwrap();
    assert_eq!(maps.get_string_maps().unwrap(), &[m1, HashMap::new()]);
}

#[test]
fn multi_values_to_value_and_back() {
    let a = MultiValues::Int32(vec![1, 2, 3, 4]);
    let single = a.to_value();
    let first_val: i32 = single.get().unwrap();
    assert_eq!(first_val, 1);
    assert_eq!(MultiValues::Int32(vec![]).to_value(), Value::Empty(DataType::Int32));
    assert_eq!(MultiValues::Empty(DataType::Url).to_value(), Value::Empty(DataType::Url));
    assert_eq!(MultiValues::from(Value::Int16(5)), MultiValues::Int16(vec![5]));
    assert_eq!(MultiValues::from(Value::Empty(DataType::Date)), MultiValues::Empty(DataType::Date));
    assert_eq!(
        MultiValues::from_value(Value::String("s".to_string())),
        MultiValues::String(vec!["s".to_string()])
    );
    assert_eq!(MultiValues::String(vec!["x".to_string()]).value_at(0), Value::String("x".to_string()));
    assert_eq!(MultiValues::Char(vec!['a', 'b']).duplicate(), MultiValues::Char(vec!['a', 'b']));
}

#[test]
fn item_conversion_error_names_the_index() {
    assert_eq!(
        item_conversion_error(1, &ValueError::ConversionError("Cannot convert 'x' to i32".to_string())),
        ValueError::ConversionError(
            "Cannot convert value at index 1: Conversion error: Cannot convert 'x' to i32".to_string()
        )
    );
    assert_eq!(
        item_conversion_error(12, &ValueError::NoValue),
        ValueError::ConversionError("Cannot convert value at index 12: No value".to_string())
    );
}

#[test]
fn multi_values_array_forms() {
    let mut mv = MultiValues::Empty(DataType::Int64);
    mv.set([1i64, 2, 3]).unwrap();
    assert_eq!(mv.get_int64s().unwrap(), &[1, 2, 3]);
    mv.add(&[4i64, 5]).unwrap();
    assert_eq!(mv.get_int64s().unwrap(), &[1, 2, 3, 4, 5]);
    mv.set(["a", "b"]).unwrap();
    assert_eq!(mv.get_strings().unwrap(), &["a", "b"]);
    mv.add(&["c"]).unwrap();
    assert_eq!(mv.get_strings().unwrap(), &["a", "b", "c"]);
    assert_eq!([true, false].into_multi_values(), MultiValues::Bool(vec![true, false]));
    assert_eq!((&["x", "y"]).into_multi_values(), MultiValues::String(vec!["x".to_string(), "y".to_string()]));
}

#[test]
fn multi_values_construction_forms() {
    assert_eq!(vec![1u16, 2].into_multi_values(), MultiValues::UInt16(vec![1, 2]));
    assert_eq!((&[true][..]).into_multi_values(), MultiValues::Bool(vec![true]));
    assert_eq!(vec!["a", "b"].into_multi_values(), MultiValues::String(vec!["a".to_string(), "b".to_string()]));
    assert_eq!((&vec!["c"]).into_multi_values(), MultiValues::String(vec!["c".to_string()]));
    assert_eq!(MultiValues::new(vec!["x".to_string()]).count(), 1);
}

#[test]
fn collect_strings_keeps_order() {
    assert_eq!(collect_strings(&["a", "bc", ""]), vec!["a".to_string(), "bc".to_string(), "".to_string()]);
    assert_eq!(collect_strings(&[]), Vec::<String>::new());
}

#[test]
fn multi_values_float_bits_and_firsts() {
    let mut f = MultiValues::Float64(vec![]);
    f.add_float64_bits(2.5f64.to_bits()).unwrap();
    assert_eq!(f64::from_bits(f.get_first_float64_bits().unwrap()), 2.5);
    assert_eq!(f.to_value().to::<i32>().unwrap(), 2);
    let j: serde_json::Value = serde_json::from_str("null").unwrap();
    let js = MultiValues::Json(vec![j.clone()]);
    assert_eq!(js.get_first_json().unwrap(), j);
    let jsons: Vec<serde_json::Value> = js.get().unwrap();
    assert_eq!(jsons, vec![j]);
}

fn failure(kind: ConversionFailureKind, from: Option<DataType>, to: DataType, message: &str) -> ConversionFailure {
    ConversionFailure { kind, from, to, message: message.to_string() }
}

#[test]
fn conversion_failure_maps_to_library_errors() {
    assert_eq!(
        conversion_failure_error(failure(ConversionFailureKind::Missing, None, DataType::Int32, "missing")),
        ValueError::NoValue
    );
    assert_eq!(
        conversion_failure_error(failure(ConversionFailureKind::EmptyCollection, None, DataType::Int32, "empty")),
        ValueError::NoValue
    );
    assert_eq!(
        conversion_failure_error(failure(
            ConversionFailureKind::Unsupported,
            Some(DataType::Bool),
            DataType::Date,
            "unsupported"
        )),
        ValueError::ConversionFailed { from: DataType::Bool, to: DataType::Date }
    );
    assert_eq!(
        conversion_failure_error(failure(ConversionFailureKind::Unsupported, None, DataType::Date, "unsupported")),
        ValueError::ConversionError("unsupported".to_string())
    );
    assert_eq!(
        conversion_failure_error(failure(
            ConversionFailureKind::InvalidValue,
            Some(DataType::String),
            DataType::Int32,
            "not a number"
        )),
        ValueError::ConversionError("not a number".to_string())
    );
    assert_eq!(
        conversion_failure_error(failure(ConversionFailureKind::LimitExceeded, None, DataType::String, "too long")),
        ValueError::ConversionError("too long".to_string())
    );
}

#[test]
fn first_conversion_result_of_engine_outcomes() {
    let empty = MultiValues::Empty(DataType::Int32);
    assert_eq!(first_conversion_result::<i64>(&empty, None), Err(ValueError::NoValue));
    let list = MultiValues::new(vec![7i32, 8]);
    assert_eq!(first_conversion_result::<i64>(&list, Some(Ok(7))), Ok(7));
    assert_eq!(
        first_conversion_result::<i64>(
            &list,
            Some(Err(failure(ConversionFailureKind::Unsupported, Some(DataType::Int32), DataType::Url, "no")))
        ),
        Err(ValueError::ConversionFailed { from: DataType::Int32, to: DataType::Url })
    );
}

#[test]
fn list_conversion_result_of_engine_outcomes() {
    let empty = MultiValues::Empty(DataType::String);
    assert_eq!(list_conversion_result::<i32>(&empty, None), Ok(Vec::new()));
    let list = MultiValues::new(vec!["1".to_string(), "x".to_string()]);
    assert_eq!(list_conversion_result::<i32>(&list, Some(Ok(vec![1, 2]))), Ok(vec![1, 2]));
    assert_eq!(
        list_conversion_result::<i32>(
            &list,
            Some(Err((1, failure(ConversionFailureKind::InvalidValue, Some(DataType::String), DataType::Int32, "bad"))))
        ),
        Err(ValueError::ConversionError("Cannot convert value at index 1: Conversion error: bad".to_string()))
    );
    assert_eq!(
        list_conversion_result::<i32>(
            &list,
            Some(Err((0, failure(ConversionFailureKind::Missing, None, DataType::Int32, "missing"))))
        ),
        Err(ValueError::ConversionError("Cannot convert value at index 0: No value".to_string()))
    );
}
