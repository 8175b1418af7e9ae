use qubit_value::{DataType, MultiValues, NamedMultiValues, NamedValue, Value, ValueError};

use std::time::Duration;

#[test]
fn law_get_after_set_on_examples() {
    let mut v = Value::Empty(DataType::Bool);
    v.set_int64(-9).unwrap();
    assert_eq!(v.get_int64().unwrap(), -9);
    assert_eq!(
        v.get_uint64().unwrap_err(),
        ValueError::TypeMismatch { expected: DataType::UInt64, actual: DataType::Int64 }
    );
    let mut l = MultiValues::Empty(DataType::Bool);
    l.set_uint32s(vec![4, 5]).unwrap();
    assert_eq!(l.get_uint32s().unwrap(), &[4, 5]);
}

#[test]
fn law_clear_keeps_type_on_examples() {
    let mut v = Value::String("abc".to_string());
    v.clear();
    assert_eq!(v, Value::Empty(DataType::String));
    let mut l = MultiValues::Char(vec!['a']);
    l.clear();
    assert_eq!(l.data_type(), DataType::Char);
    assert_eq!(l.count(), 0);
    assert_eq!(l.to_value(), Value::Empty(DataType::Char));
}

#[test]
fn law_integer_conversion_keeps_number_on_examples() {
    assert_eq!(Value::Int64(-42).to::<i8>().unwrap(), -42i8);
    assert_eq!(Value::UInt128(65535).to::<u16>().unwrap(), 65535u16);
    assert!(Value::UInt128(65536).to::<u16>().is_err());
    assert!(Value::Int8(-1).to::<u128>().is_err());
    assert_eq!(Value::Int8(i8::MIN).to::<i128>().unwrap(), -128i128);
}

#[test]
fn law_value_converts_to_itself_on_examples() {
    assert_eq!(Value::UInt64(u64::MAX).to::<u64>().unwrap(), u64::MAX);
    assert_eq!(Value::Int16(i16::MIN).to::<i16>().unwrap(), i16::MIN);
    assert!(Value::Bool(true).to::<bool>().unwrap());
    assert_eq!(Value::String("t".to_string()).to::<String>().unwrap(), "t");
}

#[test]
fn law_integer_text_round_trip_on_examples() {
    for x in [i64::MIN, -1, 0, 1, i64::MAX] {
        let text = Value::Int64(x).to::<String>().unwrap();
        assert_eq!(Value::String(text).to::<i64>().unwrap(), x);
    }
    for x in [0u128, 9, 10, u128::MAX] {
        let text = Value::UInt128(x).to::<String>().unwrap();
        assert_eq!(Value::String(text).to::<u128>().unwrap(), x);
    }
}

#[test]
fn law_duration_text_round_trip_on_examples() {
    for d in [Duration::ZERO, Duration::new(1, 1), Duration::from_secs(30), Duration::new(u64::MAX, 999_999_999)] {
        let text = Value::Duration(d).to::<String>().unwrap();
        assert_eq!(Value::String(text).to::<Duration>().unwrap(), d);
    }
}

#[test]
fn law_first_is_first_of_items_on_examples() {
    let l = MultiValues::Int8(vec![3, 4]);
    assert_eq!(l.get_first_int8().unwrap(), l.get_int8s().unwrap()[0]);
    let e = MultiValues::Int8(vec![]);
    assert_eq!(e.get_int8s().unwrap().len(), 0);
    assert_eq!(e.get_first_int8().unwrap_err(), ValueError::NoValue);
}

#[test]
fn law_add_appends_on_examples() {
    let mut l = MultiValues::UInt8(vec![1, 2]);
    l.add_uint8s(vec![3, 4]).unwrap();
    assert_eq!(l.get_uint8s().unwrap(), &[1, 2, 3, 4]);
    assert_eq!(l.count(), 4);
}

#[test]
fn law_merge_appends_on_examples() {
    let mut a = MultiValues::Bool(vec![true]);
    let b = MultiValues::Bool(vec![false, false]);
    a.merge(&b).unwrap();
    assert_eq!(a.count(), 3);
    assert_eq!(a.get_bools().unwrap(), &[true, false, false]);
}

#[test]
fn law_value_list_round_trip_on_examples() {
    for v in [Value::Int32(5), Value::Empty(DataType::Int32), Value::String("s".to_string())] {
        assert_eq!(MultiValues::from_value(v.clone()).to_value(), v);
    }
}

#[test]
fn law_named_round_trip_on_examples() {
    let nv = NamedValue::new("n", Value::Char('c'));
    let back = NamedMultiValues::from(nv.clone()).to_named_value();
    assert_eq!(back, nv);
}
