use qubit_value::{DataType, MultiValues, NamedMultiValues, NamedValue, Value};

#[test]
fn named_value_operations() {
    let mut nv = NamedValue::new("timeout", Value::new(30i32));
    assert_eq!(nv.name(), "timeout");
    let timeout: i32 = nv.get().unwrap();
    assert_eq!(timeout, 30);
    nv.set_name("read_timeout");
    assert_eq!(nv.name(), "read_timeout");
    nv.value_mut().set(45i32).unwrap();
    assert_eq!(nv.get_int32().unwrap(), 45);
    assert_eq!(nv.value(), &Value::Int32(45));
    let (name, value) = nv.into_parts();
    assert_eq!(name, "read_timeout");
    assert_eq!(value, Value::Int32(45));
}

#[test]
fn named_multi_values_operations() {
    let mut nmv = NamedMultiValues::new("ports", MultiValues::new(vec![8080i32, 8081]));
    nmv.value_mut().add(8082).unwrap();
    let first_port: i32 = nmv.get_first().unwrap();
    assert_eq!(first_port, 8080);
    assert_eq!(nmv.count(), 3);
    let first_named = nmv.to_named_value();
    assert_eq!(first_named.name(), "ports");
    let val: i32 = first_named.get().unwrap();
    assert_eq!(val, 8080);
    nmv.set_name("other");
    assert_eq!(nmv.name(), "other");
    assert_eq!(nmv.value(), &MultiValues::Int32(vec![8080, 8081, 8082]));
}

#[test]
fn named_value_into_named_multi_values() {
    let nv = NamedValue::new("flag", Value::Bool(true));
    let nmv = NamedMultiValues::from(nv);
    assert_eq!(nmv.name(), "flag");
    assert_eq!(nmv.value(), &MultiValues::Bool(vec![true]));
    let empty = NamedMultiValues::from_named_value(NamedValue::new("e", Value::Empty(DataType::Url)));
    assert_eq!(empty.value(), &MultiValues::Empty(DataType::Url));
    assert_eq!(empty.to_named_value().value(), &Value::Empty(DataType::Url));
}
