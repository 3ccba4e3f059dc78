use reflect_registry::value::{TypeTag, Value};

#[test]
fn tags_follow_variants() {
    assert_eq!(Value::Int(-1).tag(), TypeTag::Int);
    assert_eq!(Value::UInt(1).tag(), TypeTag::UInt);
    assert_eq!(Value::Bool(true).tag(), TypeTag::Bool);
    assert_eq!(Value::Char('q').tag(), TypeTag::Char);
    assert_eq!(Value::Str("s".to_string()).tag(), TypeTag::Str);
}

#[test]
fn initial_values_are_zero_like() {
    assert_eq!(Value::initial(TypeTag::Int), Value::Int(0));
    assert_eq!(Value::initial(TypeTag::UInt), Value::UInt(0));
    assert_eq!(Value::initial(TypeTag::Bool), Value::Bool(false));
    assert_eq!(Value::initial(TypeTag::Char), Value::Char('\0'));
    assert_eq!(Value::initial(TypeTag::Str), Value::Str(String::new()));
}

#[test]
fn duplicate_is_equal() {
    let v = Value::Str("copy me".to_string());
    assert_eq!(v.duplicate(), v);
    assert_eq!(Value::Int(i64::MIN).duplicate(), Value::Int(i64::MIN));
}
