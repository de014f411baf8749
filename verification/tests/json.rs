use rmqtt::json::{push_field, JsonValue};

#[test]
fn json_scalars() {
    assert_eq!(JsonValue::string("x"), JsonValue::String(String::from("x")));
    assert_eq!(JsonValue::number(-3), JsonValue::Number(-3));
    assert_eq!(JsonValue::opt_string(&None), JsonValue::Null);
    assert_eq!(JsonValue::opt_string(&Some(String::from("a"))), JsonValue::String(String::from("a")));
    assert_eq!(JsonValue::opt_number(Some(u32::MAX)), JsonValue::Number(4294967295));
    assert_eq!(JsonValue::opt_number(None), JsonValue::Null);
    assert_eq!(JsonValue::opt_bool(Some(false)), JsonValue::Bool(false));
    assert_eq!(JsonValue::opt_bool(None), JsonValue::Null);
}

#[test]
fn json_bytes_are_an_array_of_numbers() {
    assert_eq!(
        JsonValue::bytes(&vec![0, 127, 255]),
        JsonValue::Array(vec![JsonValue::Number(0), JsonValue::Number(127), JsonValue::Number(255)])
    );
    assert_eq!(JsonValue::bytes(&vec![]), JsonValue::Array(vec![]));
    assert_eq!(JsonValue::opt_bytes(&None), JsonValue::Null);
    assert_eq!(JsonValue::opt_bytes(&Some(vec![9])), JsonValue::Array(vec![JsonValue::Number(9)]));
}

#[test]
fn json_properties_are_pairs() {
    let p = vec![(String::from("a"), String::from("1")), (String::from("a"), String::from("2"))];
    assert_eq!(
        JsonValue::properties(&p),
        JsonValue::Array(vec![
            JsonValue::Array(vec![JsonValue::String(String::from("a")), JsonValue::String(String::from("1"))]),
            JsonValue::Array(vec![JsonValue::String(String::from("a")), JsonValue::String(String::from("2"))]),
        ])
    );
}

#[test]
fn json_object_keeps_member_order() {
    let mut fields = Vec::new();
    push_field(&mut fields, "b", JsonValue::Null);
    push_field(&mut fields, "a", JsonValue::Bool(true));
    assert_eq!(
        JsonValue::object(fields),
        JsonValue::Object(vec![(String::from("b"), JsonValue::Null), (String::from("a"), JsonValue::Bool(true))])
    );
    assert_eq!(JsonValue::array(vec![JsonValue::Null]), JsonValue::Array(vec![JsonValue::Null]));
}
