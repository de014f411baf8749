use std::collections::hash_map::DefaultHasher;
use std::hash::{Hash, Hasher};

use rmqtt::identity::{decimal_string, Id};
use rmqtt::json::JsonValue;

fn sample(username: Option<&str>) -> Id {
    Id::new(
        7,
        String::from("127.0.0.1:1883"),
        String::from("10.0.0.2:50123"),
        String::from("client-a"),
        username.map(String::from),
    )
}

fn hash_of(id: &Id) -> u64 {
    let mut h = DefaultHasher::new();
    id.hash(&mut h);
    h.finish()
}

#[test]
fn id_text_is_node_local_remote_client() {
    let id = sample(Some("alice"));
    assert_eq!(id.as_str(), "7@127.0.0.1:1883/10.0.0.2:50123/client-a");
    assert_eq!(id.to_string(), "7@127.0.0.1:1883/10.0.0.2:50123/client-a");
}

#[test]
fn id_fields_are_kept() {
    let id = sample(Some("alice"));
    assert_eq!(id.node_id(), 7);
    assert_eq!(id.local_addr(), "127.0.0.1:1883");
    assert_eq!(id.remote_addr(), "10.0.0.2:50123");
    assert_eq!(id.client_id(), "client-a");
    assert_eq!(id.username(), "alice");
}

#[test]
fn id_username_defaults_to_undefined() {
    assert_eq!(sample(None).username(), "undefined");
}

#[test]
fn id_node_is_node_id_and_local_addr() {
    assert_eq!(sample(None).node(), "7/127.0.0.1:1883");
}

#[test]
fn id_from_client_id_is_degenerate() {
    let id = Id::from(String::from("only"));
    assert_eq!(id.as_str(), "0@//only");
    assert_eq!(id.node_id(), 0);
    assert_eq!(id.local_addr(), "");
    assert_eq!(id.remote_addr(), "");
    assert_eq!(id.username(), "undefined");
}

#[test]
fn ids_differing_only_in_username_are_equal() {
    let a = sample(Some("alice"));
    let b = sample(Some("bob"));
    let c = sample(None);
    assert!(a == b);
    assert!(a == c);
    assert_eq!(hash_of(&a), hash_of(&b));
    assert_eq!(hash_of(&a), hash_of(&c));
}

#[test]
fn ids_differing_in_client_id_are_not_equal() {
    let a = sample(None);
    let b = Id::new(
        7,
        String::from("127.0.0.1:1883"),
        String::from("10.0.0.2:50123"),
        String::from("client-b"),
        None,
    );
    assert!(a != b);
}

#[test]
fn id_clone_shares_the_identity() {
    let a = sample(Some("alice"));
    let b = a.clone();
    assert!(a == b);
    assert_eq!(b.username(), "alice");
}

#[test]
fn id_json_has_exactly_the_four_members() {
    let id = sample(Some("alice"));
    let expected = JsonValue::Object(vec![
        (String::from("node"), JsonValue::String(String::from("7/127.0.0.1:1883"))),
        (String::from("ipaddress"), JsonValue::String(String::from("10.0.0.2:50123"))),
        (String::from("clientid"), JsonValue::String(String::from("client-a"))),
        (String::from("username"), JsonValue::String(String::from("alice"))),
    ]);
    assert_eq!(id.to_json(), expected);
}

#[test]
fn decimal_string_writes_numbers() {
    assert_eq!(decimal_string(0), "0");
    assert_eq!(decimal_string(9), "9");
    assert_eq!(decimal_string(10), "10");
    assert_eq!(decimal_string(1905), "1905");
    assert_eq!(decimal_string(u64::MAX), "18446744073709551615");
}
