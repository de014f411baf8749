use rmqtt::error::MqttError;
use rmqtt::topic::{Level, Topic};

#[test]
fn parse_splits_levels() {
    let t = Topic::parse("sensors/room1/temp").unwrap();
    assert_eq!(
        t.levels,
        vec![
            Level::Normal(String::from("sensors")),
            Level::Normal(String::from("room1")),
            Level::Normal(String::from("temp")),
        ]
    );
}

#[test]
fn parse_knows_wildcards_blank_and_system_levels() {
    let t = Topic::parse("$SYS//+/#").unwrap();
    assert_eq!(
        t.levels,
        vec![
            Level::System(String::from("$SYS")),
            Level::Blank,
            Level::SingleWildcard,
            Level::MultiWildcard,
        ]
    );
}

#[test]
fn parse_rejects_empty_text() {
    assert_eq!(Topic::parse(""), Err(MqttError::MalformedTopic));
}

#[test]
fn parse_rejects_multi_wildcard_before_the_end() {
    assert_eq!(Topic::parse("a/#/b"), Err(MqttError::MalformedTopic));
}

#[test]
fn parse_rejects_wildcard_inside_a_level() {
    assert_eq!(Topic::parse("a/b+c"), Err(MqttError::MalformedTopic));
    assert_eq!(Topic::parse("a/b#"), Err(MqttError::MalformedTopic));
}

#[test]
fn to_string_joins_levels() {
    for text in ["a", "a/b", "a//b", "/a", "a/", "+/b/#", "$SYS/x"] {
        assert_eq!(Topic::parse(text).unwrap().to_string(), text);
    }
}

#[test]
fn to_string_of_no_levels_is_empty() {
    assert_eq!(Topic { levels: vec![] }.to_string(), "");
}

#[test]
fn same_compares_levels() {
    let a = Topic::parse("a/b").unwrap();
    let b = Topic::parse("a/b").unwrap();
    let c = Topic::parse("a/c").unwrap();
    let d = Topic::parse("a/b/c").unwrap();
    assert!(a.same(&b));
    assert!(!a.same(&c));
    assert!(!a.same(&d));
    assert!(!Topic::parse("+").unwrap().same(&Topic::parse("#").unwrap()));
}

#[test]
fn clone_topic_copies_levels() {
    let a = Topic::parse("a/+/c").unwrap();
    let b = a.clone_topic();
    assert_eq!(a, b);
    assert!(a.same(&b));
}

#[test]
fn level_same_and_clone() {
    let n = Level::Normal(String::from("x"));
    let s = Level::System(String::from("x"));
    assert!(n.same(&n.clone_level()));
    assert!(!n.same(&s));
    assert!(Level::Blank.same(&Level::Blank));
    assert!(!Level::Blank.same(&Level::SingleWildcard));
}
