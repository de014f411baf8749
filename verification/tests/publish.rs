use rmqtt::error::MqttError;
use rmqtt::identity::Id;
use rmqtt::packet::{LastWillV3, PublishPacketV3, PublishPacketV5, PublishProperties};
use rmqtt::publish::{clone_bytes, Publish, PublishV3, PublishV5, Retain};
use rmqtt::qos::QoS;
use rmqtt::topic::Topic;

fn will(topic: &str) -> LastWillV3 {
    LastWillV3 { qos: QoS::AtLeastOnce, retain: true, topic: String::from(topic), message: b"bye".to_vec() }
}

fn packet_v3() -> PublishPacketV3 {
    PublishPacketV3 {
        dup: true,
        retain: false,
        qos: QoS::ExactlyOnce,
        topic: String::from("a/b"),
        packet_id: Some(11),
        payload: b"data".to_vec(),
    }
}

fn packet_v5(topic: &str) -> PublishPacketV5 {
    PublishPacketV5 {
        dup: false,
        retain: true,
        qos: QoS::AtMostOnce,
        packet_id: None,
        topic: String::from(topic),
        payload: vec![],
        properties: PublishProperties {
            topic_alias: None,
            correlation_data: None,
            message_expiry_interval: Some(10),
            content_type: None,
            user_properties: vec![],
            is_utf8_payload: false,
            response_topic: None,
            subscription_ids: vec![1],
        },
    }
}

#[test]
fn from_last_will_splits_topic_and_query() {
    let p = PublishV3::from_last_will_at(&will("a/b?x=1&y=2"), 1234).unwrap();
    assert_eq!(p.topic, Topic::parse("a/b").unwrap());
    assert_eq!(p.query, Some(String::from("x=1&y=2")));
    assert_eq!(p.create_time, 1234);
    assert_eq!(
        p.packet,
        PublishPacketV3 {
            dup: false,
            retain: true,
            qos: QoS::AtLeastOnce,
            topic: String::from("a/b?x=1&y=2"),
            packet_id: None,
            payload: b"bye".to_vec(),
        }
    );
}

#[test]
fn from_last_will_splits_at_the_first_mark_only() {
    let p = PublishV3::from_last_will_at(&will("a?b?c"), 0).unwrap();
    assert_eq!(p.topic, Topic::parse("a").unwrap());
    assert_eq!(p.query, Some(String::from("b?c")));
}

#[test]
fn from_last_will_without_query() {
    let p = PublishV3::from_last_will_at(&will("a/b"), 5).unwrap();
    assert_eq!(p.topic, Topic::parse("a/b").unwrap());
    assert_eq!(p.query, None);
}

#[test]
fn from_last_will_with_empty_query() {
    let p = PublishV3::from_last_will_at(&will("a/b?"), 5).unwrap();
    assert_eq!(p.topic, Topic::parse("a/b").unwrap());
    assert_eq!(p.query, Some(String::new()));
}

#[test]
fn from_last_will_reports_a_malformed_topic() {
    assert!(matches!(PublishV3::from_last_will_at(&will("a/#/b?q"), 5), Err(MqttError::MalformedTopic)));
    assert!(matches!(PublishV3::from_last_will_at(&will("?q"), 5), Err(MqttError::MalformedTopic)));
    assert!(matches!(PublishV3::from_last_will(&will("")), Err(MqttError::MalformedTopic)));
}

#[test]
fn from_last_will_stamps_the_current_time() {
    let p = PublishV3::from_last_will(&will("a/b?q")).unwrap();
    assert_eq!(p.query, Some(String::from("q")));
    assert!(p.create_time > 0);
}

#[test]
fn publish_v3_from_packet() {
    let p = PublishV3::from_at(&packet_v3(), "a/b", "k=v", 77).unwrap();
    assert_eq!(p.packet, packet_v3());
    assert_eq!(p.topic, Topic::parse("a/b").unwrap());
    assert_eq!(p.query, Some(String::from("k=v")));
    assert_eq!(p.create_time, 77);
    let q = PublishV3::from_at(&packet_v3(), "a/b", "", 77).unwrap();
    assert_eq!(q.query, None);
    assert!(PublishV3::from(&packet_v3(), "a/b", "").is_ok());
}

#[test]
fn publish_v3_from_packet_reports_a_malformed_topic() {
    assert!(matches!(PublishV3::from_at(&packet_v3(), "a/b#", "", 77), Err(MqttError::MalformedTopic)));
}

#[test]
fn publish_v5_from_packet() {
    let p = PublishV5::from_at(packet_v5("x/y"), 9).unwrap();
    assert_eq!(p.publish, packet_v5("x/y"));
    assert_eq!(p.topic, Topic::parse("x/y").unwrap());
    assert_eq!(p.create_time, 9);
    assert!(matches!(PublishV5::from_at(packet_v5(""), 9), Err(MqttError::MalformedTopic)));
    assert!(PublishV5::from(packet_v5("x/y")).is_ok());
}

#[test]
fn publish_accessors_are_version_transparent() {
    let v3 = Publish::V3(Box::new(PublishV3::from_at(&packet_v3(), "a/b", "", 3).unwrap()));
    let v5 = Publish::V5(Box::new(PublishV5::from_at(packet_v5("x/y"), 5).unwrap()));
    assert_eq!(v3.payload(), &b"data".to_vec());
    assert_eq!(v5.payload(), &Vec::<u8>::new());
    assert!(!v3.retain());
    assert!(v5.retain());
    assert_eq!(v3.topic(), &Topic::parse("a/b").unwrap());
    assert_eq!(v5.topic(), &Topic::parse("x/y").unwrap());
    assert!(v3.dup());
    assert!(!v5.dup());
    assert!(!v3.is_empty());
    assert!(v5.is_empty());
    assert_eq!(v3.qos(), QoS::ExactlyOnce);
    assert_eq!(v5.qos(), QoS::AtMostOnce);
    assert_eq!(v3.create_time(), 3);
    assert_eq!(v5.create_time(), 5);
    assert_eq!(v3.packet_id(), Some(11));
    assert_eq!(v5.packet_id(), None);
    assert!(!v3.packet_id_is_none());
    assert!(v5.packet_id_is_none());
}

#[test]
fn set_dup_and_set_packet_id() {
    let mut v3 = Publish::V3(Box::new(PublishV3::from_at(&packet_v3(), "a/b", "", 3).unwrap()));
    let mut v5 = Publish::V5(Box::new(PublishV5::from_at(packet_v5("x/y"), 5).unwrap()));
    v3.set_dup(false);
    v5.set_dup(true);
    assert!(!v3.dup());
    assert!(v5.dup());
    v3.set_packet_id(0);
    v5.set_packet_id(42);
    assert_eq!(v3.packet_id(), None);
    assert_eq!(v5.packet_id(), Some(42));
    assert_eq!(v3.payload(), &b"data".to_vec());
    assert_eq!(v5.qos(), QoS::AtMostOnce);
}

#[test]
fn retain_keeps_origin_and_message() {
    let r = Retain {
        from: Id::from(String::from("c")),
        publish: Publish::V5(Box::new(PublishV5::from_at(packet_v5("x/y"), 5).unwrap())),
    };
    assert_eq!(r.from.client_id(), "c");
    assert!(r.publish.retain());
}

#[test]
fn clone_bytes_copies() {
    assert_eq!(clone_bytes(&vec![1, 2, 3]), vec![1, 2, 3]);
    assert_eq!(clone_bytes(&vec![]), Vec::<u8>::new());
}
