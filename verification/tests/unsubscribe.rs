use rmqtt::error::MqttError;
use rmqtt::packet::{RetainHandling, SubscriptionOptions, UnsubscribeV5};
use rmqtt::qos::QoS;
use rmqtt::topic::Topic;
use rmqtt::unsubscribe::{Subscribed, SubscribedV5, Unsubscribe, Unsubscribed, UnsubscribedV5};

fn t(text: &str) -> Topic {
    Topic::parse(text).unwrap()
}

fn v5(filters: &[&str]) -> Unsubscribe {
    Unsubscribe::V5(UnsubscribeV5 {
        packet_id: 5,
        user_properties: vec![(String::from("k"), String::from("v"))],
        topic_filters: filters.iter().map(|f| String::from(*f)).collect(),
    })
}

#[test]
fn unsubscribe_len_and_is_empty() {
    assert_eq!(Unsubscribe::V3(vec![t("a"), t("b")]).len(), 2);
    assert_eq!(v5(&["a", "b", "c"]).len(), 3);
    assert!(Unsubscribe::V3(vec![]).is_empty());
    assert!(!v5(&["a"]).is_empty());
}

#[test]
fn unsubscribe_topic_filters_lists_filters() {
    assert_eq!(Unsubscribe::V3(vec![t("a"), t("b/+")]).topic_filters(), Ok(vec![t("a"), t("b/+")]));
    assert_eq!(v5(&["x/y", "#"]).topic_filters(), Ok(vec![t("x/y"), t("#")]));
}

#[test]
fn unsubscribe_topic_filters_reports_a_malformed_filter() {
    assert_eq!(v5(&["x/y", "x#"]).topic_filters(), Err(MqttError::MalformedTopic));
}

#[test]
fn unsubscribe_adjust_replaces_by_position() {
    let mut u = Unsubscribe::V3(vec![t("a"), t("b")]);
    assert_eq!(u.adjust_topic_filters(vec![t("x"), t("y")]), Ok(()));
    assert_eq!(u, Unsubscribe::V3(vec![t("x"), t("y")]));

    let mut u5 = v5(&["a", "b"]);
    assert_eq!(u5.adjust_topic_filters(vec![t("x/+"), t("y")]), Ok(()));
    assert_eq!(u5, v5(&["x/+", "y"]));
}

#[test]
fn unsubscribe_adjust_refuses_other_length_and_changes_nothing() {
    let mut u = Unsubscribe::V3(vec![t("a"), t("b")]);
    assert_eq!(u.adjust_topic_filters(vec![t("x")]), Err(MqttError::FilterCountMismatch));
    assert_eq!(u, Unsubscribe::V3(vec![t("a"), t("b")]));

    let mut u5 = v5(&["a"]);
    assert_eq!(u5.adjust_topic_filters(vec![t("x"), t("y")]), Err(MqttError::FilterCountMismatch));
    assert_eq!(u5, v5(&["a"]));
}

#[test]
fn subscribed_topic_filter() {
    assert_eq!(Subscribed::V3((t("a/b"), QoS::AtLeastOnce)).topic_filter(), Ok((t("a/b"), QoS::AtLeastOnce)));
    let options = SubscriptionOptions {
        qos: QoS::ExactlyOnce,
        no_local: true,
        retain_as_published: false,
        retain_handling: RetainHandling::NoAtSubscribe,
    };
    let sub = |text: &str| {
        Subscribed::V5(SubscribedV5 {
            packet_id: 2,
            id: None,
            user_properties: vec![],
            topic_filter: (String::from(text), options),
        })
    };
    assert_eq!(sub("a/+").topic_filter(), Ok((t("a/+"), QoS::ExactlyOnce)));
    assert_eq!(sub("").topic_filter(), Err(MqttError::MalformedTopic));
}

#[test]
fn unsubscribed_topic_filter() {
    assert_eq!(Unsubscribed::V3(t("a/b")).topic_filter(), Ok(t("a/b")));
    let unsub = |text: &str| {
        Unsubscribed::V5(UnsubscribedV5 { packet_id: 2, user_properties: vec![], topic_filter: String::from(text) })
    };
    assert_eq!(unsub("a/#").topic_filter(), Ok(t("a/#")));
    assert_eq!(unsub("#/a").topic_filter(), Err(MqttError::MalformedTopic));
}
