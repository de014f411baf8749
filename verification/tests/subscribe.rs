use rmqtt::error::MqttError;
use rmqtt::packet::{
    RetainHandling, SubscribeAckReason, SubscribeAckV5, SubscribeReturnCodeV3, SubscribeV5,
    SubscriptionOptions,
};
use rmqtt::qos::QoS;
use rmqtt::subscribe::{Subscribe, SubscribeAck};
use rmqtt::packet::SubscribeAckReason::{
    GrantedQos0, GrantedQos1, GrantedQos2, NotAuthorized, QuotaExceeded,
};
use rmqtt::topic::Topic;

fn t(text: &str) -> Topic {
    Topic::parse(text).unwrap()
}

fn opts(qos: QoS) -> SubscriptionOptions {
    SubscriptionOptions {
        qos,
        no_local: false,
        retain_as_published: true,
        retain_handling: RetainHandling::AtSubscribe,
    }
}

fn v3() -> Subscribe {
    Subscribe::V3(vec![
        (t("a/b"), QoS::ExactlyOnce),
        (t("c/+"), QoS::AtLeastOnce),
        (t("a/b"), QoS::AtMostOnce),
    ])
}

fn v5() -> Subscribe {
    Subscribe::V5(SubscribeV5 {
        packet_id: 9,
        id: Some(3),
        user_properties: vec![(String::from("k"), String::from("v"))],
        topic_filters: vec![
            (String::from("a/b"), opts(QoS::ExactlyOnce)),
            (String::from("c/+"), opts(QoS::AtLeastOnce)),
        ],
    })
}

fn ack_v5(reason: Option<&str>, props: &[(&str, &str)], status: Vec<SubscribeAckReason>) -> SubscribeAck {
    SubscribeAck::V5(SubscribeAckV5 {
        packet_id: 4,
        properties: props.iter().map(|(k, v)| (String::from(*k), String::from(*v))).collect(),
        reason_string: reason.map(String::from),
        status,
    })
}

#[test]
fn v3_merge_failure_wins_on_either_side() {
    let all = [
        SubscribeReturnCodeV3::Failure,
        SubscribeReturnCodeV3::Success(QoS::AtMostOnce),
        SubscribeReturnCodeV3::Success(QoS::AtLeastOnce),
        SubscribeReturnCodeV3::Success(QoS::ExactlyOnce),
    ];
    for x in all {
        assert_eq!(SubscribeAck::v3_merge(&SubscribeReturnCodeV3::Failure, x), SubscribeReturnCodeV3::Failure);
        assert_eq!(SubscribeAck::v3_merge(&x, SubscribeReturnCodeV3::Failure), SubscribeReturnCodeV3::Failure);
    }
}

#[test]
fn v3_merge_of_two_successes_is_the_lower_level() {
    let s = SubscribeReturnCodeV3::Success;
    assert_eq!(SubscribeAck::v3_merge(&s(QoS::ExactlyOnce), s(QoS::AtLeastOnce)), s(QoS::AtLeastOnce));
    assert_eq!(SubscribeAck::v3_merge(&s(QoS::AtMostOnce), s(QoS::ExactlyOnce)), s(QoS::AtMostOnce));
    assert_eq!(SubscribeAck::v3_merge(&s(QoS::ExactlyOnce), s(QoS::ExactlyOnce)), s(QoS::ExactlyOnce));
}

#[test]
fn v5_merge_of_two_granted_levels_is_the_lower() {
    assert_eq!(SubscribeAck::v5_merge(&GrantedQos2, GrantedQos1), GrantedQos1);
    assert_eq!(SubscribeAck::v5_merge(&GrantedQos1, GrantedQos2), GrantedQos1);
    assert_eq!(SubscribeAck::v5_merge(&GrantedQos0, GrantedQos2), GrantedQos0);
    assert_eq!(SubscribeAck::v5_merge(&GrantedQos2, GrantedQos0), GrantedQos0);
    assert_eq!(SubscribeAck::v5_merge(&GrantedQos2, GrantedQos2), GrantedQos2);
}

#[test]
fn v5_merge_lets_a_refusal_win() {
    assert_eq!(SubscribeAck::v5_merge(&GrantedQos1, NotAuthorized), NotAuthorized);
    assert_eq!(SubscribeAck::v5_merge(&NotAuthorized, GrantedQos1), NotAuthorized);
    assert_eq!(SubscribeAck::v5_merge(&NotAuthorized, QuotaExceeded), QuotaExceeded);
}

#[test]
fn granted_knows_the_three_granted_codes() {
    assert!(SubscribeAck::granted(&SubscribeAckReason::GrantedQos0));
    assert!(SubscribeAck::granted(&SubscribeAckReason::GrantedQos2));
    assert!(!SubscribeAck::granted(&SubscribeAckReason::UnspecifiedError));
}

#[test]
fn merge_from_v3_merges_entry_by_entry() {
    let s = SubscribeReturnCodeV3::Success;
    let mut a = SubscribeAck::V3(vec![s(QoS::ExactlyOnce), s(QoS::AtMostOnce), SubscribeReturnCodeV3::Failure]);
    let b = SubscribeAck::V3(vec![s(QoS::AtLeastOnce), SubscribeReturnCodeV3::Failure, s(QoS::AtMostOnce)]);
    assert_eq!(a.merge_from(b), Ok(()));
    assert_eq!(
        a,
        SubscribeAck::V3(vec![s(QoS::AtLeastOnce), SubscribeReturnCodeV3::Failure, SubscribeReturnCodeV3::Failure])
    );
}

#[test]
fn merge_from_v3_refuses_other_length() {
    let s = SubscribeReturnCodeV3::Success;
    let mut a = SubscribeAck::V3(vec![s(QoS::ExactlyOnce), s(QoS::AtMostOnce)]);
    let before = a.clone();
    assert_eq!(a.merge_from(SubscribeAck::V3(vec![s(QoS::AtMostOnce)])), Err(MqttError::FilterCountMismatch));
    assert_eq!(a, before);
}

#[test]
fn merge_from_v5_joins_reasons_appends_properties_merges_status() {
    let mut a = ack_v5(Some("first"), &[("a", "1"), ("b", "2")], vec![GrantedQos2, GrantedQos1]);
    let b = ack_v5(Some("second"), &[("a", "1")], vec![GrantedQos0, NotAuthorized]);
    assert_eq!(a.merge_from(b), Ok(()));
    assert_eq!(
        a,
        ack_v5(Some("first, second"), &[("a", "1"), ("b", "2"), ("a", "1")], vec![GrantedQos0, NotAuthorized])
    );
}

#[test]
fn merge_from_v5_takes_the_reason_that_is_there() {
    let mut a = ack_v5(None, &[], vec![GrantedQos1]);
    assert_eq!(a.merge_from(ack_v5(Some("other"), &[], vec![GrantedQos1])), Ok(()));
    assert_eq!(a, ack_v5(Some("other"), &[], vec![GrantedQos1]));

    let mut c = ack_v5(Some("mine"), &[], vec![GrantedQos1]);
    assert_eq!(c.merge_from(ack_v5(None, &[], vec![GrantedQos1])), Ok(()));
    assert_eq!(c, ack_v5(Some("mine"), &[], vec![GrantedQos1]));

    let mut d = ack_v5(None, &[], vec![]);
    assert_eq!(d.merge_from(ack_v5(None, &[], vec![])), Ok(()));
    assert_eq!(d, ack_v5(None, &[], vec![]));
}

#[test]
fn merge_from_v5_refuses_other_length() {
    let mut a = ack_v5(Some("mine"), &[("a", "1")], vec![GrantedQos1]);
    let before = a.clone();
    let r = a.merge_from(ack_v5(Some("other"), &[("b", "2")], vec![GrantedQos1, GrantedQos1]));
    assert_eq!(r, Err(MqttError::FilterCountMismatch));
    assert_eq!(a, before);
}

#[test]
fn merge_from_other_version_changes_nothing() {
    let mut a = SubscribeAck::V3(vec![SubscribeReturnCodeV3::Success(QoS::AtLeastOnce)]);
    let before = a.clone();
    assert_eq!(a.merge_from(ack_v5(None, &[], vec![SubscribeAckReason::GrantedQos0])), Ok(()));
    assert_eq!(a, before);

    let mut b = ack_v5(None, &[], vec![SubscribeAckReason::GrantedQos0]);
    let before = b.clone();
    assert_eq!(b.merge_from(SubscribeAck::V3(vec![SubscribeReturnCodeV3::Failure])), Ok(()));
    assert_eq!(b, before);
}

#[test]
fn subscribe_len_and_is_empty() {
    assert_eq!(v3().len(), 3);
    assert_eq!(v5().len(), 2);
    assert!(!v3().is_empty());
    assert!(Subscribe::V3(vec![]).is_empty());
}

#[test]
fn adjust_topic_filters_replaces_by_position_v3() {
    let mut s = v3();
    assert_eq!(s.adjust_topic_filters(vec![t("x"), t("y/#"), t("z")]), Ok(()));
    assert_eq!(
        s,
        Subscribe::V3(vec![
            (t("x"), QoS::ExactlyOnce),
            (t("y/#"), QoS::AtLeastOnce),
            (t("z"), QoS::AtMostOnce),
        ])
    );
}

#[test]
fn adjust_topic_filters_replaces_by_position_v5() {
    let mut s = v5();
    assert_eq!(s.adjust_topic_filters(vec![t("x/y"), t("+/z")]), Ok(()));
    match s {
        Subscribe::V5(sub) => {
            assert_eq!(sub.packet_id, 9);
            assert_eq!(sub.id, Some(3));
            assert_eq!(sub.user_properties, vec![(String::from("k"), String::from("v"))]);
            assert_eq!(
                sub.topic_filters,
                vec![(String::from("x/y"), opts(QoS::ExactlyOnce)), (String::from("+/z"), opts(QoS::AtLeastOnce))]
            );
        }
        Subscribe::V3(_) => panic!("version changed"),
    }
}

#[test]
fn adjust_topic_filters_refuses_other_length_and_changes_nothing() {
    let mut s = v3();
    assert_eq!(s.adjust_topic_filters(vec![t("x")]), Err(MqttError::FilterCountMismatch));
    assert_eq!(s, v3());
    assert_eq!(s.adjust_topic_filters(vec![t("1"), t("2"), t("3"), t("4")]), Err(MqttError::FilterCountMismatch));
    assert_eq!(s, v3());

    let mut s5 = v5();
    assert_eq!(s5.adjust_topic_filters(vec![]), Err(MqttError::FilterCountMismatch));
    assert_eq!(s5, v5());
}

#[test]
fn topic_filter_by_index() {
    let s = v3();
    assert_eq!(s.topic_filter(1), Some(&t("c/+")));
    assert_eq!(s.topic_filter(3), None);
    assert_eq!(v5().topic_filter(0), None);
}

#[test]
fn topic_filters_lists_filters_and_levels() {
    assert_eq!(
        v3().topic_filters(),
        Ok(vec![(t("a/b"), QoS::ExactlyOnce), (t("c/+"), QoS::AtLeastOnce), (t("a/b"), QoS::AtMostOnce)])
    );
    assert_eq!(v5().topic_filters(), Ok(vec![(t("a/b"), QoS::ExactlyOnce), (t("c/+"), QoS::AtLeastOnce)]));
}

#[test]
fn topic_filters_reports_a_malformed_filter() {
    let s = Subscribe::V5(SubscribeV5 {
        packet_id: 1,
        id: None,
        user_properties: vec![],
        topic_filters: vec![(String::from("ok"), opts(QoS::AtMostOnce)), (String::from("a/#/b"), opts(QoS::AtMostOnce))],
    });
    assert_eq!(s.topic_filters(), Err(MqttError::MalformedTopic));
}

#[test]
fn remove_takes_out_every_entry_of_the_filter() {
    let mut s = v3();
    s.remove(&t("a/b"));
    assert_eq!(s, Subscribe::V3(vec![(t("c/+"), QoS::AtLeastOnce)]));
    s.remove(&t("nothing"));
    assert_eq!(s, Subscribe::V3(vec![(t("c/+"), QoS::AtLeastOnce)]));
    s.remove(&t("c/+"));
    assert_eq!(s, Subscribe::V3(vec![]));
}

#[test]
fn remove_leaves_v5_as_it_is() {
    let mut s = v5();
    s.remove(&t("a/b"));
    assert_eq!(s, v5());
}

#[test]
fn set_qos_if_less_lowers_matching_entries_only() {
    let mut s = v3();
    s.set_qos_if_less(&t("a/b"), QoS::AtLeastOnce);
    assert_eq!(
        s,
        Subscribe::V3(vec![
            (t("a/b"), QoS::AtLeastOnce),
            (t("c/+"), QoS::AtLeastOnce),
            (t("a/b"), QoS::AtMostOnce),
        ])
    );
    s.set_qos_if_less(&t("c/+"), QoS::ExactlyOnce);
    assert_eq!(s.topic_filters().unwrap()[1].1, QoS::AtLeastOnce);
}

#[test]
fn set_qos_if_less_leaves_v5_as_it_is() {
    let mut s = v5();
    s.set_qos_if_less(&t("a/b"), QoS::AtMostOnce);
    assert_eq!(s, v5());
}
