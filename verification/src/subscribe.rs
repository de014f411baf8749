//! Subscribe and unsubscribe requests and their acknowledgements, for both
//! protocol versions.

use vstd::prelude::*;
use crate::error::MqttError;
use crate::packet::{SubscribeAckReason, SubscribeAckV5, SubscribeReturnCodeV3, SubscribeV5};
use crate::qos::{qos_less, qos_value, QoS, QoSEx};
use crate::topic::{parsed_levels, topic_text, LevelView, Topic, TopicFilter, TopicFilters};

verus! {

/// Merge of two 3.1.1 return codes: a failure on either side wins, otherwise
/// the lower of the two granted levels.
pub open spec fn v3_merged(a: SubscribeReturnCodeV3, b: SubscribeReturnCodeV3) -> SubscribeReturnCodeV3 {
    match (a, b) {
        (SubscribeReturnCodeV3::Success(q1), SubscribeReturnCodeV3::Success(q2)) => SubscribeReturnCodeV3::Success(
            qos_less(q1, q2),
        ),
        _ => SubscribeReturnCodeV3::Failure,
    }
}

/// The reason codes that grant a level.
pub open spec fn is_granted(r: SubscribeAckReason) -> bool {
    r == SubscribeAckReason::GrantedQos0 || r == SubscribeAckReason::GrantedQos1 || r
        == SubscribeAckReason::GrantedQos2
}

/// Merge of two 5.0 reason codes. Between two granted levels the lower one
/// wins. A code that grants nothing wins over one that grants; of two codes
/// that grant nothing the incoming one wins.
pub open spec fn v5_merged(status: SubscribeAckReason, merged: SubscribeAckReason) -> SubscribeAckReason {
    if !is_granted(merged) {
        merged
    } else if !is_granted(status) {
        status
    } else if status == SubscribeAckReason::GrantedQos0 || merged == SubscribeAckReason::GrantedQos0 {
        SubscribeAckReason::GrantedQos0
    } else if status == SubscribeAckReason::GrantedQos1 || merged == SubscribeAckReason::GrantedQos1 {
        SubscribeAckReason::GrantedQos1
    } else {
        SubscribeAckReason::GrantedQos2
    }
}

/// The reason string of a merged 5.0 acknowledgement: both texts joined by
/// `", "` where both are present, else the one that is.
pub open spec fn merged_reason(a: Option<String>, b: Option<String>, out: Option<String>) -> bool {
    match (a, b) {
        (Some(x), Some(y)) => out is Some && out->0@ == x@ + seq![',', ' '] + y@,
        (None, Some(y)) => out == Some(y),
        (Some(x), None) => out == Some(x),
        (None, None) => out is None,
    }
}

/// Acknowledgement of a subscribe request.
#[derive(Debug, Clone, PartialEq, Eq)]
pub enum SubscribeAck {
    V3(Vec<SubscribeReturnCodeV3>),
    V5(SubscribeAckV5),
}

impl SubscribeAck {
    /// What `merge_from` makes of `before` and `other`, where it succeeds.
    pub open spec fn merged_from(before: SubscribeAck, other: SubscribeAck, after: SubscribeAck) -> bool {
        match (before, other) {
            (SubscribeAck::V3(a), SubscribeAck::V3(b)) => {
                &&& after matches SubscribeAck::V3(c)
                &&& c.len() == a.len()
                &&& forall|i: int| 0 <= i < a.len() ==> #[trigger] c[i] == v3_merged(a[i], b[i])
            },
            (SubscribeAck::V5(a), SubscribeAck::V5(b)) => {
                &&& after matches SubscribeAck::V5(c)
                &&& c.packet_id == a.packet_id
                &&& c.properties@ == a.properties@ + b.properties@
                &&& merged_reason(a.reason_string, b.reason_string, c.reason_string)
                &&& c.status.len() == a.status.len()
                &&& forall|i: int|
                    0 <= i < a.status.len() ==> #[trigger] c.status[i] == v5_merged(a.status[i], b.status[i])
            },
            _ => after == before,
        }
    }

    /// Whether the two acknowledgements are of one version and disagree in length.
    pub open spec fn count_mismatch(before: SubscribeAck, other: SubscribeAck) -> bool {
        match (before, other) {
            (SubscribeAck::V3(a), SubscribeAck::V3(b)) => a.len() != b.len(),
            (SubscribeAck::V5(a), SubscribeAck::V5(b)) => a.status.len() != b.status.len(),
            _ => false,
        }
    }

    /// Folds `merged_ack` into this acknowledgement, entry by entry.
    ///
    /// Two acknowledgements of one version that disagree in length are refused
    /// with `FilterCountMismatch`, and nothing changes. Acknowledgements of
    /// different versions are not merged: the call succeeds and nothing changes.
    pub fn merge_from(&mut self, merged_ack: SubscribeAck) -> (r: Result<(), MqttError>)
        ensures
            Self::count_mismatch(*old(self), merged_ack) ==> r == Err::<(), MqttError>(
                MqttError::FilterCountMismatch,
            ) && *final(self) == *old(self),
            !Self::count_mismatch(*old(self), merged_ack) ==> r is Ok && Self::merged_from(
                *old(self),
                merged_ack,
                *final(self),
            ),
    {
        match (self, merged_ack) {
            (SubscribeAck::V3(codes), SubscribeAck::V3(merged_codes)) => {
                if codes.len() != merged_codes.len() {
                    return Err(MqttError::FilterCountMismatch);
                }
                let ghost before = codes@;
                let mut i: usize = 0;
                while i < codes.len()
                    invariant
                        i <= codes.len(),
                        codes.len() == before.len(),
                        codes.len() == merged_codes.len(),
                        forall|k: int| 0 <= k < i ==> #[trigger] codes[k] == v3_merged(before[k], merged_codes[k]),
                        forall|k: int| i <= k < codes.len() ==> codes[k] == before[k],
                    decreases codes.len() - i,
                {
                    let c = Self::v3_merge(&codes[i], merged_codes[i]);
                    codes[i] = c;
                    i += 1;
                }
                Ok(())
            },
            (SubscribeAck::V5(acks), SubscribeAck::V5(merged_acks)) => {
                if acks.status.len() != merged_acks.status.len() {
                    return Err(MqttError::FilterCountMismatch);
                }
                let mut merged_acks = merged_acks;
                let mine = acks.reason_string.take();
                match (mine, merged_acks.reason_string.take()) {
                    (Some(reason1), Some(reason2)) => {
                        let mut joined = reason1;
                        joined.append(", ");
                        joined.append(reason2.as_str());
                        proof {
                            reveal_strlit(", ");
                            assert(", "@ =~= seq![',', ' ']);
                        }
                        acks.reason_string = Some(joined);
                    },
                    (None, Some(reason)) => {
                        acks.reason_string = Some(reason);
                    },
                    (Some(reason), None) => {
                        acks.reason_string = Some(reason);
                    },
                    (None, None) => {},
                }
                acks.properties.append(&mut merged_acks.properties);
                let ghost before = acks.status@;
                let ghost packet_id = acks.packet_id;
                let ghost properties = acks.properties;
                let ghost reason = acks.reason_string;
                let mut i: usize = 0;
                while i < acks.status.len()
                    invariant
                        i <= acks.status.len(),
                        acks.packet_id == packet_id,
                        acks.properties == properties,
                        acks.reason_string == reason,
                        acks.status.len() == before.len(),
                        acks.status.len() == merged_acks.status.len(),
                        forall|k: int|
                            0 <= k < i ==> #[trigger] acks.status[k] == v5_merged(
                                before[k],
                                merged_acks.status[k],
                            ),
                        forall|k: int| i <= k < acks.status.len() ==> acks.status[k] == before[k],
                    decreases acks.status.len() - i,
                {
                    let s = Self::v5_merge(&acks.status[i], merged_acks.status[i]);
                    acks.status[i] = s;
                    i += 1;
                }
                Ok(())
            },
            _ => Ok(()),
        }
    }

    /// Merge of two 3.1.1 return codes.
    pub fn v3_merge(code: &SubscribeReturnCodeV3, merged: SubscribeReturnCodeV3) -> (r: SubscribeReturnCodeV3)
        ensures
            r == v3_merged(*code, merged),
    {
        match (code, merged) {
            (_, SubscribeReturnCodeV3::Failure) => SubscribeReturnCodeV3::Failure,
            (SubscribeReturnCodeV3::Failure, _) => SubscribeReturnCodeV3::Failure,
            (SubscribeReturnCodeV3::Success(qos1), SubscribeReturnCodeV3::Success(qos2)) => {
                SubscribeReturnCodeV3::Success(qos1.less_value(qos2))
            },
        }
    }

    /// Whether a reason code grants a level.
    pub fn granted(r: &SubscribeAckReason) -> (b: bool)
        ensures
            b == is_granted(*r),
    {
        match r {
            SubscribeAckReason::GrantedQos0 => true,
            SubscribeAckReason::GrantedQos1 => true,
            SubscribeAckReason::GrantedQos2 => true,
            _ => false,
        }
    }

    /// Merge of two 5.0 reason codes.
    pub fn v5_merge(status: &SubscribeAckReason, merged: SubscribeAckReason) -> (r: SubscribeAckReason)
        ensures
            r == v5_merged(*status, merged),
    {
        if !Self::granted(&merged) {
            return merged;
        }
        if !Self::granted(status) {
            return *status;
        }
        match (status, merged) {
            (_, SubscribeAckReason::GrantedQos0) => SubscribeAckReason::GrantedQos0,
            (SubscribeAckReason::GrantedQos0, _) => SubscribeAckReason::GrantedQos0,
            (_, SubscribeAckReason::GrantedQos1) => SubscribeAckReason::GrantedQos1,
            (SubscribeAckReason::GrantedQos1, _) => SubscribeAckReason::GrantedQos1,
            _ => SubscribeAckReason::GrantedQos2,
        }
    }
}

/// A failure on either side of a 3.1.1 merge gives a failure, whatever the
/// other side holds; two granted levels give the level of the smaller number.
pub proof fn lemma_v3_merge(x: SubscribeReturnCodeV3, q1: QoS, q2: QoS)
    ensures
        v3_merged(SubscribeReturnCodeV3::Failure, x) == SubscribeReturnCodeV3::Failure,
        v3_merged(x, SubscribeReturnCodeV3::Failure) == SubscribeReturnCodeV3::Failure,
        v3_merged(SubscribeReturnCodeV3::Success(q1), SubscribeReturnCodeV3::Success(q2))
            == SubscribeReturnCodeV3::Success(qos_less(q1, q2)),
        qos_value(qos_less(q1, q2)) == vstd::math::min(qos_value(q1), qos_value(q2)),
{
}

/// A subscribe request.
#[derive(Debug, Clone, PartialEq, Eq)]
pub enum Subscribe {
    V3(Vec<(TopicFilter, QoS)>),
    V5(SubscribeV5),
}

/// The entries that are left when every entry for `filter` is taken out.
pub open spec fn without_filter(entries: Seq<(TopicFilter, QoS)>, filter: Seq<LevelView>) -> Seq<(TopicFilter, QoS)> {
    entries.filter(|e: (TopicFilter, QoS)| e.0@ != filter)
}

impl Subscribe {
    /// Number of filters of the request.
    pub open spec fn spec_len(&self) -> nat {
        match self {
            Subscribe::V3(subs) => subs.len() as nat,
            Subscribe::V5(subs) => subs.topic_filters.len() as nat,
        }
    }

    /// What `adjust_topic_filters` makes of a request and a replacement list
    /// of the same length: filter `i` becomes replacement `i`, and nothing
    /// else changes. A 5.0 request holds the replacement as text.
    pub open spec fn adjusted(before: Subscribe, filters: Seq<TopicFilter>, after: Subscribe) -> bool {
        match before {
            Subscribe::V3(a) => {
                &&& after matches Subscribe::V3(c)
                &&& c.len() == a.len()
                &&& forall|i: int| 0 <= i < a.len() ==> (#[trigger] c[i]).0 == filters[i] && c[i].1 == a[i].1
            },
            Subscribe::V5(a) => {
                &&& after matches Subscribe::V5(c)
                &&& c.packet_id == a.packet_id
                &&& c.id == a.id
                &&& c.user_properties == a.user_properties
                &&& c.topic_filters.len() == a.topic_filters.len()
                &&& forall|i: int|
                    0 <= i < a.topic_filters.len() ==> (#[trigger] c.topic_filters[i]).0@ == topic_text(
                        filters[i]@,
                    ) && c.topic_filters[i].1 == a.topic_filters[i].1
            },
        }
    }

    /// Replaces the filters of the request, position by position.
    ///
    /// A list whose length differs from the number of filters is refused with
    /// `FilterCountMismatch`, and the request stays as it was.
    pub fn adjust_topic_filters(&mut self, topic_filters: TopicFilters) -> (r: Result<(), MqttError>)
        ensures
            old(self).spec_len() != topic_filters.len() ==> r == Err::<(), MqttError>(
                MqttError::FilterCountMismatch,
            ) && *final(self) == *old(self),
            old(self).spec_len() == topic_filters.len() ==> r is Ok && Self::adjusted(
                *old(self),
                topic_filters@,
                *final(self),
            ),
    {
        if self.len() != topic_filters.len() {
            return Err(MqttError::FilterCountMismatch);
        }
        let ghost filters = topic_filters@;
        let mut topic_filters = topic_filters;
        match self {
            Subscribe::V3(subs) => {
                let ghost before = subs@;
                let mut i: usize = 0;
                while i < subs.len()
                    invariant
                        i <= subs.len(),
                        subs.len() == before.len(),
                        filters.len() == before.len(),
                        topic_filters@ == filters.subrange(i as int, filters.len() as int),
                        forall|k: int| 0 <= k < i ==> (#[trigger] subs[k]).0 == filters[k] && subs[k].1 == before[k].1,
                        forall|k: int| i <= k < subs.len() ==> subs[k] == before[k],
                    decreases subs.len() - i,
                {
                    let tf = topic_filters.remove(0);
                    let qos = subs[i].1;
                    subs[i] = (tf, qos);
                    i += 1;
                    assert(topic_filters@ =~= filters.subrange(i as int, filters.len() as int));
                }
            },
            Subscribe::V5(subs) => {
                let ghost before = subs.topic_filters@;
                let ghost packet_id = subs.packet_id;
                let ghost id = subs.id;
                let ghost user_properties = subs.user_properties;
                let mut i: usize = 0;
                while i < subs.topic_filters.len()
                    invariant
                        i <= subs.topic_filters.len(),
                        subs.packet_id == packet_id,
                        subs.id == id,
                        subs.user_properties == user_properties,
                        subs.topic_filters.len() == before.len(),
                        filters.len() == before.len(),
                        topic_filters@ == filters.subrange(i as int, filters.len() as int),
                        forall|k: int|
                            0 <= k < i ==> (#[trigger] subs.topic_filters[k]).0@ == topic_text(filters[k]@)
                                && subs.topic_filters[k].1 == before[k].1,
                        forall|k: int| i <= k < subs.topic_filters.len() ==> subs.topic_filters[k] == before[k],
                    decreases subs.topic_filters.len() - i,
                {
                    let tf = topic_filters.remove(0);
                    let opts = subs.topic_filters[i].1;
                    subs.topic_filters[i] = (tf.to_string(), opts);
                    i += 1;
                    assert(topic_filters@ =~= filters.subrange(i as int, filters.len() as int));
                }
            },
        }
        Ok(())
    }

    /// Number of filters of the request.
    pub fn len(&self) -> (n: usize)
        ensures
            n == self.spec_len(),
    {
        match self {
            Subscribe::V3(subs) => subs.len(),
            Subscribe::V5(subs) => subs.topic_filters.len(),
        }
    }

    /// Whether the request holds no filter.
    pub fn is_empty(&self) -> (b: bool)
        ensures
            b == (self.spec_len() == 0),
    {
        self.len() == 0
    }

    /// The filter at a position of a 3.1.1 request. A 5.0 request keeps its
    /// filters as text and gives none.
    pub fn topic_filter(&self, idx: usize) -> (r: Option<&TopicFilter>)
        ensures
            match self {
                Subscribe::V3(subs) => if idx < subs.len() {
                    r == Some(&subs[idx as int].0)
                } else {
                    r is None
                },
                Subscribe::V5(_) => r is None,
            },
    {
        match self {
            Subscribe::V3(subs) => {
                if idx < subs.len() {
                    Some(&subs[idx].0)
                } else {
                    None
                }
            },
            Subscribe::V5(_subs) => None,
        }
    }

    /// Whether every filter of the request is a well-formed topic filter; those
    /// of a 3.1.1 request always are.
    pub open spec fn filters_parse(&self) -> bool {
        match self {
            Subscribe::V3(_) => true,
            Subscribe::V5(subs) => forall|i: int|
                0 <= i < subs.topic_filters.len() ==> parsed_levels(
                    (#[trigger] subs.topic_filters[i]).0@,
                ) is Some,
        }
    }

    /// The filter and level that entry `i` of the request stands for.
    pub open spec fn entry_at(&self, i: int) -> (Seq<LevelView>, QoS) {
        match self {
            Subscribe::V3(subs) => (subs[i].0@, subs[i].1),
            Subscribe::V5(subs) => (parsed_levels(subs.topic_filters[i].0@)->0, subs.topic_filters[i].1.qos),
        }
    }

    /// The filters of the request with their levels, in order. Fails with
    /// `MalformedTopic` exactly where a filter of a 5.0 request is malformed.
    pub fn topic_filters(&self) -> (r: Result<Vec<(TopicFilter, QoS)>, MqttError>)
        ensures
            match r {
                Ok(v) => {
                    &&& self.filters_parse()
                    &&& v.len() == self.spec_len()
                    &&& forall|i: int| 0 <= i < v.len() ==> ((#[trigger] v[i]).0@, v[i].1) == self.entry_at(i)
                },
                Err(e) => !self.filters_parse() && e == MqttError::MalformedTopic,
            },
    {
        let mut out: Vec<(TopicFilter, QoS)> = Vec::new();
        match self {
            Subscribe::V3(subs) => {
                let mut i: usize = 0;
                while i < subs.len()
                    invariant
                        i <= subs.len(),
                        out.len() == i,
                        *self == Subscribe::V3(*subs),
                        forall|k: int| 0 <= k < i ==> ((#[trigger] out[k]).0@, out[k].1) == self.entry_at(k),
                    decreases subs.len() - i,
                {
                    out.push((subs[i].0.clone_topic(), subs[i].1));
                    i += 1;
                }
            },
            Subscribe::V5(subs) => {
                let mut i: usize = 0;
                while i < subs.topic_filters.len()
                    invariant
                        i <= subs.topic_filters.len(),
                        out.len() == i,
                        *self == Subscribe::V5(*subs),
                        forall|k: int| 0 <= k < i ==> ((#[trigger] out[k]).0@, out[k].1) == self.entry_at(k),
                        forall|k: int| 0 <= k < i ==> parsed_levels((#[trigger] subs.topic_filters[k]).0@) is Some,
                    decreases subs.topic_filters.len() - i,
                {
                    match Topic::parse(subs.topic_filters[i].0.as_str()) {
                        Ok(t) => {
                            out.push((t, subs.topic_filters[i].1.qos));
                        },
                        Err(e) => {
                            return Err(e);
                        },
                    }
                    i += 1;
                }
            },
        }
        Ok(out)
    }

    /// Takes every entry for `topic_filter` out of a 3.1.1 request and keeps
    /// the others in order. A 5.0 request is left as it is.
    pub fn remove(&mut self, topic_filter: &TopicFilter)
        ensures
            match *old(self) {
                Subscribe::V3(a) => *final(self) matches Subscribe::V3(c) && c@ == without_filter(
                    a@,
                    topic_filter@,
                ),
                Subscribe::V5(_) => *final(self) == *old(self),
            },
    {
        match self {
            Subscribe::V3(subs) => {
                let ghost before = subs@;
                let ghost mut j: int = 0;
                let mut i: usize = 0;
                proof {
                    assert(before.subrange(0, 0) =~= Seq::<(TopicFilter, QoS)>::empty());
                    assert(subs@.subrange(0, 0) =~= Seq::<(TopicFilter, QoS)>::empty());
                    assert(subs@.subrange(0, subs@.len() as int) =~= before.subrange(0, before.len() as int));
                }
                while i < subs.len()
                    invariant
                        0 <= i <= subs.len(),
                        i <= j <= before.len(),
                        subs.len() - i == before.len() - j,
                        subs@.subrange(0, i as int) == without_filter(before.subrange(0, j), topic_filter@),
                        subs@.subrange(i as int, subs@.len() as int) == before.subrange(j, before.len() as int),
                    decreases subs.len() - i,
                {
                    proof {
                        let next = before.subrange(0, j + 1);
                        assert(next.drop_last() =~= before.subrange(0, j));
                        assert(subs@[i as int] == subs@.subrange(i as int, subs@.len() as int)[0]);
                        assert(next.last() == subs@[i as int]);
                        reveal(Seq::filter);
                    }
                    let ghost prev = subs@;
                    proof {
                        assert forall|k: int| i <= k < prev.len() implies #[trigger] prev[k] == before[k - i + j] by {
                            assert(prev.subrange(i as int, prev.len() as int)[k - i] == before.subrange(
                                j,
                                before.len() as int,
                            )[k - i]);
                        }
                    }
                    if subs[i].0.same(topic_filter) {
                        subs.remove(i);
                        proof {
                            assert(subs@.subrange(0, i as int) =~= prev.subrange(0, i as int));
                            assert(subs@.subrange(i as int, subs@.len() as int) =~= before.subrange(
                                j + 1,
                                before.len() as int,
                            ));
                            j = j + 1;
                        }
                    } else {
                        i += 1;
                        proof {
                            assert(subs@.subrange(0, i as int) =~= prev.subrange(0, i - 1).push(prev[i - 1]));
                            assert(subs@.subrange(i as int, subs@.len() as int) =~= before.subrange(
                                j + 1,
                                before.len() as int,
                            ));
                            j = j + 1;
                        }
                    }
                }
                proof {
                    assert(subs@.subrange(0, i as int) =~= subs@);
                    assert(before.subrange(0, j) =~= before);
                }
            },
            Subscribe::V5(_subs) => {},
        }
    }

    /// Lowers the level of every entry for `topic_filter` of a 3.1.1 request to
    /// `qos` where it is above it. A 5.0 request is left as it is.
    pub fn set_qos_if_less(&mut self, topic_filter: &TopicFilter, qos: QoS)
        ensures
            match *old(self) {
                Subscribe::V3(a) => {
                    &&& *final(self) matches Subscribe::V3(c)
                    &&& c.len() == a.len()
                    &&& forall|i: int|
                        0 <= i < a.len() ==> (#[trigger] c[i]).0 == a[i].0 && c[i].1 == if a[i].0@
                            == topic_filter@ {
                            qos_less(a[i].1, qos)
                        } else {
                            a[i].1
                        }
                },
                Subscribe::V5(_) => *final(self) == *old(self),
            },
    {
        match self {
            Subscribe::V3(subs) => {
                let ghost before = subs@;
                let mut i: usize = 0;
                while i < subs.len()
                    invariant
                        i <= subs.len(),
                        subs.len() == before.len(),
                        forall|k: int|
                            0 <= k < i ==> (#[trigger] subs[k]).0 == before[k].0 && subs[k].1 == if before[k].0@
                                == topic_filter@ {
                                qos_less(before[k].1, qos)
                            } else {
                                before[k].1
                            },
                        forall|k: int| i <= k < subs.len() ==> subs[k] == before[k],
                    decreases subs.len() - i,
                {
                    if subs[i].0.same(topic_filter) {
                        let lowered = subs[i].1.less_value(qos);
                        subs[i].1 = lowered;
                    }
                    i += 1;
                }
            },
            Subscribe::V5(_subs) => {},
        }
    }
}

} // verus!
