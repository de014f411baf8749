//! Unsubscribe requests, and the single-filter forms of subscribe and
//! unsubscribe.

use vstd::prelude::*;
use crate::error::MqttError;
use crate::packet::{PacketId, SubscriptionOptions, UnsubscribeAckV5, UnsubscribeV5, UserProperties};
use crate::qos::QoS;
use crate::topic::{parsed_levels, topic_text, LevelView, Topic, TopicFilter, TopicFilters};

verus! {

/// One filter of a 5.0 subscribe request, with what the request carried.
#[derive(Debug, PartialEq, Eq)]
pub struct SubscribedV5 {
    pub packet_id: PacketId,
    pub id: Option<u32>,
    pub user_properties: UserProperties,
    pub topic_filter: (String, SubscriptionOptions),
}

/// One filter that a client subscribed to.
#[derive(Debug, PartialEq, Eq)]
pub enum Subscribed {
    V3((Topic, QoS)),
    V5(SubscribedV5),
}

impl Subscribed {
    /// The filter and its level. Fails with `MalformedTopic` exactly where the
    /// text of a 5.0 filter is malformed.
    pub fn topic_filter(&self) -> (r: Result<(TopicFilter, QoS), MqttError>)
        ensures
            match *self {
                Subscribed::V3(entry) => r is Ok && r->Ok_0.0@ == entry.0@ && r->Ok_0.1 == entry.1,
                Subscribed::V5(sub) => match r {
                    Ok(entry) => parsed_levels(sub.topic_filter.0@) == Some(entry.0@) && entry.1
                        == sub.topic_filter.1.qos,
                    Err(e) => parsed_levels(sub.topic_filter.0@) is None && e == MqttError::MalformedTopic,
                },
            },
    {
        match self {
            Subscribed::V3(entry) => Ok((entry.0.clone_topic(), entry.1)),
            Subscribed::V5(sub) => {
                match Topic::parse(sub.topic_filter.0.as_str()) {
                    Ok(t) => Ok((t, sub.topic_filter.1.qos)),
                    Err(e) => Err(e),
                }
            },
        }
    }
}

/// An unsubscribe request.
#[derive(Debug, Clone, PartialEq, Eq)]
pub enum Unsubscribe {
    V3(Vec<TopicFilter>),
    V5(UnsubscribeV5),
}

impl Unsubscribe {
    /// Number of filters of the request.
    pub open spec fn spec_len(&self) -> nat {
        match self {
            Unsubscribe::V3(unsubs) => unsubs.len() as nat,
            Unsubscribe::V5(unsubs) => unsubs.topic_filters.len() as nat,
        }
    }

    /// Whether every filter of the request is a well-formed topic filter; those
    /// of a 3.1.1 request always are.
    pub open spec fn filters_parse(&self) -> bool {
        match self {
            Unsubscribe::V3(_) => true,
            Unsubscribe::V5(unsubs) => forall|i: int|
                0 <= i < unsubs.topic_filters.len() ==> parsed_levels(#[trigger] unsubs.topic_filters[i]@) is Some,
        }
    }

    /// The filter that entry `i` of the request stands for.
    pub open spec fn filter_at(&self, i: int) -> Seq<LevelView> {
        match self {
            Unsubscribe::V3(unsubs) => unsubs[i]@,
            Unsubscribe::V5(unsubs) => parsed_levels(unsubs.topic_filters[i]@)->0,
        }
    }

    /// The filters of the request, in order. Fails with `MalformedTopic`
    /// exactly where a filter of a 5.0 request is malformed.
    pub fn topic_filters(&self) -> (r: Result<Vec<TopicFilter>, MqttError>)
        ensures
            match r {
                Ok(v) => {
                    &&& self.filters_parse()
                    &&& v.len() == self.spec_len()
                    &&& forall|i: int| 0 <= i < v.len() ==> (#[trigger] v[i])@ == self.filter_at(i)
                },
                Err(e) => !self.filters_parse() && e == MqttError::MalformedTopic,
            },
    {
        let mut out: Vec<TopicFilter> = Vec::new();
        match self {
            Unsubscribe::V3(unsubs) => {
                let mut i: usize = 0;
                while i < unsubs.len()
                    invariant
                        i <= unsubs.len(),
                        out.len() == i,
                        *self == Unsubscribe::V3(*unsubs),
                        forall|k: int| 0 <= k < i ==> (#[trigger] out[k])@ == self.filter_at(k),
                    decreases unsubs.len() - i,
                {
                    out.push(unsubs[i].clone_topic());
                    i += 1;
                }
            },
            Unsubscribe::V5(unsubs) => {
                let mut i: usize = 0;
                while i < unsubs.topic_filters.len()
                    invariant
                        i <= unsubs.topic_filters.len(),
                        out.len() == i,
                        *self == Unsubscribe::V5(*unsubs),
                        forall|k: int| 0 <= k < i ==> (#[trigger] out[k])@ == self.filter_at(k),
                        forall|k: int| 0 <= k < i ==> parsed_levels(#[trigger] unsubs.topic_filters[k]@) is Some,
                    decreases unsubs.topic_filters.len() - i,
                {
                    match Topic::parse(unsubs.topic_filters[i].as_str()) {
                        Ok(t) => {
                            out.push(t);
                        },
                        Err(e) => {
                            return Err(e);
                        },
                    }
                    i += 1;
                }
            },
        }
        Ok(out)
    }

    /// What `adjust_topic_filters` makes of a request and a replacement list
    /// of the same length: filter `i` becomes replacement `i`, and nothing
    /// else changes. A 5.0 request holds the replacement as text.
    pub open spec fn adjusted(before: Unsubscribe, filters: Seq<TopicFilter>, after: Unsubscribe) -> bool {
        match before {
            Unsubscribe::V3(a) => after matches Unsubscribe::V3(c) && c@ == filters,
            Unsubscribe::V5(a) => {
                &&& after matches Unsubscribe::V5(c)
                &&& c.packet_id == a.packet_id
                &&& c.user_properties == a.user_properties
                &&& c.topic_filters.len() == a.topic_filters.len()
                &&& forall|i: int|
                    0 <= i < a.topic_filters.len() ==> (#[trigger] c.topic_filters[i])@ == topic_text(filters[i]@)
            },
        }
    }

    /// Replaces the filters of the request, position by position.
    ///
    /// A list whose length differs from the number of filters is refused with
    /// `FilterCountMismatch`, and the request stays as it was.
    pub fn adjust_topic_filters(&mut self, topic_filters: TopicFilters) -> (r: Result<(), MqttError>)
        ensures
            old(self).spec_len() != topic_filters.len() ==> r == Err::<(), MqttError>(
                MqttError::FilterCountMismatch,
            ) && *final(self) == *old(self),
            old(self).spec_len() == topic_filters.len() ==> r is Ok && Self::adjusted(
                *old(self),
                topic_filters@,
                *final(self),
            ),
    {
        if self.len() != topic_filters.len() {
            return Err(MqttError::FilterCountMismatch);
        }
        let ghost filters = topic_filters@;
        let mut topic_filters = topic_filters;
        match self {
            Unsubscribe::V3(unsubs) => {
                let mut i: usize = 0;
                while i < unsubs.len()
                    invariant
                        i <= unsubs.len(),
                        unsubs.len() == filters.len(),
                        topic_filters@ == filters.subrange(i as int, filters.len() as int),
                        forall|k: int| 0 <= k < i ==> #[trigger] unsubs[k] == filters[k],
                    decreases unsubs.len() - i,
                {
                    let tf = topic_filters.remove(0);
                    unsubs[i] = tf;
                    i += 1;
                    assert(topic_filters@ =~= filters.subrange(i as int, filters.len() as int));
                }
                assert(unsubs@ =~= filters);
            },
            Unsubscribe::V5(unsubs) => {
                let ghost packet_id = unsubs.packet_id;
                let ghost user_properties = unsubs.user_properties;
                let mut i: usize = 0;
                while i < unsubs.topic_filters.len()
                    invariant
                        i <= unsubs.topic_filters.len(),
                        unsubs.packet_id == packet_id,
                        unsubs.user_properties == user_properties,
                        unsubs.topic_filters.len() == filters.len(),
                        topic_filters@ == filters.subrange(i as int, filters.len() as int),
                        forall|k: int| 0 <= k < i ==> (#[trigger] unsubs.topic_filters[k])@ == topic_text(filters[k]@),
                    decreases unsubs.topic_filters.len() - i,
                {
                    let tf = topic_filters.remove(0);
                    unsubs.topic_filters[i] = tf.to_string();
                    i += 1;
                    assert(topic_filters@ =~= filters.subrange(i as int, filters.len() as int));
                }
            },
        }
        Ok(())
    }

    /// Number of filters of the request.
    pub fn len(&self) -> (n: usize)
        ensures
            n == self.spec_len(),
    {
        match self {
            Unsubscribe::V3(unsubs) => unsubs.len(),
            Unsubscribe::V5(unsubs) => unsubs.topic_filters.len(),
        }
    }

    /// Whether the request holds no filter.
    pub fn is_empty(&self) -> (b: bool)
        ensures
            b == (self.spec_len() == 0),
    {
        self.len() == 0
    }
}

/// Acknowledgement of an unsubscribe request.
#[derive(Debug, Clone, PartialEq, Eq)]
pub enum UnsubscribeAck {
    V3,
    V5(UnsubscribeAckV5),
}

/// One filter of a 5.0 unsubscribe request, with what the request carried.
#[derive(Debug, Clone, PartialEq, Eq)]
pub struct UnsubscribedV5 {
    pub packet_id: PacketId,
    pub user_properties: UserProperties,
    pub topic_filter: String,
}

/// One filter that a client unsubscribed from.
#[derive(Debug, Clone, PartialEq, Eq)]
pub enum Unsubscribed {
    V3(TopicFilter),
    V5(UnsubscribedV5),
}

impl Unsubscribed {
    /// The filter. Fails with `MalformedTopic` exactly where the text of a 5.0
    /// filter is malformed.
    pub fn topic_filter(&self) -> (r: Result<TopicFilter, MqttError>)
        ensures
            match *self {
                Unsubscribed::V3(t) => r is Ok && r->Ok_0@ == t@,
                Unsubscribed::V5(unsub) => match r {
                    Ok(t) => parsed_levels(unsub.topic_filter@) == Some(t@),
                    Err(e) => parsed_levels(unsub.topic_filter@) is None && e == MqttError::MalformedTopic,
                },
            },
    {
        match self {
            Unsubscribed::V3(t) => Ok(t.clone_topic()),
            Unsubscribed::V5(unsub) => Topic::parse(unsub.topic_filter.as_str()),
        }
    }
}

} // verus!
