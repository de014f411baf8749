//! Published messages of both protocol versions behind one set of accessors.

use vstd::prelude::*;
use crate::error::MqttError;
use crate::identity::From;
use crate::packet::{LastWillV3, PacketId, PublishPacketV3, PublishPacketV5};
use crate::qos::QoS;
use crate::topic::{parsed_levels, Topic};

verus! {

pub type TimestampMillis = i64;

pub type PublishReceiveTime = TimestampMillis;

/// The text before the first `?`, or all of it where there is none.
pub open spec fn before_query(s: Seq<char>) -> Seq<char>
    decreases s.len(),
{
    if s.len() == 0 {
        s
    } else if s[0] == '?' {
        Seq::empty()
    } else {
        seq![s[0]] + before_query(s.drop_first())
    }
}

/// The text after the first `?`, if there is one.
pub open spec fn after_query(s: Seq<char>) -> Option<Seq<char>>
    decreases s.len(),
{
    if s.len() == 0 {
        None
    } else if s[0] == '?' {
        Some(s.drop_first())
    } else {
        after_query(s.drop_first())
    }
}

/// A text without `?` followed by `?` and a rest splits into the two.
pub proof fn lemma_split_at_mark(a: Seq<char>, b: Seq<char>)
    requires
        !a.contains('?'),
    ensures
        before_query(a + seq!['?'] + b) == a,
        after_query(a + seq!['?'] + b) == Some(b),
    decreases a.len(),
{
    let s = a + seq!['?'] + b;
    if a.len() == 0 {
        assert(s[0] == '?');
        assert(s.drop_first() =~= b);
        assert(a =~= Seq::<char>::empty());
    } else {
        assert(a.contains(a[0]));
        assert(s[0] == a[0]);
        let a1 = a.drop_first();
        assert forall|c: char| a1.contains(c) implies a.contains(c) by {
            let i = choose|i: int| 0 <= i < a1.len() && a1[i] == c;
            assert(a[i + 1] == c);
        }
        assert(s.drop_first() =~= a1 + seq!['?'] + b);
        lemma_split_at_mark(a1, b);
        assert(seq![s[0]] + a1 =~= a);
    }
}

/// A text without `?` has no query and is its own topic part.
pub proof fn lemma_no_mark(a: Seq<char>)
    requires
        !a.contains('?'),
    ensures
        before_query(a) == a,
        after_query(a) is None,
    decreases a.len(),
{
    if a.len() > 0 {
        assert(a.contains(a[0]));
        let a1 = a.drop_first();
        assert forall|c: char| a1.contains(c) implies a.contains(c) by {
            let i = choose|i: int| 0 <= i < a1.len() && a1[i] == c;
            assert(a[i + 1] == c);
        }
        lemma_no_mark(a1);
        assert(seq![a[0]] + a1 =~= a);
    }
}

/// `str::split_once` of std with the delimiter `?`: the text before the first
/// `?` and the text after it, or nothing where the text holds no `?`.
#[verifier::external_body]
fn split_at_query(s: &str) -> (r: Option<(&str, &str)>)
    ensures
        match r {
            Some((a, b)) => s@ == a@ + seq!['?'] + b@ && !a@.contains('?'),
            None => !s@.contains('?'),
        },
{
    s.split_once('?')
}

/// Reads the local clock through `chrono::Local::now` and gives its
/// `timestamp_millis`. Nothing is claimed of the number.
#[verifier::external_body]
fn now_millis() -> TimestampMillis {
    chrono::Local::now().timestamp_millis()
}

/// A copy of binary data.
pub fn clone_bytes(data: &Vec<u8>) -> (r: Vec<u8>)
    ensures
        r@ == data@,
{
    let mut out: Vec<u8> = Vec::new();
    let mut i: usize = 0;
    while i < data.len()
        invariant
            i <= data.len(),
            out@ == data@.subrange(0, i as int),
        decreases data.len() - i,
    {
        out.push(data[i]);
        i += 1;
        assert(out@ =~= data@.subrange(0, i as int));
    }
    assert(data@.subrange(0, i as int) =~= data@);
    out
}

/// A published message of a 3.1.1 connection.
#[derive(Debug, Clone)]
pub struct PublishV3 {
    pub packet: PublishPacketV3,
    pub topic: Topic,
    pub query: Option<String>,
    pub create_time: TimestampMillis,
}

/// The query that decoding hands over: none where its text is empty.
pub open spec fn given_query(query: Seq<char>) -> Option<Seq<char>> {
    if query.len() == 0 {
        None
    } else {
        Some(query)
    }
}

/// The view of an optional string.
pub open spec fn query_text(q: Option<String>) -> Option<Seq<char>> {
    match q {
        Some(x) => Some(x@),
        None => None,
    }
}

impl PublishV3 {
    /// Whether `p` is the message that a will stands for.
    pub open spec fn is_will_of(p: PublishV3, lw: LastWillV3) -> bool {
        &&& p.packet.dup == false
        &&& p.packet.retain == lw.retain
        &&& p.packet.qos == lw.qos
        &&& p.packet.topic@ == lw.topic@
        &&& p.packet.packet_id is None
        &&& p.packet.payload@ == lw.message@
        &&& parsed_levels(before_query(lw.topic@)) == Some(p.topic@)
        &&& query_text(p.query) == after_query(lw.topic@)
    }

    /// Whether `p` is the message made of a decoded packet, the topic it was
    /// routed by and its query.
    pub open spec fn is_made_of(p: PublishV3, packet: PublishPacketV3, topic: Seq<char>, query: Seq<char>) -> bool {
        &&& p.packet.dup == packet.dup
        &&& p.packet.retain == packet.retain
        &&& p.packet.qos == packet.qos
        &&& p.packet.topic@ == packet.topic@
        &&& p.packet.packet_id == packet.packet_id
        &&& p.packet.payload@ == packet.payload@
        &&& parsed_levels(topic) == Some(p.topic@)
        &&& query_text(p.query) == given_query(query)
    }

    /// The message made of a decoded packet, created at the given time. Fails
    /// with `MalformedTopic` exactly where the topic is malformed.
    pub fn from_at(packet: &PublishPacketV3, topic: &str, query: &str, create_time: TimestampMillis) -> (r: Result<
        PublishV3,
        MqttError,
    >)
        ensures
            match r {
                Ok(p) => Self::is_made_of(p, *packet, topic@, query@) && p.create_time == create_time,
                Err(e) => parsed_levels(topic@) is None && e == MqttError::MalformedTopic,
            },
    {
        let parsed = match Topic::parse(topic) {
            Ok(t) => t,
            Err(e) => {
                return Err(e);
            },
        };
        let query = if query.unicode_len() == 0 {
            None
        } else {
            Some(String::from_str(query))
        };
        Ok(
            PublishV3 {
                packet: PublishPacketV3 {
                    dup: packet.dup,
                    retain: packet.retain,
                    qos: packet.qos,
                    topic: packet.topic.clone(),
                    packet_id: packet.packet_id,
                    payload: clone_bytes(&packet.payload),
                },
                topic: parsed,
                query,
                create_time,
            },
        )
    }

    /// The message made of a decoded packet, created now.
    pub fn from(packet: &PublishPacketV3, topic: &str, query: &str) -> (r: Result<PublishV3, MqttError>)
        ensures
            match r {
                Ok(p) => Self::is_made_of(p, *packet, topic@, query@),
                Err(e) => parsed_levels(topic@) is None && e == MqttError::MalformedTopic,
            },
    {
        Self::from_at(packet, topic, query, now_millis())
    }

    /// The message that a will stands for, created at the given time. The
    /// will's topic is split at its first `?` into the topic and a query. Fails
    /// with `MalformedTopic` exactly where the topic part is malformed.
    pub fn from_last_will_at(lw: &LastWillV3, create_time: TimestampMillis) -> (r: Result<PublishV3, MqttError>)
        ensures
            match r {
                Ok(p) => Self::is_will_of(p, *lw) && p.create_time == create_time,
                Err(e) => parsed_levels(before_query(lw.topic@)) is None && e == MqttError::MalformedTopic,
            },
    {
        let p = PublishPacketV3 {
            dup: false,
            retain: lw.retain,
            qos: lw.qos,
            topic: lw.topic.clone(),
            packet_id: None,
            payload: clone_bytes(&lw.message),
        };
        let (topic, query) = match split_at_query(lw.topic.as_str()) {
            Some((t, q)) => {
                proof {
                    lemma_split_at_mark(t@, q@);
                }
                (Topic::parse(t), Some(String::from_str(q)))
            },
            None => {
                proof {
                    lemma_no_mark(lw.topic@);
                }
                (Topic::parse(lw.topic.as_str()), None)
            },
        };
        match topic {
            Ok(topic) => Ok(PublishV3 { packet: p, topic, query, create_time }),
            Err(e) => Err(e),
        }
    }

    /// The message that a will stands for, created now.
    pub fn from_last_will(lw: &LastWillV3) -> (r: Result<PublishV3, MqttError>)
        ensures
            match r {
                Ok(p) => Self::is_will_of(p, *lw),
                Err(e) => parsed_levels(before_query(lw.topic@)) is None && e == MqttError::MalformedTopic,
            },
    {
        Self::from_last_will_at(lw, now_millis())
    }
}

/// A published message of a 5.0 connection.
#[derive(Debug, Clone)]
pub struct PublishV5 {
    pub publish: PublishPacketV5,
    pub topic: Topic,
    pub create_time: TimestampMillis,
}

impl PublishV5 {
    /// The message made of a decoded packet, created at the given time. Fails
    /// with `MalformedTopic` exactly where the topic of the packet is malformed.
    pub fn from_at(publish: PublishPacketV5, create_time: TimestampMillis) -> (r: Result<PublishV5, MqttError>)
        ensures
            match r {
                Ok(p) => p.publish == publish && parsed_levels(publish.topic@) == Some(p.topic@) && p.create_time
                    == create_time,
                Err(e) => parsed_levels(publish.topic@) is None && e == MqttError::MalformedTopic,
            },
    {
        match Topic::parse(publish.topic.as_str()) {
            Ok(topic) => Ok(PublishV5 { publish, topic, create_time }),
            Err(e) => Err(e),
        }
    }

    /// The message made of a decoded packet, created now.
    pub fn from(publish: PublishPacketV5) -> (r: Result<PublishV5, MqttError>)
        ensures
            match r {
                Ok(p) => p.publish == publish && parsed_levels(publish.topic@) == Some(p.topic@),
                Err(e) => parsed_levels(publish.topic@) is None && e == MqttError::MalformedTopic,
            },
    {
        Self::from_at(publish, now_millis())
    }
}

/// The identifier that a packet holds for a number: none for zero.
pub open spec fn packet_id_of(n: PacketId) -> Option<PacketId> {
    if n == 0 {
        None
    } else {
        Some(n)
    }
}

/// A published message.
#[derive(Debug, Clone)]
pub enum Publish {
    V3(Box<PublishV3>),
    V5(Box<PublishV5>),
}

impl Publish {
    pub open spec fn spec_payload(&self) -> Seq<u8> {
        match self {
            Publish::V3(p) => p.packet.payload@,
            Publish::V5(p) => p.publish.payload@,
        }
    }

    pub open spec fn spec_retain(&self) -> bool {
        match self {
            Publish::V3(p) => p.packet.retain,
            Publish::V5(p) => p.publish.retain,
        }
    }

    pub open spec fn spec_topic(&self) -> Topic {
        match self {
            Publish::V3(p) => p.topic,
            Publish::V5(p) => p.topic,
        }
    }

    pub open spec fn spec_dup(&self) -> bool {
        match self {
            Publish::V3(p) => p.packet.dup,
            Publish::V5(p) => p.publish.dup,
        }
    }

    pub open spec fn spec_qos(&self) -> QoS {
        match self {
            Publish::V3(p) => p.packet.qos,
            Publish::V5(p) => p.publish.qos,
        }
    }

    pub open spec fn spec_create_time(&self) -> TimestampMillis {
        match self {
            Publish::V3(p) => p.create_time,
            Publish::V5(p) => p.create_time,
        }
    }

    pub open spec fn spec_packet_id(&self) -> Option<PacketId> {
        match self {
            Publish::V3(p) => p.packet.packet_id,
            Publish::V5(p) => p.publish.packet_id,
        }
    }

    /// The message with its duplicate flag set to `b` and nothing else changed.
    pub open spec fn with_dup(self, b: bool) -> Publish {
        match self {
            Publish::V3(p) => Publish::V3(
                Box::new(PublishV3 { packet: PublishPacketV3 { dup: b, ..p.packet }, ..*p }),
            ),
            Publish::V5(p) => Publish::V5(
                Box::new(PublishV5 { publish: PublishPacketV5 { dup: b, ..p.publish }, ..*p }),
            ),
        }
    }

    /// The message with its packet identifier set to `id` and nothing else
    /// changed.
    pub open spec fn with_packet_id(self, id: Option<PacketId>) -> Publish {
        match self {
            Publish::V3(p) => Publish::V3(
                Box::new(PublishV3 { packet: PublishPacketV3 { packet_id: id, ..p.packet }, ..*p }),
            ),
            Publish::V5(p) => Publish::V5(
                Box::new(PublishV5 { publish: PublishPacketV5 { packet_id: id, ..p.publish }, ..*p }),
            ),
        }
    }

    pub fn payload(&self) -> (r: &Vec<u8>)
        ensures
            r@ == self.spec_payload(),
    {
        match self {
            Publish::V3(p) => &p.packet.payload,
            Publish::V5(p) => &p.publish.payload,
        }
    }

    pub fn retain(&self) -> (r: bool)
        ensures
            r == self.spec_retain(),
    {
        match self {
            Publish::V3(p) => p.packet.retain,
            Publish::V5(p) => p.publish.retain,
        }
    }

    pub fn topic(&self) -> (r: &Topic)
        ensures
            *r == self.spec_topic(),
    {
        match self {
            Publish::V3(p) => &p.topic,
            Publish::V5(p) => &p.topic,
        }
    }

    pub fn dup(&self) -> (r: bool)
        ensures
            r == self.spec_dup(),
    {
        match self {
            Publish::V3(p) => p.packet.dup,
            Publish::V5(p) => p.publish.dup,
        }
    }

    pub fn set_dup(&mut self, b: bool)
        ensures
            *final(self) == old(self).with_dup(b),
    {
        match self {
            Publish::V3(p) => p.packet.dup = b,
            Publish::V5(p) => p.publish.dup = b,
        }
    }

    /// Whether the payload is empty.
    pub fn is_empty(&self) -> (r: bool)
        ensures
            r == (self.spec_payload().len() == 0),
    {
        match self {
            Publish::V3(p) => p.packet.payload.len() == 0,
            Publish::V5(p) => p.publish.payload.len() == 0,
        }
    }

    pub fn qos(&self) -> (r: QoS)
        ensures
            r == self.spec_qos(),
    {
        match self {
            Publish::V3(p) => p.packet.qos,
            Publish::V5(p) => p.publish.qos,
        }
    }

    pub fn create_time(&self) -> (r: TimestampMillis)
        ensures
            r == self.spec_create_time(),
    {
        match self {
            Publish::V3(p) => p.create_time,
            Publish::V5(p) => p.create_time,
        }
    }

    pub fn packet_id(&self) -> (r: Option<PacketId>)
        ensures
            r == self.spec_packet_id(),
    {
        match self {
            Publish::V3(p) => p.packet.packet_id,
            Publish::V5(p) => p.publish.packet_id,
        }
    }

    pub fn packet_id_is_none(&self) -> (r: bool)
        ensures
            r == (self.spec_packet_id() is None),
    {
        match self {
            Publish::V3(p) => p.packet.packet_id.is_none(),
            Publish::V5(p) => p.publish.packet_id.is_none(),
        }
    }

    /// Sets the packet identifier; zero stands for none.
    pub fn set_packet_id(&mut self, packet_id: PacketId)
        ensures
            *final(self) == old(self).with_packet_id(packet_id_of(packet_id)),
    {
        let id = if packet_id == 0 {
            None
        } else {
            Some(packet_id)
        };
        match self {
            Publish::V3(p) => p.packet.packet_id = id,
            Publish::V5(p) => p.publish.packet_id = id,
        }
    }
}

/// A retained message and the client it came from.
#[derive(Debug, Clone)]
pub struct Retain {
    pub from: From,
    pub publish: Publish,
}

} // verus!
