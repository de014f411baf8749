//! Connection requests, their wills and their acknowledgement codes.

use vstd::prelude::*;
use crate::identity::{decimal, decimal_string, Id};
use crate::json::{
    fields_view, opt_bool_json, opt_bytes_json, opt_number_json, opt_string_json, properties_json, push_field,
    JsonValue, JsonView,
};
use crate::packet::{ConnectV3, ConnectV5, LastWillV3, LastWillV5, MQTT_LEVEL_5};
use crate::qos::{qos_value, QoSEx};
use crate::render::{
    bool_text, opt_bool_text, opt_bytes_text, opt_number_text, opt_quoted_text, pairs_text, push_bool,
    push_opt_bool, push_opt_bytes, push_opt_number, push_opt_quoted, push_pairs, push_quoted, quoted,
};

verus! {

/// The standard base64 text, with padding, of binary data.
pub uninterp spec fn base64_text(data: Seq<u8>) -> Seq<char>;

/// Calls `base64::encode`. The contract claims that the text is a function of
/// the bytes alone, named [`base64_text`].
#[verifier::external_body]
fn base64_encode(data: &Vec<u8>) -> (r: String)
    ensures
        r@ == base64_text(data@),
{
    base64::encode(data)
}

/// Appending a label and a value to a text that ends a longer text appends
/// them to the longer text.
pub proof fn lemma_appended(start: Seq<char>, t: Seq<char>, label: Seq<char>, value: Seq<char>)
    ensures
        start + t + label + value == start + (t + label + value),
{
    assert(start + t + label + value =~= start + (t + label + value));
}

/// A read-only view of the will of a connection.
#[derive(Clone, Copy)]
pub enum LastWill<'a> {
    V3(&'a LastWillV3),
    V5(&'a LastWillV5),
}

/// The view of an optional string.
pub open spec fn opt_text(s: Option<String>) -> Option<Seq<char>> {
    match s {
        Some(x) => Some(x@),
        None => None,
    }
}

/// The view of optional binary data.
pub open spec fn opt_data(b: Option<Vec<u8>>) -> Option<Seq<u8>> {
    match b {
        Some(x) => Some(x@),
        None => None,
    }
}

/// An optional number as an integer.
pub open spec fn opt_int(n: Option<u32>) -> Option<int> {
    match n {
        Some(x) => Some(x as int),
        None => None,
    }
}

/// An optional small number as an integer.
pub open spec fn opt_int16(n: Option<u16>) -> Option<int> {
    match n {
        Some(x) => Some(x as int),
        None => None,
    }
}

/// The members that the wills of both versions have: level, retain flag,
/// topic, and the message in base64.
pub open spec fn will_members(qos: int, retain: bool, topic: Seq<char>, message: Seq<u8>) -> Seq<
    (Seq<char>, JsonView),
> {
    seq![
        ("qos"@, JsonView::Number(qos)),
        ("retain"@, JsonView::Bool(retain)),
        ("topic"@, JsonView::String(topic)),
        ("message"@, JsonView::String(base64_text(message))),
    ]
}

/// The members that only the will of a 5.0 connection has.
pub open spec fn will_v5_members(lw: LastWillV5) -> Seq<(Seq<char>, JsonView)> {
    seq![
        ("will_delay_interval_sec"@, opt_number_json(opt_int(lw.will_delay_interval_sec))),
        ("correlation_data"@, opt_bytes_json(opt_data(lw.correlation_data))),
        ("message_expiry_interval"@, opt_number_json(opt_int(lw.message_expiry_interval))),
        ("content_type"@, opt_string_json(opt_text(lw.content_type))),
        ("user_properties"@, properties_json(lw.user_properties@)),
        ("is_utf8_payload"@, opt_bool_json(lw.is_utf8_payload)),
        ("response_topic"@, opt_string_json(opt_text(lw.response_topic))),
    ]
}

impl<'a> LastWill<'a> {
    /// The JSON projection of the will.
    pub open spec fn json(&self) -> JsonView {
        match *self {
            LastWill::V3(lw) => JsonView::Object(will_members(qos_value(lw.qos), lw.retain, lw.topic@, lw.message@)),
            LastWill::V5(lw) => JsonView::Object(
                will_members(qos_value(lw.qos), lw.retain, lw.topic@, lw.message@) + will_v5_members(*lw),
            ),
        }
    }

    /// The fields that the diagnostic text of both versions shows. The message
    /// is not among them: in its place stands a fixed marker.
    pub open spec fn debug_head(topic: Seq<char>, retain: bool, qos: int) -> Seq<char> {
        "LastWill { topic: "@ + quoted(topic) + ", retain: "@ + bool_text(retain) + ", qos: "@ + decimal(
            qos as nat,
        ) + ", message: \"<REDACTED>\""@
    }

    /// The fields that the diagnostic text of a 5.0 will shows in addition.
    pub open spec fn debug_tail(lw: LastWillV5) -> Seq<char> {
        ", will_delay_interval_sec: "@ + opt_number_text(lw.will_delay_interval_sec) + ", correlation_data: "@ + opt_bytes_text(lw.correlation_data) + ", message_expiry_interval: "@ + opt_number_text(lw.message_expiry_interval) + ", content_type: "@ + opt_quoted_text(lw.content_type) + ", user_properties: "@ + pairs_text(lw.user_properties@) + ", is_utf8_payload: "@ + opt_bool_text(lw.is_utf8_payload) + ", response_topic: "@ + opt_quoted_text(lw.response_topic)
    }

    /// The diagnostic text of the will.
    pub open spec fn debug_text(&self) -> Seq<char> {
        match *self {
            LastWill::V3(lw) => Self::debug_head(lw.topic@, lw.retain, qos_value(lw.qos)) + " }"@,
            LastWill::V5(lw) => Self::debug_head(lw.topic@, lw.retain, qos_value(lw.qos)) + Self::debug_tail(*lw)
                + " }"@,
        }
    }

    /// Appends the fields that the diagnostic text of both versions shows.
    fn push_debug_head(out: &mut String, topic: &str, retain: bool, qos: u8)
        requires
            old(out)@.len() == 0,
        ensures
            final(out)@ == Self::debug_head(topic@, retain, qos as int),
    {
        out.append("LastWill { topic: ");
        push_quoted(out, topic);
        let ghost t1 = "LastWill { topic: "@ + quoted(topic@);
        assert(out@ =~= t1);
        out.append(", retain: ");
        push_bool(out, retain);
        let ghost t2 = t1 + ", retain: "@ + bool_text(retain);
        assert(out@ =~= t2);
        out.append(", qos: ");
        out.append(decimal_string(qos as u64).as_str());
        let ghost t3 = t2 + ", qos: "@ + decimal(qos as nat);
        assert(out@ =~= t3);
        out.append(", message: \"<REDACTED>\"");
    }

    /// Appends the fields that the diagnostic text of a 5.0 will shows in
    /// addition.
    fn push_debug_tail(out: &mut String, lw: &LastWillV5)
        ensures
            final(out)@ == old(out)@ + Self::debug_tail(*lw),
    {
        let ghost start = out@;
        let ghost t0 = Seq::<char>::empty();
        assert(start + t0 =~= start);
        out.append(", will_delay_interval_sec: ");
        push_opt_number(out, lw.will_delay_interval_sec);
        let ghost label1 = ", will_delay_interval_sec: "@;
        let ghost t1 = t0 + label1 + opt_number_text(lw.will_delay_interval_sec);
        proof {
            lemma_appended(start, t0, label1, opt_number_text(lw.will_delay_interval_sec));
        }
        out.append(", correlation_data: ");
        push_opt_bytes(out, &lw.correlation_data);
        let ghost label2 = ", correlation_data: "@;
        let ghost t2 = t1 + label2 + opt_bytes_text(lw.correlation_data);
        proof {
            lemma_appended(start, t1, label2, opt_bytes_text(lw.correlation_data));
        }
        out.append(", message_expiry_interval: ");
        push_opt_number(out, lw.message_expiry_interval);
        let ghost label3 = ", message_expiry_interval: "@;
        let ghost t3 = t2 + label3 + opt_number_text(lw.message_expiry_interval);
        proof {
            lemma_appended(start, t2, label3, opt_number_text(lw.message_expiry_interval));
        }
        out.append(", content_type: ");
        push_opt_quoted(out, &lw.content_type);
        let ghost label4 = ", content_type: "@;
        let ghost t4 = t3 + label4 + opt_quoted_text(lw.content_type);
        proof {
            lemma_appended(start, t3, label4, opt_quoted_text(lw.content_type));
        }
        out.append(", user_properties: ");
        push_pairs(out, &lw.user_properties);
        let ghost label5 = ", user_properties: "@;
        let ghost t5 = t4 + label5 + pairs_text(lw.user_properties@);
        proof {
            lemma_appended(start, t4, label5, pairs_text(lw.user_properties@));
        }
        out.append(", is_utf8_payload: ");
        push_opt_bool(out, lw.is_utf8_payload);
        let ghost label6 = ", is_utf8_payload: "@;
        let ghost t6 = t5 + label6 + opt_bool_text(lw.is_utf8_payload);
        proof {
            lemma_appended(start, t5, label6, opt_bool_text(lw.is_utf8_payload));
        }
        out.append(", response_topic: ");
        push_opt_quoted(out, &lw.response_topic);
        let ghost label7 = ", response_topic: "@;
        let ghost t7 = t6 + label7 + opt_quoted_text(lw.response_topic);
        proof {
            lemma_appended(start, t6, label7, opt_quoted_text(lw.response_topic));
        }
        assert(t1 =~= label1 + opt_number_text(lw.will_delay_interval_sec));
        assert(t7 == Self::debug_tail(*lw));
    }

    /// The diagnostic text of the will. It shows every field but the message,
    /// which may be confidential.
    pub fn debug_string(&self) -> (r: String)
        ensures
            r@ == self.debug_text(),
    {
        let mut out = String::new();
        match self {
            LastWill::V3(lw) => {
                Self::push_debug_head(&mut out, lw.topic.as_str(), lw.retain, lw.qos.value());
                out.append(" }");
            },
            LastWill::V5(lw) => {
                Self::push_debug_head(&mut out, lw.topic.as_str(), lw.retain, lw.qos.value());
                Self::push_debug_tail(&mut out, lw);
                out.append(" }");
            },
        }
        out
    }

    /// The JSON projection: level, retain flag, topic and the message in
    /// base64; for a 5.0 will also its properties.
    pub fn to_json(&self) -> (r: JsonValue)
        ensures
            r@ == self.json(),
    {
        let mut fields: Vec<(String, JsonValue)> = Vec::new();
        match self {
            LastWill::V3(lw) => {
                push_field(&mut fields, "qos", JsonValue::number(lw.qos.value() as i64));
                push_field(&mut fields, "retain", JsonValue::Bool(lw.retain));
                push_field(&mut fields, "topic", JsonValue::string(lw.topic.as_str()));
                push_field(&mut fields, "message", JsonValue::String(base64_encode(&lw.message)));
                assert(fields_view(fields@) =~= self.json()->Object_0);
            },
            LastWill::V5(lw) => {
                push_field(&mut fields, "qos", JsonValue::number(lw.qos.value() as i64));
                push_field(&mut fields, "retain", JsonValue::Bool(lw.retain));
                push_field(&mut fields, "topic", JsonValue::string(lw.topic.as_str()));
                push_field(&mut fields, "message", JsonValue::String(base64_encode(&lw.message)));
                push_field(&mut fields, "will_delay_interval_sec", JsonValue::opt_number(lw.will_delay_interval_sec));
                push_field(&mut fields, "correlation_data", JsonValue::opt_bytes(&lw.correlation_data));
                push_field(&mut fields, "message_expiry_interval", JsonValue::opt_number(lw.message_expiry_interval));
                push_field(&mut fields, "content_type", JsonValue::opt_string(&lw.content_type));
                push_field(&mut fields, "user_properties", JsonValue::properties(&lw.user_properties));
                push_field(&mut fields, "is_utf8_payload", JsonValue::opt_bool(lw.is_utf8_payload));
                push_field(&mut fields, "response_topic", JsonValue::opt_string(&lw.response_topic));
                assert(fields_view(fields@) =~= self.json()->Object_0);
            },
        }
        JsonValue::object(fields)
    }
}

/// A connection request with the identity of the client that made it.
#[derive(Debug, Clone, PartialEq)]
pub enum ConnectInfo {
    V3(Id, ConnectV3),
    V5(Id, Box<ConnectV5>),
}

/// The JSON projection of an optional will.
pub open spec fn opt_will_json(lw: Option<LastWill<'_>>) -> JsonView {
    match lw {
        Some(w) => w.json(),
        None => JsonView::Null,
    }
}

impl ConnectInfo {
    /// The identity of the client.
    pub open spec fn spec_id(&self) -> Id {
        match *self {
            ConnectInfo::V3(id, _) => id,
            ConnectInfo::V5(id, _) => id,
        }
    }

    /// The will of the connection, if it has one.
    pub open spec fn spec_last_will(&self) -> Option<LastWill<'_>> {
        match self {
            ConnectInfo::V3(_, c) => match &c.last_will {
                Some(lw) => Some(LastWill::V3(lw)),
                None => None,
            },
            ConnectInfo::V5(_, c) => match &c.last_will {
                Some(lw) => Some(LastWill::V5(lw)),
                None => None,
            },
        }
    }

    /// The members that the projection adds to those of the identity.
    pub open spec fn connect_members(&self) -> Seq<(Seq<char>, JsonView)> {
        match self {
            ConnectInfo::V3(_, c) => seq![
                ("keepalive"@, JsonView::Number(c.keep_alive as int)),
                ("proto_ver"@, JsonView::Number(c.protocol_level as int)),
                ("clean_session"@, JsonView::Bool(c.clean_session)),
                ("last_will"@, opt_will_json(self.spec_last_will())),
            ],
            ConnectInfo::V5(_, c) => seq![
                ("keepalive"@, JsonView::Number(c.keep_alive as int)),
                ("proto_ver"@, JsonView::Number(MQTT_LEVEL_5 as int)),
                ("clean_start"@, JsonView::Bool(c.clean_start)),
                ("last_will"@, opt_will_json(self.spec_last_will())),
                ("session_expiry_interval_secs"@, JsonView::Number(c.session_expiry_interval_secs as int)),
                ("auth_method"@, opt_string_json(opt_text(c.auth_method))),
                ("auth_data"@, opt_bytes_json(opt_data(c.auth_data))),
                ("request_problem_info"@, JsonView::Bool(c.request_problem_info)),
                ("request_response_info"@, JsonView::Bool(c.request_response_info)),
                ("receive_max"@, opt_number_json(opt_int16(c.receive_max))),
                ("topic_alias_max"@, JsonView::Number(c.topic_alias_max as int)),
                ("user_properties"@, properties_json(c.user_properties@)),
                ("max_packet_size"@, opt_number_json(opt_int(c.max_packet_size))),
            ],
        }
    }

    /// The JSON projection of the request: the members of the identity, then
    /// those of the request.
    pub open spec fn json(&self) -> JsonView {
        JsonView::Object(self.spec_id().json_members() + self.connect_members())
    }

    /// The identity of the client.
    pub fn id(&self) -> (r: &Id)
        ensures
            *r == self.spec_id(),
    {
        match self {
            ConnectInfo::V3(id, _) => id,
            ConnectInfo::V5(id, _) => id,
        }
    }

    /// The JSON projection of the request.
    pub fn to_json(&self) -> (r: JsonValue)
        ensures
            r@ == self.json(),
    {
        let will = match self.last_will() {
            Some(lw) => lw.to_json(),
            None => JsonValue::Null,
        };
        match self {
            ConnectInfo::V3(id, c) => {
                let mut fields = id.json_fields();
                push_field(&mut fields, "keepalive", JsonValue::number(c.keep_alive as i64));
                push_field(&mut fields, "proto_ver", JsonValue::number(c.protocol_level as i64));
                push_field(&mut fields, "clean_session", JsonValue::Bool(c.clean_session));
                push_field(&mut fields, "last_will", will);
                assert(fields_view(fields@) =~= self.json()->Object_0);
                JsonValue::object(fields)
            },
            ConnectInfo::V5(id, c) => {
                let mut fields = id.json_fields();
                push_field(&mut fields, "keepalive", JsonValue::number(c.keep_alive as i64));
                push_field(&mut fields, "proto_ver", JsonValue::number(MQTT_LEVEL_5 as i64));
                push_field(&mut fields, "clean_start", JsonValue::Bool(c.clean_start));
                push_field(&mut fields, "last_will", will);
                push_field(
                    &mut fields,
                    "session_expiry_interval_secs",
                    JsonValue::number(c.session_expiry_interval_secs as i64),
                );
                push_field(&mut fields, "auth_method", JsonValue::opt_string(&c.auth_method));
                push_field(&mut fields, "auth_data", JsonValue::opt_bytes(&c.auth_data));
                push_field(&mut fields, "request_problem_info", JsonValue::Bool(c.request_problem_info));
                push_field(&mut fields, "request_response_info", JsonValue::Bool(c.request_response_info));
                let receive_max = match c.receive_max {
                    Some(n) => JsonValue::number(n as i64),
                    None => JsonValue::Null,
                };
                push_field(&mut fields, "receive_max", receive_max);
                push_field(&mut fields, "topic_alias_max", JsonValue::number(c.topic_alias_max as i64));
                push_field(&mut fields, "user_properties", JsonValue::properties(&c.user_properties));
                push_field(&mut fields, "max_packet_size", JsonValue::opt_number(c.max_packet_size));
                assert(fields_view(fields@) =~= self.json()->Object_0);
                JsonValue::object(fields)
            },
        }
    }

    /// The will of the connection, if it has one.
    pub fn last_will(&self) -> (r: Option<LastWill<'_>>)
        ensures
            r == self.spec_last_will(),
    {
        match self {
            ConnectInfo::V3(_, conn_info) => match &conn_info.last_will {
                Some(lw) => Some(LastWill::V3(lw)),
                None => None,
            },
            ConnectInfo::V5(_, conn_info) => match &conn_info.last_will {
                Some(lw) => Some(LastWill::V5(lw)),
                None => None,
            },
        }
    }

    /// The keep-alive interval in seconds.
    pub fn keep_alive(&self) -> (r: u16)
        ensures
            r == match *self {
                ConnectInfo::V3(_, c) => c.keep_alive,
                ConnectInfo::V5(_, c) => c.keep_alive,
            },
    {
        match self {
            ConnectInfo::V3(_, conn_info) => conn_info.keep_alive,
            ConnectInfo::V5(_, conn_info) => conn_info.keep_alive,
        }
    }
}

} // verus!
