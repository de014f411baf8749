//! A JSON document model used for the projections that admin interfaces read.

use vstd::prelude::*;

verus! {

/// A JSON document. Numbers are integers: every numeric field of the message
/// model is one.
#[derive(Debug, PartialEq, Eq)]
pub enum JsonValue {
    Null,
    Bool(bool),
    Number(i64),
    String(String),
    Array(Vec<JsonValue>),
    Object(Vec<(String, JsonValue)>),
}

/// The mathematical value of a [`JsonValue`].
pub enum JsonView {
    Null,
    Bool(bool),
    Number(int),
    String(Seq<char>),
    Array(Seq<JsonView>),
    Object(Seq<(Seq<char>, JsonView)>),
}

/// The mathematical value of a document.
pub open spec fn json_view(v: JsonValue) -> JsonView
    decreases v,
{
    match v {
        JsonValue::Null => JsonView::Null,
        JsonValue::Bool(b) => JsonView::Bool(b),
        JsonValue::Number(n) => JsonView::Number(n as int),
        JsonValue::String(s) => JsonView::String(s@),
        JsonValue::Array(items) => JsonView::Array(
            Seq::new(
                items.len() as nat,
                |i: int|
                    if 0 <= i < items.len() {
                        json_view(items[i])
                    } else {
                        JsonView::Null
                    },
            ),
        ),
        JsonValue::Object(fields) => JsonView::Object(
            Seq::new(
                fields.len() as nat,
                |i: int|
                    if 0 <= i < fields.len() {
                        (fields[i].0@, json_view(fields[i].1))
                    } else {
                        (Seq::empty(), JsonView::Null)
                    },
            ),
        ),
    }
}

impl View for JsonValue {
    type V = JsonView;

    open spec fn view(&self) -> JsonView {
        json_view(*self)
    }
}

/// The views of the members of an object, in order.
pub open spec fn fields_view(fields: Seq<(String, JsonValue)>) -> Seq<(Seq<char>, JsonView)> {
    Seq::new(fields.len(), |i: int| (fields[i].0@, fields[i].1@))
}

/// The views of the items of an array, in order.
pub open spec fn items_view(items: Seq<JsonValue>) -> Seq<JsonView> {
    Seq::new(items.len(), |i: int| items[i]@)
}

/// A string, or `null` where there is none.
pub open spec fn opt_string_json(s: Option<Seq<char>>) -> JsonView {
    match s {
        Some(x) => JsonView::String(x),
        None => JsonView::Null,
    }
}

/// A number, or `null` where there is none.
pub open spec fn opt_number_json(n: Option<int>) -> JsonView {
    match n {
        Some(x) => JsonView::Number(x),
        None => JsonView::Null,
    }
}

/// A flag, or `null` where there is none.
pub open spec fn opt_bool_json(b: Option<bool>) -> JsonView {
    match b {
        Some(x) => JsonView::Bool(x),
        None => JsonView::Null,
    }
}

/// Binary data as the array of its bytes.
pub open spec fn bytes_json(b: Seq<u8>) -> JsonView {
    JsonView::Array(Seq::new(b.len(), |i: int| JsonView::Number(b[i] as int)))
}

/// Binary data, or `null` where there is none.
pub open spec fn opt_bytes_json(b: Option<Seq<u8>>) -> JsonView {
    match b {
        Some(x) => bytes_json(x),
        None => JsonView::Null,
    }
}

/// A list of name and value pairs as an array of two-element arrays.
pub open spec fn properties_json(p: Seq<(String, String)>) -> JsonView {
    JsonView::Array(
        Seq::new(p.len(), |i: int| JsonView::Array(seq![JsonView::String(p[i].0@), JsonView::String(p[i].1@)])),
    )
}

/// The value of the first member called `key`, if the document is an object
/// that has one.
pub open spec fn member(doc: JsonView, key: Seq<char>) -> Option<JsonView> {
    match doc {
        JsonView::Object(fields) => if exists|i: int| 0 <= i < fields.len() && fields[i].0 == key {
            let i = choose|i: int| 0 <= i < fields.len() && fields[i].0 == key;
            Some(fields[i].1)
        } else {
            None
        },
        _ => None,
    }
}

/// The view of an object is the object of the views of its members.
pub proof fn lemma_object_view(fields: Vec<(String, JsonValue)>)
    ensures
        JsonValue::Object(fields)@ == JsonView::Object(fields_view(fields@)),
{
    let a = JsonValue::Object(fields)@;
    let b = fields_view(fields@);
    assert(a is Object);
    assert(a->Object_0.len() == b.len());
    assert forall|i: int| 0 <= i < b.len() implies a->Object_0[i] == b[i] by {
        assert(a->Object_0[i].0 == fields[i].0@);
        assert(a->Object_0[i].1 == fields[i].1@);
    }
    assert(a->Object_0 =~= b);
}

/// The view of an array is the array of the views of its items.
pub proof fn lemma_array_view(items: Vec<JsonValue>)
    ensures
        JsonValue::Array(items)@ == JsonView::Array(items_view(items@)),
{
    let a = JsonValue::Array(items)@;
    assert(a->Array_0 =~= items_view(items@));
}

impl JsonValue {
    /// A JSON string.
    pub fn string(s: &str) -> (r: JsonValue)
        ensures
            r@ == JsonView::String(s@),
    {
        JsonValue::String(String::from_str(s))
    }

    /// A JSON number.
    pub fn number(n: i64) -> (r: JsonValue)
        ensures
            r@ == JsonView::Number(n as int),
    {
        JsonValue::Number(n)
    }

    /// A string, or `null` where there is none.
    pub fn opt_string(s: &Option<String>) -> (r: JsonValue)
        ensures
            r@ == opt_string_json(
                match *s {
                    Some(x) => Some(x@),
                    None => None,
                },
            ),
    {
        match s {
            Some(x) => JsonValue::String(x.clone()),
            None => JsonValue::Null,
        }
    }

    /// A number, or `null` where there is none.
    pub fn opt_number(n: Option<u32>) -> (r: JsonValue)
        ensures
            r@ == opt_number_json(
                match n {
                    Some(x) => Some(x as int),
                    None => None,
                },
            ),
    {
        match n {
            Some(x) => JsonValue::Number(x as i64),
            None => JsonValue::Null,
        }
    }

    /// A flag, or `null` where there is none.
    pub fn opt_bool(b: Option<bool>) -> (r: JsonValue)
        ensures
            r@ == opt_bool_json(b),
    {
        match b {
            Some(x) => JsonValue::Bool(x),
            None => JsonValue::Null,
        }
    }

    /// An array with the given items.
    pub fn array(items: Vec<JsonValue>) -> (r: JsonValue)
        ensures
            r@ == JsonView::Array(items_view(items@)),
    {
        proof {
            lemma_array_view(items);
        }
        JsonValue::Array(items)
    }

    /// An object with the given members.
    pub fn object(fields: Vec<(String, JsonValue)>) -> (r: JsonValue)
        ensures
            r@ == JsonView::Object(fields_view(fields@)),
    {
        proof {
            lemma_object_view(fields);
        }
        JsonValue::Object(fields)
    }

    /// Binary data as the array of its bytes.
    pub fn bytes(b: &Vec<u8>) -> (r: JsonValue)
        ensures
            r@ == bytes_json(b@),
    {
        let mut items: Vec<JsonValue> = Vec::new();
        let mut i: usize = 0;
        while i < b.len()
            invariant
                i <= b.len(),
                items.len() == i,
                forall|k: int| 0 <= k < i ==> (#[trigger] items[k])@ == JsonView::Number(b[k] as int),
            decreases b.len() - i,
        {
            items.push(JsonValue::Number(b[i] as i64));
            i += 1;
        }
        let r = Self::array(items);
        assert(r@->Array_0 =~= bytes_json(b@)->Array_0);
        r
    }

    /// Binary data, or `null` where there is none.
    pub fn opt_bytes(b: &Option<Vec<u8>>) -> (r: JsonValue)
        ensures
            r@ == opt_bytes_json(
                match *b {
                    Some(x) => Some(x@),
                    None => None,
                },
            ),
    {
        match b {
            Some(x) => Self::bytes(x),
            None => JsonValue::Null,
        }
    }

    /// A list of name and value pairs as an array of two-element arrays.
    pub fn properties(p: &Vec<(String, String)>) -> (r: JsonValue)
        ensures
            r@ == properties_json(p@),
    {
        let mut items: Vec<JsonValue> = Vec::new();
        let mut i: usize = 0;
        while i < p.len()
            invariant
                i <= p.len(),
                items.len() == i,
                forall|k: int|
                    0 <= k < i ==> (#[trigger] items[k])@ == JsonView::Array(
                        seq![JsonView::String(p[k].0@), JsonView::String(p[k].1@)],
                    ),
            decreases p.len() - i,
        {
            let mut pair: Vec<JsonValue> = Vec::new();
            pair.push(JsonValue::String(p[i].0.clone()));
            pair.push(JsonValue::String(p[i].1.clone()));
            let item = Self::array(pair);
            assert(item@->Array_0 =~= seq![JsonView::String(p[i as int].0@), JsonView::String(p[i as int].1@)]);
            items.push(item);
            i += 1;
        }
        let r = Self::array(items);
        assert(r@->Array_0 =~= properties_json(p@)->Array_0);
        r
    }
}

/// Appends a member to the members of an object under construction.
pub fn push_field(fields: &mut Vec<(String, JsonValue)>, key: &str, value: JsonValue)
    ensures
        fields_view(final(fields)@) == fields_view(old(fields)@).push((key@, value@)),
{
    fields.push((String::from_str(key), value));
    assert(fields_view(fields@) =~= fields_view(old(fields)@).push((key@, value@)));
}

} // verus!
