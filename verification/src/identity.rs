//! The identity of a connected client.

use vstd::prelude::*;
use std::sync::Arc;
use vstd::std_specs::cmp::PartialEqSpec;
use crate::json::{fields_view, member, push_field, JsonValue, JsonView};

verus! {

pub type NodeId = u64;

pub type ClientId = String;

pub type UserName = String;

/// The character of a decimal digit.
pub open spec fn digit_char(d: nat) -> char {
    if d == 0 {
        '0'
    } else if d == 1 {
        '1'
    } else if d == 2 {
        '2'
    } else if d == 3 {
        '3'
    } else if d == 4 {
        '4'
    } else if d == 5 {
        '5'
    } else if d == 6 {
        '6'
    } else if d == 7 {
        '7'
    } else if d == 8 {
        '8'
    } else {
        '9'
    }
}

/// A number written in decimal, without leading zeros.
pub open spec fn decimal(n: nat) -> Seq<char>
    decreases n,
{
    if n < 10 {
        seq![digit_char(n)]
    } else {
        decimal(n / 10).push(digit_char(n % 10))
    }
}

/// The text that stands for an identity: `node@local/remote/client`.
pub open spec fn id_text(node_id: nat, local_addr: Seq<char>, remote_addr: Seq<char>, client_id: Seq<char>) -> Seq<
    char,
> {
    decimal(node_id) + seq!['@'] + local_addr + seq!['/'] + remote_addr + seq!['/'] + client_id
}

/// The text that names the node side of an identity: `node/local`.
pub open spec fn node_text(node_id: nat, local_addr: Seq<char>) -> Seq<char> {
    decimal(node_id) + seq!['/'] + local_addr
}

/// The user name of an identity that was made without one.
pub open spec fn undefined_user() -> Seq<char> {
    seq!['u', 'n', 'd', 'e', 'f', 'i', 'n', 'e', 'd']
}

/// The members of the JSON projection of an identity with the given parts.
pub open spec fn id_members(
    node: Seq<char>,
    remote_addr: Seq<char>,
    client_id: Seq<char>,
    username: Seq<char>,
) -> Seq<(Seq<char>, JsonView)> {
    seq![
        ("node"@, JsonView::String(node)),
        ("ipaddress"@, JsonView::String(remote_addr)),
        ("clientid"@, JsonView::String(client_id)),
        ("username"@, JsonView::String(username)),
    ]
}

/// One decimal digit as text.
fn digit_str(d: u64) -> (r: &'static str)
    requires
        d < 10,
    ensures
        r@ == seq![digit_char(d as nat)],
{
    proof {
        reveal_strlit("0");
        reveal_strlit("1");
        reveal_strlit("2");
        reveal_strlit("3");
        reveal_strlit("4");
        reveal_strlit("5");
        reveal_strlit("6");
        reveal_strlit("7");
        reveal_strlit("8");
        reveal_strlit("9");
    }
    let r = if d == 0 {
        "0"
    } else if d == 1 {
        "1"
    } else if d == 2 {
        "2"
    } else if d == 3 {
        "3"
    } else if d == 4 {
        "4"
    } else if d == 5 {
        "5"
    } else if d == 6 {
        "6"
    } else if d == 7 {
        "7"
    } else if d == 8 {
        "8"
    } else {
        "9"
    };
    assert(r@ =~= seq![digit_char(d as nat)]);
    r
}

/// A number written in decimal.
pub fn decimal_string(n: u64) -> (r: String)
    ensures
        r@ == decimal(n as nat),
    decreases n,
{
    if n < 10 {
        String::from_str(digit_str(n))
    } else {
        let mut s = decimal_string(n / 10);
        s.append(digit_str(n % 10));
        assert(s@ =~= decimal(n as nat));
        s
    }
}

#[derive(Debug)]
struct Inner {
    id: String,
    node_id: NodeId,
    local_addr: String,
    remote_addr: String,
    client_id: ClientId,
    username: UserName,
}

/// An immutable token that stands for one connected client. Copies share the
/// text and fields of the identity they were made from.
#[derive(Debug)]
pub struct Id(Arc<Inner>);

pub type From = Id;

pub type To = Id;

impl Id {
    /// The text that stands for the identity; equality goes by it alone.
    pub closed spec fn text(&self) -> Seq<char> {
        self.0.id@
    }

    pub closed spec fn spec_node_id(&self) -> NodeId {
        self.0.node_id
    }

    pub closed spec fn spec_local_addr(&self) -> Seq<char> {
        self.0.local_addr@
    }

    pub closed spec fn spec_remote_addr(&self) -> Seq<char> {
        self.0.remote_addr@
    }

    pub closed spec fn spec_client_id(&self) -> Seq<char> {
        self.0.client_id@
    }

    pub closed spec fn spec_username(&self) -> Seq<char> {
        self.0.username@
    }

    /// The text of an identity is made of its node, addresses and client id.
    pub open spec fn wf(&self) -> bool {
        self.text() == id_text(
            self.spec_node_id() as nat,
            self.spec_local_addr(),
            self.spec_remote_addr(),
            self.spec_client_id(),
        )
    }

    #[verifier::type_invariant]
    spec fn inv(&self) -> bool {
        self.wf()
    }

    /// Makes an identity. Where no user name is given it is `undefined`.
    pub fn new(
        node_id: NodeId,
        local_addr: String,
        remote_addr: String,
        client_id: ClientId,
        username: Option<UserName>,
    ) -> (r: Id)
        ensures
            r.wf(),
            r.spec_node_id() == node_id,
            r.spec_local_addr() == local_addr@,
            r.spec_remote_addr() == remote_addr@,
            r.spec_client_id() == client_id@,
            r.spec_username() == match username {
                Some(u) => u@,
                None => undefined_user(),
            },
    {
        let mut id = decimal_string(node_id);
        id.append("@");
        id.append(local_addr.as_str());
        id.append("/");
        id.append(remote_addr.as_str());
        id.append("/");
        id.append(client_id.as_str());
        let username = match username {
            Some(u) => u,
            None => String::from_str("undefined"),
        };
        proof {
            reveal_strlit("@");
            reveal_strlit("/");
            reveal_strlit("undefined");
            assert("@"@ =~= seq!['@']);
            assert("/"@ =~= seq!['/']);
            assert("undefined"@ =~= undefined_user());
        }
        Id(Arc::new(Inner { id, node_id, local_addr, remote_addr, client_id, username }))
    }

    /// An identity that holds a client id and nothing else: node 0, empty
    /// addresses, no user name.
    pub fn from(client_id: ClientId) -> (r: Id)
        ensures
            r.wf(),
            r.spec_node_id() == 0,
            r.spec_local_addr() == Seq::<char>::empty(),
            r.spec_remote_addr() == Seq::<char>::empty(),
            r.spec_client_id() == client_id@,
            r.spec_username() == undefined_user(),
    {
        Self::new(0, String::new(), String::new(), client_id, None)
    }

    /// The text that stands for the identity.
    pub fn as_str(&self) -> (r: &str)
        ensures
            r@ == self.text(),
            self.wf(),
    {
        proof {
            use_type_invariant(self);
        }
        self.0.id.as_str()
    }

    /// The text that stands for the identity, as an owned string.
    pub fn to_string(&self) -> (r: String)
        ensures
            r@ == self.text(),
            self.wf(),
    {
        proof {
            use_type_invariant(self);
        }
        self.0.id.clone()
    }

    /// The node side of the identity: `node/local`.
    pub fn node(&self) -> (r: String)
        ensures
            r@ == node_text(self.spec_node_id() as nat, self.spec_local_addr()),
    {
        let mut s = decimal_string(self.0.node_id);
        s.append("/");
        s.append(self.0.local_addr.as_str());
        proof {
            reveal_strlit("/");
            assert("/"@ =~= seq!['/']);
        }
        s
    }

    pub fn node_id(&self) -> (r: NodeId)
        ensures
            r == self.spec_node_id(),
    {
        self.0.node_id
    }

    pub fn local_addr(&self) -> (r: &str)
        ensures
            r@ == self.spec_local_addr(),
    {
        self.0.local_addr.as_str()
    }

    pub fn remote_addr(&self) -> (r: &str)
        ensures
            r@ == self.spec_remote_addr(),
    {
        self.0.remote_addr.as_str()
    }

    pub fn client_id(&self) -> (r: &str)
        ensures
            r@ == self.spec_client_id(),
    {
        self.0.client_id.as_str()
    }

    pub fn username(&self) -> (r: &str)
        ensures
            r@ == self.spec_username(),
    {
        self.0.username.as_str()
    }

    /// The members of the JSON projection of the identity.
    pub open spec fn json_members(&self) -> Seq<(Seq<char>, JsonView)> {
        id_members(
            node_text(self.spec_node_id() as nat, self.spec_local_addr()),
            self.spec_remote_addr(),
            self.spec_client_id(),
            self.spec_username(),
        )
    }

    /// The JSON projection of the identity.
    pub open spec fn json(&self) -> JsonView {
        JsonView::Object(self.json_members())
    }

    /// The members of the JSON projection, which other projections extend.
    pub fn json_fields(&self) -> (fields: Vec<(String, JsonValue)>)
        ensures
            fields_view(fields@) == self.json_members(),
    {
        let mut fields: Vec<(String, JsonValue)> = Vec::new();
        push_field(&mut fields, "node", JsonValue::String(self.node()));
        push_field(&mut fields, "ipaddress", JsonValue::string(self.remote_addr()));
        push_field(&mut fields, "clientid", JsonValue::string(self.client_id()));
        push_field(&mut fields, "username", JsonValue::string(self.username()));
        assert(fields_view(fields@) =~= self.json_members());
        fields
    }

    /// The JSON projection: an object with the members `node`, `ipaddress`,
    /// `clientid` and `username`, and no other.
    pub fn to_json(&self) -> (r: JsonValue)
        ensures
            r@ == self.json(),
    {
        JsonValue::object(self.json_fields())
    }

    /// Another handle on the same identity.
    pub fn clone_id(&self) -> (r: Id)
        ensures
            r == *self,
    {
        proof {
            use_type_invariant(self);
        }
        Id(self.0.clone())
    }
}

impl Clone for Id {
    /// Another handle on the same identity.
    fn clone(&self) -> (r: Id)
        ensures
            r == *self,
    {
        self.clone_id()
    }
}

impl PartialEq for Id {
    fn eq(&self, other: &Id) -> (r: bool) {
        self.0.id == other.0.id
    }
}

impl Eq for Id {}

/// `String`'s `Hash::hash` of std, which feeds the text of the string to the
/// hasher. Nothing is claimed of what the hasher then holds.
pub assume_specification<H: std::hash::Hasher>[ <std::string::String as std::hash::Hash>::hash ](
    s: &std::string::String,
    state: &mut H,
);

impl std::hash::Hash for Id {
    fn hash<H: std::hash::Hasher>(&self, state: &mut H) {
        self.0.id.hash(state)
    }
}

impl vstd::std_specs::cmp::PartialEqSpecImpl for Id {
    open spec fn obeys_eq_spec() -> bool {
        true
    }

    open spec fn eq_spec(&self, other: &Id) -> bool {
        self.text() == other.text()
    }
}

/// Two identities made of the same node, addresses and client id are equal,
/// whatever their user names are.
pub proof fn lemma_id_eq_ignores_username(a: Id, b: Id)
    requires
        a.wf(),
        b.wf(),
        a.spec_node_id() == b.spec_node_id(),
        a.spec_local_addr() == b.spec_local_addr(),
        a.spec_remote_addr() == b.spec_remote_addr(),
        a.spec_client_id() == b.spec_client_id(),
    ensures
        a.eq_spec(&b),
        a.text() == b.text(),
{
}

/// Equality of identities is equality of their texts: it is reflexive,
/// symmetric and transitive, and no other field takes part in it.
pub proof fn lemma_id_eq_is_text_eq(a: Id, b: Id, c: Id)
    ensures
        a.eq_spec(&a),
        a.eq_spec(&b) == b.eq_spec(&a),
        a.eq_spec(&b) && b.eq_spec(&c) ==> a.eq_spec(&c),
        a.eq_spec(&b) <==> a.text() == b.text(),
{
}

/// The JSON projection of an identity has exactly four members, and each
/// holds the field it is named after.
pub proof fn lemma_id_json_members(id: Id)
    ensures
        id.json() is Object,
        id.json()->Object_0.len() == 4,
        member(id.json(), "node"@) == Some(
            JsonView::String(node_text(id.spec_node_id() as nat, id.spec_local_addr())),
        ),
        member(id.json(), "ipaddress"@) == Some(JsonView::String(id.spec_remote_addr())),
        member(id.json(), "clientid"@) == Some(JsonView::String(id.spec_client_id())),
        member(id.json(), "username"@) == Some(JsonView::String(id.spec_username())),
{
    reveal_strlit("node");
    reveal_strlit("ipaddress");
    reveal_strlit("clientid");
    reveal_strlit("username");
    let fields = id.json()->Object_0;
    assert(fields[0].0 == "node"@);
    assert(fields[1].0 == "ipaddress"@);
    assert(fields[2].0 == "clientid"@);
    assert(fields[3].0 == "username"@);
    assert("node"@.len() == 4 && "ipaddress"@.len() == 9 && "clientid"@.len() == 8 && "username"@.len() == 8);
    assert("clientid"@[0] == 'c' && "username"@[0] == 'u');
}

} // verus!
