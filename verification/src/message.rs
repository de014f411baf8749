//! Control messages that are delivered to a session over its channel.

use vstd::prelude::*;
use crate::identity::{From, Id};
use crate::publish::Publish;

verus! {

/// `tokio::sync::mpsc::UnboundedSender`, the sending half of an unbounded
/// channel, taken as an opaque type.
#[verifier::external_type_specification]
#[verifier::external_body]
#[verifier::reject_recursive_types(T)]
pub struct ExUnboundedSender<T>(tokio::sync::mpsc::UnboundedSender<T>);

/// A signal to a session. It is created by routing or session logic and
/// consumed once by the event loop of the session that owns the channel.
#[derive(Debug)]
pub enum Message {
    /// A message to forward to the client, with the identity it came from.
    Forward(From, Publish),
    /// A request to leave, with the channel on which the session confirms it
    /// and the identity that takes over.
    Kick(tokio::sync::mpsc::UnboundedSender<()>, Id),
    Disconnect,
    Closed,
    Keepalive,
}

} // verus!
