//! Verdicts of authentication and access control.

use vstd::prelude::*;
use crate::packet::{SubscribeAckReason, SubscribeReturnCodeV3};

verus! {

/// Per-filter verdict of access control on a subscribe request.
#[derive(Debug, Clone, PartialEq, Eq)]
pub enum SubscribeAclResult {
    V3(Vec<SubscribeReturnCodeV3>),
    V5(Vec<SubscribeAckReason>),
}

/// Verdict of access control on a publish; a rejection says whether the
/// connection is to be closed.
#[derive(Debug, Clone, Copy, PartialEq, Eq, Structural)]
pub enum PublishAclResult {
    Allow,
    Rejected(bool),
}

/// Why authentication refused a client.
#[derive(Debug, Clone, Copy, PartialEq, Eq, Structural)]
pub enum AuthResult {
    BadUsernameOrPassword,
    NotAuthorized,
}

} // verus!
