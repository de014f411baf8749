//! Error kinds surfaced by the broker core.

use vstd::prelude::*;

verus! {

/// Failures that abort an operation and surface to the caller.
#[derive(Debug, Clone, PartialEq, Eq)]
pub enum MqttError {
    /// A replacement list disagrees in length with the entries it is meant for.
    FilterCountMismatch,
    /// A topic string violates the topic grammar.
    MalformedTopic,
    /// No module is registered under the given name.
    ModuleNotFound(String),
    /// The named module is registered but not running.
    ModuleNotActive(String),
    /// The receiving end of a control channel is gone.
    ChannelClosed,
    /// A failure reported by an extension module, with its message.
    Module(String),
}

impl MqttError {
    /// The error a module reports with a plain message.
    pub fn from(msg: String) -> (e: MqttError)
        ensures
            e == MqttError::Module(msg),
    {
        MqttError::Module(msg)
    }

    /// True for the two errors that name a module of the directory.
    pub open spec fn names_module(&self, name: Seq<char>) -> bool {
        match self {
            MqttError::ModuleNotFound(n) => n@ == name,
            MqttError::ModuleNotActive(n) => n@ == name,
            _ => false,
        }
    }
}

pub type Result<T> = core::result::Result<T, MqttError>;

} // verus!
