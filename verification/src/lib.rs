//! Protocol-unification and extension-dispatch core of a multi-protocol MQTT broker.
//!
//! The message model folds the 3.1.1 and 5.0 wire representations into one set of
//! types, the hook registry dispatches lifecycle events to handlers in priority
//! order, and the plugin manager keeps the lifecycle state of extension modules.

pub mod acl;
pub mod connack;
pub mod connect;
pub mod error;
pub mod hook;
pub mod identity;
pub mod json;
pub mod message;
pub mod newcapec;
pub mod packet;
pub mod plugin;
pub mod publish;
pub mod qos;
pub mod render;
pub mod subscribe;
pub mod topic;
pub mod unsubscribe;

pub use error::MqttError;
