//! A sample extension module that observes connection requests and their
//! acknowledgements.

use vstd::prelude::*;
use crate::error::MqttError;
use crate::hook::{Handler, HookResult, Parameter, Register, ReturnType, Type};
use crate::plugin::{register_follows, registered, Manager, Plugin};

verus! {

/// The module: it owns the capability through which its handlers are
/// registered and switched on and off.
pub struct NewcapecPlugin {
    pub name: String,
    pub descr: String,
    pub register: Box<dyn Register>,
}

impl NewcapecPlugin {
    /// A module with the given name and description that registers its
    /// handlers through `register`.
    pub fn new(register: Box<dyn Register>, name: &str, descr: &str) -> (r: Self)
        ensures
            r.spec_name() == name@,
            r.spec_descr() == descr@,
    {
        NewcapecPlugin { name: String::from_str(name), descr: String::from_str(descr), register }
    }

    pub open spec fn spec_name(&self) -> Seq<char> {
        self.name@
    }

    pub open spec fn spec_descr(&self) -> Seq<char> {
        self.descr@
    }
}

impl Plugin for NewcapecPlugin {
    /// Adds one handler for connection acknowledgements and then one for
    /// connection requests through the module's capability, both with
    /// priority 0. Always succeeds.
    fn init(&mut self) -> (r: Result<(), MqttError>)
        ensures
            r is Ok,
            exists|mid: Box<dyn Register>|
                old(self).register.add_post(Type::ClientConnack, 0, #[trigger] mid.state()) && mid.add_post(
                    Type::ClientConnect,
                    0,
                    final(self).register.state(),
                ),
            final(self).spec_name() == old(self).spec_name(),
            final(self).spec_descr() == old(self).spec_descr(),
    {
        self.register.add_priority(Type::ClientConnack, 0, Box::new(NewcapecHandler::new()));
        let ghost mid = self.register;
        self.register.add_priority(Type::ClientConnect, 0, Box::new(NewcapecHandler::new()));
        assert(old(self).register.add_post(Type::ClientConnack, 0, mid.state()) && mid.add_post(
            Type::ClientConnect,
            0,
            self.register.state(),
        ));
        Ok(())
    }

    fn name(&self) -> (r: String)
        ensures
            r@ == self.spec_name(),
    {
        self.name.clone()
    }

    fn descr(&self) -> (r: String)
        ensures
            r@ == self.spec_descr(),
    {
        self.descr.clone()
    }

    /// Switches the module's handlers on through its capability. Always
    /// succeeds.
    fn start(&mut self) -> (r: Result<(), MqttError>)
        ensures
            r is Ok,
            old(self).register.start_post(final(self).register.state()),
            final(self).spec_name() == old(self).spec_name(),
            final(self).spec_descr() == old(self).spec_descr(),
    {
        self.register.start();
        Ok(())
    }

    /// Switches the module's handlers off through its capability. Always
    /// succeeds and reports that the module did stop.
    fn stop(&mut self) -> (r: Result<bool, MqttError>)
        ensures
            r == Ok::<bool, MqttError>(true),
            old(self).register.stop_post(final(self).register.state()),
            final(self).spec_name() == old(self).spec_name(),
            final(self).spec_descr() == old(self).spec_descr(),
    {
        self.register.stop();
        Ok(true)
    }
}

/// The handler of the module: it acts on connection requests and their
/// acknowledgements, and hands on what it was handed.
pub struct NewcapecHandler;

/// Whether an event is one that the handler acts on.
pub open spec fn observed(param: Parameter<'_>) -> bool {
    param is ClientConnect || param is ClientConnack
}

impl NewcapecHandler {
    pub fn new() -> (r: Self)
        ensures
            r == NewcapecHandler,
    {
        NewcapecHandler
    }
}

impl Handler for NewcapecHandler {
    open spec fn hook_post(&self, param: Parameter<'_>, acc: Option<HookResult>, out: ReturnType) -> bool {
        out == (observed(param), acc)
    }

    fn hook(&self, param: &Parameter<'_>, acc: Option<HookResult>) -> (out: ReturnType) {
        let ok = match param {
            Parameter::ClientConnect(_) => true,
            Parameter::ClientConnack(_, _) => true,
            _ => false,
        };
        (ok, acc)
    }
}

/// Registers the module with a directory under the given name.
pub fn register(
    manager: &mut Manager,
    hooks: Box<dyn Register>,
    name: &str,
    descr: &str,
    default_startup: bool,
) -> (r: Result<(), MqttError>)
    ensures
        registered(old(manager)@, final(manager)@, name@, default_startup, r),
        register_follows(old(manager)@, final(manager)@, name@, default_startup, r),
{
    let plugin = NewcapecPlugin::new(hooks, name, descr);
    manager.register_as(String::from_str(name), Box::new(plugin), default_startup)
}

} // verus!
