use std::cell::RefCell;
use std::rc::Rc;

use rmqtt::connect::ConnectInfo;
use rmqtt::error::MqttError;
use rmqtt::hook::{Handler, HookRegistry, HookResult, Parameter, Priority, Register, ReturnType, Type};
use rmqtt::identity::Id;
use rmqtt::json::JsonValue;
use rmqtt::newcapec::{register, NewcapecPlugin};
use rmqtt::packet::ConnectV3;
use rmqtt::plugin::{
    entry_json, failed, register_outcome, start_outcome, start_plan, stop_outcome, Manager, Plugin,
};

type Log = Rc<RefCell<Vec<String>>>;

struct Scripted {
    name: String,
    log: Log,
    fail_init: bool,
    fail_start: bool,
    fail_stop: bool,
    stops: bool,
}

fn scripted(name: &str, log: &Log) -> Scripted {
    Scripted { name: String::from(name), log: log.clone(), fail_init: false, fail_start: false, fail_stop: false, stops: true }
}

impl Scripted {
    fn note(&self, what: &str) {
        self.log.borrow_mut().push(format!("{}:{}", self.name, what));
    }
}

impl Plugin for Scripted {
    fn init(&mut self) -> Result<(), MqttError> {
        self.note("init");
        if self.fail_init {
            Err(MqttError::from(String::from("init failed")))
        } else {
            Ok(())
        }
    }

    fn name(&self) -> String {
        self.name.clone()
    }

    fn get_config(&self) -> Result<JsonValue, MqttError> {
        Ok(JsonValue::string("config"))
    }

    fn load_config(&mut self) -> Result<(), MqttError> {
        self.note("load_config");
        Ok(())
    }

    fn start(&mut self) -> Result<(), MqttError> {
        self.note("start");
        if self.fail_start {
            Err(MqttError::from(String::from("start failed")))
        } else {
            Ok(())
        }
    }

    fn stop(&mut self) -> Result<bool, MqttError> {
        self.note("stop");
        if self.fail_stop {
            Err(MqttError::from(String::from("stop failed")))
        } else {
            Ok(self.stops)
        }
    }

    fn send(&self, msg: JsonValue) -> Result<JsonValue, MqttError> {
        Ok(JsonValue::array(vec![msg]))
    }
}

/// A module that relies on every default of the interface but its name.
struct Bare;

impl Plugin for Bare {
    fn name(&self) -> String {
        String::from("bare")
    }
}

fn log() -> Log {
    Rc::new(RefCell::new(Vec::new()))
}

fn lines(log: &Log) -> Vec<String> {
    log.borrow().clone()
}

#[test]
fn register_without_startup_leaves_the_module_inert() {
    let l = log();
    let mut m = Manager::new();
    assert_eq!(m.register(Box::new(scripted("p", &l)), false), Ok(()));
    assert!(!m.is_active("p"));
    assert_eq!(m.get("p"), Some((false, false)));
    assert!(lines(&l).is_empty());
}

#[test]
fn start_initializes_and_starts() {
    let l = log();
    let mut m = Manager::new();
    m.register(Box::new(scripted("p", &l)), false).unwrap();
    assert_eq!(m.start("p"), Ok(()));
    assert!(m.is_active("p"));
    assert_eq!(m.get("p"), Some((true, true)));
    assert_eq!(lines(&l), vec!["p:init", "p:start"]);
}

#[test]
fn start_of_a_running_module_does_nothing() {
    let l = log();
    let mut m = Manager::new();
    m.register(Box::new(scripted("p", &l)), true).unwrap();
    assert_eq!(lines(&l), vec!["p:init", "p:start"]);
    assert_eq!(m.start("p"), Ok(()));
    assert_eq!(lines(&l), vec!["p:init", "p:start"]);
    assert!(m.is_active("p"));
}

#[test]
fn stop_of_a_module_that_never_started_is_refused() {
    let l = log();
    let mut m = Manager::new();
    m.register(Box::new(scripted("p", &l)), false).unwrap();
    assert_eq!(m.stop("p"), Err(MqttError::ModuleNotActive(String::from("p"))));
    assert_eq!(m.get("p"), Some((false, false)));
    assert!(lines(&l).is_empty());
}

#[test]
fn stop_marks_the_module_inactive_and_start_does_not_initialize_again() {
    let l = log();
    let mut m = Manager::new();
    m.register(Box::new(scripted("p", &l)), true).unwrap();
    assert_eq!(m.stop("p"), Ok(true));
    assert!(!m.is_active("p"));
    assert_eq!(m.get("p"), Some((true, false)));
    assert_eq!(m.start("p"), Ok(()));
    assert_eq!(lines(&l), vec!["p:init", "p:start", "p:stop", "p:start"]);
    assert!(m.is_active("p"));
}

#[test]
fn a_module_that_could_not_stop_stays_active() {
    let l = log();
    let mut m = Manager::new();
    let mut p = scripted("p", &l);
    p.stops = false;
    m.register(Box::new(p), true).unwrap();
    assert_eq!(m.stop("p"), Ok(false));
    assert!(m.is_active("p"));
}

#[test]
fn failures_of_the_module_surface() {
    let l = log();
    let mut m = Manager::new();
    let mut p = scripted("p", &l);
    p.fail_init = true;
    m.register(Box::new(p), false).unwrap();
    assert_eq!(m.start("p"), Err(MqttError::Module(String::from("init failed"))));
    assert_eq!(m.get("p"), Some((false, false)));

    let mut q = scripted("q", &l);
    q.fail_start = true;
    m.register(Box::new(q), false).unwrap();
    assert_eq!(m.start("q"), Err(MqttError::Module(String::from("start failed"))));
    assert_eq!(m.get("q"), Some((true, false)));

    let mut r = scripted("r", &l);
    r.fail_stop = true;
    m.register(Box::new(r), true).unwrap();
    assert_eq!(m.stop("r"), Err(MqttError::Module(String::from("stop failed"))));
    assert_eq!(m.get("r"), Some((true, true)));
}

#[test]
fn register_with_startup_that_fails_leaves_no_module() {
    let l = log();
    let mut m = Manager::new();
    let mut p = scripted("p", &l);
    p.fail_start = true;
    assert_eq!(m.register(Box::new(p), true), Err(MqttError::Module(String::from("start failed"))));
    assert_eq!(m.get("p"), None);
}

#[test]
fn register_stops_and_replaces_a_running_module_of_the_same_name() {
    let l = log();
    let mut m = Manager::new();
    m.register(Box::new(scripted("p", &l)), true).unwrap();
    l.borrow_mut().clear();
    assert_eq!(m.register(Box::new(scripted("p", &l)), false), Ok(()));
    assert_eq!(lines(&l), vec!["p:stop"]);
    assert_eq!(m.get("p"), Some((false, false)));
    assert_eq!(m.iter().len(), 1);
}

#[test]
fn register_surfaces_the_failure_to_stop_the_old_module() {
    let l = log();
    let mut m = Manager::new();
    let mut p = scripted("p", &l);
    p.fail_stop = true;
    m.register(Box::new(p), true).unwrap();
    assert_eq!(m.register(Box::new(scripted("p", &l)), false), Err(MqttError::Module(String::from("stop failed"))));
    assert_eq!(m.get("p"), None);
}

#[test]
fn unknown_names_are_not_found() {
    let mut m = Manager::new();
    let missing = || MqttError::ModuleNotFound(String::from("nobody"));
    assert!(!m.is_active("nobody"));
    assert_eq!(m.get("nobody"), None);
    assert_eq!(m.start("nobody"), Err(missing()));
    assert_eq!(m.stop("nobody"), Err(missing()));
    assert_eq!(m.get_config("nobody"), Err(missing()));
    assert_eq!(m.load_config("nobody"), Err(missing()));
    assert_eq!(m.send("nobody", JsonValue::Null), Err(missing()));
    assert!(m.iter().is_empty());
}

#[test]
fn config_and_send_are_forwarded() {
    let l = log();
    let mut m = Manager::new();
    m.register(Box::new(scripted("p", &l)), false).unwrap();
    assert_eq!(m.get_config("p"), Ok(JsonValue::string("config")));
    assert_eq!(m.load_config("p"), Ok(()));
    assert_eq!(m.send("p", JsonValue::Bool(true)), Ok(JsonValue::Array(vec![JsonValue::Bool(true)])));
    assert_eq!(lines(&l), vec!["p:load_config"]);
    assert_eq!(m.get("p"), Some((false, false)));
}

#[test]
fn defaults_of_the_module_interface_succeed() {
    let mut m = Manager::new();
    m.register(Box::new(Bare), true).unwrap();
    assert!(m.is_active("bare"));
    assert_eq!(m.get_config("bare"), Ok(JsonValue::Object(vec![])));
    assert_eq!(m.load_config("bare"), Ok(()));
    assert_eq!(m.send("bare", JsonValue::Bool(true)), Ok(JsonValue::Null));
    assert_eq!(m.stop("bare"), Ok(true));
    assert_eq!(Bare.version(), "0.0.0");
    assert_eq!(Bare.descr(), "");
    assert_eq!(Bare.attrs(), JsonValue::Null);
}

#[test]
fn iter_lists_every_module_once() {
    let l = log();
    let mut m = Manager::new();
    m.register(Box::new(scripted("a", &l)), true).unwrap();
    m.register(Box::new(scripted("b", &l)), false).unwrap();
    m.register(Box::new(scripted("c", &l)), false).unwrap();
    m.start("c").unwrap();
    m.stop("c").unwrap();
    let mut all = m.iter();
    all.sort();
    assert_eq!(
        all,
        vec![(String::from("a"), true, true), (String::from("b"), false, false), (String::from("c"), true, false)]
    );
}

#[test]
fn entry_json_has_the_documented_members() {
    let json = entry_json(
        String::from("p"),
        String::from("1.2.3"),
        String::from("sample"),
        true,
        false,
        JsonValue::Null,
    );
    assert_eq!(
        json,
        JsonValue::Object(vec![
            (String::from("name"), JsonValue::String(String::from("p"))),
            (String::from("version"), JsonValue::String(String::from("1.2.3"))),
            (String::from("descr"), JsonValue::String(String::from("sample"))),
            (String::from("inited"), JsonValue::Bool(true)),
            (String::from("active"), JsonValue::Bool(false)),
            (String::from("attrs"), JsonValue::Null),
        ])
    );
}

/// A registry that several owners share, with the scope of one of them.
struct Shared {
    registry: Rc<RefCell<HookRegistry>>,
    scope: usize,
}

impl Register for Shared {
    fn add(&mut self, typ: Type, handler: Box<dyn Handler>) {
        self.add_priority(typ, 0, handler);
    }

    fn add_priority(&mut self, typ: Type, priority: Priority, handler: Box<dyn Handler>) {
        self.registry.borrow_mut().add_priority_in(self.scope, typ, priority, handler);
    }

    fn start(&mut self) {
        self.registry.borrow_mut().set_enabled(self.scope, true);
    }

    fn stop(&mut self) {
        self.registry.borrow_mut().set_enabled(self.scope, false);
    }
}

fn share(registry: &Rc<RefCell<HookRegistry>>) -> Shared {
    let scope = registry.borrow_mut().register();
    Shared { registry: registry.clone(), scope }
}

struct GuestsOnly;

impl Handler for GuestsOnly {
    fn hook(&self, param: &Parameter<'_>, acc: Option<HookResult>) -> ReturnType {
        match param {
            Parameter::ClientConnect(info) => (info.id().client_id().starts_with("guest"), acc),
            _ => (false, acc),
        }
    }
}

struct Acl {
    hooks: Shared,
}

impl Plugin for Acl {
    fn init(&mut self) -> Result<(), MqttError> {
        self.hooks.add(Type::ClientConnect, Box::new(GuestsOnly));
        Ok(())
    }

    fn name(&self) -> String {
        String::from("acl")
    }
}

fn connect_info(client_id: &str) -> ConnectInfo {
    ConnectInfo::V3(
        Id::from(String::from(client_id)),
        ConnectV3 {
            protocol_level: 4,
            clean_session: true,
            keep_alive: 10,
            last_will: None,
            client_id: String::from(client_id),
            username: None,
            password: None,
        },
    )
}

#[test]
fn acl_module_matches_guests_only() {
    let registry = Rc::new(RefCell::new(HookRegistry::new()));
    let mut manager = Manager::new();
    manager.register(Box::new(Acl { hooks: share(&registry) }), true).unwrap();
    assert!(manager.is_active("acl"));

    let guest = connect_info("guest42");
    let (matched, acc) = registry.borrow().dispatch(Type::ClientConnect, &Parameter::ClientConnect(&guest));
    assert!(matched);
    assert!(acc.is_none());

    let admin = connect_info("admin1");
    let (matched, acc) = registry.borrow().dispatch(Type::ClientConnect, &Parameter::ClientConnect(&admin));
    assert!(!matched);
    assert!(acc.is_none());
}

#[test]
fn newcapec_module_registers_and_switches_its_handlers() {
    let registry = Rc::new(RefCell::new(HookRegistry::new()));
    let mut manager = Manager::new();
    assert_eq!(register(&mut manager, Box::new(share(&registry)), "newcapec", "sample", false), Ok(()));
    assert_eq!(manager.get("newcapec"), Some((false, false)));
    assert_eq!(registry.borrow().len(), 0);

    manager.start("newcapec").unwrap();
    assert_eq!(registry.borrow().len(), 2);
    assert_eq!(registry.borrow().entry_at(0), Some((Type::ClientConnack, 0)));
    assert_eq!(registry.borrow().entry_at(1), Some((Type::ClientConnect, 0)));
    let info = connect_info("c");
    assert!(registry.borrow().dispatch(Type::ClientConnect, &Parameter::ClientConnect(&info)).0);

    assert_eq!(manager.stop("newcapec"), Ok(true));
    assert!(!registry.borrow().dispatch(Type::ClientConnect, &Parameter::ClientConnect(&info)).0);
}

#[test]
fn newcapec_plugin_reports_its_name_and_description() {
    let registry = Rc::new(RefCell::new(HookRegistry::new()));
    let p = NewcapecPlugin::new(Box::new(share(&registry)), "newcapec", "sample module");
    assert_eq!(p.name(), "newcapec");
    assert_eq!(p.descr(), "sample module");
    assert_eq!(p.version(), "0.0.0");
}

fn oops(text: &str) -> MqttError {
    MqttError::Module(String::from(text))
}

#[test]
fn start_plan_names_the_calls_that_are_due() {
    assert_eq!(start_plan((false, false)), (true, true));
    assert_eq!(start_plan((true, false)), (false, true));
    assert_eq!(start_plan((true, true)), (false, false));
    assert_eq!(start_plan((false, true)), (false, false));
}

#[test]
fn start_outcome_follows_the_answers() {
    assert_eq!(start_outcome((false, false), Some(Ok(())), Some(Ok(()))), ((true, true), Ok(())));
    assert_eq!(start_outcome((true, false), None, Some(Ok(()))), ((true, true), Ok(())));
    assert_eq!(start_outcome((true, true), None, None), ((true, true), Ok(())));
    assert_eq!(start_outcome((false, true), None, None), ((false, true), Ok(())));
    assert_eq!(start_outcome((false, false), Some(Err(oops("i"))), None), ((false, false), Err(oops("i"))));
    assert_eq!(
        start_outcome((false, false), Some(Ok(())), Some(Err(oops("s")))),
        ((true, false), Err(oops("s")))
    );
    assert_eq!(start_outcome((true, false), None, Some(Err(oops("s")))), ((true, false), Err(oops("s"))));
}

#[test]
fn stop_outcome_hands_the_answer_on() {
    assert_eq!(stop_outcome((true, true), Ok(true)), ((true, false), Ok(true)));
    assert_eq!(stop_outcome((true, true), Ok(false)), ((true, true), Ok(false)));
    assert_eq!(stop_outcome((true, true), Err(oops("x"))), ((true, true), Err(oops("x"))));
}

#[test]
fn register_outcome_is_the_first_failure_or_the_state_asked_for() {
    assert_eq!(register_outcome(false, None, None, None), Ok((false, false)));
    assert_eq!(register_outcome(true, Some(Ok(false)), Some(Ok(())), Some(Ok(()))), Ok((true, true)));
    assert_eq!(register_outcome(true, Some(Err(oops("old"))), None, None), Err(oops("old")));
    assert_eq!(register_outcome(true, None, Some(Err(oops("init"))), None), Err(oops("init")));
    assert_eq!(register_outcome(true, None, Some(Ok(())), Some(Err(oops("start")))), Err(oops("start")));
}

#[test]
fn failed_tells_a_failure_from_the_rest() {
    assert!(failed::<()>(&Some(Err(oops("x")))));
    assert!(!failed(&Some(Ok(true))));
    assert!(!failed::<bool>(&None));
}

#[test]
fn register_with_startup_calls_init_then_start_once() {
    let l = log();
    let mut m = Manager::new();
    assert_eq!(m.register(Box::new(scripted("p", &l)), true), Ok(()));
    assert_eq!(lines(&l), vec!["p:init", "p:start"]);
    assert_eq!(m.get("p"), Some((true, true)));
}

#[test]
fn register_does_not_start_the_new_module_when_the_old_one_cannot_stop() {
    let l = log();
    let mut m = Manager::new();
    let mut old = scripted("p", &l);
    old.fail_stop = true;
    m.register(Box::new(old), true).unwrap();
    l.borrow_mut().clear();
    assert_eq!(m.register(Box::new(scripted("p", &l)), true), Err(oops("stop failed")));
    assert_eq!(lines(&l), vec!["p:stop"]);
    assert!(!m.is_active("p"));
}

#[test]
fn start_does_not_call_start_when_init_fails() {
    let l = log();
    let mut m = Manager::new();
    let mut p = scripted("p", &l);
    p.fail_init = true;
    m.register(Box::new(p), false).unwrap();
    assert_eq!(m.start("p"), Err(oops("init failed")));
    assert_eq!(lines(&l), vec!["p:init"]);
    assert!(!m.is_active("p"));
}

#[test]
fn entry_to_json_projects_a_module_of_the_directory() {
    let l = log();
    let mut m = Manager::new();
    m.register(Box::new(scripted("p", &l)), true).unwrap();
    assert_eq!(
        m.entry_to_json("p"),
        Some(JsonValue::Object(vec![
            (String::from("name"), JsonValue::String(String::from("p"))),
            (String::from("version"), JsonValue::String(String::from("0.0.0"))),
            (String::from("descr"), JsonValue::String(String::new())),
            (String::from("inited"), JsonValue::Bool(true)),
            (String::from("active"), JsonValue::Bool(true)),
            (String::from("attrs"), JsonValue::Null),
        ]))
    );
    assert_eq!(m.entry_to_json("nobody"), None);
    assert_eq!(m.get("p"), Some((true, true)));
}
