//! The plugin manager: a directory of named extension modules and the
//! lifecycle state of each.

use vstd::prelude::*;
use crate::error::MqttError;
use crate::json::{fields_view, push_field, JsonValue, JsonView};

verus! {

/// What an extension module implements. Every operation has a default that
/// does nothing and succeeds, so a module implements only what it needs.
/// Nothing is required of an operation that a module provides itself.
pub trait Plugin {
    /// Prepares the module, for instance by registering its handlers. By
    /// default the module stays as it is and the call succeeds.
    fn init(&mut self) -> (r: Result<(), MqttError>)
        default_ensures
            r is Ok,
            &*final(self) == &*old(self),
    {
        Ok(())
    }

    /// The name under which the module is kept in the directory; empty by
    /// default.
    fn name(&self) -> (r: String)
        default_ensures
            r@ == Seq::<char>::empty(),
    {
        String::new()
    }

    /// The module's current configuration; by default an object without
    /// members.
    fn get_config(&self) -> (r: Result<JsonValue, MqttError>)
        default_ensures
            r matches Ok(config) && config@ == JsonView::Object(Seq::empty()),
    {
        let config = JsonValue::object(Vec::new());
        assert(config@->Object_0 =~= Seq::empty());
        Ok(config)
    }

    /// Makes the module read its configuration again. By default the module
    /// stays as it is and the call succeeds.
    fn load_config(&mut self) -> (r: Result<(), MqttError>)
        default_ensures
            r is Ok,
            &*final(self) == &*old(self),
    {
        Ok(())
    }

    /// Starts the module. By default the module stays as it is and the call
    /// succeeds.
    fn start(&mut self) -> (r: Result<(), MqttError>)
        default_ensures
            r is Ok,
            &*final(self) == &*old(self),
    {
        Ok(())
    }

    /// Stops the module; answers whether it did stop. By default the module
    /// stays as it is and answers that it did.
    fn stop(&mut self) -> (r: Result<bool, MqttError>)
        default_ensures
            r matches Ok(did_stop) && did_stop,
            &*final(self) == &*old(self),
    {
        Ok(true)
    }

    /// The module's version; `0.0.0` by default.
    fn version(&self) -> (r: String)
        default_ensures
            r@ == "0.0.0"@,
    {
        String::from_str("0.0.0")
    }

    /// A description of the module; empty by default.
    fn descr(&self) -> (r: String)
        default_ensures
            r@ == Seq::<char>::empty(),
    {
        String::new()
    }

    /// Attributes that the module reports about itself; `null` by default.
    fn attrs(&self) -> (r: JsonValue)
        default_ensures
            r@ == JsonView::Null,
    {
        JsonValue::Null
    }

    /// An out-of-band request to the module, and its response. By default the
    /// request is ignored and the response is `null`.
    fn send(&self, _msg: JsonValue) -> (r: Result<JsonValue, MqttError>)
        default_ensures
            r matches Ok(response) && response@ == JsonView::Null,
    {
        Ok(JsonValue::Null)
    }
}

/// A module of the directory with its lifecycle state.
pub struct Entry {
    inited: bool,
    active: bool,
    pub plugin: Box<dyn Plugin>,
}

/// The members of the JSON projection of a directory entry.
pub open spec fn entry_members(
    name: Seq<char>,
    version: Seq<char>,
    descr: Seq<char>,
    inited: bool,
    active: bool,
    attrs: JsonView,
) -> Seq<(Seq<char>, JsonView)> {
    seq![
        ("name"@, JsonView::String(name)),
        ("version"@, JsonView::String(version)),
        ("descr"@, JsonView::String(descr)),
        ("inited"@, JsonView::Bool(inited)),
        ("active"@, JsonView::Bool(active)),
        ("attrs"@, attrs),
    ]
}

/// The JSON projection of a directory entry from what the module reports of
/// itself and the state the directory keeps.
pub fn entry_json(name: String, version: String, descr: String, inited: bool, active: bool, attrs: JsonValue) -> (r:
    JsonValue)
    ensures
        r@ == JsonView::Object(entry_members(name@, version@, descr@, inited, active, attrs@)),
{
    let mut fields: Vec<(String, JsonValue)> = Vec::new();
    push_field(&mut fields, "name", JsonValue::String(name));
    push_field(&mut fields, "version", JsonValue::String(version));
    push_field(&mut fields, "descr", JsonValue::String(descr));
    push_field(&mut fields, "inited", JsonValue::Bool(inited));
    push_field(&mut fields, "active", JsonValue::Bool(active));
    push_field(&mut fields, "attrs", attrs);
    assert(fields_view(fields@) =~= entry_members(name@, version@, descr@, inited, active, attrs@));
    JsonValue::object(fields)
}

impl Entry {
    pub closed spec fn spec_inited(&self) -> bool {
        self.inited
    }

    pub closed spec fn spec_active(&self) -> bool {
        self.active
    }

    /// Whether the module has been initialized.
    pub fn inited(&self) -> (r: bool)
        ensures
            r == self.spec_inited(),
    {
        self.inited
    }

    /// Whether the module is running.
    pub fn active(&self) -> (r: bool)
        ensures
            r == self.spec_active(),
    {
        self.active
    }

    /// The JSON projection of the entry: what the module reports as its name,
    /// version, description and attributes, and the state of the entry.
    pub fn to_json(&self) -> (r: JsonValue)
        ensures
            exists|name: Seq<char>, version: Seq<char>, descr: Seq<char>, attrs: JsonView|
                r@ == JsonView::Object(
                    #[trigger] entry_members(name, version, descr, self.spec_inited(), self.spec_active(), attrs),
                ),
    {
        let name = self.plugin.name();
        let version = self.plugin.version();
        let descr = self.plugin.descr();
        let attrs = self.plugin.attrs();
        let ghost members = entry_members(
            name@,
            version@,
            descr@,
            self.spec_inited(),
            self.spec_active(),
            attrs@,
        );
        let r = entry_json(name, version, descr, self.inited, self.active, attrs);
        assert(r@ == JsonView::Object(members));
        r
    }
}

/// `dashmap::DashMap`, a concurrent hash map, taken as an opaque type.
#[verifier::external_type_specification]
#[verifier::external_body]
#[verifier::reject_recursive_types(K)]
#[verifier::reject_recursive_types(V)]
#[verifier::reject_recursive_types(S)]
pub struct ExDashMap<K, V, S>(dashmap::DashMap<K, V, S>);

/// `ahash::RandomState`, the hasher of the directory, taken as an opaque type.
#[verifier::external_type_specification]
#[verifier::external_body]
pub struct ExRandomState(ahash::RandomState);

/// The lifecycle state of a module: whether it has been initialized, and
/// whether it is running.
pub type State = (bool, bool);

/// What a directory holds: the state of each module, by name.
pub uninterp spec fn directory(m: dashmap::DashMap<String, Entry, ahash::RandomState>) -> Map<Seq<char>, State>;

/// The directory without any module.
pub open spec fn no_modules() -> Map<Seq<char>, State> {
    Map::empty()
}

/// Whether a list holds the names and states of all modules of a directory,
/// each once.
pub open spec fn lists(dir: Map<Seq<char>, State>, list: Seq<(String, bool, bool)>) -> bool {
    &&& dir.dom().finite()
    &&& list.len() == dir.dom().len()
    &&& forall|i: int|
        0 <= i < list.len() ==> dir.contains_key((#[trigger] list[i]).0@) && dir[list[i].0@] == (list[i].1, list[i].2)
    &&& forall|i: int, j: int| 0 <= i < j < list.len() ==> list[i].0@ != list[j].0@
}

/// `DashMap::default`: an empty map.
#[verifier::external_body]
fn dir_new() -> (m: dashmap::DashMap<String, Entry, ahash::RandomState>)
    ensures
        directory(m) == no_modules(),
{
    dashmap::DashMap::default()
}

/// `DashMap::remove`: takes the entry of a name out and hands it over, if the
/// map has one.
#[verifier::external_body]
fn dir_remove(m: &mut dashmap::DashMap<String, Entry, ahash::RandomState>, name: &str) -> (r: Option<Entry>)
    ensures
        directory(*final(m)) == directory(*old(m)).remove(name@),
        match r {
            Some(e) => directory(*old(m)).contains_key(name@) && directory(*old(m))[name@] == (e.inited, e.active),
            None => !directory(*old(m)).contains_key(name@),
        },
{
    m.remove(name).map(|kv| kv.1)
}

/// `DashMap::insert`: puts an entry in under a name, in place of the one the
/// map had under it, if any.
#[verifier::external_body]
fn dir_insert(
    m: &mut dashmap::DashMap<String, Entry, ahash::RandomState>,
    name: String,
    inited: bool,
    active: bool,
    plugin: Box<dyn Plugin>,
)
    ensures
        directory(*final(m)) == directory(*old(m)).insert(name@, (inited, active)),
{
    m.insert(name, Entry { inited, active, plugin });
}

/// `DashMap::get`: the state of the entry of a name, if the map has one.
#[verifier::external_body]
fn dir_state(m: &dashmap::DashMap<String, Entry, ahash::RandomState>, name: &str) -> (r: Option<State>)
    ensures
        r == if directory(*m).contains_key(name@) {
            Some(directory(*m)[name@])
        } else {
            None
        },
{
    m.get(name).map(|e| (e.inited, e.active))
}

/// `DashMap::iter`: the names and states of all entries, each once, in no
/// particular order.
#[verifier::external_body]
fn dir_list(m: &dashmap::DashMap<String, Entry, ahash::RandomState>) -> (r: Vec<(String, bool, bool)>)
    ensures
        lists(directory(*m), r@),
{
    m.iter().map(|e| (e.key().clone(), e.inited, e.active)).collect()
}

/// Whether an error says that no module of the given name is registered.
pub open spec fn is_not_found<T>(r: Result<T, MqttError>, name: Seq<char>) -> bool {
    r matches Err(MqttError::ModuleNotFound(n)) && n@ == name
}

/// Whether an error says that the module of the given name is not running.
pub open spec fn is_not_active<T>(r: Result<T, MqttError>, name: Seq<char>) -> bool {
    r matches Err(MqttError::ModuleNotActive(n)) && n@ == name
}

/// Which calls `start` owes a module in a state: none where the module runs;
/// else init where the module is not initialized, and then start.
pub open spec fn start_calls(state: State) -> (bool, bool) {
    if state.1 {
        (false, false)
    } else {
        (!state.0, true)
    }
}

/// State and result of `start` for the answers of the module; `None` stands
/// for a call that was not due or not reached. A failure of init is the
/// result and leaves the state as it was. After init the module is
/// initialized; a failure of start is the result, a success makes it run.
pub open spec fn start_result(
    state: State,
    init: Option<Result<(), MqttError>>,
    start: Option<Result<(), MqttError>>,
) -> (State, Result<(), MqttError>) {
    match (init, start) {
        (Some(Err(e)), _) => (state, Err(e)),
        (_, Some(Err(e))) => ((state.0 || init is Some, state.1), Err(e)),
        (_, Some(Ok(_))) => ((state.0 || init is Some, true), Ok(())),
        (_, None) => ((state.0 || init is Some, state.1), Ok(())),
    }
}

/// State and result of `stop` of a running module for its answer: the answer
/// is the result, and the module runs on unless it answers that it did stop.
pub open spec fn stop_result(state: State, answer: Result<bool, MqttError>) -> (State, Result<bool, MqttError>) {
    match answer {
        Ok(did_stop) => ((state.0, !did_stop), Ok(did_stop)),
        Err(e) => (state, Err(e)),
    }
}

/// Result of `register` for the answers of the modules; `None` stands for a
/// call that was not due or not reached. The first failure is the result;
/// without one the new module enters the directory, started or inert as asked.
pub open spec fn register_result(
    default_startup: bool,
    old_stop: Option<Result<bool, MqttError>>,
    init: Option<Result<(), MqttError>>,
    start: Option<Result<(), MqttError>>,
) -> Result<State, MqttError> {
    match (old_stop, init, start) {
        (Some(Err(e)), _, _) => Err(e),
        (_, Some(Err(e)), _) => Err(e),
        (_, _, Some(Err(e))) => Err(e),
        _ => Ok((default_startup, default_startup)),
    }
}

/// Whether the answers are those of the calls that `start` owes a module in
/// a state: init where it is due, and start where it is due and init did
/// not fail.
pub open spec fn start_answers(
    state: State,
    init: Option<Result<(), MqttError>>,
    start: Option<Result<(), MqttError>>,
) -> bool {
    &&& init is Some <==> start_calls(state).0
    &&& start is Some <==> start_calls(state).1 && !(init matches Some(Err(_)))
}

/// For the answers of the calls that are due, `start` succeeds exactly where
/// no call fails. A success leaves a running module as it is and makes every
/// other module initialized and running. The failure of a call is the
/// result; the module then does not run, and it is initialized unless init
/// itself failed.
pub proof fn lemma_start_result(
    state: State,
    init: Option<Result<(), MqttError>>,
    start: Option<Result<(), MqttError>>,
)
    requires
        start_answers(state, init, start),
    ensures
        start_result(state, init, start).1 is Ok <==> !(init matches Some(Err(_))) && !(start matches Some(
            Err(_),
        )),
        start_result(state, init, start).1 is Ok ==> start_result(state, init, start).0 == if state.1 {
            state
        } else {
            (true, true)
        },
        init matches Some(Err(e)) ==> start_result(state, init, start) == (state, Err::<(), MqttError>(e)),
        start matches Some(Err(e)) ==> start_result(state, init, start) == (
            (true, false),
            Err::<(), MqttError>(e),
        ),
{
}

/// The first failure among the answers is the result of `register`; without
/// a failure the module enters the directory in the state asked for.
pub proof fn lemma_register_result(
    default_startup: bool,
    old_stop: Option<Result<bool, MqttError>>,
    init: Option<Result<(), MqttError>>,
    start: Option<Result<(), MqttError>>,
)
    ensures
        register_result(default_startup, old_stop, init, start) is Ok <==> !(old_stop matches Some(Err(_)))
            && !(init matches Some(Err(_))) && !(start matches Some(Err(_))),
        register_result(default_startup, old_stop, init, start) is Ok ==> register_result(
            default_startup,
            old_stop,
            init,
            start,
        ) == Ok::<State, MqttError>((default_startup, default_startup)),
        old_stop matches Some(Err(e)) ==> register_result(default_startup, old_stop, init, start) == Err::<
            State,
            MqttError,
        >(e),
{
}

/// Whether the answers are those of the calls that `register` owes: the stop
/// of the old module where it runs; with `default_startup` init of the new
/// one unless that stop failed, and start unless a call before it failed.
pub open spec fn register_answers(
    old_runs: bool,
    default_startup: bool,
    old_stop: Option<Result<bool, MqttError>>,
    init: Option<Result<(), MqttError>>,
    start: Option<Result<(), MqttError>>,
) -> bool {
    &&& old_stop is Some <==> old_runs
    &&& init is Some <==> default_startup && !(old_stop matches Some(Err(_)))
    &&& start is Some <==> default_startup && !(old_stop matches Some(Err(_))) && !(init matches Some(Err(_)))
}

/// Whether directory and result after `start` of a module that the directory
/// holds are the outcome of the answers of the calls that were due.
pub open spec fn start_follows(
    before: Map<Seq<char>, State>,
    after: Map<Seq<char>, State>,
    name: Seq<char>,
    r: Result<(), MqttError>,
) -> bool {
    exists|init: Option<Result<(), MqttError>>, start: Option<Result<(), MqttError>>|
        start_answers(before[name], init, start) && after == before.insert(
            name,
            (#[trigger] start_result(before[name], init, start)).0,
        ) && r == start_result(before[name], init, start).1
}

/// Whether directory and result after `register` are the outcome of the
/// answers of the calls that were due.
pub open spec fn register_follows(
    before: Map<Seq<char>, State>,
    after: Map<Seq<char>, State>,
    name: Seq<char>,
    default_startup: bool,
    r: Result<(), MqttError>,
) -> bool {
    exists|old_stop: Option<Result<bool, MqttError>>, init: Option<Result<(), MqttError>>, start: Option<
        Result<(), MqttError>,
    >|
        register_answers(before.contains_key(name) && before[name].1, default_startup, old_stop, init, start)
            && match #[trigger] register_result(default_startup, old_stop, init, start) {
            Ok(state) => r is Ok && after == before.insert(name, state),
            Err(e) => r == Err::<(), MqttError>(e) && after == before.remove(name),
        }
}

/// Whether a call that was made failed.
pub fn failed<T>(answer: &Option<Result<T, MqttError>>) -> (r: bool)
    ensures
        r == (*answer matches Some(Err(_))),
{
    match answer {
        Some(Err(_)) => true,
        _ => false,
    }
}

/// Which calls `start` owes a module in a state: init, then start.
pub fn start_plan(state: State) -> (r: (bool, bool))
    ensures
        r == start_calls(state),
{
    if state.1 {
        (false, false)
    } else {
        (!state.0, true)
    }
}

/// State and result of `start` once the module has answered.
pub fn start_outcome(
    state: State,
    init: Option<Result<(), MqttError>>,
    start: Option<Result<(), MqttError>>,
) -> (r: (State, Result<(), MqttError>))
    ensures
        r == start_result(state, init, start),
{
    let inited = state.0 || init.is_some();
    match (init, start) {
        (Some(Err(e)), _) => (state, Err(e)),
        (_, Some(Err(e))) => ((inited, state.1), Err(e)),
        (_, Some(Ok(_))) => ((inited, true), Ok(())),
        (_, None) => ((inited, state.1), Ok(())),
    }
}

/// State and result of `stop` of a running module once it has answered.
pub fn stop_outcome(state: State, answer: Result<bool, MqttError>) -> (r: (State, Result<bool, MqttError>))
    ensures
        r == stop_result(state, answer),
{
    match answer {
        Ok(did_stop) => ((state.0, !did_stop), Ok(did_stop)),
        Err(e) => (state, Err(e)),
    }
}

/// Result of `register` once the modules have answered. The stop of the old
/// module is due where it runs; init and start of the new one are due with
/// `default_startup`.
pub fn register_outcome(
    default_startup: bool,
    old_stop: Option<Result<bool, MqttError>>,
    init: Option<Result<(), MqttError>>,
    start: Option<Result<(), MqttError>>,
) -> (r: Result<State, MqttError>)
    ensures
        r == register_result(default_startup, old_stop, init, start),
{
    match (old_stop, init, start) {
        (Some(Err(e)), _, _) => Err(e),
        (_, Some(Err(e)), _) => Err(e),
        (_, _, Some(Err(e))) => Err(e),
        _ => Ok((default_startup, default_startup)),
    }
}

/// What `register` makes of a directory, for the name the module gave. A
/// success leaves the module in the directory, started or inert as asked;
/// after a failure the directory holds no module of that name.
pub open spec fn registered(
    before: Map<Seq<char>, State>,
    after: Map<Seq<char>, State>,
    name: Seq<char>,
    default_startup: bool,
    r: Result<(), MqttError>,
) -> bool {
    &&& r is Ok ==> after == before.insert(name, (default_startup, default_startup))
    &&& r is Err ==> after == before.remove(name)
    &&& !default_startup && !(before.contains_key(name) && before[name].1) ==> r is Ok
}

/// What `start` makes of a directory.
pub open spec fn started(
    before: Map<Seq<char>, State>,
    after: Map<Seq<char>, State>,
    name: Seq<char>,
    r: Result<(), MqttError>,
) -> bool {
    if !before.contains_key(name) {
        is_not_found(r, name) && after == before
    } else if before[name].1 {
        r is Ok && after == before
    } else {
        match r {
            Ok(_) => after == before.insert(name, (true, true)),
            Err(_) => after == before || after == before.insert(name, (true, false)),
        }
    }
}

/// What `stop` makes of a directory.
pub open spec fn stopped(
    before: Map<Seq<char>, State>,
    after: Map<Seq<char>, State>,
    name: Seq<char>,
    r: Result<bool, MqttError>,
) -> bool {
    if !before.contains_key(name) {
        is_not_found(r, name) && after == before
    } else if !before[name].1 {
        is_not_active(r, name) && after == before
    } else {
        match r {
            Ok(did_stop) => after == before.insert(name, (before[name].0, !did_stop)),
            Err(_) => after == before,
        }
    }
}

/// A module that is registered without startup is not running. Starting it
/// with success makes it run, and stopping it before it was started is
/// refused because it is not running.
pub proof fn lemma_lifecycle(
    before: Map<Seq<char>, State>,
    inert: Map<Seq<char>, State>,
    running: Map<Seq<char>, State>,
    unchanged: Map<Seq<char>, State>,
    name: Seq<char>,
    on_register: Result<(), MqttError>,
    on_start: Result<(), MqttError>,
    on_stop: Result<bool, MqttError>,
)
    requires
        registered(before, inert, name, false, on_register),
        on_register is Ok,
        started(inert, running, name, on_start),
        on_start is Ok,
        stopped(inert, unchanged, name, on_stop),
    ensures
        inert.contains_key(name) && !inert[name].1,
        running.contains_key(name) && running[name].1,
        is_not_active(on_stop, name) && unchanged == inert,
{
}

/// The directory of extension modules.
pub struct Manager {
    plugins: dashmap::DashMap<String, Entry, ahash::RandomState>,
}

impl View for Manager {
    type V = Map<Seq<char>, State>;

    closed spec fn view(&self) -> Map<Seq<char>, State> {
        directory(self.plugins)
    }
}

impl Manager {
    /// An empty directory.
    pub fn new() -> (r: Manager)
        ensures
            r@ == no_modules(),
    {
        Manager { plugins: dir_new() }
    }

    /// Registers a module under the given name. A module that the directory
    /// holds under that name is stopped first, if it is running, and replaced.
    /// With `default_startup` the new module is initialized and started before
    /// it enters the directory. The first failure of the modules ends the call.
    pub fn register_as(&mut self, name: String, plugin: Box<dyn Plugin>, default_startup: bool) -> (r: Result<
        (),
        MqttError,
    >)
        ensures
            registered(old(self)@, final(self)@, name@, default_startup, r),
            register_follows(old(self)@, final(self)@, name@, default_startup, r),
    {
        let mut plugin = plugin;
        let old_stop = match dir_remove(&mut self.plugins, name.as_str()) {
            Some(entry) => {
                let mut old_plugin = entry.plugin;
                if entry.active {
                    Some(old_plugin.stop())
                } else {
                    None
                }
            },
            None => None,
        };
        let init = if default_startup && !failed(&old_stop) {
            Some(plugin.init())
        } else {
            None
        };
        let start = if default_startup && !failed(&old_stop) && !failed(&init) {
            Some(plugin.start())
        } else {
            None
        };
        let ghost answers = (old_stop, init, start);
        let r = match register_outcome(default_startup, old_stop, init, start) {
            Ok(state) => {
                dir_insert(&mut self.plugins, name, state.0, state.1, plugin);
                assert(self@ =~= old(self)@.insert(name@, (default_startup, default_startup)));
                Ok(())
            },
            Err(e) => Err(e),
        };
        proof {
            let outcome = register_result(default_startup, answers.0, answers.1, answers.2);
            assert(register_answers(
                old(self)@.contains_key(name@) && old(self)@[name@].1,
                default_startup,
                answers.0,
                answers.1,
                answers.2,
            ));
            assert(match outcome {
                Ok(state) => r is Ok && self@ == old(self)@.insert(name@, state),
                Err(e) => r == Err::<(), MqttError>(e) && self@ == old(self)@.remove(name@),
            });
        }
        r
    }

    /// Registers a module under the name it gives itself.
    pub fn register(&mut self, plugin: Box<dyn Plugin>, default_startup: bool) -> (r: Result<(), MqttError>)
        ensures
            exists|name: Seq<char>|
                #[trigger] registered(old(self)@, final(self)@, name, default_startup, r) && register_follows(
                    old(self)@,
                    final(self)@,
                    name,
                    default_startup,
                    r,
                ),
    {
        let name = plugin.name();
        let ghost n = name@;
        let r = self.register_as(name, plugin, default_startup);
        assert(registered(old(self)@, self@, n, default_startup, r) && register_follows(
            old(self)@,
            self@,
            n,
            default_startup,
            r,
        ));
        r
    }

    /// The configuration of a module. Fails with `ModuleNotFound` where the
    /// directory has no module of that name; else the module answers.
    pub fn get_config(&mut self, name: &str) -> (r: Result<JsonValue, MqttError>)
        ensures
            final(self)@ == old(self)@,
            !old(self)@.contains_key(name@) ==> is_not_found(r, name@),
    {
        match dir_remove(&mut self.plugins, name) {
            Some(entry) => {
                let r = entry.plugin.get_config();
                dir_insert(&mut self.plugins, String::from_str(name), entry.inited, entry.active, entry.plugin);
                assert(self@ =~= old(self)@);
                r
            },
            None => {
                assert(self@ =~= old(self)@);
                Err(MqttError::ModuleNotFound(String::from_str(name)))
            },
        }
    }

    /// Makes a module read its configuration again. Fails with
    /// `ModuleNotFound` where the directory has no module of that name; else
    /// the module answers.
    pub fn load_config(&mut self, name: &str) -> (r: Result<(), MqttError>)
        ensures
            final(self)@ == old(self)@,
            !old(self)@.contains_key(name@) ==> is_not_found(r, name@),
    {
        match dir_remove(&mut self.plugins, name) {
            Some(entry) => {
                let mut entry = entry;
                let r = entry.plugin.load_config();
                dir_insert(&mut self.plugins, String::from_str(name), entry.inited, entry.active, entry.plugin);
                assert(self@ =~= old(self)@);
                r
            },
            None => {
                assert(self@ =~= old(self)@);
                Err(MqttError::ModuleNotFound(String::from_str(name)))
            },
        }
    }

    /// Starts a module: initializes it where that has not been done, then
    /// starts it where it is not running. Starting a running module changes
    /// nothing and succeeds. Fails with `ModuleNotFound` where the directory
    /// has no module of that name, and with what the module reports.
    pub fn start(&mut self, name: &str) -> (r: Result<(), MqttError>)
        ensures
            started(old(self)@, final(self)@, name@, r),
            old(self)@.contains_key(name@) ==> start_follows(old(self)@, final(self)@, name@, r),
    {
        match dir_remove(&mut self.plugins, name) {
            Some(entry) => {
                let mut plugin = entry.plugin;
                let state = (entry.inited, entry.active);
                let plan = start_plan(state);
                let init = if plan.0 {
                    Some(plugin.init())
                } else {
                    None
                };
                let start = if plan.1 && !failed(&init) {
                    Some(plugin.start())
                } else {
                    None
                };
                let ghost answers = (init, start);
                let (next, r) = start_outcome(state, init, start);
                dir_insert(&mut self.plugins, String::from_str(name), next.0, next.1, plugin);
                assert(self@ =~= old(self)@.insert(name@, next));
                assert(start_answers(state, answers.0, answers.1) && next == start_result(
                    state,
                    answers.0,
                    answers.1,
                ).0);
                assert(old(self)@.insert(name@, old(self)@[name@]) =~= old(self)@);
                r
            },
            None => {
                assert(self@ =~= old(self)@);
                Err(MqttError::ModuleNotFound(String::from_str(name)))
            },
        }
    }

    /// Stops a running module and answers whether it did stop; a module that
    /// reports that it could not stop stays running. Fails with
    /// `ModuleNotFound` where the directory has no module of that name, with
    /// `ModuleNotActive` where the module is not running, and with what the
    /// module reports.
    pub fn stop(&mut self, name: &str) -> (r: Result<bool, MqttError>)
        ensures
            stopped(old(self)@, final(self)@, name@, r),
    {
        match dir_remove(&mut self.plugins, name) {
            Some(entry) => {
                let mut plugin = entry.plugin;
                let state = (entry.inited, entry.active);
                let (next, r) = if state.1 {
                    stop_outcome(state, plugin.stop())
                } else {
                    (state, Err(MqttError::ModuleNotActive(String::from_str(name))))
                };
                dir_insert(&mut self.plugins, String::from_str(name), next.0, next.1, plugin);
                assert(self@ =~= old(self)@.insert(name@, next));
                assert(old(self)@.insert(name@, old(self)@[name@]) =~= old(self)@);
                r
            },
            None => {
                assert(self@ =~= old(self)@);
                Err(MqttError::ModuleNotFound(String::from_str(name)))
            },
        }
    }

    /// Whether a module is running; `false` for a name that the directory
    /// does not hold.
    pub fn is_active(&self, name: &str) -> (r: bool)
        ensures
            r == (self@.contains_key(name@) && self@[name@].1),
    {
        match dir_state(&self.plugins, name) {
            Some(state) => state.1,
            None => false,
        }
    }

    /// The state of a module, if the directory holds one of that name.
    pub fn get(&self, name: &str) -> (r: Option<State>)
        ensures
            r == if self@.contains_key(name@) {
                Some(self@[name@])
            } else {
                None
            },
    {
        dir_state(&self.plugins, name)
    }

    /// Sends a request to a module and hands back its response. Fails with
    /// `ModuleNotFound` where the directory has no module of that name; else
    /// the module answers.
    pub fn send(&mut self, name: &str, msg: JsonValue) -> (r: Result<JsonValue, MqttError>)
        ensures
            final(self)@ == old(self)@,
            !old(self)@.contains_key(name@) ==> is_not_found(r, name@),
    {
        match dir_remove(&mut self.plugins, name) {
            Some(entry) => {
                let r = entry.plugin.send(msg);
                dir_insert(&mut self.plugins, String::from_str(name), entry.inited, entry.active, entry.plugin);
                assert(self@ =~= old(self)@);
                r
            },
            None => {
                assert(self@ =~= old(self)@);
                Err(MqttError::ModuleNotFound(String::from_str(name)))
            },
        }
    }

    /// The JSON projection of the entry of a module, if the directory holds
    /// one of that name: what the module reports as its name, version,
    /// description and attributes, and the state the directory keeps.
    pub fn entry_to_json(&mut self, name: &str) -> (r: Option<JsonValue>)
        ensures
            final(self)@ == old(self)@,
            r is Some <==> old(self)@.contains_key(name@),
            r matches Some(j) ==> exists|n: Seq<char>, v: Seq<char>, d: Seq<char>, a: JsonView|
                j@ == JsonView::Object(
                    #[trigger] entry_members(n, v, d, old(self)@[name@].0, old(self)@[name@].1, a),
                ),
    {
        match dir_remove(&mut self.plugins, name) {
            Some(entry) => {
                let json = entry.to_json();
                proof {
                    let state = old(self)@[name@];
                    assert(entry.spec_inited() == state.0 && entry.spec_active() == state.1);
                    let (n, v, d, a) = choose|n: Seq<char>, v: Seq<char>, d: Seq<char>, a: JsonView|
                        json@ == JsonView::Object(
                            #[trigger] entry_members(n, v, d, entry.spec_inited(), entry.spec_active(), a),
                        );
                    assert(json@ == JsonView::Object(entry_members(n, v, d, state.0, state.1, a)));
                }
                dir_insert(&mut self.plugins, String::from_str(name), entry.inited, entry.active, entry.plugin);
                assert(self@ =~= old(self)@);
                Some(json)
            },
            None => {
                assert(self@ =~= old(self)@);
                None
            },
        }
    }

    /// The names and states of all modules, each once, in no particular order.
    pub fn iter(&self) -> (r: Vec<(String, bool, bool)>)
        ensures
            lists(self@, r@),
    {
        dir_list(&self.plugins)
    }
}

} // verus!
