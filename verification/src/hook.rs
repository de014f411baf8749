//! The hook registry: handlers for broker lifecycle events, kept in priority
//! order and run one after the other with an accumulated result.

use vstd::prelude::*;
use crate::acl::{AuthResult, PublishAclResult, SubscribeAclResult};
use crate::connack::ConnectAckReason;
use crate::connect::ConnectInfo;
use crate::identity::Id;
use crate::publish::Publish;
use crate::subscribe::Subscribe;
use crate::topic::TopicFilter;
use crate::unsubscribe::Unsubscribe;

verus! {

/// Lower numbers run earlier.
pub type Priority = u32;

/// The kinds of lifecycle events that handlers can be registered for.
#[derive(Debug, Clone, Copy, PartialEq, Eq, Structural, Hash)]
pub enum Type {
    SessionCreated,
    SessionTerminated,
    SessionSubscribed,
    SessionUnsubscribed,
    ClientAuthenticate,
    ClientConnect,
    ClientConnack,
    ClientConnected,
    ClientDisconnected,
    ClientSubscribe,
    ClientUnsubscribe,
    ClientSubscribeCheckAcl,
    MessagePublishCheckAcl,
    MessagePublish,
    MessageDelivered,
    MessageAcked,
    MessageDropped,
}

/// What an event carries to its handlers.
#[derive(Debug, Clone, Copy)]
pub enum Parameter<'a> {
    ClientConnect(&'a ConnectInfo),
    ClientConnack(&'a ConnectInfo, &'a ConnectAckReason),
    ClientSubscribe(&'a Id, &'a Subscribe),
    ClientUnsubscribe(&'a Id, &'a Unsubscribe),
    MessagePublish(&'a Id, &'a Publish),
    MessageDelivered(&'a Id, &'a Publish),
    SessionTerminated(&'a Id),
}

/// What handlers accumulate while an event passes through them.
#[derive(Debug, Clone)]
pub enum HookResult {
    AuthResult(AuthResult),
    ConnectAckReason(ConnectAckReason),
    TopicFilters(Vec<Option<TopicFilter>>),
    SubscribeAclResult(SubscribeAclResult),
    PublishAclResult(PublishAclResult),
    Publish(Publish),
    MessageExpiry,
}

/// Whether the handler acted on the event, and the accumulated result it
/// hands on.
pub type ReturnType = (bool, Option<HookResult>);

/// A unit of logic that is run when an event of some kind occurs.
pub trait Handler {
    /// What a call of `hook` may return. An implementation that states
    /// nothing allows every outcome.
    open spec fn hook_post(&self, param: Parameter<'_>, acc: Option<HookResult>, out: ReturnType) -> bool {
        true
    }

    /// Handles one event, given what the handlers before it accumulated.
    fn hook(&self, param: &Parameter<'_>, acc: Option<HookResult>) -> (out: ReturnType)
        ensures
            self.hook_post(*param, acc, out),
    ;
}

/// What a capability shows of itself: the kind and priority of the handlers
/// it holds, in the order in which they run, and whether they are switched on.
pub struct RegisterState {
    pub added: Seq<(Type, Priority)>,
    pub enabled: bool,
}

/// The capability to add handlers to a registry and to switch them on and off.
pub trait Register {
    /// What the capability shows of itself. An implementation that states
    /// nothing shows no handler.
    open spec fn state(&self) -> RegisterState {
        RegisterState { added: Seq::empty(), enabled: true }
    }

    /// What the capability may show after a handler of the given kind and
    /// priority was added. An implementation that states nothing allows
    /// everything.
    open spec fn add_post(&self, typ: Type, priority: Priority, after: RegisterState) -> bool {
        true
    }

    /// What the capability may show after its handlers were switched on.
    open spec fn start_post(&self, after: RegisterState) -> bool {
        true
    }

    /// What the capability may show after its handlers were switched off.
    open spec fn stop_post(&self, after: RegisterState) -> bool {
        true
    }

    /// Adds a handler with priority 0.
    fn add(&mut self, typ: Type, handler: Box<dyn Handler>)
        ensures
            old(self).add_post(typ, 0, final(self).state()),
    ;

    /// Adds a handler with the given priority.
    fn add_priority(&mut self, typ: Type, priority: Priority, handler: Box<dyn Handler>)
        ensures
            old(self).add_post(typ, priority, final(self).state()),
    ;

    /// Switches the handlers added through this capability on.
    fn start(&mut self)
        ensures
            old(self).start_post(final(self).state()),
    ;

    /// Switches the handlers added through this capability off.
    fn stop(&mut self)
        ensures
            old(self).stop_post(final(self).state()),
    ;
}

/// One registered handler.
pub struct HookEntry {
    pub kind: Type,
    pub priority: Priority,
    /// The group of handlers that is switched on and off together.
    pub scope: usize,
    pub handler: Box<dyn Handler>,
}

/// Entries in ascending order of priority.
pub open spec fn sorted_by_priority(entries: Seq<HookEntry>) -> bool {
    forall|i: int, j: int| 0 <= i < j < entries.len() ==> entries[i].priority <= entries[j].priority
}

/// Whether `after` is `before` with one entry of the given kind, priority and
/// scope put in behind every entry whose priority is not above its own.
pub open spec fn placed(before: Seq<HookEntry>, after: Seq<HookEntry>, typ: Type, priority: Priority, scope: usize) -> bool {
    let p = insertion_point(before, priority);
    &&& 0 <= p <= before.len()
    &&& after == before.insert(p, after[p])
    &&& after[p].kind == typ
    &&& after[p].priority == priority
    &&& after[p].scope == scope
}

/// Whether `after` is `before` with the given handler put in.
pub open spec fn inserted(
    before: Seq<HookEntry>,
    after: Seq<HookEntry>,
    typ: Type,
    priority: Priority,
    scope: usize,
    handler: Box<dyn Handler>,
) -> bool {
    &&& placed(before, after, typ, priority, scope)
    &&& after[insertion_point(before, priority)].handler == handler
}

/// The kind and priority of each entry, in order.
pub open spec fn kinds_and_priorities(entries: Seq<HookEntry>) -> Seq<(Type, Priority)> {
    Seq::new(entries.len(), |i: int| (entries[i].kind, entries[i].priority))
}

/// Putting an entry in puts its kind and priority in at the same place.
pub proof fn lemma_placed_kinds(
    before: Seq<HookEntry>,
    after: Seq<HookEntry>,
    typ: Type,
    priority: Priority,
    scope: usize,
)
    requires
        placed(before, after, typ, priority, scope),
    ensures
        kinds_and_priorities(after) == kinds_and_priorities(before).insert(
            insertion_point(before, priority),
            (typ, priority),
        ),
{
    let p = insertion_point(before, priority);
    before.insert_ensures(p, after[p]);
    kinds_and_priorities(before).insert_ensures(p, (typ, priority));
    let a = kinds_and_priorities(after);
    let b = kinds_and_priorities(before).insert(p, (typ, priority));
    assert(a.len() == b.len());
    assert forall|i: int| 0 <= i < a.len() implies a[i] == b[i] by {
        if i < p {
            assert(after[i] == before[i]);
        } else if i > p {
            assert(after[i] == before[i - 1]);
        }
    }
    assert(a =~= b);
}

/// Where an entry of the given priority goes: behind every entry whose
/// priority is not above it.
pub open spec fn insertion_point(entries: Seq<HookEntry>, priority: Priority) -> int
    decreases entries.len(),
{
    if entries.len() == 0 {
        0
    } else if entries.last().priority <= priority {
        entries.len() as int
    } else {
        insertion_point(entries.drop_last(), priority)
    }
}

/// Whether entry `i` takes part in the dispatch of an event of `kind`.
pub open spec fn applies(entries: Seq<HookEntry>, scopes: Seq<bool>, kind: Type, i: int) -> bool {
    &&& entries[i].kind == kind
    &&& 0 <= entries[i].scope < scopes.len()
    &&& scopes[entries[i].scope as int]
}

/// What entry `i` is handed: nothing for the first entry, else what the entry
/// before it handed on.
pub open spec fn handed_to(trace: Seq<ReturnType>, i: int) -> Option<HookResult> {
    if i == 0 {
        None
    } else {
        trace[i - 1].1
    }
}

/// A run of the first `n` entries: each entry that takes part is called with
/// what its predecessor handed on, and `trace[i]` is what it returned; an
/// entry that does not take part hands on what it was handed.
pub open spec fn is_run(
    entries: Seq<HookEntry>,
    scopes: Seq<bool>,
    kind: Type,
    param: Parameter<'_>,
    trace: Seq<ReturnType>,
    n: int,
) -> bool {
    &&& trace.len() == n
    &&& forall|i: int|
        0 <= i < n ==> if applies(entries, scopes, kind, i) {
            entries[i].handler.hook_post(param, handed_to(trace, i), #[trigger] trace[i])
        } else {
            trace[i] == (false, handed_to(trace, i))
        }
}

/// Whether some handler of the run acted on the event.
pub open spec fn any_matched(trace: Seq<ReturnType>) -> bool {
    exists|i: int| 0 <= i < trace.len() && (#[trigger] trace[i]).0
}

/// What a dispatch returns for a run: whether some handler acted, and what
/// the last entry handed on, or nothing where no handler acted.
pub open spec fn outcome(trace: Seq<ReturnType>) -> ReturnType {
    if any_matched(trace) {
        (true, handed_to(trace, trace.len() as int))
    } else {
        (false, None)
    }
}

/// The registry of handlers. Handlers are kept in ascending order of
/// priority; among equal priorities the one registered first comes first.
pub struct HookRegistry {
    entries: Vec<HookEntry>,
    scopes: Vec<bool>,
}

impl HookRegistry {
    /// The registered handlers, in the order in which they run.
    pub closed spec fn spec_entries(&self) -> Seq<HookEntry> {
        self.entries@
    }

    /// For each scope, whether its handlers are switched on.
    pub closed spec fn spec_scopes(&self) -> Seq<bool> {
        self.scopes@
    }

    /// The handlers are in ascending order of priority and each belongs to a
    /// scope of the registry; scope 0 always exists.
    pub open spec fn wf(&self) -> bool {
        &&& sorted_by_priority(self.spec_entries())
        &&& self.spec_scopes().len() >= 1
        &&& forall|i: int|
            0 <= i < self.spec_entries().len() ==> (#[trigger] self.spec_entries()[i]).scope
                < self.spec_scopes().len()
    }

    /// An empty registry with its own scope, 0, switched on.
    pub fn new() -> (r: HookRegistry)
        ensures
            r.wf(),
            r.spec_entries().len() == 0,
            r.spec_scopes() == seq![true],
    {
        let mut scopes: Vec<bool> = Vec::new();
        scopes.push(true);
        HookRegistry { entries: Vec::new(), scopes }
    }

    /// Opens a new scope, switched on, and gives its number.
    pub fn register(&mut self) -> (scope: usize)
        ensures
            old(self).wf() ==> final(self).wf(),
            scope == old(self).spec_scopes().len(),
            final(self).spec_scopes() == old(self).spec_scopes().push(true),
            final(self).spec_entries() == old(self).spec_entries(),
    {
        let scope = self.scopes.len();
        self.scopes.push(true);
        scope
    }

    /// Number of registered handlers.
    pub fn len(&self) -> (n: usize)
        ensures
            n == self.spec_entries().len(),
    {
        self.entries.len()
    }

    /// The kind and priority of the handler at a position of the run order.
    pub fn entry_at(&self, i: usize) -> (r: Option<(Type, Priority)>)
        ensures
            i < self.spec_entries().len() ==> r == Some(
                (self.spec_entries()[i as int].kind, self.spec_entries()[i as int].priority),
            ),
            i >= self.spec_entries().len() ==> r is None,
    {
        if i < self.entries.len() {
            Some((self.entries[i].kind, self.entries[i].priority))
        } else {
            None
        }
    }

    /// Adds a handler to a scope. The handler goes behind every handler whose
    /// priority is not above its own. Where the registry has no such scope
    /// nothing changes and the answer is `false`.
    pub fn add_priority_in(&mut self, scope: usize, typ: Type, priority: Priority, handler: Box<dyn Handler>) -> (added:
        bool)
        ensures
            old(self).wf() ==> final(self).wf(),
            final(self).spec_scopes() == old(self).spec_scopes(),
            added == (scope < old(self).spec_scopes().len()),
            added ==> inserted(old(self).spec_entries(), final(self).spec_entries(), typ, priority, scope, handler),
            !added ==> final(self).spec_entries() == old(self).spec_entries(),
    {
        proof {
            lemma_insertion_point(self.entries@, priority);
        }
        if scope >= self.scopes.len() {
            return false;
        }
        let mut pos: usize = self.entries.len();
        assert(self.entries@.subrange(0, pos as int) =~= self.entries@);
        while pos > 0 && self.entries[pos - 1].priority > priority
            invariant
                pos <= self.entries.len(),
                insertion_point(self.entries@, priority) == insertion_point(
                    self.entries@.subrange(0, pos as int),
                    priority,
                ),
                forall|k: int| pos <= k < self.entries.len() ==> self.entries[k].priority > priority,
            decreases pos,
        {
            proof {
                let s = self.entries@.subrange(0, pos as int);
                assert(s.drop_last() =~= self.entries@.subrange(0, pos - 1));
            }
            pos -= 1;
        }
        proof {
            let s = self.entries@.subrange(0, pos as int);
            if pos > 0 {
                assert(s.last() == self.entries@[pos - 1]);
            }
            assert(insertion_point(s, priority) == pos);
            assert(self.entries@.subrange(0, self.entries@.len() as int) =~= self.entries@);
        }
        let ghost before = self.entries@;
        let ghost entry = HookEntry { kind: typ, priority, scope, handler };
        self.entries.insert(pos, HookEntry { kind: typ, priority, scope, handler });
        proof {
            let after = self.entries@;
            assert(after == before.insert(pos as int, entry));
            before.insert_ensures(pos as int, entry);
            assert(after[pos as int] == entry);
            assert(placed(before, after, typ, priority, scope));
            if old(self).wf() {
                lemma_placed_keeps_order(before, after, typ, priority, scope);
                assert forall|i: int| 0 <= i < after.len() implies (#[trigger] after[i]).scope
                    < self.scopes@.len() by {
                    if i < pos {
                        assert(after[i] == before[i]);
                    } else if i > pos {
                        assert(after[i] == before[i - 1]);
                    }
                }
            }
        }
        true
    }

    /// Switches the handlers of a scope on or off. Where the registry has no
    /// such scope nothing changes and the answer is `false`.
    pub fn set_enabled(&mut self, scope: usize, enabled: bool) -> (known: bool)
        ensures
            old(self).wf() ==> final(self).wf(),
            final(self).spec_entries() == old(self).spec_entries(),
            known == (scope < old(self).spec_scopes().len()),
            known ==> final(self).spec_scopes() == old(self).spec_scopes().update(scope as int, enabled),
            !known ==> final(self).spec_scopes() == old(self).spec_scopes(),
    {
        if scope < self.scopes.len() {
            self.scopes[scope] = enabled;
            true
        } else {
            false
        }
    }

    /// Takes every handler of a scope out of the registry and keeps the
    /// others in order.
    pub fn remove_scope(&mut self, scope: usize)
        ensures
            old(self).wf() ==> final(self).wf(),
            final(self).spec_scopes() == old(self).spec_scopes(),
            final(self).spec_entries() == without_scope(old(self).spec_entries(), scope),
    {
        let ghost before = self.entries@;
        let ghost pred = not_in_scope(scope);
        let mut kept: Vec<HookEntry> = Vec::new();
        let mut rest: Vec<HookEntry> = Vec::new();
        core::mem::swap(&mut rest, &mut self.entries);
        let ghost mut j: int = 0;
        proof {
            assert(before.subrange(0, 0) =~= Seq::<HookEntry>::empty());
            assert(rest@ =~= before.subrange(0, before.len() as int));
        }
        while rest.len() > 0
            invariant
                0 <= j <= before.len(),
                rest@ == before.subrange(j, before.len() as int),
                kept@ == before.subrange(0, j).filter(pred),
                pred == not_in_scope(scope),
            decreases rest.len(),
        {
            proof {
                let next = before.subrange(0, j + 1);
                assert(next.drop_last() =~= before.subrange(0, j));
                assert(next.last() == before[j]);
                assert(rest@[0] == before[j]);
                reveal(Seq::filter);
            }
            let e = rest.remove(0);
            if e.scope != scope {
                kept.push(e);
            }
            proof {
                j = j + 1;
                assert(rest@ =~= before.subrange(j, before.len() as int));
            }
        }
        proof {
            assert(before.subrange(0, j) =~= before);
            lemma_filter_members(before, scope);
            if sorted_by_priority(before) {
                lemma_filter_keeps_order(before, scope);
            }
        }
        self.entries = kept;
    }

    /// Runs the handlers for an event of a kind, in ascending order of
    /// priority. Each handler is handed what the one before it accumulated,
    /// the first one nothing. Returns whether some handler acted on the
    /// event and, where one did, what the last handler handed on.
    pub fn dispatch(&self, typ: Type, param: &Parameter<'_>) -> (r: ReturnType)
        ensures
            exists|trace: Seq<ReturnType>|
                is_run(
                    self.spec_entries(),
                    self.spec_scopes(),
                    typ,
                    *param,
                    trace,
                    self.spec_entries().len() as int,
                ) && r == outcome(trace),
    {
        let ghost mut trace: Seq<ReturnType> = Seq::empty();
        let mut acc: Option<HookResult> = None;
        let mut matched = false;
        let mut i: usize = 0;
        while i < self.entries.len()
            invariant
                i <= self.entries.len(),
                is_run(self.entries@, self.scopes@, typ, *param, trace, i as int),
                acc == handed_to(trace, i as int),
                matched == any_matched(trace),
            decreases self.entries.len() - i,
        {
            let ghost prev = trace;
            let entry = &self.entries[i];
            if entry.kind == typ && entry.scope < self.scopes.len() && self.scopes[entry.scope] {
                let (m, next) = entry.handler.hook(param, acc);
                proof {
                    trace = prev.push((m, next));
                }
                if m {
                    matched = true;
                }
                acc = next;
            } else {
                proof {
                    trace = prev.push((false, acc));
                }
            }
            proof {
                lemma_run_extend(self.entries@, self.scopes@, typ, *param, prev, trace.last());
                lemma_matched_extend(prev, trace.last());
            }
            i += 1;
        }
        let r = if matched {
            (true, acc)
        } else {
            (false, None)
        };
        proof {
            assert(trace.len() == self.spec_entries().len());
            assert(is_run(self.spec_entries(), self.spec_scopes(), typ, *param, trace, trace.len() as int));
            assert(r == outcome(trace));
        }
        r
    }
}

/// The place where an entry goes lies within the run. Every entry from
/// there on has a priority above that of the entry, and where the run is in
/// order no entry before that place has.
pub proof fn lemma_insertion_point(entries: Seq<HookEntry>, priority: Priority)
    ensures
        0 <= insertion_point(entries, priority) <= entries.len(),
        forall|k: int|
            insertion_point(entries, priority) <= k < entries.len() ==> (#[trigger] entries[k]).priority
                > priority,
        sorted_by_priority(entries) ==> forall|k: int|
            0 <= k < insertion_point(entries, priority) ==> (#[trigger] entries[k]).priority <= priority,
    decreases entries.len(),
{
    if entries.len() > 0 && entries.last().priority > priority {
        let head = entries.drop_last();
        lemma_insertion_point(head, priority);
        assert forall|k: int| insertion_point(entries, priority) <= k < entries.len() implies (
        #[trigger] entries[k]).priority > priority by {
            if k < head.len() {
                assert(head[k] == entries[k]);
            }
        }
        if sorted_by_priority(entries) {
            assert(sorted_by_priority(head)) by {
                assert forall|i: int, j: int| 0 <= i < j < head.len() implies head[i].priority
                    <= head[j].priority by {
                    assert(head[i] == entries[i] && head[j] == entries[j]);
                }
            }
            assert forall|k: int| 0 <= k < insertion_point(entries, priority) implies (
            #[trigger] entries[k]).priority <= priority by {
                assert(head[k] == entries[k]);
            }
        }
    } else if entries.len() > 0 {
        if sorted_by_priority(entries) {
            assert forall|k: int| 0 <= k < entries.len() implies (#[trigger] entries[k]).priority
                <= priority by {
                assert(entries[k].priority <= entries.last().priority || k == entries.len() - 1);
            }
        }
    }
}

/// A handler put into an ordered run leaves an ordered run: no handler before
/// it has a priority above its own, and every handler behind it has.
pub proof fn lemma_placed_keeps_order(
    before: Seq<HookEntry>,
    after: Seq<HookEntry>,
    typ: Type,
    priority: Priority,
    scope: usize,
)
    requires
        sorted_by_priority(before),
        placed(before, after, typ, priority, scope),
    ensures
        sorted_by_priority(after),
        forall|k: int| 0 <= k < insertion_point(before, priority) ==> (#[trigger] after[k]).priority <= priority,
        forall|k: int|
            insertion_point(before, priority) < k < after.len() ==> (#[trigger] after[k]).priority > priority,
{
    let p = insertion_point(before, priority);
    lemma_insertion_point(before, priority);
    before.insert_ensures(p, after[p]);
    assert forall|k: int| 0 <= k < p implies after[k] == before[k] by {}
    assert forall|k: int| p < k < after.len() implies after[k] == before[k - 1] by {}
    assert forall|i: int, j: int| 0 <= i < j < after.len() implies after[i].priority <= after[j].priority by {
        if j < p {
            assert(after[i] == before[i] && after[j] == before[j]);
        } else if j == p {
            assert(after[i] == before[i]);
        } else if i < p {
            assert(after[i] == before[i] && after[j] == before[j - 1]);
        } else if i == p {
            assert(after[j] == before[j - 1]);
        } else {
            assert(after[i] == before[i - 1] && after[j] == before[j - 1]);
        }
    }
}

/// In a run, a handler that takes part is called with what the entry before
/// it handed on, the first one with nothing; an entry that takes no part
/// hands on what it was handed.
pub proof fn lemma_run_chain(
    entries: Seq<HookEntry>,
    scopes: Seq<bool>,
    kind: Type,
    param: Parameter<'_>,
    trace: Seq<ReturnType>,
    i: int,
)
    requires
        is_run(entries, scopes, kind, param, trace, trace.len() as int),
        0 <= i < trace.len(),
    ensures
        i == 0 ==> handed_to(trace, i) is None,
        i > 0 ==> handed_to(trace, i) == trace[i - 1].1,
        applies(entries, scopes, kind, i) ==> entries[i].handler.hook_post(param, handed_to(trace, i), trace[i]),
        !applies(entries, scopes, kind, i) ==> trace[i].1 == handed_to(trace, i) && !trace[i].0,
{
}

/// A run of the first `n` entries extends by what entry `n` returns.
pub proof fn lemma_run_extend(
    entries: Seq<HookEntry>,
    scopes: Seq<bool>,
    kind: Type,
    param: Parameter<'_>,
    prev: Seq<ReturnType>,
    out: ReturnType,
)
    requires
        is_run(entries, scopes, kind, param, prev, prev.len() as int),
        if applies(entries, scopes, kind, prev.len() as int) {
            entries[prev.len() as int].handler.hook_post(param, handed_to(prev, prev.len() as int), out)
        } else {
            out == (false, handed_to(prev, prev.len() as int))
        },
    ensures
        is_run(entries, scopes, kind, param, prev.push(out), prev.len() as int + 1),
        handed_to(prev.push(out), prev.len() as int + 1) == out.1,
{
    let trace = prev.push(out);
    let n = prev.len() as int;
    assert forall|i: int| 0 <= i < n + 1 implies if applies(entries, scopes, kind, i) {
        entries[i].handler.hook_post(param, handed_to(trace, i), #[trigger] trace[i])
    } else {
        trace[i] == (false, handed_to(trace, i))
    } by {
        if i < n {
            assert(trace[i] == prev[i]);
            assert(handed_to(trace, i) == handed_to(prev, i));
        } else {
            assert(trace[i] == out);
            assert(handed_to(trace, i) == handed_to(prev, i));
        }
    }
}

/// Some handler of an extended run acted exactly where one of the run did or
/// the last one does.
pub proof fn lemma_matched_extend(prev: Seq<ReturnType>, out: ReturnType)
    ensures
        any_matched(prev.push(out)) == (any_matched(prev) || out.0),
{
    let trace = prev.push(out);
    if any_matched(prev) {
        let w = choose|w: int| 0 <= w < prev.len() && (#[trigger] prev[w]).0;
        assert(trace[w].0);
    }
    if out.0 {
        assert(trace[prev.len() as int].0);
    }
    if any_matched(trace) {
        let w = choose|w: int| 0 <= w < trace.len() && (#[trigger] trace[w]).0;
        if w < prev.len() {
            assert(prev[w].0);
        }
    }
}

/// The test that a handler is not of a scope.
pub open spec fn not_in_scope(scope: usize) -> spec_fn(HookEntry) -> bool {
    |e: HookEntry| e.scope != scope
}

/// The handlers that are left when those of a scope are taken out.
pub open spec fn without_scope(entries: Seq<HookEntry>, scope: usize) -> Seq<HookEntry> {
    entries.filter(not_in_scope(scope))
}

/// Every handler that is left when a scope is taken out was there before.
pub proof fn lemma_filter_members(entries: Seq<HookEntry>, scope: usize)
    ensures
        forall|i: int|
            0 <= i < without_scope(entries, scope).len() ==> exists|k: int|
                0 <= k < entries.len() && entries[k] == #[trigger] without_scope(entries, scope)[i],
    decreases entries.len(),
{
    let pred = not_in_scope(scope);
    reveal(Seq::filter);
    if entries.len() > 0 {
        let head = entries.drop_last();
        lemma_filter_members(head, scope);
        let f = without_scope(head, scope);
        let g = without_scope(entries, scope);
        assert(g == if pred(entries.last()) {
            f.push(entries.last())
        } else {
            f
        });
        assert forall|i: int| 0 <= i < g.len() implies exists|k: int|
            0 <= k < entries.len() && entries[k] == #[trigger] g[i] by {
            if i < f.len() {
                assert(g[i] == f[i]);
                let k = choose|k: int| 0 <= k < head.len() && head[k] == f[i];
                assert(entries[k] == g[i]);
            } else {
                assert(entries[entries.len() - 1] == g[i]);
            }
        }
    }
}

/// Taking the handlers of a scope out of an ordered run leaves an ordered run.
pub proof fn lemma_filter_keeps_order(entries: Seq<HookEntry>, scope: usize)
    requires
        sorted_by_priority(entries),
    ensures
        sorted_by_priority(without_scope(entries, scope)),
    decreases entries.len(),
{
    let pred = not_in_scope(scope);
    reveal(Seq::filter);
    if entries.len() > 0 {
        let head = entries.drop_last();
        lemma_filter_keeps_order(head, scope);
        lemma_filter_members(head, scope);
        let f = without_scope(head, scope);
        let g = without_scope(entries, scope);
        assert(g == if pred(entries.last()) {
            f.push(entries.last())
        } else {
            f
        });
        assert forall|i: int, j: int| 0 <= i < j < g.len() implies g[i].priority <= g[j].priority by {
            if j < f.len() {
                assert(g[i] == f[i] && g[j] == f[j]);
            } else {
                assert(g[i] == f[i]);
                let k = choose|k: int| 0 <= k < head.len() && head[k] == f[i];
                assert(entries[k] == f[i]);
                assert(g[j] == entries[entries.len() - 1]);
            }
        }
    }
}

impl Register for HookRegistry {
    /// The registry shows all its handlers, and whether its own scope is
    /// switched on.
    open spec fn state(&self) -> RegisterState {
        RegisterState {
            added: kinds_and_priorities(self.spec_entries()),
            enabled: self.spec_scopes().len() > 0 && self.spec_scopes()[0],
        }
    }

    /// A handler goes behind every handler whose priority is not above its
    /// own; nothing is switched.
    open spec fn add_post(&self, typ: Type, priority: Priority, after: RegisterState) -> bool {
        self.wf() ==> after == (RegisterState {
            added: self.state().added.insert(insertion_point(self.spec_entries(), priority), (typ, priority)),
            enabled: self.state().enabled,
        })
    }

    open spec fn start_post(&self, after: RegisterState) -> bool {
        self.wf() ==> after == (RegisterState { added: self.state().added, enabled: true })
    }

    open spec fn stop_post(&self, after: RegisterState) -> bool {
        self.wf() ==> after == (RegisterState { added: self.state().added, enabled: false })
    }

    /// Adds a handler with priority 0 to the registry's own scope.
    fn add(&mut self, typ: Type, handler: Box<dyn Handler>)
        ensures
            old(self).wf() ==> final(self).wf(),
            final(self).spec_scopes() == old(self).spec_scopes(),
            old(self).wf() ==> placed(old(self).spec_entries(), final(self).spec_entries(), typ, 0, 0),
    {
        self.add_priority_in(0, typ, 0, handler);
        proof {
            if old(self).wf() {
                lemma_placed_kinds(old(self).spec_entries(), self.spec_entries(), typ, 0, 0);
            }
        }
    }

    /// Adds a handler to the registry's own scope.
    fn add_priority(&mut self, typ: Type, priority: Priority, handler: Box<dyn Handler>)
        ensures
            old(self).wf() ==> final(self).wf(),
            final(self).spec_scopes() == old(self).spec_scopes(),
            old(self).wf() ==> placed(old(self).spec_entries(), final(self).spec_entries(), typ, priority, 0),
    {
        self.add_priority_in(0, typ, priority, handler);
        proof {
            if old(self).wf() {
                lemma_placed_kinds(old(self).spec_entries(), self.spec_entries(), typ, priority, 0);
            }
        }
    }

    /// Switches the handlers of the registry's own scope on.
    fn start(&mut self)
        ensures
            old(self).wf() ==> final(self).wf(),
            final(self).spec_entries() == old(self).spec_entries(),
            old(self).wf() ==> final(self).spec_scopes() == old(self).spec_scopes().update(0, true),
    {
        self.set_enabled(0, true);
    }

    /// Switches the handlers of the registry's own scope off.
    fn stop(&mut self)
        ensures
            old(self).wf() ==> final(self).wf(),
            final(self).spec_entries() == old(self).spec_entries(),
            old(self).wf() ==> final(self).spec_scopes() == old(self).spec_scopes().update(0, false),
    {
        self.set_enabled(0, false);
    }
}

} // verus!
