//! The tick scheduler: a registry of named system functions that the
//! engine invokes once per tick against a shared tick context, with a
//! partial-failure policy — a failing system ends its tick early, but the
//! commands already queued are still drained into the world, and the next
//! tick starts over from the first system.

use vstd::prelude::*;

use crate::ecs::new_command_buffer;
use crate::ecs::new_world;
use crate::ecs::run_commands;
use crate::errors::EngineError;
use crate::errors::SystemError;
use crate::state_store::AnyValue;
use crate::state_store::StateManager;

verus! {

/// The ephemeral per-tick context handed to each system: the tick's delta
/// time, read access to the world as it stood at tick start, the deferred
/// world commands queued so far, and the state store, which the tick owns
/// for its whole duration.
pub struct TickData<'a> {
    /// Delta time for this tick, in microseconds.
    pub dt_micros: u64,
    /// The world, readable but frozen for the tick: structural changes go
    /// through the command buffer instead.
    pub world: &'a hecs::World,
    /// Deferred world mutations; applied to the world only after every
    /// system of the tick has run, so that systems observe a consistent
    /// world snapshot.
    pub command_buffer: hecs::CommandBuffer,
    state: StateManager,
}

impl<'a> TickData<'a> {
    /// The association of type keys to stored values behind this context.
    pub closed spec fn state_view(&self) -> Map<core::any::TypeId, AnyValue> {
        self.state@
    }

    /// The state store's internal invariant.
    pub closed spec fn wf(&self) -> bool {
        self.state.wf()
    }

    /// Returns the stored value of type `S`, or fails with
    /// `UninitialisedState` carrying `name`, the caller's display name for
    /// `S`, if none was ever inserted.
    pub fn get_state<S: 'static>(&mut self, name: &'static str) -> (r: Result<
        &mut S,
        EngineError,
    >)
        requires
            old(self).wf(),
        ensures
            r matches Err(e) ==> e == EngineError::UninitialisedState(name),
    {
        self.state.get_state::<S>(name)
    }
}

/// A registered system: a stateless function that is given the tick
/// context and reports success or a failure for the scheduler to act on.
/// Hidden from the verifier because it cannot hold a callable's type; the
/// scheduler treats it as an opaque value, stored, replaced and handed to
/// `invoke_system` whole.
#[verifier::external_body]
pub struct SystemFn {
    func: Box<dyn for<'a, 'b> Fn(&'a mut TickData<'b>) -> Result<(), SystemError>>,
}

impl SystemFn {
    /// Relies on `Box::new`: boxes a system function so the registry can
    /// store it.  The wrapped callable is opaque here, so nothing is
    /// promised of the result.
    #[verifier::external_body]
    pub fn new<F: 'static + for<'a, 'b> Fn(&'a mut TickData<'b>) -> Result<(), SystemError>>(
        func: F,
    ) -> SystemFn {
        SystemFn { func: Box::new(func) }
    }
}

struct SystemEntry {
    name: String,
    func: SystemFn,
}

/// The failure one system reported, with the system's name attached for
/// the embedder's log.
pub struct SystemFailure {
    pub system: String,
    pub cause: SystemError,
}

/// What one tick did: the names of the systems that ran to completion, in
/// invocation order, and the failure that ended the tick early, if any.
pub struct TickReport {
    pub ran: Vec<String>,
    pub failure: Option<SystemFailure>,
}

/// The registered system names, in invocation order.
spec fn names_of(s: Seq<SystemEntry>) -> Seq<Seq<char>> {
    Seq::new(s.len(), |i: int| s[i].name@)
}

/// The association of system names to system functions that a sequence of
/// registry entries represents; a later entry for a name shadows an
/// earlier one.
spec fn sys_map_of(s: Seq<SystemEntry>) -> Map<Seq<char>, SystemFn>
    decreases s.len(),
{
    if s.len() == 0 {
        Map::empty()
    } else {
        sys_map_of(s.drop_last()).insert(s.last().name@, s.last().func)
    }
}

spec fn sys_names_unique(s: Seq<SystemEntry>) -> bool {
    forall|i: int, j: int| 0 <= i < j < s.len() ==> s[i].name@ != s[j].name@
}

proof fn lemma_sys_map_of_contains(s: Seq<SystemEntry>, n: Seq<char>)
    ensures
        sys_map_of(s).contains_key(n) <==> exists|i: int| 0 <= i < s.len() && s[i].name@ == n,
    decreases s.len(),
{
    if s.len() > 0 {
        lemma_sys_map_of_contains(s.drop_last(), n);
        if s.last().name@ == n {
            assert(s[s.len() - 1].name@ == n);
        } else if sys_map_of(s).contains_key(n) {
            let i = choose|i: int|
                0 <= i < s.drop_last().len() && s.drop_last()[i].name@ == n;
            assert(s[i].name@ == n);
        } else if exists|i: int| 0 <= i < s.len() && s[i].name@ == n {
            let i = choose|i: int| 0 <= i < s.len() && s[i].name@ == n;
            assert(s.drop_last()[i].name@ == n);
        }
    }
}

proof fn lemma_sys_map_of_index(s: Seq<SystemEntry>, i: int)
    requires
        sys_names_unique(s),
        0 <= i < s.len(),
    ensures
        sys_map_of(s).contains_key(s[i].name@),
        sys_map_of(s)[s[i].name@] == s[i].func,
    decreases s.len(),
{
    lemma_sys_map_of_contains(s, s[i].name@);
    if i < s.len() - 1 {
        assert(s.drop_last()[i] == s[i]);
        lemma_sys_map_of_index(s.drop_last(), i);
    }
}

proof fn lemma_sys_map_of_update(s: Seq<SystemEntry>, i: int, e: SystemEntry)
    requires
        sys_names_unique(s),
        0 <= i < s.len(),
        e.name@ == s[i].name@,
    ensures
        sys_map_of(s.update(i, e)) =~= sys_map_of(s).insert(e.name@, e.func),
    decreases s.len(),
{
    let t = s.update(i, e);
    if i == s.len() - 1 {
        assert(t.drop_last() =~= s.drop_last());
    } else {
        lemma_sys_map_of_update(s.drop_last(), i, e);
        assert(t.drop_last() =~= s.drop_last().update(i, e));
        assert(t.last() == s.last());
    }
}

proof fn lemma_sys_map_of_push(s: Seq<SystemEntry>, e: SystemEntry)
    ensures
        sys_map_of(s.push(e)) =~= sys_map_of(s).insert(e.name@, e.func),
{
    assert(s.push(e).drop_last() =~= s);
}

/// What one `register_system` call does to the engine: the registry binds
/// `name` to `f` — a fresh entry at the end of the invocation order, or an
/// overwrite of the existing entry in place — while the state store and
/// the world stay exactly what they were.
pub open spec fn register_effect(pre: Engine, post: Engine, name: Seq<char>, f: SystemFn) -> bool {
    &&& post.sys_map() == pre.sys_map().insert(name, f)
    &&& post.sys_names() == if pre.sys_map().contains_key(name) {
        pre.sys_names()
    } else {
        pre.sys_names().push(name)
    }
    &&& post.spec_state() == pre.spec_state()
    &&& post.spec_world() == pre.spec_world()
}

/// Whether a tick report is a faithful account of one tick over the given
/// registry: the systems that ran form a prefix of the registry, the whole
/// registry when nothing failed, and the failure — if any — names exactly
/// the first system that did not complete.
pub open spec fn report_matches(names: Seq<Seq<char>>, r: TickReport) -> bool {
    match r.failure {
        None => r.ran.deep_view() == names,
        Some(f) => {
            &&& r.ran.len() < names.len()
            &&& r.ran.deep_view() == names.take(r.ran.len() as int)
            &&& f.system@ == names[r.ran.len() as int]
        },
    }
}

/// Relies on the registered system function itself, which arrives from a
/// loaded module (or the embedder) and is outside this library.  A system
/// may do anything to the tick context that the context's public face
/// allows: mutate its delta time and command buffer directly, and reach
/// the state store only through the context's verified methods, each of
/// which preserves the store's invariant — hence the one clause below.
/// Nothing else is assumed of the outcome.
#[verifier::external_body]
fn invoke_system<'a>(system: &SystemFn, data: &mut TickData<'a>) -> (r: Result<(), SystemError>)
    requires
        old(data).wf(),
    ensures
        final(data).wf(),
{
    (system.func)(data)
}

/// The engine: the registry of systems invoked each tick, the state store
/// that outlives every module reload, and the world the systems' deferred
/// commands are drained into.
pub struct Engine {
    systems: Vec<SystemEntry>,
    state: StateManager,
    world: hecs::World,
}

impl Engine {
    /// The registered system names, in invocation order.
    pub closed spec fn sys_names(&self) -> Seq<Seq<char>> {
        names_of(self.systems@)
    }

    /// The association of system names to system functions.
    pub closed spec fn sys_map(&self) -> Map<Seq<char>, SystemFn> {
        sys_map_of(self.systems@)
    }

    /// The association of type keys to values in the state store.
    pub closed spec fn state_view(&self) -> Map<core::any::TypeId, AnyValue> {
        self.state@
    }

    /// The state store itself.
    pub closed spec fn spec_state(&self) -> StateManager {
        self.state
    }

    /// The world handle.
    pub closed spec fn spec_world(&self) -> hecs::World {
        self.world
    }

    /// Each system name occupies at most one registry slot, and the state
    /// store is internally consistent.
    pub closed spec fn wf(&self) -> bool {
        sys_names_unique(self.systems@) && self.state.wf()
    }

    /// The guard on the raw engine handle a module receives across the
    /// code-module boundary: the embedding layer turns the raw pointer
    /// into an optional reference, and an absent handle is refused as
    /// `BadPointer` rather than dereferenced.
    pub fn from_handle<'a>(handle: Option<&'a mut Engine>) -> (r: Result<
        &'a mut Engine,
        EngineError,
    >)
        ensures
            r is Ok <==> handle is Some,
            r is Err ==> r == Err::<&'a mut Engine, EngineError>(EngineError::BadPointer),
    {
        match handle {
            Some(engine) => Ok(engine),
            None => Err(EngineError::BadPointer),
        }
    }

    /// An engine with no systems, an empty state store, and a fresh world.
    pub fn new() -> (e: Engine)
        ensures
            e.wf(),
            e.sys_names() == Seq::<Seq<char>>::empty(),
            e.sys_map() == Map::<Seq<char>, SystemFn>::empty(),
            e.state_view() == Map::<core::any::TypeId, AnyValue>::empty(),
    {
        let e = Engine { systems: Vec::new(), state: StateManager::new(), world: new_world() };
        proof {
            assert(e.sys_names() =~= Seq::<Seq<char>>::empty());
        }
        e
    }

    /// Registers `system` under `name`, inserting a new entry or
    /// overwriting the function of an existing one; never touches the
    /// state store or the world.
    pub fn register_system(&mut self, name: String, system: SystemFn)
        requires
            old(self).wf(),
        ensures
            final(self).wf(),
            register_effect(*old(self), *final(self), name@, system),
    {
        let ghost s0 = self.systems@;
        let n = self.systems.len();
        let mut i: usize = 0;
        while i < n
            invariant
                *self == *old(self),
                old(self).wf(),
                n == self.systems.len(),
                0 <= i <= n,
                self.systems@ == s0,
                s0 == old(self).systems@,
                sys_names_unique(s0),
                forall|j: int| 0 <= j < i ==> s0[j].name@ != name@,
            decreases n - i,
        {
            if string_eq(&self.systems[i].name, &name) {
                proof {
                    lemma_sys_map_of_contains(s0, name@);
                    let e = SystemEntry { name: name, func: system };
                    lemma_sys_map_of_update(s0, i as int, e);
                    assert(names_of(s0.update(i as int, e)) =~= names_of(s0));
                    assert(sys_names_unique(s0.update(i as int, e)));
                }
                self.systems.set(i, SystemEntry { name, func: system });
                return ;
            }
            i += 1;
        }
        proof {
            lemma_sys_map_of_contains(s0, name@);
            let e = SystemEntry { name: name, func: system };
            lemma_sys_map_of_push(s0, e);
            assert(names_of(s0.push(e)) =~= names_of(s0).push(name@));
        }
        self.systems.push(SystemEntry { name, func: system });
    }

    /// Stores `state` in the slot for its own type, replacing any prior
    /// value of that type; systems and world are untouched.
    pub fn insert_state<S: 'static>(&mut self, state: S)
        requires
            old(self).wf(),
        ensures
            final(self).wf(),
            exists|k: core::any::TypeId, av: AnyValue|
                final(self).state_view() == old(self).state_view().insert(k, av),
            final(self).sys_map() == old(self).sys_map(),
            final(self).sys_names() == old(self).sys_names(),
            final(self).spec_world() == old(self).spec_world(),
    {
        self.state.insert_state(state);
        proof {
            let (k, av) = choose|k: core::any::TypeId, av: AnyValue|
                self.state@ == old(self).spec_state()@.insert(k, av);
            assert(self.state@ == old(self).state_view().insert(k, av));
        }
    }

    /// Returns the stored value of type `S`, or fails with
    /// `UninitialisedState` carrying `name`, the caller's display name for
    /// `S`, if none was ever inserted.
    pub fn get_state<S: 'static>(&mut self, name: &'static str) -> (r: Result<
        &mut S,
        EngineError,
    >)
        requires
            old(self).wf(),
        ensures
            r matches Err(e) ==> e == EngineError::UninitialisedState(name),
    {
        self.state.get_state::<S>(name)
    }

    /// The state store, for callers that address it by explicit type key.
    pub fn state_mut(&mut self) -> (s: &mut StateManager)
        ensures
            *s == old(self).spec_state(),
            final(self).spec_state() == *final(s),
            final(self).sys_map() == old(self).sys_map(),
            final(self).sys_names() == old(self).sys_names(),
            final(self).spec_world() == old(self).spec_world(),
    {
        &mut self.state
    }

    /// The shared world, for rendering, inspection, or direct mutation
    /// between ticks.
    pub fn world_mut(&mut self) -> (w: &mut hecs::World)
        ensures
            *w == old(self).spec_world(),
            final(self).spec_world() == *final(w),
            final(self).sys_map() == old(self).sys_map(),
            final(self).sys_names() == old(self).sys_names(),
            final(self).spec_state() == old(self).spec_state(),
    {
        &mut self.world
    }

    /// Runs one tick: invokes every registered system in order against a
    /// fresh tick context, stopping early at the first failure, then
    /// drains the queued commands into the world either way.  The registry
    /// itself never changes, and the report accounts for exactly what ran.
    pub fn tick(&mut self) -> (r: TickReport)
        requires
            old(self).wf(),
        ensures
            final(self).wf(),
            final(self).sys_map() == old(self).sys_map(),
            final(self).sys_names() == old(self).sys_names(),
            report_matches(old(self).sys_names(), r),
    {
        self.tick_headless(true)
    }

    /// The tick loop as the editor drives it: `run_systems` false skips
    /// the systems (the editor is paused) but still drains the — then
    /// empty — command buffer; true behaves exactly as `tick`.
    pub fn tick_headless(&mut self, run_systems: bool) -> (r: TickReport)
        requires
            old(self).wf(),
        ensures
            final(self).wf(),
            final(self).sys_map() == old(self).sys_map(),
            final(self).sys_names() == old(self).sys_names(),
            run_systems ==> report_matches(old(self).sys_names(), r),
            !run_systems ==> r.ran@ == Seq::<String>::empty() && r.failure is None
                && final(self).spec_state() == old(self).spec_state(),
    {
        let (pending, report) = self.run_tick_systems(run_systems);
        self.apply_commands(pending);
        report
    }

    /// The systems half of a tick: invokes every registered system in
    /// order against a fresh tick context, stopping early at the first
    /// failure, and returns the commands they queued, still unapplied, so
    /// that an embedder may present a frame from the — still untouched —
    /// world before calling `apply_commands`.  Skips the systems
    /// altogether when `run_systems` is false.
    pub fn run_tick_systems(&mut self, run_systems: bool) -> (r: (PendingCommands, TickReport))
        requires
            old(self).wf(),
        ensures
            final(self).wf(),
            final(self).sys_map() == old(self).sys_map(),
            final(self).sys_names() == old(self).sys_names(),
            final(self).spec_world() == old(self).spec_world(),
            run_systems ==> report_matches(old(self).sys_names(), r.1),
            !run_systems ==> r.1.ran@ == Seq::<String>::empty() && r.1.failure is None
                && final(self).spec_state() == old(self).spec_state(),
    {
        let ghost s0 = self.systems@;
        let mut state = StateManager::new();
        core::mem::swap(&mut state, &mut self.state);
        let mut td = TickData {
            dt_micros: 0,
            world: &self.world,
            command_buffer: new_command_buffer(),
            state,
        };
        let mut ran: Vec<String> = Vec::new();
        let mut failure: Option<SystemFailure> = None;
        if run_systems {
            let n = self.systems.len();
            let mut i: usize = 0;
            while i < n && failure.is_none()
                invariant
                    n == self.systems.len(),
                    0 <= i <= n,
                    self.systems@ == s0,
                    s0 == old(self).systems@,
                    self.world == old(self).spec_world(),
                    sys_names_unique(s0),
                    td.wf(),
                    ran.len() == i,
                    match failure {
                        None => ran.deep_view() == names_of(s0).take(i as int),
                        Some(f) => {
                            &&& i < n
                            &&& ran.deep_view() == names_of(s0).take(i as int)
                            &&& f.system@ == names_of(s0)[i as int]
                        },
                    },
                decreases n - i, (if failure is None { 1int } else { 0int }),
            {
                let entry = &self.systems[i];
                match invoke_system(&entry.func, &mut td) {
                    Ok(()) => {
                        ran.push(entry.name.clone());
                        proof {
                            assert(ran.deep_view() =~= names_of(s0).take(i as int + 1));
                        }
                        i += 1;
                    },
                    Err(cause) => {
                        failure = Some(SystemFailure { system: entry.name.clone(), cause });
                    },
                }
            }
            proof {
                if failure is None {
                    assert(names_of(s0).take(s0.len() as int) =~= names_of(s0));
                }
            }
        }
        let TickData { dt_micros: _, world: _, command_buffer, state } = td;
        self.state = state;
        (PendingCommands { buffer: command_buffer }, TickReport { ran, failure })
    }

    /// The draining half of a tick: applies the commands the systems
    /// queued to the world, making their structural changes visible from
    /// the next tick on.  Touches neither the registry nor the state
    /// store.
    pub fn apply_commands(&mut self, pending: PendingCommands)
        requires
            old(self).wf(),
        ensures
            final(self).wf(),
            final(self).sys_map() == old(self).sys_map(),
            final(self).sys_names() == old(self).sys_names(),
            final(self).spec_state() == old(self).spec_state(),
    {
        let PendingCommands { buffer } = pending;
        let mut buffer = buffer;
        run_commands(&mut buffer, &mut self.world);
    }
}

/// The deferred commands one tick's systems queued, not yet applied to
/// the world.
pub struct PendingCommands {
    buffer: hecs::CommandBuffer,
}

/// Compares two strings by their character sequences.
fn string_eq(a: &String, b: &String) -> (r: bool)
    ensures
        r == (a@ == b@),
{
    *a == *b
}

/// A tick that fails at one system skips every system registered after
/// it, and a later tick that completes runs them all again: in the
/// failing tick's report no completed system is the one at `j`, while the
/// completing tick's report lists it, at its registry position.
pub proof fn lemma_failed_tick_skips_later_systems(
    names: Seq<Seq<char>>,
    failed: TickReport,
    completed: TickReport,
    j: int,
)
    requires
        forall|a: int, b: int| 0 <= a < b < names.len() ==> names[a] != names[b],
        report_matches(names, failed),
        report_matches(names, completed),
        failed.failure is Some,
        completed.failure is None,
        failed.ran.len() <= j < names.len(),
    ensures
        forall|k: int| 0 <= k < failed.ran.len() ==> failed.ran.deep_view()[k] != names[j],
        completed.ran.deep_view()[j] == names[j],
{
    assert forall|k: int| 0 <= k < failed.ran.len() implies failed.ran.deep_view()[k]
        != names[j] by {
        assert(failed.ran.deep_view()[k] == names.take(failed.ran.len() as int)[k]);
        assert(names[k] != names[j]);
    }
}

/// Registering a name twice leaves the registry binding the name to the
/// second function and adds no second entry: after `register_system(name,
/// first)` and then `register_system(name, second)` on one engine, the
/// registry maps the name to `second`, whatever `first` was, and the
/// invocation order is what the first call left it.
pub proof fn lemma_reregistration_replaces(
    e0: Engine,
    e1: Engine,
    e2: Engine,
    name: Seq<char>,
    first: SystemFn,
    second: SystemFn,
)
    requires
        register_effect(e0, e1, name, first),
        register_effect(e1, e2, name, second),
    ensures
        e2.sys_map()[name] == second,
        e2.sys_map().contains_key(name),
        e2.sys_names() == e1.sys_names(),
{
}

/// A reload only re-registers systems, and registering touches neither
/// the state store nor the world: across any two registrations — the
/// shape of a module's `reload` entry point — the store holds exactly
/// what it held, so a value inserted before the reload is still found,
/// unchanged, after it.
pub proof fn lemma_reload_preserves_state(
    e0: Engine,
    e1: Engine,
    e2: Engine,
    n1: Seq<char>,
    f1: SystemFn,
    n2: Seq<char>,
    f2: SystemFn,
    key: core::any::TypeId,
)
    requires
        register_effect(e0, e1, n1, f1),
        register_effect(e1, e2, n2, f2),
        e0.state_view().contains_key(key),
    ensures
        e2.state_view() == e0.state_view(),
        e2.state_view()[key] == e0.state_view()[key],
        e2.spec_world() == e0.spec_world(),
{
}

} // verus!
