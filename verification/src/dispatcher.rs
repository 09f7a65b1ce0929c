//! The per-state system pipeline: a builder that callers fill with their
//! per-frame systems, a dispatcher that runs them in registration order,
//! and an optional form for states that have no per-frame systems.

use crate::world::GameWorld;
use vstd::prelude::*;

verus! {

/// A per-frame system: one unit of work a state registers to run once
/// per frame against the game world.
pub trait System: Sized {
    fn run(&mut self, world: &mut GameWorld);
}

/// Collects the systems a state registers before its dispatcher is
/// built.
pub struct DispatcherBuilder<S: System> {
    pub systems: Vec<S>,
}

impl<S: System> View for DispatcherBuilder<S> {
    type V = Seq<S>;

    open spec fn view(&self) -> Seq<S> {
        self.systems@
    }
}

impl<S: System> DispatcherBuilder<S> {
    /// A builder with no systems registered yet.
    pub fn new() -> (builder: DispatcherBuilder<S>)
        ensures
            builder@ =~= Seq::<S>::empty(),
    {
        DispatcherBuilder { systems: Vec::new() }
    }

    /// Registers one more system, behind those already registered.
    pub fn with(self, system: S) -> (builder: DispatcherBuilder<S>)
        ensures
            builder@ == self@.push(system),
    {
        let mut systems = self.systems;
        systems.push(system);
        DispatcherBuilder { systems }
    }
}

/// A built pipeline: the registered systems, run in registration order
/// once per frame.
pub struct Dispatcher<S: System> {
    systems: Vec<S>,
}

impl<S: System> View for Dispatcher<S> {
    type V = Seq<S>;

    closed spec fn view(&self) -> Seq<S> {
        self.systems@
    }
}

impl<S: System> Dispatcher<S> {
    /// Hands the registered systems back, in registration order.
    pub fn into_systems(self) -> (systems: Vec<S>)
        ensures
            systems@ == self@,
    {
        self.systems
    }

    /// Runs every registered system once, in registration order.
    pub fn dispatch(&mut self, world: &mut GameWorld)
        ensures
            final(self)@.len() == old(self)@.len(),
    {
        let n = self.systems.len();
        let mut i: usize = 0;
        while i < n
            invariant
                n == self.systems@.len(),
                0 <= i <= n,
            decreases n - i,
        {
            self.systems[i].run(world);
            i += 1;
        }
    }
}

/// Builds a dispatcher for a state: hands the caller a fresh builder to
/// register systems on, and binds the result into a runnable pipeline
/// holding exactly the systems the caller registered.
pub fn create_systems_dispatcher<S: System, F: FnOnce(DispatcherBuilder<S>) -> DispatcherBuilder<
    S,
>>(world: &mut GameWorld, add_systems: F) -> (dispatcher: Dispatcher<S>)
    requires
        forall|builder: DispatcherBuilder<S>|
            builder@.len() == 0 ==> #[trigger] call_requires(add_systems, (builder,)),
    ensures
        *final(world) == *old(world),
        exists|fresh: DispatcherBuilder<S>, filled: DispatcherBuilder<S>|
            fresh@.len() == 0 && #[trigger] call_ensures(add_systems, (fresh,), filled)
                && dispatcher@ == filled@,
{
    let builder = DispatcherBuilder::new();
    let ghost fresh = builder;
    let filled = add_systems(builder);
    let dispatcher = Dispatcher { systems: filled.systems };
    proof {
        assert(call_ensures(add_systems, (fresh,), filled));
    }
    dispatcher
}

/// As `create_systems_dispatcher`, wrapped for states that store "no
/// pipeline": the result is always present here, and `run_systems`
/// accepts its absence.
pub fn create_optional_systems_dispatcher<
    S: System,
    F: FnOnce(DispatcherBuilder<S>) -> DispatcherBuilder<S>,
>(world: &mut GameWorld, add_systems: F) -> (dispatcher: Option<Dispatcher<S>>)
    requires
        forall|builder: DispatcherBuilder<S>|
            builder@.len() == 0 ==> #[trigger] call_requires(add_systems, (builder,)),
    ensures
        *final(world) == *old(world),
        dispatcher is Some,
        exists|fresh: DispatcherBuilder<S>, filled: DispatcherBuilder<S>|
            fresh@.len() == 0 && #[trigger] call_ensures(add_systems, (fresh,), filled)
                && dispatcher->0@ == filled@,
{
    Some(create_systems_dispatcher(world, add_systems))
}

/// Runs a state's pipeline for this frame: a no-op where the state has
/// none, otherwise every registered system once.
pub fn run_systems<S: System>(world: &mut GameWorld, dispatcher: &mut Option<Dispatcher<S>>)
    ensures
        (*old(dispatcher)) is None ==> *final(world) == *old(world) && (*final(dispatcher))
            is None,
        (*old(dispatcher)) is Some ==> (*final(dispatcher)) is Some && (*final(dispatcher))->0@
            .len() == (*old(dispatcher))->0@.len(),
{
    match dispatcher {
        Some(pipeline) => {
            pipeline.dispatch(world);
        },
        None => {},
    }
}

} // verus!
