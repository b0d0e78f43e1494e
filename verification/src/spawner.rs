use vstd::prelude::*;

use crate::actor::{HubModel, WorkerBridge, WorkerHub};
use crate::handler_id::HandlerIdAllocator;
use crate::traits::Worker;

verus! {

/// A spawner for one kind of worker.
///
/// It records whether the first logical connection is to have an output
/// handler; spawning then creates the shared state of exactly one physical
/// worker — one pending queue, one registry — and the first bridge. The
/// creation of the physical execution unit itself, a fallible platform
/// operation, belongs to the host around this library; it is the only
/// party allowed to start one, and it does so once per spawn.
pub struct Spawner<W: Worker> {
    with_callback: bool,
    marker: core::marker::PhantomData<W>,
}

impl<W: Worker> Spawner<W> {
    /// Whether an output handler was configured for the first connection.
    pub closed spec fn wants_callback(&self) -> bool {
        self.with_callback
    }

    /// Creates a spawner with no output handler configured.
    pub fn new() -> (s: Self)
        ensures
            !s.wants_callback(),
    {
        Spawner { with_callback: false, marker: core::marker::PhantomData }
    }

    /// Configures an output handler for the first logical connection; the
    /// handler itself is held by the caller, and its registry entry is
    /// installed when the worker is spawned.
    pub fn callback(&mut self)
        ensures
            final(self).wants_callback(),
    {
        self.with_callback = true;
    }

    /// Spawns a worker: creates the shared hub — buffering, with an empty
    /// pending queue and an empty registry — and attaches the first
    /// logical connection under a fresh identifier from the process-wide
    /// allocator, its registry entry live exactly when a callback was
    /// configured. The attach notification is the first entry of the
    /// pending queue; nothing is transmitted before readiness.
    pub fn spawn(&self, ids: &mut HandlerIdAllocator) -> (r: (WorkerHub<W::Input>, WorkerBridge))
        requires
            old(ids)@ < u64::MAX,
        ensures
            r.0@ == HubModel::<W::Input>::init().connect(self.wants_callback(), old(ids)@).0,
            r.1.id == HubModel::<W::Input>::init().connect(self.wants_callback(), old(ids)@).1,
            r.1.id.raw == old(ids)@,
            r.0@.live(r.1.id) == self.wants_callback(),
            final(ids)@ == old(ids)@ + 1,
            r.0@.in_sync(final(ids)@),
    {
        let mut hub: WorkerHub<W::Input> = WorkerHub::new();
        let (bridge, _t) = hub.connect(ids, self.with_callback);
        (hub, bridge)
    }
}

impl<W: Worker> Default for Spawner<W> {
    /// Same as [`Spawner::new`]: no output handler configured.
    fn default() -> (s: Self)
        ensures
            !s.wants_callback(),
    {
        Spawner::new()
    }
}

impl<W: Worker> Clone for Spawner<W> {
    /// The clone configures an output handler exactly when this spawner
    /// does.
    fn clone(&self) -> (s: Self)
        ensures
            s.wants_callback() == self.wants_callback(),
    {
        Spawner { with_callback: self.with_callback, marker: core::marker::PhantomData }
    }
}

} // verus!
