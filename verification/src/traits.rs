use vstd::prelude::*;

use crate::handler_id::HandlerId;
use crate::messages::FromWorker;
use crate::spawner::Spawner;

verus! {

/// The worker-side handle a [`Worker`] implementation is given: messages
/// addressed back to the controlling side accumulate in its outbox, from
/// which the byte channel transmits them.
pub struct WorkerScope<W: Worker> {
    outbox: Vec<FromWorker<W::Output>>,
}

impl<W: Worker> WorkerScope<W> {
    /// The messages emitted so far and not yet transmitted, oldest first.
    pub closed spec fn outbox(&self) -> Seq<FromWorker<W::Output>> {
        self.outbox@
    }

    /// Creates a scope with an empty outbox.
    pub fn new() -> (s: Self)
        ensures
            s.outbox() == Seq::<FromWorker<W::Output>>::empty(),
    {
        WorkerScope { outbox: Vec::new() }
    }

    /// Announces that the worker finished loading. Queues the readiness
    /// signal that switches the controlling side from buffering to flowing.
    pub fn notify_loaded(&mut self)
        ensures
            final(self).outbox() == old(self).outbox().push(FromWorker::WorkerLoaded),
    {
        self.outbox.push(FromWorker::WorkerLoaded);
    }

    /// Sends an output to the logical connection with the given identifier.
    pub fn respond(&mut self, id: HandlerId, output: W::Output)
        ensures
            final(self).outbox() == old(self).outbox().push(FromWorker::ProcessOutput(id, output)),
    {
        self.outbox.push(FromWorker::ProcessOutput(id, output));
    }

    /// Takes every queued message, in order, for transmission over the
    /// byte channel; the outbox is left empty.
    pub fn take_outbox(&mut self) -> (msgs: Vec<FromWorker<W::Output>>)
        ensures
            msgs@ == old(self).outbox(),
            final(self).outbox() == Seq::<FromWorker<W::Output>>::empty(),
    {
        let mut msgs: Vec<FromWorker<W::Output>> = Vec::new();
        core::mem::swap(&mut msgs, &mut self.outbox);
        msgs
    }
}

/// The behaviour of a worker: the five lifecycle hooks the runtime calls.
///
/// `create` runs at worker startup, `connected` and `disconnected` when a
/// logical connection attaches or detaches, `received` once per inbound
/// input tagged with the connection it came from, and `destroy` at
/// shutdown, returning whether the worker may be closed immediately.
pub trait Worker: Sized {
    /// Update message type, internal to the worker.
    type Message;

    /// Incoming message type.
    type Input;

    /// Outgoing message type.
    type Output;

    /// Creates an instance of the worker.
    fn create(scope: &mut WorkerScope<Self>) -> Self;

    /// Receives an internal update.
    fn update(&mut self, scope: &mut WorkerScope<Self>, msg: Self::Message);

    /// Called when a new logical connection attaches.
    fn connected(&mut self, scope: &mut WorkerScope<Self>, id: HandlerId) {
    }

    /// Receives an input from the logical connection with the given
    /// identifier.
    fn received(&mut self, scope: &mut WorkerScope<Self>, msg: Self::Input, id: HandlerId);

    /// Called when a logical connection detaches.
    fn disconnected(&mut self, scope: &mut WorkerScope<Self>, id: HandlerId) {
    }

    /// Called when the worker is destroyed. Returns whether the worker may
    /// be closed immediately; a worker that answers `false` is responsible
    /// for closing itself later. No update or message is delivered after
    /// this call either way.
    fn destroy(&mut self, scope: &mut WorkerScope<Self>) -> bool {
        true
    }
}

/// A worker that can be spawned by a spawner.
pub trait Spawnable: Worker {
    /// Creates a spawner, with no output handler configured yet.
    fn spawner() -> (s: Spawner<Self>)
        ensures
            !s.wants_callback(),
    ;
}

impl<T: Worker> Spawnable for T {
    fn spawner() -> (s: Spawner<Self>) {
        Spawner::new()
    }
}

} // verus!
