use vstd::prelude::*;

use std::collections::HashMap;

use crate::actor::{HubModel, WorkerBridge, WorkerHub};
use crate::channel::{ChanModel, OutputChannel};
use crate::handler_id::{HandlerId, HandlerIdAllocator};
use crate::messages::{FromWorker, ReactorInput, ReactorOutput, ToWorker};

verus! {

broadcast use vstd::std_specs::hash::group_hash_axioms;

/// The failure of a protocol misuse on a reactor connection's input half.
#[derive(Clone, Copy, PartialEq, Eq, Debug, Structural)]
pub enum ReactorBridgeSinkError {
    /// A reactor connection is closed only by dropping the whole handle;
    /// closing its input half alone is refused and has no effect.
    AttemptClosure,
}

impl ReactorBridgeSinkError {
    /// A human-readable description of the failure.
    pub fn message(&self) -> (r: &'static str)
        ensures
            r@ == "attempting to close the bridge via the sink"@,
    {
        "attempting to close the bridge via the sink"
    }
}

/// The handle for one duplex reactor connection: input items are sent
/// through it, and output items addressed to it are read back from its
/// dedicated delivery channel in the owning [`ReactorHub`].
#[derive(PartialEq, Eq, Debug)]
pub struct ReactorBridge {
    /// The underlying logical connection to the shared physical worker.
    pub inner: WorkerBridge,
}

/// One physical worker carrying any number of duplex reactor connections.
///
/// Wraps the actor-layer [`WorkerHub`] — inputs travel as
/// [`ReactorInput`]-tagged payloads through the same pending queue and
/// registry — and adds, per connection, the connection's dedicated output
/// delivery channel, keyed by the connection's identifier.
pub struct ReactorHub<I, O> {
    hub: WorkerHub<ReactorInput<I>>,
    chans: HashMap<u64, OutputChannel<O>>,
}

impl<I, O> ReactorHub<I, O> {
    /// The actor-layer state shared by every connection on this worker.
    pub closed spec fn hub_model(&self) -> HubModel<ReactorInput<I>> {
        self.hub@
    }

    /// The delivery channels, keyed by the numeric value of the owning
    /// connection's identifier.
    pub closed spec fn chans_model(&self) -> Map<u64, ChanModel<O>> {
        Map::new(
            |raw: u64| self.chans@.contains_key(raw),
            |raw: u64| self.chans@[raw]@,
        )
    }

    /// Whether the connection with the given identifier has a delivery
    /// channel here.
    pub open spec fn has_chan(&self, id: HandlerId) -> bool {
        self.chans_model().contains_key(id.raw)
    }

    /// The delivery channel of one connection.
    pub open spec fn chan_of(&self, id: HandlerId) -> ChanModel<O> {
        self.chans_model()[id.raw]
    }

    /// Well-formedness: every connection the registry knows has a
    /// delivery channel, so every resolvable output has somewhere to go.
    pub open spec fn wf(&self) -> bool {
        forall|raw: u64|
            #[trigger] self.hub_model().reg.contains_key(raw)
                ==> self.chans_model().contains_key(raw)
    }

    /// Spawns the shared state for one physical worker together with its
    /// first reactor connection: a fresh identifier is drawn from the
    /// process-wide allocator, its output handler is registered, and its
    /// delivery channel starts empty and open. The attach notification is
    /// the first entry of the pending queue.
    pub fn spawn(ids: &mut HandlerIdAllocator) -> (r: (Self, ReactorBridge))
        requires
            old(ids)@ < u64::MAX,
        ensures
            r.0.wf(),
            r.0.hub_model() == HubModel::<ReactorInput<I>>::init().connect(true, old(ids)@).0,
            r.1.inner.id == HubModel::<ReactorInput<I>>::init().connect(true, old(ids)@).1,
            r.0.chans_model() == Map::<u64, ChanModel<O>>::empty().insert(
                old(ids)@,
                ChanModel::init(),
            ),
            r.0.has_chan(r.1.inner.id),
            final(ids)@ == old(ids)@ + 1,
            r.0.hub_model().in_sync(final(ids)@),
    {
        let mut hub: WorkerHub<ReactorInput<I>> = WorkerHub::new();
        let (bridge, _t) = hub.connect(ids, true);
        let mut chans: HashMap<u64, OutputChannel<O>> = HashMap::new();
        chans.insert(bridge.id.raw, OutputChannel::new());
        let r = ReactorHub { hub, chans };
        proof {
            assert(r.chans_model() =~= Map::<u64, ChanModel<O>>::empty().insert(
                bridge.id.raw,
                ChanModel::init(),
            ));
        }
        (r, ReactorBridge { inner: bridge })
    }

    /// Handles one message from the physical worker. The readiness signal
    /// flushes the pending queue and returns it for transmission, in
    /// submission order; an addressed output is routed to the owning
    /// connection's delivery channel, is dropped if the connection is gone
    /// — pruning its stale entry — and touches no other channel either way.
    pub fn dispatch(&mut self, msg: FromWorker<ReactorOutput<O>>) -> (flushed: Vec<
        ToWorker<ReactorInput<I>>,
    >)
        requires
            old(self).wf(),
        ensures
            final(self).wf(),
            match msg {
                FromWorker::WorkerLoaded => {
                    &&& final(self).hub_model() == old(self).hub_model().loaded().0
                    &&& flushed@ == old(self).hub_model().loaded().1
                    &&& final(self).chans_model() == old(self).chans_model()
                },
                FromWorker::ProcessOutput(id, out) => {
                    &&& final(self).hub_model() == old(self).hub_model().route(id).0
                    &&& flushed@ == Seq::<ToWorker<ReactorInput<I>>>::empty()
                    &&& final(self).chans_model() == if old(self).hub_model().route(id).1 {
                        old(self).chans_model().insert(
                            id.raw,
                            old(self).chan_of(id).deliver(out),
                        )
                    } else {
                        old(self).chans_model()
                    }
                },
            },
    {
        match msg {
            FromWorker::WorkerLoaded => {
                let flushed = self.hub.handle_loaded();
                proof {
                    assert(self.chans_model() =~= old(self).chans_model());
                    assert forall|raw: u64| #[trigger] self.hub_model().reg.contains_key(raw)
                        implies self.chans_model().contains_key(raw) by {
                        assert(old(self).hub_model().reg.contains_key(raw));
                    }
                }
                flushed
            },
            FromWorker::ProcessOutput(id, out) => {
                match self.hub.route_output(id, out) {
                    Some(o) => {
                        proof {
                            assert(old(self).hub_model().live(id));
                            assert(self.chans@.contains_key(id.raw));
                        }
                        let mut chan = self.chans.remove(&id.raw).unwrap();
                        chan.deliver(o);
                        self.chans.insert(id.raw, chan);
                        proof {
                            assert(self.chans_model() =~= old(self).chans_model().insert(
                                id.raw,
                                old(self).chan_of(id).deliver(o),
                            ));
                            assert forall|raw: u64|
                                #[trigger] self.hub_model().reg.contains_key(raw)
                                implies self.chans_model().contains_key(raw) by {
                                assert(old(self).hub_model().reg.contains_key(raw));
                            }
                        }
                        Vec::new()
                    },
                    None => {
                        proof {
                            assert(self.chans_model() =~= old(self).chans_model());
                            assert forall|raw: u64|
                                #[trigger] self.hub_model().reg.contains_key(raw)
                                implies self.chans_model().contains_key(raw) by {
                                assert(old(self).hub_model().reg.contains_key(raw));
                            }
                        }
                        Vec::new()
                    },
                }
            },
        }
    }

    /// Takes the oldest output item delivered to the connection and not
    /// yet consumed, if there is one. Channels of other connections are
    /// untouched.
    pub fn next_output(&mut self, bridge: &ReactorBridge) -> (r: Option<O>)
        requires
            old(self).wf(),
            old(self).has_chan(bridge.inner.id),
        ensures
            final(self).wf(),
            final(self).hub_model() == old(self).hub_model(),
            ({
                let c = old(self).chan_of(bridge.inner.id);
                let c2 = final(self).chan_of(bridge.inner.id);
                &&& c2.closed == c.closed
                &&& (c.items.len() == 0 ==> r is None && c2 == c)
                &&& (c.items.len() > 0 ==> r == Some(c.items[0]) && c2.items == c.items.skip(1))
            }),
            final(self).chans_model() == old(self).chans_model().insert(
                bridge.inner.id.raw,
                final(self).chan_of(bridge.inner.id),
            ),
    {
        let raw = bridge.inner.id.raw;
        let mut chan = self.chans.remove(&raw).unwrap();
        let r = chan.take_next();
        self.chans.insert(raw, chan);
        proof {
            assert(self.chans_model() =~= old(self).chans_model().insert(
                raw,
                self.chan_of(bridge.inner.id),
            ));
            assert forall|k: u64| #[trigger] self.hub_model().reg.contains_key(k)
                implies self.chans_model().contains_key(k) by {
                assert(old(self).hub_model().reg.contains_key(k));
            }
        }
        r
    }

    /// Whether the connection's output stream is terminated: completion
    /// was observed and every item delivered before it has been consumed.
    /// Once true it stays true forever.
    pub fn is_terminated(&self, bridge: &ReactorBridge) -> (r: bool)
        requires
            self.has_chan(bridge.inner.id),
        ensures
            r == self.chan_of(bridge.inner.id).terminated(),
    {
        self.chans.get(&bridge.inner.id.raw).unwrap().is_terminated()
    }

    /// Ends a reactor connection: consumes the handle, releases the
    /// underlying registry entry, and emits the detach notification.
    /// Sibling connections and their channels are unaffected.
    pub fn disconnect(&mut self, bridge: ReactorBridge) -> (t: Option<ToWorker<ReactorInput<I>>>)
        requires
            old(self).wf(),
        ensures
            final(self).wf(),
            final(self).hub_model() == old(self).hub_model().release(bridge.inner.id).emit(
                ToWorker::Disconnected(bridge.inner.id),
            ).0,
            t == old(self).hub_model().release(bridge.inner.id).emit(
                ToWorker::Disconnected(bridge.inner.id),
            ).1,
            !final(self).hub_model().live(bridge.inner.id),
            final(self).chans_model() == old(self).chans_model(),
    {
        let t = self.hub.disconnect(bridge.inner);
        proof {
            assert(self.chans_model() =~= old(self).chans_model());
            assert forall|raw: u64| #[trigger] self.hub_model().reg.contains_key(raw)
                implies self.chans_model().contains_key(raw) by {
                assert(old(self).hub_model().reg.contains_key(raw));
            }
        }
        t
    }
}

impl ReactorBridge {
    /// The identifier of this reactor connection.
    pub fn handler_id(&self) -> (r: HandlerId)
        ensures
            r == self.inner.id,
    {
        self.inner.id
    }

    /// Sends one input item to this connection's reactor: the item is
    /// wrapped in the input envelope, then buffered or returned for
    /// immediate transmission like any other outbound message.
    pub fn send_input<I, O>(&self, hub: &mut ReactorHub<I, O>, msg: I) -> (t: Option<
        ToWorker<ReactorInput<I>>,
    >)
        requires
            old(hub).wf(),
        ensures
            final(hub).wf(),
            final(hub).hub_model() == old(hub).hub_model().emit(
                ToWorker::ProcessInput(self.inner.id, ReactorInput::Input(msg)),
            ).0,
            t == old(hub).hub_model().emit(
                ToWorker::ProcessInput(self.inner.id, ReactorInput::Input(msg)),
            ).1,
            final(hub).chans_model() == old(hub).chans_model(),
    {
        let t = self.inner.send(&mut hub.hub, ReactorInput::Input(msg));
        proof {
            assert(hub.chans_model() =~= old(hub).chans_model());
            assert forall|raw: u64| #[trigger] hub.hub_model().reg.contains_key(raw)
                implies hub.chans_model().contains_key(raw) by {
                assert(old(hub).hub_model().reg.contains_key(raw));
            }
        }
        t
    }

    /// Opens a new, independent duplex connection against the same
    /// physical worker, under a freshly allocated identifier, with its
    /// own output handler and its own empty delivery channel. Returns the
    /// new handle and the attach message to transmit, if the worker is
    /// already ready.
    pub fn fork<I, O>(&self, hub: &mut ReactorHub<I, O>, ids: &mut HandlerIdAllocator) -> (r: (
        ReactorBridge,
        Option<ToWorker<ReactorInput<I>>>,
    ))
        requires
            old(hub).wf(),
            old(ids)@ < u64::MAX,
            old(hub).hub_model().in_sync(old(ids)@),
        ensures
            final(hub).wf(),
            final(hub).hub_model() == old(hub).hub_model().connect(true, old(ids)@).0,
            r.0.inner.id == old(hub).hub_model().connect(true, old(ids)@).1,
            r.1 == old(hub).hub_model().connect(true, old(ids)@).2,
            !old(hub).hub_model().present(r.0.inner.id),
            final(hub).hub_model().live(r.0.inner.id),
            final(hub).chans_model() == old(hub).chans_model().insert(
                old(ids)@,
                ChanModel::<O>::init(),
            ),
            final(hub).has_chan(r.0.inner.id),
            final(ids)@ == old(ids)@ + 1,
            final(hub).hub_model().in_sync(final(ids)@),
    {
        let (inner, t) = self.inner.fork(&mut hub.hub, ids, true);
        hub.chans.insert(inner.id.raw, OutputChannel::new());
        proof {
            assert(hub.chans_model() =~= old(hub).chans_model().insert(
                inner.id.raw,
                ChanModel::<O>::init(),
            ));
            assert forall|raw: u64| #[trigger] hub.hub_model().reg.contains_key(raw)
                implies hub.chans_model().contains_key(raw) by {
                if raw != inner.id.raw {
                    assert(old(hub).hub_model().reg.contains_key(raw));
                }
            }
        }
        (ReactorBridge { inner }, t)
    }

    /// Refuses to close the connection through its input half: the
    /// designated misuse error is returned, always, and nothing happens to
    /// the connection or the shared worker — a reactor connection is an
    /// owning handle and is closed only by dropping it whole.
    pub fn close(&self) -> (r: Result<(), ReactorBridgeSinkError>)
        ensures
            r == Err::<(), ReactorBridgeSinkError>(ReactorBridgeSinkError::AttemptClosure),
    {
        Err(ReactorBridgeSinkError::AttemptClosure)
    }

    /// Flushing the input half never has anything to do: a sent item is
    /// already buffered or transmitted by the time sending returns.
    pub fn flush(&self) -> (r: Result<(), ReactorBridgeSinkError>)
        ensures
            r == Ok::<(), ReactorBridgeSinkError>(()),
    {
        Ok(())
    }
}

} // verus!
