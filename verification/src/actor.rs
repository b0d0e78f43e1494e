use vstd::prelude::*;

use std::collections::HashMap;

use crate::handler_id::{HandlerId, HandlerIdAllocator};
use crate::messages::ToWorker;

verus! {

broadcast use vstd::std_specs::hash::group_hash_axioms;

/// One entry of the callback registry. An identifier with no entry has no
/// output handler: either none was ever registered for it, or its stale
/// entry has been pruned.
#[derive(Clone, Copy, PartialEq, Eq, Debug, Structural)]
pub enum Slot {
    /// A resolvable output handler: outputs addressed here are delivered.
    Live,
    /// The owning bridge released its handler; the entry no longer
    /// resolves and is pruned on the next delivery attempt.
    Stale,
}

/// The abstract state of a hub: whether the physical worker has signalled
/// readiness, the pending queue of outbound messages buffered before that
/// signal, and the registry, keyed by the numeric value of each
/// registered connection's [`HandlerId`].
#[verifier::ext_equal]
pub struct HubModel<I> {
    /// Whether the worker-loaded signal has been observed.
    pub ready: bool,
    /// Outbound messages not yet transmitted, oldest first. Only grows
    /// while `ready` is false; emptied exactly once, on readiness.
    pub pending: Seq<ToWorker<I>>,
    /// The registry: one entry per connection with an output handler.
    pub reg: Map<u64, Slot>,
}

impl<I> HubModel<I> {
    /// The state of a freshly spawned worker: buffering, nothing pending,
    /// nothing registered.
    pub open spec fn init() -> Self {
        HubModel { ready: false, pending: Seq::empty(), reg: Map::empty() }
    }

    /// Whether the registry holds an entry for the identifier, resolvable
    /// or stale.
    pub open spec fn present(self, id: HandlerId) -> bool {
        self.reg.contains_key(id.raw)
    }

    /// Whether an output addressed to the identifier resolves to a handler.
    pub open spec fn live(self, id: HandlerId) -> bool {
        self.present(id) && self.reg[id.raw] == Slot::Live
    }

    /// Whether every registered identifier was issued before the given
    /// allocator cursor: true of any hub whose identifiers were all drawn
    /// from that allocator. It makes freshness provable — the allocator's
    /// next identifier cannot already be registered, in this hub or in any
    /// other hub in sync with the same allocator.
    pub open spec fn in_sync(self, cursor: u64) -> bool {
        forall|raw: u64| #[trigger] self.reg.contains_key(raw) ==> raw < cursor
    }

    /// How one outbound message leaves the hub: buffered at the back of the
    /// pending queue while the worker is loading, handed straight to the
    /// physical worker once it is ready.
    pub open spec fn emit(self, m: ToWorker<I>) -> (Self, Option<ToWorker<I>>) {
        if self.ready {
            (self, Some(m))
        } else {
            (HubModel { pending: self.pending.push(m), ..self }, None)
        }
    }

    /// How a logical connection attaches under a freshly issued
    /// identifier: its registry entry is live exactly when an output
    /// handler was supplied — a connection without one registers nothing —
    /// and the attach notification leaves through [`Self::emit`]. Returns
    /// the new state, the identifier, and the message to transmit now, if
    /// any.
    pub open spec fn connect(self, with_callback: bool, raw: u64) -> (
        Self,
        HandlerId,
        Option<ToWorker<I>>,
    ) {
        let id = HandlerId { raw };
        let reg = if with_callback {
            self.reg.insert(raw, Slot::Live)
        } else {
            self.reg
        };
        let grown = HubModel { reg, ..self };
        let (h, t) = grown.emit(ToWorker::Connected(id));
        (h, id, t)
    }

    /// How the worker-loaded signal is handled: the first one flushes the
    /// whole pending queue, in order, and switches the hub to flowing; any
    /// later one is a no-op, since the queue was already taken.
    pub open spec fn loaded(self) -> (Self, Seq<ToWorker<I>>) {
        if self.ready {
            (self, Seq::empty())
        } else {
            (HubModel { ready: true, pending: Seq::empty(), ..self }, self.pending)
        }
    }

    /// How an addressed output is routed: a live entry resolves and the
    /// output is delivered; a stale entry is pruned and the output dropped;
    /// an unknown identifier is ignored. Returns the new state and whether
    /// the output is delivered to the identifier's handler.
    pub open spec fn route(self, id: HandlerId) -> (Self, bool) {
        if self.live(id) {
            (self, true)
        } else if self.present(id) {
            (HubModel { reg: self.reg.remove(id.raw), ..self }, false)
        } else {
            (self, false)
        }
    }

    /// How a bridge's destruction acts on the registry: its entry, if any,
    /// stops resolving. Nothing else changes: not the worker's readiness,
    /// not the pending queue, not any other connection's entry.
    pub open spec fn release(self, id: HandlerId) -> Self {
        if self.present(id) {
            HubModel { reg: self.reg.insert(id.raw, Slot::Stale), ..self }
        } else {
            self
        }
    }
}

/// Iterated [`HubModel::emit`]: how a whole sequence of outbound messages
/// leaves the hub, front first.
pub open spec fn emit_all<I>(h: HubModel<I>, msgs: Seq<ToWorker<I>>) -> HubModel<I>
    decreases msgs.len(),
{
    if msgs.len() == 0 {
        h
    } else {
        emit_all(h.emit(msgs[0]).0, msgs.skip(1))
    }
}

/// Before readiness, every submitted message is buffered, none is
/// transmitted, and the registry is untouched.
pub proof fn lemma_emit_buffers<I>(h: HubModel<I>, m: ToWorker<I>)
    requires
        !h.ready,
    ensures
        h.emit(m).1 is None,
        h.emit(m).0.pending == h.pending.push(m),
        !h.emit(m).0.ready,
        h.emit(m).0.reg == h.reg,
{
}

/// Ordering of buffered sends: submitting any sequence of messages before
/// readiness transmits nothing, and the readiness signal then flushes
/// exactly the messages already pending followed by the submitted ones, in
/// submission order — each message reaches the physical worker exactly
/// once, in order, and only after readiness.
pub proof fn lemma_buffered_order<I>(h: HubModel<I>, msgs: Seq<ToWorker<I>>)
    requires
        !h.ready,
    ensures
        !emit_all(h, msgs).ready,
        emit_all(h, msgs).reg == h.reg,
        emit_all(h, msgs).loaded().1 == h.pending + msgs,
        emit_all(h, msgs).loaded().0.ready,
        emit_all(h, msgs).loaded().0.pending == Seq::<ToWorker<I>>::empty(),
    decreases msgs.len(),
{
    if msgs.len() == 0 {
        assert(h.pending + msgs =~= h.pending);
    } else {
        let h1 = h.emit(msgs[0]).0;
        lemma_buffered_order(h1, msgs.skip(1));
        assert(h.pending.push(msgs[0]) + msgs.skip(1) =~= h.pending + msgs);
    }
}

/// After readiness, the pending queue is bypassed entirely: every message
/// leaves for the physical worker at once, unchanged, and the hub's state
/// does not move.
pub proof fn lemma_flowing_transmits<I>(h: HubModel<I>, m: ToWorker<I>)
    requires
        h.ready,
    ensures
        h.emit(m) == (h, Some(m)),
{
}

/// A duplicate readiness signal is absorbed as a no-op: the queue was
/// already taken, so nothing is flushed and nothing changes.
pub proof fn lemma_duplicate_loaded<I>(h: HubModel<I>)
    requires
        h.ready,
    ensures
        h.loaded() == (h, Seq::<ToWorker<I>>::empty()),
{
}

/// No delivery after release: once a connection's handler is released, an
/// output addressed to its identifier is never delivered, and no other
/// connection's entry, the pending queue, or the readiness state is
/// affected.
pub proof fn lemma_no_delivery_after_release<I>(h: HubModel<I>, id: HandlerId)
    ensures
        !h.release(id).route(id).1,
        h.release(id).ready == h.ready,
        h.release(id).pending == h.pending,
        forall|j: HandlerId| j.raw != id.raw ==> #[trigger] h.release(id).live(j) == h.live(j),
        forall|j: HandlerId|
            j.raw != id.raw ==> #[trigger] h.release(id).present(j) == h.present(j),
{
}

/// Fork independence: releasing one connection leaves a distinct sibling
/// connection fully able to send and receive — the sibling's entry still
/// resolves, outputs addressed to it are still delivered, and an outbound
/// message leaves exactly as it would have before.
pub proof fn lemma_fork_independence<I>(h: HubModel<I>, dropped: HandlerId, sibling: HandlerId)
    requires
        dropped.raw != sibling.raw,
        h.live(sibling),
    ensures
        h.release(dropped).live(sibling),
        h.release(dropped).route(sibling).1,
        forall|m: ToWorker<I>| #[trigger] h.release(dropped).emit(m).1 == h.emit(m).1,
        forall|m: ToWorker<I>| (#[trigger] h.release(dropped).emit(m).0).pending == h.emit(
            m,
        ).0.pending,
{
}

/// Freshness under one allocator: a hub in sync with the allocator cannot
/// already hold the allocator's next identifier, and attaching a
/// connection under that identifier leaves the hub in sync with the moved
/// cursor — so a hub that only ever draws from the allocator stays in
/// sync forever.
pub proof fn lemma_allocator_keeps_ids_fresh<I>(h: HubModel<I>, cursor: u64, with_callback: bool)
    requires
        h.in_sync(cursor),
        cursor < u64::MAX,
    ensures
        !h.present(HandlerId { raw: cursor }),
        h.connect(with_callback, cursor).0.in_sync((cursor + 1) as u64),
{
}

/// At most one registry holds an identifier at a time: when one hub
/// attaches a connection under the allocator's next identifier, no other
/// hub in sync with the same allocator holds that identifier — and every
/// such hub is still in sync with the moved cursor, so it can never
/// acquire the identifier later either, the allocator having moved past
/// it for good.
pub proof fn lemma_one_registry_at_a_time<I, J>(
    h: HubModel<I>,
    other: HubModel<J>,
    cursor: u64,
    with_callback: bool,
)
    requires
        h.in_sync(cursor),
        other.in_sync(cursor),
        cursor < u64::MAX,
    ensures
        h.connect(with_callback, cursor).0.present(h.connect(with_callback, cursor).1)
            == with_callback,
        !other.present(h.connect(with_callback, cursor).1),
        other.in_sync((cursor + 1) as u64),
{
}

/// The shared machinery of one physical worker: its pending queue,
/// readiness state, and the callback registry that all bridges spawned
/// against the worker share. All state transitions of the protocol run
/// through the hub, on the single logical thread that owns it;
/// identifiers come from the process-wide [`HandlerIdAllocator`].
pub struct WorkerHub<I> {
    ready: bool,
    pending: Vec<ToWorker<I>>,
    reg: HashMap<u64, Slot>,
}

/// The handle a caller holds for one logical connection: it carries the
/// connection's identifier and is surrendered to [`WorkerHub::disconnect`]
/// when the connection ends, which releases the registry entry.
#[derive(PartialEq, Eq, Debug)]
pub struct WorkerBridge {
    /// The identifier this connection is addressed by.
    pub id: HandlerId,
}

impl WorkerBridge {
    /// The identifier of this logical connection.
    pub fn handler_id(&self) -> (r: HandlerId)
        ensures
            r == self.id,
    {
        self.id
    }

    /// Submits an input from this connection: buffered while the worker is
    /// loading, or returned as the message to transmit to the physical
    /// worker now. Callers never observe buffering as a distinct mode; the
    /// returned message, when there is one, is handed to the byte channel.
    pub fn send<I>(&self, hub: &mut WorkerHub<I>, msg: I) -> (t: Option<ToWorker<I>>)
        ensures
            final(hub)@ == old(hub)@.emit(ToWorker::ProcessInput(self.id, msg)).0,
            t == old(hub)@.emit(ToWorker::ProcessInput(self.id, msg)).1,
    {
        hub.emit(ToWorker::ProcessInput(self.id, msg))
    }

    /// Opens a new, independent logical connection against the same
    /// physical worker, under a freshly allocated identifier, with or
    /// without an output handler of its own. Returns the new bridge and
    /// the attach message to transmit, if the worker is already ready.
    pub fn fork<I>(
        &self,
        hub: &mut WorkerHub<I>,
        ids: &mut HandlerIdAllocator,
        with_callback: bool,
    ) -> (r: (WorkerBridge, Option<ToWorker<I>>))
        requires
            old(ids)@ < u64::MAX,
            old(hub)@.in_sync(old(ids)@),
        ensures
            final(hub)@ == old(hub)@.connect(with_callback, old(ids)@).0,
            r.0.id == old(hub)@.connect(with_callback, old(ids)@).1,
            r.1 == old(hub)@.connect(with_callback, old(ids)@).2,
            !old(hub)@.present(r.0.id),
            final(hub)@.live(r.0.id) == with_callback,
            final(ids)@ == old(ids)@ + 1,
            final(hub)@.in_sync(final(ids)@),
    {
        hub.connect(ids, with_callback)
    }
}

impl<I> View for WorkerHub<I> {
    type V = HubModel<I>;

    closed spec fn view(&self) -> HubModel<I> {
        HubModel { ready: self.ready, pending: self.pending@, reg: self.reg@ }
    }
}

impl<I> WorkerHub<I> {
    /// Creates the shared state for one freshly spawned physical worker:
    /// buffering, with an empty pending queue and an empty registry. A
    /// fresh hub is in sync with any allocator cursor.
    pub fn new() -> (h: Self)
        ensures
            h@ == HubModel::<I>::init(),
            forall|cursor: u64| h@.in_sync(cursor),
    {
        let h = WorkerHub { ready: false, pending: Vec::new(), reg: HashMap::new() };
        proof {
            assert(h@ =~= HubModel::<I>::init());
        }
        h
    }

    /// Lets one outbound message leave: buffered while loading, or returned
    /// for immediate transmission once the worker is ready.
    fn emit(&mut self, m: ToWorker<I>) -> (t: Option<ToWorker<I>>)
        ensures
            final(self)@ == old(self)@.emit(m).0,
            t == old(self)@.emit(m).1,
    {
        if self.ready {
            Some(m)
        } else {
            self.pending.push(m);
            proof {
                assert(self@ =~= old(self)@.emit(m).0);
            }
            None
        }
    }

    /// Attaches a new logical connection: draws a fresh identifier from
    /// the process-wide allocator — one never issued before, here or in
    /// any other hub in sync with it — registers its output handler if one
    /// was supplied, and emits the attach notification. Returns the bridge
    /// and the message to transmit, if the worker is already ready.
    pub fn connect(&mut self, ids: &mut HandlerIdAllocator, with_callback: bool) -> (r: (
        WorkerBridge,
        Option<ToWorker<I>>,
    ))
        requires
            old(ids)@ < u64::MAX,
            old(self)@.in_sync(old(ids)@),
        ensures
            final(self)@ == old(self)@.connect(with_callback, old(ids)@).0,
            r.0.id == old(self)@.connect(with_callback, old(ids)@).1,
            r.1 == old(self)@.connect(with_callback, old(ids)@).2,
            !old(self)@.present(r.0.id),
            final(self)@.live(r.0.id) == with_callback,
            final(ids)@ == old(ids)@ + 1,
            final(self)@.in_sync(final(ids)@),
    {
        let id = ids.allocate();
        if with_callback {
            self.reg.insert(id.raw, Slot::Live);
        }
        proof {
            assert(self@ =~= (HubModel {
                reg: if with_callback {
                    old(self)@.reg.insert(id.raw, Slot::Live)
                } else {
                    old(self)@.reg
                },
                ..old(self)@
            }));
        }
        let t = self.emit(ToWorker::Connected(id));
        (WorkerBridge { id }, t)
    }

    /// Whether the registry still holds an entry for the identifier,
    /// resolvable or stale.
    pub fn has_entry(&self, id: HandlerId) -> (r: bool)
        ensures
            r == self@.present(id),
    {
        self.reg.contains_key(&id.raw)
    }

    /// Whether an output addressed to the identifier would currently be
    /// delivered.
    pub fn is_live(&self, id: HandlerId) -> (r: bool)
        ensures
            r == self@.live(id),
    {
        match self.reg.get(&id.raw) {
            Some(slot) => match slot {
                Slot::Live => true,
                Slot::Stale => false,
            },
            None => false,
        }
    }

    /// Handles the worker-loaded signal: the first one takes the whole
    /// pending queue and returns it for transmission in submission order;
    /// a duplicate signal returns nothing and changes nothing.
    pub fn handle_loaded(&mut self) -> (flushed: Vec<ToWorker<I>>)
        ensures
            final(self)@ == old(self)@.loaded().0,
            flushed@ == old(self)@.loaded().1,
    {
        if self.ready {
            Vec::new()
        } else {
            self.ready = true;
            let mut flushed: Vec<ToWorker<I>> = Vec::new();
            core::mem::swap(&mut flushed, &mut self.pending);
            proof {
                assert(self@ =~= old(self)@.loaded().0);
            }
            flushed
        }
    }

    /// Routes an addressed output to the connection that owns it: returns
    /// the output for delivery to the identifier's handler when the entry
    /// resolves; prunes the entry and drops the output when the owning
    /// bridge is gone; silently drops an output for an unknown identifier.
    /// The last two are expected races, not errors.
    pub fn route_output<O>(&mut self, id: HandlerId, output: O) -> (r: Option<O>)
        ensures
            final(self)@ == old(self)@.route(id).0,
            r == if old(self)@.route(id).1 {
                Some(output)
            } else {
                None::<O>
            },
    {
        let slot: Option<Slot> = match self.reg.get(&id.raw) {
            Some(slot) => Some(*slot),
            None => None,
        };
        match slot {
            Some(Slot::Live) => Some(output),
            Some(Slot::Stale) => {
                self.reg.remove(&id.raw);
                proof {
                    assert(self@ =~= old(self)@.route(id).0);
                }
                None
            },
            None => None,
        }
    }

    /// Ends a logical connection: consumes the bridge, releases its
    /// registry entry so that nothing further is delivered to it, and
    /// emits the detach notification. The physical worker and every other
    /// connection are unaffected.
    pub fn disconnect(&mut self, bridge: WorkerBridge) -> (t: Option<ToWorker<I>>)
        ensures
            final(self)@ == old(self)@.release(bridge.id).emit(
                ToWorker::Disconnected(bridge.id),
            ).0,
            t == old(self)@.release(bridge.id).emit(ToWorker::Disconnected(bridge.id)).1,
            !final(self)@.live(bridge.id),
    {
        let id = bridge.id;
        if self.reg.contains_key(&id.raw) {
            self.reg.insert(id.raw, Slot::Stale);
            proof {
                assert(self@ =~= old(self)@.release(id));
            }
        }
        self.emit(ToWorker::Disconnected(id))
    }
}

} // verus!
