use worker_link::actor::WorkerHub;
use worker_link::handler_id::{HandlerId, HandlerIdAllocator};
use worker_link::messages::{FromWorker, ToWorker};
use worker_link::spawner::Spawner;
use worker_link::traits::{Spawnable, Worker, WorkerScope};

/// A worker that echoes every input back to the connection it came from.
struct EchoWorker;

impl Worker for EchoWorker {
    type Message = ();
    type Input = u64;
    type Output = u64;

    fn create(_scope: &mut WorkerScope<Self>) -> Self {
        EchoWorker
    }

    fn update(&mut self, _scope: &mut WorkerScope<Self>, _msg: ()) {}

    fn received(&mut self, scope: &mut WorkerScope<Self>, msg: u64, id: HandlerId) {
        scope.respond(id, msg);
    }
}

#[test]
fn buffered_sends_flush_in_order() {
    let mut ids = HandlerIdAllocator::new();
    let mut spawner: Spawner<EchoWorker> = Spawner::new();
    spawner.callback();
    let (mut hub, bridge) = spawner.spawn(&mut ids);
    let h1 = bridge.handler_id();

    // nothing reaches the worker before readiness
    assert_eq!(bridge.send(&mut hub, 11), None);
    assert_eq!(bridge.send(&mut hub, 22), None);

    // readiness flushes the queue in submission order, exactly once
    let flushed = hub.handle_loaded();
    assert_eq!(
        flushed,
        vec![
            ToWorker::Connected(h1),
            ToWorker::ProcessInput(h1, 11),
            ToWorker::ProcessInput(h1, 22),
        ]
    );

    // after readiness, messages bypass the queue entirely
    assert_eq!(
        bridge.send(&mut hub, 33),
        Some(ToWorker::ProcessInput(h1, 33))
    );

    // a duplicate readiness signal is absorbed as a no-op
    let again = hub.handle_loaded();
    assert_eq!(again, vec![]);
    assert_eq!(
        bridge.send(&mut hub, 44),
        Some(ToWorker::ProcessInput(h1, 44))
    );
}

#[test]
fn dropped_bridge_receives_nothing_and_is_pruned() {
    let mut ids = HandlerIdAllocator::new();
    let mut spawner: Spawner<EchoWorker> = Spawner::new();
    spawner.callback();
    let (mut hub, first) = spawner.spawn(&mut ids);
    let (second, _t) = first.fork(&mut hub, &mut ids, true);
    let h1 = first.handler_id();
    let h2 = second.handler_id();
    assert_ne!(h1, h2);

    hub.disconnect(first);

    // the first connection's handler is never invoked after the drop,
    // and the stale entry is pruned by the delivery attempt
    assert!(hub.has_entry(h1));
    assert!(!hub.is_live(h1));
    assert_eq!(hub.route_output(h1, 100u64), None);
    assert!(!hub.has_entry(h1));
    assert_eq!(hub.route_output(h1, 101u64), None);

    // the sibling's handler is invoked exactly once, with the payload
    assert_eq!(hub.route_output(h2, 200u64), Some(200));
    assert!(hub.is_live(h2));
}

#[test]
fn sibling_still_sends_after_drop() {
    let mut ids = HandlerIdAllocator::new();
    let mut spawner: Spawner<EchoWorker> = Spawner::new();
    spawner.callback();
    let (mut hub, first) = spawner.spawn(&mut ids);
    let (second, _t) = first.fork(&mut hub, &mut ids, true);
    let h2 = second.handler_id();

    hub.handle_loaded();
    hub.disconnect(first);

    // dropping one fork never affects a sibling's ability to send
    assert_eq!(
        second.send(&mut hub, 7),
        Some(ToWorker::ProcessInput(h2, 7))
    );
    assert_eq!(hub.route_output(h2, 8u64), Some(8));
}

#[test]
fn connection_without_callback_drops_outputs() {
    let mut ids = HandlerIdAllocator::new();
    let mut spawner: Spawner<EchoWorker> = Spawner::new();
    let (mut hub, bridge) = spawner.spawn(&mut ids);
    let h1 = bridge.handler_id();

    // no handler was configured, so outputs addressed here are dropped
    assert!(!hub.has_entry(h1));
    assert_eq!(hub.route_output(h1, 5u64), None);

    // an input-only fork behaves the same
    let (fork, _t) = bridge.fork(&mut hub, &mut ids, false);
    let h2 = fork.handler_id();
    assert_eq!(hub.route_output(h2, 6u64), None);
}

#[test]
fn output_for_unknown_id_is_dropped() {
    let mut ids = HandlerIdAllocator::new();
    let spawner: Spawner<EchoWorker> = Spawner::new();
    let (mut hub, _bridge) = spawner.spawn(&mut ids);
    assert_eq!(hub.route_output(HandlerId { raw: 999 }, 1u64), None);
}

#[test]
fn disconnect_notifies_worker() {
    let mut ids = HandlerIdAllocator::new();
    let mut spawner: Spawner<EchoWorker> = Spawner::new();
    spawner.callback();
    let (mut hub, bridge) = spawner.spawn(&mut ids);
    let h1 = bridge.handler_id();

    hub.handle_loaded();
    assert_eq!(hub.disconnect(bridge), Some(ToWorker::Disconnected(h1)));
}

#[test]
fn worker_scope_outbox_keeps_order() {
    let id = HandlerId { raw: 3 };
    let mut scope: WorkerScope<EchoWorker> = WorkerScope::new();
    scope.notify_loaded();
    scope.respond(id, 7);
    let msgs = scope.take_outbox();
    assert_eq!(
        msgs,
        vec![FromWorker::WorkerLoaded, FromWorker::ProcessOutput(id, 7)]
    );
    assert_eq!(scope.take_outbox(), vec![]);
}

#[test]
fn end_to_end_echo() {
    let mut ids = HandlerIdAllocator::new();
    let mut spawner = EchoWorker::spawner();
    spawner.callback();
    let (mut hub, bridge) = spawner.spawn(&mut ids);

    // the worker side boots and announces readiness
    let mut scope: WorkerScope<EchoWorker> = WorkerScope::new();
    let mut worker = EchoWorker::create(&mut scope);
    scope.notify_loaded();

    // the caller sends before readiness; the message is buffered
    assert_eq!(bridge.send(&mut hub, 9), None);

    // the worker's messages cross the byte channel
    let mut echoed = None;
    for from in scope.take_outbox() {
        match from {
            FromWorker::WorkerLoaded => {
                // readiness flushes the buffer to the worker, in order
                for to in hub.handle_loaded() {
                    match to {
                        ToWorker::Connected(id) => worker.connected(&mut scope, id),
                        ToWorker::ProcessInput(id, msg) => worker.received(&mut scope, msg, id),
                        ToWorker::Disconnected(id) => worker.disconnected(&mut scope, id),
                    }
                }
            }
            FromWorker::ProcessOutput(id, out) => {
                echoed = hub.route_output(id, out);
            }
        }
    }
    // the echo produced by `received` is still in the worker's outbox
    for from in scope.take_outbox() {
        if let FromWorker::ProcessOutput(id, out) = from {
            echoed = hub.route_output(id, out);
        }
    }
    assert_eq!(echoed, Some(9));
    assert!(worker.destroy(&mut scope));
}

#[test]
fn spawner_default_and_clone() {
    let mut ids = HandlerIdAllocator::new();
    let spawner: Spawner<EchoWorker> = Spawner::default();
    let copy = spawner.clone();
    let (hub, bridge) = copy.spawn(&mut ids);
    assert!(!hub.is_live(bridge.handler_id()));
}

#[test]
fn two_workers_never_share_ids() {
    // one process-wide allocator serves every worker, so identifiers are
    // unique across workers and never reused, however spawns and forks
    // interleave
    let mut ids = HandlerIdAllocator::new();
    let mut spawner: Spawner<EchoWorker> = Spawner::new();
    spawner.callback();

    let (mut hub_a, first_a) = spawner.spawn(&mut ids);
    let (mut hub_b, first_b) = spawner.spawn(&mut ids);
    let (fork_a, _t) = first_a.fork(&mut hub_a, &mut ids, true);
    let (fork_b, _t) = first_b.fork(&mut hub_b, &mut ids, true);

    let all = vec![
        first_a.handler_id(),
        first_b.handler_id(),
        fork_a.handler_id(),
        fork_b.handler_id(),
    ];
    for i in 0..all.len() {
        for j in 0..all.len() {
            if i != j {
                assert_ne!(all[i], all[j]);
            }
        }
    }

    // each identifier is registered in exactly one worker's registry
    assert!(hub_a.is_live(first_a.handler_id()));
    assert!(!hub_b.has_entry(first_a.handler_id()));
    assert!(hub_b.is_live(first_b.handler_id()));
    assert!(!hub_a.has_entry(first_b.handler_id()));
    assert!(!hub_b.has_entry(fork_a.handler_id()));
    assert!(!hub_a.has_entry(fork_b.handler_id()));
}

#[test]
fn fresh_hub_buffers_everything() {
    let mut ids = HandlerIdAllocator::new();
    let mut hub: WorkerHub<u64> = WorkerHub::new();
    let (bridge, t) = hub.connect(&mut ids, true);
    assert_eq!(t, None);
    assert_eq!(bridge.send(&mut hub, 1), None);
    let flushed = hub.handle_loaded();
    assert_eq!(flushed.len(), 2);
}
