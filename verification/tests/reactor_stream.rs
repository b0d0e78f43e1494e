use worker_link::handler_id::HandlerIdAllocator;
use worker_link::messages::{FromWorker, ReactorInput, ReactorOutput, ToWorker};
use worker_link::reactor::{ReactorBridgeSinkError, ReactorHub};
use worker_link::registrar::{Bincode, ReactorRegistrar};

#[test]
fn reactor_stream_terminates_at_finish() {
    let mut ids = HandlerIdAllocator::new();
    let (mut hub, bridge): (ReactorHub<u64, u64>, _) = ReactorHub::spawn(&mut ids);
    let id = bridge.handler_id();
    hub.dispatch(FromWorker::WorkerLoaded);

    hub.dispatch(FromWorker::ProcessOutput(id, ReactorOutput::Output(1)));
    hub.dispatch(FromWorker::ProcessOutput(id, ReactorOutput::Output(2)));
    hub.dispatch(FromWorker::ProcessOutput(id, ReactorOutput::Output(3)));
    hub.dispatch(FromWorker::ProcessOutput(id, ReactorOutput::Finish));

    // the produced sequence is exactly the three items, then termination
    assert!(!hub.is_terminated(&bridge));
    assert_eq!(hub.next_output(&bridge), Some(1));
    assert_eq!(hub.next_output(&bridge), Some(2));
    assert_eq!(hub.next_output(&bridge), Some(3));
    assert_eq!(hub.next_output(&bridge), None);
    assert!(hub.is_terminated(&bridge));

    // an output injected after the finish signal is never observed
    hub.dispatch(FromWorker::ProcessOutput(id, ReactorOutput::Output(4)));
    assert_eq!(hub.next_output(&bridge), None);
    assert!(hub.is_terminated(&bridge));
}

#[test]
fn closing_the_sink_fails_and_changes_nothing() {
    let mut ids = HandlerIdAllocator::new();
    let (mut hub, bridge): (ReactorHub<u64, u64>, _) = ReactorHub::spawn(&mut ids);
    let id = bridge.handler_id();

    // closing through the input half is refused with the designated error
    assert_eq!(
        bridge.close(),
        Err(ReactorBridgeSinkError::AttemptClosure)
    );

    // and the connection remains fully usable for further sends
    assert_eq!(bridge.send_input(&mut hub, 5), None);
    let flushed = hub.dispatch(FromWorker::WorkerLoaded);
    assert_eq!(
        flushed,
        vec![
            ToWorker::Connected(id),
            ToWorker::ProcessInput(id, ReactorInput::Input(5)),
        ]
    );
    assert_eq!(
        bridge.send_input(&mut hub, 6),
        Some(ToWorker::ProcessInput(id, ReactorInput::Input(6)))
    );
    assert_eq!(bridge.flush(), Ok(()));
    assert_eq!(
        bridge.close(),
        Err(ReactorBridgeSinkError::AttemptClosure)
    );
}

#[test]
fn reactor_fork_is_independent() {
    let mut ids = HandlerIdAllocator::new();
    let (mut hub, first): (ReactorHub<u64, u64>, _) = ReactorHub::spawn(&mut ids);
    let (second, _t) = first.fork(&mut hub, &mut ids);
    let h1 = first.handler_id();
    let h2 = second.handler_id();
    assert_ne!(h1, h2);

    hub.dispatch(FromWorker::WorkerLoaded);
    hub.disconnect(first);

    // outputs for the dropped connection vanish without effect
    hub.dispatch(FromWorker::ProcessOutput(h1, ReactorOutput::Output(10)));

    // the sibling still receives its own outputs, in order
    hub.dispatch(FromWorker::ProcessOutput(h2, ReactorOutput::Output(20)));
    hub.dispatch(FromWorker::ProcessOutput(h2, ReactorOutput::Output(21)));
    assert_eq!(hub.next_output(&second), Some(20));
    assert_eq!(hub.next_output(&second), Some(21));
    assert!(!hub.is_terminated(&second));

    // and it can still send
    assert_eq!(
        second.send_input(&mut hub, 30),
        Some(ToWorker::ProcessInput(h2, ReactorInput::Input(30)))
    );
}

#[test]
fn finish_per_connection_not_per_worker() {
    let mut ids = HandlerIdAllocator::new();
    let (mut hub, first): (ReactorHub<u64, u64>, _) = ReactorHub::spawn(&mut ids);
    let (second, _t) = first.fork(&mut hub, &mut ids);
    let h1 = first.handler_id();
    let h2 = second.handler_id();
    hub.dispatch(FromWorker::WorkerLoaded);

    // finishing one connection is connection-local and irreversible
    hub.dispatch(FromWorker::ProcessOutput(h1, ReactorOutput::Finish));
    assert!(hub.is_terminated(&first));
    hub.dispatch(FromWorker::ProcessOutput(h2, ReactorOutput::Output(1)));
    assert_eq!(hub.next_output(&second), Some(1));
    assert!(!hub.is_terminated(&second));
}

#[test]
fn sink_error_message_text() {
    assert_eq!(
        ReactorBridgeSinkError::AttemptClosure.message(),
        "attempting to close the bridge via the sink"
    );
}

#[test]
fn registrar_carries_the_codec_choice() {
    let registrar: ReactorRegistrar = ReactorRegistrar::new();
    let _rebound: ReactorRegistrar<Bincode> = registrar.encoding::<Bincode>();
    let _default: ReactorRegistrar = ReactorRegistrar::default();
}
