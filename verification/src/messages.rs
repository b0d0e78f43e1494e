use vstd::prelude::*;

use crate::handler_id::HandlerId;

verus! {

/// A wire message travelling to the physical worker.
///
/// Every payload is tagged with the [`HandlerId`] of the logical connection
/// it belongs to, so the worker can tell its callers apart.
#[derive(Clone, PartialEq, Eq, Debug)]
pub enum ToWorker<I> {
    /// A new logical connection attached under the given identifier.
    Connected(HandlerId),
    /// An input payload submitted by the given logical connection.
    ProcessInput(HandlerId, I),
    /// The given logical connection detached.
    Disconnected(HandlerId),
}

/// A wire message arriving from the physical worker.
#[derive(Clone, PartialEq, Eq, Debug)]
pub enum FromWorker<O> {
    /// The worker finished loading; buffered messages may now flow.
    /// Sent at most once per worker; a duplicate is absorbed as a no-op.
    WorkerLoaded,
    /// An output payload addressed to exactly one logical connection.
    ProcessOutput(HandlerId, O),
}

/// The input-direction payload of the reactor protocol.
#[derive(Clone, PartialEq, Eq, Debug)]
pub enum ReactorInput<I> {
    /// An item of the caller's input stream.
    Input(I),
}

/// The output-direction payload of the reactor protocol.
#[derive(Clone, PartialEq, Eq, Debug)]
pub enum ReactorOutput<O> {
    /// An item of the worker's output stream.
    Output(O),
    /// No further output will ever arrive for this connection.
    Finish,
}

} // verus!
