//! An actor-style communication layer for talking to an isolated worker
//! over a single byte channel.
//!
//! Many logical connections ("bridges") share one physical worker. Outbound
//! messages submitted before the worker signals readiness are buffered in a
//! pending queue and flushed, in order, exactly once. Inbound messages are
//! demultiplexed by [`handler_id::HandlerId`] against a registry of
//! connection entries; entries whose bridge has been dropped are pruned
//! lazily. A duplex streaming protocol ("reactor") is layered on top,
//! pairing an input sink with an output stream that terminates permanently
//! once the worker signals completion.

pub mod handler_id;
pub mod messages;
pub mod channel;
pub mod actor;
pub mod reactor;
pub mod registrar;
pub mod spawner;
pub mod traits;
