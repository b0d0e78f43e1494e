use vstd::prelude::*;

verus! {

/// An encode/decode strategy for the wire payload, chosen when a worker
/// type is registered. The byte-level strategy itself lives with the host
/// around this library; a codec type here only names the choice.
pub trait Codec {

}

/// The default codec: a compact binary encoding.
pub struct Bincode;

impl Codec for Bincode {

}

/// A registrar for reactor workers: the declarative surface through which
/// external setup code makes a worker type runnable at a location, with
/// the chosen codec. The wiring of the worker's lifecycle hooks to the
/// byte channel is the host's part; the registrar only carries the choice
/// of codec in its type.
pub struct ReactorRegistrar<C: Codec = Bincode> {
    marker: core::marker::PhantomData<C>,
}

impl<C: Codec> ReactorRegistrar<C> {
    /// Creates a new reactor registrar.
    pub fn new() -> (r: Self) {
        ReactorRegistrar { marker: core::marker::PhantomData }
    }

    /// Sets the encoding: the same registrar under another codec.
    pub fn encoding<C2: Codec>(&self) -> (r: ReactorRegistrar<C2>) {
        ReactorRegistrar { marker: core::marker::PhantomData }
    }
}

impl<C: Codec> Default for ReactorRegistrar<C> {
    /// Same as [`ReactorRegistrar::new`].
    fn default() -> (r: Self) {
        ReactorRegistrar::new()
    }
}

} // verus!
