use vstd::prelude::*;

use crate::messages::ReactorOutput;

verus! {

/// The abstract state of an output delivery channel: the items not yet
/// consumed, and whether the channel has been closed for good.
#[verifier::ext_equal]
pub struct ChanModel<O> {
    /// Items delivered but not yet taken by the consumer, oldest first.
    pub items: Seq<O>,
    /// Whether completion has been observed. Once set it never clears.
    pub closed: bool,
}

impl<O> ChanModel<O> {
    /// The state of a freshly created channel: empty and open.
    pub open spec fn init() -> Self {
        ChanModel { items: Seq::empty(), closed: false }
    }

    /// How a delivery changes the channel: an output item is appended while
    /// the channel is open and dropped once it is closed; the completion
    /// signal closes the channel and is idempotent.
    pub open spec fn deliver(self, out: ReactorOutput<O>) -> Self {
        match out {
            ReactorOutput::Output(m) => {
                if self.closed {
                    self
                } else {
                    ChanModel { items: self.items.push(m), ..self }
                }
            },
            ReactorOutput::Finish => ChanModel { closed: true, ..self },
        }
    }

    /// A terminated channel yields nothing, forever.
    pub open spec fn terminated(self) -> bool {
        self.closed && self.items.len() == 0
    }
}

/// Once a channel is closed, no delivery changes it in any way: neither a
/// late output item nor a duplicate completion signal has an effect, so
/// completion is a permanent, terminal state.
pub proof fn lemma_finish_is_terminal<O>(c: ChanModel<O>, out: ReactorOutput<O>)
    requires
        c.closed,
    ensures
        c.deliver(out) == c,
{
    assert(c.deliver(out) =~= c);
}

/// The dedicated delivery channel of one reactor connection.
///
/// Output items produced by the worker accumulate here until the consumer
/// takes them; observing the completion signal closes the channel
/// permanently. This is the connection-local terminal state of the reactor
/// protocol: a closed channel drops every later delivery.
pub struct OutputChannel<O> {
    items: Vec<O>,
    closed: bool,
}

impl<O> View for OutputChannel<O> {
    type V = ChanModel<O>;

    closed spec fn view(&self) -> ChanModel<O> {
        ChanModel { items: self.items@, closed: self.closed }
    }
}

impl<O> OutputChannel<O> {
    /// Creates an empty, open channel.
    pub fn new() -> (c: Self)
        ensures
            c@ == ChanModel::<O>::init(),
    {
        let c = OutputChannel { items: Vec::new(), closed: false };
        proof {
            assert(c@ =~= ChanModel::<O>::init());
        }
        c
    }

    /// Applies one delivery from the worker to the channel.
    pub fn deliver(&mut self, out: ReactorOutput<O>)
        ensures
            final(self)@ == old(self)@.deliver(out),
    {
        match out {
            ReactorOutput::Output(m) => {
                if !self.closed {
                    self.items.push(m);
                }
            },
            ReactorOutput::Finish => {
                self.closed = true;
            },
        }
        proof {
            assert(self@ =~= old(self)@.deliver(out));
        }
    }

    /// Takes the oldest item not yet consumed, if there is one.
    pub fn take_next(&mut self) -> (r: Option<O>)
        ensures
            final(self)@.closed == old(self)@.closed,
            old(self)@.items.len() == 0 ==> r is None && final(self)@ == old(self)@,
            old(self)@.items.len() > 0 ==> (r == Some(old(self)@.items[0])
                && final(self)@.items == old(self)@.items.skip(1)),
    {
        if self.items.len() == 0 {
            proof {
                assert(self@ =~= old(self)@);
            }
            None
        } else {
            let item = self.items.remove(0);
            proof {
                assert(self@.items =~= old(self)@.items.skip(1));
            }
            Some(item)
        }
    }

    /// Whether the channel is terminated: closed, with nothing left to take.
    pub fn is_terminated(&self) -> (r: bool)
        ensures
            r == self@.terminated(),
    {
        self.closed && self.items.len() == 0
    }
}

} // verus!
