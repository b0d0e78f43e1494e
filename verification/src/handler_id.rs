use vstd::prelude::*;

verus! {

/// An identity token for one logical connection to a physical worker.
///
/// Identifiers come from the process-wide [`HandlerIdAllocator`], so every
/// issued identifier is distinct from every other, whichever worker it
/// serves; the token itself carries no meaning beyond equality and
/// hashing.
#[derive(Clone, Copy, PartialEq, Eq, Hash, Debug, Structural)]
pub struct HandlerId {
    /// The numeric value of the identifier: the allocator's cursor at the
    /// moment it was issued.
    pub raw: u64,
}

/// The process-wide source of [`HandlerId`]s: a monotonic cursor,
/// advancing by one per issued identifier and never moving back.
///
/// A process holds exactly one allocator and threads it through every
/// operation that attaches a logical connection; identifiers drawn from
/// it are then unique across all workers for the process's lifetime and
/// never reused.
pub struct HandlerIdAllocator {
    next: u64,
}

impl View for HandlerIdAllocator {
    type V = u64;

    closed spec fn view(&self) -> u64 {
        self.next
    }
}

impl HandlerIdAllocator {
    /// Creates the allocator, with no identifier issued yet.
    pub fn new() -> (a: Self)
        ensures
            a@ == 0,
    {
        HandlerIdAllocator { next: 0 }
    }

    /// The cursor: the value the next issued identifier will carry.
    pub fn cursor(&self) -> (c: u64)
        ensures
            c == self@,
    {
        self.next
    }

    /// Issues the next identifier: it carries the current cursor value,
    /// and the cursor moves past it, so the same value is never issued
    /// again.
    pub fn allocate(&mut self) -> (id: HandlerId)
        requires
            old(self)@ < u64::MAX,
        ensures
            id.raw == old(self)@,
            final(self)@ == old(self)@ + 1,
    {
        let id = HandlerId { raw: self.next };
        self.next = self.next + 1;
        id
    }
}

/// No identifier is ever reused: an identifier carries the cursor value
/// at which it was issued, and the cursor only grows, so identifiers
/// issued at two different moments of the process's lifetime are never
/// equal — whichever workers they serve.
pub proof fn lemma_ids_never_reused(earlier: u64, later: u64)
    requires
        earlier < later,
    ensures
        (HandlerId { raw: earlier }) != (HandlerId { raw: later }),
{
}

} // verus!
