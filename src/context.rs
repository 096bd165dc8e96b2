//! Node identity within an audio context.
use vstd::prelude::*;

verus! {

/// Unique identifier for audio nodes. Used for internal bookkeeping.
#[derive(Debug, Clone, Copy, PartialEq, Eq, Hash)]
pub struct AudioNodeId(u64);

impl AudioNodeId {
    pub closed spec fn view(&self) -> u64 {
        self.0
    }

    /// The identifier of a context's destination node.
    pub fn destination() -> (r: Self)
        ensures
            r@ == 0,
    {
        AudioNodeId(0)
    }

    pub fn value(&self) -> (r: u64)
        ensures
            r == self@,
    {
        self.0
    }
}

/// Hands out the identifiers of the nodes that a context creates, in
/// increasing order and never the destination's.
#[derive(Debug)]
pub struct NodeIdAllocator {
    next: u64,
}

impl NodeIdAllocator {
    pub closed spec fn next_spec(&self) -> u64 {
        self.next
    }

    pub open spec fn wf(&self) -> bool {
        self.next_spec() >= 1
    }

    pub fn new() -> (r: Self)
        ensures
            r.wf(),
            r.next_spec() == 1,
    {
        NodeIdAllocator { next: 1 }
    }

    /// Whether another identifier can be handed out.
    pub fn has_next(&self) -> (r: bool)
        ensures
            r == (self.next_spec() < u64::MAX),
    {
        self.next < u64::MAX
    }

    /// The identifier for a newly registered node.
    pub fn allocate(&mut self) -> (r: AudioNodeId)
        requires
            old(self).wf(),
            old(self).next_spec() < u64::MAX,
        ensures
            final(self).wf(),
            r@ == old(self).next_spec(),
            final(self).next_spec() == old(self).next_spec() + 1,
    {
        let id = AudioNodeId(self.next);
        self.next = self.next + 1;
        id
    }
}

} // verus!
