//! The connections of an audio graph: a set of edges between node
//! identifiers, kept without repetition.
use vstd::prelude::*;
use crate::context::AudioNodeId;

verus! {

/// Which edges a filtering pass drops.
#[derive(Debug, Clone, Copy, PartialEq, Eq)]
enum EdgeFilter {
    /// The one edge from `a` to `b`.
    Exact,
    /// Every edge out of `a`.
    From,
    /// Every edge into or out of `a`.
    Touching,
}

spec fn dropped(e: (u64, u64), a: u64, b: u64, how: EdgeFilter) -> bool {
    match how {
        EdgeFilter::Exact => e.0 == a && e.1 == b,
        EdgeFilter::From => e.0 == a,
        EdgeFilter::Touching => e.0 == a || e.1 == a,
    }
}

pub open spec fn edge_at(edges: Seq<(AudioNodeId, AudioNodeId)>, i: int) -> (u64, u64) {
    (edges[i].0@, edges[i].1@)
}

pub open spec fn edge_set(edges: Seq<(AudioNodeId, AudioNodeId)>) -> Set<(u64, u64)> {
    Set::new(|e: (u64, u64)| exists|i: int| 0 <= i < edges.len() && #[trigger] edge_at(edges, i) == e)
}

/// The edges of an audio graph, from the node that sends to the node that
/// receives.
#[derive(Debug)]
pub struct Topology {
    edges: Vec<(AudioNodeId, AudioNodeId)>,
}

impl Topology {
    pub closed spec fn view(&self) -> Set<(u64, u64)> {
        edge_set(self.edges@)
    }

    /// A graph without connections.
    pub fn new() -> (r: Self)
        ensures
            r@ == Set::<(u64, u64)>::empty(),
    {
        let r = Topology { edges: Vec::new() };
        assert(r@ =~= Set::<(u64, u64)>::empty());
        r
    }

    /// Whether `from` sends to `to`.
    pub fn feeds(&self, from: AudioNodeId, to: AudioNodeId) -> (r: bool)
        ensures
            r == self@.contains((from@, to@)),
    {
        let mut i: usize = 0;
        while i < self.edges.len()
            invariant
                i <= self.edges@.len(),
                forall|j: int| 0 <= j < i ==> edge_at(self.edges@, j) != (from@, to@),
            decreases self.edges@.len() - i,
        {
            let (f, t) = self.edges[i];
            if f.value() == from.value() && t.value() == to.value() {
                assert(edge_at(self.edges@, i as int) == (from@, to@));
                return true;
            }
            i += 1;
        }
        false
    }

    /// Connects `from` to `to`; connecting twice is connecting once.
    pub fn connect(&mut self, from: AudioNodeId, to: AudioNodeId)
        ensures
            final(self)@ == old(self)@.insert((from@, to@)),
    {
        if !self.feeds(from, to) {
            let ghost before = self.edges@;
            self.edges.push((from, to));
            assert forall|e: (u64, u64)| #[trigger] self@.contains(e) == old(self)@.insert(
                (from@, to@),
            ).contains(e) by {
                if old(self)@.contains(e) {
                    let i = choose|i: int| 0 <= i < before.len() && edge_at(before, i) == e;
                    assert(edge_at(self.edges@, i) == e);
                }
                if e == (from@, to@) {
                    assert(edge_at(self.edges@, before.len() as int) == e);
                }
                if self@.contains(e) {
                    let i = choose|i: int| 0 <= i < self.edges@.len() && edge_at(self.edges@, i) == e;
                    if i < before.len() {
                        assert(edge_at(before, i) == e);
                    }
                }
            }
            assert(self@ =~= old(self)@.insert((from@, to@)));
        } else {
            assert(old(self)@ =~= old(self)@.insert((from@, to@)));
        }
    }

    /// Keeps the edges that `how` does not drop.
    fn retain_edges(&mut self, a: u64, b: u64, how: EdgeFilter)
        ensures
            final(self)@ == old(self)@.filter(|e: (u64, u64)| !dropped(e, a, b, how)),
    {
        let mut kept: Vec<(AudioNodeId, AudioNodeId)> = Vec::new();
        let mut i: usize = 0;
        while i < self.edges.len()
            invariant
                i <= self.edges@.len(),
                forall|e: (u64, u64)| #[trigger] edge_set(kept@).contains(e) == (edge_set(
                    self.edges@.take(i as int),
                ).contains(e) && !dropped(e, a, b, how)),
            decreases self.edges@.len() - i,
        {
            let ghost old_kept = kept@;
            let (f, t) = self.edges[i];
            let drop_it = match how {
                EdgeFilter::Exact => f.value() == a && t.value() == b,
                EdgeFilter::From => f.value() == a,
                EdgeFilter::Touching => f.value() == a || t.value() == a,
            };
            if !drop_it {
                kept.push((f, t));
            }
            let ghost next = self.edges@.take(i + 1);
            assert forall|e: (u64, u64)| #[trigger] edge_set(kept@).contains(e) == (edge_set(
                next,
            ).contains(e) && !dropped(e, a, b, how)) by {
                let prev = self.edges@.take(i as int);
                assert(edge_at(next, i as int) == (f@, t@));
                if edge_set(prev).contains(e) {
                    let j = choose|j: int| 0 <= j < prev.len() && edge_at(prev, j) == e;
                    assert(edge_at(next, j) == e);
                }
                if edge_set(next).contains(e) {
                    let j = choose|j: int| 0 <= j < next.len() && edge_at(next, j) == e;
                    if j < i {
                        assert(edge_at(prev, j) == e);
                    }
                }
                if edge_set(old_kept).contains(e) {
                    let j = choose|j: int| 0 <= j < old_kept.len() && edge_at(old_kept, j) == e;
                    assert(edge_at(kept@, j) == e);
                }
                if edge_set(kept@).contains(e) {
                    let j = choose|j: int| 0 <= j < kept@.len() && edge_at(kept@, j) == e;
                    if j < old_kept.len() {
                        assert(edge_at(old_kept, j) == e);
                    }
                }
                if !drop_it && e == (f@, t@) {
                    assert(edge_at(kept@, old_kept.len() as int) == e);
                }
            }
            i += 1;
        }
        assert(self.edges@.take(self.edges@.len() as int) =~= self.edges@);
        let ghost before = self@;
        self.edges = kept;
        assert(self@ =~= before.filter(|e: (u64, u64)| !dropped(e, a, b, how)));
    }

    /// Removes the connection from `from` to `to`, if there is one.
    pub fn disconnect(&mut self, from: AudioNodeId, to: AudioNodeId)
        ensures
            final(self)@ == old(self)@.remove((from@, to@)),
    {
        self.retain_edges(from.value(), to.value(), EdgeFilter::Exact);
        assert(self@ =~= old(self)@.remove((from@, to@)));
    }

    /// Removes every connection out of `from`.
    pub fn disconnect_all(&mut self, from: AudioNodeId)
        ensures
            final(self)@ == old(self)@.filter(|e: (u64, u64)| e.0 != from@),
    {
        self.retain_edges(from.value(), 0, EdgeFilter::From);
        assert(self@ =~= old(self)@.filter(|e: (u64, u64)| e.0 != from@));
    }

    /// Removes every connection into or out of `node`, which leaves the graph.
    pub fn remove_node(&mut self, node: AudioNodeId)
        ensures
            final(self)@ == old(self)@.filter(|e: (u64, u64)| e.0 != node@ && e.1 != node@),
    {
        self.retain_edges(node.value(), 0, EdgeFilter::Touching);
        assert(self@ =~= old(self)@.filter(|e: (u64, u64)| e.0 != node@ && e.1 != node@));
    }
}

} // verus!
