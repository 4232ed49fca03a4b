//! Transforming a graph, in place or into a new one.

use vstd::prelude::*;
use vstd::slice::slice_to_vec;
use super::Graph;
use crate::call::{Call, IGRAPH_SUBGRAPH_AUTO};
use crate::operation::{marshal, Action, Operation, Progress};
use crate::types::{ToDirectedMode, ToUndirectedMode};

verus! {

impl Graph {
    /// Removes multi-edges, self-loops, or both, in place.
    pub fn simplify(&mut self, remove_multiple: bool, remove_loops: bool) -> (op: Operation)
        requires
            old(self).stage() is Live,
        ensures
            final(self).stage() == old(self).stage(),
            op@ == Progress::start(
                seq![Action::Invoke { call: Call::Simplify { remove_multiple, remove_loops } }],
            ),
    {
        Operation::plain(Call::Simplify { remove_multiple, remove_loops })
    }

    /// Makes the graph directed, in place.
    pub fn to_directed(&mut self, mode: ToDirectedMode) -> (op: Operation)
        requires
            old(self).stage() is Live,
        ensures
            final(self).stage() == old(self).stage(),
            op@ == Progress::start(
                seq![Action::Invoke { call: Call::ToDirected { mode: mode.raw() } }],
            ),
    {
        Operation::plain(Call::ToDirected { mode: mode.to_raw() })
    }

    /// Makes the graph undirected, in place.
    pub fn to_undirected(&mut self, mode: ToUndirectedMode) -> (op: Operation)
        requires
            old(self).stage() is Live,
        ensures
            final(self).stage() == old(self).stage(),
            op@ == Progress::start(
                seq![Action::Invoke { call: Call::ToUndirected { mode: mode.raw() } }],
            ),
    {
        Operation::plain(Call::ToUndirected { mode: mode.to_raw() })
    }

    /// A new graph: the part of this one that the vertices `vids` induce.
    /// This graph is left as it is.
    pub fn induced_subgraph(&self, vids: &[i64]) -> (op: Operation)
        requires
            self.stage() is Live,
            vids@.len() + 2 < usize::MAX,
        ensures
            op@ == Progress::start(
                marshal(vids@) + seq![
                    Action::Invoke {
                        call: Call::InducedSubgraph { implementation: IGRAPH_SUBGRAPH_AUTO },
                    },
                ],
            ),
    {
        Operation::with_input(
            slice_to_vec(vids),
            Call::InducedSubgraph { implementation: IGRAPH_SUBGRAPH_AUTO },
        )
    }

    /// A new graph: the union of this graph and `other`.  Both are left as
    /// they are.
    pub fn union(&self, other: &Graph) -> (op: Operation)
        requires
            self.stage() is Live,
            other.stage() is Live,
        ensures
            op@ == Progress::start(seq![Action::Invoke { call: Call::Union }]),
    {
        Operation::plain(Call::Union)
    }
}

} // verus!
