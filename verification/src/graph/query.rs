//! Reading a graph.

use vstd::prelude::*;
use super::{pair_up, Graph};
use crate::call::{Call, Container, Query};
use crate::operation::{Action, Operation, Progress};
use crate::types::{Loops, NeighborMode, IGRAPH_LOOPS_TWICE};
use crate::vector::VectorInt;

verus! {

impl Graph {
    /// Number of vertices.
    pub fn vcount(&self) -> (q: Query)
        requires
            self.stage() is Live,
        ensures
            q == Query::Vcount,
    {
        Query::Vcount
    }

    /// Number of edges.
    pub fn ecount(&self) -> (q: Query)
        requires
            self.stage() is Live,
        ensures
            q == Query::Ecount,
    {
        Query::Ecount
    }

    /// Whether the graph is directed.
    pub fn is_directed(&self) -> (q: Query)
        requires
            self.stage() is Live,
        ensures
            q == Query::IsDirected,
    {
        Query::IsDirected
    }

    /// The neighbours of vertex `vid`.  A self-loop gives the vertex twice,
    /// and each of several edges to one neighbour gives that neighbour once.
    pub fn neighbors(&self, vid: i64, mode: NeighborMode) -> (op: Operation)
        requires
            self.stage() is Live,
        ensures
            op@ == Progress::start(
                seq![
                    Action::Init { slot: 0, container: Container::IntVector { size: 0 } },
                    Action::Invoke {
                        call: Call::Neighbors {
                            vid,
                            mode: mode.raw(),
                            loops: IGRAPH_LOOPS_TWICE,
                            multiple: true,
                        },
                    },
                ],
            ),
    {
        Operation::with_output(
            Container::IntVector { size: 0 },
            Call::Neighbors { vid, mode: mode.to_raw(), loops: IGRAPH_LOOPS_TWICE, multiple: true },
        )
    }

    /// The degree of every vertex.
    pub fn degree(&self, mode: NeighborMode, loops: Loops) -> (op: Operation)
        requires
            self.stage() is Live,
        ensures
            op@ == Progress::start(
                seq![
                    Action::Init { slot: 0, container: Container::IntVector { size: 0 } },
                    Action::Invoke { call: Call::Degree { mode: mode.raw(), loops: loops.raw() } },
                ],
            ),
    {
        Operation::with_output(
            Container::IntVector { size: 0 },
            Call::Degree { mode: mode.to_raw(), loops: loops.to_raw() },
        )
    }

    /// The two end points of edge `eid`.
    pub fn edge(&self, eid: i64) -> (op: Operation)
        requires
            self.stage() is Live,
        ensures
            op@ == Progress::start(seq![Action::Invoke { call: Call::Edge { eid } }]),
    {
        Operation::plain(Call::Edge { eid })
    }

    /// Whether an edge joins `v1` and `v2`.
    pub fn are_adjacent(&self, v1: i64, v2: i64) -> (op: Operation)
        requires
            self.stage() is Live,
        ensures
            op@ == Progress::start(seq![Action::Invoke { call: Call::AreAdjacent { v1, v2 } }]),
    {
        Operation::plain(Call::AreAdjacent { v1, v2 })
    }

    /// Every edge of the graph, as a flat list ordered edge by edge.
    /// [`Graph::edges`] turns the list into pairs.
    pub fn get_edgelist(&self) -> (op: Operation)
        requires
            self.stage() is Live,
        ensures
            op@ == Progress::start(
                seq![
                    Action::Init { slot: 0, container: Container::IntVector { size: 0 } },
                    Action::Invoke { call: Call::GetEdgelist { bycol: false } },
                ],
            ),
    {
        Operation::with_output(
            Container::IntVector { size: 0 },
            Call::GetEdgelist { bycol: false },
        )
    }

    /// The edges that a flat edge list holds, in order.
    pub fn edges(flat: &VectorInt) -> (edges: Vec<(i64, i64)>)
        ensures
            edges@ == pair_up(flat@),
    {
        let n = flat.len();
        let mut edges: Vec<(i64, i64)> = Vec::new();
        let mut i: i64 = 0;
        while i < n / 2
            invariant
                0 <= i <= n / 2,
                n == flat@.len(),
                edges@.len() == i,
                forall|k: int| 0 <= k < i ==> #[trigger] edges@[k] == (flat@[2 * k], flat@[2 * k + 1]),
            decreases n / 2 - i,
        {
            let from = flat.get(2 * i);
            let to = flat.get(2 * i + 1);
            edges.push((from, to));
            i += 1;
        }
        proof {
            assert(edges@ =~= pair_up(flat@));
        }
        edges
    }
}

} // verus!
