//! Centrality measures.

use vstd::prelude::*;
use super::Graph;
use crate::call::{Call, Container, IGRAPH_PAGERANK_ALGO_PRPACK};
use crate::operation::{Action, Operation, Progress};
use crate::types::{NeighborMode, Real};

verus! {

impl Graph {
    /// The betweenness of every vertex: without weights, not normalised.
    pub fn betweenness(&self, directed: bool) -> (op: Operation)
        requires
            self.stage() is Live,
        ensures
            op@ == Progress::start(
                seq![
                    Action::Init { slot: 0, container: Container::RealVector { size: 0 } },
                    Action::Invoke { call: Call::Betweenness { directed, normalized: false } },
                ],
            ),
    {
        Operation::with_output(
            Container::RealVector { size: 0 },
            Call::Betweenness { directed, normalized: false },
        )
    }

    /// The closeness of every vertex: without weights, normalised.
    pub fn closeness(&self, mode: NeighborMode) -> (op: Operation)
        requires
            self.stage() is Live,
        ensures
            op@ == Progress::start(
                seq![
                    Action::Init { slot: 0, container: Container::RealVector { size: 0 } },
                    Action::Invoke { call: Call::Closeness { mode: mode.raw(), normalized: true } },
                ],
            ),
    {
        Operation::with_output(
            Container::RealVector { size: 0 },
            Call::Closeness { mode: mode.to_raw(), normalized: true },
        )
    }

    /// The PageRank of every vertex: without weights, following edge
    /// directions.
    pub fn pagerank(&self, damping: Real) -> (op: Operation)
        requires
            self.stage() is Live,
        ensures
            op@ == Progress::start(
                seq![
                    Action::Init { slot: 0, container: Container::RealVector { size: 0 } },
                    Action::Invoke {
                        call: Call::Pagerank {
                            damping,
                            directed: true,
                            algorithm: IGRAPH_PAGERANK_ALGO_PRPACK,
                        },
                    },
                ],
            ),
    {
        Operation::with_output(
            Container::RealVector { size: 0 },
            Call::Pagerank { damping, directed: true, algorithm: IGRAPH_PAGERANK_ALGO_PRPACK },
        )
    }
}

} // verus!
