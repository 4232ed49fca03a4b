//! Shortest paths.

use vstd::prelude::*;
use super::Graph;
use crate::call::{Call, Container};
use crate::operation::{Action, Operation, Progress};
use crate::types::NeighborMode;

verus! {

impl Graph {
    /// The length of the shortest path between every two vertices, without
    /// weights.
    ///
    /// `vcount` is the number of vertices of the graph: the matrix for the
    /// result is allocated with that many rows and columns.
    pub fn distances(&self, vcount: i64, mode: NeighborMode) -> (op: Operation)
        requires
            self.stage() is Live,
        ensures
            op@ == Progress::start(
                seq![
                    Action::Init {
                        slot: 0,
                        container: Container::Matrix { nrow: vcount, ncol: vcount },
                    },
                    Action::Invoke { call: Call::Distances { mode: mode.raw() } },
                ],
            ),
    {
        Operation::with_output(
            Container::Matrix { nrow: vcount, ncol: vcount },
            Call::Distances { mode: mode.to_raw() },
        )
    }

    /// The length of the longest shortest path, without weights; infinite
    /// when the graph is not connected.
    pub fn diameter(&self, directed: bool) -> (op: Operation)
        requires
            self.stage() is Live,
        ensures
            op@ == Progress::start(
                seq![Action::Invoke { call: Call::Diameter { directed, unconnected: true } }],
            ),
    {
        Operation::plain(Call::Diameter { directed, unconnected: true })
    }
}

} // verus!
