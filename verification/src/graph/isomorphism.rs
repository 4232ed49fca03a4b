//! Subgraph isomorphism by the VF2 method, without colours.

use vstd::prelude::*;
use super::Graph;
use crate::call::{Call, Container};
use crate::operation::{Action, Operation, Progress};

verus! {

impl Graph {
    /// How many subgraphs of this graph are isomorphic to `pattern`.
    pub fn count_subisomorphisms_vf2(&self, pattern: &Graph) -> (op: Operation)
        requires
            self.stage() is Live,
            pattern.stage() is Live,
        ensures
            op@ == Progress::start(seq![Action::Invoke { call: Call::CountSubisomorphismsVf2 }]),
    {
        Operation::plain(Call::CountSubisomorphismsVf2)
    }

    /// Every mapping of `pattern` onto a subgraph of this graph: for each,
    /// the vertex of this graph that each vertex of `pattern` goes to.
    pub fn get_subisomorphisms_vf2(&self, pattern: &Graph) -> (op: Operation)
        requires
            self.stage() is Live,
            pattern.stage() is Live,
        ensures
            op@ == Progress::start(
                seq![
                    Action::Init { slot: 0, container: Container::IntVectorList { size: 0 } },
                    Action::Invoke { call: Call::GetSubisomorphismsVf2 },
                ],
            ),
    {
        Operation::with_output(
            Container::IntVectorList { size: 0 },
            Call::GetSubisomorphismsVf2,
        )
    }
}

} // verus!
