//! Community detection.

use vstd::prelude::*;
use super::Graph;
use crate::call::{
    Call, Container, IGRAPH_LPA_FAST, LEIDEN_ITERATIONS, ONE_HUNDREDTH_BITS,
};
use crate::operation::{Action, Operation, Progress};
use crate::types::{Real, IGRAPH_ALL};

verus! {

impl Graph {
    /// Communities by the Leiden method: without weights, with randomness
    /// 0.01, from singleton communities, in ten rounds.
    pub fn community_leiden(&self, resolution: Real) -> (op: Operation)
        requires
            self.stage() is Live,
        ensures
            op@ == Progress::start(
                seq![
                    Action::Init { slot: 0, container: Container::IntVector { size: 0 } },
                    Action::Invoke {
                        call: Call::CommunityLeiden {
                            resolution,
                            beta: Real { bits: ONE_HUNDREDTH_BITS },
                            start: false,
                            n_iterations: LEIDEN_ITERATIONS,
                        },
                    },
                ],
            ),
    {
        Operation::with_output(
            Container::IntVector { size: 0 },
            Call::CommunityLeiden {
                resolution,
                beta: Real::from_bits(ONE_HUNDREDTH_BITS),
                start: false,
                n_iterations: LEIDEN_ITERATIONS,
            },
        )
    }

    /// Communities by label propagation: without weights or fixed labels,
    /// ignoring edge directions, by the fast variant.
    pub fn community_label_propagation(&self) -> (op: Operation)
        requires
            self.stage() is Live,
        ensures
            op@ == Progress::start(
                seq![
                    Action::Init { slot: 0, container: Container::IntVector { size: 0 } },
                    Action::Invoke {
                        call: Call::CommunityLabelPropagation {
                            mode: IGRAPH_ALL,
                            variant: IGRAPH_LPA_FAST,
                        },
                    },
                ],
            ),
    {
        Operation::with_output(
            Container::IntVector { size: 0 },
            Call::CommunityLabelPropagation { mode: IGRAPH_ALL, variant: IGRAPH_LPA_FAST },
        )
    }

    /// Communities by greedy optimisation of modularity, without weights:
    /// the community of every vertex, and the modularity before each merge.
    pub fn community_fastgreedy(&self) -> (op: Operation)
        requires
            self.stage() is Live,
        ensures
            op@ == Progress::start(
                seq![
                    Action::Init { slot: 0, container: Container::IntVector { size: 0 } },
                    Action::Init { slot: 1, container: Container::RealVector { size: 0 } },
                    Action::Invoke { call: Call::CommunityFastgreedy },
                ],
            ),
    {
        Operation::with_outputs(
            Container::IntVector { size: 0 },
            Container::RealVector { size: 0 },
            Call::CommunityFastgreedy,
        )
    }
}

} // verus!
