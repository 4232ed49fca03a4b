//! Connectedness.

use vstd::prelude::*;
use super::Graph;
use crate::call::{Call, Container};
use crate::operation::{Action, Operation, Progress};
use crate::types::Connectedness;

verus! {

impl Graph {
    /// Whether the graph is connected.
    pub fn is_connected(&self, mode: Connectedness) -> (op: Operation)
        requires
            self.stage() is Live,
        ensures
            op@ == Progress::start(
                seq![Action::Invoke { call: Call::IsConnected { mode: mode.raw() } }],
            ),
    {
        Operation::plain(Call::IsConnected { mode: mode.to_raw() })
    }

    /// The connected components: the component of every vertex, the size of
    /// every component, and how many there are.
    pub fn connected_components(&self, mode: Connectedness) -> (op: Operation)
        requires
            self.stage() is Live,
        ensures
            op@ == Progress::start(
                seq![
                    Action::Init { slot: 0, container: Container::IntVector { size: 0 } },
                    Action::Init { slot: 1, container: Container::IntVector { size: 0 } },
                    Action::Invoke { call: Call::ConnectedComponents { mode: mode.raw() } },
                ],
            ),
    {
        Operation::with_outputs(
            Container::IntVector { size: 0 },
            Container::IntVector { size: 0 },
            Call::ConnectedComponents { mode: mode.to_raw() },
        )
    }
}

} // verus!
