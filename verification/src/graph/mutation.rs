//! Changing a graph in place.
//!
//! What state the engine leaves a graph in when one of these calls fails is
//! not known; the failure is reported, and the graph stays with its owner.

use vstd::prelude::*;
use vstd::slice::slice_to_vec;
use super::{flat_edges, flatten, Graph};
use crate::call::Call;
use crate::operation::{marshal, Action, Operation, Progress};

verus! {

impl Graph {
    /// Adds `n` vertices.
    pub fn add_vertices(&mut self, n: i64) -> (op: Operation)
        requires
            old(self).stage() is Live,
        ensures
            final(self).stage() == old(self).stage(),
            op@ == Progress::start(seq![Action::Invoke { call: Call::AddVertices { n } }]),
    {
        Operation::plain(Call::AddVertices { n })
    }

    /// Adds the given edges, each a pair of vertex ids.
    pub fn add_edges(&mut self, edges: &[(i64, i64)]) -> (op: Operation)
        requires
            old(self).stage() is Live,
            2 * edges@.len() + 2 < usize::MAX,
        ensures
            final(self).stage() == old(self).stage(),
            op@ == Progress::start(
                marshal(flatten(edges@)) + seq![Action::Invoke { call: Call::AddEdges }],
            ),
    {
        let flat = flat_edges(edges);
        Operation::with_input(flat, Call::AddEdges)
    }

    /// Deletes the vertices with the given ids.
    pub fn delete_vertices(&mut self, vids: &[i64]) -> (op: Operation)
        requires
            old(self).stage() is Live,
            vids@.len() + 2 < usize::MAX,
        ensures
            final(self).stage() == old(self).stage(),
            op@ == Progress::start(
                marshal(vids@) + seq![Action::Invoke { call: Call::DeleteVertices }],
            ),
    {
        Operation::with_input(slice_to_vec(vids), Call::DeleteVertices)
    }

    /// Deletes the edges with the given ids.
    pub fn delete_edges(&mut self, eids: &[i64]) -> (op: Operation)
        requires
            old(self).stage() is Live,
            eids@.len() + 2 < usize::MAX,
        ensures
            final(self).stage() == old(self).stage(),
            op@ == Progress::start(marshal(eids@) + seq![Action::Invoke { call: Call::DeleteEdges }]),
    {
        Operation::with_input(slice_to_vec(eids), Call::DeleteEdges)
    }
}

} // verus!
