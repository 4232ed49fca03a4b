//! The catalogue of foreign calls.
//!
//! A value here describes one call of the engine by plain values: which
//! function, and every argument that is not a handle.  Handles are told by
//! position: a call that reads or fills containers uses the containers of
//! its operation in the order in which the operation allocates them, and a
//! call on a graph is made on the graph whose owner asked for it.

use vstd::prelude::*;
use crate::types::Real;

verus! {

/// Edge-type switch: neither self-loops nor multi-edges.
pub const IGRAPH_SIMPLE_SW: u32 = 0;

/// Edge-type switch: self-loops allowed.
pub const IGRAPH_LOOPS_SW: u32 = 1;

/// Preferential attachment by partial prefix-sum tree, without multi-edges.
pub const IGRAPH_BARABASI_PSUMTREE: u32 = 1;

/// Let the engine choose how to build an induced subgraph.
pub const IGRAPH_SUBGRAPH_AUTO: u32 = 0;

/// PageRank by the PRPACK solver.
pub const IGRAPH_PAGERANK_ALGO_PRPACK: u32 = 2;

/// The fast variant of label propagation.
pub const IGRAPH_LPA_FAST: u32 = 2;

/// Bit pattern of the real number 1.
pub const ONE_BITS: u64 = 0x3FF0_0000_0000_0000;

/// Bit pattern of the real number closest to 0.01.
pub const ONE_HUNDREDTH_BITS: u64 = 0x3F84_7AE1_47AE_147B;

/// Number of rounds that the Leiden method is given.
pub const LEIDEN_ITERATIONS: i64 = 10;

/// A container for the engine to allocate, with its initial size.
#[derive(Debug, Clone, Copy, PartialEq, Eq, Structural)]
pub enum Container {
    IntVector { size: i64 },
    RealVector { size: i64 },
    Matrix { nrow: i64, ncol: i64 },
    IntVectorList { size: i64 },
}

/// A getter of the engine.  It returns its answer directly: there is no
/// status and no way to fail.
#[derive(Debug, Clone, Copy, PartialEq, Eq, Structural)]
pub enum Query {
    /// Number of vertices.
    Vcount,
    /// Number of edges.
    Ecount,
    /// Whether the graph is directed.
    IsDirected,
}

/// A fallible call of the engine, answered by a status code.
///
/// Optional arguments that this crate never supplies (weights, attribute
/// tables, colourings, callbacks, maps from old to new edge ids) are left
/// out: the call is made without them.  Where a call takes a vertex or edge
/// selection and none is named, it is made on all of them.
#[allow(inconsistent_fields)]
#[derive(Debug, Clone, Copy, PartialEq, Eq, Structural)]
pub enum Call {
    /// New graph with `n` vertices and no edge.
    Empty { n: i64, directed: bool },
    /// New graph from the flat edge list in container 0.
    Create { n: i64, directed: bool },
    /// New graph from the engine's collection of named graphs.  The name is
    /// the one that the operation was asked for.
    Famous,
    /// New ring graph.
    Ring { n: i64, directed: bool, mutual: bool, circular: bool },
    /// New star graph.
    Star { n: i64, mode: u32, center: i64 },
    /// New complete graph.
    Full { n: i64, directed: bool, loops: bool },
    /// New tree in which every vertex has `children` children.
    KaryTree { n: i64, children: i64, mode: u32 },
    /// New random graph, each edge present with probability `p`.
    ErdosRenyiGnp { n: i64, p: Real, directed: bool, edge_types: u32, edge_labeled: bool },
    /// New random graph with `m` edges.
    ErdosRenyiGnm { n: i64, m: i64, directed: bool, edge_types: u32, edge_labeled: bool },
    /// New graph grown by preferential attachment.
    Barabasi {
        n: i64,
        power: Real,
        m: i64,
        outpref: bool,
        a: Real,
        directed: bool,
        algorithm: u32,
    },
    /// Neighbours of `vid`, into container 0.
    Neighbors { vid: i64, mode: u32, loops: u32, multiple: bool },
    /// Degree of every vertex, into container 0.
    Degree { mode: u32, loops: u32 },
    /// End points of edge `eid`.
    Edge { eid: i64 },
    /// Whether an edge joins `v1` and `v2`.
    AreAdjacent { v1: i64, v2: i64 },
    /// Flat edge list, into container 0.
    GetEdgelist { bycol: bool },
    /// Adds `n` vertices.
    AddVertices { n: i64 },
    /// Adds the edges of the flat edge list in container 0.
    AddEdges,
    /// Deletes the vertices listed in container 0.
    DeleteVertices,
    /// Deletes the edges listed in container 0.
    DeleteEdges,
    /// Removes multi-edges, self-loops, or both.
    Simplify { remove_multiple: bool, remove_loops: bool },
    /// Makes the graph directed.
    ToDirected { mode: u32 },
    /// Makes the graph undirected.
    ToUndirected { mode: u32 },
    /// New graph induced by the vertices listed in container 0.
    InducedSubgraph { implementation: u32 },
    /// New graph that is the union of this graph and another.
    Union,
    /// Length of the shortest path between every two vertices, into the
    /// matrix in container 0.
    Distances { mode: u32 },
    /// Length of the longest shortest path.
    Diameter { directed: bool, unconnected: bool },
    /// Betweenness of every vertex, into container 0.
    Betweenness { directed: bool, normalized: bool },
    /// Closeness of every vertex, into container 0.
    Closeness { mode: u32, normalized: bool },
    /// PageRank of every vertex, into container 0.
    Pagerank { damping: Real, directed: bool, algorithm: u32 },
    /// Whether the graph is connected.
    IsConnected { mode: u32 },
    /// Component of every vertex into container 0, size of every component
    /// into container 1, and the number of components.
    ConnectedComponents { mode: u32 },
    /// Number of subgraphs of this graph that are isomorphic to another.
    CountSubisomorphismsVf2,
    /// Every mapping of another graph onto a subgraph of this one, into the
    /// list in container 0.
    GetSubisomorphismsVf2,
    /// Communities by the Leiden method: community of every vertex into
    /// container 0, number of communities, and quality.
    CommunityLeiden { resolution: Real, beta: Real, start: bool, n_iterations: i64 },
    /// Communities by label propagation, into container 0.
    CommunityLabelPropagation { mode: u32, variant: u32 },
    /// Communities by greedy optimisation of modularity: community of every
    /// vertex into container 0, modularity before each merge into
    /// container 1.
    CommunityFastgreedy,
}

impl Call {
    /// Whether the call initialises a new graph handle.
    pub open spec fn constructs(self) -> bool {
        ||| self is Empty
        ||| self is Create
        ||| self is Famous
        ||| self is Ring
        ||| self is Star
        ||| self is Full
        ||| self is KaryTree
        ||| self is ErdosRenyiGnp
        ||| self is ErdosRenyiGnm
        ||| self is Barabasi
        ||| self is InducedSubgraph
        ||| self is Union
    }

    /// Whether the call initialises a new graph handle.
    pub fn is_constructor(&self) -> (b: bool)
        ensures
            b == self.constructs(),
    {
        match self {
            Call::Empty { .. }
            | Call::Create { .. }
            | Call::Famous
            | Call::Ring { .. }
            | Call::Star { .. }
            | Call::Full { .. }
            | Call::KaryTree { .. }
            | Call::ErdosRenyiGnp { .. }
            | Call::ErdosRenyiGnm { .. }
            | Call::Barabasi { .. }
            | Call::InducedSubgraph { .. }
            | Call::Union => true,
            _ => false,
        }
    }
}

} // verus!
