//! Operations that make a new graph.
//!
//! Each returns the operation whose call initialises a fresh graph handle;
//! once it has run, [`Graph::init_with`] wraps the result.

use vstd::prelude::*;
use vstd::string::StringSliceAdditionalSpecFns;
use super::{flat_edges, flatten, Graph};
use crate::call::{
    Call, IGRAPH_BARABASI_PSUMTREE, IGRAPH_LOOPS_SW, IGRAPH_SIMPLE_SW, ONE_BITS,
};
use crate::error::{Error, Result};
use crate::operation::{marshal, Action, Operation, Progress};
use crate::types::{Real, StarMode, TreeMode};

verus! {

/// Whether a byte string holds a zero byte, which would end it early on the
/// engine's side.
pub open spec fn has_nul(bytes: Seq<u8>) -> bool {
    exists|i: int| 0 <= i < bytes.len() && bytes[i] == 0
}

/// The edge-type switch for a random graph: self-loops allowed or not, and
/// no multi-edges either way.
pub open spec fn edge_types(loops: bool) -> u32 {
    if loops {
        IGRAPH_LOOPS_SW
    } else {
        IGRAPH_SIMPLE_SW
    }
}

impl Graph {
    /// A graph with `n` vertices and no edge.
    pub fn empty(n: i64, directed: bool) -> (op: Operation)
        ensures
            op@ == Progress::start(seq![Action::Invoke { call: Call::Empty { n, directed } }]),
    {
        Operation::plain(Call::Empty { n, directed })
    }

    /// A graph with the given edges, each a pair of vertex ids, and at least
    /// `n` vertices.
    ///
    /// The edges reach the engine as a flat integer vector, filled one
    /// element at a time.
    pub fn from_edges(edges: &[(i64, i64)], n: i64, directed: bool) -> (op: Operation)
        requires
            2 * edges@.len() + 2 < usize::MAX,
        ensures
            op@ == Progress::start(
                marshal(flatten(edges@)) + seq![Action::Invoke { call: Call::Create { n, directed } }],
            ),
    {
        let flat = flat_edges(edges);
        Operation::with_input(flat, Call::Create { n, directed })
    }

    /// A graph from the engine's collection, by name.
    ///
    /// A name that holds a zero byte is refused here with `InvalidValue`; it
    /// never reaches the engine.
    pub fn famous(name: &str) -> (r: Result<Operation>)
        ensures
            has_nul(name.spec_bytes()) ==> r is Err && r->Err_0 == Error::InvalidValue,
            !has_nul(name.spec_bytes()) ==> r is Ok && r->Ok_0@ == Progress::start(
                seq![Action::Invoke { call: Call::Famous }],
            ),
    {
        let bytes = name.as_bytes();
        let mut i: usize = 0;
        while i < bytes.len()
            invariant
                i <= bytes@.len(),
                bytes@ == name.spec_bytes(),
                forall|k: int| 0 <= k < i ==> bytes@[k] != 0,
            decreases bytes@.len() - i,
        {
            if bytes[i] == 0 {
                return Err(Error::InvalidValue);
            }
            i += 1;
        }
        Ok(Operation::plain(Call::Famous))
    }

    /// A ring on `n` vertices.
    pub fn ring(n: i64, directed: bool, mutual: bool, circular: bool) -> (op: Operation)
        ensures
            op@ == Progress::start(
                seq![Action::Invoke { call: Call::Ring { n, directed, mutual, circular } }],
            ),
    {
        Operation::plain(Call::Ring { n, directed, mutual, circular })
    }

    /// A star on `n` vertices around `center`.
    pub fn star(n: i64, mode: StarMode, center: i64) -> (op: Operation)
        ensures
            op@ == Progress::start(
                seq![Action::Invoke { call: Call::Star { n, mode: mode.raw(), center } }],
            ),
    {
        Operation::plain(Call::Star { n, mode: mode.to_raw(), center })
    }

    /// The complete graph on `n` vertices.
    pub fn full(n: i64, directed: bool, loops: bool) -> (op: Operation)
        ensures
            op@ == Progress::start(seq![Action::Invoke { call: Call::Full { n, directed, loops } }]),
    {
        Operation::plain(Call::Full { n, directed, loops })
    }

    /// A tree on `n` vertices in which every vertex has `children` children.
    pub fn kary_tree(n: i64, children: i64, mode: TreeMode) -> (op: Operation)
        ensures
            op@ == Progress::start(
                seq![Action::Invoke { call: Call::KaryTree { n, children, mode: mode.raw() } }],
            ),
    {
        Operation::plain(Call::KaryTree { n, children, mode: mode.to_raw() })
    }

    /// A random graph on `n` vertices in which each edge is present with
    /// probability `p`.  Never with multi-edges, nor with labelled edges.
    pub fn erdos_renyi_gnp(n: i64, p: Real, directed: bool, loops: bool) -> (op: Operation)
        ensures
            op@ == Progress::start(
                seq![
                    Action::Invoke {
                        call: Call::ErdosRenyiGnp {
                            n,
                            p,
                            directed,
                            edge_types: edge_types(loops),
                            edge_labeled: false,
                        },
                    },
                ],
            ),
    {
        let edge_types = if loops {
            IGRAPH_LOOPS_SW
        } else {
            IGRAPH_SIMPLE_SW
        };
        Operation::plain(Call::ErdosRenyiGnp { n, p, directed, edge_types, edge_labeled: false })
    }

    /// A random graph on `n` vertices with `m` edges.  Never with
    /// multi-edges, nor with labelled edges.
    pub fn erdos_renyi_gnm(n: i64, m: i64, directed: bool, loops: bool) -> (op: Operation)
        ensures
            op@ == Progress::start(
                seq![
                    Action::Invoke {
                        call: Call::ErdosRenyiGnm {
                            n,
                            m,
                            directed,
                            edge_types: edge_types(loops),
                            edge_labeled: false,
                        },
                    },
                ],
            ),
    {
        let edge_types = if loops {
            IGRAPH_LOOPS_SW
        } else {
            IGRAPH_SIMPLE_SW
        };
        Operation::plain(Call::ErdosRenyiGnm { n, m, directed, edge_types, edge_labeled: false })
    }

    /// A graph on `n` vertices grown by preferential attachment, `m` edges
    /// for each new vertex.
    ///
    /// Attachment is linear in the degree (power one, attractiveness one of
    /// a vertex without edges), counts in-degree only, and starts from
    /// nothing.
    pub fn barabasi(n: i64, m: i64, directed: bool) -> (op: Operation)
        ensures
            op@ == Progress::start(
                seq![
                    Action::Invoke {
                        call: Call::Barabasi {
                            n,
                            power: Real { bits: ONE_BITS },
                            m,
                            outpref: false,
                            a: Real { bits: ONE_BITS },
                            directed,
                            algorithm: IGRAPH_BARABASI_PSUMTREE,
                        },
                    },
                ],
            ),
    {
        Operation::plain(
            Call::Barabasi {
                n,
                power: Real::from_bits(ONE_BITS),
                m,
                outpref: false,
                a: Real::from_bits(ONE_BITS),
                directed,
                algorithm: IGRAPH_BARABASI_PSUMTREE,
            },
        )
    }
}

} // verus!
