//! Argument types of the boundary: the mode enumerations, with the
//! integers that the engine reads them as, and real numbers.

use vstd::prelude::*;

verus! {

/// A double-precision real, carried by its IEEE 754 bit pattern.
///
/// Reals only pass through this crate: they are handed to the engine and
/// taken back from it unchanged, and no arithmetic is done on them.  Two
/// values are equal when their bit patterns are, so a NaN is equal to itself
/// and the two zeros differ.
#[derive(Debug, Clone, Copy, PartialEq, Eq, Structural)]
pub struct Real {
    pub bits: u64,
}

impl Real {
    /// Positive zero, the value that a fresh container is filled with.
    pub fn zero() -> (r: Real)
        ensures
            r.bits == 0,
    {
        Real { bits: 0 }
    }

    /// The real with the given bit pattern.
    pub fn from_bits(bits: u64) -> (r: Real)
        ensures
            r.bits == bits,
    {
        Real { bits }
    }

    /// The bit pattern of this real.
    pub fn to_bits(self) -> (bits: u64)
        ensures
            bits == self.bits,
    {
        self.bits
    }
}

/// Which of a vertex's edges a query follows.
#[derive(Debug, Clone, Copy, PartialEq, Eq, Structural)]
pub enum NeighborMode {
    Out,
    In,
    All,
}

pub const IGRAPH_OUT: u32 = 1;

pub const IGRAPH_IN: u32 = 2;

pub const IGRAPH_ALL: u32 = 3;

impl NeighborMode {
    pub open spec fn raw(self) -> u32 {
        match self {
            NeighborMode::Out => IGRAPH_OUT,
            NeighborMode::In => IGRAPH_IN,
            NeighborMode::All => IGRAPH_ALL,
        }
    }

    /// The engine's integer for this mode.
    pub fn to_raw(self) -> (r: u32)
        ensures
            r == self.raw(),
    {
        match self {
            NeighborMode::Out => IGRAPH_OUT,
            NeighborMode::In => IGRAPH_IN,
            NeighborMode::All => IGRAPH_ALL,
        }
    }
}

/// Whether edge directions count when asking for connectedness.
#[derive(Debug, Clone, Copy, PartialEq, Eq, Structural)]
pub enum Connectedness {
    Weak,
    Strong,
}

pub const IGRAPH_WEAK: u32 = 1;

pub const IGRAPH_STRONG: u32 = 2;

impl Connectedness {
    pub open spec fn raw(self) -> u32 {
        match self {
            Connectedness::Weak => IGRAPH_WEAK,
            Connectedness::Strong => IGRAPH_STRONG,
        }
    }

    /// The engine's integer for this mode.
    pub fn to_raw(self) -> (r: u32)
        ensures
            r == self.raw(),
    {
        match self {
            Connectedness::Weak => IGRAPH_WEAK,
            Connectedness::Strong => IGRAPH_STRONG,
        }
    }
}

/// How a self-loop counts towards a degree.
#[derive(Debug, Clone, Copy, PartialEq, Eq, Structural)]
pub enum Loops {
    No,
    Twice,
    Once,
}

pub const IGRAPH_NO_LOOPS: u32 = 0;

pub const IGRAPH_LOOPS_TWICE: u32 = 1;

pub const IGRAPH_LOOPS_ONCE: u32 = 2;

impl Loops {
    pub open spec fn raw(self) -> u32 {
        match self {
            Loops::No => IGRAPH_NO_LOOPS,
            Loops::Twice => IGRAPH_LOOPS_TWICE,
            Loops::Once => IGRAPH_LOOPS_ONCE,
        }
    }

    /// The engine's integer for this mode.
    pub fn to_raw(self) -> (r: u32)
        ensures
            r == self.raw(),
    {
        match self {
            Loops::No => IGRAPH_NO_LOOPS,
            Loops::Twice => IGRAPH_LOOPS_TWICE,
            Loops::Once => IGRAPH_LOOPS_ONCE,
        }
    }
}

/// Direction of the edges of a star graph.
#[derive(Debug, Clone, Copy, PartialEq, Eq, Structural)]
pub enum StarMode {
    Out,
    In,
    Undirected,
    Mutual,
}

pub const IGRAPH_STAR_OUT: u32 = 0;

pub const IGRAPH_STAR_IN: u32 = 1;

pub const IGRAPH_STAR_UNDIRECTED: u32 = 2;

pub const IGRAPH_STAR_MUTUAL: u32 = 3;

impl StarMode {
    pub open spec fn raw(self) -> u32 {
        match self {
            StarMode::Out => IGRAPH_STAR_OUT,
            StarMode::In => IGRAPH_STAR_IN,
            StarMode::Undirected => IGRAPH_STAR_UNDIRECTED,
            StarMode::Mutual => IGRAPH_STAR_MUTUAL,
        }
    }

    /// The engine's integer for this mode.
    pub fn to_raw(self) -> (r: u32)
        ensures
            r == self.raw(),
    {
        match self {
            StarMode::Out => IGRAPH_STAR_OUT,
            StarMode::In => IGRAPH_STAR_IN,
            StarMode::Undirected => IGRAPH_STAR_UNDIRECTED,
            StarMode::Mutual => IGRAPH_STAR_MUTUAL,
        }
    }
}

/// Direction of the edges of a tree.
#[derive(Debug, Clone, Copy, PartialEq, Eq, Structural)]
pub enum TreeMode {
    Out,
    In,
    Undirected,
}

pub const IGRAPH_TREE_OUT: u32 = 0;

pub const IGRAPH_TREE_IN: u32 = 1;

pub const IGRAPH_TREE_UNDIRECTED: u32 = 2;

impl TreeMode {
    pub open spec fn raw(self) -> u32 {
        match self {
            TreeMode::Out => IGRAPH_TREE_OUT,
            TreeMode::In => IGRAPH_TREE_IN,
            TreeMode::Undirected => IGRAPH_TREE_UNDIRECTED,
        }
    }

    /// The engine's integer for this mode.
    pub fn to_raw(self) -> (r: u32)
        ensures
            r == self.raw(),
    {
        match self {
            TreeMode::Out => IGRAPH_TREE_OUT,
            TreeMode::In => IGRAPH_TREE_IN,
            TreeMode::Undirected => IGRAPH_TREE_UNDIRECTED,
        }
    }
}

/// How an undirected edge becomes directed.
#[derive(Debug, Clone, Copy, PartialEq, Eq, Structural)]
pub enum ToDirectedMode {
    Arbitrary,
    Mutual,
    Random,
    Acyclic,
}

pub const IGRAPH_TO_DIRECTED_ARBITRARY: u32 = 0;

pub const IGRAPH_TO_DIRECTED_MUTUAL: u32 = 1;

pub const IGRAPH_TO_DIRECTED_RANDOM: u32 = 2;

pub const IGRAPH_TO_DIRECTED_ACYCLIC: u32 = 3;

impl ToDirectedMode {
    pub open spec fn raw(self) -> u32 {
        match self {
            ToDirectedMode::Arbitrary => IGRAPH_TO_DIRECTED_ARBITRARY,
            ToDirectedMode::Mutual => IGRAPH_TO_DIRECTED_MUTUAL,
            ToDirectedMode::Random => IGRAPH_TO_DIRECTED_RANDOM,
            ToDirectedMode::Acyclic => IGRAPH_TO_DIRECTED_ACYCLIC,
        }
    }

    /// The engine's integer for this mode.
    pub fn to_raw(self) -> (r: u32)
        ensures
            r == self.raw(),
    {
        match self {
            ToDirectedMode::Arbitrary => IGRAPH_TO_DIRECTED_ARBITRARY,
            ToDirectedMode::Mutual => IGRAPH_TO_DIRECTED_MUTUAL,
            ToDirectedMode::Random => IGRAPH_TO_DIRECTED_RANDOM,
            ToDirectedMode::Acyclic => IGRAPH_TO_DIRECTED_ACYCLIC,
        }
    }
}

/// How directed edges between two vertices become undirected.
#[derive(Debug, Clone, Copy, PartialEq, Eq, Structural)]
pub enum ToUndirectedMode {
    Each,
    Collapse,
    Mutual,
}

pub const IGRAPH_TO_UNDIRECTED_EACH: u32 = 0;

pub const IGRAPH_TO_UNDIRECTED_COLLAPSE: u32 = 1;

pub const IGRAPH_TO_UNDIRECTED_MUTUAL: u32 = 2;

impl ToUndirectedMode {
    pub open spec fn raw(self) -> u32 {
        match self {
            ToUndirectedMode::Each => IGRAPH_TO_UNDIRECTED_EACH,
            ToUndirectedMode::Collapse => IGRAPH_TO_UNDIRECTED_COLLAPSE,
            ToUndirectedMode::Mutual => IGRAPH_TO_UNDIRECTED_MUTUAL,
        }
    }

    /// The engine's integer for this mode.
    pub fn to_raw(self) -> (r: u32)
        ensures
            r == self.raw(),
    {
        match self {
            ToUndirectedMode::Each => IGRAPH_TO_UNDIRECTED_EACH,
            ToUndirectedMode::Collapse => IGRAPH_TO_UNDIRECTED_COLLAPSE,
            ToUndirectedMode::Mutual => IGRAPH_TO_UNDIRECTED_MUTUAL,
        }
    }
}

} // verus!
