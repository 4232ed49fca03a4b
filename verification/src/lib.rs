//! The verified core of a safety boundary over the igraph engine.
//!
//! The engine is a native library behind a C interface: opaque structures,
//! paired init and destroy functions, integer status codes.  This crate
//! decides everything about a call of the engine except making it: which
//! calls an operation consists of and with which arguments, what a status
//! code means, when a handle may be used and when it has to be destroyed,
//! and how numeric containers are turned into host sequences and back.
//! Whoever links the engine performs the calls that an [`Operation`] names
//! and reports back what the engine answered.

pub mod call;
pub mod error;
pub mod graph;
pub mod handle;
pub mod matrix;
pub mod operation;
pub mod types;
pub mod vector;

pub use call::{Call, Container, Query};
pub use error::{check, Error, Result};
pub use graph::Graph;
pub use handle::{Handle, Stage};
pub use matrix::Matrix;
pub use operation::{Action, Operation};
pub use types::{
    Connectedness, Loops, NeighborMode, Real, StarMode, ToDirectedMode, ToUndirectedMode,
    TreeMode,
};
pub use vector::{Vector, VectorInt, VectorIntList};
