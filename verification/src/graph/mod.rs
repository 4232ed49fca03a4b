//! The owner of a graph handle.
//!
//! A [`Graph`] stands for one live graph of the engine.  It is made by the
//! lifecycle pattern from a constructing operation that has run to its end,
//! it is the only way to ask for operations on that graph, and letting go of
//! it is what makes the one destroy call due.  The methods that name an
//! operation make no call: they return the [`Operation`] or [`Query`] that
//! says which calls are to be made, with every argument that the engine
//! will see.

mod centrality;
mod community;
mod components;
mod constructors;
mod isomorphism;
mod mutation;
mod paths;
mod query;
mod transform;

use vstd::prelude::*;
use crate::error::{Result, IGRAPH_SUCCESS};
use crate::handle::{fires, next, Event, Handle, Stage};
use crate::operation::Operation;

verus! {

/// The flat form in which edges cross the boundary: both end points of the
/// first edge, then both of the second, and so on.
pub open spec fn flatten(edges: Seq<(i64, i64)>) -> Seq<i64> {
    Seq::new(
        2 * edges.len(),
        |i: int|
            if i % 2 == 0 {
                edges[i / 2].0
            } else {
                edges[i / 2].1
            },
    )
}

/// The edges of a flat list: each two neighbouring elements make one edge.
/// An element left over at the end belongs to no edge.
pub open spec fn pair_up(flat: Seq<i64>) -> Seq<(i64, i64)> {
    Seq::new((flat.len() / 2) as nat, |i: int| (flat[2 * i], flat[2 * i + 1]))
}

/// Edges that are flattened and paired up again are the edges one started
/// from.
pub proof fn lemma_pair_up_flatten(edges: Seq<(i64, i64)>)
    ensures
        pair_up(flatten(edges)) == edges,
{
    assert(pair_up(flatten(edges)) =~= edges);
}

/// The flat form of `edges`.
pub(crate) fn flat_edges(edges: &[(i64, i64)]) -> (flat: Vec<i64>)
    ensures
        flat@ == flatten(edges@),
{
    let mut flat: Vec<i64> = Vec::new();
    let mut i: usize = 0;
    while i < edges.len()
        invariant
            i <= edges@.len(),
            flat@ == flatten(edges@.take(i as int)),
        decreases edges@.len() - i,
    {
        let (from, to) = edges[i];
        flat.push(from);
        flat.push(to);
        proof {
            assert(flat@ =~= flatten(edges@.take(i + 1)));
        }
        i += 1;
    }
    proof {
        assert(edges@.take(edges@.len() as int) =~= edges@);
    }
    flat
}

/// `core::cell::Cell`, a type that may move to another thread and may not be
/// shared between threads.  Nothing is claimed of its contents, and no value
/// of it is ever made: it only marks [`Graph`].
#[verifier::external_type_specification]
#[verifier::external_body]
#[verifier::reject_recursive_types(T)]
pub struct ExCell<T: ?Sized>(core::cell::Cell<T>);

/// The owner of one graph of the engine.
///
/// An owner may be handed to another thread.  It cannot be shared between
/// threads: the engine may write to a graph even in a call that only reads.
#[derive(Debug)]
pub struct Graph {
    handle: Handle,
    unshared: core::marker::PhantomData<core::cell::Cell<()>>,
}

impl Graph {
    /// Where the graph's handle is in its life.
    pub closed spec fn stage(&self) -> Stage {
        self.handle.stage()
    }

    /// Wraps the handle that a constructing operation has initialised.
    ///
    /// The operation must have run to its end.  If it ended with success its
    /// call has initialised the handle, and the owner of the now live graph
    /// is returned.  If it met a failure the handle was never live: no owner
    /// is made for it, no destroy call will ever be due, and the failure is
    /// returned.
    pub fn init_with(op: Operation) -> (r: Result<Graph>)
        requires
            op@.is_done(),
            op@.script.len() > 0,
            op@.script.last() is Invoke,
            op@.script.last()->Invoke_call.constructs(),
        ensures
            op@.failure is None ==> r is Ok && r->Ok_0.stage() is Live,
            op@.failure is Some ==> r is Err && r->Err_0 == op@.failure->Some_0,
    {
        match op.failure() {
            Some(e) => Err(e),
            None => {
                // The call that initialises the handle was answered with success.
                let mut handle = Handle::reserve();
                match handle.init(IGRAPH_SUCCESS) {
                    Ok(()) => Ok(Graph { handle, unshared: core::marker::PhantomData }),
                    Err(e) => Err(e),
                }
            },
        }
    }

    /// Whether the graph may be used.
    pub fn is_live(&self) -> (b: bool)
        ensures
            b <==> self.stage() is Live,
    {
        self.handle.is_live()
    }

    /// Lets go of the graph.  Returns whether the destroy call has to be
    /// made now: it has the first time, and never again.
    pub fn release(&mut self) -> (destroy: bool)
        ensures
            destroy == fires(old(self).stage(), Event::Release),
            final(self).stage() == next(old(self).stage(), Event::Release),
            destroy <==> old(self).stage() is Live,
            !(final(self).stage() is Live),
    {
        self.handle.release()
    }
}

} // verus!
