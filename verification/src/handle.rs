//! Lifecycle of a foreign handle.
//!
//! A handle is storage whose shape only the engine knows.  It starts out
//! uninitialised; one successful initialisation makes it live; the destroy
//! call, made when its owner lets go of it, ends its life.  Storage that was
//! never live is let go of without any call to the engine.

use vstd::prelude::*;
use crate::error::{translate, check, Result, IGRAPH_SUCCESS};

verus! {

/// Where a handle is in its life.
#[derive(Debug, Clone, Copy, PartialEq, Eq, Structural)]
pub enum Stage {
    /// Reserved and not initialised: neither usable nor destroyable.
    Uninit,
    /// Initialised by the engine: usable, and owed one destroy call.
    Live,
    /// The destroy call has been made.
    Destroyed,
}

/// What an owner does with its handle.
#[derive(Debug, Clone, Copy, PartialEq, Eq, Structural)]
pub enum Event {
    /// The initialising call returned this status.
    Init(u32),
    /// The owner lets go of the handle.
    Release,
}

/// The stage after an event.
pub open spec fn next(stage: Stage, event: Event) -> Stage {
    match (stage, event) {
        (Stage::Uninit, Event::Init(status)) => if status == IGRAPH_SUCCESS {
            Stage::Live
        } else {
            Stage::Uninit
        },
        (Stage::Live, Event::Release) => Stage::Destroyed,
        _ => stage,
    }
}

/// Whether the event makes the destroy call: only letting go of a live
/// handle does.
pub open spec fn fires(stage: Stage, event: Event) -> bool {
    stage is Live && event is Release
}

/// The stage after a sequence of events.
pub open spec fn run(stage: Stage, events: Seq<Event>) -> Stage
    decreases events.len(),
{
    if events.len() == 0 {
        stage
    } else {
        run(next(stage, events.first()), events.drop_first())
    }
}

/// How many destroy calls a sequence of events makes.
pub open spec fn destroy_calls(stage: Stage, events: Seq<Event>) -> nat
    decreases events.len(),
{
    if events.len() == 0 {
        0
    } else {
        (if fires(stage, events.first()) {
            1nat
        } else {
            0nat
        }) + destroy_calls(next(stage, events.first()), events.drop_first())
    }
}

/// Whether the handle was live at some point of the sequence.
pub open spec fn ever_live(stage: Stage, events: Seq<Event>) -> bool
    decreases events.len(),
{
    if stage is Live {
        true
    } else if events.len() == 0 {
        false
    } else {
        ever_live(next(stage, events.first()), events.drop_first())
    }
}

/// Whether some event of the sequence lets go of the handle while it is live.
pub open spec fn released_live(stage: Stage, events: Seq<Event>) -> bool
    decreases events.len(),
{
    if events.len() == 0 {
        false
    } else {
        fires(stage, events.first()) || released_live(
            next(stage, events.first()),
            events.drop_first(),
        )
    }
}

/// Whatever an owner does with a handle from any stage on: a destroyed
/// handle is never destroyed again, a live one is destroyed exactly when it
/// is let go of, and then once.
pub proof fn lemma_destroy_calls(stage: Stage, events: Seq<Event>)
    ensures
        stage is Destroyed ==> destroy_calls(stage, events) == 0 && run(stage, events)
            is Destroyed,
        stage is Live ==> destroy_calls(stage, events) == (if released_live(stage, events) {
            1nat
        } else {
            0nat
        }),
        stage is Live ==> (run(stage, events) is Destroyed <==> released_live(stage, events)),
        stage is Live ==> (run(stage, events) is Live <==> !released_live(stage, events)),
    decreases events.len(),
{
    if events.len() > 0 {
        lemma_destroy_calls(next(stage, events.first()), events.drop_first());
    }
}

/// Over the whole life of a handle, the destroy call is made at most once:
/// never if the handle did not become live, and exactly once if it became
/// live and was let go of.  After the call the handle stays destroyed.
pub proof fn lemma_destroyed_once(events: Seq<Event>)
    ensures
        destroy_calls(Stage::Uninit, events) <= 1,
        !ever_live(Stage::Uninit, events) ==> destroy_calls(Stage::Uninit, events) == 0,
        destroy_calls(Stage::Uninit, events) == 1 <==> run(Stage::Uninit, events) is Destroyed,
        destroy_calls(Stage::Uninit, events) == 1 <==> released_live(Stage::Uninit, events),
        run(Stage::Uninit, events) is Destroyed ==> ever_live(Stage::Uninit, events),
    decreases events.len(),
{
    if events.len() > 0 {
        let stage = next(Stage::Uninit, events.first());
        let rest = events.drop_first();
        if stage is Live {
            lemma_destroy_calls(stage, rest);
            assert(ever_live(stage, rest));
        } else {
            lemma_destroyed_once(rest);
        }
    }
}

/// A handle that failed to initialise and is then let go of sees no destroy
/// call; one that initialised and is then let go of sees exactly one, however
/// often its owner lets go of it afterwards.
pub proof fn lemma_construct_then_release(status: u32, releases: nat)
    requires
        releases >= 1,
    ensures
        destroy_calls(
            Stage::Uninit,
            seq![Event::Init(status)] + Seq::new(releases, |i: int| Event::Release),
        ) == (if status == IGRAPH_SUCCESS {
            1nat
        } else {
            0nat
        }),
{
    let events = seq![Event::Init(status)] + Seq::new(releases, |i: int| Event::Release);
    let rest = Seq::new(releases, |i: int| Event::Release);
    assert(events.first() == Event::Init(status));
    assert(events.drop_first() =~= rest);
    if status == IGRAPH_SUCCESS {
        lemma_destroy_calls(Stage::Live, rest);
        assert(fires(Stage::Live, rest.first()));
    } else {
        lemma_destroyed_once(rest);
        lemma_releases_keep_uninit(releases);
    }
}

/// Letting go of storage that never became live leaves it as it is.
proof fn lemma_releases_keep_uninit(releases: nat)
    ensures
        !ever_live(Stage::Uninit, Seq::new(releases, |i: int| Event::Release)),
    decreases releases,
{
    let events = Seq::new(releases, |i: int| Event::Release);
    if releases > 0 {
        assert(events.first() == Event::Release);
        assert(events.drop_first() =~= Seq::new((releases - 1) as nat, |i: int| Event::Release));
        lemma_releases_keep_uninit((releases - 1) as nat);
    }
}

/// The record that an owner keeps of its handle.
#[derive(Debug)]
pub struct Handle {
    stage: Stage,
}

impl Handle {
    /// The stage of the handle.
    pub closed spec fn stage(&self) -> Stage {
        self.stage
    }

    /// Storage that has just been reserved.
    pub fn reserve() -> (h: Handle)
        ensures
            h.stage() is Uninit,
    {
        Handle { stage: Stage::Uninit }
    }

    /// Takes note of the status that the one initialising call returned.
    ///
    /// The handle is live afterwards exactly when the status reports success;
    /// otherwise the translated error is returned and the storage stays
    /// uninitialised.
    pub fn init(&mut self, status: u32) -> (r: Result<()>)
        requires
            old(self).stage() is Uninit,
        ensures
            r == translate(status),
            final(self).stage() == next(old(self).stage(), Event::Init(status)),
    {
        let r = check(status);
        if r.is_ok() {
            self.stage = Stage::Live;
        }
        r
    }

    /// Whether the handle may be used.
    pub fn is_live(&self) -> (b: bool)
        ensures
            b <==> self.stage() is Live,
    {
        match self.stage {
            Stage::Live => true,
            _ => false,
        }
    }

    /// Lets go of the handle.  Returns whether the destroy call has to be
    /// made now: it has for a live handle, and for no other.
    pub fn release(&mut self) -> (destroy: bool)
        ensures
            destroy == fires(old(self).stage(), Event::Release),
            final(self).stage() == next(old(self).stage(), Event::Release),
    {
        match self.stage {
            Stage::Live => {
                self.stage = Stage::Destroyed;
                true
            },
            _ => false,
        }
    }
}

} // verus!
