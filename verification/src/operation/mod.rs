//! One operation at the boundary, as a sequence of foreign calls.
//!
//! An operation allocates its containers one by one, fills those that carry
//! arguments element by element, and then makes its one call of the engine.
//! Each of these steps is answered by a status code.  The first failure ends
//! the operation: no further step is made, and every container that was
//! allocated up to then is destroyed before the error is reported.  After
//! success the results are collected, and then the containers are destroyed.
//!
//! An [`Operation`] makes no call itself.  It says which call is due
//! ([`Operation::action`]) and is told what the engine answered
//! ([`Operation::advance`]); whoever holds the handles makes the call.

mod laws;
mod script;

use vstd::prelude::*;
use crate::call::{Call, Container};
use crate::error::{check, error_of, Error, Result, IGRAPH_SUCCESS};

pub use laws::{
    allocation_of, course, course_result, destroys, first_failure, initialised,
    lemma_container_life, lemma_destroyed_exactly_once, lemma_failed_append,
    lemma_first_failure, lemma_result, lemma_trace, life, occurrences, trace,
};
pub use script::{
    allocated, allocations, input_steps, lemma_allocations_monotone, lemma_marshal_appends,
    lemma_plan_allocations, lemma_plan_well_formed, lemma_plans, marshal, plan, reserve,
    well_formed,
};

verus! {

/// What is due next in an operation.
#[derive(Debug, Clone, Copy, PartialEq, Eq)]
pub enum Action {
    /// Allocate a container and keep it under the number `slot`.  Answered
    /// by a status.
    Init { slot: usize, container: Container },
    /// Append `value` to the integer vector in `slot`.  Answered by a
    /// status.
    Append { slot: usize, value: i64 },
    /// Make the operation's call.  Answered by a status.
    Invoke { call: Call },
    /// The call has succeeded: take its results out of the containers.
    Collect,
    /// Destroy the container in `slot`.
    Destroy { slot: usize },
    /// Nothing is left to do; this is how the operation ended.
    Done { result: Result<()> },
}

/// How far an operation has come.
pub struct Progress {
    /// The steps that are answered by a status, in order.
    pub script: Seq<Action>,
    /// How many of them have been answered with success.
    pub pc: int,
    /// The first failure, once there is one.
    pub failure: Option<Error>,
    /// Whether the results have been collected.
    pub collected: bool,
    /// How many containers have been destroyed.
    pub released: int,
}

impl Progress {
    /// An operation of which nothing has been done yet.
    pub open spec fn start(script: Seq<Action>) -> Progress {
        Progress { script, pc: 0, failure: None, collected: false, released: 0 }
    }

    /// Number of containers that have been allocated.
    pub open spec fn live(self) -> int {
        allocations(self.script, self.pc)
    }

    /// Whether a step of the script is due.
    pub open spec fn running(self) -> bool {
        self.failure is None && !self.collected && 0 <= self.pc < self.script.len()
    }

    /// Whether the results are due to be collected.
    pub open spec fn collecting(self) -> bool {
        self.failure is None && !self.collected && !(0 <= self.pc < self.script.len())
    }

    /// Whether a container is due to be destroyed.
    pub open spec fn releasing(self) -> bool {
        (self.failure is Some || self.collected) && self.released < self.live()
    }

    /// Whether nothing is left to do.
    pub open spec fn is_done(self) -> bool {
        (self.failure is Some || self.collected) && self.released >= self.live()
    }

    /// How the operation ends.
    pub open spec fn result(self) -> Result<()> {
        match self.failure {
            Some(e) => Err(e),
            None => Ok(()),
        }
    }

    /// What is due next.  Containers are destroyed last allocated first.
    pub open spec fn action(self) -> Action {
        if self.running() {
            self.script[self.pc]
        } else if self.collecting() {
            Action::Collect
        } else if self.releasing() {
            Action::Destroy { slot: (self.live() - 1 - self.released) as usize }
        } else {
            Action::Done { result: self.result() }
        }
    }

    /// The progress after the action that was due has been taken and, where
    /// it is a step of the script, answered by `status`.
    pub open spec fn advance(self, status: u32) -> Progress {
        if self.running() {
            if status == IGRAPH_SUCCESS {
                Progress { pc: self.pc + 1, ..self }
            } else {
                Progress { failure: Some(error_of(status)), ..self }
            }
        } else if self.collecting() {
            Progress { collected: true, ..self }
        } else if self.releasing() {
            Progress { released: self.released + 1, ..self }
        } else {
            self
        }
    }

    /// An upper bound on the number of actions that are left.
    pub open spec fn fuel(self) -> nat {
        let steps = if self.running() {
            2 * (self.script.len() - self.pc) + 1
        } else if self.collecting() {
            1
        } else {
            0
        };
        let pending = if self.released < self.live() {
            self.live() - self.released
        } else {
            0
        };
        (steps + pending) as nat
    }
}

/// A driver of foreign calls for one operation.
#[derive(Debug)]
pub struct Operation {
    input: Option<Vec<i64>>,
    outputs: Vec<Container>,
    call: Call,
    pc: usize,
    failure: Option<Error>,
    collected: bool,
    released: usize,
}

impl View for Operation {
    type V = Progress;

    closed spec fn view(&self) -> Progress {
        Progress {
            script: plan(self.input_view(), self.outputs@, self.call),
            pc: self.pc as int,
            failure: self.failure,
            collected: self.collected,
            released: self.released as int,
        }
    }
}

impl Operation {
    spec fn input_view(self) -> Option<Seq<i64>> {
        match self.input {
            Some(data) => Some(data@),
            None => None,
        }
    }

    #[verifier::type_invariant]
    spec fn consistent(self) -> bool {
        &&& input_steps(self.input_view()) + self.outputs@.len() + 1 <= usize::MAX
        &&& self.pc <= input_steps(self.input_view()) + self.outputs@.len() + 1
        &&& self.failure is Some ==> self.pc < input_steps(self.input_view()) + self.outputs@.len()
            + 1
        &&& self.collected ==> self.pc == input_steps(self.input_view()) + self.outputs@.len() + 1
            && self.failure is None
        &&& self.released <= allocated(
            self.input_view(),
            self.outputs@.len() as int,
            self.pc as int,
        )
        &&& self.released > 0 ==> self.failure is Some || self.collected
    }

    /// The operation that follows the plan of `input`, `outputs` and `call`,
    /// with nothing done yet.
    fn start(input: Option<Vec<i64>>, outputs: Vec<Container>, call: Call) -> (op: Operation)
        requires
            input is Some ==> input->Some_0@.len() + outputs@.len() + 2 <= usize::MAX,
            input is None ==> outputs@.len() + 1 <= usize::MAX,
        ensures
            op@ == Progress::start(
                plan(
                    match input {
                        Some(data) => Some(data@),
                        None => None,
                    },
                    outputs@,
                    call,
                ),
            ),
    {
        Operation { input, outputs, call, pc: 0, failure: None, collected: false, released: 0 }
    }

    /// The operation that makes `call` and needs no container.
    pub(crate) fn plain(call: Call) -> (op: Operation)
        ensures
            op@ == Progress::start(seq![Action::Invoke { call }]),
    {
        let outputs: Vec<Container> = Vec::new();
        proof {
            assert(outputs@ =~= seq![]);
            lemma_plans(
                Container::IntVector { size: 0 },
                Container::IntVector { size: 0 },
                seq![],
                call,
            );
        }
        Operation::start(None, outputs, call)
    }

    /// The operation that allocates one container for results and then makes
    /// `call`.
    pub(crate) fn with_output(output: Container, call: Call) -> (op: Operation)
        ensures
            op@ == Progress::start(
                seq![Action::Init { slot: 0, container: output }, Action::Invoke { call }],
            ),
    {
        let mut outputs: Vec<Container> = Vec::new();
        outputs.push(output);
        proof {
            assert(outputs@ =~= seq![output]);
            lemma_plans(output, output, seq![], call);
        }
        Operation::start(None, outputs, call)
    }

    /// The operation that allocates two containers for results, in this
    /// order, and then makes `call`.
    pub(crate) fn with_outputs(first: Container, second: Container, call: Call) -> (op: Operation)
        ensures
            op@ == Progress::start(
                seq![
                    Action::Init { slot: 0, container: first },
                    Action::Init { slot: 1, container: second },
                    Action::Invoke { call },
                ],
            ),
    {
        let mut outputs: Vec<Container> = Vec::new();
        outputs.push(first);
        outputs.push(second);
        proof {
            assert(outputs@ =~= seq![first, second]);
            lemma_plans(first, second, seq![], call);
        }
        Operation::start(None, outputs, call)
    }

    /// The operation that hands `data` to the engine in a fresh integer
    /// vector, one element at a time, and then makes `call`.
    pub(crate) fn with_input(data: Vec<i64>, call: Call) -> (op: Operation)
        requires
            data@.len() + 2 <= usize::MAX,
        ensures
            op@ == Progress::start(marshal(data@) + seq![Action::Invoke { call }]),
    {
        let outputs: Vec<Container> = Vec::new();
        proof {
            assert(outputs@ =~= seq![]);
            lemma_plans(
                Container::IntVector { size: 0 },
                Container::IntVector { size: 0 },
                data@,
                call,
            );
        }
        Operation::start(Some(data), outputs, call)
    }

    /// Number of steps that are answered by a status.
    fn steps(&self) -> (n: usize)
        ensures
            n == self@.script.len(),
            n == input_steps(self.input_view()) + self.outputs@.len() + 1,
    {
        proof {
            use_type_invariant(self);
            lemma_plan_allocations(self.input_view(), self.outputs@, self.call, 0);
        }
        let handing = match &self.input {
            Some(data) => data.len() + 1,
            None => 0,
        };
        handing + self.outputs.len() + 1
    }

    /// The step at position `at`.
    fn step(&self, at: usize) -> (a: Action)
        requires
            at < self@.script.len(),
        ensures
            a == self@.script[at as int],
    {
        proof {
            use_type_invariant(self);
            lemma_plan_allocations(self.input_view(), self.outputs@, self.call, 0);
        }
        let (handing, base): (usize, usize) = match &self.input {
            Some(data) => (data.len() + 1, 1),
            None => (0, 0),
        };
        if at < handing {
            match &self.input {
                Some(data) => if at == 0 {
                    Action::Init { slot: 0, container: Container::IntVector { size: 0 } }
                } else {
                    Action::Append { slot: 0, value: data[at - 1] }
                },
                None => vstd::pervasive::unreached(),
            }
        } else if at - handing < self.outputs.len() {
            Action::Init { slot: base + (at - handing), container: self.outputs[at - handing] }
        } else {
            Action::Invoke { call: self.call }
        }
    }

    /// Number of containers that the first `upto` steps allocate.
    fn live_after(&self, upto: usize) -> (n: usize)
        requires
            upto <= self@.script.len(),
        ensures
            n == allocations(self@.script, upto as int),
            n == allocated(self.input_view(), self.outputs@.len() as int, upto as int),
    {
        proof {
            use_type_invariant(self);
            lemma_plan_allocations(self.input_view(), self.outputs@, self.call, upto as int);
        }
        let (handing, vector): (usize, usize) = match &self.input {
            Some(data) => (data.len() + 1, if upto >= 1 {
                1
            } else {
                0
            }),
            None => (0, 0),
        };
        let reserved: usize = if upto <= handing {
            0
        } else if upto - handing >= self.outputs.len() {
            self.outputs.len()
        } else {
            upto - handing
        };
        vector + reserved
    }

    /// What is due next.
    pub fn action(&self) -> (a: Action)
        ensures
            a == self@.action(),
    {
        proof {
            use_type_invariant(self);
        }
        let steps = self.steps();
        let live = self.live_after(self.pc);
        if self.failure.is_none() && !self.collected {
            if self.pc < steps {
                self.step(self.pc)
            } else {
                Action::Collect
            }
        } else if self.released < live {
            Action::Destroy { slot: live - 1 - self.released }
        } else {
            let result = match self.failure {
                Some(e) => Err(e),
                None => Ok(()),
            };
            Action::Done { result }
        }
    }

    /// Takes note that the action that was due has been taken.
    ///
    /// For a step that is answered by a status (an allocation, an append, the
    /// call), `status` is that answer; for any other action it is not looked
    /// at.  Once the operation is done nothing changes any more.
    pub fn advance(&mut self, status: u32)
        ensures
            final(self)@ == old(self)@.advance(status),
    {
        proof {
            use_type_invariant(&*self);
        }
        let steps = self.steps();
        let live = self.live_after(self.pc);
        if self.failure.is_none() && !self.collected {
            if self.pc < steps {
                match check(status) {
                    Ok(()) => {
                        self.pc = self.pc + 1;
                    },
                    Err(e) => {
                        self.failure = Some(e);
                    },
                }
            } else {
                self.collected = true;
            }
        } else if self.released < live {
            self.released = self.released + 1;
        }
    }

    /// Whether nothing is left to do.
    pub fn is_done(&self) -> (b: bool)
        ensures
            b == self@.is_done(),
    {
        proof {
            use_type_invariant(self);
        }
        let live = self.live_after(self.pc);
        (self.failure.is_some() || self.collected) && self.released >= live
    }

    /// The first failure, if the operation has met one.
    pub fn failure(&self) -> (e: Option<Error>)
        ensures
            e == self@.failure,
    {
        self.failure
    }

    /// The operation's one call of the engine.
    pub fn call(&self) -> (call: Call)
        ensures
            self@.script.len() > 0,
            self@.script.last() == (Action::Invoke { call }),
    {
        proof {
            lemma_plan_allocations(self.input_view(), self.outputs@, self.call, 0);
        }
        self.call
    }
}

} // verus!
