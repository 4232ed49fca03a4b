//! The steps of an operation that are answered by a status.

use vstd::prelude::*;
use super::Action;
use crate::call::{Call, Container};

verus! {

/// How many of the first `upto` steps of a script allocate a container.
pub open spec fn allocations(script: Seq<Action>, upto: int) -> int
    decreases upto,
{
    if upto <= 0 {
        0
    } else {
        allocations(script, upto - 1) + (if script[upto - 1] is Init {
            1int
        } else {
            0int
        })
    }
}

/// What a script has to look like: it consists of allocations, appends and
/// one call, which comes last; containers are numbered in the order in which
/// they are allocated; and nothing is appended to a container before it is
/// allocated.
pub open spec fn well_formed(script: Seq<Action>) -> bool {
    &&& script.len() > 0
    &&& script.last() is Invoke
    &&& forall|i: int|
        0 <= i < script.len() - 1 ==> (#[trigger] script[i]) is Init || script[i] is Append
    &&& forall|i: int|
        0 <= i < script.len() && (#[trigger] script[i]) is Init ==> script[i]->Init_slot
            == allocations(script, i)
    &&& forall|i: int|
        0 <= i < script.len() && (#[trigger] script[i]) is Append ==> script[i]->Append_slot
            < allocations(script, i)
}

/// The steps that hand a host sequence to the engine: a fresh integer vector
/// is allocated, and the elements are appended to it one by one, in order.
pub open spec fn marshal(data: Seq<i64>) -> Seq<Action> {
    seq![Action::Init { slot: 0, container: Container::IntVector { size: 0 } }] + Seq::new(
        data.len(),
        |i: int| Action::Append { slot: 0, value: data[i] },
    )
}

/// The steps that allocate containers for results, numbered from `base` on.
pub open spec fn reserve(base: int, outputs: Seq<Container>) -> Seq<Action> {
    Seq::new(
        outputs.len(),
        |j: int| Action::Init { slot: (base + j) as usize, container: outputs[j] },
    )
}

/// The script of an operation: the input, if there is one, is handed over;
/// the containers for the results are allocated; the call is made.
pub open spec fn plan(input: Option<Seq<i64>>, outputs: Seq<Container>, call: Call) -> Seq<Action> {
    match input {
        Some(data) => marshal(data) + reserve(1, outputs) + seq![Action::Invoke { call }],
        None => reserve(0, outputs) + seq![Action::Invoke { call }],
    }
}

/// Number of steps that hand over the input: the allocation and one append
/// for each element, or none without input.
pub open spec fn input_steps(input: Option<Seq<i64>>) -> int {
    match input {
        Some(data) => data.len() as int + 1,
        None => 0,
    }
}

/// Number of containers that the first `upto` steps of a plan allocate.
pub open spec fn allocated(input: Option<Seq<i64>>, outputs: int, upto: int) -> int {
    let vector = if input is Some && upto >= 1 {
        1int
    } else {
        0int
    };
    let reserved = upto - input_steps(input);
    vector + (if reserved <= 0 {
        0
    } else if reserved >= outputs {
        outputs
    } else {
        reserved
    })
}

/// The containers that the steps of a plan allocate, counted.
pub proof fn lemma_plan_allocations(
    input: Option<Seq<i64>>,
    outputs: Seq<Container>,
    call: Call,
    upto: int,
)
    requires
        0 <= upto <= plan(input, outputs, call).len(),
    ensures
        plan(input, outputs, call).len() == input_steps(input) + outputs.len() + 1,
        allocations(plan(input, outputs, call), upto) == allocated(
            input,
            outputs.len() as int,
            upto,
        ),
    decreases upto,
{
    if upto > 0 {
        lemma_plan_allocations(input, outputs, call, upto - 1);
    }
}

/// Every plan is a well-formed script.
pub proof fn lemma_plan_well_formed(input: Option<Seq<i64>>, outputs: Seq<Container>, call: Call)
    requires
        outputs.len() < usize::MAX,
    ensures
        well_formed(plan(input, outputs, call)),
{
    let script = plan(input, outputs, call);
    assert forall|i: int| 0 <= i < script.len() && (#[trigger] script[i]) is Init implies script[i]
        ->Init_slot == allocations(script, i) by {
        lemma_plan_allocations(input, outputs, call, i);
    }
    assert forall|i: int| 0 <= i < script.len() && (#[trigger] script[i]) is Append implies script[i]
        ->Append_slot < allocations(script, i) by {
        lemma_plan_allocations(input, outputs, call, i);
    }
}

/// The plans that this crate's operations follow, written out: a call alone,
/// a call after one or two allocations for its results, and a call after a
/// sequence has been handed over.
pub proof fn lemma_plans(first: Container, second: Container, data: Seq<i64>, call: Call)
    ensures
        plan(None, seq![], call) == seq![Action::Invoke { call }],
        plan(None, seq![first], call) == seq![
            Action::Init { slot: 0, container: first },
            Action::Invoke { call },
        ],
        plan(None, seq![first, second], call) == seq![
            Action::Init { slot: 0, container: first },
            Action::Init { slot: 1, container: second },
            Action::Invoke { call },
        ],
        plan(Some(data), seq![], call) == marshal(data) + seq![Action::Invoke { call }],
{
    assert(plan(None, seq![], call) =~= seq![Action::Invoke { call }]);
    assert(plan(None, seq![first], call) =~= seq![
        Action::Init { slot: 0, container: first },
        Action::Invoke { call },
    ]);
    assert(plan(None, seq![first, second], call) =~= seq![
        Action::Init { slot: 0, container: first },
        Action::Init { slot: 1, container: second },
        Action::Invoke { call },
    ]);
    assert(plan(Some(data), seq![], call) =~= marshal(data) + seq![Action::Invoke { call }]);
}

/// The number of allocations grows with the number of steps and never
/// exceeds it.
pub proof fn lemma_allocations_monotone(script: Seq<Action>, a: int, b: int)
    requires
        0 <= a <= b,
    ensures
        0 <= allocations(script, a) <= allocations(script, b) <= b,
        allocations(script, b) - allocations(script, a) <= b - a,
    decreases b,
{
    if a < b {
        lemma_allocations_monotone(script, a, b - 1);
    } else if a > 0 {
        lemma_allocations_monotone(script, a - 1, a - 1);
        lemma_allocations_monotone(script, 0, a - 1);
    }
}

/// What is appended while a host sequence is handed over is the sequence
/// itself: every element, in order, and nothing else.
pub proof fn lemma_marshal_appends(data: Seq<i64>)
    ensures
        marshal(data).len() == data.len() + 1,
        marshal(data)[0] == (Action::Init { slot: 0, container: Container::IntVector { size: 0 } }),
        forall|i: int|
            0 <= i < data.len() ==> #[trigger] marshal(data)[i + 1] == (Action::Append {
                slot: 0,
                value: data[i],
            }),
{
}

} // verus!
