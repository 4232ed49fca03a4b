//! What holds of every operation, whatever the engine answers.

use vstd::prelude::*;
use super::script::{
    allocations, lemma_allocations_monotone, lemma_plan_allocations, lemma_plans, marshal,
    well_formed,
};
use super::{Action, Progress};
use crate::call::{Call, Container};
use crate::error::{error_of, Result, IGRAPH_SUCCESS};
use crate::handle::{destroy_calls, lemma_construct_then_release, Event, Stage};

verus! {

/// Every action of an operation from `p` on, the last one being `Done`, when
/// step `k` of the script is answered by `answers(k)`.
pub open spec fn trace(p: Progress, answers: spec_fn(int) -> u32) -> Seq<Action>
    decreases p.fuel(),
{
    if p.is_done() {
        seq![p.action()]
    } else {
        seq![p.action()] + trace(p.advance(answers(p.pc)), answers)
    }
}

/// The first step from `from` on that is answered by a failure, or `len` if
/// there is none before `len`.
pub open spec fn first_failure(answers: spec_fn(int) -> u32, from: int, len: int) -> int
    decreases len - from,
{
    if from >= len {
        len
    } else if answers(from) != IGRAPH_SUCCESS {
        from
    } else {
        first_failure(answers, from + 1, len)
    }
}

/// The destroy calls for `n` containers, last allocated first.
pub open spec fn destroys(n: int) -> Seq<Action> {
    Seq::new(
        if n >= 0 {
            n as nat
        } else {
            0
        },
        |i: int| Action::Destroy { slot: (n - 1 - i) as usize },
    )
}

/// How often an action occurs in a sequence.
pub open spec fn occurrences(actions: Seq<Action>, action: Action) -> nat
    decreases actions.len(),
{
    if actions.len() == 0 {
        0
    } else {
        occurrences(actions.drop_last(), action) + (if actions.last() == action {
            1nat
        } else {
            0nat
        })
    }
}

/// How an operation on `script` goes from step `from` on, when step `k` is
/// answered by `answers(k)`: the steps up to and including the first that
/// fails, or all of them and the collecting of results; then the destroy
/// call for every container allocated by a step that succeeded; then the
/// end, with the translated status of the failing step or with success.
pub open spec fn course(script: Seq<Action>, answers: spec_fn(int) -> u32, from: int) -> Seq<
    Action,
> {
    let len = script.len() as int;
    let f = first_failure(answers, from, len);
    if f < len {
        script.subrange(from, f + 1) + destroys(allocations(script, f)) + seq![
            Action::Done { result: Err(error_of(answers(f))) },
        ]
    } else {
        script.subrange(from, len) + seq![Action::Collect] + destroys(allocations(script, len))
            + seq![Action::Done { result: Ok(()) }]
    }
}

/// Whether the container `slot` is allocated by a step that succeeds.
pub open spec fn initialised(script: Seq<Action>, answers: spec_fn(int) -> u32, slot: usize) -> bool {
    exists|i: int|
        0 <= i < first_failure(answers, 0, script.len() as int) && (#[trigger] script[i]) is Init
            && script[i]->Init_slot == slot
}

/// The first failure lies at or after `from`, every step before it succeeds,
/// and it fails itself.
pub proof fn lemma_first_failure(answers: spec_fn(int) -> u32, from: int, len: int)
    requires
        from <= len,
    ensures
        from <= first_failure(answers, from, len) <= len,
        forall|k: int|
            from <= k < first_failure(answers, from, len) ==> #[trigger] answers(k)
                == IGRAPH_SUCCESS,
        first_failure(answers, from, len) < len ==> answers(first_failure(answers, from, len))
            != IGRAPH_SUCCESS,
    decreases len - from,
{
    if from < len && answers(from) == IGRAPH_SUCCESS {
        lemma_first_failure(answers, from + 1, len);
    }
}

/// Once a failure is met or the results are collected, what is left is to
/// destroy the containers not yet destroyed, last allocated first.
proof fn lemma_release_trace(p: Progress, answers: spec_fn(int) -> u32)
    requires
        p.failure is Some || p.collected,
        0 <= p.released <= p.live(),
    ensures
        trace(p, answers) == destroys(p.live()).skip(p.released) + seq![
            Action::Done { result: p.result() },
        ],
    decreases p.live() - p.released,
{
    let expected = destroys(p.live()).skip(p.released) + seq![Action::Done { result: p.result() }];
    if p.released < p.live() {
        let q = p.advance(answers(p.pc));
        lemma_release_trace(q, answers);
        assert(trace(p, answers) =~= expected);
    } else {
        assert(trace(p, answers) =~= expected);
    }
}

/// While steps of the script are due, the operation follows its course.
proof fn lemma_run_trace(p: Progress, answers: spec_fn(int) -> u32)
    requires
        p.failure is None,
        !p.collected,
        p.released == 0,
        0 <= p.pc <= p.script.len(),
    ensures
        trace(p, answers) == course(p.script, answers, p.pc),
    decreases p.script.len() - p.pc,
{
    let len = p.script.len() as int;
    let f = first_failure(answers, p.pc, len);
    lemma_first_failure(answers, p.pc, len);
    lemma_allocations_monotone(p.script, p.pc, len);
    let q = p.advance(answers(p.pc));
    if p.pc < len {
        if answers(p.pc) == IGRAPH_SUCCESS {
            lemma_run_trace(q, answers);
            assert(trace(p, answers) =~= course(p.script, answers, p.pc));
        } else {
            lemma_release_trace(q, answers);
            assert(destroys(q.live()).skip(0) =~= destroys(q.live()));
            assert(p.script.subrange(p.pc, p.pc + 1) =~= seq![p.script[p.pc]]);
            assert(trace(p, answers) =~= course(p.script, answers, p.pc));
        }
    } else {
        lemma_release_trace(q, answers);
        assert(destroys(q.live()).skip(0) =~= destroys(q.live()));
        assert(p.script.subrange(len, len) =~= Seq::<Action>::empty());
        assert(trace(p, answers) =~= course(p.script, answers, p.pc));
    }
}

/// The whole of an operation, whatever the engine answers.
///
/// The steps are taken in order up to the first that fails; no step follows
/// a failure.  Then every container that a successful step allocated is
/// destroyed, and no other; and the operation ends with the translation of
/// the failing status, or with success if every step succeeded.
pub proof fn lemma_trace(script: Seq<Action>, answers: spec_fn(int) -> u32)
    ensures
        trace(Progress::start(script), answers) == course(script, answers, 0),
{
    lemma_run_trace(Progress::start(script), answers);
}

/// Counting over two sequences adds up.
proof fn lemma_occurrences_add(a: Seq<Action>, b: Seq<Action>, action: Action)
    ensures
        occurrences(a + b, action) == occurrences(a, action) + occurrences(b, action),
    decreases b.len(),
{
    if b.len() == 0 {
        assert(a + b =~= a);
    } else {
        assert((a + b).drop_last() =~= a + b.drop_last());
        assert((a + b).last() == b.last());
        lemma_occurrences_add(a, b.drop_last(), action);
    }
}

/// In a sequence of one action, that action occurs once and no other does.
proof fn lemma_occurrences_single(only: Action, action: Action)
    ensures
        occurrences(seq![only], action) == (if only == action {
            1nat
        } else {
            0nat
        }),
{
    let s = seq![only];
    assert(s.drop_last() =~= Seq::<Action>::empty());
    assert(s.last() == only);
    assert(occurrences(s.drop_last(), action) == 0);
}

/// An action that a sequence does not hold occurs in it no times.
proof fn lemma_occurrences_none(a: Seq<Action>, action: Action)
    requires
        forall|i: int| 0 <= i < a.len() ==> a[i] != action,
    ensures
        occurrences(a, action) == 0,
    decreases a.len(),
{
    if a.len() > 0 {
        lemma_occurrences_none(a.drop_last(), action);
    }
}

/// Among the destroy calls for `n` containers, that for `slot` occurs once
/// if `slot` is one of them, and not at all otherwise.
proof fn lemma_occurrences_destroys(n: int, slot: usize)
    requires
        0 <= n <= usize::MAX,
    ensures
        occurrences(destroys(n), Action::Destroy { slot }) == (if slot < n {
            1nat
        } else {
            0nat
        }),
    decreases n,
{
    let action = Action::Destroy { slot };
    if n > 0 {
        // The first of them is for the container allocated last.
        let head = seq![Action::Destroy { slot: (n - 1) as usize }];
        assert(destroys(n) =~= head + destroys(n - 1));
        lemma_occurrences_add(head, destroys(n - 1), action);
        lemma_occurrences_destroys(n - 1, slot);
        lemma_occurrences_single(Action::Destroy { slot: (n - 1) as usize }, action);
    } else {
        assert(destroys(n) =~= Seq::<Action>::empty());
    }
}

/// In a well-formed script, the containers allocated by the first `upto`
/// steps are exactly those numbered below `allocations(script, upto)`.
proof fn lemma_allocation_witness(script: Seq<Action>, upto: int, slot: usize)
    requires
        well_formed(script),
        0 <= upto <= script.len(),
    ensures
        slot < allocations(script, upto) <==> exists|i: int|
            0 <= i < upto && (#[trigger] script[i]) is Init && script[i]->Init_slot == slot,
    decreases upto,
{
    if upto > 0 {
        lemma_allocation_witness(script, upto - 1, slot);
        lemma_allocations_monotone(script, 0, upto - 1);
        let last = script[upto - 1];
        if slot < allocations(script, upto) {
            if slot < allocations(script, upto - 1) {
                let i = choose|i: int|
                    0 <= i < upto - 1 && (#[trigger] script[i]) is Init && script[i]->Init_slot
                        == slot;
                assert(0 <= i < upto && script[i] is Init && script[i]->Init_slot == slot);
            } else {
                assert(last is Init && last->Init_slot == slot);
            }
        }
        if exists|i: int|
            0 <= i < upto && (#[trigger] script[i]) is Init && script[i]->Init_slot == slot {
            let i = choose|i: int|
                0 <= i < upto && (#[trigger] script[i]) is Init && script[i]->Init_slot == slot;
            if i < upto - 1 {
                assert(slot < allocations(script, upto - 1));
            }
        }
    }
}

/// A step of a well-formed script is an allocation, an append or the call.
proof fn lemma_step_kind(script: Seq<Action>, i: int)
    requires
        well_formed(script),
        0 <= i < script.len(),
    ensures
        script[i] is Init || script[i] is Append || script[i] is Invoke,
{
    if i == script.len() - 1 {
        assert(script[i] == script.last());
    }
}

/// The steps of a well-formed script, and the collecting of results, make no
/// destroy call.
proof fn lemma_steps_destroy_nothing(script: Seq<Action>, upto: int, slot: usize)
    requires
        well_formed(script),
        0 <= upto <= script.len(),
    ensures
        occurrences(script.subrange(0, upto), Action::Destroy { slot }) == 0,
        occurrences(script.subrange(0, upto) + seq![Action::Collect], Action::Destroy { slot })
            == 0,
{
    let action = Action::Destroy { slot };
    let steps = script.subrange(0, upto);
    assert forall|i: int| 0 <= i < steps.len() implies steps[i] != action by {
        lemma_step_kind(script, i);
    }
    lemma_occurrences_none(steps, action);
    lemma_occurrences_single(Action::Collect, action);
    lemma_occurrences_add(steps, seq![Action::Collect], action);
}

/// Over a whole operation, the destroy call for a container is made exactly
/// once if the container was allocated by a step that succeeded, and never
/// otherwise: not for a container whose allocation failed, and not for one
/// that the operation did not get to.
pub proof fn lemma_destroyed_exactly_once(
    script: Seq<Action>,
    answers: spec_fn(int) -> u32,
    slot: usize,
)
    requires
        well_formed(script),
        script.len() <= usize::MAX,
    ensures
        occurrences(trace(Progress::start(script), answers), Action::Destroy { slot }) == (
        if initialised(script, answers, slot) {
            1nat
        } else {
            0nat
        }),
{
    let len = script.len() as int;
    let f = first_failure(answers, 0, len);
    let action = Action::Destroy { slot };
    lemma_trace(script, answers);
    lemma_first_failure(answers, 0, len);
    lemma_allocations_monotone(script, 0, f);
    lemma_allocation_witness(script, f, slot);
    let released = destroys(allocations(script, f));
    lemma_occurrences_destroys(allocations(script, f), slot);
    let end = Action::Done { result: course_result(answers, f, len) };
    lemma_occurrences_single(end, action);
    let steps = if f < len {
        script.subrange(0, f + 1)
    } else {
        script.subrange(0, len) + seq![Action::Collect]
    };
    assert(occurrences(steps, action) == 0) by {
        if f < len {
            lemma_steps_destroy_nothing(script, f + 1, slot);
        } else {
            lemma_steps_destroy_nothing(script, len, slot);
        }
    }
    assert(course(script, answers, 0) == steps + released + seq![end]);
    lemma_occurrences_add(steps, released, action);
    lemma_occurrences_add(steps + released, seq![end], action);
}

/// How an operation ends when its first failure is at step `f` of `len`.
pub open spec fn course_result(answers: spec_fn(int) -> u32, f: int, len: int) -> Result<()> {
    if f < len {
        Err(error_of(answers(f)))
    } else {
        Ok(())
    }
}

/// An operation ends with success exactly when every step is answered with
/// success, and otherwise with the translation of the first status that is
/// not; and `Done` is its last action and no other.
pub proof fn lemma_result(script: Seq<Action>, answers: spec_fn(int) -> u32)
    ensures
        trace(Progress::start(script), answers).len() > 0,
        trace(Progress::start(script), answers).last() == (Action::Done {
            result: course_result(
                answers,
                first_failure(answers, 0, script.len() as int),
                script.len() as int,
            ),
        }),
        course_result(answers, first_failure(answers, 0, script.len() as int), script.len() as int)
            is Ok <==> forall|k: int| 0 <= k < script.len() ==> #[trigger] answers(k)
            == IGRAPH_SUCCESS,
{
    lemma_trace(script, answers);
    lemma_first_failure(answers, 0, script.len() as int);
}

/// Failure while a host sequence is handed over.
///
/// If the allocation of the vector fails, nothing else is done and nothing
/// is destroyed.  If the `n`-th append fails, the `n - 1` elements before it
/// have been appended, no further element is, the vector is destroyed once,
/// and the operation ends with the translation of the failing status.
pub proof fn lemma_failed_append(
    data: Seq<i64>,
    call: Call,
    answers: spec_fn(int) -> u32,
    n: int,
)
    requires
        0 <= n <= data.len(),
        first_failure(answers, 0, data.len() as int + 2) == n,
    ensures
        n == 0 ==> trace(
            Progress::start(marshal(data) + seq![Action::Invoke { call }]),
            answers,
        ) == seq![
            Action::Init { slot: 0, container: Container::IntVector { size: 0 } },
            Action::Done { result: Err(error_of(answers(0))) },
        ],
        n >= 1 ==> trace(
            Progress::start(marshal(data) + seq![Action::Invoke { call }]),
            answers,
        ) == marshal(data.take(n - 1)) + seq![
            Action::Append { slot: 0, value: data[n - 1] },
            Action::Destroy { slot: 0 },
            Action::Done { result: Err(error_of(answers(n))) },
        ],
{
    let script = marshal(data) + seq![Action::Invoke { call }];
    lemma_trace(script, answers);
    assert(script.take(data.len() as int + 1) =~= marshal(data));
    reveal_with_fuel(allocations, 2);
    if n == 0 {
        assert(destroys(0) =~= Seq::<Action>::empty());
        assert(course(script, answers, 0) =~= seq![
            Action::Init { slot: 0, container: Container::IntVector { size: 0 } },
            Action::Done { result: Err(error_of(answers(0))) },
        ]);
    } else {
        lemma_plans(Container::IntVector { size: 0 }, Container::IntVector { size: 0 }, data, call);
        lemma_plan_allocations(Some(data), seq![], call, n);
        assert(destroys(1) =~= seq![Action::Destroy { slot: 0 }]);
        assert(script.subrange(0, n + 1) =~= marshal(data.take(n - 1)) + seq![
            Action::Append { slot: 0, value: data[n - 1] },
        ]);
        assert(course(script, answers, 0) =~= marshal(data.take(n - 1)) + seq![
            Action::Append { slot: 0, value: data[n - 1] },
            Action::Destroy { slot: 0 },
            Action::Done { result: Err(error_of(answers(n))) },
        ]);
    }
}

/// The step of a script that allocates container `slot`, if there is one.
pub open spec fn allocation_of(script: Seq<Action>, slot: usize) -> Option<int> {
    if exists|i: int|
        0 <= i < script.len() && (#[trigger] script[i]) is Init && script[i]->Init_slot == slot {
        Some(
            choose|i: int|
                0 <= i < script.len() && (#[trigger] script[i]) is Init && script[i]->Init_slot
                    == slot,
        )
    } else {
        None
    }
}

/// What the handle of container `slot` goes through in an operation: if the
/// operation gets to its allocation, the allocation, answered as the engine
/// answers it, and then the end of the operation, which lets go of it.
pub open spec fn life(script: Seq<Action>, answers: spec_fn(int) -> u32, slot: usize) -> Seq<
    Event,
> {
    match allocation_of(script, slot) {
        Some(i) => if i <= first_failure(answers, 0, script.len() as int) {
            seq![Event::Init(answers(i)), Event::Release]
        } else {
            seq![]
        },
        None => seq![],
    }
}

/// No two steps of a well-formed script allocate the same container.
proof fn lemma_allocation_unique(script: Seq<Action>, i: int, j: int)
    requires
        well_formed(script),
        0 <= i < script.len(),
        0 <= j < script.len(),
        script[i] is Init,
        script[j] is Init,
        script[i]->Init_slot == script[j]->Init_slot,
        script.len() <= usize::MAX,
    ensures
        i == j,
{
    if i < j {
        lemma_allocations_monotone(script, i + 1, j);
        lemma_allocations_monotone(script, 0, i);
    } else if j < i {
        lemma_allocations_monotone(script, j + 1, i);
        lemma_allocations_monotone(script, 0, j);
    }
}

/// An operation treats each of its containers as the life of a handle
/// prescribes: the destroy calls that it makes for a container are those
/// that are due to the container's handle, one for a container that became
/// live and none for any other.
pub proof fn lemma_container_life(script: Seq<Action>, answers: spec_fn(int) -> u32, slot: usize)
    requires
        well_formed(script),
        script.len() <= usize::MAX,
    ensures
        occurrences(trace(Progress::start(script), answers), Action::Destroy { slot })
            == destroy_calls(Stage::Uninit, life(script, answers, slot)),
{
    let len = script.len() as int;
    let f = first_failure(answers, 0, len);
    lemma_destroyed_exactly_once(script, answers, slot);
    lemma_first_failure(answers, 0, len);
    match allocation_of(script, slot) {
        Some(i) => {
            if initialised(script, answers, slot) {
                let j = choose|j: int|
                    0 <= j < f && (#[trigger] script[j]) is Init && script[j]->Init_slot == slot;
                lemma_allocation_unique(script, i, j);
            }
            if i <= f {
                lemma_construct_then_release(answers(i), 1);
                assert(seq![Event::Init(answers(i)), Event::Release] =~= seq![
                    Event::Init(answers(i)),
                ] + Seq::new(1, |k: int| Event::Release));
                if i < f {
                    assert(script[i] is Init && script[i]->Init_slot == slot);
                    assert(answers(i) == IGRAPH_SUCCESS);
                }
            }
        },
        None => {
            if initialised(script, answers, slot) {
                let j = choose|j: int|
                    0 <= j < f && (#[trigger] script[j]) is Init && script[j]->Init_slot == slot;
                assert(0 <= j < script.len() && script[j] is Init && script[j]->Init_slot == slot);
            }
        },
    }
}

} // verus!
