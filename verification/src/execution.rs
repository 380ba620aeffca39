//! Carrying out a plan: what is done after each step, given how it ended.
//!
//! The steps are performed in order. A step that fails ends the replay with
//! its error, unchanged, and no later step is performed; after the last
//! step has succeeded the replay is finished.

use vstd::prelude::*;
use crate::plan::{ReplayPlan, ReplayStep};

verus! {

/// How the step performed last ended; `NoneYet` before the first step.
#[derive(Clone, Copy, Debug, PartialEq, Eq)]
pub enum StepOutcome<E> {
    NoneYet,
    Succeeded,
    Failed(E),
}

/// What to do next.
#[derive(Clone, Copy, Debug, PartialEq, Eq)]
pub enum NextAction<E> {
    /// Perform this step.
    Perform(ReplayStep),
    /// End the replay with this error.
    Fail(E),
    /// Every step has succeeded: the replay is finished.
    Finish,
}

/// The outcome of a step that ended with `result`.
pub open spec fn outcome_of<E>(result: Result<(), E>) -> StepOutcome<E> {
    match result {
        Ok(()) => StepOutcome::Succeeded,
        Err(e) => StepOutcome::Failed(e),
    }
}

/// What follows when `performed` steps of `plan` have been performed and the
/// last of them ended with `last`.
pub open spec fn next_action_spec<E>(plan: Seq<ReplayStep>, performed: nat, last: StepOutcome<E>) -> NextAction<E> {
    match last {
        StepOutcome::Failed(e) => NextAction::Fail(e),
        _ => if performed < plan.len() {
            NextAction::Perform(plan[performed as int])
        } else {
            NextAction::Finish
        },
    }
}

impl ReplayPlan {
    /// What follows when `performed` steps of this plan have been performed
    /// and the last of them ended with `last`.
    pub fn next_action<E>(&self, performed: usize, last: StepOutcome<E>) -> (action: NextAction<E>)
        ensures
            action == next_action_spec(self@, performed as nat, last),
    {
        match last {
            StepOutcome::Failed(e) => NextAction::Fail(e),
            _ => if performed < self.steps.len() {
                NextAction::Perform(self.steps[performed])
            } else {
                NextAction::Finish
            },
        }
    }
}

/// The end of a replay of `plan` that follows [`ReplayPlan::next_action`]
/// from `performed` steps and the outcome `last`, when the `i`-th step
/// performed ends with `results[i]`: the result of the replay, and how many
/// steps it performed.
pub open spec fn replay_run<E>(
    plan: Seq<ReplayStep>,
    results: Seq<Result<(), E>>,
    performed: nat,
    last: StepOutcome<E>,
) -> (Result<(), E>, nat)
    decreases plan.len() - performed,
{
    match next_action_spec(plan, performed, last) {
        NextAction::Fail(e) => (Err(e), performed),
        NextAction::Finish => (Ok(()), performed),
        NextAction::Perform(_) => if performed < plan.len() {
            replay_run(plan, results, performed + 1, outcome_of(results[performed as int]))
        } else {
            (Ok(()), performed)
        },
    }
}

/// What the replay ends with: it performs a prefix of the steps, every step
/// but the last one performed succeeded, a failed last step is the result
/// with its error unchanged, and the replay succeeds only after performing
/// every step.
pub open spec fn ends_at_first_failure<E>(
    plan: Seq<ReplayStep>,
    results: Seq<Result<(), E>>,
    end: (Result<(), E>, nat),
) -> bool {
    let (result, performed) = end;
    &&& performed <= plan.len()
    &&& forall|i: int| 0 <= i < performed - 1 ==> #[trigger] results[i] is Ok
    &&& result matches Err(e) ==> performed >= 1 && results[performed - 1] == Err::<(), E>(e)
    &&& result is Ok ==> performed == plan.len() && (forall|i: int|
        0 <= i < performed ==> #[trigger] results[i] is Ok)
}

proof fn lemma_replay_run_from<E>(
    plan: Seq<ReplayStep>,
    results: Seq<Result<(), E>>,
    performed: nat,
    last: StepOutcome<E>,
)
    requires
        results.len() == plan.len(),
        performed <= plan.len(),
        forall|i: int| 0 <= i < performed - 1 ==> #[trigger] results[i] is Ok,
        performed == 0 ==> last == StepOutcome::<E>::NoneYet,
        performed > 0 ==> last == outcome_of(results[performed - 1]),
    ensures
        ends_at_first_failure(plan, results, replay_run(plan, results, performed, last)),
    decreases plan.len() - performed,
{
    if last is Failed {
    } else if performed < plan.len() {
        let next = outcome_of(results[performed as int]);
        assert forall|i: int| 0 <= i < performed + 1 - 1 implies #[trigger] results[i] is Ok by {
            if i == performed - 1 {
                assert(last == outcome_of(results[i]));
            }
        }
        lemma_replay_run_from(plan, results, performed + 1, next);
    } else {
        assert forall|i: int| 0 <= i < performed implies #[trigger] results[i] is Ok by {
            if i == performed - 1 {
                assert(last == outcome_of(results[i]));
            }
        }
    }
}

/// A replay that follows [`ReplayPlan::next_action`] from the start performs
/// its steps in order and stops at the first step that fails: that step's
/// error, unchanged, is the result, and no later step is performed. It
/// succeeds exactly when it has performed every step and each succeeded.
pub proof fn lemma_replay_ends_at_first_failure<E>(plan: Seq<ReplayStep>, results: Seq<Result<(), E>>)
    requires
        results.len() == plan.len(),
    ensures
        ends_at_first_failure(plan, results, replay_run(plan, results, 0, StepOutcome::NoneYet)),
{
    lemma_replay_run_from(plan, results, 0, StepOutcome::NoneYet);
}

/// When the first step to fail is step `failed`, the replay performs steps
/// up to and including it, none after it, and ends with its error.
pub proof fn lemma_first_failure_ends_replay<E>(
    plan: Seq<ReplayStep>,
    results: Seq<Result<(), E>>,
    failed: int,
)
    requires
        results.len() == plan.len(),
        0 <= failed < plan.len(),
        results[failed] is Err,
        forall|i: int| 0 <= i < failed ==> #[trigger] results[i] is Ok,
    ensures
        replay_run(plan, results, 0, StepOutcome::NoneYet) == (results[failed], (failed + 1) as nat),
{
    lemma_replay_ends_at_first_failure(plan, results);
    let (result, performed) = replay_run(plan, results, 0, StepOutcome::NoneYet);
    if result is Ok {
        assert(results[failed] is Ok);
    } else {
        let n = performed - 1;
        if n < failed {
            assert(results[n] is Ok);
        } else if n > failed {
            assert(results[failed] is Ok);
        }
    }
}

} // verus!
