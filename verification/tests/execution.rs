use mocker_replay::execution::{NextAction, StepOutcome};
use mocker_replay::plan::{ReplayPlan, ReplayStep, Validation};
use mocker_replay::workload;

/// Follows the plan's decisions when step `i` ends with `results[i]`;
/// returns the result and the steps performed.
fn follow(plan: &ReplayPlan, results: &[Result<(), &'static str>]) -> (Result<(), &'static str>, Vec<ReplayStep>) {
    let mut performed = 0;
    let mut done = Vec::new();
    let mut last = StepOutcome::NoneYet;
    loop {
        match plan.next_action(performed, last) {
            NextAction::Perform(step) => {
                done.push(step);
                last = match results[performed] {
                    Ok(()) => StepOutcome::Succeeded,
                    Err(e) => StepOutcome::Failed(e),
                };
                performed += 1;
            }
            NextAction::Fail(e) => return (Err(e), done),
            NextAction::Finish => return (Ok(()), done),
        }
    }
}

#[test]
fn first_action_is_the_first_step() {
    let plan = workload::simulate_trace_live_workload(2);
    assert_eq!(
        plan.next_action::<&str>(0, StepOutcome::NoneYet),
        NextAction::Perform(ReplayStep::NormalizeArgs)
    );
}

#[test]
fn success_moves_to_the_next_step_and_finishes_after_the_last() {
    let plan = workload::simulate_trace_live_workload(2);
    assert_eq!(
        plan.next_action::<&str>(1, StepOutcome::Succeeded),
        NextAction::Perform(ReplayStep::Validate(Validation::OnlineReplay { num_workers: 2 }))
    );
    assert_eq!(plan.next_action::<&str>(3, StepOutcome::Succeeded), NextAction::Finish);
}

#[test]
fn failure_ends_the_replay_with_its_error() {
    let plan = workload::simulate_trace_workload(4);
    assert_eq!(
        plan.next_action(2, StepOutcome::Failed("invalid arguments")),
        NextAction::Fail("invalid arguments")
    );
}

#[test]
fn failed_check_simulates_nothing() {
    let plan = workload::simulate_concurrency_workload(8, 2);
    let mut results = vec![Ok(()); plan.steps.len()];
    results[2] = Err("max_in_flight too small");
    let (result, done) = follow(&plan, &results);
    assert_eq!(result, Err("max_in_flight too small"));
    assert_eq!(done, plan.steps[..3].to_vec());
    assert!(done.iter().all(|s| matches!(
        s,
        ReplayStep::TakePerfModels | ReplayStep::NormalizeArgs | ReplayStep::Validate(_)
    )));
}

#[test]
fn failed_normalisation_ends_a_live_replay_before_it_starts() {
    let plan = workload::simulate_concurrency_live_workload(4, 1);
    let mut results = vec![Ok(()); plan.steps.len()];
    results[0] = Err("bad block size");
    let (result, done) = follow(&plan, &results);
    assert_eq!(result, Err("bad block size"));
    assert_eq!(done, vec![ReplayStep::NormalizeArgs]);
}

#[test]
fn failed_run_makes_no_report() {
    let plan = workload::simulate_trace_workload(1);
    let run = plan
        .steps
        .iter()
        .position(|s| matches!(s, ReplayStep::RunOffline(_)))
        .unwrap();
    let mut results = vec![Ok(()); plan.steps.len()];
    results[run] = Err("runtime failed");
    results[run + 1] = Err("never reached");
    let (result, done) = follow(&plan, &results);
    assert_eq!(result, Err("runtime failed"));
    assert_eq!(done.len(), run + 1);
    assert!(!done.contains(&ReplayStep::FinishReport));
}

#[test]
fn replay_succeeds_after_every_step() {
    let plan = workload::simulate_trace_workload_disagg_with_router_mode(
        mocker_replay::plan::ReplayRouterMode::KvRouter,
    );
    let results = vec![Ok(()); plan.steps.len()];
    let (result, done) = follow(&plan, &results);
    assert_eq!(result, Ok(()));
    assert_eq!(done, plan.steps);
}
