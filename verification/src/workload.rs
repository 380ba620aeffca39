//! The public replay entry points.
//!
//! Each entry point first normalises the arguments it is given and checks
//! them for its kind of replay; only then does it simulate. The short forms
//! route round-robin with neither a router configuration nor a prefill load
//! estimator. The offline `_with_router_mode` forms first take the perf
//! model(s) of the arguments as handed in, before they are normalised, and
//! then replay as the `_with_latency_model(s)` forms do with a model the
//! caller supplies. Public replays keep no
//! per-request records and have no limit on the simulated time.

use vstd::prelude::*;
use crate::plan::{
    ReplayRouterMode, ReplayMode, ReplayStep, ReplayPlan, Validation, OnlineRun, RunSettings,
    engine_replay_steps, disaggregated_replay_steps, taking_perf_models,
};
use crate::offline::offline_runtime;
use crate::offline;

verus! {

/// The settings of every public offline replay.
pub open spec fn public_run_settings() -> RunSettings {
    RunSettings::Explicit { record_per_request: false, limit_sim_time: false }
}

/// Offline trace replay on aggregated workers.
pub open spec fn trace_replay_plan(num_workers: usize, router_mode: ReplayRouterMode) -> Seq<ReplayStep> {
    seq![
        ReplayStep::NormalizeArgs,
        ReplayStep::Validate(Validation::OfflineReplay { num_workers, router_mode }),
    ] + engine_replay_steps(
        offline_runtime(num_workers, router_mode),
        ReplayMode::Trace,
        false,
        public_run_settings(),
    )
}

/// Offline disaggregated trace replay.
pub open spec fn disagg_trace_replay_plan(router_mode: ReplayRouterMode) -> Seq<ReplayStep> {
    seq![
        ReplayStep::NormalizeDisaggConfig,
        ReplayStep::Validate(Validation::OfflineDisaggReplay { router_mode }),
    ] + disaggregated_replay_steps(ReplayMode::Trace, router_mode, public_run_settings())
}

/// Live trace replay.
pub open spec fn live_trace_replay_plan(num_workers: usize, router_mode: ReplayRouterMode) -> Seq<
    ReplayStep,
> {
    seq![
        ReplayStep::NormalizeArgs,
        ReplayStep::Validate(Validation::OnlineReplay { num_workers }),
        ReplayStep::RunOnline(OnlineRun { mode: ReplayMode::Trace, num_workers, router_mode }),
    ]
}

/// Offline fixed-concurrency replay on aggregated workers.
pub open spec fn concurrency_replay_plan(
    max_in_flight: usize,
    num_workers: usize,
    router_mode: ReplayRouterMode,
) -> Seq<ReplayStep> {
    seq![
        ReplayStep::NormalizeArgs,
        ReplayStep::Validate(
            Validation::OfflineConcurrency { num_workers, max_in_flight, router_mode },
        ),
    ] + engine_replay_steps(
        offline_runtime(num_workers, router_mode),
        ReplayMode::Concurrency { max_in_flight },
        false,
        public_run_settings(),
    )
}

/// Offline disaggregated fixed-concurrency replay.
pub open spec fn disagg_concurrency_replay_plan(max_in_flight: usize, router_mode: ReplayRouterMode) -> Seq<
    ReplayStep,
> {
    seq![
        ReplayStep::NormalizeDisaggConfig,
        ReplayStep::Validate(Validation::OfflineDisaggConcurrency { max_in_flight, router_mode }),
    ] + disaggregated_replay_steps(
        ReplayMode::Concurrency { max_in_flight },
        router_mode,
        public_run_settings(),
    )
}

/// Live fixed-concurrency replay.
pub open spec fn live_concurrency_replay_plan(
    max_in_flight: usize,
    num_workers: usize,
    router_mode: ReplayRouterMode,
) -> Seq<ReplayStep> {
    seq![
        ReplayStep::NormalizeArgs,
        ReplayStep::Validate(Validation::OnlineConcurrency { num_workers, max_in_flight }),
        ReplayStep::RunOnline(
            OnlineRun { mode: ReplayMode::Concurrency { max_in_flight }, num_workers, router_mode },
        ),
    ]
}

/// The two steps that open a public replay: normalise, then check.
fn normalize_and_validate(normalize: ReplayStep, validation: Validation) -> (steps: Vec<ReplayStep>)
    ensures
        steps@ == seq![normalize, ReplayStep::Validate(validation)],
{
    let mut steps: Vec<ReplayStep> = Vec::new();
    steps.push(normalize);
    steps.push(ReplayStep::Validate(validation));
    steps
}

// ---------------------------------------------------------------------------
// Trace replay
// ---------------------------------------------------------------------------

/// Offline trace replay, round-robin over `num_workers` workers.
pub fn simulate_trace_workload(num_workers: usize) -> (plan: ReplayPlan)
    ensures
        plan@ == taking_perf_models(trace_replay_plan(num_workers, ReplayRouterMode::RoundRobin)),
{
    simulate_trace_workload_with_router_mode(num_workers, ReplayRouterMode::RoundRobin)
}

/// Offline trace replay with the given router mode.
pub fn simulate_trace_workload_with_router_mode(num_workers: usize, router_mode: ReplayRouterMode) -> (plan:
    ReplayPlan)
    ensures
        plan@ == taking_perf_models(trace_replay_plan(num_workers, router_mode)),
{
    simulate_trace_workload_with_latency_model(num_workers, router_mode).taking_perf_models()
}

/// Offline trace replay with a caller-supplied aggregated latency model.
pub fn simulate_trace_workload_with_latency_model(
    num_workers: usize,
    router_mode: ReplayRouterMode,
) -> (plan: ReplayPlan)
    ensures
        plan@ == trace_replay_plan(num_workers, router_mode),
{
    let prefix = normalize_and_validate(
        ReplayStep::NormalizeArgs,
        Validation::OfflineReplay { num_workers, router_mode },
    );
    offline::simulate_trace_workload_with_latency_model(num_workers, router_mode, false, false).after(
        prefix,
    )
}

/// Offline disaggregated trace replay with the given router mode.
pub fn simulate_trace_workload_disagg_with_router_mode(router_mode: ReplayRouterMode) -> (plan:
    ReplayPlan)
    ensures
        plan@ == taking_perf_models(disagg_trace_replay_plan(router_mode)),
{
    simulate_trace_workload_disagg_with_latency_models(router_mode).taking_perf_models()
}

/// Offline disaggregated trace replay with independent stage latency models.
pub fn simulate_trace_workload_disagg_with_latency_models(router_mode: ReplayRouterMode) -> (plan:
    ReplayPlan)
    ensures
        plan@ == disagg_trace_replay_plan(router_mode),
{
    let prefix = normalize_and_validate(
        ReplayStep::NormalizeDisaggConfig,
        Validation::OfflineDisaggReplay { router_mode },
    );
    offline::simulate_trace_workload_disagg_with_latency_models(router_mode, false, false).after(
        prefix,
    )
}

/// Live trace replay, round-robin over `num_workers` workers.
pub fn simulate_trace_live_workload(num_workers: usize) -> (plan: ReplayPlan)
    ensures
        plan@ == live_trace_replay_plan(num_workers, ReplayRouterMode::RoundRobin),
{
    simulate_trace_live_workload_with_router_mode(num_workers, ReplayRouterMode::RoundRobin)
}

/// Live trace replay with the given router mode.
pub fn simulate_trace_live_workload_with_router_mode(
    num_workers: usize,
    router_mode: ReplayRouterMode,
) -> (plan: ReplayPlan)
    ensures
        plan@ == live_trace_replay_plan(num_workers, router_mode),
{
    let mut steps = normalize_and_validate(
        ReplayStep::NormalizeArgs,
        Validation::OnlineReplay { num_workers },
    );
    steps.push(
        ReplayStep::RunOnline(OnlineRun { mode: ReplayMode::Trace, num_workers, router_mode }),
    );
    ReplayPlan::from_steps(steps)
}

// ---------------------------------------------------------------------------
// Fixed-concurrency replay
// ---------------------------------------------------------------------------

/// Offline fixed-concurrency replay, round-robin over `num_workers` workers.
pub fn simulate_concurrency_workload(max_in_flight: usize, num_workers: usize) -> (plan: ReplayPlan)
    ensures
        plan@ == taking_perf_models(
            concurrency_replay_plan(max_in_flight, num_workers, ReplayRouterMode::RoundRobin),
        ),
{
    simulate_concurrency_workload_with_router_mode(
        max_in_flight,
        num_workers,
        ReplayRouterMode::RoundRobin,
    )
}

/// Offline fixed-concurrency replay with the given router mode.
pub fn simulate_concurrency_workload_with_router_mode(
    max_in_flight: usize,
    num_workers: usize,
    router_mode: ReplayRouterMode,
) -> (plan: ReplayPlan)
    ensures
        plan@ == taking_perf_models(
            concurrency_replay_plan(max_in_flight, num_workers, router_mode),
        ),
{
    simulate_concurrency_workload_with_latency_model(
        max_in_flight,
        num_workers,
        router_mode,
    ).taking_perf_models()
}

/// Offline fixed-concurrency replay with a caller-supplied aggregated model.
pub fn simulate_concurrency_workload_with_latency_model(
    max_in_flight: usize,
    num_workers: usize,
    router_mode: ReplayRouterMode,
) -> (plan: ReplayPlan)
    ensures
        plan@ == concurrency_replay_plan(max_in_flight, num_workers, router_mode),
{
    let prefix = normalize_and_validate(
        ReplayStep::NormalizeArgs,
        Validation::OfflineConcurrency { num_workers, max_in_flight, router_mode },
    );
    offline::simulate_concurrency_workload_with_latency_model(
        max_in_flight,
        num_workers,
        router_mode,
        false,
        false,
    ).after(prefix)
}

/// Offline disaggregated fixed-concurrency replay with the given router mode.
pub fn simulate_concurrency_workload_disagg_with_router_mode(
    max_in_flight: usize,
    router_mode: ReplayRouterMode,
) -> (plan: ReplayPlan)
    ensures
        plan@ == taking_perf_models(disagg_concurrency_replay_plan(max_in_flight, router_mode)),
{
    simulate_concurrency_workload_disagg_with_latency_models(
        max_in_flight,
        router_mode,
    ).taking_perf_models()
}

/// Offline disaggregated fixed-concurrency replay with independent stage
/// latency models.
pub fn simulate_concurrency_workload_disagg_with_latency_models(
    max_in_flight: usize,
    router_mode: ReplayRouterMode,
) -> (plan: ReplayPlan)
    ensures
        plan@ == disagg_concurrency_replay_plan(max_in_flight, router_mode),
{
    let prefix = normalize_and_validate(
        ReplayStep::NormalizeDisaggConfig,
        Validation::OfflineDisaggConcurrency { max_in_flight, router_mode },
    );
    offline::simulate_concurrency_workload_disagg_with_latency_models(
        max_in_flight,
        router_mode,
        false,
        false,
    ).after(prefix)
}

/// Live fixed-concurrency replay, round-robin over `num_workers` workers.
pub fn simulate_concurrency_live_workload(max_in_flight: usize, num_workers: usize) -> (plan:
    ReplayPlan)
    ensures
        plan@ == live_concurrency_replay_plan(
            max_in_flight,
            num_workers,
            ReplayRouterMode::RoundRobin,
        ),
{
    simulate_concurrency_live_workload_with_router_mode(
        max_in_flight,
        num_workers,
        ReplayRouterMode::RoundRobin,
    )
}

/// Live fixed-concurrency replay with the given router mode.
pub fn simulate_concurrency_live_workload_with_router_mode(
    max_in_flight: usize,
    num_workers: usize,
    router_mode: ReplayRouterMode,
) -> (plan: ReplayPlan)
    ensures
        plan@ == live_concurrency_replay_plan(max_in_flight, num_workers, router_mode),
{
    let mut steps = normalize_and_validate(
        ReplayStep::NormalizeArgs,
        Validation::OnlineConcurrency { num_workers, max_in_flight },
    );
    steps.push(
        ReplayStep::RunOnline(
            OnlineRun { mode: ReplayMode::Concurrency { max_in_flight }, num_workers, router_mode },
        ),
    );
    ReplayPlan::from_steps(steps)
}

} // verus!
