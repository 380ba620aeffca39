//! Offline replay: the choice of runtime and the plans of the offline
//! simulation paths.
//!
//! Every path here starts the wall clock, builds a driver from the trace,
//! runs one runtime and reports. The aggregated paths choose between the
//! single-worker runtime and the multi-worker one. The `_with_latency_model(s)`
//! variants run with the latency model(s) their caller supplies; the others
//! first take the perf model(s) of the arguments as handed in.
//! `limit_sim_time` says whether a maximum simulated time came with the
//! request.

use vstd::prelude::*;
use crate::plan::{
    ReplayRouterMode, ReplayMode, ReplayStep, ReplayPlan, DriverSpec, BlockSizeSource,
    OfflineRuntime, OfflineRun, RunSettings, engine_replay_steps, disaggregated_replay_steps,
    taking_perf_models,
};

verus! {

/// A replay runs on the single-worker runtime exactly when it has one
/// worker and does not route through the KV router.
pub open spec fn single_runtime_applies(num_workers: usize, router_mode: ReplayRouterMode) -> bool {
    num_workers == 1 && router_mode != ReplayRouterMode::KvRouter
}

/// The runtime an aggregated offline replay runs on.
pub open spec fn offline_runtime(num_workers: usize, router_mode: ReplayRouterMode) -> OfflineRuntime {
    if single_runtime_applies(num_workers, router_mode) {
        OfflineRuntime::Single
    } else {
        OfflineRuntime::Aggregated { num_workers, router_mode }
    }
}

/// Whether a replay with these workers and router mode runs on the
/// single-worker runtime.
pub fn use_single_runtime(num_workers: usize, router_mode: ReplayRouterMode) -> (single: bool)
    ensures
        single == single_runtime_applies(num_workers, router_mode),
{
    num_workers == 1 && match router_mode {
        ReplayRouterMode::KvRouter => false,
        ReplayRouterMode::RoundRobin => true,
    }
}

/// The plan of a replay on an engine runtime.
fn engine_replay(
    runtime: OfflineRuntime,
    mode: ReplayMode,
    accumulate_session_deltas: bool,
    settings: RunSettings,
) -> (plan: ReplayPlan)
    ensures
        plan@ == engine_replay_steps(runtime, mode, accumulate_session_deltas, settings),
{
    let mut steps: Vec<ReplayStep> = Vec::new();
    steps.push(ReplayStep::StartWallClock);
    steps.push(ReplayStep::NormalizeArgs);
    steps.push(
        ReplayStep::BuildDriver(
            DriverSpec { mode, accumulate_session_deltas, block_size: BlockSizeSource::EngineArgs },
        ),
    );
    let with_router_inputs = match runtime {
        OfflineRuntime::Single => false,
        _ => true,
    };
    steps.push(ReplayStep::RunOffline(OfflineRun { runtime, mode, with_router_inputs, settings }));
    steps.push(ReplayStep::FinishReport);
    ReplayPlan::from_steps(steps)
}

/// The plan of a replay on the disaggregated runtime.
fn disaggregated_replay(mode: ReplayMode, router_mode: ReplayRouterMode, settings: RunSettings) -> (plan:
    ReplayPlan)
    ensures
        plan@ == disaggregated_replay_steps(mode, router_mode, settings),
{
    let mut steps: Vec<ReplayStep> = Vec::new();
    steps.push(ReplayStep::StartWallClock);
    steps.push(
        ReplayStep::BuildDriver(
            DriverSpec {
                mode,
                accumulate_session_deltas: false,
                block_size: BlockSizeSource::PrefillArgs,
            },
        ),
    );
    steps.push(
        ReplayStep::RunOffline(
            OfflineRun {
                runtime: OfflineRuntime::Disaggregated { router_mode },
                mode,
                with_router_inputs: true,
                settings,
            },
        ),
    );
    steps.push(ReplayStep::FinishReport);
    ReplayPlan::from_steps(steps)
}

// ---------------------------------------------------------------------------
// Trace replay on aggregated workers
// ---------------------------------------------------------------------------

/// Offline trace replay with the perf model of the engine arguments as
/// handed in.
pub fn simulate_trace_workload(
    num_workers: usize,
    router_mode: ReplayRouterMode,
    record_per_request: bool,
    limit_sim_time: bool,
) -> (plan: ReplayPlan)
    ensures
        plan@ == taking_perf_models(
            engine_replay_steps(
                offline_runtime(num_workers, router_mode),
                ReplayMode::Trace,
                false,
                RunSettings::Explicit { record_per_request, limit_sim_time },
            ),
        ),
{
    simulate_trace_workload_with_latency_model(
        num_workers,
        router_mode,
        record_per_request,
        limit_sim_time,
    ).taking_perf_models()
}

/// Offline trace replay with a latency model given by the caller.
pub fn simulate_trace_workload_with_latency_model(
    num_workers: usize,
    router_mode: ReplayRouterMode,
    record_per_request: bool,
    limit_sim_time: bool,
) -> (plan: ReplayPlan)
    ensures
        plan@ == engine_replay_steps(
            offline_runtime(num_workers, router_mode),
            ReplayMode::Trace,
            false,
            RunSettings::Explicit { record_per_request, limit_sim_time },
        ),
{
    simulate_trace_workload_with_latency_model_and_delta_mode(
        num_workers,
        router_mode,
        false,
        record_per_request,
        limit_sim_time,
    )
}

/// Offline trace replay of an agentic trace, with the perf model of the
/// engine arguments and the runtime's default settings.
pub fn simulate_agentic_trace_workload(num_workers: usize, router_mode: ReplayRouterMode) -> (plan:
    ReplayPlan)
    ensures
        plan@ == taking_perf_models(
            engine_replay_steps(
                offline_runtime(num_workers, router_mode),
                ReplayMode::Trace,
                false,
                RunSettings::RuntimeDefaults,
            ),
        ),
{
    simulate_agentic_trace_workload_with_latency_model(num_workers, router_mode).taking_perf_models()
}

/// Offline trace replay of an agentic trace with a latency model given by
/// the caller: one worker without the KV router runs on the single-worker
/// runtime, anything else on the multi-worker one.
pub fn simulate_agentic_trace_workload_with_latency_model(
    num_workers: usize,
    router_mode: ReplayRouterMode,
) -> (plan: ReplayPlan)
    ensures
        plan@ == engine_replay_steps(
            offline_runtime(num_workers, router_mode),
            ReplayMode::Trace,
            false,
            RunSettings::RuntimeDefaults,
        ),
{
    if use_single_runtime(num_workers, router_mode) {
        simulate_agentic_trace_workload_single_with_latency_model()
    } else {
        simulate_agentic_trace_workload_multi_with_latency_model(num_workers, router_mode)
    }
}

/// Offline trace replay in which sessions accumulate the deltas of earlier
/// turns, with the perf model of the engine arguments.
pub fn simulate_trace_workload_accumulating_deltas(
    num_workers: usize,
    router_mode: ReplayRouterMode,
    record_per_request: bool,
    limit_sim_time: bool,
) -> (plan: ReplayPlan)
    ensures
        plan@ == taking_perf_models(
            engine_replay_steps(
                offline_runtime(num_workers, router_mode),
                ReplayMode::Trace,
                true,
                RunSettings::Explicit { record_per_request, limit_sim_time },
            ),
        ),
{
    simulate_trace_workload_accumulating_deltas_with_latency_model(
        num_workers,
        router_mode,
        record_per_request,
        limit_sim_time,
    ).taking_perf_models()
}

/// Offline trace replay in which sessions accumulate the deltas of earlier
/// turns, with a latency model given by the caller.
pub fn simulate_trace_workload_accumulating_deltas_with_latency_model(
    num_workers: usize,
    router_mode: ReplayRouterMode,
    record_per_request: bool,
    limit_sim_time: bool,
) -> (plan: ReplayPlan)
    ensures
        plan@ == engine_replay_steps(
            offline_runtime(num_workers, router_mode),
            ReplayMode::Trace,
            true,
            RunSettings::Explicit { record_per_request, limit_sim_time },
        ),
{
    simulate_trace_workload_with_latency_model_and_delta_mode(
        num_workers,
        router_mode,
        true,
        record_per_request,
        limit_sim_time,
    )
}

/// Offline trace replay: the single-worker runtime for one worker without
/// the KV router, the multi-worker runtime otherwise.
fn simulate_trace_workload_with_latency_model_and_delta_mode(
    num_workers: usize,
    router_mode: ReplayRouterMode,
    accumulate_session_deltas: bool,
    record_per_request: bool,
    limit_sim_time: bool,
) -> (plan: ReplayPlan)
    ensures
        plan@ == engine_replay_steps(
            offline_runtime(num_workers, router_mode),
            ReplayMode::Trace,
            accumulate_session_deltas,
            RunSettings::Explicit { record_per_request, limit_sim_time },
        ),
{
    if use_single_runtime(num_workers, router_mode) {
        simulate_trace_workload_single_with_latency_model(
            accumulate_session_deltas,
            record_per_request,
            limit_sim_time,
        )
    } else {
        simulate_trace_workload_multi_with_latency_model(
            num_workers,
            router_mode,
            accumulate_session_deltas,
            record_per_request,
            limit_sim_time,
        )
    }
}

// ---------------------------------------------------------------------------
// Fixed-concurrency replay on aggregated workers
// ---------------------------------------------------------------------------

/// Offline fixed-concurrency replay with the perf model of the engine
/// arguments.
pub fn simulate_concurrency_workload(
    max_in_flight: usize,
    num_workers: usize,
    router_mode: ReplayRouterMode,
    record_per_request: bool,
    limit_sim_time: bool,
) -> (plan: ReplayPlan)
    ensures
        plan@ == taking_perf_models(
            engine_replay_steps(
                offline_runtime(num_workers, router_mode),
                ReplayMode::Concurrency { max_in_flight },
                false,
                RunSettings::Explicit { record_per_request, limit_sim_time },
            ),
        ),
{
    simulate_concurrency_workload_with_latency_model(
        max_in_flight,
        num_workers,
        router_mode,
        record_per_request,
        limit_sim_time,
    ).taking_perf_models()
}

/// Offline fixed-concurrency replay with a latency model given by the caller.
pub fn simulate_concurrency_workload_with_latency_model(
    max_in_flight: usize,
    num_workers: usize,
    router_mode: ReplayRouterMode,
    record_per_request: bool,
    limit_sim_time: bool,
) -> (plan: ReplayPlan)
    ensures
        plan@ == engine_replay_steps(
            offline_runtime(num_workers, router_mode),
            ReplayMode::Concurrency { max_in_flight },
            false,
            RunSettings::Explicit { record_per_request, limit_sim_time },
        ),
{
    simulate_concurrency_workload_with_latency_model_and_delta_mode(
        max_in_flight,
        num_workers,
        router_mode,
        false,
        record_per_request,
        limit_sim_time,
    )
}

/// Offline fixed-concurrency replay in which sessions accumulate the deltas
/// of earlier turns, with the perf model of the engine arguments.
pub fn simulate_concurrency_workload_accumulating_deltas(
    max_in_flight: usize,
    num_workers: usize,
    router_mode: ReplayRouterMode,
    record_per_request: bool,
    limit_sim_time: bool,
) -> (plan: ReplayPlan)
    ensures
        plan@ == taking_perf_models(
            engine_replay_steps(
                offline_runtime(num_workers, router_mode),
                ReplayMode::Concurrency { max_in_flight },
                true,
                RunSettings::Explicit { record_per_request, limit_sim_time },
            ),
        ),
{
    simulate_concurrency_workload_accumulating_deltas_with_latency_model(
        max_in_flight,
        num_workers,
        router_mode,
        record_per_request,
        limit_sim_time,
    ).taking_perf_models()
}

/// Offline fixed-concurrency replay in which sessions accumulate the deltas
/// of earlier turns, with a latency model given by the caller.
pub fn simulate_concurrency_workload_accumulating_deltas_with_latency_model(
    max_in_flight: usize,
    num_workers: usize,
    router_mode: ReplayRouterMode,
    record_per_request: bool,
    limit_sim_time: bool,
) -> (plan: ReplayPlan)
    ensures
        plan@ == engine_replay_steps(
            offline_runtime(num_workers, router_mode),
            ReplayMode::Concurrency { max_in_flight },
            true,
            RunSettings::Explicit { record_per_request, limit_sim_time },
        ),
{
    simulate_concurrency_workload_with_latency_model_and_delta_mode(
        max_in_flight,
        num_workers,
        router_mode,
        true,
        record_per_request,
        limit_sim_time,
    )
}

/// Offline fixed-concurrency replay: the single-worker runtime for one
/// worker without the KV router, the multi-worker runtime otherwise.
fn simulate_concurrency_workload_with_latency_model_and_delta_mode(
    max_in_flight: usize,
    num_workers: usize,
    router_mode: ReplayRouterMode,
    accumulate_session_deltas: bool,
    record_per_request: bool,
    limit_sim_time: bool,
) -> (plan: ReplayPlan)
    ensures
        plan@ == engine_replay_steps(
            offline_runtime(num_workers, router_mode),
            ReplayMode::Concurrency { max_in_flight },
            accumulate_session_deltas,
            RunSettings::Explicit { record_per_request, limit_sim_time },
        ),
{
    if use_single_runtime(num_workers, router_mode) {
        simulate_concurrency_workload_single_with_latency_model(
            max_in_flight,
            accumulate_session_deltas,
            record_per_request,
            limit_sim_time,
        )
    } else {
        simulate_concurrency_workload_multi_with_latency_model(
            max_in_flight,
            num_workers,
            router_mode,
            accumulate_session_deltas,
            record_per_request,
            limit_sim_time,
        )
    }
}

// ---------------------------------------------------------------------------
// Disaggregated replay
// ---------------------------------------------------------------------------

/// Offline disaggregated trace replay with the perf models of the prefill
/// and decode arguments.
pub fn simulate_trace_workload_disagg(
    router_mode: ReplayRouterMode,
    record_per_request: bool,
    limit_sim_time: bool,
) -> (plan: ReplayPlan)
    ensures
        plan@ == taking_perf_models(
            disaggregated_replay_steps(
                ReplayMode::Trace,
                router_mode,
                RunSettings::Explicit { record_per_request, limit_sim_time },
            ),
        ),
{
    simulate_trace_workload_disagg_with_latency_models(
        router_mode,
        record_per_request,
        limit_sim_time,
    ).taking_perf_models()
}

/// Offline disaggregated trace replay with stage latency models given by the
/// caller.
pub fn simulate_trace_workload_disagg_with_latency_models(
    router_mode: ReplayRouterMode,
    record_per_request: bool,
    limit_sim_time: bool,
) -> (plan: ReplayPlan)
    ensures
        plan@ == disaggregated_replay_steps(
            ReplayMode::Trace,
            router_mode,
            RunSettings::Explicit { record_per_request, limit_sim_time },
        ),
{
    disaggregated_replay(
        ReplayMode::Trace,
        router_mode,
        RunSettings::Explicit { record_per_request, limit_sim_time },
    )
}

/// Offline disaggregated fixed-concurrency replay with the perf models of the
/// prefill and decode arguments.
pub fn simulate_concurrency_workload_disagg(
    max_in_flight: usize,
    router_mode: ReplayRouterMode,
    record_per_request: bool,
    limit_sim_time: bool,
) -> (plan: ReplayPlan)
    ensures
        plan@ == taking_perf_models(
            disaggregated_replay_steps(
                ReplayMode::Concurrency { max_in_flight },
                router_mode,
                RunSettings::Explicit { record_per_request, limit_sim_time },
            ),
        ),
{
    simulate_concurrency_workload_disagg_with_latency_models(
        max_in_flight,
        router_mode,
        record_per_request,
        limit_sim_time,
    ).taking_perf_models()
}

/// Offline disaggregated fixed-concurrency replay with stage latency models
/// given by the caller.
pub fn simulate_concurrency_workload_disagg_with_latency_models(
    max_in_flight: usize,
    router_mode: ReplayRouterMode,
    record_per_request: bool,
    limit_sim_time: bool,
) -> (plan: ReplayPlan)
    ensures
        plan@ == disaggregated_replay_steps(
            ReplayMode::Concurrency { max_in_flight },
            router_mode,
            RunSettings::Explicit { record_per_request, limit_sim_time },
        ),
{
    disaggregated_replay(
        ReplayMode::Concurrency { max_in_flight },
        router_mode,
        RunSettings::Explicit { record_per_request, limit_sim_time },
    )
}

// ---------------------------------------------------------------------------
// The runtimes
// ---------------------------------------------------------------------------

/// Trace replay on the single-worker runtime.
pub fn simulate_trace_workload_single_with_latency_model(
    accumulate_session_deltas: bool,
    record_per_request: bool,
    limit_sim_time: bool,
) -> (plan: ReplayPlan)
    ensures
        plan@ == engine_replay_steps(
            OfflineRuntime::Single,
            ReplayMode::Trace,
            accumulate_session_deltas,
            RunSettings::Explicit { record_per_request, limit_sim_time },
        ),
{
    engine_replay(
        OfflineRuntime::Single,
        ReplayMode::Trace,
        accumulate_session_deltas,
        RunSettings::Explicit { record_per_request, limit_sim_time },
    )
}

/// Agentic trace replay on the single-worker runtime with its default
/// settings.
pub fn simulate_agentic_trace_workload_single_with_latency_model() -> (plan: ReplayPlan)
    ensures
        plan@ == engine_replay_steps(
            OfflineRuntime::Single,
            ReplayMode::Trace,
            false,
            RunSettings::RuntimeDefaults,
        ),
{
    engine_replay(OfflineRuntime::Single, ReplayMode::Trace, false, RunSettings::RuntimeDefaults)
}

/// Fixed-concurrency replay on the single-worker runtime.
pub fn simulate_concurrency_workload_single_with_latency_model(
    max_in_flight: usize,
    accumulate_session_deltas: bool,
    record_per_request: bool,
    limit_sim_time: bool,
) -> (plan: ReplayPlan)
    ensures
        plan@ == engine_replay_steps(
            OfflineRuntime::Single,
            ReplayMode::Concurrency { max_in_flight },
            accumulate_session_deltas,
            RunSettings::Explicit { record_per_request, limit_sim_time },
        ),
{
    engine_replay(
        OfflineRuntime::Single,
        ReplayMode::Concurrency { max_in_flight },
        accumulate_session_deltas,
        RunSettings::Explicit { record_per_request, limit_sim_time },
    )
}

/// Trace replay on the multi-worker runtime.
pub fn simulate_trace_workload_multi_with_latency_model(
    num_workers: usize,
    router_mode: ReplayRouterMode,
    accumulate_session_deltas: bool,
    record_per_request: bool,
    limit_sim_time: bool,
) -> (plan: ReplayPlan)
    ensures
        plan@ == engine_replay_steps(
            OfflineRuntime::Aggregated { num_workers, router_mode },
            ReplayMode::Trace,
            accumulate_session_deltas,
            RunSettings::Explicit { record_per_request, limit_sim_time },
        ),
{
    engine_replay(
        OfflineRuntime::Aggregated { num_workers, router_mode },
        ReplayMode::Trace,
        accumulate_session_deltas,
        RunSettings::Explicit { record_per_request, limit_sim_time },
    )
}

/// Agentic trace replay on the multi-worker runtime with its default
/// settings.
pub fn simulate_agentic_trace_workload_multi_with_latency_model(
    num_workers: usize,
    router_mode: ReplayRouterMode,
) -> (plan: ReplayPlan)
    ensures
        plan@ == engine_replay_steps(
            OfflineRuntime::Aggregated { num_workers, router_mode },
            ReplayMode::Trace,
            false,
            RunSettings::RuntimeDefaults,
        ),
{
    engine_replay(
        OfflineRuntime::Aggregated { num_workers, router_mode },
        ReplayMode::Trace,
        false,
        RunSettings::RuntimeDefaults,
    )
}

/// Fixed-concurrency replay on the multi-worker runtime.
pub fn simulate_concurrency_workload_multi_with_latency_model(
    max_in_flight: usize,
    num_workers: usize,
    router_mode: ReplayRouterMode,
    accumulate_session_deltas: bool,
    record_per_request: bool,
    limit_sim_time: bool,
) -> (plan: ReplayPlan)
    ensures
        plan@ == engine_replay_steps(
            OfflineRuntime::Aggregated { num_workers, router_mode },
            ReplayMode::Concurrency { max_in_flight },
            accumulate_session_deltas,
            RunSettings::Explicit { record_per_request, limit_sim_time },
        ),
{
    engine_replay(
        OfflineRuntime::Aggregated { num_workers, router_mode },
        ReplayMode::Concurrency { max_in_flight },
        accumulate_session_deltas,
        RunSettings::Explicit { record_per_request, limit_sim_time },
    )
}

} // verus!
