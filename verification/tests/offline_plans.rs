use mocker_replay::offline;
use mocker_replay::plan::{
    BlockSizeSource, DriverSpec, OfflineRun, OfflineRuntime, ReplayMode, ReplayRouterMode,
    ReplayStep, RunSettings,
};

fn engine_steps(
    runtime: OfflineRuntime,
    mode: ReplayMode,
    accumulate_session_deltas: bool,
    settings: RunSettings,
) -> Vec<ReplayStep> {
    vec![
        ReplayStep::StartWallClock,
        ReplayStep::NormalizeArgs,
        ReplayStep::BuildDriver(DriverSpec {
            mode,
            accumulate_session_deltas,
            block_size: BlockSizeSource::EngineArgs,
        }),
        ReplayStep::RunOffline(OfflineRun {
            runtime,
            mode,
            with_router_inputs: runtime != OfflineRuntime::Single,
            settings,
        }),
        ReplayStep::FinishReport,
    ]
}

fn taking_perf_models(steps: Vec<ReplayStep>) -> Vec<ReplayStep> {
    let mut all = vec![ReplayStep::TakePerfModels];
    all.extend(steps);
    all
}

#[test]
fn offline_trace_forwards_records_and_time_limit() {
    let plan = offline::simulate_trace_workload(1, ReplayRouterMode::RoundRobin, true, true);
    assert_eq!(
        plan.steps,
        taking_perf_models(engine_steps(
            OfflineRuntime::Single,
            ReplayMode::Trace,
            false,
            RunSettings::Explicit {
                record_per_request: true,
                limit_sim_time: true
            }
        ))
    );
}

#[test]
fn accumulating_trace_replay_accumulates_session_deltas() {
    let plan = offline::simulate_trace_workload_accumulating_deltas(
        3,
        ReplayRouterMode::KvRouter,
        false,
        true,
    );
    assert_eq!(
        plan.steps,
        taking_perf_models(engine_steps(
            OfflineRuntime::Aggregated {
                num_workers: 3,
                router_mode: ReplayRouterMode::KvRouter
            },
            ReplayMode::Trace,
            true,
            RunSettings::Explicit {
                record_per_request: false,
                limit_sim_time: true
            }
        ))
    );
    assert_eq!(
        plan.steps,
        taking_perf_models(offline::simulate_trace_workload_accumulating_deltas_with_latency_model(
            3,
            ReplayRouterMode::KvRouter,
            false,
            true
        ).steps)
    );
}

#[test]
fn accumulating_concurrency_replay_on_single_runtime() {
    let plan = offline::simulate_concurrency_workload_accumulating_deltas(
        6,
        1,
        ReplayRouterMode::RoundRobin,
        true,
        false,
    );
    assert_eq!(
        plan.steps,
        taking_perf_models(engine_steps(
            OfflineRuntime::Single,
            ReplayMode::Concurrency { max_in_flight: 6 },
            true,
            RunSettings::Explicit {
                record_per_request: true,
                limit_sim_time: false
            }
        ))
    );
    assert_eq!(
        plan.steps,
        taking_perf_models(offline::simulate_concurrency_workload_accumulating_deltas_with_latency_model(
            6,
            1,
            ReplayRouterMode::RoundRobin,
            true,
            false
        ).steps)
    );
}

#[test]
fn offline_concurrency_without_delta_accumulation() {
    let plan = offline::simulate_concurrency_workload(2, 5, ReplayRouterMode::RoundRobin, false, false);
    assert_eq!(
        plan.steps,
        taking_perf_models(engine_steps(
            OfflineRuntime::Aggregated {
                num_workers: 5,
                router_mode: ReplayRouterMode::RoundRobin
            },
            ReplayMode::Concurrency { max_in_flight: 2 },
            false,
            RunSettings::Explicit {
                record_per_request: false,
                limit_sim_time: false
            }
        ))
    );
    assert_eq!(
        plan.steps,
        taking_perf_models(offline::simulate_concurrency_workload_with_latency_model(
            2,
            5,
            ReplayRouterMode::RoundRobin,
            false,
            false
        ).steps)
    );
}

#[test]
fn agentic_replay_keeps_runtime_defaults() {
    assert_eq!(
        offline::simulate_agentic_trace_workload(1, ReplayRouterMode::RoundRobin).steps,
        taking_perf_models(engine_steps(
            OfflineRuntime::Single,
            ReplayMode::Trace,
            false,
            RunSettings::RuntimeDefaults
        ))
    );
    assert_eq!(
        offline::simulate_agentic_trace_workload_with_latency_model(2, ReplayRouterMode::RoundRobin)
            .steps,
        engine_steps(
            OfflineRuntime::Aggregated {
                num_workers: 2,
                router_mode: ReplayRouterMode::RoundRobin
            },
            ReplayMode::Trace,
            false,
            RunSettings::RuntimeDefaults
        )
    );
    assert_eq!(
        offline::simulate_agentic_trace_workload_single_with_latency_model(),
        offline::simulate_agentic_trace_workload_with_latency_model(1, ReplayRouterMode::RoundRobin)
    );
    assert_eq!(
        offline::simulate_agentic_trace_workload_multi_with_latency_model(
            1,
            ReplayRouterMode::KvRouter
        ),
        offline::simulate_agentic_trace_workload_with_latency_model(1, ReplayRouterMode::KvRouter)
    );
}

#[test]
fn runtime_builders_name_their_runtime() {
    let settings = RunSettings::Explicit {
        record_per_request: true,
        limit_sim_time: false,
    };
    assert_eq!(
        offline::simulate_trace_workload_single_with_latency_model(true, true, false).steps,
        engine_steps(OfflineRuntime::Single, ReplayMode::Trace, true, settings)
    );
    assert_eq!(
        offline::simulate_trace_workload_multi_with_latency_model(
            1,
            ReplayRouterMode::RoundRobin,
            false,
            true,
            false
        )
        .steps,
        engine_steps(
            OfflineRuntime::Aggregated {
                num_workers: 1,
                router_mode: ReplayRouterMode::RoundRobin
            },
            ReplayMode::Trace,
            false,
            settings
        )
    );
    assert_eq!(
        offline::simulate_concurrency_workload_single_with_latency_model(3, false, true, false).steps,
        engine_steps(
            OfflineRuntime::Single,
            ReplayMode::Concurrency { max_in_flight: 3 },
            false,
            settings
        )
    );
    assert_eq!(
        offline::simulate_concurrency_workload_multi_with_latency_model(
            3,
            2,
            ReplayRouterMode::KvRouter,
            true,
            true,
            false
        )
        .steps,
        engine_steps(
            OfflineRuntime::Aggregated {
                num_workers: 2,
                router_mode: ReplayRouterMode::KvRouter
            },
            ReplayMode::Concurrency { max_in_flight: 3 },
            true,
            settings
        )
    );
}

#[test]
fn offline_disaggregated_replays() {
    let settings = RunSettings::Explicit {
        record_per_request: true,
        limit_sim_time: true,
    };
    let trace = offline::simulate_trace_workload_disagg(ReplayRouterMode::KvRouter, true, true);
    assert_eq!(
        trace.steps,
        taking_perf_models(vec![
            ReplayStep::StartWallClock,
            ReplayStep::BuildDriver(DriverSpec {
                mode: ReplayMode::Trace,
                accumulate_session_deltas: false,
                block_size: BlockSizeSource::PrefillArgs,
            }),
            ReplayStep::RunOffline(OfflineRun {
                runtime: OfflineRuntime::Disaggregated {
                    router_mode: ReplayRouterMode::KvRouter
                },
                mode: ReplayMode::Trace,
                with_router_inputs: true,
                settings,
            }),
            ReplayStep::FinishReport,
        ])
    );
    assert_eq!(
        trace.steps,
        taking_perf_models(
            offline::simulate_trace_workload_disagg_with_latency_models(
                ReplayRouterMode::KvRouter,
                true,
                true
            )
            .steps
        )
    );
    let conc = offline::simulate_concurrency_workload_disagg(
        12,
        ReplayRouterMode::RoundRobin,
        true,
        true,
    );
    assert_eq!(
        conc.steps[2],
        ReplayStep::BuildDriver(DriverSpec {
            mode: ReplayMode::Concurrency { max_in_flight: 12 },
            accumulate_session_deltas: false,
            block_size: BlockSizeSource::PrefillArgs,
        })
    );
    assert_eq!(
        conc.steps,
        taking_perf_models(
            offline::simulate_concurrency_workload_disagg_with_latency_models(
                12,
                ReplayRouterMode::RoundRobin,
                true,
                true
            )
            .steps
        )
    );
}
