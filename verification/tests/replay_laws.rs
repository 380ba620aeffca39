use mocker_replay::plan::{OfflineRuntime, ReplayPlan, ReplayRouterMode, ReplayStep, RunSettings};
use mocker_replay::workload;

fn public_plans(max_in_flight: usize, num_workers: usize, router_mode: ReplayRouterMode) -> Vec<ReplayPlan> {
    vec![
        workload::simulate_trace_workload_with_router_mode(num_workers, router_mode),
        workload::simulate_concurrency_workload_with_router_mode(max_in_flight, num_workers, router_mode),
        workload::simulate_trace_workload_disagg_with_router_mode(router_mode),
        workload::simulate_concurrency_workload_disagg_with_router_mode(max_in_flight, router_mode),
        workload::simulate_trace_live_workload_with_router_mode(num_workers, router_mode),
        workload::simulate_concurrency_live_workload_with_router_mode(max_in_flight, num_workers, router_mode),
    ]
}

fn all_public_plans() -> Vec<ReplayPlan> {
    let mut plans = Vec::new();
    for router_mode in [ReplayRouterMode::RoundRobin, ReplayRouterMode::KvRouter] {
        for num_workers in [0usize, 1, 2, 8] {
            plans.extend(public_plans(4, num_workers, router_mode));
        }
    }
    plans
}

#[test]
fn public_replays_validate_before_anything_else() {
    for plan in all_public_plans() {
        let steps = &plan.steps;
        let check = steps
            .iter()
            .position(|s| matches!(s, ReplayStep::Validate(_)))
            .unwrap();
        assert!(check == 1 || (check == 2 && steps[0] == ReplayStep::TakePerfModels));
        assert!(matches!(
            steps[check - 1],
            ReplayStep::NormalizeArgs | ReplayStep::NormalizeDisaggConfig
        ));
        assert!(steps[check + 1..].iter().all(|s| !matches!(s, ReplayStep::Validate(_))));
    }
}

#[test]
fn public_replays_keep_plain_settings() {
    for plan in all_public_plans() {
        for step in &plan.steps {
            match step {
                ReplayStep::RunOffline(run) => assert_eq!(
                    run.settings,
                    RunSettings::Explicit {
                        record_per_request: false,
                        limit_sim_time: false
                    }
                ),
                ReplayStep::BuildDriver(driver) => assert!(!driver.accumulate_session_deltas),
                _ => {}
            }
        }
    }
}

#[test]
fn offline_replays_build_one_driver_for_their_run_within_the_clock() {
    for router_mode in [ReplayRouterMode::RoundRobin, ReplayRouterMode::KvRouter] {
        for num_workers in [1usize, 3] {
            let plans = public_plans(5, num_workers, router_mode);
            for plan in &plans[..4] {
                let steps = &plan.steps;
                let drivers: Vec<usize> = (0..steps.len())
                    .filter(|&i| matches!(steps[i], ReplayStep::BuildDriver(_)))
                    .collect();
                let runs: Vec<usize> = (0..steps.len())
                    .filter(|&i| matches!(steps[i], ReplayStep::RunOffline(_)))
                    .collect();
                assert_eq!(drivers.len(), 1);
                assert_eq!(runs.len(), 1);
                assert!(drivers[0] < runs[0]);
                match (steps[drivers[0]], steps[runs[0]]) {
                    (ReplayStep::BuildDriver(d), ReplayStep::RunOffline(r)) => assert_eq!(d.mode, r.mode),
                    _ => unreachable!(),
                }
                let clock = steps
                    .iter()
                    .position(|s| *s == ReplayStep::StartWallClock)
                    .unwrap();
                assert!(clock < drivers[0]);
                assert_eq!(*steps.last().unwrap(), ReplayStep::FinishReport);
                assert!(!steps.iter().any(|s| matches!(s, ReplayStep::RunOnline(_))));
            }
            for plan in &plans[4..] {
                assert!(matches!(plan.steps.last().unwrap(), ReplayStep::RunOnline(_)));
                assert!(plan.steps.iter().all(|s| !matches!(
                    s,
                    ReplayStep::StartWallClock
                        | ReplayStep::BuildDriver(_)
                        | ReplayStep::RunOffline(_)
                        | ReplayStep::FinishReport
                )));
            }
        }
    }
}

#[test]
fn single_runtime_only_for_one_round_robin_worker() {
    for router_mode in [ReplayRouterMode::RoundRobin, ReplayRouterMode::KvRouter] {
        for num_workers in [0usize, 1, 2] {
            let plan = workload::simulate_trace_workload_with_router_mode(num_workers, router_mode);
            let single = num_workers == 1 && router_mode == ReplayRouterMode::RoundRobin;
            match plan.steps[6] {
                ReplayStep::RunOffline(run) => {
                    assert_eq!(run.with_router_inputs, !single);
                    if single {
                        assert_eq!(run.runtime, OfflineRuntime::Single);
                    } else {
                        assert_eq!(
                            run.runtime,
                            OfflineRuntime::Aggregated {
                                num_workers,
                                router_mode
                            }
                        );
                    }
                }
                _ => unreachable!(),
            }
        }
    }
}
