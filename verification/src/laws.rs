//! Properties that every replay plan of the library keeps.

use vstd::prelude::*;
use crate::plan::{
    ReplayRouterMode, ReplayMode, ReplayStep, Validation, OfflineRuntime, RunSettings, OnlineRun,
    BlockSizeSource, engine_replay_steps, disaggregated_replay_steps, taking_perf_models,
};
use crate::execution::{StepOutcome, replay_run, lemma_first_failure_ends_replay};
use crate::offline::{offline_runtime, single_runtime_applies};
use crate::workload::{
    trace_replay_plan, disagg_trace_replay_plan, live_trace_replay_plan, concurrency_replay_plan,
    disagg_concurrency_replay_plan, live_concurrency_replay_plan,
};

verus! {

/// A step that prepares the arguments of a replay: taking the perf models,
/// or normalising.
pub open spec fn prepares(step: ReplayStep) -> bool {
    step is TakePerfModels || step is NormalizeArgs || step is NormalizeDisaggConfig
}

/// The plan only prepares its arguments before step `check`, normalises them
/// right before it, runs the check `validation` there, and runs no other
/// check later.
pub open spec fn validates_first_at(plan: Seq<ReplayStep>, validation: Validation, check: int) -> bool {
    &&& 1 <= check < plan.len()
    &&& plan[check] == ReplayStep::Validate(validation)
    &&& (plan[check - 1] is NormalizeArgs || plan[check - 1] is NormalizeDisaggConfig)
    &&& forall|i: int| 0 <= i < check ==> prepares(#[trigger] plan[i])
    &&& forall|i: int| check < i < plan.len() ==> !(#[trigger] plan[i] is Validate)
}

/// The plan builds exactly one driver and runs exactly one offline runtime,
/// the driver first, and both release requests in the same way.
pub open spec fn driver_feeds_run(plan: Seq<ReplayStep>) -> bool {
    exists|d: int, r: int|
        #![trigger plan[d], plan[r]]
        {
            &&& 0 <= d < r < plan.len()
            &&& plan[d] matches ReplayStep::BuildDriver(driver)
            &&& plan[r] matches ReplayStep::RunOffline(run)
            &&& driver.mode == run.mode
            &&& forall|i: int|
                0 <= i < plan.len() && i != d ==> !(#[trigger] plan[i] is BuildDriver)
            &&& forall|i: int| 0 <= i < plan.len() && i != r ==> !(#[trigger] plan[i] is RunOffline)
        }
}

/// The plan starts the wall clock before it builds a driver or runs, and
/// ends with the report.
pub open spec fn timed(plan: Seq<ReplayStep>) -> bool {
    &&& plan.len() > 0
    &&& plan.last() == ReplayStep::FinishReport
    &&& exists|c: int|
        #![trigger plan[c]]
        {
            &&& 0 <= c < plan.len()
            &&& plan[c] == ReplayStep::StartWallClock
            &&& forall|i: int|
                0 <= i < plan.len() && (#[trigger] plan[i] is BuildDriver || plan[i] is RunOffline)
                    ==> c < i
        }
}

/// The plan neither records per-request results, nor limits the simulated
/// time, nor accumulates session deltas.
pub open spec fn plain_settings(plan: Seq<ReplayStep>) -> bool {
    &&& forall|i: int|
        0 <= i < plan.len() ==> (#[trigger] plan[i] matches ReplayStep::RunOffline(run) ==> run.settings
            == RunSettings::Explicit { record_per_request: false, limit_sim_time: false })
    &&& forall|i: int|
        0 <= i < plan.len() ==> (#[trigger] plan[i] matches ReplayStep::BuildDriver(driver)
            ==> !driver.accumulate_session_deltas)
}

/// The plan replays live: its last step runs against live workers, and it
/// neither starts the clock, builds a driver, simulates offline nor reports.
pub open spec fn runs_live(plan: Seq<ReplayStep>) -> bool {
    &&& plan.len() > 0
    &&& plan.last() is RunOnline
    &&& forall|i: int|
        0 <= i < plan.len() ==> !(#[trigger] plan[i] is StartWallClock || plan[i] is BuildDriver
            || plan[i] is RunOffline || plan[i] is FinishReport)
}

/// The plan simulates offline only: no step of it runs against live workers.
pub open spec fn runs_offline(plan: Seq<ReplayStep>) -> bool {
    forall|i: int| 0 <= i < plan.len() ==> !(#[trigger] plan[i] is RunOnline)
}

/// An offline plan on an engine runtime builds one driver for its one run,
/// in the run's release mode, between the start of the clock and the report.
pub proof fn lemma_engine_replay_shape(
    runtime: OfflineRuntime,
    mode: ReplayMode,
    accumulate_session_deltas: bool,
    settings: RunSettings,
)
    ensures
        driver_feeds_run(engine_replay_steps(runtime, mode, accumulate_session_deltas, settings)),
        timed(engine_replay_steps(runtime, mode, accumulate_session_deltas, settings)),
        runs_offline(engine_replay_steps(runtime, mode, accumulate_session_deltas, settings)),
{
    let p = engine_replay_steps(runtime, mode, accumulate_session_deltas, settings);
    assert(p[2] is BuildDriver && p[3] is RunOffline);
    assert(p[0] == ReplayStep::StartWallClock);
}

/// A disaggregated plan builds one driver for its one run, in the run's
/// release mode, between the start of the clock and the report.
pub proof fn lemma_disaggregated_replay_shape(
    mode: ReplayMode,
    router_mode: ReplayRouterMode,
    settings: RunSettings,
)
    ensures
        driver_feeds_run(disaggregated_replay_steps(mode, router_mode, settings)),
        timed(disaggregated_replay_steps(mode, router_mode, settings)),
        runs_offline(disaggregated_replay_steps(mode, router_mode, settings)),
{
    let p = disaggregated_replay_steps(mode, router_mode, settings);
    assert(p[1] is BuildDriver && p[2] is RunOffline);
    assert(p[0] == ReplayStep::StartWallClock);
}

/// Every public replay normalises its arguments and checks them for its
/// kind of replay before anything else, and checks them only once; the
/// offline `_with_router_mode` forms take the perf models first.
pub proof fn lemma_public_replays_validate_first(
    max_in_flight: usize,
    num_workers: usize,
    router_mode: ReplayRouterMode,
)
    ensures
        validates_first_at(
            trace_replay_plan(num_workers, router_mode),
            Validation::OfflineReplay { num_workers, router_mode },
            1,
        ),
        validates_first_at(
            taking_perf_models(trace_replay_plan(num_workers, router_mode)),
            Validation::OfflineReplay { num_workers, router_mode },
            2,
        ),
        validates_first_at(
            concurrency_replay_plan(max_in_flight, num_workers, router_mode),
            Validation::OfflineConcurrency { num_workers, max_in_flight, router_mode },
            1,
        ),
        validates_first_at(
            taking_perf_models(concurrency_replay_plan(max_in_flight, num_workers, router_mode)),
            Validation::OfflineConcurrency { num_workers, max_in_flight, router_mode },
            2,
        ),
        validates_first_at(
            disagg_trace_replay_plan(router_mode),
            Validation::OfflineDisaggReplay { router_mode },
            1,
        ),
        validates_first_at(
            taking_perf_models(disagg_trace_replay_plan(router_mode)),
            Validation::OfflineDisaggReplay { router_mode },
            2,
        ),
        validates_first_at(
            disagg_concurrency_replay_plan(max_in_flight, router_mode),
            Validation::OfflineDisaggConcurrency { max_in_flight, router_mode },
            1,
        ),
        validates_first_at(
            taking_perf_models(disagg_concurrency_replay_plan(max_in_flight, router_mode)),
            Validation::OfflineDisaggConcurrency { max_in_flight, router_mode },
            2,
        ),
        validates_first_at(
            live_trace_replay_plan(num_workers, router_mode),
            Validation::OnlineReplay { num_workers },
            1,
        ),
        validates_first_at(
            live_concurrency_replay_plan(max_in_flight, num_workers, router_mode),
            Validation::OnlineConcurrency { num_workers, max_in_flight },
            1,
        ),
{
}

/// When preparing or checking the arguments fails, that failure ends the
/// replay with its error: nothing is simulated, neither offline nor live.
pub proof fn lemma_failed_check_simulates_nothing<E>(
    plan: Seq<ReplayStep>,
    validation: Validation,
    check: int,
    results: Seq<Result<(), E>>,
    failed: int,
)
    requires
        validates_first_at(plan, validation, check),
        results.len() == plan.len(),
        0 <= failed <= check,
        results[failed] is Err,
        forall|i: int| 0 <= i < failed ==> #[trigger] results[i] is Ok,
    ensures
        replay_run(plan, results, 0, StepOutcome::NoneYet) == (results[failed], (failed + 1) as nat),
        forall|i: int| 0 <= i <= failed ==> prepares(#[trigger] plan[i]) || plan[i] is Validate,
{
    lemma_first_failure_ends_replay(plan, results, failed);
}

/// A replay in which a step before the report fails makes no report: it ends
/// with that step's error, and the report, its last step, is not performed.
pub proof fn lemma_failed_replay_makes_no_report<E>(
    plan: Seq<ReplayStep>,
    results: Seq<Result<(), E>>,
    failed: int,
)
    requires
        timed(plan),
        results.len() == plan.len(),
        0 <= failed < plan.len() - 1,
        results[failed] is Err,
        forall|i: int| 0 <= i < failed ==> #[trigger] results[i] is Ok,
    ensures
        replay_run(plan, results, 0, StepOutcome::NoneYet).0 == results[failed],
        replay_run(plan, results, 0, StepOutcome::NoneYet).1 < plan.len(),
{
    lemma_first_failure_ends_replay(plan, results, failed);
}

/// No public replay records per-request results, limits the simulated
/// time, or accumulates session deltas.
pub proof fn lemma_public_replays_plain(
    max_in_flight: usize,
    num_workers: usize,
    router_mode: ReplayRouterMode,
)
    ensures
        plain_settings(trace_replay_plan(num_workers, router_mode)),
        plain_settings(concurrency_replay_plan(max_in_flight, num_workers, router_mode)),
        plain_settings(disagg_trace_replay_plan(router_mode)),
        plain_settings(disagg_concurrency_replay_plan(max_in_flight, router_mode)),
        plain_settings(live_trace_replay_plan(num_workers, router_mode)),
        plain_settings(live_concurrency_replay_plan(max_in_flight, num_workers, router_mode)),
        plain_settings(taking_perf_models(trace_replay_plan(num_workers, router_mode))),
        plain_settings(
            taking_perf_models(concurrency_replay_plan(max_in_flight, num_workers, router_mode)),
        ),
        plain_settings(taking_perf_models(disagg_trace_replay_plan(router_mode))),
        plain_settings(taking_perf_models(disagg_concurrency_replay_plan(max_in_flight, router_mode))),
{
}

/// The offline public replays simulate offline only, build one driver for
/// their one run in the run's release mode, and are timed from before the
/// driver is built to the report; the live ones replay live only.
pub proof fn lemma_public_replays_offline_or_live(
    max_in_flight: usize,
    num_workers: usize,
    router_mode: ReplayRouterMode,
)
    ensures
        driver_feeds_run(trace_replay_plan(num_workers, router_mode)),
        driver_feeds_run(concurrency_replay_plan(max_in_flight, num_workers, router_mode)),
        driver_feeds_run(disagg_trace_replay_plan(router_mode)),
        driver_feeds_run(disagg_concurrency_replay_plan(max_in_flight, router_mode)),
        timed(trace_replay_plan(num_workers, router_mode)),
        timed(concurrency_replay_plan(max_in_flight, num_workers, router_mode)),
        timed(disagg_trace_replay_plan(router_mode)),
        timed(disagg_concurrency_replay_plan(max_in_flight, router_mode)),
        runs_offline(trace_replay_plan(num_workers, router_mode)),
        runs_offline(concurrency_replay_plan(max_in_flight, num_workers, router_mode)),
        runs_offline(disagg_trace_replay_plan(router_mode)),
        runs_offline(disagg_concurrency_replay_plan(max_in_flight, router_mode)),
        driver_feeds_run(taking_perf_models(trace_replay_plan(num_workers, router_mode))),
        driver_feeds_run(
            taking_perf_models(concurrency_replay_plan(max_in_flight, num_workers, router_mode)),
        ),
        driver_feeds_run(taking_perf_models(disagg_trace_replay_plan(router_mode))),
        driver_feeds_run(
            taking_perf_models(disagg_concurrency_replay_plan(max_in_flight, router_mode)),
        ),
        timed(taking_perf_models(trace_replay_plan(num_workers, router_mode))),
        timed(taking_perf_models(concurrency_replay_plan(max_in_flight, num_workers, router_mode))),
        timed(taking_perf_models(disagg_trace_replay_plan(router_mode))),
        timed(taking_perf_models(disagg_concurrency_replay_plan(max_in_flight, router_mode))),
        runs_offline(taking_perf_models(trace_replay_plan(num_workers, router_mode))),
        runs_offline(
            taking_perf_models(concurrency_replay_plan(max_in_flight, num_workers, router_mode)),
        ),
        runs_offline(taking_perf_models(disagg_trace_replay_plan(router_mode))),
        runs_offline(taking_perf_models(disagg_concurrency_replay_plan(max_in_flight, router_mode))),
        runs_live(live_trace_replay_plan(num_workers, router_mode)),
        runs_live(live_concurrency_replay_plan(max_in_flight, num_workers, router_mode)),
{
    let t = trace_replay_plan(num_workers, router_mode);
    let c = concurrency_replay_plan(max_in_flight, num_workers, router_mode);
    let dt = disagg_trace_replay_plan(router_mode);
    let dc = disagg_concurrency_replay_plan(max_in_flight, router_mode);
    assert(t[4] is BuildDriver && t[5] is RunOffline && t[2] == ReplayStep::StartWallClock);
    assert(c[4] is BuildDriver && c[5] is RunOffline && c[2] == ReplayStep::StartWallClock);
    assert(dt[3] is BuildDriver && dt[4] is RunOffline && dt[2] == ReplayStep::StartWallClock);
    assert(dc[3] is BuildDriver && dc[4] is RunOffline && dc[2] == ReplayStep::StartWallClock);
    let pt = taking_perf_models(t);
    let pc = taking_perf_models(c);
    let pdt = taking_perf_models(dt);
    let pdc = taking_perf_models(dc);
    assert(pt[5] is BuildDriver && pt[6] is RunOffline && pt[3] == ReplayStep::StartWallClock);
    assert(pc[5] is BuildDriver && pc[6] is RunOffline && pc[3] == ReplayStep::StartWallClock);
    assert(pdt[4] is BuildDriver && pdt[5] is RunOffline && pdt[3] == ReplayStep::StartWallClock);
    assert(pdc[4] is BuildDriver && pdc[5] is RunOffline && pdc[3] == ReplayStep::StartWallClock);
}

/// An aggregated public replay runs on the single-worker runtime exactly
/// when it has one worker and routes round-robin, and otherwise on the
/// multi-worker runtime with its workers and router mode; only the latter
/// is built with the router configuration and prefill load estimator.
pub proof fn lemma_public_runtime_choice(
    max_in_flight: usize,
    num_workers: usize,
    router_mode: ReplayRouterMode,
)
    ensures
        trace_replay_plan(num_workers, router_mode)[5] matches ReplayStep::RunOffline(run) && (
        run.runtime == OfflineRuntime::Single <==> (num_workers == 1 && router_mode
            == ReplayRouterMode::RoundRobin)) && (run.runtime != OfflineRuntime::Single
            ==> run.runtime == OfflineRuntime::Aggregated { num_workers, router_mode }) && (
        run.with_router_inputs <==> run.runtime != OfflineRuntime::Single),
        concurrency_replay_plan(max_in_flight, num_workers, router_mode)[5] matches ReplayStep::RunOffline(
            run,
        ) && (run.runtime == OfflineRuntime::Single <==> (num_workers == 1 && router_mode
            == ReplayRouterMode::RoundRobin)) && (run.runtime != OfflineRuntime::Single
            ==> run.runtime == OfflineRuntime::Aggregated { num_workers, router_mode }) && (
        run.with_router_inputs <==> run.runtime != OfflineRuntime::Single),
{
}

/// The plan simulates offline on `runtime`, releasing requests in `mode`:
/// it runs at least once, every run is on `runtime` in `mode`, and every
/// driver it builds releases requests in `mode` with the block size of
/// `block_size`.
pub open spec fn simulates_offline_on(
    plan: Seq<ReplayStep>,
    runtime: OfflineRuntime,
    mode: ReplayMode,
    block_size: BlockSizeSource,
) -> bool {
    &&& exists|r: int| 0 <= r < plan.len() && #[trigger] plan[r] is RunOffline
    &&& forall|i: int|
        0 <= i < plan.len() ==> (#[trigger] plan[i] matches ReplayStep::RunOffline(run)
            ==> run.runtime == runtime && run.mode == mode)
    &&& forall|i: int|
        0 <= i < plan.len() ==> (#[trigger] plan[i] matches ReplayStep::BuildDriver(driver)
            ==> driver.mode == mode && driver.block_size == block_size)
}

/// The plan replays live exactly as `run` says: its last step is that live
/// run, and it has no other live run.
pub open spec fn replays_live_as(plan: Seq<ReplayStep>, run: OnlineRun) -> bool {
    &&& plan.len() > 0
    &&& plan.last() == ReplayStep::RunOnline(run)
    &&& forall|i: int|
        0 <= i < plan.len() && (#[trigger] plan[i] is RunOnline) ==> plan[i]
            == ReplayStep::RunOnline(run)
}

/// The runtime that `num_workers` workers routed by `router_mode` are
/// simulated on: one round-robin worker alone, anything else behind the
/// router with exactly those workers and that router mode.
pub open spec fn aggregated_runtime_for(num_workers: usize, router_mode: ReplayRouterMode) -> OfflineRuntime {
    if num_workers == 1 && router_mode == ReplayRouterMode::RoundRobin {
        OfflineRuntime::Single
    } else {
        OfflineRuntime::Aggregated { num_workers, router_mode }
    }
}

/// A disaggregated replay runs its prefill and decode workers with the
/// router mode it was asked for (the one its check was run with), releases
/// requests by their trace timestamps for a trace replay and with at most
/// `max_in_flight` in flight for a fixed-concurrency replay, and builds its
/// driver with the prefill stage's block size; with or without the perf
/// models taken first.
pub proof fn lemma_disaggregated_replays_run_as_asked(
    max_in_flight: usize,
    router_mode: ReplayRouterMode,
)
    ensures
        simulates_offline_on(
            disagg_trace_replay_plan(router_mode),
            OfflineRuntime::Disaggregated { router_mode },
            ReplayMode::Trace,
            BlockSizeSource::PrefillArgs,
        ),
        simulates_offline_on(
            taking_perf_models(disagg_trace_replay_plan(router_mode)),
            OfflineRuntime::Disaggregated { router_mode },
            ReplayMode::Trace,
            BlockSizeSource::PrefillArgs,
        ),
        simulates_offline_on(
            disagg_concurrency_replay_plan(max_in_flight, router_mode),
            OfflineRuntime::Disaggregated { router_mode },
            ReplayMode::Concurrency { max_in_flight },
            BlockSizeSource::PrefillArgs,
        ),
        simulates_offline_on(
            taking_perf_models(disagg_concurrency_replay_plan(max_in_flight, router_mode)),
            OfflineRuntime::Disaggregated { router_mode },
            ReplayMode::Concurrency { max_in_flight },
            BlockSizeSource::PrefillArgs,
        ),
        disagg_trace_replay_plan(router_mode).contains(
            ReplayStep::Validate(Validation::OfflineDisaggReplay { router_mode }),
        ),
        disagg_concurrency_replay_plan(max_in_flight, router_mode).contains(
            ReplayStep::Validate(Validation::OfflineDisaggConcurrency { max_in_flight, router_mode }),
        ),
{
    let t = disagg_trace_replay_plan(router_mode);
    let c = disagg_concurrency_replay_plan(max_in_flight, router_mode);
    assert(t[4] is RunOffline && taking_perf_models(t)[5] is RunOffline);
    assert(c[4] is RunOffline && taking_perf_models(c)[5] is RunOffline);
    assert(t[1] == ReplayStep::Validate(Validation::OfflineDisaggReplay { router_mode }));
    assert(c[1] == ReplayStep::Validate(
        Validation::OfflineDisaggConcurrency { max_in_flight, router_mode },
    ));
}

/// An aggregated replay runs on the runtime its workers and router mode
/// call for, releases requests by their trace timestamps for a trace replay
/// and with at most `max_in_flight` in flight for a fixed-concurrency
/// replay, and builds its driver with the engine arguments' block size;
/// with or without the perf model taken first.
pub proof fn lemma_aggregated_replays_run_as_asked(
    max_in_flight: usize,
    num_workers: usize,
    router_mode: ReplayRouterMode,
)
    ensures
        simulates_offline_on(
            trace_replay_plan(num_workers, router_mode),
            aggregated_runtime_for(num_workers, router_mode),
            ReplayMode::Trace,
            BlockSizeSource::EngineArgs,
        ),
        simulates_offline_on(
            taking_perf_models(trace_replay_plan(num_workers, router_mode)),
            aggregated_runtime_for(num_workers, router_mode),
            ReplayMode::Trace,
            BlockSizeSource::EngineArgs,
        ),
        simulates_offline_on(
            concurrency_replay_plan(max_in_flight, num_workers, router_mode),
            aggregated_runtime_for(num_workers, router_mode),
            ReplayMode::Concurrency { max_in_flight },
            BlockSizeSource::EngineArgs,
        ),
        simulates_offline_on(
            taking_perf_models(concurrency_replay_plan(max_in_flight, num_workers, router_mode)),
            aggregated_runtime_for(num_workers, router_mode),
            ReplayMode::Concurrency { max_in_flight },
            BlockSizeSource::EngineArgs,
        ),
{
    let t = trace_replay_plan(num_workers, router_mode);
    let c = concurrency_replay_plan(max_in_flight, num_workers, router_mode);
    assert(t[5] is RunOffline && taking_perf_models(t)[6] is RunOffline);
    assert(c[5] is RunOffline && taking_perf_models(c)[6] is RunOffline);
}

/// A live replay runs against `num_workers` workers with the router mode it
/// was asked for, releasing requests by their trace timestamps for a trace
/// replay and with at most `max_in_flight` in flight for a fixed-concurrency
/// replay.
pub proof fn lemma_live_replays_run_as_asked(
    max_in_flight: usize,
    num_workers: usize,
    router_mode: ReplayRouterMode,
)
    ensures
        replays_live_as(
            live_trace_replay_plan(num_workers, router_mode),
            OnlineRun { mode: ReplayMode::Trace, num_workers, router_mode },
        ),
        replays_live_as(
            live_concurrency_replay_plan(max_in_flight, num_workers, router_mode),
            OnlineRun { mode: ReplayMode::Concurrency { max_in_flight }, num_workers, router_mode },
        ),
{
}

} // verus!
