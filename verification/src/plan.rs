//! The vocabulary of a replay plan: the steps a replay performs, in order.
//!
//! A plan names every decision of a replay entry point and leaves the work
//! to whoever carries it out: the engine arguments, the trace, the latency
//! models, the router configuration and the prefill load estimator stay with
//! the caller, and each step says which of them it uses. What is done after
//! each step, given how it ended, is decided by
//! [`ReplayPlan::next_action`](crate::execution).

use vstd::prelude::*;

verus! {

/// How requests are routed to the workers of a replay.
#[derive(Clone, Copy, Debug, PartialEq, Eq)]
pub enum ReplayRouterMode {
    RoundRobin,
    KvRouter,
}

/// How requests are released to the engine: at their trace timestamps, or
/// as soon as fewer than `max_in_flight` requests are outstanding.
#[derive(Clone, Copy, Debug, PartialEq, Eq)]
pub enum ReplayMode {
    Trace,
    Concurrency { max_in_flight: usize },
}

/// The argument check that an entry point runs on the normalised arguments
/// before it simulates anything.
#[derive(Clone, Copy, Debug, PartialEq, Eq)]
pub enum Validation {
    /// Offline trace replay on aggregated workers.
    OfflineReplay { num_workers: usize, router_mode: ReplayRouterMode },
    /// Offline fixed-concurrency replay on aggregated workers.
    OfflineConcurrency { num_workers: usize, max_in_flight: usize, router_mode: ReplayRouterMode },
    /// Offline trace replay on a disaggregated prefill/decode deployment.
    OfflineDisaggReplay { router_mode: ReplayRouterMode },
    /// Offline fixed-concurrency replay on a disaggregated deployment.
    OfflineDisaggConcurrency { max_in_flight: usize, router_mode: ReplayRouterMode },
    /// Live trace replay.
    OnlineReplay { num_workers: usize },
    /// Live fixed-concurrency replay.
    OnlineConcurrency { num_workers: usize, max_in_flight: usize },
}

/// Whose block size the request driver is built with.
#[derive(Clone, Copy, Debug, PartialEq, Eq)]
pub enum BlockSizeSource {
    /// The block size of the (normalised) engine arguments.
    EngineArgs,
    /// The block size of the prefill stage of a disaggregated configuration.
    PrefillArgs,
}

/// The request driver that feeds the trace to a runtime.
#[derive(Clone, Copy, Debug, PartialEq, Eq)]
pub struct DriverSpec {
    /// Trace timing, or a fixed number of requests in flight.
    pub mode: ReplayMode,
    /// Whether multi-turn sessions accumulate the deltas of earlier turns.
    pub accumulate_session_deltas: bool,
    /// The block size the trace is tokenised into.
    pub block_size: BlockSizeSource,
}

/// The offline runtime that simulates the engine.
#[derive(Clone, Copy, Debug, PartialEq, Eq)]
pub enum OfflineRuntime {
    /// One worker, no router: takes neither the router configuration nor the
    /// prefill load estimator.
    Single,
    /// `num_workers` aggregated workers behind a router, which takes the
    /// router configuration and the prefill load estimator of the request.
    Aggregated { num_workers: usize, router_mode: ReplayRouterMode },
    /// Separate prefill and decode workers, as the normalised disaggregated
    /// configuration gives them, with the router inputs of the request.
    Disaggregated { router_mode: ReplayRouterMode },
}

/// The settings an offline runtime runs with.
#[derive(Clone, Copy, Debug, PartialEq, Eq)]
pub enum RunSettings {
    /// The runtime's own defaults; neither setting is applied.
    RuntimeDefaults,
    /// Per-request records on or off, and whether the maximum simulated time
    /// that came with the request is applied (without it: no limit).
    Explicit { record_per_request: bool, limit_sim_time: bool },
}

/// An offline simulation run: build the runtime with the latency model(s)
/// of the replay and the driver built before, apply the settings, and run it
/// to completion.
#[derive(Clone, Copy, Debug, PartialEq, Eq)]
pub struct OfflineRun {
    pub runtime: OfflineRuntime,
    pub mode: ReplayMode,
    /// Whether the runtime is built with the router configuration and the
    /// prefill load estimator of the request (the single-worker runtime takes
    /// neither).
    pub with_router_inputs: bool,
    pub settings: RunSettings,
}

/// A live replay against running workers, with the router inputs of the
/// request.
#[derive(Clone, Copy, Debug, PartialEq, Eq)]
pub struct OnlineRun {
    pub mode: ReplayMode,
    pub num_workers: usize,
    pub router_mode: ReplayRouterMode,
}

/// One step of a replay.
#[derive(Clone, Copy, Debug, PartialEq, Eq)]
pub enum ReplayStep {
    /// Take the perf model of the engine arguments (for a disaggregated
    /// configuration: of its prefill and of its decode arguments), as they
    /// are at this point, as the latency model(s) of the replay. A replay
    /// without this step runs with the latency model(s) its caller supplied.
    TakePerfModels,
    /// Replace the engine arguments by their normalised form (may fail).
    NormalizeArgs,
    /// Replace the disaggregated configuration by its normalised form (may fail).
    NormalizeDisaggConfig,
    /// Check the normalised arguments for this kind of replay (may fail).
    Validate(Validation),
    /// Note the wall-clock time at which the simulation starts.
    StartWallClock,
    /// Turn the trace into a request driver (may fail).
    BuildDriver(DriverSpec),
    /// Simulate offline (may fail); its collector is kept for the report.
    RunOffline(OfflineRun),
    /// Replay live; what it returns is the result of the replay (may fail).
    RunOnline(OnlineRun),
    /// Turn the collector into the report, with the wall time in milliseconds
    /// elapsed since the clock was started, measured before the report is
    /// aggregated.
    FinishReport,
}

/// The steps of a replay, in the order in which they are performed.
#[derive(Clone, Debug, PartialEq, Eq)]
pub struct ReplayPlan {
    pub steps: Vec<ReplayStep>,
}

impl View for ReplayPlan {
    type V = Seq<ReplayStep>;

    open spec fn view(&self) -> Seq<ReplayStep> {
        self.steps@
    }
}

impl ReplayPlan {
    /// A plan of the given steps.
    pub fn from_steps(steps: Vec<ReplayStep>) -> (plan: ReplayPlan)
        ensures
            plan@ == steps@,
    {
        ReplayPlan { steps }
    }

    /// The same plan, preceded by taking the perf model(s) of the arguments
    /// as the latency model(s).
    pub fn taking_perf_models(self) -> (plan: ReplayPlan)
        ensures
            plan@ == taking_perf_models(self@),
    {
        let mut prefix: Vec<ReplayStep> = Vec::new();
        prefix.push(ReplayStep::TakePerfModels);
        self.after(prefix)
    }

    /// The same plan with `prefix` performed first.
    pub fn after(self, prefix: Vec<ReplayStep>) -> (plan: ReplayPlan)
        ensures
            plan@ == prefix@ + self@,
    {
        let mut steps = prefix;
        let mut rest = self.steps;
        steps.append(&mut rest);
        ReplayPlan { steps }
    }
}

/// A plan preceded by taking the perf model(s) of the arguments as the
/// latency model(s).
pub open spec fn taking_perf_models(plan: Seq<ReplayStep>) -> Seq<ReplayStep> {
    seq![ReplayStep::TakePerfModels] + plan
}

/// Whether a runtime is built with the router inputs of the request.
pub open spec fn takes_router_inputs(runtime: OfflineRuntime) -> bool {
    !(runtime is Single)
}

/// The steps of a replay on one of the engine runtimes: the clock starts,
/// the engine arguments are normalised, the trace becomes a driver with
/// their block size, the runtime runs, and the report is made.
pub open spec fn engine_replay_steps(
    runtime: OfflineRuntime,
    mode: ReplayMode,
    accumulate_session_deltas: bool,
    settings: RunSettings,
) -> Seq<ReplayStep> {
    seq![
        ReplayStep::StartWallClock,
        ReplayStep::NormalizeArgs,
        ReplayStep::BuildDriver(DriverSpec {
            mode,
            accumulate_session_deltas,
            block_size: BlockSizeSource::EngineArgs,
        }),
        ReplayStep::RunOffline(
            OfflineRun { runtime, mode, with_router_inputs: takes_router_inputs(runtime), settings },
        ),
        ReplayStep::FinishReport,
    ]
}

/// The steps of a disaggregated replay: the clock starts, the trace becomes
/// a driver with the prefill stage's block size, the disaggregated runtime
/// runs, and the report is made.
pub open spec fn disaggregated_replay_steps(
    mode: ReplayMode,
    router_mode: ReplayRouterMode,
    settings: RunSettings,
) -> Seq<ReplayStep> {
    seq![
        ReplayStep::StartWallClock,
        ReplayStep::BuildDriver(DriverSpec {
            mode,
            accumulate_session_deltas: false,
            block_size: BlockSizeSource::PrefillArgs,
        }),
        ReplayStep::RunOffline(
            OfflineRun {
                runtime: OfflineRuntime::Disaggregated { router_mode },
                mode,
                with_router_inputs: true,
                settings,
            },
        ),
        ReplayStep::FinishReport,
    ]
}

} // verus!
