# mocker_replay

Verified replay planning for the mocker's trace and fixed-concurrency
workloads.

- `src/plan.rs`: the steps of a replay (`ReplayStep`) and the plan that lists
  them (`ReplayPlan`).
- `src/offline.rs`: the choice between the single-worker and the multi-worker
  runtime, and the plans of the offline simulation paths.
- `src/workload.rs`: the public entry points; each returns the exact plan of
  its replay.
- `src/execution.rs`: what follows each step given how it ended
  (`ReplayPlan::next_action`): the next step, the end of the replay with the
  failed step's error, or the finish; and the proof that a replay so driven
  stops at its first failure.
- `src/laws.rs`: properties every public plan keeps (validation first, one
  driver per run in the run's release mode, timed offline runs, no
  per-request records or time limits from the public entry points, the
  runtime choice).
- `app/lib.rs`: performs the steps on a simulator, asking `next_action` what
  follows each one, and measures the wall time of offline replays.
