//! Task shutdown policy. `stop()` polls each background task at a short
//! fixed interval, escalates to a forced abort at the midpoint of its retry
//! budget, and reports a timeout error, naming the elapsed bound, when the
//! task is still unfinished after all retries.

use vstd::prelude::*;

verus! {

/// Interval between task status checks, in milliseconds.
pub const SLEEP_INTERVAL_MS: u64 = 1;

/// Maximum number of status checks before `stop()` gives up on a task.
pub const MAX_RETRIES: u64 = 10;

/// Interval between data collection cycles, in milliseconds.
pub const DATA_COLLECTION_SLEEP_MS: u64 = 1000;

/// What one status check of a task decides.
#[derive(Clone, Copy, PartialEq, Eq, Structural, Debug)]
pub enum StopAction {
    /// The task is finished; stop succeeds now, without sleeping.
    Finished,
    /// Escalate: force an abort, then sleep and poll again.
    AbortThenSleep,
    /// Sleep for one interval, then poll again.
    Sleep,
    /// The retry budget is exhausted; stop fails with a timeout error.
    TimedOut,
}

/// The decision for poll number `attempt` (counted from 0) out of a budget
/// of `max_retries`, given whether the task was observed finished.
pub open spec fn stop_action_at(attempt: int, max_retries: int, finished: bool) -> StopAction {
    if attempt >= max_retries {
        StopAction::TimedOut
    } else if finished {
        StopAction::Finished
    } else if attempt == max_retries / 2 {
        StopAction::AbortThenSleep
    } else {
        StopAction::Sleep
    }
}

/// Decide one poll of the shutdown loop.
pub fn stop_decision(attempt: u64, max_retries: u64, finished: bool) -> (a: StopAction)
    ensures
        a == stop_action_at(attempt as int, max_retries as int, finished),
{
    if attempt >= max_retries {
        StopAction::TimedOut
    } else if finished {
        StopAction::Finished
    } else if attempt == max_retries / 2 {
        StopAction::AbortThenSleep
    } else {
        StopAction::Sleep
    }
}

/// The actions a whole shutdown run takes from poll `k` on, given the
/// sequence of "finished" observations `obs` (one per poll). The run ends at
/// the first `Finished` or, after the budget, with `TimedOut`.
pub open spec fn stop_trace(obs: Seq<bool>, max_retries: int, k: int) -> Seq<StopAction>
    decreases max_retries - k when 0 <= k <= max_retries && obs.len() >= max_retries
{
    if k >= max_retries {
        seq![StopAction::TimedOut]
    } else {
        let a = stop_action_at(k, max_retries, obs[k]);
        if a is Finished {
            seq![a]
        } else {
            seq![a] + stop_trace(obs, max_retries, k + 1)
        }
    }
}

/// Stop idempotence law: when the task is already finished at the first
/// poll, the run is the single action `Finished` — success immediately, with
/// no sleep and no abort.
pub proof fn lemma_stop_idempotent(obs: Seq<bool>, max_retries: int)
    requires
        max_retries >= 1,
        obs.len() >= max_retries,
        obs[0],
    ensures
        stop_trace(obs, max_retries, 0) == seq![StopAction::Finished],
{
    assert(stop_trace(obs, max_retries, 0) =~= seq![StopAction::Finished]);
}

/// Stop escalation law, from poll `k` on: against a task that is never
/// observed finished, the run sleeps at every poll except poll
/// `max_retries / 2`, where it forces an abort, and ends timed out after the
/// whole budget.
proof fn lemma_stop_escalation_from(obs: Seq<bool>, max_retries: int, k: int)
    requires
        0 <= k <= max_retries,
        obs.len() >= max_retries,
        forall|i: int| 0 <= i < max_retries ==> !obs[i],
    ensures
        stop_trace(obs, max_retries, k).len() == max_retries - k + 1,
        forall|j: int|
            0 <= j < max_retries - k ==> #[trigger] stop_trace(obs, max_retries, k)[j] == (if k + j
                == max_retries / 2 {
                StopAction::AbortThenSleep
            } else {
                StopAction::Sleep
            }),
        stop_trace(obs, max_retries, k).last() == StopAction::TimedOut,
    decreases max_retries - k,
{
    if k < max_retries {
        lemma_stop_escalation_from(obs, max_retries, k + 1);
    }
}

/// Stop escalation law: against a task that is never observed finished, the
/// forced abort comes exactly at poll `max_retries / 2` (so no later than
/// half the budget), every other poll within the budget merely sleeps, and
/// the run ends with a timeout report after all `max_retries` polls.
pub proof fn lemma_stop_escalation(obs: Seq<bool>, max_retries: int)
    requires
        max_retries >= 1,
        obs.len() >= max_retries,
        forall|i: int| 0 <= i < max_retries ==> !obs[i],
    ensures
        stop_trace(obs, max_retries, 0).len() == max_retries + 1,
        stop_trace(obs, max_retries, 0)[max_retries / 2] == StopAction::AbortThenSleep,
        forall|j: int|
            0 <= j < max_retries && j != max_retries / 2 ==> #[trigger] stop_trace(
                obs,
                max_retries,
                0,
            )[j] == StopAction::Sleep,
        stop_trace(obs, max_retries, 0).last() == StopAction::TimedOut,
{
    lemma_stop_escalation_from(obs, max_retries, 0);
}

/// The hard failure `stop()` returns when a task outlived its retry budget;
/// `elapsed_ms` names the bound that was waited.
#[derive(Clone, Copy, PartialEq, Eq, Structural, Debug)]
pub struct StopTimeout {
    pub elapsed_ms: u64,
}

impl StopTimeout {
    /// The timeout report for a budget of `max_retries` polls spaced
    /// `sleep_interval_ms` apart.
    pub fn from_budget(max_retries: u64, sleep_interval_ms: u64) -> (e: StopTimeout)
        requires
            max_retries * sleep_interval_ms <= u64::MAX,
        ensures
            e.elapsed_ms == max_retries * sleep_interval_ms,
    {
        StopTimeout { elapsed_ms: max_retries * sleep_interval_ms }
    }
}

/// Construction-time configuration of the scheduler: the two timer periods,
/// the collection period, and the optional terminal capture modes.
#[derive(Clone, Copy, PartialEq, Eq, Structural, Debug)]
pub struct SchedulerConfig {
    pub tick_period_ms: u64,
    pub frame_period_ms: u64,
    pub collection_period_ms: u64,
    pub mouse: bool,
    pub paste: bool,
}

impl SchedulerConfig {
    pub open spec fn wf(&self) -> bool {
        &&& self.tick_period_ms >= 1
        &&& self.frame_period_ms >= 1
        &&& self.collection_period_ms >= 1
    }

    /// Defaults: a 4 Hz tick (250 ms), a 60 Hz render timer (16 ms), one
    /// collection cycle per second, and no mouse or paste capture.
    pub fn new() -> (c: SchedulerConfig)
        ensures
            c.wf(),
            c.tick_period_ms == 250,
            c.frame_period_ms == 16,
            c.collection_period_ms == DATA_COLLECTION_SLEEP_MS,
            !c.mouse,
            !c.paste,
    {
        SchedulerConfig {
            tick_period_ms: 250,
            frame_period_ms: 16,
            collection_period_ms: DATA_COLLECTION_SLEEP_MS,
            mouse: false,
            paste: false,
        }
    }

    pub fn tick_period(self, tick_period_ms: u64) -> (c: SchedulerConfig)
        requires
            tick_period_ms >= 1,
        ensures
            c == (SchedulerConfig { tick_period_ms, ..self }),
    {
        SchedulerConfig { tick_period_ms, ..self }
    }

    pub fn frame_period(self, frame_period_ms: u64) -> (c: SchedulerConfig)
        requires
            frame_period_ms >= 1,
        ensures
            c == (SchedulerConfig { frame_period_ms, ..self }),
    {
        SchedulerConfig { frame_period_ms, ..self }
    }

    pub fn collection_period(self, collection_period_ms: u64) -> (c: SchedulerConfig)
        requires
            collection_period_ms >= 1,
        ensures
            c == (SchedulerConfig { collection_period_ms, ..self }),
    {
        SchedulerConfig { collection_period_ms, ..self }
    }

    pub fn mouse(self, mouse: bool) -> (c: SchedulerConfig)
        ensures
            c == (SchedulerConfig { mouse, ..self }),
    {
        SchedulerConfig { mouse, ..self }
    }

    pub fn paste(self, paste: bool) -> (c: SchedulerConfig)
        ensures
            c == (SchedulerConfig { paste, ..self }),
    {
        SchedulerConfig { paste, ..self }
    }
}

} // verus!
