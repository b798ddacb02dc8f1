//! The sync driver's tick: which phases are due, given the clock, the chain's
//! heads and the decision whether to sync. The caller owns the loop, the
//! clock and the sleeping; everything it has to decide is decided here.
//!
//! Times are milliseconds on the caller's clock.

use vstd::prelude::*;

verus! {

/// Header sync runs at most every 10 s.
pub const HEADER_SYNC_INTERVAL: i64 = 10_000;

/// Body sync runs at most every 5 s.
pub const BODY_SYNC_INTERVAL: i64 = 5_000;

/// Fast sync runs at most every 5 min.
pub const FAST_SYNC_INTERVAL: i64 = 300_000;

/// How long the driver waits for peers before its first tick.
pub const INITIAL_WAIT: u64 = 30_000;

/// How long the driver sleeps after each tick.
pub const TICK_SLEEP: u64 = 1_000;

/// Beyond this distance from 0 a stored time is out of any clock's range.
const FAR: i128 = 0x2_0000_0000_0000_0000;

/// The three phases of syncing.
#[derive(Clone, Copy, Debug, PartialEq, Eq, Structural)]
pub enum Phase {
    Header,
    Body,
    Fast,
}

/// What the driver remembers between ticks.
///
/// The times of the last runs are kept wider than the clock's readings, so
/// that "five minutes before `now`" is exact for every `now`.
#[derive(Clone, Copy, Debug, PartialEq, Eq, Structural)]
pub struct SyncState {
    pub prev_header_sync: i128,
    pub prev_body_sync: i128,
    pub prev_fast_sync: i128,
    /// The highest peer height seen; a reading of 0 never replaces it.
    pub highest_height: u64,
}

/// What one tick observes.
#[derive(Clone, Copy, Debug, PartialEq, Eq, Structural)]
pub struct TickInput {
    /// The clock's reading.
    pub now: i64,
    /// Height of the fully validated chain.
    pub head_height: u64,
    /// Height of the validated header chain.
    pub header_head_height: u64,
    /// Whether the node should be syncing.
    pub syncing: bool,
    /// Height of the peer with the most work, 0 where none was read.
    pub most_work_height: u64,
    /// An archive node keeps every block and never fast syncs.
    pub archive_mode: bool,
    /// The cut-through horizon.
    pub horizon: u64,
}

/// What the driver has to do after a tick, in this order.
#[derive(Clone, Copy, Debug, PartialEq, Eq, Structural)]
pub struct TickPlan {
    pub header_sync: bool,
    pub body_sync: bool,
    pub fast_sync: bool,
    /// Whether the peers are further ahead than the horizon.
    pub fast_sync_enabled: bool,
    /// The value to publish as the node's syncing flag.
    pub currently_syncing: bool,
}

/// What the driver does once it has slept after a tick.
#[derive(Clone, Copy, Debug, PartialEq, Eq, Structural)]
pub enum DriverMove {
    Tick,
    Exit,
}

/// The least time between two runs of a phase.
pub open spec fn interval(phase: Phase) -> int {
    match phase {
        Phase::Header => HEADER_SYNC_INTERVAL as int,
        Phase::Body => BODY_SYNC_INTERVAL as int,
        Phase::Fast => FAST_SYNC_INTERVAL as int,
    }
}

/// When a phase last ran.
pub open spec fn last_run(state: SyncState, phase: Phase) -> int {
    match phase {
        Phase::Header => state.prev_header_sync as int,
        Phase::Body => state.prev_body_sync as int,
        Phase::Fast => state.prev_fast_sync as int,
    }
}

/// Whether a plan runs a phase.
pub open spec fn runs(plan: TickPlan, phase: Phase) -> bool {
    match phase {
        Phase::Header => plan.header_sync,
        Phase::Body => plan.body_sync,
        Phase::Fast => plan.fast_sync,
    }
}

/// Whether a phase's interval has passed at `now`.
pub open spec fn due(state: SyncState, phase: Phase, now: i64) -> bool {
    now - last_run(state, phase) >= interval(phase)
}

/// The highest peer height after a reading: the reading, unless it is 0.
pub open spec fn highest_after(highest: u64, reading: u64) -> u64 {
    if reading > 0 {
        reading
    } else {
        highest
    }
}

/// Fast sync is enabled where the node is no archive and the peers are more
/// than the horizon ahead of the validated chain.
pub open spec fn fast_sync_enabled(highest: u64, input: TickInput) -> bool {
    !input.archive_mode && highest - input.head_height > input.horizon
}

/// The plan of a tick.
pub open spec fn plan_of(state: SyncState, input: TickInput) -> TickPlan {
    let highest = highest_after(state.highest_height, input.most_work_height);
    let fast = fast_sync_enabled(highest, input);
    TickPlan {
        header_sync: input.syncing && due(state, Phase::Header, input.now),
        body_sync: input.syncing && !fast && due(state, Phase::Body, input.now),
        fast_sync: input.syncing && fast && input.header_head_height == highest && due(
            state,
            Phase::Fast,
            input.now,
        ),
        fast_sync_enabled: fast,
        currently_syncing: input.syncing,
    }
}

/// The state after a tick: a phase that ran, ran at `now`.
pub open spec fn step(state: SyncState, input: TickInput) -> SyncState {
    let plan = plan_of(state, input);
    SyncState {
        prev_header_sync: if plan.header_sync {
            input.now as i128
        } else {
            state.prev_header_sync
        },
        prev_body_sync: if plan.body_sync {
            input.now as i128
        } else {
            state.prev_body_sync
        },
        prev_fast_sync: if plan.fast_sync {
            input.now as i128
        } else {
            state.prev_fast_sync
        },
        highest_height: highest_after(state.highest_height, input.most_work_height),
    }
}

/// The state of a driver that starts at `now`: header and body sync wait
/// their first interval, fast sync may run at once.
pub open spec fn initial_state(now: i64) -> SyncState {
    SyncState {
        prev_header_sync: now as i128,
        prev_body_sync: now as i128,
        prev_fast_sync: (now - FAST_SYNC_INTERVAL) as i128,
        highest_height: 0,
    }
}

/// The state after a run of ticks.
pub open spec fn state_after(start: SyncState, inputs: Seq<TickInput>) -> SyncState
    decreases inputs.len(),
{
    if inputs.len() == 0 {
        start
    } else {
        step(state_after(start, inputs.drop_last()), inputs.last())
    }
}

/// The plan of tick `i` in a run of ticks.
pub open spec fn plan_at(start: SyncState, inputs: Seq<TickInput>, i: int) -> TickPlan {
    plan_of(state_after(start, inputs.take(i)), inputs[i])
}

fn is_due(prev: i128, now: i64, interval: i64) -> (d: bool)
    requires
        0 <= interval,
    ensures
        d == (now - prev >= interval),
{
    if prev >= FAR {
        false
    } else if prev <= -FAR {
        true
    } else {
        now as i128 - prev >= interval as i128
    }
}

impl SyncState {
    /// The state of a driver that starts at `now`.
    pub fn new(now: i64) -> (state: SyncState)
        ensures
            state == initial_state(now),
    {
        SyncState {
            prev_header_sync: now as i128,
            prev_body_sync: now as i128,
            prev_fast_sync: now as i128 - FAST_SYNC_INTERVAL as i128,
            highest_height: 0,
        }
    }

    /// One tick: takes the reading of the peers' height, decides which phases
    /// run, and notes the time of those that do.
    pub fn tick(&mut self, input: &TickInput) -> (plan: TickPlan)
        ensures
            plan == plan_of(*old(self), *input),
            *final(self) == step(*old(self), *input),
            input.most_work_height == 0 ==> final(self).highest_height == old(self).highest_height,
            input.most_work_height != 0 ==> final(self).highest_height == input.most_work_height,
            plan.currently_syncing == input.syncing,
            !input.syncing ==> !plan.header_sync && !plan.body_sync && !plan.fast_sync,
            plan.body_sync ==> !plan.fast_sync_enabled,
            plan.fast_sync ==> plan.fast_sync_enabled && !input.archive_mode
                && input.header_head_height == final(self).highest_height
                && final(self).highest_height - input.head_height > input.horizon,
            forall|phase: Phase|
                #![trigger runs(plan, phase)]
                runs(plan, phase) ==> due(*old(self), phase, input.now) && last_run(
                    *final(self),
                    phase,
                ) == input.now,
            forall|phase: Phase|
                #![trigger last_run(*final(self), phase)]
                last_run(*final(self), phase) >= last_run(*old(self), phase),
    {
        if input.most_work_height > 0 {
            self.highest_height = input.most_work_height;
        }
        let ahead: u64 = if self.highest_height > input.head_height {
            self.highest_height - input.head_height
        } else {
            0
        };
        let fast: bool = !input.archive_mode && ahead > input.horizon;
        let mut plan = TickPlan {
            header_sync: false,
            body_sync: false,
            fast_sync: false,
            fast_sync_enabled: fast,
            currently_syncing: input.syncing,
        };
        if input.syncing {
            if is_due(self.prev_header_sync, input.now, HEADER_SYNC_INTERVAL) {
                plan.header_sync = true;
                self.prev_header_sync = input.now as i128;
            }
            if !fast && is_due(self.prev_body_sync, input.now, BODY_SYNC_INTERVAL) {
                plan.body_sync = true;
                self.prev_body_sync = input.now as i128;
            }
            if fast && input.header_head_height == self.highest_height {
                if is_due(self.prev_fast_sync, input.now, FAST_SYNC_INTERVAL) {
                    plan.fast_sync = true;
                    self.prev_fast_sync = input.now as i128;
                }
            }
        }
        plan
    }
}

/// How long the driver waits for peers before its first tick, in
/// milliseconds: not at all where the wait is skipped.
pub fn initial_wait(skip_sync_wait: bool) -> (wait: Option<u64>)
    ensures
        wait == (if skip_sync_wait {
            None
        } else {
            Some(INITIAL_WAIT)
        }),
{
    if skip_sync_wait {
        None
    } else {
        Some(INITIAL_WAIT)
    }
}

/// What the driver does once it has slept after a tick: it leaves as soon as
/// it sees the stop flag set, and ticks again otherwise.
pub fn next_move(stop: bool) -> (next: DriverMove)
    ensures
        stop <==> next == DriverMove::Exit,
        !stop <==> next == DriverMove::Tick,
{
    if stop {
        DriverMove::Exit
    } else {
        DriverMove::Tick
    }
}

/// However the clock runs, the time of a phase's last run never goes back.
pub proof fn lemma_last_run_advances(state: SyncState, input: TickInput, phase: Phase)
    ensures
        last_run(step(state, input), phase) >= last_run(state, phase),
        runs(plan_of(state, input), phase) ==> last_run(step(state, input), phase) == input.now,
{
}

proof fn lemma_last_run_after(start: SyncState, inputs: Seq<TickInput>, phase: Phase, i: int, k: int)
    requires
        0 <= i < k <= inputs.len(),
        runs(plan_at(start, inputs, i), phase),
    ensures
        last_run(state_after(start, inputs.take(k)), phase) >= inputs[i].now,
    decreases k - i,
{
    assert(inputs.take(k).drop_last() =~= inputs.take(k - 1));
    assert(inputs.take(k).last() == inputs[k - 1]);
    if k - 1 > i {
        lemma_last_run_after(start, inputs, phase, i, k - 1);
    }
    lemma_last_run_advances(state_after(start, inputs.take(k - 1)), inputs[k - 1], phase);
}

/// In any run of ticks, from any state and however the clock runs, two runs
/// of one phase lie at least that phase's interval apart: 10 s for header
/// sync, 5 s for body sync, 5 min for fast sync.
pub proof fn lemma_phase_cadence(
    start: SyncState,
    inputs: Seq<TickInput>,
    phase: Phase,
    i: int,
    j: int,
)
    requires
        0 <= i < j < inputs.len(),
        runs(plan_at(start, inputs, i), phase),
        runs(plan_at(start, inputs, j), phase),
    ensures
        inputs[j].now - inputs[i].now >= interval(phase),
{
    lemma_last_run_after(start, inputs, phase, i, j);
}

/// A phase runs only while syncing; body sync only while fast sync is not
/// enabled; fast sync only while it is enabled and the headers have reached
/// the highest peer height seen.
pub proof fn lemma_phase_conditions(state: SyncState, input: TickInput)
    ensures
        ({
            let plan = plan_of(state, input);
            let highest = step(state, input).highest_height;
            &&& plan.header_sync ==> input.syncing
            &&& plan.body_sync ==> input.syncing && !fast_sync_enabled(highest, input)
            &&& plan.fast_sync ==> input.syncing && fast_sync_enabled(highest, input)
                && input.header_head_height == highest
        }),
{
}

/// On the first tick of a driver that started at `start`, fast sync runs as
/// soon as its conditions hold, with no interval to wait for; header and body
/// sync wait their first interval.
pub proof fn lemma_first_tick(start: i64, input: TickInput)
    requires
        input.now >= start,
    ensures
        ({
            let plan = plan_of(initial_state(start), input);
            let highest = highest_after(0, input.most_work_height);
            &&& plan.fast_sync == (input.syncing && fast_sync_enabled(highest, input)
                && input.header_head_height == highest)
            &&& plan.header_sync == (input.syncing && input.now - start >= HEADER_SYNC_INTERVAL)
            &&& plan.body_sync == (input.syncing && !fast_sync_enabled(highest, input) && input.now
                - start >= BODY_SYNC_INTERVAL)
        }),
{
}

/// A reading of 0 never replaces the highest peer height; any other reading does.
pub proof fn lemma_zero_reading_keeps_height(start: SyncState, inputs: Seq<TickInput>)
    requires
        inputs.len() > 0,
    ensures
        inputs.last().most_work_height == 0 ==> state_after(start, inputs).highest_height
            == state_after(start, inputs.drop_last()).highest_height,
        inputs.last().most_work_height != 0 ==> state_after(start, inputs).highest_height
            == inputs.last().most_work_height,
{
}

} // verus!
