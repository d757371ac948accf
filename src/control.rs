use vstd::prelude::*;

use crate::message::Notification;
use crate::reading::BatteryReading;
use crate::tracker::{evaluate, notices, seen_after, shows, TrackedState};

verus! {

/// Where the polling loop stands.
#[derive(Clone, Copy, Debug, PartialEq, Eq, Structural)]
pub enum Phase {
    Running,
    Stopping,
    Stopped,
}

/// What the loop does next.
#[derive(Clone, Copy, Debug, PartialEq, Eq, Structural)]
pub enum Step {
    /// Read the battery, hand the reading to the watcher, then sleep.
    Poll,
    /// Say goodbye and leave the loop.
    Exit,
    /// Nothing: the loop has already been left.
    Halt,
}

/// The phase that follows `phase` when the cancellation flag reads `cancelled`.
pub open spec fn next_phase(phase: Phase, cancelled: bool) -> Phase {
    match phase {
        Phase::Running => if cancelled { Phase::Stopping } else { Phase::Running },
        Phase::Stopping => Phase::Stopped,
        Phase::Stopped => Phase::Stopped,
    }
}

/// The step taken from `phase` when the cancellation flag reads `cancelled`:
/// the running loop polls until it sees the flag set, then exits; a loop that
/// is stopping or stopped does nothing more.
pub open spec fn step_of(phase: Phase, cancelled: bool) -> Step {
    match phase {
        Phase::Running => if cancelled { Step::Exit } else { Step::Poll },
        _ => Step::Halt,
    }
}

/// The steps taken from `phase` over successive reads of the flag.
pub open spec fn run(phase: Phase, flags: Seq<bool>) -> Seq<Step>
    decreases flags.len(),
{
    if flags.len() == 0 {
        Seq::empty()
    } else {
        seq![step_of(phase, flags[0])] + run(next_phase(phase, flags[0]), flags.drop_first())
    }
}

/// The battery watcher: the loop's phase and what it has seen.
#[derive(Clone, Copy, Debug)]
pub struct Watcher {
    pub phase: Phase,
    pub seen: TrackedState,
}

impl Watcher {
    /// A running watcher that has seen nothing yet.
    pub fn new() -> (w: Watcher)
        ensures
            w.phase == Phase::Running,
            w.seen.last_status is None,
            w.seen.last_tier is None,
    {
        Watcher { phase: Phase::Running, seen: TrackedState::new() }
    }

    /// Decides the next step, at the top of an iteration, from the
    /// cancellation flag.
    pub fn next_step(&mut self, cancelled: bool) -> (s: Step)
        ensures
            s == step_of(old(self).phase, cancelled),
            final(self).phase == next_phase(old(self).phase, cancelled),
            final(self).seen == old(self).seen,
    {
        match self.phase {
            Phase::Running => {
                if cancelled {
                    self.phase = Phase::Stopping;
                    Step::Exit
                } else {
                    Step::Poll
                }
            },
            Phase::Stopping => {
                self.phase = Phase::Stopped;
                Step::Halt
            },
            Phase::Stopped => Step::Halt,
        }
    }

    /// Takes the result of a poll: no reading (no battery, or a failed read)
    /// changes nothing; a reading is evaluated.
    pub fn on_reading(&mut self, reading: Option<BatteryReading>) -> (out: Vec<Notification>)
        ensures
            final(self).phase == old(self).phase,
            match reading {
                None => out@.len() == 0 && final(self).seen == old(self).seen,
                Some(r) => shows(out@, notices(old(self).seen, r))
                    && final(self).seen == seen_after(r),
            },
    {
        match reading {
            Some(r) => evaluate(&r, &mut self.seen),
            None => Vec::new(),
        }
    }
}

/// Once the running loop reads the cancellation flag as set, it exits at
/// that read, exactly once, and polls no more afterwards, whatever the flag
/// reads later.
pub proof fn lemma_cancellation_stops_polling(flags: Seq<bool>, k: int)
    requires
        0 <= k < flags.len(),
        flags[k],
        forall|j: int| 0 <= j < k ==> !flags[j],
    ensures
        run(Phase::Running, flags).len() == flags.len(),
        forall|j: int| 0 <= j < k ==> run(Phase::Running, flags)[j] == Step::Poll,
        run(Phase::Running, flags)[k] == Step::Exit,
        forall|j: int| k < j < flags.len() ==> run(Phase::Running, flags)[j] == Step::Halt,
    decreases k,
{
    lemma_run_len(Phase::Running, flags);
    if k == 0 {
        lemma_after_stop_halts(Phase::Stopping, flags.drop_first());
    } else {
        let rest = flags.drop_first();
        assert forall|j: int| 0 <= j < k - 1 implies !rest[j] by {
            assert(rest[j] == flags[j + 1]);
        }
        lemma_cancellation_stops_polling(rest, k - 1);
    }
}

proof fn lemma_run_len(phase: Phase, flags: Seq<bool>)
    ensures
        run(phase, flags).len() == flags.len(),
    decreases flags.len(),
{
    if flags.len() > 0 {
        lemma_run_len(next_phase(phase, flags[0]), flags.drop_first());
    }
}

proof fn lemma_after_stop_halts(phase: Phase, flags: Seq<bool>)
    requires
        phase != Phase::Running,
    ensures
        run(phase, flags).len() == flags.len(),
        forall|j: int| 0 <= j < flags.len() ==> run(phase, flags)[j] == Step::Halt,
    decreases flags.len(),
{
    if flags.len() > 0 {
        lemma_after_stop_halts(next_phase(phase, flags[0]), flags.drop_first());
    }
}

} // verus!
