//! The plan that a timer task follows, one step at a time.
//!
//! A task never sleeps or runs anything here. It asks its plan what to do
//! next, does it (sleeping, waiting for a tick, running the work, retiring its
//! own registry entry), and asks again once that is done. A task that the
//! runtime stops while it is suspended simply never asks again.

use vstd::prelude::*;

verus! {

/// Whether a timer fires over and over or just once.
#[derive(Clone, Copy, Debug, PartialEq, Eq, Structural)]
pub enum TimerKind {
    Interval,
    Timeout,
}

/// Where a task stands in its plan.
#[derive(Clone, Copy, Debug, PartialEq, Eq, Structural)]
pub enum TaskPhase {
    /// Nothing has been done yet.
    Created,
    /// The ticker of an interval is being set up.
    Arming,
    /// Suspended until the delay or the next tick has passed.
    Waiting,
    /// The work is running.
    Working,
    /// A timeout is removing its own entry from the registry.
    Retiring,
    /// There is nothing left to do.
    Done,
}

/// What the task has to do next.
#[derive(Clone, Copy, Debug, PartialEq, Eq, Structural)]
pub enum TaskAction {
    /// Suspend for `ms` milliseconds.
    Sleep { ms: u64 },
    /// Set up a ticker whose first tick comes `first_ms` milliseconds after
    /// the timer was started and whose later ticks are `period_ms`
    /// milliseconds apart; a tick that comes due while the work still runs
    /// is delayed, never queued.
    Arm { first_ms: u64, period_ms: u64 },
    /// Suspend until the ticker's next tick.
    AwaitTick,
    /// Run the work once, to its end.
    Run,
    /// Retire the registry entry `id`.
    Retire { id: u64 },
    /// End the task.
    Stop,
}

impl TaskAction {
    /// Whether the task is suspended while it does this, so that the runtime
    /// can stop it there. (Work that awaits suspends the task too, at points
    /// of its own choosing.)
    pub open spec fn suspends(self) -> bool {
        self is Sleep || self is AwaitTick
    }
}

/// The period of a ticker for an interval of `ms` milliseconds. A ticker
/// cannot have a period of zero, so an interval of zero ticks every
/// millisecond, the shortest period there is.
pub open spec fn tick_period(ms: u64) -> u64 {
    if ms == 0 {
        1
    } else {
        ms
    }
}

/// The plan of one timer task and how far the task has come in it.
#[derive(Clone, Copy, Debug, PartialEq, Eq, Structural)]
pub struct TimerTask {
    pub kind: TimerKind,
    pub id: u64,
    pub ms: u64,
    pub phase: TaskPhase,
}

impl TimerTask {
    /// The phase that follows `self.phase`, and the action that leads there.
    pub open spec fn step(self) -> (TaskPhase, TaskAction) {
        match (self.kind, self.phase) {
            (TimerKind::Timeout, TaskPhase::Created) => (
                TaskPhase::Waiting,
                TaskAction::Sleep { ms: self.ms },
            ),
            (TimerKind::Timeout, TaskPhase::Waiting) => (TaskPhase::Working, TaskAction::Run),
            (TimerKind::Timeout, TaskPhase::Working) => (
                TaskPhase::Retiring,
                TaskAction::Retire { id: self.id },
            ),
            (TimerKind::Interval, TaskPhase::Created) => (
                TaskPhase::Arming,
                TaskAction::Arm { first_ms: self.ms, period_ms: tick_period(self.ms) },
            ),
            (TimerKind::Interval, TaskPhase::Arming) => (TaskPhase::Waiting, TaskAction::AwaitTick),
            (TimerKind::Interval, TaskPhase::Waiting) => (TaskPhase::Working, TaskAction::Run),
            (TimerKind::Interval, TaskPhase::Working) => (
                TaskPhase::Waiting,
                TaskAction::AwaitTick,
            ),
            _ => (TaskPhase::Done, TaskAction::Stop),
        }
    }

    /// The task as it stands once its first `n` actions are done.
    pub open spec fn after(self, n: nat) -> TimerTask
        decreases n,
    {
        if n == 0 {
            self
        } else {
            let before = self.after((n - 1) as nat);
            TimerTask { phase: before.step().0, ..before }
        }
    }

    /// The `n`-th action of the task from where it stands, counting from 0.
    pub open spec fn action(self, n: nat) -> TaskAction {
        self.after(n).step().1
    }

    /// A one-shot timer `id` with a delay of `ms` milliseconds, not yet started.
    pub open spec fn timeout_plan(id: u64, ms: u64) -> TimerTask {
        TimerTask { kind: TimerKind::Timeout, id, ms, phase: TaskPhase::Created }
    }

    /// A recurring timer `id` with a period of `ms` milliseconds, not yet started.
    pub open spec fn interval_plan(id: u64, ms: u64) -> TimerTask {
        TimerTask { kind: TimerKind::Interval, id, ms, phase: TaskPhase::Created }
    }

    /// The plan of a one-shot timer `id` with a delay of `ms` milliseconds.
    pub fn timeout(id: u64, ms: u64) -> (task: TimerTask)
        ensures
            task == TimerTask::timeout_plan(id, ms),
    {
        TimerTask { kind: TimerKind::Timeout, id, ms, phase: TaskPhase::Created }
    }

    /// The plan of a recurring timer `id` with a period of `ms` milliseconds.
    pub fn interval(id: u64, ms: u64) -> (task: TimerTask)
        ensures
            task == TimerTask::interval_plan(id, ms),
    {
        TimerTask { kind: TimerKind::Interval, id, ms, phase: TaskPhase::Created }
    }

    /// Moves the task one step on and says what it has to do now. To be
    /// called when the task starts and each time its last action is done.
    pub fn resume(&mut self) -> (action: TaskAction)
        ensures
            action == old(self).step().1,
            *final(self) == (TimerTask { phase: old(self).step().0, ..*old(self) }),
            *final(self) == old(self).after(1),
    {
        assert(self.after(1) == (TimerTask { phase: self.after(0).step().0, ..self.after(0) }));
        let (phase, action) = match (self.kind, self.phase) {
            (TimerKind::Timeout, TaskPhase::Created) => (
                TaskPhase::Waiting,
                TaskAction::Sleep { ms: self.ms },
            ),
            (TimerKind::Timeout, TaskPhase::Waiting) => (TaskPhase::Working, TaskAction::Run),
            (TimerKind::Timeout, TaskPhase::Working) => (
                TaskPhase::Retiring,
                TaskAction::Retire { id: self.id },
            ),
            (TimerKind::Interval, TaskPhase::Created) => {
                let period_ms: u64 = if self.ms == 0 {
                    1
                } else {
                    self.ms
                };
                (TaskPhase::Arming, TaskAction::Arm { first_ms: self.ms, period_ms })
            },
            (TimerKind::Interval, TaskPhase::Arming) => (TaskPhase::Waiting, TaskAction::AwaitTick),
            (TimerKind::Interval, TaskPhase::Waiting) => (TaskPhase::Working, TaskAction::Run),
            (TimerKind::Interval, TaskPhase::Working) => (
                TaskPhase::Waiting,
                TaskAction::AwaitTick,
            ),
            _ => (TaskPhase::Done, TaskAction::Stop),
        };
        self.phase = phase;
        action
    }
}

proof fn lemma_timeout_phases(id: u64, ms: u64, n: nat)
    ensures
        TimerTask::timeout_plan(id, ms).after(n) == (TimerTask {
            phase: if n == 0 {
                TaskPhase::Created
            } else if n == 1 {
                TaskPhase::Waiting
            } else if n == 2 {
                TaskPhase::Working
            } else if n == 3 {
                TaskPhase::Retiring
            } else {
                TaskPhase::Done
            },
            ..TimerTask::timeout_plan(id, ms)
        }),
    decreases n,
{
    if n > 0 {
        lemma_timeout_phases(id, ms, (n - 1) as nat);
    }
}

proof fn lemma_interval_phases(id: u64, ms: u64, n: nat)
    ensures
        TimerTask::interval_plan(id, ms).after(n) == (TimerTask {
            phase: if n == 0 {
                TaskPhase::Created
            } else if n == 1 {
                TaskPhase::Arming
            } else if n % 2 == 0 {
                TaskPhase::Waiting
            } else {
                TaskPhase::Working
            },
            ..TimerTask::interval_plan(id, ms)
        }),
    decreases n,
{
    if n > 0 {
        lemma_interval_phases(id, ms, (n - 1) as nat);
    }
}

/// A timeout sleeps for its delay, then runs its work, then retires its own
/// entry, then stops for good.
pub proof fn lemma_timeout_plan(id: u64, ms: u64, n: nat)
    ensures
        TimerTask::timeout_plan(id, ms).action(n) == if n == 0 {
            TaskAction::Sleep { ms }
        } else if n == 1 {
            TaskAction::Run
        } else if n == 2 {
            TaskAction::Retire { id }
        } else {
            TaskAction::Stop
        },
{
    lemma_timeout_phases(id, ms, n);
}

/// A timeout runs its work exactly once, and only after it has slept for its
/// whole delay. The sleep is its first action and the only one that suspends
/// it, so a timeout that is stopped before the delay has passed never runs
/// its work.
pub proof fn lemma_timeout_runs_once_after_delay(id: u64, ms: u64)
    ensures
        TimerTask::timeout_plan(id, ms).action(0) == (TaskAction::Sleep { ms }),
        forall|n: nat| #[trigger]
            TimerTask::timeout_plan(id, ms).action(n) == TaskAction::Run <==> n == 1,
        forall|n: nat| #[trigger] TimerTask::timeout_plan(id, ms).action(n).suspends() <==> n == 0,
{
    lemma_timeout_plan(id, ms, 0);
    assert forall|n: nat| #[trigger]
        TimerTask::timeout_plan(id, ms).action(n) == TaskAction::Run <==> n == 1 by {
        lemma_timeout_plan(id, ms, n);
    }
    assert forall|n: nat| #[trigger]
        TimerTask::timeout_plan(id, ms).action(n).suspends() <==> n == 0 by {
        lemma_timeout_plan(id, ms, n);
    }
}

/// An interval sets up its ticker, first tick after `ms` milliseconds, and
/// from then on waits for a tick and runs its work, in turn and without end.
pub proof fn lemma_interval_plan(id: u64, ms: u64, n: nat)
    ensures
        TimerTask::interval_plan(id, ms).action(n) == if n == 0 {
            TaskAction::Arm { first_ms: ms, period_ms: tick_period(ms) }
        } else if n % 2 == 1 {
            TaskAction::AwaitTick
        } else {
            TaskAction::Run
        },
{
    lemma_interval_phases(id, ms, n);
}

/// An interval waits for a tick of its ticker before every run of its work,
/// so two runs never overlap and never come closer than a tick apart, and the
/// runtime can stop it before each run; and it never stops or retires itself.
pub proof fn lemma_interval_waits_between_runs(id: u64, ms: u64, n: nat)
    ensures
        TimerTask::interval_plan(id, ms).action(n) == TaskAction::Run ==> n >= 2
            && TimerTask::interval_plan(id, ms).action((n - 1) as nat) == TaskAction::AwaitTick
            && TimerTask::interval_plan(id, ms).action((n - 1) as nat).suspends(),
        TimerTask::interval_plan(id, ms).action(n) != TaskAction::Stop,
        TimerTask::interval_plan(id, ms).action(n) != (TaskAction::Retire { id }),
{
    lemma_interval_plan(id, ms, n);
    if n >= 1 {
        lemma_interval_plan(id, ms, (n - 1) as nat);
    }
}

} // verus!
