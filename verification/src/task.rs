//! The bookkeeping of a task run on the UI thread.
//!
//! A task is polled on the UI thread each time it is woken. Many wakes before
//! a poll ask the UI thread for one poll; a wake from inside the poll itself is
//! not lost; a task that finished or was cancelled is never polled again, and
//! wakes reaching it afterwards (from old wakers) ask for nothing.
//!
//! The state here decides; the caller performs what it is told (asks the UI
//! thread for a poll, polls the future, drops it) and reports back what
//! happened.
use vstd::prelude::*;

verus! {

/// What a wake asks for.
#[derive(Debug, Clone, Copy, PartialEq, Eq, Structural)]
pub enum WakeStep {
    /// The task is over: nothing.
    Ignored,
    /// A poll is already requested: nothing more.
    AlreadyScheduled,
    /// Ask the UI thread for a poll now.
    Post,
}

/// The state of one task.
#[derive(Debug, Clone, Copy, PartialEq, Eq, Structural)]
pub struct TaskState {
    /// A poll has been requested of the UI thread and has not run yet.
    pub scheduled: bool,
    /// Wakes may still ask for polls (false once the task is over).
    pub active: bool,
    /// `cancel` was called.
    pub cancelled: bool,
    /// The task is over: its future has been dropped.
    pub finished: bool,
    /// The future is being polled right now.
    pub polling: bool,
}

/// The state after a wake.
pub open spec fn woken(s: TaskState) -> TaskState {
    if s.active {
        TaskState { scheduled: true, ..s }
    } else {
        s
    }
}

/// What a wake asks for.
pub open spec fn wake_step(s: TaskState) -> WakeStep {
    if !s.active {
        WakeStep::Ignored
    } else if s.scheduled {
        WakeStep::AlreadyScheduled
    } else {
        WakeStep::Post
    }
}

/// The state once the task is over.
pub open spec fn ended(s: TaskState) -> TaskState {
    TaskState { finished: true, active: false, ..s }
}

/// Whether a pump polls the future.
pub open spec fn pump_polls(s: TaskState) -> bool {
    !s.finished && !s.cancelled && !s.polling
}

/// The state after a pump started: the request is cleared before the poll,
/// so that a wake from inside the poll asks for the next one.
pub open spec fn pump_started(s: TaskState) -> TaskState {
    let cleared = TaskState { scheduled: false, ..s };
    if pump_polls(s) {
        TaskState { polling: true, ..cleared }
    } else {
        cleared
    }
}

/// Whether a poll that returned (`pending`: not ready yet) ends the task:
/// a ready future, a poll that failed, or a cancel during the poll.
pub open spec fn poll_ends(s: TaskState, pending: bool) -> bool {
    !pending || s.cancelled
}

/// The state after a poll returned.
pub open spec fn polled(s: TaskState, pending: bool) -> TaskState {
    let done = TaskState { polling: false, ..s };
    if poll_ends(s, pending) {
        ended(done)
    } else {
        done
    }
}

/// Whether `cancel` ends the task at once (else the running poll ends it
/// when it returns, or it was over already).
pub open spec fn cancel_ends(s: TaskState) -> bool {
    !s.finished && !s.polling
}

/// The state after `cancel`.
pub open spec fn cancelled(s: TaskState) -> TaskState {
    if s.finished {
        s
    } else if s.polling {
        TaskState { cancelled: true, ..s }
    } else {
        ended(TaskState { cancelled: true, ..s })
    }
}

/// What holds of every state a task goes through: an ended task asks for no
/// poll, and a task is polled only while it runs.
pub open spec fn consistent(s: TaskState) -> bool {
    &&& s.finished ==> !s.active && !s.polling
    &&& s.polling ==> !s.finished
}

impl TaskState {
    /// A task just spawned: running, with no poll requested yet.
    pub fn new() -> (s: Self)
        ensures
            s == (TaskState { scheduled: false, active: true, cancelled: false, finished: false, polling: false }),
            consistent(s),
    {
        TaskState { scheduled: false, active: true, cancelled: false, finished: false, polling: false }
    }

    /// The task was woken. Asks for a poll unless the task is over or one is
    /// already requested.
    pub fn wake(&mut self) -> (step: WakeStep)
        ensures
            *final(self) == woken(*old(self)),
            step == wake_step(*old(self)),
    {
        if !self.active {
            return WakeStep::Ignored;
        }
        if self.scheduled {
            return WakeStep::AlreadyScheduled;
        }
        self.scheduled = true;
        WakeStep::Post
    }

    /// The UI thread would not take the poll asked for (it has shut down).
    pub fn post_refused(&mut self)
        ensures
            *final(self) == (TaskState { scheduled: false, ..*old(self) }),
    {
        self.scheduled = false;
    }

    /// A pump of the task runs on the UI thread. Returns whether to poll
    /// the future now: not when the task is over, cancelled, or already
    /// being polled (a pump reached from inside the poll).
    pub fn begin_pump(&mut self) -> (poll: bool)
        ensures
            *final(self) == pump_started(*old(self)),
            poll == pump_polls(*old(self)),
    {
        self.scheduled = false;
        if self.finished || self.cancelled || self.polling {
            return false;
        }
        self.polling = true;
        true
    }

    /// The poll returned; `pending` when the future is not ready yet (false
    /// too when the poll failed). Returns whether the task is over now, so
    /// that its future is dropped.
    pub fn end_poll(&mut self, pending: bool) -> (ends: bool)
        ensures
            *final(self) == polled(*old(self), pending),
            ends == poll_ends(*old(self), pending),
    {
        self.polling = false;
        if pending && !self.cancelled {
            return false;
        }
        self.finish();
        true
    }

    /// Ends the task: no poll and no wake will ask for anything again. (A
    /// task being polled is ended by `end_poll`.)
    pub fn finish(&mut self)
        requires
            !old(self).polling,
        ensures
            *final(self) == ended(*old(self)),
    {
        self.finished = true;
        self.active = false;
    }

    /// The task is cancelled. Returns whether it ends now (its future is
    /// dropped now); a task being polled ends when the poll returns, and a
    /// task already over is left as it is.
    pub fn cancel(&mut self) -> (ends: bool)
        ensures
            *final(self) == cancelled(*old(self)),
            ends == cancel_ends(*old(self)),
    {
        if self.finished {
            return false;
        }
        self.cancelled = true;
        if !self.polling {
            self.finish();
            true
        } else {
            false
        }
    }

    /// Whether the task is over (finished, or cancelled and dropped).
    pub fn is_finished(&self) -> (r: bool)
        ensures
            r == self.finished,
    {
        self.finished
    }
}

// ---------------------------------------------------------------------------
// Laws
// ---------------------------------------------------------------------------

/// Every step keeps a task consistent, and once a task is over it stays over.
pub proof fn lemma_steps_keep_consistency(s: TaskState, pending: bool)
    requires
        consistent(s),
    ensures
        consistent(woken(s)),
        consistent(pump_started(s)),
        s.polling ==> consistent(polled(s, pending)),
        consistent(cancelled(s)),
        !s.polling ==> consistent(ended(s)),
        s.finished ==> woken(s).finished && pump_started(s).finished && cancelled(s).finished,
        s.polling && s.finished ==> polled(s, pending).finished,
{
}

/// A task that is over asks for no poll, whatever wakes it (an old waker
/// kept after it finished), and is never polled again.
pub proof fn lemma_finished_is_silent(s: TaskState)
    requires
        consistent(s),
        s.finished,
    ensures
        wake_step(s) == WakeStep::Ignored,
        woken(s) == s,
        !pump_polls(s),
{
}

/// A cancelled task is never polled again.
pub proof fn lemma_cancelled_is_not_polled(s: TaskState)
    ensures
        !pump_polls(cancelled(s)),
        pump_started(cancelled(s)).finished == cancelled(s).finished,
{
}

/// Many wakes before a poll ask for one poll: after a wake of a running
/// task, further wakes ask for nothing until the pump runs.
pub proof fn lemma_wakes_coalesce(s: TaskState)
    ensures
        s.active ==> wake_step(woken(s)) == WakeStep::AlreadyScheduled,
        woken(woken(s)) == woken(s),
{
}

/// A wake from inside the poll is not lost: the request was cleared before
/// the poll, so the wake asks for the next poll, which runs the future again
/// once this poll left it pending.
pub proof fn lemma_self_wake_is_kept(s: TaskState)
    requires
        consistent(s),
        pump_polls(s),
        s.active,
    ensures
        wake_step(pump_started(s)) == WakeStep::Post,
        pump_polls(polled(woken(pump_started(s)), true)),
        polled(woken(pump_started(s)), true).scheduled,
{
}

/// Cancelling from inside the poll ends the task when the poll returns,
/// even if the future is still pending.
pub proof fn lemma_cancel_during_poll(s: TaskState)
    requires
        consistent(s),
        pump_polls(s),
    ensures
        !cancel_ends(pump_started(s)),
        poll_ends(cancelled(pump_started(s)), true),
        polled(cancelled(pump_started(s)), true).finished,
{
}

/// One step of a task's life.
pub enum TaskStep {
    /// A waker wakes the task.
    Wake,
    /// A pump for the task runs on the UI thread (and polls when it may).
    Pump,
    /// The poll returned: `true` when the future is still pending.
    PollReturned(bool),
    /// `cancel` is called.
    Cancel,
}

/// The state after `steps`, and how many polls the pumps among them made.
pub open spec fn run_task(s: TaskState, steps: Seq<TaskStep>) -> (TaskState, nat)
    decreases steps.len(),
{
    if steps.len() == 0 {
        (s, 0)
    } else {
        let (before, polls) = run_task(s, steps.drop_last());
        match steps.last() {
            TaskStep::Wake => (woken(before), polls),
            TaskStep::Pump => (pump_started(before), if pump_polls(before) {
                polls + 1
            } else {
                polls
            }),
            TaskStep::PollReturned(pending) => (polled(before, pending), polls),
            TaskStep::Cancel => (cancelled(before), polls),
        }
    }
}

/// A task is polled until it is over, and never again: once a poll has
/// returned ready (or the task was cancelled), whatever wakes, pumps and
/// cancels follow, the task stays over, asks for no poll and is not polled.
pub proof fn lemma_over_means_never_polled_again(s: TaskState, steps: Seq<TaskStep>)
    requires
        consistent(s),
        s.finished,
    ensures
        run_task(s, steps).0.finished,
        !run_task(s, steps).0.active,
        run_task(s, steps).1 == 0,
        wake_step(run_task(s, steps).0) == WakeStep::Ignored,
    decreases steps.len(),
{
    if steps.len() > 0 {
        lemma_over_means_never_polled_again(s, steps.drop_last());
    }
}

/// A poll that returns ready ends the task.
pub proof fn lemma_ready_ends(s: TaskState)
    requires
        consistent(s),
        s.polling,
    ensures
        polled(s, false).finished,
        consistent(polled(s, false)),
{
}

} // verus!
