//! The bookkeeping of a channel from other threads to the UI thread.
//!
//! Values sent from any thread wait in a queue until the UI thread pumps the
//! channel and hands them, in the order sent, to the receiving closure. One
//! pump is requested of the UI thread however many values are sent before it
//! runs. When the last sender is gone the channel closes, but only once the
//! values still queued have been handed out.
//!
//! The state here decides; the caller performs what it is told (asks the UI
//! thread for a pump, calls the receiving closure, forgets the channel) and
//! reports back what happened.
use vstd::prelude::*;

verus! {

/// A channel's state as a mathematical value.
pub struct ChannelModel<T> {
    /// The values sent and not yet taken, oldest first.
    pub pending: Seq<T>,
    /// A pump has been requested of the UI thread and has not run yet.
    pub scheduled: bool,
    /// How many senders are alive.
    pub senders: nat,
    /// The last sender is gone.
    pub closing: bool,
    /// A pump is handing values out.
    pub busy: bool,
}

/// What `send` did with a value.
#[derive(Debug, Clone, Copy, PartialEq, Eq, Structural)]
pub enum SendStep {
    /// The UI is gone: the value was not queued.
    Refused,
    /// Queued; a pump was already requested.
    Queued,
    /// Queued; ask the UI thread for a pump now.
    Post,
}

/// What to do once a pump has handed its values out.
#[derive(Debug, Clone, Copy, PartialEq, Eq, Structural)]
pub enum PumpEnd {
    /// Nothing is waiting.
    Idle,
    /// Values arrived meanwhile: ask the UI thread for another pump.
    Repost,
    /// No sender is left and everything was handed out: forget the channel.
    Close,
}

impl<T> ChannelModel<T> {
    /// A channel just opened, with its one sender.
    pub open spec fn opened() -> Self {
        ChannelModel { pending: Seq::empty(), scheduled: false, senders: 1, closing: false, busy: false }
    }

    /// After queueing `value`: a pump is requested from now on.
    pub open spec fn sent(self, value: T) -> Self {
        ChannelModel { pending: self.pending.push(value), scheduled: true, ..self }
    }

    /// After the UI thread refused a pump: none is requested any more.
    pub open spec fn unscheduled(self) -> Self {
        ChannelModel { scheduled: false, ..self }
    }

    /// After a sender was cloned.
    pub open spec fn sender_added(self) -> Self {
        ChannelModel { senders: self.senders + 1, ..self }
    }

    /// After a sender was dropped: the last one marks the channel closing and
    /// requests a pump, so that what is queued is still handed out.
    pub open spec fn sender_dropped(self) -> Self {
        if self.senders == 1 {
            ChannelModel { senders: 0, closing: true, scheduled: true, ..self }
        } else {
            ChannelModel { senders: (self.senders - 1) as nat, ..self }
        }
    }

    /// Whether dropping a sender asks for a pump.
    pub open spec fn drop_posts(self) -> bool {
        self.senders == 1 && !self.scheduled
    }

    /// After a pump took every queued value.
    pub open spec fn taken(self) -> Self {
        ChannelModel { pending: Seq::empty(), busy: true, ..self }
    }

    /// After a pump finished: a pump is requested again exactly when values
    /// arrived meanwhile.
    pub open spec fn pumped(self) -> Self {
        ChannelModel { busy: false, scheduled: self.pending.len() > 0, ..self }
    }

    /// What follows a pump.
    pub open spec fn pump_end(self) -> PumpEnd {
        if self.pending.len() > 0 {
            PumpEnd::Repost
        } else if self.closing {
            PumpEnd::Close
        } else {
            PumpEnd::Idle
        }
    }

    /// Every queued value is waiting for a pump that was requested.
    pub open spec fn pending_is_scheduled(self) -> bool {
        self.pending.len() > 0 ==> self.scheduled
    }
}

/// The state of one channel: the queue of values and the flags that decide
/// when the UI thread is asked for a pump and when the channel is forgotten.
pub struct ChannelState<T> {
    queue: Vec<T>,
    scheduled: bool,
    senders: usize,
    closing: bool,
    busy: bool,
}

impl<T> View for ChannelState<T> {
    type V = ChannelModel<T>;

    closed spec fn view(&self) -> ChannelModel<T> {
        ChannelModel {
            pending: self.queue@,
            scheduled: self.scheduled,
            senders: self.senders as nat,
            closing: self.closing,
            busy: self.busy,
        }
    }
}

impl<T> ChannelState<T> {
    /// A channel with one sender and nothing queued.
    pub fn new() -> (s: Self)
        ensures
            s@ == ChannelModel::<T>::opened(),
    {
        let s = ChannelState { queue: Vec::new(), scheduled: false, senders: 1, closing: false, busy: false };
        proof {
            assert(s@.pending =~= Seq::<T>::empty());
        }
        s
    }

    /// Sends `value`. While the UI is `alive` the value is queued behind the
    /// others, and the UI thread is asked for a pump unless one was already
    /// requested; once the UI is gone the value is refused.
    pub fn send(&mut self, value: T, alive: bool) -> (step: SendStep)
        ensures
            !alive ==> step == SendStep::Refused && final(self)@ == old(self)@,
            alive ==> final(self)@ == old(self)@.sent(value),
            alive ==> step == (if old(self)@.scheduled {
                SendStep::Queued
            } else {
                SendStep::Post
            }),
    {
        if !alive {
            return SendStep::Refused;
        }
        self.queue.push(value);
        if self.scheduled {
            SendStep::Queued
        } else {
            self.scheduled = true;
            SendStep::Post
        }
    }

    /// The UI thread would not take the pump asked for (it has shut down):
    /// no pump is requested any more.
    pub fn post_refused(&mut self)
        ensures
            final(self)@ == old(self)@.unscheduled(),
    {
        self.scheduled = false;
    }

    /// A sender was cloned. (Each sender holds some memory, so their number
    /// stays below `usize::MAX`.)
    pub fn add_sender(&mut self)
        requires
            old(self)@.senders < usize::MAX,
        ensures
            final(self)@ == old(self)@.sender_added(),
    {
        self.senders = self.senders + 1;
    }

    /// A sender was dropped. Returns whether to ask the UI thread for a pump:
    /// when the last sender goes and none is requested yet.
    pub fn drop_sender(&mut self) -> (post: bool)
        requires
            old(self)@.senders > 0,
        ensures
            final(self)@ == old(self)@.sender_dropped(),
            post == old(self)@.drop_posts(),
    {
        self.senders = self.senders - 1;
        if self.senders != 0 {
            return false;
        }
        self.closing = true;
        if self.scheduled {
            false
        } else {
            self.scheduled = true;
            true
        }
    }

    /// Starts a pump: takes every queued value, oldest first. Returns `None`
    /// and changes nothing when a pump is already running (a pump reached from
    /// inside the receiving closure).
    pub fn begin_pump(&mut self) -> (taken: Option<Vec<T>>)
        ensures
            old(self)@.busy ==> taken is None && final(self)@ == old(self)@,
            !old(self)@.busy ==> taken is Some && taken->0@ == old(self)@.pending && final(self)@
                == old(self)@.taken(),
    {
        if self.busy {
            return None;
        }
        self.busy = true;
        let mut taken: Vec<T> = Vec::new();
        std::mem::swap(&mut taken, &mut self.queue);
        proof {
            assert(self@.pending =~= Seq::<T>::empty());
        }
        Some(taken)
    }

    /// Ends a pump: says whether to ask for another one (values arrived while
    /// this one ran), to forget the channel (no sender is left and nothing
    /// waits), or to do nothing.
    pub fn end_pump(&mut self) -> (next: PumpEnd)
        ensures
            final(self)@ == old(self)@.pumped(),
            next == old(self)@.pump_end(),
    {
        self.busy = false;
        if self.queue.len() > 0 {
            self.scheduled = true;
            PumpEnd::Repost
        } else {
            self.scheduled = false;
            if self.closing {
                PumpEnd::Close
            } else {
                PumpEnd::Idle
            }
        }
    }

    /// How many senders are alive.
    pub fn senders(&self) -> (n: usize)
        ensures
            n == self@.senders,
    {
        self.senders
    }

    /// Whether values wait to be handed out.
    pub fn is_empty(&self) -> (r: bool)
        ensures
            r == (self@.pending.len() == 0),
    {
        self.queue.len() == 0
    }
}

// ---------------------------------------------------------------------------
// Laws
// ---------------------------------------------------------------------------

/// Values come out in the order they were sent: two sends and then a pump
/// hand out what was queued before, then `a`, then `b`.
pub proof fn lemma_values_in_send_order<T>(m: ChannelModel<T>, a: T, b: T)
    ensures
        m.sent(a).sent(b).pending == m.pending.push(a).push(b),
{
}

/// The state after sending each of `values` in turn, the UI being alive.
pub open spec fn sent_all<T>(m: ChannelModel<T>, values: Seq<T>) -> ChannelModel<T>
    decreases values.len(),
{
    if values.len() == 0 {
        m
    } else {
        sent_all(m, values.drop_last()).sent(values.last())
    }
}

/// How many of those sends ask the UI thread for a pump.
pub open spec fn posts_of_sends<T>(m: ChannelModel<T>, values: Seq<T>) -> nat
    decreases values.len(),
{
    if values.len() == 0 {
        0
    } else {
        posts_of_sends(m, values.drop_last()) + if sent_all(m, values.drop_last()).scheduled {
            0nat
        } else {
            1nat
        }
    }
}

/// However many values are sent before the UI thread pumps, it is asked for
/// at most one pump (exactly one when none was requested before), and the
/// values wait behind the earlier ones in the order sent.
pub proof fn lemma_sends_coalesce<T>(m: ChannelModel<T>, values: Seq<T>)
    ensures
        sent_all(m, values).pending == m.pending + values,
        posts_of_sends(m, values) == (if values.len() > 0 && !m.scheduled {
            1nat
        } else {
            0nat
        }),
        values.len() > 0 ==> sent_all(m, values).scheduled,
    decreases values.len(),
{
    if values.len() > 0 {
        lemma_sends_coalesce(m, values.drop_last());
        assert(m.pending + values =~= (m.pending + values.drop_last()).push(values.last()));
    } else {
        assert(m.pending + values =~= m.pending);
    }
}

/// No value is left behind: every step but a refused pump keeps every queued
/// value waiting for a requested pump, and a pump that ends with values left
/// (sent while it ran) requests the next one.
pub proof fn lemma_pending_values_are_scheduled<T>(m: ChannelModel<T>, v: T)
    requires
        m.pending_is_scheduled(),
    ensures
        m.sent(v).pending_is_scheduled(),
        m.sender_added().pending_is_scheduled(),
        m.senders > 0 ==> m.sender_dropped().pending_is_scheduled(),
        m.taken().pending_is_scheduled(),
        m.pumped().pending_is_scheduled(),
        m.pumped().pending.len() > 0 ==> m.pump_end() == PumpEnd::Repost,
{
}

/// A channel is forgotten only when no sender is left and nothing waits,
/// so the last values sent before the last sender went are handed out.
pub proof fn lemma_closes_after_draining<T>(m: ChannelModel<T>)
    ensures
        m.pump_end() == PumpEnd::Close ==> m.closing && m.pending.len() == 0,
        m.senders == 1 ==> m.sender_dropped().closing && m.sender_dropped().scheduled,
{
}

/// A value sent from inside the receiving closure, while a pump runs, is
/// handed out by the next pump: it does not ask for a pump of its own, and
/// the running pump ends by requesting one.
pub proof fn lemma_send_during_pump<T>(m: ChannelModel<T>, v: T)
    requires
        m.pending_is_scheduled(),
        m.scheduled,
        !m.busy,
    ensures
        m.taken().scheduled,
        m.taken().sent(v).pumped().scheduled,
        m.taken().sent(v).pump_end() == PumpEnd::Repost,
        m.taken().sent(v).pending == seq![v],
{
    assert(m.taken().sent(v).pending =~= seq![v]);
}

/// One step of a channel's life, as the UI thread and the senders take them
/// (the UI being alive).
pub enum ChannelStep<T> {
    /// A sender sends a value.
    Send(T),
    /// A pump starts and takes the queued values (nothing, when one runs).
    BeginPump,
    /// The running pump ends.
    EndPump,
}

/// The state after `steps`, and the values the pumps took, in order.
pub open spec fn run<T>(m: ChannelModel<T>, steps: Seq<ChannelStep<T>>) -> (ChannelModel<T>, Seq<T>)
    decreases steps.len(),
{
    if steps.len() == 0 {
        (m, Seq::empty())
    } else {
        let (before, taken) = run(m, steps.drop_last());
        match steps.last() {
            ChannelStep::Send(v) => (before.sent(v), taken),
            ChannelStep::BeginPump => if before.busy {
                (before, taken)
            } else {
                (before.taken(), taken + before.pending)
            },
            ChannelStep::EndPump => (before.pumped(), taken),
        }
    }
}

/// The values sent in `steps`, in order.
pub open spec fn values_sent<T>(steps: Seq<ChannelStep<T>>) -> Seq<T>
    decreases steps.len(),
{
    if steps.len() == 0 {
        Seq::empty()
    } else {
        match steps.last() {
            ChannelStep::Send(v) => values_sent(steps.drop_last()).push(v),
            _ => values_sent(steps.drop_last()),
        }
    }
}

/// Every value is handed out exactly once and in the order sent: whatever
/// the senders and pumps do, the values the pumps took, followed by those
/// still queued, are the values queued at first followed by those sent. So
/// once a pump has taken the queue, every value sent so far was handed out
/// once, in order.
pub proof fn lemma_each_value_taken_once_in_order<T>(m: ChannelModel<T>, steps: Seq<ChannelStep<T>>)
    ensures
        run(m, steps).1 + run(m, steps).0.pending == m.pending + values_sent(steps),
    decreases steps.len(),
{
    if steps.len() > 0 {
        let rest = steps.drop_last();
        lemma_each_value_taken_once_in_order(m, rest);
        let (before, taken) = run(m, rest);
        match steps.last() {
            ChannelStep::Send(v) => {
                assert(taken + before.pending.push(v) =~= (taken + before.pending).push(v));
                assert(m.pending + values_sent(rest).push(v) =~= (m.pending + values_sent(rest)).push(v));
            },
            ChannelStep::BeginPump => {
                if !before.busy {
                    assert(taken + before.pending + Seq::<T>::empty() =~= taken + before.pending);
                }
            },
            ChannelStep::EndPump => {},
        }
    } else {
        assert(Seq::<T>::empty() + m.pending =~= m.pending + Seq::<T>::empty());
    }
}

} // verus!
