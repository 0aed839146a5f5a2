//! The weekly trigger, which also lets one notification through per
//! activation.
//!
//! The trigger is polled with wall-clock readings. A reading that equals the
//! target opens an activation: one cycle runs, and the activation stays open
//! for as long as the readings stay the same. While it is open, the trigger
//! asks for the notification until one send goes through.

use vstd::prelude::*;
use crate::clock::Moment;

verus! {

/// What the caller of a poll is to do.
#[derive(Clone, Copy, Debug, PartialEq, Eq, Structural)]
pub enum Action {
    /// Nothing.
    NoOp,
    /// Run one cycle: search every term, then commit.
    RunCycle,
    /// Try to send the notification and report how it went.
    Notify,
}

/// Where the trigger stands with respect to a reading.
#[derive(Clone, Copy, Debug, PartialEq, Eq, Structural)]
pub enum Phase {
    /// No activation is open for the reading, and it is not the target.
    Idle,
    /// The reading is the target and no cycle has run for it yet.
    Armed,
    /// The cycle for the reading has run.
    Fired,
}

/// Proof that a notification went through. Only the trigger hands one out, and
/// starting a new table uses it up.
#[derive(Debug)]
pub struct RotationPermit {
    _used_once: (),
}

/// What became of a reported send.
#[derive(Debug)]
pub enum Outcome {
    /// No activation is open: there was nothing to notify of.
    NotDue,
    /// The notification of this activation had gone through before.
    AlreadySent,
    /// The send failed; the next poll of this activation asks for it again.
    Failed,
    /// The send went through; the table may now be started afresh.
    Delivered(RotationPermit),
}

/// The memory of the trigger.
#[derive(Clone, Copy, Debug, PartialEq, Eq, Structural)]
pub struct TriggerState {
    /// The reading of the activation that is open, if one is.
    pub last_fired: Option<Moment>,
    /// Whether the notification of the open activation went through.
    pub sent: bool,
}

impl TriggerState {
    /// The state before the first poll.
    pub open spec fn initial() -> TriggerState {
        TriggerState { last_fired: None, sent: false }
    }

    /// Where the trigger stands when the clock reads `now`.
    pub open spec fn phase(self, now: Moment, target: Moment) -> Phase {
        if self.last_fired == Some(now) {
            Phase::Fired
        } else if now == target {
            Phase::Armed
        } else {
            Phase::Idle
        }
    }

    /// The state after a poll at `now`, and what the poll asks for.
    pub open spec fn step(self, now: Moment, target: Moment) -> (TriggerState, Action) {
        match self.phase(now, target) {
            Phase::Fired => (
                self,
                if self.sent {
                    Action::NoOp
                } else {
                    Action::Notify
                },
            ),
            Phase::Armed => (TriggerState { last_fired: Some(now), sent: false }, Action::RunCycle),
            Phase::Idle => (TriggerState { last_fired: None, sent: false }, Action::NoOp),
        }
    }

    /// Whether a send is wanted: an activation is open and its notification
    /// has not gone through.
    pub open spec fn wants_send(self) -> bool {
        self.last_fired is Some && !self.sent
    }

    /// The state after a send was reported.
    pub open spec fn settled(self, delivered: bool) -> TriggerState {
        if self.wants_send() && delivered {
            TriggerState { sent: true, ..self }
        } else {
            self
        }
    }

    /// The state before the first poll.
    pub fn new() -> (r: TriggerState)
        ensures
            r == TriggerState::initial(),
    {
        TriggerState { last_fired: None, sent: false }
    }

    /// Where the trigger stands when the clock reads `now`.
    pub fn current_phase(&self, now: &Moment, target: &Moment) -> (r: Phase)
        ensures
            r == self.phase(*now, *target),
    {
        let open_now = match &self.last_fired {
            Some(m) => m.same_minute(now),
            None => false,
        };
        if open_now {
            Phase::Fired
        } else if now.same_minute(target) {
            Phase::Armed
        } else {
            Phase::Idle
        }
    }

    /// One poll: the next state and what to do. A cycle is asked for once
    /// when a reading first equals the target; leaving that reading closes
    /// the activation and forgets an unsent notification.
    pub fn poll(self, now: Moment, target: Moment) -> (r: (TriggerState, Action))
        ensures
            r == self.step(now, target),
    {
        match self.current_phase(&now, &target) {
            Phase::Fired => (
                self,
                if self.sent {
                    Action::NoOp
                } else {
                    Action::Notify
                },
            ),
            Phase::Armed => (TriggerState { last_fired: Some(now), sent: false }, Action::RunCycle),
            Phase::Idle => (TriggerState { last_fired: None, sent: false }, Action::NoOp),
        }
    }

    /// Whether a send is wanted.
    pub fn send_wanted(&self) -> (r: bool)
        ensures
            r == self.wants_send(),
    {
        self.last_fired.is_some() && !self.sent
    }

    /// Takes the report of a send. A send that went through while one was
    /// wanted marks the activation as notified and yields the permit to
    /// start a new table; anything else leaves the state as it was.
    pub fn maybe_notify(&mut self, delivered: bool) -> (r: Outcome)
        ensures
            *final(self) == old(self).settled(delivered),
            old(self).last_fired is None <==> r is NotDue,
            old(self).last_fired is Some && old(self).sent <==> r is AlreadySent,
            old(self).wants_send() && !delivered <==> r is Failed,
            old(self).wants_send() && delivered <==> r is Delivered,
    {
        if self.last_fired.is_none() {
            Outcome::NotDue
        } else if self.sent {
            Outcome::AlreadySent
        } else if delivered {
            self.sent = true;
            Outcome::Delivered(RotationPermit { _used_once: () })
        } else {
            Outcome::Failed
        }
    }
}

/// A run of polls: `states[i]` is the state in which the poll at `ticks[i]`
/// is made while `targets[i]` is configured, and each poll leaves the
/// activation that the next one finds. Whether a notification was sent in
/// between is left open.
pub open spec fn is_run(states: Seq<TriggerState>, ticks: Seq<Moment>, targets: Seq<Moment>) -> bool {
    &&& states.len() == ticks.len() + 1
    &&& targets.len() == ticks.len()
    &&& forall|i: int|
        0 <= i < ticks.len() ==> (#[trigger] states[i + 1]).last_fired == states[i].step(
            ticks[i],
            targets[i],
        ).0.last_fired
}

/// What the poll at `ticks[i]` asks for.
pub open spec fn asked(
    states: Seq<TriggerState>,
    ticks: Seq<Moment>,
    targets: Seq<Moment>,
    i: int,
) -> Action {
    states[i].step(ticks[i], targets[i]).1
}

/// While the readings stay the same, the activation that a poll opened or
/// found open stays open.
proof fn lemma_activation_stays(
    states: Seq<TriggerState>,
    ticks: Seq<Moment>,
    targets: Seq<Moment>,
    a: int,
    k: int,
)
    requires
        is_run(states, ticks, targets),
        0 <= a < k <= ticks.len(),
        forall|j: int| a <= j < k ==> ticks[j] == ticks[a],
        states[a].step(ticks[a], targets[a]).0.last_fired == Some(ticks[a]),
    ensures
        states[k].last_fired == Some(ticks[a]),
    decreases k - a,
{
    if k > a + 1 {
        lemma_activation_stays(states, ticks, targets, a, k - 1);
        assert(states[k - 1 + 1].last_fired == states[k - 1].step(
            ticks[k - 1],
            targets[k - 1],
        ).0.last_fired);
    } else {
        assert(states[a + 1].last_fired == states[a].step(ticks[a], targets[a]).0.last_fired);
    }
}

/// One cycle per matching minute. Take polls `a` to `b` that all read the
/// same minute, the first of them the first poll to read it, with that
/// minute as its target. Then the poll at `a` asks for a cycle and none of
/// the later ones does, however many there are, whatever was sent in between
/// and whatever the target was changed to.
pub proof fn lemma_one_cycle_per_minute(
    states: Seq<TriggerState>,
    ticks: Seq<Moment>,
    targets: Seq<Moment>,
    a: int,
    b: int,
)
    requires
        is_run(states, ticks, targets),
        0 <= a <= b < ticks.len(),
        forall|j: int| a <= j <= b ==> ticks[j] == ticks[a],
        targets[a] == ticks[a],
        a == 0 ==> states[0].last_fired != Some(ticks[0]),
        a > 0 ==> ticks[a - 1] != ticks[a],
    ensures
        asked(states, ticks, targets, a) == Action::RunCycle,
        forall|k: int| a < k <= b ==> asked(states, ticks, targets, k) != Action::RunCycle,
{
    if a > 0 {
        assert(states[a - 1 + 1].last_fired == states[a - 1].step(
            ticks[a - 1],
            targets[a - 1],
        ).0.last_fired);
    }
    assert forall|k: int| a < k <= b implies asked(states, ticks, targets, k)
        != Action::RunCycle by {
        lemma_activation_stays(states, ticks, targets, a, k);
    }
}

/// Never two cycles in one minute: of two polls with only polls of the same
/// minute between them, at most one asks for a cycle, whatever the targets.
pub proof fn lemma_no_second_cycle(
    states: Seq<TriggerState>,
    ticks: Seq<Moment>,
    targets: Seq<Moment>,
    a: int,
    b: int,
)
    requires
        is_run(states, ticks, targets),
        0 <= a < b < ticks.len(),
        forall|j: int| a <= j <= b ==> ticks[j] == ticks[a],
    ensures
        !(asked(states, ticks, targets, a) == Action::RunCycle && asked(states, ticks, targets, b)
            == Action::RunCycle),
{
    if asked(states, ticks, targets, a) == Action::RunCycle {
        lemma_activation_stays(states, ticks, targets, a, b);
    }
}

/// After the readings leave the minute of an activation, the next poll finds
/// it closed and the notification unsent: an unsent notification is not
/// carried into a later activation.
pub proof fn lemma_leaving_closes(state: TriggerState, now: Moment, target: Moment)
    requires
        state.last_fired != Some(now),
    ensures
        state.step(now, target).0.sent == false,
        state.step(now, target).0.last_fired == if now == target {
            Some(now)
        } else {
            None::<Moment>
        },
{
}

/// Once the notification of an activation went through, reports change
/// nothing and polls at the same reading ask for nothing.
pub proof fn lemma_sent_is_final(state: TriggerState, now: Moment, target: Moment, delivered: bool)
    requires
        state.last_fired == Some(now),
        state.sent,
    ensures
        state.settled(delivered) == state,
        state.step(now, target) == (state, Action::NoOp),
{
}

/// A failed send changes nothing, so the next poll of the activation asks
/// for the notification again.
pub proof fn lemma_failed_send_retries(state: TriggerState, now: Moment, target: Moment)
    requires
        state.last_fired == Some(now),
        !state.sent,
    ensures
        state.settled(false) == state,
        state.settled(false).step(now, target) == (state, Action::Notify),
        state.settled(true).sent,
        state.settled(true).step(now, target).1 == Action::NoOp,
{
}

} // verus!
