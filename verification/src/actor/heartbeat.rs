//! The timer-driven source: emits one numbered beat per period and asks
//! for shutdown once a configured number of beats has gone out.

use crate::protocol::SendOutcome;
use crate::runtime::counter_sender_closed;
use crate::runtime::mark_counter_sender_closed;
use crate::runtime::try_send_counter;
use steady_state::steady_actor_spotlight::SteadyActorSpotlight;
use steady_state::Tx;
use vstd::prelude::*;

verus! {

/// The beat before which the demonstration fault strikes, on the first
/// run only.
pub const FAULT_BEAT: u64 = 7;

/// What the heartbeat keeps across restarts.
#[derive(Copy, Clone, Debug, PartialEq, Eq, Structural)]
pub struct HeartbeatState {
    /// The number of the next beat.
    pub count: u64,
    /// How many beats the channel has accepted.
    pub beats_sent: u64,
    /// How many times the stage body was entered.
    pub restart_count: u64,
}

/// What one round of the heartbeat did.
#[derive(Copy, Clone, Debug, PartialEq, Eq, Structural)]
pub enum Beat {
    /// The channel took this beat; `last` tells that it completed the
    /// configured number and that shutdown is to be requested.
    Sent { value: u64, last: bool },
    /// The channel handed this beat back; it is offered again in the
    /// next round.
    Refused(u64),
}

impl HeartbeatState {
    /// The state of a heartbeat that has never run.
    pub open spec fn initial() -> Self {
        HeartbeatState { count: 0, beats_sent: 0, restart_count: 0 }
    }

    /// The state after the stage body was entered once more.
    pub open spec fn after_start(self) -> Self
        recommends
            self.can_start(),
    {
        HeartbeatState { restart_count: (self.restart_count + 1) as u64, ..self }
    }

    /// The state after a confirmed beat.
    pub open spec fn after_send(self) -> Self
        recommends
            self.can_send(),
    {
        HeartbeatState {
            count: (self.count + 1) as u64,
            beats_sent: (self.beats_sent + 1) as u64,
            ..self
        }
    }

    /// The state after a send that ended in `outcome`.
    pub open spec fn after_outcome(self, outcome: SendOutcome<u64>) -> Self {
        if outcome.confirmed() {
            self.after_send()
        } else {
            self
        }
    }

    /// The beat counters can still grow.
    pub open spec fn can_send(self) -> bool {
        self.count < u64::MAX && self.beats_sent < u64::MAX
    }

    /// The restart counter can still grow.
    pub open spec fn can_start(self) -> bool {
        self.restart_count < u64::MAX
    }

    /// Whether the demonstration fault strikes before the next beat.
    pub open spec fn fault_is_due(self) -> bool {
        self.count == FAULT_BEAT && self.restart_count == 1
    }

    pub fn new() -> (state: Self)
        ensures
            state == Self::initial(),
    {
        HeartbeatState { count: 0, beats_sent: 0, restart_count: 0 }
    }

    pub fn has_room_to_send(&self) -> (ok: bool)
        ensures
            ok == self.can_send(),
    {
        self.count < u64::MAX && self.beats_sent < u64::MAX
    }

    pub fn has_room_to_start(&self) -> (ok: bool)
        ensures
            ok == self.can_start(),
    {
        self.restart_count < u64::MAX
    }

    /// Records that the stage body was entered: once per invocation, the
    /// first included.
    pub fn begin(&mut self)
        requires
            old(self).can_start(),
        ensures
            *final(self) == old(self).after_start(),
    {
        self.restart_count = self.restart_count + 1;
    }

    pub fn fault_due(&self) -> (due: bool)
        ensures
            due == self.fault_is_due(),
    {
        self.count == FAULT_BEAT && self.restart_count == 1
    }

    /// Commits or abandons the current beat, by what the channel answered.
    /// A confirmed beat is the last one when the beats sent so far, this
    /// one included, number `beats`.
    pub fn settle(&mut self, outcome: SendOutcome<u64>, beats: u64) -> (beat: Beat)
        requires
            old(self).can_send(),
        ensures
            *final(self) == old(self).after_outcome(outcome),
            beat == (if outcome.confirmed() {
                Beat::Sent { value: old(self).count, last: beats == old(self).count + 1 }
            } else {
                Beat::Refused(old(self).count)
            }),
    {
        match outcome {
            SendOutcome::Success => {
                let value: u64 = self.count;
                self.count = self.count + 1;
                self.beats_sent = self.beats_sent + 1;
                Beat::Sent { value, last: beats == self.count }
            },
            _ => Beat::Refused(self.count),
        }
    }
}

/// What remains of the state after a round that ended in `beat`.
pub open spec fn state_after(before: HeartbeatState, beat: Beat) -> HeartbeatState {
    match beat {
        Beat::Sent { .. } => before.after_send(),
        Beat::Refused(_) => before,
    }
}

/// One round of the heartbeat, entered once the period has elapsed and the
/// channel has signalled room: offers the current beat. Whatever the
/// channel answers, the beat offered is the one the state held, and the
/// state moves on to the next exactly when the send was confirmed; a beat
/// handed back is therefore offered again.
pub fn beat<const RX_LEN: usize, const TX_LEN: usize>(
    actor: &mut SteadyActorSpotlight<RX_LEN, TX_LEN>,
    tx: &mut Tx<u64>,
    state: &mut HeartbeatState,
    beats: u64,
) -> (beat: Beat)
    requires
        old(state).can_send(),
        !counter_sender_closed(*old(tx)),
    ensures
        !counter_sender_closed(*final(tx)),
        *final(state) == state_after(*old(state), beat),
        beat matches Beat::Sent { value, last } ==> value == old(state).count && last == (beats
            == old(state).count + 1),
        beat matches Beat::Refused(value) ==> value == old(state).count,
{
    let outcome = try_send_counter(actor, tx, state.count);
    state.settle(outcome, beats)
}

/// The heartbeat's answer to a shutdown request: it closes its output and
/// agrees to stop.
pub fn accept_shutdown(tx: &mut Tx<u64>) -> (stop: bool)
    ensures
        stop,
        counter_sender_closed(*final(tx)),
{
    mark_counter_sender_closed(tx)
}

} // verus!
