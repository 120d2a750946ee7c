//! The pure source: emits the counters 0, 1, 2, ... in order.
//!
//! The next counter lives in the persistent state and moves on only when
//! the channel has confirmed the send, so a restart resumes with the
//! counter that was last refused or never offered.

use crate::protocol::SendOutcome;
use crate::runtime::counter_sender_closed;
use crate::runtime::is_full;
use crate::runtime::mark_counter_sender_closed;
use crate::runtime::try_send_counter;
use steady_state::steady_actor_spotlight::SteadyActorSpotlight;
use steady_state::Tx;
use vstd::prelude::*;

verus! {

/// The attempt at which the demonstration fault strikes.
pub const FAULT_ATTEMPT: u64 = 13;

/// What the generator keeps across restarts.
#[derive(Copy, Clone, Debug, PartialEq, Eq, Structural)]
pub struct GeneratorState {
    /// The next counter to send.
    pub value: u64,
    /// How many counters the channel has accepted.
    pub messages_sent: u64,
    /// How many sends were attempted, confirmed or not.
    pub panic_counter: u64,
}

/// What one round of the generator did.
#[derive(Copy, Clone, Debug, PartialEq, Eq, Structural)]
pub enum Emission {
    /// The channel took this counter.
    Sent(u64),
    /// The channel handed this counter back; it is offered again in the
    /// next round.
    Refused(u64),
    /// The channel was full; nothing was offered.
    Full,
}

impl GeneratorState {
    /// The state of a generator that has never run.
    pub open spec fn initial() -> Self {
        GeneratorState { value: 0, messages_sent: 0, panic_counter: 0 }
    }

    /// The state after one more attempt was counted.
    pub open spec fn after_attempt(self) -> Self
        recommends
            self.panic_counter < u64::MAX,
    {
        GeneratorState { panic_counter: (self.panic_counter + 1) as u64, ..self }
    }

    /// The state after a confirmed send.
    pub open spec fn after_send(self) -> Self
        recommends
            self.can_send(),
    {
        GeneratorState {
            value: (self.value + 1) as u64,
            messages_sent: (self.messages_sent + 1) as u64,
            ..self
        }
    }

    /// The state after a send that ended in `outcome`.
    pub open spec fn after_outcome(self, outcome: SendOutcome<u64>) -> Self {
        if outcome.confirmed() {
            self.after_send()
        } else {
            self
        }
    }

    /// Both send counters can still grow.
    pub open spec fn can_send(self) -> bool {
        self.value < u64::MAX && self.messages_sent < u64::MAX
    }

    /// The attempt counter can still grow.
    pub open spec fn can_attempt(self) -> bool {
        self.panic_counter < u64::MAX
    }

    pub fn new() -> (state: Self)
        ensures
            state == Self::initial(),
    {
        GeneratorState { value: 0, messages_sent: 0, panic_counter: 0 }
    }

    pub fn has_room_to_send(&self) -> (ok: bool)
        ensures
            ok == self.can_send(),
    {
        self.value < u64::MAX && self.messages_sent < u64::MAX
    }

    pub fn has_room_to_attempt(&self) -> (ok: bool)
        ensures
            ok == self.can_attempt(),
    {
        self.panic_counter < u64::MAX
    }

    /// Counts one more attempt and tells whether the demonstration fault
    /// is due at it.
    pub fn note_attempt(&mut self) -> (fault: bool)
        requires
            old(self).can_attempt(),
        ensures
            *final(self) == old(self).after_attempt(),
            fault == (old(self).panic_counter + 1 == FAULT_ATTEMPT),
    {
        self.panic_counter = self.panic_counter + 1;
        self.panic_counter == FAULT_ATTEMPT
    }

    /// Commits or abandons the send of the current counter, by what the
    /// channel answered.
    pub fn settle(&mut self, outcome: SendOutcome<u64>) -> (emission: Emission)
        requires
            old(self).can_send(),
        ensures
            *final(self) == old(self).after_outcome(outcome),
            emission == (if outcome.confirmed() {
                Emission::Sent(old(self).value)
            } else {
                Emission::Refused(old(self).value)
            }),
    {
        match outcome {
            SendOutcome::Success => {
                let sent: u64 = self.value;
                self.value = self.value + 1;
                self.messages_sent = self.messages_sent + 1;
                Emission::Sent(sent)
            },
            _ => Emission::Refused(self.value),
        }
    }
}

/// What remains of the state after a round that ended in `emission`.
pub open spec fn state_after(before: GeneratorState, emission: Emission) -> GeneratorState {
    match emission {
        Emission::Sent(_) => before.after_send(),
        _ => before,
    }
}

/// One round of the generator, entered once the channel has signalled
/// room: offers the current counter unless the channel is full after all.
/// Whatever the channel answers, the counter offered is the one the state
/// held, and the state moves on to the next exactly when the send was
/// confirmed; a counter handed back is therefore offered again.
pub fn produce<const RX_LEN: usize, const TX_LEN: usize>(
    actor: &mut SteadyActorSpotlight<RX_LEN, TX_LEN>,
    tx: &mut Tx<u64>,
    state: &mut GeneratorState,
) -> (emission: Emission)
    requires
        old(state).can_send(),
        !counter_sender_closed(*old(tx)),
    ensures
        !counter_sender_closed(*final(tx)),
        *final(state) == state_after(*old(state), emission),
        emission matches Emission::Sent(v) ==> v == old(state).value,
        emission matches Emission::Refused(v) ==> v == old(state).value,
{
    if is_full(actor, tx) {
        Emission::Full
    } else {
        let outcome = try_send_counter(actor, tx, state.value);
        state.settle(outcome)
    }
}

/// The generator's answer to a shutdown request: it closes its output and
/// agrees to stop.
pub fn accept_shutdown(tx: &mut Tx<u64>) -> (stop: bool)
    ensures
        stop,
        counter_sender_closed(*final(tx)),
{
    mark_counter_sender_closed(tx)
}

} // verus!
