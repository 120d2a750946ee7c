//! The sink: tallies the classified messages it receives.
//!
//! A message is tallied while it is still in the channel and removed only
//! afterwards, so a restart during the tally finds the message again.

use crate::actor::worker::FizzBuzzMessage;
use crate::protocol::set_aside;
use crate::protocol::Quarantine;
use crate::runtime::advance_take_index;
use crate::runtime::try_peek;
use steady_state::steady_actor_spotlight::SteadyActorSpotlight;
use steady_state::Rx;
use vstd::prelude::*;

verus! {

/// The number of logged messages after which the demonstration fault
/// strikes, on the first run only.
pub const FAULT_MESSAGE: u64 = 3;

/// What the logger keeps across restarts.
#[derive(Copy, Clone, Debug, PartialEq, Eq, Structural)]
pub struct LoggerState {
    /// How many messages were tallied and then removed from the channel.
    pub messages_logged: u64,
    pub fizz_count: u64,
    pub buzz_count: u64,
    pub fizzbuzz_count: u64,
    pub value_count: u64,
    /// How many times the stage body was entered.
    pub restart_count: u64,
    /// How many stuck messages were removed untallied.
    pub messages_dropped: u64,
}

/// What one round of the logger did.
#[derive(Copy, Clone, Debug, PartialEq, Eq, Structural)]
pub enum Intake {
    /// The channel held no message.
    Idle,
    /// This message was tallied; `total` is the tally of its kind after
    /// it, and `committed` tells whether the channel then released it.
    Logged { message: FizzBuzzMessage, total: u64, committed: bool },
}

impl LoggerState {
    /// The state of a logger that has never run.
    pub open spec fn initial() -> Self {
        LoggerState {
            messages_logged: 0,
            fizz_count: 0,
            buzz_count: 0,
            fizzbuzz_count: 0,
            value_count: 0,
            restart_count: 0,
            messages_dropped: 0,
        }
    }

    /// The tally kept for messages of the kind of `message`.
    pub open spec fn tally(self, message: FizzBuzzMessage) -> u64 {
        match message {
            FizzBuzzMessage::Fizz => self.fizz_count,
            FizzBuzzMessage::Buzz => self.buzz_count,
            FizzBuzzMessage::FizzBuzz => self.fizzbuzz_count,
            FizzBuzzMessage::Value(_) => self.value_count,
        }
    }

    /// The state after `message` was tallied.
    pub open spec fn after_record(self, message: FizzBuzzMessage) -> Self
        recommends
            self.can_record(),
    {
        match message {
            FizzBuzzMessage::Fizz => LoggerState {
                fizz_count: (self.fizz_count + 1) as u64,
                ..self
            },
            FizzBuzzMessage::Buzz => LoggerState {
                buzz_count: (self.buzz_count + 1) as u64,
                ..self
            },
            FizzBuzzMessage::FizzBuzz => LoggerState {
                fizzbuzz_count: (self.fizzbuzz_count + 1) as u64,
                ..self
            },
            FizzBuzzMessage::Value(_) => LoggerState {
                value_count: (self.value_count + 1) as u64,
                ..self
            },
        }
    }

    /// The state after the channel released `advanced` messages.
    pub open spec fn after_commit(self, advanced: usize) -> Self
        recommends
            self.messages_logged < u64::MAX,
    {
        if advanced > 0 {
            LoggerState { messages_logged: (self.messages_logged + 1) as u64, ..self }
        } else {
            self
        }
    }

    /// The state after a stuck message was removed.
    pub open spec fn after_drop(self) -> Self
        recommends
            self.messages_dropped < u64::MAX,
    {
        LoggerState { messages_dropped: (self.messages_dropped + 1) as u64, ..self }
    }

    /// The state after the stage body was entered once more.
    pub open spec fn after_start(self) -> Self
        recommends
            self.can_start(),
    {
        LoggerState { restart_count: (self.restart_count + 1) as u64, ..self }
    }

    /// Every tally can still grow.
    pub open spec fn can_record(self) -> bool {
        &&& self.messages_logged < u64::MAX
        &&& self.fizz_count < u64::MAX
        &&& self.buzz_count < u64::MAX
        &&& self.fizzbuzz_count < u64::MAX
        &&& self.value_count < u64::MAX
        &&& self.messages_dropped < u64::MAX
    }

    /// The restart counter can still grow.
    pub open spec fn can_start(self) -> bool {
        self.restart_count < u64::MAX
    }

    /// Whether the demonstration fault strikes before the next message.
    pub open spec fn fault_is_due(self) -> bool {
        self.messages_logged == FAULT_MESSAGE && self.restart_count == 1
    }

    pub fn new() -> (state: Self)
        ensures
            state == Self::initial(),
    {
        LoggerState {
            messages_logged: 0,
            fizz_count: 0,
            buzz_count: 0,
            fizzbuzz_count: 0,
            value_count: 0,
            restart_count: 0,
            messages_dropped: 0,
        }
    }

    pub fn has_room_to_record(&self) -> (ok: bool)
        ensures
            ok == self.can_record(),
    {
        self.messages_logged < u64::MAX && self.fizz_count < u64::MAX && self.buzz_count
            < u64::MAX && self.fizzbuzz_count < u64::MAX && self.value_count < u64::MAX
            && self.messages_dropped < u64::MAX
    }

    pub fn has_room_to_start(&self) -> (ok: bool)
        ensures
            ok == self.can_start(),
    {
        self.restart_count < u64::MAX
    }

    /// Records that the stage body was entered: once per invocation, the
    /// first included.
    pub fn begin(&mut self)
        requires
            old(self).can_start(),
        ensures
            *final(self) == old(self).after_start(),
    {
        self.restart_count = self.restart_count + 1;
    }

    pub fn fault_due(&self) -> (due: bool)
        ensures
            due == self.fault_is_due(),
    {
        self.messages_logged == FAULT_MESSAGE && self.restart_count == 1
    }

    /// Tallies `message` and returns the new tally of its kind.
    pub fn record(&mut self, message: FizzBuzzMessage) -> (total: u64)
        requires
            old(self).can_record(),
        ensures
            *final(self) == old(self).after_record(message),
            total == old(self).tally(message) + 1,
    {
        match message {
            FizzBuzzMessage::Fizz => {
                self.fizz_count = self.fizz_count + 1;
                self.fizz_count
            },
            FizzBuzzMessage::Buzz => {
                self.buzz_count = self.buzz_count + 1;
                self.buzz_count
            },
            FizzBuzzMessage::FizzBuzz => {
                self.fizzbuzz_count = self.fizzbuzz_count + 1;
                self.fizzbuzz_count
            },
            FizzBuzzMessage::Value(_) => {
                self.value_count = self.value_count + 1;
                self.value_count
            },
        }
    }

    /// Counts the tallied message as logged if the channel released it.
    pub fn commit(&mut self, advanced: usize) -> (committed: bool)
        requires
            old(self).messages_logged < u64::MAX,
        ensures
            *final(self) == old(self).after_commit(advanced),
            committed == (advanced > 0),
    {
        if advanced > 0 {
            self.messages_logged = self.messages_logged + 1;
            true
        } else {
            false
        }
    }

    /// Counts a stuck message that was removed untallied.
    pub fn note_drop(&mut self)
        requires
            old(self).messages_dropped < u64::MAX,
        ensures
            *final(self) == old(self).after_drop(),
    {
        self.messages_dropped = self.messages_dropped + 1;
    }
}

/// What remains of the state after the check for a stuck message.
pub open spec fn state_after_quarantine(
    before: LoggerState,
    found: Quarantine<FizzBuzzMessage>,
) -> LoggerState {
    match found {
        Quarantine::Dropped(_) => before.after_drop(),
        _ => before,
    }
}

/// What remains of the state after a round that ended in `intake`.
pub open spec fn state_after(before: LoggerState, intake: Intake) -> LoggerState {
    match intake {
        Intake::Idle => before,
        Intake::Logged { message, committed, .. } => before.after_record(message).after_commit(
            if committed {
                1
            } else {
                0
            },
        ),
    }
}

/// The first half of a round: removes the oldest message untallied if it
/// has been looked at `SHOWSTOPPER_THRESHOLD` times, and counts the drop.
/// At most one message leaves per call.
pub fn quarantine<const RX_LEN: usize, const TX_LEN: usize>(
    actor: &mut SteadyActorSpotlight<RX_LEN, TX_LEN>,
    rx: &mut Rx<FizzBuzzMessage>,
    state: &mut LoggerState,
) -> (found: Quarantine<FizzBuzzMessage>)
    requires
        old(state).can_record(),
    ensures
        *final(state) == state_after_quarantine(*old(state), found),
{
    let found = set_aside(actor, rx);
    if let Quarantine::Dropped(_) = &found {
        state.note_drop();
    }
    found
}

/// The second half of a round: looks at the oldest message, tallies it,
/// and only then asks the channel to release it. The message counts as
/// logged exactly when the channel released it.
pub fn consume<const RX_LEN: usize, const TX_LEN: usize>(
    actor: &mut SteadyActorSpotlight<RX_LEN, TX_LEN>,
    rx: &mut Rx<FizzBuzzMessage>,
    state: &mut LoggerState,
) -> (intake: Intake)
    requires
        old(state).can_record(),
    ensures
        *final(state) == state_after(*old(state), intake),
        intake matches Intake::Logged { message, total, .. } ==> total == old(state).tally(
            message,
        ) + 1,
{
    match try_peek(actor, rx) {
        Some(message) => {
            let total = state.record(message);
            let advanced = advance_take_index(actor, rx, 1);
            let committed = state.commit(advanced);
            Intake::Logged { message, total, committed }
        },
        None => Intake::Idle,
    }
}

} // verus!
