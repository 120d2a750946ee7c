//! The join stage: pairs ticks with counters and forwards each counter,
//! classified, to the sink.

use crate::protocol::set_aside;
use crate::protocol::Quarantine;
use crate::protocol::SendOutcome;
use crate::runtime::is_closed_and_empty;
use crate::runtime::mark_message_sender_closed;
use crate::runtime::message_sender_closed;
use crate::runtime::try_peek;
use crate::runtime::try_send_message;
use crate::runtime::try_take;
use steady_state::steady_actor_spotlight::SteadyActorSpotlight;
use steady_state::Rx;
use steady_state::Tx;
use vstd::prelude::*;

verus! {

/// What the join stage sends to the sink: a counter, or one of three marks
/// for counters divisible by 3, by 5, or by both.
#[derive(Copy, Clone, Debug, PartialEq, Eq, Structural)]
pub enum FizzBuzzMessage {
    FizzBuzz,
    Fizz,
    Buzz,
    Value(u64),
}

/// The message that stands for the counter `n`.
pub open spec fn classify(n: u64) -> FizzBuzzMessage {
    if n % 15 == 0 {
        FizzBuzzMessage::FizzBuzz
    } else if n % 3 == 0 {
        FizzBuzzMessage::Fizz
    } else if n % 5 == 0 {
        FizzBuzzMessage::Buzz
    } else {
        FizzBuzzMessage::Value(n)
    }
}

/// Classification sorts every counter into exactly one kind, by its
/// divisibility by 3 and by 5 alone, and only a counter divisible by
/// neither is carried along, unchanged.
pub proof fn law_classify_partitions(n: u64)
    ensures
        classify(n) is FizzBuzz <==> n % 3 == 0 && n % 5 == 0,
        classify(n) is Fizz <==> n % 3 == 0 && n % 5 != 0,
        classify(n) is Buzz <==> n % 3 != 0 && n % 5 == 0,
        classify(n) is Value <==> n % 3 != 0 && n % 5 != 0,
        classify(n) matches FizzBuzzMessage::Value(carried) ==> carried == n,
{
    assert(n % 15 == 0 <==> n % 3 == 0 && n % 5 == 0) by (nonlinear_arith);
}

impl FizzBuzzMessage {
    /// The message that stands for `value`.
    pub fn new(value: u64) -> (msg: Self)
        ensures
            msg == classify(value),
    {
        if value % 3 == 0 {
            if value % 5 == 0 {
                FizzBuzzMessage::FizzBuzz
            } else {
                FizzBuzzMessage::Fizz
            }
        } else if value % 5 == 0 {
            FizzBuzzMessage::Buzz
        } else {
            FizzBuzzMessage::Value(value)
        }
    }
}

/// The number of completed rounds after which the demonstration fault
/// strikes, on the first run only.
pub const FAULT_ROUND: u64 = 5;

/// What the worker keeps across restarts.
#[derive(Copy, Clone, Debug, PartialEq, Eq, Structural)]
pub struct WorkerState {
    /// How many rounds ran to their end, with or without a tick.
    pub heartbeats_processed: u64,
    /// How many inputs left their channel: counters forwarded and ticks
    /// set aside as stuck.
    pub values_processed: u64,
    /// How many classified messages the sink's channel has accepted.
    pub messages_sent: u64,
    /// How many times the stage body was entered.
    pub restart_count: u64,
}

/// What a round is going to do, decided from what the inputs show.
#[derive(Copy, Clone, Debug, PartialEq, Eq, Structural)]
pub enum Plan {
    /// Nothing drives the round: no tick, and the wait was not cut short.
    Wait,
    /// There is no counter to forward; a tick, if present, is consumed
    /// alone.
    Skip { tick: bool },
    /// Offer `message`, which stands for `value`, to the sink; `tick`
    /// tells whether a tick is consumed along with the counter.
    Forward { value: u64, message: FizzBuzzMessage, tick: bool },
}

/// What one round of the worker did.
#[derive(Copy, Clone, Debug, PartialEq, Eq, Structural)]
pub enum Round {
    /// Nothing was consumed and nothing sent.
    Waited,
    /// No counter was there; the tick, if any, was consumed alone.
    Skipped { tick: bool },
    /// The sink's channel took `message`; afterwards the counter `value`,
    /// and the tick if there was one, were consumed.
    Forwarded { value: u64, message: FizzBuzzMessage, tick: bool },
    /// The sink's channel handed back `message`, which stands for
    /// `value`; neither input was consumed.
    Blocked { value: u64, message: FizzBuzzMessage },
}

/// Whether a round has anything to do: a tick drives it, and so does a
/// wait that was cut short, which lets the stage drain what is left.
pub open spec fn engaged(clean: bool, tick: Option<u64>) -> bool {
    tick is Some || !clean
}

/// The plan for a round. A tick without a counter is consumed alone, so
/// that ticks can always drain; a counter without a tick is forwarded only
/// when the wait was cut short.
pub open spec fn plan_for(clean: bool, tick: Option<u64>, value: Option<u64>) -> Plan {
    if !engaged(clean, tick) {
        Plan::Wait
    } else {
        match value {
            Some(v) => Plan::Forward { value: v, message: classify(v), tick: tick is Some },
            None => Plan::Skip { tick: tick is Some },
        }
    }
}

/// How a plan ends, given what the sink's channel answered to the offer
/// (the answer is not consulted unless the plan is to forward).
pub open spec fn round_for(plan: Plan, outcome: SendOutcome<FizzBuzzMessage>) -> Round {
    match plan {
        Plan::Wait => Round::Waited,
        Plan::Skip { tick } => Round::Skipped { tick },
        Plan::Forward { value, message, tick } => if outcome.confirmed() {
            Round::Forwarded { value, message, tick }
        } else {
            Round::Blocked { value, message }
        },
    }
}

/// Whether a round that ended in `round` consumed a tick.
pub open spec fn consumes_tick(round: Round) -> bool {
    match round {
        Round::Skipped { tick } => tick,
        Round::Forwarded { tick, .. } => tick,
        _ => false,
    }
}

/// Whether a round that ended in `round` consumed a counter.
pub open spec fn consumes_value(round: Round) -> bool {
    round is Forwarded
}

/// The message a round that ended in `round` delivered to the sink.
pub open spec fn delivered(round: Round) -> Option<FizzBuzzMessage> {
    match round {
        Round::Forwarded { message, .. } => Some(message),
        _ => None,
    }
}

pub fn plan(clean: bool, tick: Option<u64>, value: Option<u64>) -> (plan: Plan)
    ensures
        plan == plan_for(clean, tick, value),
{
    if tick.is_none() && clean {
        Plan::Wait
    } else {
        match value {
            Some(v) => Plan::Forward {
                value: v,
                message: FizzBuzzMessage::new(v),
                tick: tick.is_some(),
            },
            None => Plan::Skip { tick: tick.is_some() },
        }
    }
}

impl WorkerState {
    /// The state of a worker that has never run.
    pub open spec fn initial() -> Self {
        WorkerState {
            heartbeats_processed: 0,
            values_processed: 0,
            messages_sent: 0,
            restart_count: 0,
        }
    }

    /// The state after the stage body was entered once more.
    pub open spec fn after_start(self) -> Self
        recommends
            self.can_start(),
    {
        WorkerState { restart_count: (self.restart_count + 1) as u64, ..self }
    }

    /// The state after a stuck tick was removed.
    pub open spec fn after_drop(self) -> Self
        recommends
            self.can_count(),
    {
        WorkerState { values_processed: (self.values_processed + 1) as u64, ..self }
    }

    /// The state after a round that ended in `round`.
    pub open spec fn after_round(self, round: Round) -> Self
        recommends
            self.can_count(),
    {
        match round {
            Round::Waited => self,
            Round::Blocked { .. } => self,
            Round::Skipped { .. } => WorkerState {
                heartbeats_processed: (self.heartbeats_processed + 1) as u64,
                ..self
            },
            Round::Forwarded { .. } => WorkerState {
                heartbeats_processed: (self.heartbeats_processed + 1) as u64,
                values_processed: (self.values_processed + 1) as u64,
                messages_sent: (self.messages_sent + 1) as u64,
                ..self
            },
        }
    }

    /// Every round counter can still grow.
    pub open spec fn can_count(self) -> bool {
        &&& self.heartbeats_processed < u64::MAX
        &&& self.values_processed < u64::MAX
        &&& self.messages_sent < u64::MAX
    }

    /// The restart counter can still grow.
    pub open spec fn can_start(self) -> bool {
        self.restart_count < u64::MAX
    }

    /// Whether the demonstration fault strikes before the next round.
    pub open spec fn fault_is_due(self) -> bool {
        self.heartbeats_processed == FAULT_ROUND && self.restart_count == 1
    }

    pub fn new() -> (state: Self)
        ensures
            state == Self::initial(),
    {
        WorkerState {
            heartbeats_processed: 0,
            values_processed: 0,
            messages_sent: 0,
            restart_count: 0,
        }
    }

    pub fn has_room_to_count(&self) -> (ok: bool)
        ensures
            ok == self.can_count(),
    {
        self.heartbeats_processed < u64::MAX && self.values_processed < u64::MAX
            && self.messages_sent < u64::MAX
    }

    pub fn has_room_to_start(&self) -> (ok: bool)
        ensures
            ok == self.can_start(),
    {
        self.restart_count < u64::MAX
    }

    /// Records that the stage body was entered: once per invocation, the
    /// first included.
    pub fn begin(&mut self)
        requires
            old(self).can_start(),
        ensures
            *final(self) == old(self).after_start(),
    {
        self.restart_count = self.restart_count + 1;
    }

    pub fn fault_due(&self) -> (due: bool)
        ensures
            due == self.fault_is_due(),
    {
        self.heartbeats_processed == FAULT_ROUND && self.restart_count == 1
    }

    /// Counts a stuck tick that was removed unprocessed.
    pub fn note_drop(&mut self)
        requires
            old(self).values_processed < u64::MAX,
        ensures
            *final(self) == old(self).after_drop(),
    {
        self.values_processed = self.values_processed + 1;
    }

    /// Ends a round that followed `plan`: `outcome` is the channel's
    /// answer to the offer, where one was made. The counters move only
    /// for a round that consumed something or ran dry.
    pub fn settle(&mut self, plan: Plan, outcome: SendOutcome<FizzBuzzMessage>) -> (round: Round)
        requires
            old(self).can_count(),
        ensures
            round == round_for(plan, outcome),
            *final(self) == old(self).after_round(round),
    {
        match plan {
            Plan::Wait => Round::Waited,
            Plan::Skip { tick } => {
                self.heartbeats_processed = self.heartbeats_processed + 1;
                Round::Skipped { tick }
            },
            Plan::Forward { value, message, tick } => {
                if outcome.is_sent() {
                    self.values_processed = self.values_processed + 1;
                    self.messages_sent = self.messages_sent + 1;
                    self.heartbeats_processed = self.heartbeats_processed + 1;
                    Round::Forwarded { value, message, tick }
                } else {
                    Round::Blocked { value, message }
                }
            },
        }
    }
}

/// What remains of the state after the check for a stuck tick.
pub open spec fn state_after_quarantine(before: WorkerState, found: Quarantine<u64>) -> WorkerState {
    match found {
        Quarantine::Dropped(_) => before.after_drop(),
        _ => before,
    }
}

/// The first half of a round, made on the driving input when the wait
/// ended with every condition met: removes the oldest tick unprocessed if
/// it has been looked at `SHOWSTOPPER_THRESHOLD` times, and counts the
/// drop. At most one tick leaves per call.
pub fn quarantine<const RX_LEN: usize, const TX_LEN: usize>(
    actor: &mut SteadyActorSpotlight<RX_LEN, TX_LEN>,
    heartbeat: &mut Rx<u64>,
    state: &mut WorkerState,
    clean: bool,
) -> (found: Quarantine<u64>)
    requires
        old(state).can_count(),
    ensures
        *final(state) == state_after_quarantine(*old(state), found),
        !clean ==> found is NotDue,
{
    if clean {
        let found = set_aside(actor, heartbeat);
        if let Quarantine::Dropped(_) = &found {
            state.note_drop();
        }
        found
    } else {
        Quarantine::NotDue
    }
}

/// The second half of a round: looks at both inputs without removing
/// anything, offers the classified counter to the sink, and consumes the
/// inputs only once the sink's channel has taken the message. When the
/// offer is handed back, both inputs and the state stay as they were.
pub fn forward<const RX_LEN: usize, const TX_LEN: usize>(
    actor: &mut SteadyActorSpotlight<RX_LEN, TX_LEN>,
    heartbeat: &mut Rx<u64>,
    generator: &mut Rx<u64>,
    logger: &mut Tx<FizzBuzzMessage>,
    state: &mut WorkerState,
    clean: bool,
) -> (round: Round)
    requires
        old(state).can_count(),
        !message_sender_closed(*old(logger)),
    ensures
        !message_sender_closed(*final(logger)),
        *final(state) == old(state).after_round(round),
        exists|tick: Option<u64>, value: Option<u64>, outcome: SendOutcome<FizzBuzzMessage>|
            round == #[trigger] round_for(plan_for(clean, tick, value), outcome),
{
    let tick = try_peek(actor, heartbeat);
    if tick.is_none() && clean {
        assert(plan_for(clean, tick, None) == Plan::Wait);
        return state.settle(Plan::Wait, SendOutcome::Success);
    }
    let value = try_peek(actor, generator);
    let planned = plan(clean, tick, value);
    match planned {
        Plan::Wait => state.settle(planned, SendOutcome::Success),
        Plan::Skip { tick } => {
            if tick {
                let _ = try_take(actor, heartbeat);
            }
            state.settle(planned, SendOutcome::Success)
        },
        Plan::Forward { message, tick, .. } => {
            let outcome = try_send_message(actor, logger, message);
            if outcome.is_sent() {
                if tick {
                    let _ = try_take(actor, heartbeat);
                }
                let _ = try_take(actor, generator);
            }
            state.settle(planned, outcome)
        },
    }
}

/// The worker's answer to a shutdown request: it agrees to stop once both
/// inputs are closed and drained, and closes its output as it agrees.
pub fn accept_shutdown(
    heartbeat: &mut Rx<u64>,
    generator: &mut Rx<u64>,
    logger: &mut Tx<FizzBuzzMessage>,
) -> (stop: bool)
    ensures
        stop ==> message_sender_closed(*final(logger)),
        !stop ==> message_sender_closed(*final(logger)) == message_sender_closed(*old(logger)),
{
    if !is_closed_and_empty(heartbeat) {
        return false;
    }
    if !is_closed_and_empty(generator) {
        return false;
    }
    mark_message_sender_closed(logger)
}

} // verus!
