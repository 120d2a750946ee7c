//! The join stage over modelled channels.

use crate::actor::worker::classify;
use crate::actor::worker::consumes_tick;
use crate::actor::worker::consumes_value;
use crate::actor::worker::delivered;
use crate::actor::worker::engaged;
use crate::actor::worker::plan_for;
use crate::actor::worker::round_for;
use crate::actor::worker::FizzBuzzMessage;
use crate::actor::worker::Plan;
use crate::model::lane::Lane;
use crate::protocol::SendOutcome;
use crate::protocol::SHOWSTOPPER_THRESHOLD;
use vstd::prelude::*;

verus! {

/// The join stage's two inputs and everything the sink's channel has
/// accepted from it so far.
pub struct JoinWorld {
    pub ticks: Lane<u64>,
    pub values: Lane<u64>,
    pub sent: Seq<FizzBuzzMessage>,
}

/// One thing that happens to the join stage or to its inputs.
pub enum JoinEvent {
    /// A round that ran to its end; `outcome` is the answer of the sink's
    /// channel to the offer, where one is made.
    Round { clean: bool, outcome: SendOutcome<FizzBuzzMessage> },
    /// A round cut off by a fault after it had looked at its inputs and
    /// before any offer was confirmed; the stage restarts.
    Fault { clean: bool },
    /// The timer source appends a tick.
    Tick(u64),
    /// The counter source appends a counter.
    Value(u64),
}

/// Whether the round starts by setting a stuck tick aside.
pub open spec fn quarantine_due(w: JoinWorld, clean: bool) -> bool {
    clean && w.ticks.stuck(SHOWSTOPPER_THRESHOLD as nat)
}

/// What the round decides from what the inputs show.
pub open spec fn planned(w: JoinWorld, clean: bool) -> Plan {
    plan_for(clean, w.ticks.head(), w.values.head())
}

/// The world after a round that ran to its end.
pub open spec fn after_round(
    w: JoinWorld,
    clean: bool,
    outcome: SendOutcome<FizzBuzzMessage>,
) -> JoinWorld {
    if quarantine_due(w, clean) {
        JoinWorld { ticks: w.ticks.released(), ..w }
    } else if !engaged(clean, w.ticks.head()) {
        JoinWorld { ticks: w.ticks.looked(), ..w }
    } else {
        let round = round_for(planned(w, clean), outcome);
        JoinWorld {
            ticks: if consumes_tick(round) {
                w.ticks.looked().released()
            } else {
                w.ticks.looked()
            },
            values: if consumes_value(round) {
                w.values.looked().released()
            } else {
                w.values.looked()
            },
            sent: match delivered(round) {
                Some(message) => w.sent.push(message),
                None => w.sent,
            },
        }
    }
}

/// The world after a round that a fault cut off.
pub open spec fn after_fault(w: JoinWorld, clean: bool) -> JoinWorld {
    if quarantine_due(w, clean) {
        JoinWorld { ticks: w.ticks.released(), ..w }
    } else if !engaged(clean, w.ticks.head()) {
        JoinWorld { ticks: w.ticks.looked(), ..w }
    } else {
        JoinWorld { ticks: w.ticks.looked(), values: w.values.looked(), ..w }
    }
}

/// The world after `event`.
pub open spec fn after(w: JoinWorld, event: JoinEvent) -> JoinWorld {
    match event {
        JoinEvent::Round { clean, outcome } => after_round(w, clean, outcome),
        JoinEvent::Fault { clean } => after_fault(w, clean),
        JoinEvent::Tick(tick) => JoinWorld { ticks: w.ticks.arrived(tick), ..w },
        JoinEvent::Value(value) => JoinWorld { values: w.values.arrived(value), ..w },
    }
}

/// The world after all of `events`, in order.
pub open spec fn after_all(w: JoinWorld, events: Seq<JoinEvent>) -> JoinWorld
    decreases events.len(),
{
    if events.len() == 0 {
        w
    } else {
        after(after_all(w, events.drop_last()), events.last())
    }
}

/// The messages that stand for `values`, in the same order.
pub open spec fn classified(values: Seq<u64>) -> Seq<FizzBuzzMessage> {
    values.map_values(|v: u64| classify(v))
}

/// Every message the stage has delivered, followed by those it still owes
/// for the counters waiting unread.
pub open spec fn ledger(w: JoinWorld) -> Seq<FizzBuzzMessage> {
    w.sent + classified(w.values.unread)
}

/// The counters that `events` append to the counter input, in order.
pub open spec fn arrivals(events: Seq<JoinEvent>) -> Seq<u64>
    decreases events.len(),
{
    if events.len() == 0 {
        Seq::empty()
    } else {
        match events.last() {
            JoinEvent::Value(value) => arrivals(events.drop_last()).push(value),
            _ => arrivals(events.drop_last()),
        }
    }
}

/// A round consumes a counter only when the sink's channel has confirmed
/// the message that stands for it, and where a counter and its message
/// were on offer, a tick only then too. A refused offer leaves both inputs
/// as long as they were and delivers nothing.
pub proof fn law_consume_only_after_confirmed_send(
    w: JoinWorld,
    clean: bool,
    outcome: SendOutcome<FizzBuzzMessage>,
)
    ensures
        after_round(w, clean, outcome).values.unread != w.values.unread ==> outcome.confirmed()
            && w.values.head() is Some && after_round(w, clean, outcome).sent == w.sent.push(
            classify(w.values.unread[0]),
        ),
        !outcome.confirmed() && planned(w, clean) is Forward && !quarantine_due(w, clean) ==> {
            &&& after_round(w, clean, outcome).values.unread == w.values.unread
            &&& after_round(w, clean, outcome).ticks.unread == w.ticks.unread
            &&& after_round(w, clean, outcome).sent == w.sent
        },
{
    let next = after_round(w, clean, outcome);
    if next.values.unread != w.values.unread {
        assert(!quarantine_due(w, clean));
        assert(engaged(clean, w.ticks.head()));
        let round = round_for(planned(w, clean), outcome);
        assert(consumes_value(round));
    }
}

/// A fault in mid-round changes neither what the inputs hold nor what was
/// delivered, except that a tick already stuck is set aside; so the round
/// that follows the restart decides on the same inputs and offers the
/// same message.
pub proof fn law_restart_repeats_offer(w: JoinWorld, clean: bool)
    requires
        !quarantine_due(w, clean),
    ensures
        after_fault(w, clean).values.unread == w.values.unread,
        after_fault(w, clean).ticks.unread == w.ticks.unread,
        after_fault(w, clean).sent == w.sent,
        planned(after_fault(w, clean), clean) == planned(w, clean),
{
}

/// The world after `n` rounds in a row that a fault cut off, each after a
/// wait that had ended with every condition met.
pub open spec fn after_faults(w: JoinWorld, n: nat) -> JoinWorld
    decreases n,
{
    if n == 0 {
        w
    } else {
        after_fault(after_faults(w, (n - 1) as nat), true)
    }
}

/// A round that starts with a stuck tick sets aside that one tick and
/// does nothing else: no counter is consumed and nothing is sent.
pub proof fn law_quarantine_drops_one_tick(
    w: JoinWorld,
    outcome: SendOutcome<FizzBuzzMessage>,
)
    requires
        quarantine_due(w, true),
    ensures
        after_round(w, true, outcome).ticks.unread == w.ticks.unread.skip(1),
        after_round(w, true, outcome).ticks.looks == 0,
        after_round(w, true, outcome).values == w.values,
        after_round(w, true, outcome).sent == w.sent,
{
}

/// While faults keep striking at the same tick it stays the oldest one
/// and each faulted round adds one look, until the threshold is reached.
pub proof fn law_faults_count_looks(w: JoinWorld, n: nat)
    requires
        w.ticks.unread.len() > 0,
        w.ticks.looks + n <= SHOWSTOPPER_THRESHOLD,
    ensures
        after_faults(w, n).ticks.unread == w.ticks.unread,
        after_faults(w, n).ticks.looks == w.ticks.looks + n,
        after_faults(w, n).values.unread == w.values.unread,
        after_faults(w, n).sent == w.sent,
    decreases n,
{
    if n > 0 {
        law_faults_count_looks(w, (n - 1) as nat);
    }
}

/// A tick at which every round faults has at most `SHOWSTOPPER_THRESHOLD`
/// looks: the faulted round that follows the last of them sets it aside,
/// and the tick behind it drives the next round. In all of this no
/// counter is consumed and nothing is sent.
pub proof fn law_quarantine_terminates(w: JoinWorld)
    requires
        w.ticks.unread.len() > 0,
        w.ticks.looks <= SHOWSTOPPER_THRESHOLD,
    ensures
        after_faults(w, (SHOWSTOPPER_THRESHOLD - w.ticks.looks + 1) as nat).ticks.unread
            == w.ticks.unread.skip(1),
        after_faults(w, (SHOWSTOPPER_THRESHOLD - w.ticks.looks + 1) as nat).ticks.looks == 0,
        after_faults(w, (SHOWSTOPPER_THRESHOLD - w.ticks.looks + 1) as nat).values.unread
            == w.values.unread,
        after_faults(w, (SHOWSTOPPER_THRESHOLD - w.ticks.looks + 1) as nat).sent == w.sent,
{
    let n = (SHOWSTOPPER_THRESHOLD - w.ticks.looks) as nat;
    law_faults_count_looks(w, n);
    let before = after_faults(w, n);
    assert(quarantine_due(before, true));
    assert(after_faults(w, n + 1) == after_fault(before, true));
}

/// No event but the arrival of a counter changes the ledger, and that
/// arrival appends the one message that stands for the counter.
pub proof fn law_ledger_step(w: JoinWorld, event: JoinEvent)
    ensures
        ledger(after(w, event)) == match event {
            JoinEvent::Value(value) => ledger(w).push(classify(value)),
            _ => ledger(w),
        },
{
    let next = after(w, event);
    match event {
        JoinEvent::Round { clean, outcome } => {
            if !quarantine_due(w, clean) && engaged(clean, w.ticks.head()) {
                let round = round_for(planned(w, clean), outcome);
                if consumes_value(round) {
                    let v = w.values.unread[0];
                    assert(next.sent == w.sent.push(classify(v)));
                    assert(next.values.unread == w.values.unread.skip(1));
                    assert(classified(w.values.unread) =~= seq![classify(v)] + classified(
                        w.values.unread.skip(1),
                    ));
                    assert(ledger(next) =~= ledger(w));
                } else {
                    assert(ledger(next) =~= ledger(w));
                }
            } else {
                assert(ledger(next) =~= ledger(w));
            }
        },
        JoinEvent::Fault { clean } => {
            assert(ledger(next) =~= ledger(w));
        },
        JoinEvent::Tick(_) => {
            assert(ledger(next) =~= ledger(w));
        },
        JoinEvent::Value(value) => {
            assert(classified(w.values.unread.push(value)) =~= classified(w.values.unread).push(
                classify(value),
            ));
            assert(ledger(next) =~= ledger(w).push(classify(value)));
        },
    }
}

/// Whatever rounds, refused offers, faults and restarts a run holds, and
/// however they interleave with arrivals: what was delivered, followed by
/// what is still owed for the unread counters, is what was delivered and
/// owed at the start, followed by one message for each counter that
/// arrived, in order of arrival. No counter is lost, none is delivered
/// twice, and none overtakes another.
pub proof fn law_no_loss(w: JoinWorld, events: Seq<JoinEvent>)
    ensures
        ledger(after_all(w, events)) == ledger(w) + classified(arrivals(events)),
    decreases events.len(),
{
    if events.len() == 0 {
        assert(classified(arrivals(events)) =~= Seq::empty());
        assert(ledger(w) + classified(arrivals(events)) =~= ledger(w));
    } else {
        let before = after_all(w, events.drop_last());
        law_no_loss(w, events.drop_last());
        law_ledger_step(before, events.last());
        let earlier = arrivals(events.drop_last());
        match events.last() {
            JoinEvent::Value(value) => {
                assert(classified(earlier.push(value)) =~= classified(earlier).push(
                    classify(value),
                ));
                assert((ledger(w) + classified(earlier)).push(classify(value)) =~= ledger(w)
                    + classified(earlier).push(classify(value)));
            },
            _ => {},
        }
    }
}

} // verus!
