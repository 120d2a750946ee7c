//! The sink over a modelled channel, with faults that strike while a
//! message is being tallied.

use crate::actor::worker::FizzBuzzMessage;
use crate::model::lane::Lane;
use crate::protocol::SHOWSTOPPER_THRESHOLD;
use vstd::prelude::*;

verus! {

/// How a message left the sink's input.
pub enum Handled {
    /// It was tallied and then released.
    Logged(FizzBuzzMessage),
    /// It was set aside untallied after too many looks.
    Dropped(FizzBuzzMessage),
}

impl Handled {
    pub open spec fn message(self) -> FizzBuzzMessage {
        match self {
            Handled::Logged(message) => message,
            Handled::Dropped(message) => message,
        }
    }
}

/// The sink's input and the messages that have left it, in order.
pub struct SinkWorld {
    pub inbox: Lane<FizzBuzzMessage>,
    pub handled: Seq<Handled>,
}

/// One thing that happens to the sink or to its input.
pub enum SinkEvent {
    /// A round that ran to its end.
    Round,
    /// A round cut off by a fault after it had looked at the oldest
    /// message and before it released it; the stage restarts.
    Fault,
    /// The join stage appends a message.
    Arrival(FizzBuzzMessage),
}

/// The threshold as a number of looks.
pub open spec fn threshold() -> nat {
    SHOWSTOPPER_THRESHOLD as nat
}

/// The world after the round's first half has set the stuck head aside.
pub open spec fn after_drop(w: SinkWorld) -> SinkWorld
    recommends
        w.inbox.stuck(threshold()),
{
    SinkWorld {
        inbox: w.inbox.released(),
        handled: w.handled.push(Handled::Dropped(w.inbox.unread[0])),
    }
}

/// The world after a round that ran to its end.
pub open spec fn after_round(w: SinkWorld) -> SinkWorld {
    if w.inbox.stuck(threshold()) {
        after_drop(w)
    } else {
        match w.inbox.head() {
            Some(message) => SinkWorld {
                inbox: w.inbox.looked().released(),
                handled: w.handled.push(Handled::Logged(message)),
            },
            None => SinkWorld { inbox: w.inbox.looked(), ..w },
        }
    }
}

/// The world after a round that a fault cut off.
pub open spec fn after_fault(w: SinkWorld) -> SinkWorld {
    if w.inbox.stuck(threshold()) {
        after_drop(w)
    } else {
        SinkWorld { inbox: w.inbox.looked(), ..w }
    }
}

/// The world after `n` rounds in a row that a fault cut off.
pub open spec fn after_faults(w: SinkWorld, n: nat) -> SinkWorld
    decreases n,
{
    if n == 0 {
        w
    } else {
        after_fault(after_faults(w, (n - 1) as nat))
    }
}

/// The world after `event`.
pub open spec fn after(w: SinkWorld, event: SinkEvent) -> SinkWorld {
    match event {
        SinkEvent::Round => after_round(w),
        SinkEvent::Fault => after_fault(w),
        SinkEvent::Arrival(message) => SinkWorld { inbox: w.inbox.arrived(message), ..w },
    }
}

/// The world after all of `events`, in order.
pub open spec fn after_all(w: SinkWorld, events: Seq<SinkEvent>) -> SinkWorld
    decreases events.len(),
{
    if events.len() == 0 {
        w
    } else {
        after(after_all(w, events.drop_last()), events.last())
    }
}

/// The messages that `events` append to the input, in order.
pub open spec fn arrivals(events: Seq<SinkEvent>) -> Seq<FizzBuzzMessage>
    decreases events.len(),
{
    if events.len() == 0 {
        Seq::empty()
    } else {
        match events.last() {
            SinkEvent::Arrival(message) => arrivals(events.drop_last()).push(message),
            _ => arrivals(events.drop_last()),
        }
    }
}

/// Every message that has left the input, followed by those still unread.
pub open spec fn accounted(w: SinkWorld) -> Seq<FizzBuzzMessage> {
    w.handled.map_values(|h: Handled| h.message()) + w.inbox.unread
}

/// Whether no round of `events` finds a stuck message when it starts
/// from `w`.
pub open spec fn never_stuck(w: SinkWorld, events: Seq<SinkEvent>) -> bool
    decreases events.len(),
{
    events.len() > 0 ==> never_stuck(w, events.drop_last()) && !after_all(
        w,
        events.drop_last(),
    ).inbox.stuck(threshold())
}

/// Whether every entry of `handled` is a tallied message.
pub open spec fn all_logged(handled: Seq<Handled>) -> bool {
    forall|i: int| 0 <= i < handled.len() ==> handled[i] is Logged
}

/// The number of faulted rounds in a row that it takes, the last one
/// included, until a head that has had `looks` looks is set aside.
pub open spec fn rounds_until_drop(looks: nat) -> nat {
    if looks >= threshold() {
        1
    } else {
        (threshold() - looks + 1) as nat
    }
}

/// A round that finds its input not stuck tallies the oldest message and
/// releases exactly that one; a faulted round that finds it not stuck
/// removes nothing. A message leaves untallied only from a stuck input.
pub proof fn law_drop_only_when_stuck(w: SinkWorld)
    requires
        !w.inbox.stuck(threshold()),
    ensures
        after_fault(w).inbox.unread == w.inbox.unread,
        after_fault(w).handled == w.handled,
        w.inbox.head() matches Some(message) ==> {
            &&& after_round(w).handled == w.handled.push(Handled::Logged(message))
            &&& after_round(w).inbox.unread == w.inbox.unread.skip(1)
        },
        w.inbox.head() is None ==> after_round(w).handled == w.handled,
{
}

/// While faults keep striking at the same message it stays the oldest
/// unread one and each faulted round adds one look, until the threshold
/// is reached.
pub proof fn law_faults_count_looks(w: SinkWorld, n: nat)
    requires
        w.inbox.unread.len() > 0,
        w.inbox.looks + n <= threshold(),
    ensures
        after_faults(w, n).inbox.unread == w.inbox.unread,
        after_faults(w, n).inbox.looks == w.inbox.looks + n,
        after_faults(w, n).inbox.closed == w.inbox.closed,
        after_faults(w, n).handled == w.handled,
    decreases n,
{
    if n > 0 {
        law_faults_count_looks(w, (n - 1) as nat);
    }
}

/// A message at which every round faults has at most `threshold` looks
/// before it is set aside: after `rounds_until_drop` faulted rounds it is
/// gone, recorded as dropped, and the message behind it is the oldest,
/// with no look yet. The sink moves on past it.
pub proof fn law_quarantine_terminates(w: SinkWorld)
    requires
        w.inbox.unread.len() > 0,
    ensures
        rounds_until_drop(w.inbox.looks) <= threshold() + 1,
        after_faults(w, rounds_until_drop(w.inbox.looks)).inbox.unread == w.inbox.unread.skip(1),
        after_faults(w, rounds_until_drop(w.inbox.looks)).inbox.looks == 0,
        after_faults(w, rounds_until_drop(w.inbox.looks)).handled == w.handled.push(
            Handled::Dropped(w.inbox.unread[0]),
        ),
        forall|k: nat|
            k < rounds_until_drop(w.inbox.looks) ==> (#[trigger] after_faults(w, k)).inbox.unread
                == w.inbox.unread && (w.inbox.looks < threshold() ==> after_faults(
                w,
                k,
            ).inbox.looks <= threshold()),
{
    let n = rounds_until_drop(w.inbox.looks);
    let before = after_faults(w, (n - 1) as nat);
    if w.inbox.looks >= threshold() {
        assert(before == w);
    } else {
        law_faults_count_looks(w, (n - 1) as nat);
    }
    assert(before.inbox.stuck(threshold()));
    assert(after_faults(w, n) == after_fault(before));
    assert forall|k: nat| k < n implies (#[trigger] after_faults(w, k)).inbox.unread
        == w.inbox.unread && (w.inbox.looks < threshold() ==> after_faults(w, k).inbox.looks
        <= threshold()) by {
        if w.inbox.looks >= threshold() {
            assert(k == 0);
        } else {
            law_faults_count_looks(w, k);
        }
    }
}

/// No round, faulted or not, changes which messages are accounted for,
/// and an arrival appends its message.
pub proof fn law_accounted_step(w: SinkWorld, event: SinkEvent)
    ensures
        accounted(after(w, event)) == match event {
            SinkEvent::Arrival(message) => accounted(w).push(message),
            _ => accounted(w),
        },
{
    let next = after(w, event);
    let names = |h: Handled| h.message();
    if w.inbox.unread.len() > 0 {
        let head = w.inbox.unread[0];
        assert(w.inbox.unread =~= seq![head] + w.inbox.unread.skip(1));
        assert(w.handled.push(Handled::Dropped(head)).map_values(names) =~= w.handled.map_values(
            names,
        ).push(head));
        assert(w.handled.push(Handled::Logged(head)).map_values(names) =~= w.handled.map_values(
            names,
        ).push(head));
        assert(w.handled.map_values(names).push(head) + w.inbox.unread.skip(1) =~= accounted(w));
    }
    match event {
        SinkEvent::Arrival(message) => {
            assert(accounted(next) =~= accounted(w).push(message));
        },
        _ => {
            assert(accounted(next) =~= accounted(w));
        },
    }
}

/// Whatever rounds and faults a run holds, the messages that have left
/// the input, followed by those still unread, are the ones accounted for
/// at the start followed by the arrivals, in order: the sink handles each
/// message once and in the order in which it came.
pub proof fn law_no_loss(w: SinkWorld, events: Seq<SinkEvent>)
    ensures
        accounted(after_all(w, events)) == accounted(w) + arrivals(events),
    decreases events.len(),
{
    if events.len() == 0 {
        assert(accounted(w) + arrivals(events) =~= accounted(w));
    } else {
        law_no_loss(w, events.drop_last());
        law_accounted_step(after_all(w, events.drop_last()), events.last());
        let earlier = arrivals(events.drop_last());
        match events.last() {
            SinkEvent::Arrival(message) => {
                assert((accounted(w) + earlier).push(message) =~= accounted(w) + earlier.push(
                    message,
                ));
            },
            _ => {},
        }
    }
}

/// In a run where the faults at any one message stay below the
/// threshold, so that no round finds its input stuck, nothing is set
/// aside: every message that has left the input was tallied. With
/// `law_no_loss`, each message then appears exactly once among the
/// tallied or the unread ones, in input order.
pub proof fn law_all_logged_below_threshold(w: SinkWorld, events: Seq<SinkEvent>)
    requires
        all_logged(w.handled),
        never_stuck(w, events),
    ensures
        all_logged(after_all(w, events).handled),
    decreases events.len(),
{
    if events.len() > 0 {
        law_all_logged_below_threshold(w, events.drop_last());
    }
}

} // verus!
