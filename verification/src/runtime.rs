//! The channel operations of the actor runtime that the stages call.
//!
//! Nothing here is proved: each function hands one call to `steady_state`
//! and states only what that crate's source shows of every outcome. What
//! a channel yields depends on the stage at its other end, which runs on
//! a thread of its own, so of most results nothing is claimed at all. The
//! stages are verified for whatever comes back.

use crate::actor::worker::FizzBuzzMessage;
use crate::protocol::SendOutcome;
use steady_state::steady_actor_spotlight::SteadyActorSpotlight;
use steady_state::Rx;
use steady_state::SteadyActor;
use steady_state::Tx;
use vstd::prelude::*;

verus! {

#[verifier::external_type_specification]
#[verifier::external_body]
#[verifier::reject_recursive_types(T)]
pub struct ExRx<T>(Rx<T>);

#[verifier::external_type_specification]
#[verifier::external_body]
#[verifier::reject_recursive_types(T)]
pub struct ExTx<T>(Tx<T>);

#[verifier::external_type_specification]
#[verifier::external_body]
pub struct ExSpotlight<const RX_LEN: usize, const TX_LEN: usize>(
    SteadyActorSpotlight<RX_LEN, TX_LEN>,
);

/// Whether `Tx::mark_closed` has been called on this sender of counters.
/// The sender records that in a field of its own, which no other call
/// made here changes.
pub uninterp spec fn counter_sender_closed(tx: Tx<u64>) -> bool;

/// Whether `Tx::mark_closed` has been called on this sender of classified
/// messages.
pub uninterp spec fn message_sender_closed(tx: Tx<FizzBuzzMessage>) -> bool;

/// `SteadyActor::try_peek`, with the message copied out of the reference
/// it returns. Nothing is claimed of the result.
#[verifier::external_body]
pub(crate) fn try_peek<T: Copy, const RX_LEN: usize, const TX_LEN: usize>(
    actor: &SteadyActorSpotlight<RX_LEN, TX_LEN>,
    rx: &mut Rx<T>,
) -> (seen: Option<T>) {
    actor.try_peek(rx).copied()
}

/// `SteadyActor::try_take`. Nothing is claimed of the result.
#[verifier::external_body]
pub(crate) fn try_take<T, const RX_LEN: usize, const TX_LEN: usize>(
    actor: &mut SteadyActorSpotlight<RX_LEN, TX_LEN>,
    rx: &mut Rx<T>,
) -> (taken: Option<T>) {
    actor.try_take(rx)
}

/// `SteadyActor::advance_take_index`, with the count read from the
/// `RxDone` it returns by `RxDone::item_count`. Claimed: the count is at
/// most `count`, since the runtime moves the read position by `count` or
/// by what the channel holds, whichever is less, and reports that number.
#[verifier::external_body]
pub(crate) fn advance_take_index<T, const RX_LEN: usize, const TX_LEN: usize>(
    actor: &mut SteadyActorSpotlight<RX_LEN, TX_LEN>,
    rx: &mut Rx<T>,
    count: usize,
) -> (advanced: usize)
    ensures
        advanced <= count,
{
    actor.advance_take_index(rx, count).item_count()
}

/// `SteadyActor::is_showstopper`. The runtime asserts that the threshold
/// is neither 0 nor 1, hence the precondition. Nothing is claimed of the
/// result.
#[verifier::external_body]
pub(crate) fn is_showstopper<T, const RX_LEN: usize, const TX_LEN: usize>(
    actor: &SteadyActorSpotlight<RX_LEN, TX_LEN>,
    rx: &mut Rx<T>,
    threshold: usize,
) -> (stuck: bool)
    requires
        threshold >= 2,
{
    actor.is_showstopper(rx, threshold)
}

/// `Rx::is_closed_and_empty`. Nothing is claimed of the result.
#[verifier::external_body]
pub(crate) fn is_closed_and_empty<T>(rx: &mut Rx<T>) -> (done: bool) {
    rx.is_closed_and_empty()
}

/// `SteadyActor::is_full` on a sender of counters. Claimed: the call
/// neither closes nor reopens the sender, which it only reads. Nothing is
/// claimed of the result.
#[verifier::external_body]
pub(crate) fn is_full<const RX_LEN: usize, const TX_LEN: usize>(
    actor: &SteadyActorSpotlight<RX_LEN, TX_LEN>,
    tx: &mut Tx<u64>,
) -> (full: bool)
    ensures
        counter_sender_closed(*final(tx)) == counter_sender_closed(*old(tx)),
{
    actor.is_full(tx)
}

/// `SteadyActor::try_send` on a sender of counters, its outcome carried
/// over variant by variant. In a debug build the runtime asserts that the
/// sender has not been marked closed, hence the precondition. Claimed:
/// the sender is still open afterwards, since a send does not touch the
/// mark. Nothing is claimed of the outcome.
#[verifier::external_body]
pub(crate) fn try_send_counter<const RX_LEN: usize, const TX_LEN: usize>(
    actor: &mut SteadyActorSpotlight<RX_LEN, TX_LEN>,
    tx: &mut Tx<u64>,
    msg: u64,
) -> (outcome: SendOutcome<u64>)
    requires
        !counter_sender_closed(*old(tx)),
    ensures
        !counter_sender_closed(*final(tx)),
{
    match actor.try_send(tx, msg) {
        steady_state::SendOutcome::Success => SendOutcome::Success,
        steady_state::SendOutcome::Blocked(m) => SendOutcome::Blocked(m),
        steady_state::SendOutcome::Timeout(m) => SendOutcome::Timeout(m),
        steady_state::SendOutcome::Closed(m) => SendOutcome::Closed(m),
    }
}

/// `SteadyActor::try_send` on a sender of classified messages, as
/// `try_send_counter`.
#[verifier::external_body]
pub(crate) fn try_send_message<const RX_LEN: usize, const TX_LEN: usize>(
    actor: &mut SteadyActorSpotlight<RX_LEN, TX_LEN>,
    tx: &mut Tx<FizzBuzzMessage>,
    msg: FizzBuzzMessage,
) -> (outcome: SendOutcome<FizzBuzzMessage>)
    requires
        !message_sender_closed(*old(tx)),
    ensures
        !message_sender_closed(*final(tx)),
{
    match actor.try_send(tx, msg) {
        steady_state::SendOutcome::Success => SendOutcome::Success,
        steady_state::SendOutcome::Blocked(m) => SendOutcome::Blocked(m),
        steady_state::SendOutcome::Timeout(m) => SendOutcome::Timeout(m),
        steady_state::SendOutcome::Closed(m) => SendOutcome::Closed(m),
    }
}

/// `Tx::mark_closed` on a sender of counters. Claimed: the answer is
/// `true` and the sender is marked closed afterwards; the runtime's
/// method sets the mark, or finds it set, and then returns `true`.
#[verifier::external_body]
pub(crate) fn mark_counter_sender_closed(tx: &mut Tx<u64>) -> (accepted: bool)
    ensures
        accepted,
        counter_sender_closed(*final(tx)),
{
    tx.mark_closed()
}

/// `Tx::mark_closed` on a sender of classified messages, as
/// `mark_counter_sender_closed`.
#[verifier::external_body]
pub(crate) fn mark_message_sender_closed(tx: &mut Tx<FizzBuzzMessage>) -> (accepted: bool)
    ensures
        accepted,
        message_sender_closed(*final(tx)),
{
    tx.mark_closed()
}

} // verus!
