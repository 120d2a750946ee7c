//! Vocabulary shared by all stages.

use crate::runtime::is_showstopper;
use crate::runtime::try_take;
use steady_state::steady_actor_spotlight::SteadyActorSpotlight;
use steady_state::Rx;
use vstd::prelude::*;

verus! {

/// Number of looks at one unread message after which a stage sets it aside.
pub const SHOWSTOPPER_THRESHOLD: usize = 7;

/// What became of a message offered to a channel. Every variant but
/// `Success` hands the message back.
#[derive(Debug, PartialEq, Eq)]
pub enum SendOutcome<X> {
    Success,
    Blocked(X),
    Timeout(X),
    Closed(X),
}

impl<X> SendOutcome<X> {
    /// Whether the channel took the message.
    pub open spec fn confirmed(self) -> bool {
        self is Success
    }

    pub fn is_sent(&self) -> (sent: bool)
        ensures
            sent == self.confirmed(),
    {
        match self {
            SendOutcome::Success => true,
            _ => false,
        }
    }
}

/// What the check for a stuck message found.
#[derive(Debug, PartialEq, Eq)]
pub enum Quarantine<T> {
    /// No message has been looked at often enough.
    NotDue,
    /// This message was removed without being processed.
    Dropped(T),
    /// The channel reported a stuck message and then held none.
    Vanished,
}

/// Asks the channel whether its oldest message has been looked at
/// `SHOWSTOPPER_THRESHOLD` times without being consumed, and removes that
/// one message if so.
pub(crate) fn set_aside<T, const RX_LEN: usize, const TX_LEN: usize>(
    actor: &mut SteadyActorSpotlight<RX_LEN, TX_LEN>,
    rx: &mut Rx<T>,
) -> (found: Quarantine<T>) {
    if is_showstopper(actor, rx, SHOWSTOPPER_THRESHOLD) {
        match try_take(actor, rx) {
            Some(message) => Quarantine::Dropped(message),
            None => Quarantine::Vanished,
        }
    } else {
        Quarantine::NotDue
    }
}

} // verus!
