//! One channel as its consumer sees it.

use vstd::prelude::*;

verus! {

/// The unread messages of a channel, oldest first, with the number of
/// looks the oldest one has had since it became the oldest, and whether
/// the producer has closed the channel.
pub struct Lane<T> {
    pub unread: Seq<T>,
    pub looks: nat,
    pub closed: bool,
}

impl<T> Lane<T> {
    /// The oldest unread message.
    pub open spec fn head(self) -> Option<T> {
        if self.unread.len() > 0 {
            Some(self.unread[0])
        } else {
            None
        }
    }

    /// The lane after a look at its head, which stays where it is.
    pub open spec fn looked(self) -> Self {
        if self.unread.len() > 0 {
            Lane { looks: self.looks + 1, ..self }
        } else {
            Lane { looks: 0, ..self }
        }
    }

    /// The lane after its head was consumed; the next message has had no
    /// look yet.
    pub open spec fn released(self) -> Self {
        if self.unread.len() > 0 {
            Lane { unread: self.unread.skip(1), looks: 0, ..self }
        } else {
            self
        }
    }

    /// The lane after the producer appended `message`.
    pub open spec fn arrived(self, message: T) -> Self {
        Lane { unread: self.unread.push(message), ..self }
    }

    /// Whether the head has had `threshold` looks without being consumed.
    pub open spec fn stuck(self, threshold: nat) -> bool {
        self.unread.len() > 0 && self.looks >= threshold
    }

    /// Whether nothing is left and nothing more will come.
    pub open spec fn drained(self) -> bool {
        self.closed && self.unread.len() == 0
    }
}

} // verus!
