//! A single-slot channel in which the latest value wins: a send replaces
//! whatever has not been received yet, and a receive takes the value away.

use vstd::prelude::*;

verus! {

/// The slot after one send: it holds the new value, whatever it held before.
pub open spec fn mailbox_send<T>(slot: Option<T>, value: T) -> Option<T> {
    Some(value)
}

/// The slot after sending `values` one after the other, with no receive in
/// between.
pub open spec fn mailbox_send_all<T>(slot: Option<T>, values: Seq<T>) -> Option<T>
    decreases values.len(),
{
    if values.len() == 0 {
        slot
    } else {
        mailbox_send(mailbox_send_all(slot, values.drop_last()), values.last())
    }
}

/// What one receive hands out, and the slot that it leaves behind: the value
/// goes to the receiver and the slot is empty afterwards.
pub open spec fn mailbox_receive<T>(slot: Option<T>) -> (Option<T>, Option<T>) {
    (slot, None)
}

/// Holds zero or one value. Producers never wait and never fail. Its view is
/// the value that waits to be received, if there is one.
pub struct Mailbox<T> {
    slot: Option<T>,
}

impl<T> View for Mailbox<T> {
    type V = Option<T>;

    closed spec fn view(&self) -> Option<T> {
        self.slot
    }
}

impl<T> Mailbox<T> {
    /// An empty mailbox.
    pub fn new() -> (mailbox: Mailbox<T>)
        ensures
            mailbox@ is None,
    {
        Mailbox { slot: None }
    }

    /// Puts `value` into the slot. A value that was not received yet is
    /// dropped: only the freshest one matters.
    pub fn send(&mut self, value: T)
        ensures
            final(self)@ == mailbox_send(old(self)@, value),
    {
        self.slot = Some(value);
    }

    /// Takes the waiting value, if any. The caller that cannot go on without
    /// a value suspends and asks again after the next send.
    pub fn try_receive(&mut self) -> (value: Option<T>)
        ensures
            value == mailbox_receive(old(self)@).0,
            final(self)@ == mailbox_receive(old(self)@).1,
    {
        self.slot.take()
    }

    /// Whether a value waits to be received.
    pub fn is_pending(&self) -> (pending: bool)
        ensures
            pending == (self@ is Some),
    {
        self.slot.is_some()
    }
}

/// However many values were sent since the last receive, the next receive
/// hands out the one sent last and no older one, and it takes it away: the
/// receive after it finds the mailbox empty.
pub proof fn law_latest_value_wins<T>(slot: Option<T>, values: Seq<T>)
    requires
        values.len() > 0,
    ensures
        ({
            let (received, left) = mailbox_receive(mailbox_send_all(slot, values));
            &&& received == Some(values.last())
            &&& left is None
            &&& mailbox_receive(left).0 is None
        }),
{
}

} // verus!
