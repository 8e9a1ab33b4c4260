//! The mathematical model of a bounded first-in first-out queue: its contents
//! are a sequence, oldest item first, of at most `capacity` items.

use vstd::prelude::*;

verus! {

/// Whether a queue that holds `items` accepts one more item.
pub open spec fn fifo_has_room<T>(items: Seq<T>, capacity: nat) -> bool {
    items.len() < capacity
}

/// The contents after one send: `value` joins at the back where there is
/// room, and a full queue stays as it is.
pub open spec fn fifo_send<T>(items: Seq<T>, capacity: nat, value: T) -> Seq<T> {
    if fifo_has_room(items, capacity) {
        items.push(value)
    } else {
        items
    }
}

/// The item that one receive hands out: the oldest one, if there is any.
pub open spec fn fifo_front<T>(items: Seq<T>) -> Option<T> {
    if items.len() > 0 {
        Some(items[0])
    } else {
        None
    }
}

/// The contents after one receive: all but the oldest item.
pub open spec fn fifo_receive<T>(items: Seq<T>) -> Seq<T> {
    if items.len() > 0 {
        items.skip(1)
    } else {
        items
    }
}

/// The contents after sending `values` one after the other, with no receive
/// in between.
pub open spec fn fifo_send_all<T>(items: Seq<T>, capacity: nat, values: Seq<T>) -> Seq<T>
    decreases values.len(),
{
    if values.len() == 0 {
        items
    } else {
        fifo_send(fifo_send_all(items, capacity, values.drop_last()), capacity, values.last())
    }
}

/// A send never takes the queue over its capacity, and never reorders or
/// drops what was already queued.
pub proof fn law_send_keeps_bound_and_order<T>(items: Seq<T>, capacity: nat, value: T)
    requires
        items.len() <= capacity,
    ensures
        fifo_send(items, capacity, value).len() <= capacity,
        items.is_prefix_of(fifo_send(items, capacity, value)),
{
}

/// Sends that fit are all kept, in the order in which they were sent.
pub proof fn law_sends_that_fit_are_kept<T>(items: Seq<T>, capacity: nat, values: Seq<T>)
    requires
        items.len() + values.len() <= capacity,
    ensures
        fifo_send_all(items, capacity, values) == items + values,
    decreases values.len(),
{
    if values.len() > 0 {
        law_sends_that_fit_are_kept(items, capacity, values.drop_last());
    }
}

/// What was sent first is received first: after sends that fit, receiving
/// hands out the oldest item and leaves the rest in order.
pub proof fn law_first_in_first_out<T>(capacity: nat, values: Seq<T>)
    requires
        0 < values.len() <= capacity,
    ensures
        fifo_front(fifo_send_all(Seq::<T>::empty(), capacity, values)) == Some(values[0]),
        fifo_receive(fifo_send_all(Seq::<T>::empty(), capacity, values)) == values.skip(1),
{
    law_sends_that_fit_are_kept(Seq::<T>::empty(), capacity, values);
}

/// After as many sends as the queue has capacity, with no receive in between,
/// every further send is turned away and changes nothing. After one receive
/// exactly one more send is taken, and the one after that is turned away
/// again.
pub proof fn law_full_queue_takes_one_per_receive<T>(
    capacity: nat,
    sent: Seq<T>,
    refused: T,
    next: T,
    late: T,
)
    requires
        sent.len() == capacity,
    ensures
        ({
            let full = fifo_send_all(Seq::<T>::empty(), capacity, sent);
            let drained = fifo_receive(full);
            let refilled = fifo_send(drained, capacity, next);
            &&& full == sent
            &&& !fifo_has_room(full, capacity)
            &&& fifo_send(full, capacity, refused) == full
            &&& capacity > 0 ==> {
                &&& fifo_front(full) == Some(sent[0])
                &&& fifo_has_room(drained, capacity)
                &&& refilled == sent.skip(1).push(next)
                &&& !fifo_has_room(refilled, capacity)
                &&& fifo_send(refilled, capacity, late) == refilled
            }
        }),
{
    law_sends_that_fit_are_kept(Seq::<T>::empty(), capacity, sent);
}

} // verus!
