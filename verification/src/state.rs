//! The latest sensor reading together with the instant at which it was
//! taken. One task writes it and another reads it; both go through the same
//! value, which changes only as a whole.

use crate::clock::now_micros;
use vstd::prelude::*;

verus! {

/// A snapshot after the write of `value` at the instant `at`: both parts are
/// replaced together.
pub open spec fn snapshot_set<T>(snapshot: (T, u64), value: T, at: u64) -> (T, u64) {
    (value, at)
}

/// The snapshot after the writes in `writes`, each a value and its instant,
/// in order.
pub open spec fn snapshot_after<T>(snapshot: (T, u64), writes: Seq<(T, u64)>) -> (T, u64)
    decreases writes.len(),
{
    if writes.len() == 0 {
        snapshot
    } else {
        snapshot_set(snapshot_after(snapshot, writes.drop_last()), writes.last().0, writes.last().1)
    }
}

/// A value and the instant of its capture, in microseconds since start-up.
/// Its view is that pair.
pub struct TimestampedValue<T> {
    value: T,
    timestamp: u64,
}

impl<T> View for TimestampedValue<T> {
    type V = (T, u64);

    closed spec fn view(&self) -> (T, u64) {
        (self.value, self.timestamp)
    }
}

impl<T: Copy> TimestampedValue<T> {
    /// A value captured at the instant `at`.
    pub fn new_at(value: T, at: u64) -> (cell: Self)
        ensures
            cell@ == (value, at),
    {
        Self { value, timestamp: at }
    }

    /// A value captured now, by the clock.
    pub fn new(value: T) -> (cell: Self)
        ensures
            cell@.0 == value,
    {
        let at = now_micros();
        Self::new_at(value, at)
    }

    /// Replaces the value and its instant together.
    pub fn set_at(&mut self, value: T, at: u64)
        ensures
            final(self)@ == snapshot_set(old(self)@, value, at),
    {
        self.value = value;
        self.timestamp = at;
    }

    /// Replaces the value, and its instant by the clock's reading.
    pub fn set(&mut self, value: T)
        ensures
            exists|at: u64| final(self)@ == snapshot_set(old(self)@, value, at),
    {
        let at = now_micros();
        self.set_at(value, at);
    }

    /// The value and the instant of its capture, as one snapshot.
    pub fn get(&self) -> (snapshot: (T, u64))
        ensures
            snapshot == self@,
    {
        (self.value, self.timestamp)
    }
}

/// A reader always sees one write as a whole: after any writes the snapshot
/// is the value and the instant of the last of them, never the value of one
/// write with the instant of another. If no write came later than the
/// instant at which the reader looks, the instant that it sees is not later
/// either.
pub proof fn law_snapshot_is_last_write<T>(initial: (T, u64), writes: Seq<(T, u64)>, read_at: u64)
    requires
        writes.len() > 0,
        forall|i: int| 0 <= i < writes.len() ==> writes[i].1 <= read_at,
    ensures
        snapshot_after(initial, writes) == writes.last(),
        snapshot_after(initial, writes).1 <= read_at,
{
}

/// A value written at one instant and read at a later one comes back with
/// the instant of its writing, which is earlier than the reading.
pub proof fn law_read_after_write<T>(before: (T, u64), value: T, written_at: u64, read_at: u64)
    requires
        written_at < read_at,
    ensures
        snapshot_set(before, value, written_at) == (value, written_at),
        snapshot_set(before, value, written_at).1 <= read_at,
{
}

} // verus!
