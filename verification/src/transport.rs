//! The byte-stream transport that the session engine drives: open, close,
//! write and read with a timeout, on top of the two queues of the serial
//! link, and the steps by which the link's own tasks drain and fill them.
//!
//! The engine calls from a context that cannot be suspended, so nothing here
//! waits. A read is a sequence of polls: each poll looks at the clock once
//! and takes at most one byte, and the caller repeats it until it is done.

use crate::buffer::Buffer;
use crate::buffer::BUFFER_LEN;
use crate::buffer::QUEUE_LEN;
use crate::clock::is_over;
use crate::clock::now_micros;
use crate::clock::timeout_micros;
use crate::clock::timeout_micros_of;
use crate::clock::wait_is_over;
use crate::fifo::fifo_front;
use crate::fifo::fifo_has_room;
use crate::fifo::fifo_receive;
use crate::fifo::fifo_send;
use crate::queue::BufferQueue;
use crate::queue::ByteQueue;
use vstd::prelude::*;

verus! {

/// Why a write was not taken.
#[derive(Clone, Copy, Debug, PartialEq, Eq, Structural)]
pub enum WriteError {
    /// The outbound queue is full: the link has not caught up yet. Nothing
    /// was queued and nothing is lost; the caller tries again later.
    QueueFull,
}

/// What one poll of a read found.
#[derive(Clone, Copy, Debug, PartialEq, Eq, Structural)]
pub enum ReadPoll {
    /// Bytes are still missing and there is time left: poll again.
    Pending,
    /// The read is over, with the number of bytes now in the caller's buffer
    /// and whether it ended because the time ran out.
    Done { bytes_filled: usize, timed_out: bool },
}

/// A read in progress: how many bytes it has collected, the instant at which
/// it began, in microseconds since start-up, and the time after which it
/// gives up, in microseconds.
#[derive(Clone, Copy, Debug, PartialEq, Eq, Structural)]
pub struct PendingRead {
    pub filled: usize,
    pub started_at: u64,
    pub timeout_micros: u64,
}

/// The two directions of the link: payloads on their way out, bytes on their
/// way in.
pub struct Transport {
    outbound: BufferQueue,
    inbound: ByteQueue,
}

/// All that one poll of a read looks at.
pub struct ReadModel {
    /// The caller's buffer; its length is the number of bytes asked for.
    pub buffer: Seq<u8>,
    /// How many bytes of the buffer are filled.
    pub filled: nat,
    /// When the read began.
    pub start: u64,
    /// How long after its beginning the read gives up.
    pub wait: u64,
    /// The inbound queue.
    pub inbound: Seq<u8>,
}

/// What a write of a payload that fits a buffer returns, given the outbound
/// queue that it finds.
pub open spec fn write_outcome(outbound: Seq<Seq<u8>>, payload: Seq<u8>) -> Result<
    usize,
    WriteError,
>
    recommends
        payload.len() <= BUFFER_LEN,
{
    if fifo_has_room(outbound, QUEUE_LEN as nat) {
        Ok(payload.len() as usize)
    } else {
        Err(WriteError::QueueFull)
    }
}

/// The outbound queue after a write: the payload joins at the back exactly
/// when the write is taken.
pub open spec fn outbound_after_write(outbound: Seq<Seq<u8>>, payload: Seq<u8>) -> Seq<Seq<u8>>
    recommends
        payload.len() <= BUFFER_LEN,
{
    fifo_send(outbound, QUEUE_LEN as nat, payload)
}

/// How many bytes of a packet the inbound queue takes: all of them, or as
/// many as it has room for.
pub open spec fn feed_accepted(inbound: Seq<u8>, packet: Seq<u8>) -> nat {
    if inbound.len() + packet.len() <= BUFFER_LEN {
        packet.len()
    } else if inbound.len() <= BUFFER_LEN {
        (BUFFER_LEN - inbound.len()) as nat
    } else {
        0
    }
}

/// The inbound queue after a packet was fed to it: the bytes that it took
/// stand at the back, in the packet's order.
pub open spec fn inbound_after_feed(inbound: Seq<u8>, packet: Seq<u8>) -> Seq<u8> {
    inbound + packet.take(feed_accepted(inbound, packet) as int)
}

/// Whether the time of a read is up at `now`.
pub open spec fn read_time_is_up(m: ReadModel, now: u64) -> bool {
    wait_is_over(m.start, m.wait, now)
}

/// Whether a poll at `now` takes a byte: the read is not complete, its time
/// is not up, and a byte is there.
pub open spec fn read_poll_takes(m: ReadModel, now: u64) -> bool {
    m.filled < m.buffer.len() && !read_time_is_up(m, now) && m.inbound.len() > 0
}

/// What a poll at `now` leaves behind. A byte that is taken leaves the front
/// of the queue for the first free place of the buffer.
pub open spec fn read_poll_state(m: ReadModel, now: u64) -> ReadModel {
    if read_poll_takes(m, now) {
        ReadModel {
            buffer: m.buffer.update(m.filled as int, m.inbound[0]),
            filled: m.filled + 1,
            start: m.start,
            wait: m.wait,
            inbound: m.inbound.skip(1),
        }
    } else {
        m
    }
}

/// What a poll at `now` reports. A complete read is done whatever the clock
/// says; an incomplete one whose time is up is done with what it has; any
/// other goes on, unless the byte just taken completed it.
pub open spec fn read_poll_result(m: ReadModel, now: u64) -> ReadPoll {
    if m.filled >= m.buffer.len() {
        ReadPoll::Done { bytes_filled: m.buffer.len() as usize, timed_out: false }
    } else if read_time_is_up(m, now) {
        ReadPoll::Done { bytes_filled: m.filled as usize, timed_out: true }
    } else if m.inbound.len() > 0 && m.filled + 1 == m.buffer.len() {
        ReadPoll::Done { bytes_filled: m.buffer.len() as usize, timed_out: false }
    } else {
        ReadPoll::Pending
    }
}

/// The state after one poll for each clock reading in `nows`, in order.
pub open spec fn read_polls_state(m: ReadModel, nows: Seq<u64>) -> ReadModel
    decreases nows.len(),
{
    if nows.len() == 0 {
        m
    } else {
        read_poll_state(read_polls_state(m, nows.drop_last()), nows.last())
    }
}

/// What the poll at `nows[k]` reports, after the polls at the readings
/// before it.
pub open spec fn read_polls_result(m: ReadModel, nows: Seq<u64>, k: int) -> ReadPoll
    recommends
        0 <= k < nows.len(),
{
    read_poll_result(read_polls_state(m, nows.take(k)), nows[k])
}

/// The bytes that a read has collected so far.
pub open spec fn read_collected(m: ReadModel) -> Seq<u8> {
    m.buffer.take(m.filled as int)
}

impl PendingRead {
    /// A read that begins at `now` and gives up `timeout_ms` milliseconds
    /// later. A timeout that is not positive gives up at once.
    pub fn begin_at(now: u64, timeout_ms: i32) -> (pending: PendingRead)
        ensures
            pending.filled == 0,
            pending.started_at == now,
            pending.timeout_micros == timeout_micros_of(timeout_ms),
    {
        PendingRead { filled: 0, started_at: now, timeout_micros: timeout_micros(timeout_ms) }
    }

    /// A read that begins now, by the clock.
    pub fn begin(timeout_ms: i32) -> (pending: PendingRead)
        ensures
            pending.filled == 0,
            pending.timeout_micros == timeout_micros_of(timeout_ms),
    {
        let now = now_micros();
        PendingRead::begin_at(now, timeout_ms)
    }
}

impl Transport {
    /// The payloads that wait for the link, oldest first.
    pub closed spec fn outbound(&self) -> Seq<Seq<u8>> {
        self.outbound@
    }

    /// The bytes that wait for the session engine, oldest first.
    pub closed spec fn inbound(&self) -> Seq<u8> {
        self.inbound@
    }

    /// Neither queue holds more than its capacity. This holds of every
    /// transport, at all times.
    pub open spec fn within_capacity(&self) -> bool {
        self.outbound().len() <= QUEUE_LEN && self.inbound().len() <= BUFFER_LEN
    }

    /// What a poll of a read into `buffer` looks at.
    pub open spec fn read_model(&self, buffer: Seq<u8>, pending: PendingRead) -> ReadModel {
        ReadModel {
            buffer,
            filled: pending.filled as nat,
            start: pending.started_at,
            wait: pending.timeout_micros,
            inbound: self.inbound(),
        }
    }

    /// A transport with both queues empty.
    pub fn new() -> (transport: Transport)
        ensures
            transport.outbound() == Seq::<Seq<u8>>::empty(),
            transport.inbound() == Seq::<u8>::empty(),
            transport.within_capacity(),
    {
        Transport { outbound: BufferQueue::new(), inbound: ByteQueue::new() }
    }

    /// Number of payloads that wait for the link.
    pub fn outbound_len(&self) -> (len: usize)
        ensures
            len == self.outbound().len(),
            len <= QUEUE_LEN,
    {
        self.outbound.len()
    }

    /// Number of bytes that wait for the session engine.
    pub fn inbound_len(&self) -> (len: usize)
        ensures
            len == self.inbound().len(),
            len <= BUFFER_LEN,
    {
        self.inbound.len()
    }

    /// One step of the link's sender: takes the oldest payload off the
    /// outbound queue, for the caller to write to the link as one packet of
    /// exactly that payload's bytes. `None` means that nothing waits.
    pub fn take_outbound(&mut self) -> (buffer: Option<Buffer>)
        ensures
            match buffer {
                Some(b) => fifo_front(old(self).outbound()) == Some(b@),
                None => fifo_front(old(self).outbound()) is None,
            },
            final(self).outbound() == fifo_receive(old(self).outbound()),
            final(self).inbound() == old(self).inbound(),
            final(self).within_capacity(),
    {
        proof {
            use_type_invariant(&self.inbound);
        }
        self.outbound.try_receive()
    }

    /// One step of the link's receiver: queues the bytes of a packet that
    /// came in, one by one and in order, until all are queued or the inbound
    /// queue is full. Returns how many it queued; the caller keeps the rest
    /// and offers them again once the engine has read.
    pub fn feed_inbound(&mut self, packet: &[u8]) -> (accepted: usize)
        ensures
            accepted == feed_accepted(old(self).inbound(), packet@),
            final(self).inbound() == inbound_after_feed(old(self).inbound(), packet@),
            final(self).outbound() == old(self).outbound(),
            final(self).within_capacity(),
    {
        proof {
            use_type_invariant(&self.inbound);
            use_type_invariant(&self.outbound);
        }
        let ghost before = self.inbound@;
        let mut accepted: usize = 0;
        let mut room = true;
        while room && accepted < packet.len()
            invariant
                accepted <= packet@.len(),
                before.len() + accepted <= BUFFER_LEN,
                !room ==> before.len() + accepted == BUFFER_LEN,
                self.inbound@ == before + packet@.take(accepted as int),
                self.outbound@ == old(self).outbound@,
            decreases packet@.len() - accepted + if room { 1nat } else { 0nat },
        {
            if self.inbound.try_send(packet[accepted]) {
                accepted += 1;
            } else {
                room = false;
            }
        }
        accepted
    }
}

/// Opening succeeds always: the link is brought up on its own before the
/// engine starts.
pub fn transport_open(transport: &Transport) -> (opened: bool)
    ensures
        opened,
{
    true
}

/// Closing succeeds always and leaves the queues as they are: the link's
/// life is not the transport's business.
pub fn transport_close(transport: &Transport) -> (closed: bool)
    ensures
        closed,
{
    true
}

/// Takes one payload for the link. The payload is copied into a fresh
/// buffer and queued, unless the outbound queue is full. Returns the number
/// of bytes taken, which is the payload's length. Never waits.
///
/// A payload longer than [`BUFFER_LEN`] fits no buffer. A caller that keeps
/// to the transport's contract never has one; a caller that may have one
/// tests for it first, and has nothing to go on with where it finds one.
pub fn transport_write(transport: &mut Transport, payload: &[u8]) -> (outcome: Result<
    usize,
    WriteError,
>)
    requires
        payload@.len() <= BUFFER_LEN,
    ensures
        outcome == write_outcome(old(transport).outbound(), payload@),
        final(transport).outbound() == outbound_after_write(old(transport).outbound(), payload@),
        final(transport).inbound() == old(transport).inbound(),
        final(transport).within_capacity(),
{
    proof {
        use_type_invariant(&transport.inbound);
        use_type_invariant(&transport.outbound);
    }
    match transport.outbound.try_send(Buffer::copy_of(payload)) {
        Ok(()) => Ok(payload.len()),
        Err(_) => Err(WriteError::QueueFull),
    }
}

/// One poll of a read with the clock reading `now`: ends the read if it is
/// complete or its time is up, else moves at most one byte from the inbound
/// queue to the first free place of `buffer`. The length of `buffer` is the
/// number of bytes asked for.
pub fn read_step(
    transport: &mut Transport,
    buffer: &mut [u8],
    pending: &mut PendingRead,
    now: u64,
) -> (poll: ReadPoll)
    ensures
        poll == read_poll_result(old(transport).read_model(old(buffer)@, *old(pending)), now),
        final(transport).read_model(final(buffer)@, *final(pending)) == read_poll_state(
            old(transport).read_model(old(buffer)@, *old(pending)),
            now,
        ),
        final(transport).outbound() == old(transport).outbound(),
        final(transport).within_capacity(),
{
    proof {
        use_type_invariant(&transport.inbound);
        use_type_invariant(&transport.outbound);
    }
    let len = buffer.len();
    if pending.filled >= len {
        return ReadPoll::Done { bytes_filled: len, timed_out: false };
    }
    if is_over(pending.started_at, pending.timeout_micros, now) {
        return ReadPoll::Done { bytes_filled: pending.filled, timed_out: true };
    }
    match transport.inbound.try_receive() {
        Some(byte) => {
            buffer[pending.filled] = byte;
            pending.filled = pending.filled + 1;
            if pending.filled == len {
                ReadPoll::Done { bytes_filled: len, timed_out: false }
            } else {
                ReadPoll::Pending
            }
        },
        None => ReadPoll::Pending,
    }
}

/// One poll of a read, with the clock read now. Whatever the clock says, the
/// poll does what [`read_step`] does with that reading.
pub fn transport_read(
    transport: &mut Transport,
    buffer: &mut [u8],
    pending: &mut PendingRead,
) -> (poll: ReadPoll)
    ensures
        exists|now: u64|
            {
                &&& poll == read_poll_result(
                    old(transport).read_model(old(buffer)@, *old(pending)),
                    now,
                )
                &&& final(transport).read_model(final(buffer)@, *final(pending)) == read_poll_state(
                    old(transport).read_model(old(buffer)@, *old(pending)),
                    now,
                )
            },
        final(transport).outbound() == old(transport).outbound(),
        final(transport).within_capacity(),
{
    let now = now_micros();
    read_step(transport, buffer, pending, now)
}

} // verus!
