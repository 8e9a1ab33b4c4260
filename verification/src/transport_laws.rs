//! What follows from the transport's contracts: the order of the byte
//! stream, the two ways in which a read ends, the bounds of a write, and the
//! round trip through a looped-back link.

use crate::buffer::BUFFER_LEN;
use crate::buffer::QUEUE_LEN;
use crate::clock::timeout_micros_of;
use crate::fifo::fifo_front;
use crate::fifo::fifo_has_room;
use crate::fifo::fifo_receive;
use crate::transport::feed_accepted;
use crate::transport::inbound_after_feed;
use crate::transport::outbound_after_write;
use crate::transport::read_collected;
use crate::transport::read_poll_result;
use crate::transport::read_poll_state;
use crate::transport::read_polls_result;
use crate::transport::read_polls_state;
use crate::transport::read_time_is_up;
use crate::transport::write_outcome;
use crate::transport::ReadModel;
use crate::transport::ReadPoll;
use crate::transport::WriteError;
use vstd::prelude::*;

verus! {

/// The state of a read that has taken the first `taken` bytes of the queue
/// that `m` started with.
spec fn read_advanced(m: ReadModel, taken: nat) -> ReadModel {
    ReadModel {
        buffer: m.buffer.take(m.filled as int) + m.inbound.take(taken as int) + m.buffer.skip(
            (m.filled + taken) as int,
        ),
        filled: m.filled + taken,
        start: m.start,
        wait: m.wait,
        inbound: m.inbound.skip(taken as int),
    }
}

proof fn lemma_polls_on_empty_queue(m: ReadModel, nows: Seq<u64>)
    requires
        m.inbound.len() == 0,
    ensures
        read_polls_state(m, nows) == m,
    decreases nows.len(),
{
    if nows.len() > 0 {
        lemma_polls_on_empty_queue(m, nows.drop_last());
    }
}

proof fn lemma_polls_in_time(m: ReadModel, nows: Seq<u64>)
    requires
        m.filled + nows.len() <= m.buffer.len(),
        nows.len() <= m.inbound.len(),
        forall|i: int| 0 <= i < nows.len() ==> !read_time_is_up(m, nows[i]),
    ensures
        read_polls_state(m, nows) == read_advanced(m, nows.len()),
    decreases nows.len(),
{
    if nows.len() == 0 {
        assert(read_advanced(m, 0).buffer =~= m.buffer);
        assert(read_advanced(m, 0).inbound =~= m.inbound);
    } else {
        let earlier = nows.drop_last();
        lemma_polls_in_time(m, earlier);
        let before = read_advanced(m, earlier.len());
        let after = read_poll_state(before, nows.last());
        let target = read_advanced(m, nows.len());
        assert(after.buffer =~= target.buffer);
        assert(after.inbound =~= target.inbound);
    }
}

/// A poll moves bytes only from the front of the queue to the end of what
/// the read has collected: the stream of collected bytes followed by queued
/// bytes is the same before and after, so no byte is lost, doubled or
/// reordered on the way into the buffer.
pub proof fn law_poll_keeps_stream_order(m: ReadModel, now: u64)
    requires
        m.filled <= m.buffer.len(),
    ensures
        read_collected(read_poll_state(m, now)) + read_poll_state(m, now).inbound == read_collected(
            m,
        ) + m.inbound,
        read_poll_state(m, now).buffer.len() == m.buffer.len(),
        read_poll_state(m, now).filled <= m.buffer.len(),
        read_poll_state(m, now).start == m.start,
        read_poll_state(m, now).wait == m.wait,
{
}

/// A poll reports a complete read exactly when the buffer is full after it,
/// and a timed-out one exactly when bytes were missing and the clock stood
/// no less than the timeout after the read's beginning: a read never gives
/// up early. A read that has timed out has taken nothing in that poll.
pub proof fn law_poll_result_tells_state(m: ReadModel, now: u64)
    requires
        m.filled <= m.buffer.len(),
        m.buffer.len() <= usize::MAX,
    ensures
        read_poll_result(m, now) == (ReadPoll::Done {
            bytes_filled: m.buffer.len() as usize,
            timed_out: false,
        }) <==> read_poll_state(m, now).filled == m.buffer.len(),
        read_poll_result(m, now) == (ReadPoll::Done {
            bytes_filled: m.filled as usize,
            timed_out: true,
        }) <==> m.filled < m.buffer.len() && now - m.start >= m.wait,
        read_poll_result(m, now) is Done && read_poll_result(m, now)->timed_out ==> read_poll_state(
            m,
            now,
        ) == m && now - m.start >= m.wait,
{
}

/// A read whose inbound queue never gets a byte goes on for as long as the
/// clock stands less than the timeout after the read's beginning, and ends,
/// timed out and with what it had collected before, at the first poll that
/// finds the clock there or past it, however many bytes are asked for. So
/// with a clock that does not run backwards and polls that lie no more than
/// `gap` apart, the first of them no more than `gap` after the beginning, the
/// read ends no less than the timeout after it began, and no more than the
/// timeout and one gap. This holds of every beginning and every timeout.
pub proof fn law_idle_read_times_out(m: ReadModel, timeout_ms: i32, nows: Seq<u64>, k: int, gap: nat)
    requires
        m.inbound.len() == 0,
        m.filled < m.buffer.len() <= usize::MAX,
        m.wait == timeout_micros_of(timeout_ms),
        0 <= k < nows.len(),
        m.start <= nows[0] <= m.start + gap,
        forall|i: int| 0 < i <= k ==> nows[i - 1] <= #[trigger] nows[i] <= nows[i - 1] + gap,
        forall|i: int| 0 <= i < k ==> nows[i] - m.start < m.wait,
        nows[k] - m.start >= m.wait,
    ensures
        forall|i: int| 0 <= i < k ==> read_polls_result(m, nows, i) == ReadPoll::Pending,
        read_polls_result(m, nows, k) == (ReadPoll::Done {
            bytes_filled: m.filled as usize,
            timed_out: true,
        }),
        read_polls_state(m, nows.take(k + 1)) == m,
        m.wait <= nows[k] - m.start <= m.wait + gap,
        timeout_ms >= 0 ==> m.wait == timeout_ms * 1000,
{
    assert forall|i: int| 0 <= i < k implies read_polls_result(m, nows, i)
        == ReadPoll::Pending by {
        lemma_polls_on_empty_queue(m, nows.take(i));
    }
    lemma_polls_on_empty_queue(m, nows.take(k));
    lemma_polls_on_empty_queue(m, nows.take(k + 1));
}

/// A read that finds all the bytes it still asks for in the queue, and whose
/// polls all come before its time is up, takes one byte per poll, goes on
/// until the last of them and ends there, complete and not timed out. The
/// buffer then holds the bytes collected before followed by the bytes taken,
/// in the queue's order, and the queue has lost exactly those.
pub proof fn law_served_read_completes(m: ReadModel, nows: Seq<u64>)
    requires
        m.filled < m.buffer.len() <= usize::MAX,
        nows.len() == m.buffer.len() - m.filled,
        nows.len() <= m.inbound.len(),
        forall|i: int| 0 <= i < nows.len() ==> !read_time_is_up(m, nows[i]),
    ensures
        forall|i: int| 0 <= i < nows.len() - 1 ==> read_polls_result(m, nows, i) == ReadPoll::Pending,
        read_polls_result(m, nows, nows.len() - 1) == (ReadPoll::Done {
            bytes_filled: m.buffer.len() as usize,
            timed_out: false,
        }),
        read_polls_state(m, nows).filled == m.buffer.len(),
        read_polls_state(m, nows).buffer == read_collected(m) + m.inbound.take(nows.len() as int),
        read_polls_state(m, nows).inbound == m.inbound.skip(nows.len() as int),
{
    assert forall|i: int| 0 <= i < nows.len() implies read_polls_state(m, nows.take(i))
        == read_advanced(m, i as nat) by {
        lemma_polls_in_time(m, nows.take(i));
    }
    lemma_polls_in_time(m, nows);
}

/// What happens around a read while it is in progress: the engine polls it,
/// and between two polls the link's receiver may feed a packet to the
/// inbound queue.
pub enum LinkEvent {
    /// The engine polls the read, with this clock reading.
    Poll { now: u64 },
    /// The receiver feeds this packet; what does not fit stays with it.
    Feed { packet: Seq<u8> },
}

/// The state of a read after one event.
pub open spec fn link_step(m: ReadModel, event: LinkEvent) -> ReadModel {
    match event {
        LinkEvent::Poll { now } => read_poll_state(m, now),
        LinkEvent::Feed { packet } => ReadModel {
            buffer: m.buffer,
            filled: m.filled,
            start: m.start,
            wait: m.wait,
            inbound: inbound_after_feed(m.inbound, packet),
        },
    }
}

/// The state of a read after the events in `events`, in order.
pub open spec fn link_run(m: ReadModel, events: Seq<LinkEvent>) -> ReadModel
    decreases events.len(),
{
    if events.len() == 0 {
        m
    } else {
        link_step(link_run(m, events.drop_last()), events.last())
    }
}

/// The bytes that the inbound queue took from the packets fed in `events`,
/// in the order in which it took them.
pub open spec fn link_fed(m: ReadModel, events: Seq<LinkEvent>) -> Seq<u8>
    decreases events.len(),
{
    if events.len() == 0 {
        Seq::<u8>::empty()
    } else {
        let earlier = link_fed(m, events.drop_last());
        match events.last() {
            LinkEvent::Poll { now } => earlier,
            LinkEvent::Feed { packet } => earlier + packet.take(
                feed_accepted(link_run(m, events.drop_last()).inbound, packet) as int,
            ),
        }
    }
}

/// However polls and feeds interleave, the bytes reach the buffer in the
/// order in which they reached the queue: what the read has collected,
/// followed by what is still queued, is what was collected and queued at the
/// start followed by every byte that the queue took since. The queue stays
/// within its capacity and the read within its buffer. So a read that has
/// become complete holds exactly the first bytes of that stream.
pub proof fn law_interleaved_read_keeps_order(m: ReadModel, events: Seq<LinkEvent>)
    requires
        m.filled <= m.buffer.len(),
        m.inbound.len() <= BUFFER_LEN,
    ensures
        ({
            let after = link_run(m, events);
            let stream = read_collected(m) + m.inbound + link_fed(m, events);
            &&& read_collected(after) + after.inbound == stream
            &&& after.inbound.len() <= BUFFER_LEN
            &&& m.filled <= after.filled <= after.buffer.len() == m.buffer.len()
            &&& after.start == m.start && after.wait == m.wait
            &&& after.filled == after.buffer.len() ==> after.buffer == stream.take(
                m.buffer.len() as int,
            )
        }),
    decreases events.len(),
{
    if events.len() > 0 {
        let earlier = events.drop_last();
        law_interleaved_read_keeps_order(m, earlier);
        let before = link_run(m, earlier);
        match events.last() {
            LinkEvent::Poll { now } => {
                law_poll_keeps_stream_order(before, now);
            },
            LinkEvent::Feed { packet } => {
                let taken = packet.take(feed_accepted(before.inbound, packet) as int);
                assert(read_collected(m) + m.inbound + link_fed(m, events) =~= read_collected(m)
                    + m.inbound + link_fed(m, earlier) + taken);
            },
        }
    }
}

/// A payload of exactly the buffer's capacity is taken whole whenever the
/// outbound queue has room, as is every shorter one. A payload of one byte
/// more is no input of a write: the transport's contract leaves it out.
pub proof fn law_write_at_capacity(outbound: Seq<Seq<u8>>, payload: Seq<u8>)
    requires
        payload.len() <= BUFFER_LEN,
        fifo_has_room(outbound, QUEUE_LEN as nat),
    ensures
        write_outcome(outbound, payload) == Ok::<usize, WriteError>(payload.len() as usize),
        payload.len() == BUFFER_LEN ==> write_outcome(outbound, payload) == Ok::<usize, WriteError>(
            BUFFER_LEN,
        ),
        outbound_after_write(outbound, payload) == outbound.push(payload),
{
}

/// A write never waits and never loses a payload in silence: it is taken and
/// queued behind the older payloads, or it is turned away because the queue
/// is full, and the queue stays as it was.
pub proof fn law_write_queues_or_reports(outbound: Seq<Seq<u8>>, payload: Seq<u8>)
    requires
        payload.len() <= BUFFER_LEN,
    ensures
        write_outcome(outbound, payload) is Ok <==> outbound.len() < QUEUE_LEN,
        write_outcome(outbound, payload) is Ok ==> outbound_after_write(outbound, payload)
            == outbound.push(payload),
        write_outcome(outbound, payload) is Err ==> write_outcome(outbound, payload) == Err::<
            usize,
            WriteError,
        >(WriteError::QueueFull) && outbound_after_write(outbound, payload) == outbound,
{
}

/// Feeding a packet to the inbound queue keeps the packet's order, takes
/// bytes from its front only, and never takes the queue over its capacity:
/// what does not fit stays with the caller.
pub proof fn law_feed_keeps_order_and_bound(inbound: Seq<u8>, packet: Seq<u8>)
    requires
        inbound.len() <= BUFFER_LEN,
    ensures
        feed_accepted(inbound, packet) <= packet.len(),
        inbound_after_feed(inbound, packet).len() == inbound.len() + feed_accepted(inbound, packet),
        inbound_after_feed(inbound, packet).len() <= BUFFER_LEN,
        inbound.is_prefix_of(inbound_after_feed(inbound, packet)),
        feed_accepted(inbound, packet) < packet.len() ==> inbound_after_feed(inbound, packet).len()
            == BUFFER_LEN,
{
}

/// The round trip through a looped-back link. A payload of one byte up to
/// the buffer's capacity, written to a transport at rest, is taken whole;
/// the link's sender finds exactly this payload at the front of the outbound
/// queue; fed back into the inbound queue it is queued whole; and a read of
/// as many bytes, polled before its time is up, ends complete with the same
/// bytes in the same order, leaving both queues empty.
pub proof fn law_loopback_round_trip(
    payload: Seq<u8>,
    buffer: Seq<u8>,
    start: u64,
    wait: u64,
    nows: Seq<u64>,
)
    requires
        1 <= payload.len() <= BUFFER_LEN,
        buffer.len() == payload.len(),
        nows.len() == payload.len(),
        forall|i: int| 0 <= i < nows.len() ==> nows[i] - start < wait,
    ensures
        ({
            let written = outbound_after_write(Seq::<Seq<u8>>::empty(), payload);
            let looped = inbound_after_feed(Seq::<u8>::empty(), payload);
            let read = ReadModel { buffer, filled: 0, start, wait, inbound: looped };
            &&& write_outcome(Seq::<Seq<u8>>::empty(), payload) == Ok::<usize, WriteError>(
                payload.len() as usize,
            )
            &&& fifo_front(written) == Some(payload)
            &&& fifo_receive(written) == Seq::<Seq<u8>>::empty()
            &&& feed_accepted(Seq::<u8>::empty(), payload) == payload.len()
            &&& looped == payload
            &&& read_polls_result(read, nows, nows.len() - 1) == (ReadPoll::Done {
                bytes_filled: payload.len() as usize,
                timed_out: false,
            })
            &&& read_polls_state(read, nows).buffer == payload
            &&& read_polls_state(read, nows).inbound == Seq::<u8>::empty()
        }),
{
    let looped = inbound_after_feed(Seq::<u8>::empty(), payload);
    law_served_read_completes(ReadModel { buffer, filled: 0, start, wait, inbound: looped }, nows);
}

} // verus!
