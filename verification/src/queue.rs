//! The two bounded queues of the serial link. Each is an
//! `embassy_sync::channel::Channel` that the queue owns alone: every
//! operation takes the queue by `&mut`, so that what it holds changes only
//! through the calls below. Contracts are stated over the model in
//! [`crate::fifo`].

use crate::buffer::Buffer;
use crate::buffer::BUFFER_LEN;
use crate::buffer::QUEUE_LEN;
use crate::fifo::fifo_front;
use crate::fifo::fifo_has_room;
use crate::fifo::fifo_receive;
use crate::fifo::fifo_send;
use embassy_sync::blocking_mutex::raw::CriticalSectionRawMutex;
use embassy_sync::channel::Channel;
use embassy_sync::channel::TrySendError;
use vstd::prelude::*;

verus! {

/// The inbound queue: single bytes that came in over the link and wait for
/// the session engine, at most [`BUFFER_LEN`] of them. Its view is the
/// sequence of queued bytes, oldest first.
#[verifier::external_body]
pub struct ByteQueue {
    chan: Channel<CriticalSectionRawMutex, u8, BUFFER_LEN>,
}

/// The outbound queue: payloads that the session engine wrote and that wait
/// for the link, at most [`QUEUE_LEN`] of them. Its view is the sequence of
/// queued payloads, oldest first, each as its bytes.
#[verifier::external_body]
pub struct BufferQueue {
    chan: Channel<CriticalSectionRawMutex, Buffer, QUEUE_LEN>,
}

/// The bytes that the channel inside a [`ByteQueue`] holds, oldest first.
pub uninterp spec fn byte_queue_items(queue: ByteQueue) -> Seq<u8>;

/// The payloads that the channel inside a [`BufferQueue`] holds, oldest
/// first.
pub uninterp spec fn buffer_queue_items(queue: BufferQueue) -> Seq<Seq<u8>>;

/// `Channel::new`, for bytes. Trusted: the new channel holds nothing.
#[verifier::external_body]
fn byte_channel_new() -> (queue: ByteQueue)
    ensures
        byte_queue_items(queue) == Seq::<u8>::empty(),
{
    ByteQueue { chan: Channel::new() }
}

/// `Channel::try_send`, for bytes. Trusted: the channel pushes the byte at
/// the back of its ring and reports success exactly when it held fewer than
/// its capacity; a full channel is left as it was.
#[verifier::external_body]
fn byte_channel_try_send(queue: &mut ByteQueue, byte: u8) -> (accepted: bool)
    ensures
        accepted == fifo_has_room(byte_queue_items(*old(queue)), BUFFER_LEN as nat),
        byte_queue_items(*final(queue)) == fifo_send(
            byte_queue_items(*old(queue)),
            BUFFER_LEN as nat,
            byte,
        ),
{
    queue.chan.try_send(byte).is_ok()
}

/// `Channel::try_receive`, for bytes. Trusted: the channel pops the front of
/// its ring and hands it out, or reports that it is empty and stays so.
#[verifier::external_body]
fn byte_channel_try_receive(queue: &mut ByteQueue) -> (byte: Option<u8>)
    ensures
        byte == fifo_front(byte_queue_items(*old(queue))),
        byte_queue_items(*final(queue)) == fifo_receive(byte_queue_items(*old(queue))),
{
    queue.chan.try_receive().ok()
}

/// `Channel::len`, for bytes. Trusted: it is the number of queued items.
#[verifier::external_body]
fn byte_channel_len(queue: &ByteQueue) -> (len: usize)
    ensures
        len == byte_queue_items(*queue).len(),
{
    queue.chan.len()
}

/// `Channel::new`, for payloads. Trusted: the new channel holds nothing.
#[verifier::external_body]
fn buffer_channel_new() -> (queue: BufferQueue)
    ensures
        buffer_queue_items(queue) == Seq::<Seq<u8>>::empty(),
{
    BufferQueue { chan: Channel::new() }
}

/// `Channel::try_send`, for payloads. Trusted: the channel pushes the
/// payload at the back of its ring exactly when it held fewer than its
/// capacity; a full channel is left as it was and hands the payload back.
#[verifier::external_body]
fn buffer_channel_try_send(queue: &mut BufferQueue, buffer: Buffer) -> (outcome: Result<
    (),
    Buffer,
>)
    ensures
        outcome is Ok == fifo_has_room(buffer_queue_items(*old(queue)), QUEUE_LEN as nat),
        outcome matches Err(returned) ==> returned == buffer,
        buffer_queue_items(*final(queue)) == fifo_send(
            buffer_queue_items(*old(queue)),
            QUEUE_LEN as nat,
            buffer@,
        ),
{
    match queue.chan.try_send(buffer) {
        Ok(()) => Ok(()),
        Err(TrySendError::Full(returned)) => Err(returned),
    }
}

/// `Channel::try_receive`, for payloads. Trusted: the channel pops the front
/// of its ring and hands it out, or reports that it is empty and stays so.
#[verifier::external_body]
fn buffer_channel_try_receive(queue: &mut BufferQueue) -> (buffer: Option<Buffer>)
    ensures
        match buffer {
            Some(b) => fifo_front(buffer_queue_items(*old(queue))) == Some(b@),
            None => fifo_front(buffer_queue_items(*old(queue))) is None,
        },
        buffer_queue_items(*final(queue)) == fifo_receive(buffer_queue_items(*old(queue))),
{
    queue.chan.try_receive().ok()
}

/// `Channel::len`, for payloads. Trusted: it is the number of queued items.
#[verifier::external_body]
fn buffer_channel_len(queue: &BufferQueue) -> (len: usize)
    ensures
        len == buffer_queue_items(*queue).len(),
{
    queue.chan.len()
}

impl View for ByteQueue {
    type V = Seq<u8>;

    open spec fn view(&self) -> Seq<u8> {
        byte_queue_items(*self)
    }
}

impl ByteQueue {
    /// The queue never holds more than [`BUFFER_LEN`] bytes.
    #[verifier::type_invariant]
    pub open spec fn within_capacity(self) -> bool {
        byte_queue_items(self).len() <= BUFFER_LEN
    }

    /// An empty queue.
    pub fn new() -> (queue: ByteQueue)
        ensures
            queue@ == Seq::<u8>::empty(),
    {
        byte_channel_new()
    }

    /// Sends without waiting. The byte joins at the back when the queue holds
    /// fewer than [`BUFFER_LEN`] bytes; a full queue turns it away, which the
    /// result `false` reports, and keeps what it has.
    pub fn try_send(&mut self, byte: u8) -> (accepted: bool)
        ensures
            accepted == fifo_has_room(old(self)@, BUFFER_LEN as nat),
            final(self)@ == fifo_send(old(self)@, BUFFER_LEN as nat, byte),
            final(self)@.len() <= BUFFER_LEN,
    {
        proof {
            use_type_invariant(&*self);
        }
        byte_channel_try_send(self, byte)
    }

    /// Receives without waiting: hands out the oldest byte and removes it,
    /// or gives `None` when the queue is empty.
    pub fn try_receive(&mut self) -> (byte: Option<u8>)
        ensures
            byte == fifo_front(old(self)@),
            final(self)@ == fifo_receive(old(self)@),
            final(self)@.len() <= BUFFER_LEN,
    {
        proof {
            use_type_invariant(&*self);
        }
        byte_channel_try_receive(self)
    }

    /// Number of queued bytes.
    pub fn len(&self) -> (len: usize)
        ensures
            len == self@.len(),
            len <= BUFFER_LEN,
    {
        proof {
            use_type_invariant(self);
        }
        byte_channel_len(self)
    }

    /// Whether nothing is queued.
    pub fn is_empty(&self) -> (empty: bool)
        ensures
            empty == (self@.len() == 0),
    {
        self.len() == 0
    }

    /// Whether a send would be turned away.
    pub fn is_full(&self) -> (full: bool)
        ensures
            full == !fifo_has_room(self@, BUFFER_LEN as nat),
    {
        self.len() >= BUFFER_LEN
    }

    /// Number of bytes that the queue holds at most.
    pub fn capacity(&self) -> (capacity: usize)
        ensures
            capacity == BUFFER_LEN,
    {
        BUFFER_LEN
    }
}

impl View for BufferQueue {
    type V = Seq<Seq<u8>>;

    open spec fn view(&self) -> Seq<Seq<u8>> {
        buffer_queue_items(*self)
    }
}

impl BufferQueue {
    /// The queue never holds more than [`QUEUE_LEN`] payloads.
    #[verifier::type_invariant]
    pub open spec fn within_capacity(self) -> bool {
        buffer_queue_items(self).len() <= QUEUE_LEN
    }

    /// An empty queue.
    pub fn new() -> (queue: BufferQueue)
        ensures
            queue@ == Seq::<Seq<u8>>::empty(),
    {
        buffer_channel_new()
    }

    /// Sends without waiting. The payload joins at the back when the queue
    /// holds fewer than [`QUEUE_LEN`] payloads; a full queue keeps what it
    /// has and hands the payload back in `Err`.
    pub fn try_send(&mut self, buffer: Buffer) -> (outcome: Result<(), Buffer>)
        ensures
            outcome is Ok == fifo_has_room(old(self)@, QUEUE_LEN as nat),
            outcome matches Err(returned) ==> returned == buffer,
            final(self)@ == fifo_send(old(self)@, QUEUE_LEN as nat, buffer@),
            final(self)@.len() <= QUEUE_LEN,
    {
        proof {
            use_type_invariant(&*self);
        }
        buffer_channel_try_send(self, buffer)
    }

    /// Receives without waiting: hands out the oldest payload and removes
    /// it, or gives `None` when the queue is empty.
    pub fn try_receive(&mut self) -> (buffer: Option<Buffer>)
        ensures
            match buffer {
                Some(b) => fifo_front(old(self)@) == Some(b@),
                None => fifo_front(old(self)@) is None,
            },
            final(self)@ == fifo_receive(old(self)@),
            final(self)@.len() <= QUEUE_LEN,
    {
        proof {
            use_type_invariant(&*self);
        }
        buffer_channel_try_receive(self)
    }

    /// Number of queued payloads.
    pub fn len(&self) -> (len: usize)
        ensures
            len == self@.len(),
            len <= QUEUE_LEN,
    {
        proof {
            use_type_invariant(self);
        }
        buffer_channel_len(self)
    }

    /// Whether nothing is queued.
    pub fn is_empty(&self) -> (empty: bool)
        ensures
            empty == (self@.len() == 0),
    {
        self.len() == 0
    }

    /// Whether a send would be turned away.
    pub fn is_full(&self) -> (full: bool)
        ensures
            full == !fifo_has_room(self@, QUEUE_LEN as nat),
    {
        self.len() >= QUEUE_LEN
    }

    /// Number of payloads that the queue holds at most.
    pub fn capacity(&self) -> (capacity: usize)
        ensures
            capacity == QUEUE_LEN,
    {
        QUEUE_LEN
    }
}

} // verus!
