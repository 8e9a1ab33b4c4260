//! One write request's payload: a fixed-capacity byte array and its used length.

use vstd::prelude::*;

verus! {

/// Capacity of one [`Buffer`] in bytes, and of the inbound byte queue.
pub const BUFFER_LEN: usize = 1024;

/// Number of buffers that the outbound queue holds.
pub const QUEUE_LEN: usize = 2;

/// A payload of at most [`BUFFER_LEN`] bytes. It is moved from owner to owner
/// and never shared. Its view is the sequence of the bytes in use.
pub struct Buffer {
    inner: [u8; BUFFER_LEN],
    used: usize,
}

impl View for Buffer {
    type V = Seq<u8>;

    closed spec fn view(&self) -> Seq<u8> {
        self.inner@.subrange(0, self.used as int)
    }
}

impl Buffer {
    #[verifier::type_invariant]
    spec fn well_formed(self) -> bool {
        self.used <= BUFFER_LEN
    }

    /// A buffer that carries no byte.
    pub fn new() -> (buffer: Buffer)
        ensures
            buffer@ == Seq::<u8>::empty(),
    {
        Buffer { inner: [0u8; BUFFER_LEN], used: 0 }
    }

    /// Copies `payload` into a fresh buffer. A payload of more than
    /// [`BUFFER_LEN`] bytes does not fit and gives `None`.
    pub fn from_slice(payload: &[u8]) -> (buffer: Option<Buffer>)
        ensures
            payload@.len() <= BUFFER_LEN ==> (buffer matches Some(b) && b@ == payload@),
            payload@.len() > BUFFER_LEN ==> buffer is None,
    {
        if payload.len() > BUFFER_LEN {
            None
        } else {
            Some(Buffer::copy_of(payload))
        }
    }

    /// Copies a payload that fits into a fresh buffer.
    pub fn copy_of(payload: &[u8]) -> (buffer: Buffer)
        requires
            payload@.len() <= BUFFER_LEN,
        ensures
            buffer@ == payload@,
    {
        let len = payload.len();
        let mut inner = [0u8; BUFFER_LEN];
        let mut i: usize = 0;
        while i < len
            invariant
                i <= len,
                len == payload@.len(),
                len <= BUFFER_LEN,
                forall|k: int| 0 <= k < i ==> inner@[k] == payload@[k],
            decreases len - i,
        {
            inner[i] = payload[i];
            i += 1;
        }
        Buffer { inner, used: len }
    }

    /// Number of bytes in use.
    pub fn len(&self) -> (len: usize)
        ensures
            len == self@.len(),
            len <= BUFFER_LEN,
    {
        proof {
            use_type_invariant(self);
        }
        self.used
    }

    /// Whether the buffer carries no byte.
    pub fn is_empty(&self) -> (empty: bool)
        ensures
            empty == (self@.len() == 0),
    {
        proof {
            use_type_invariant(self);
        }
        self.used == 0
    }

    /// The bytes in use, in order.
    pub fn as_slice(&self) -> (bytes: &[u8])
        ensures
            bytes@ == self@,
    {
        proof {
            use_type_invariant(self);
        }
        vstd::slice::slice_subrange(self.inner.as_slice(), 0, self.used)
    }
}

} // verus!
