//! The core of a sensor node that serves a remote middleware session over
//! one serial link while it keeps its own hardware going.
//!
//! The session engine is foreign code: it runs in the baseline loop, cannot
//! be suspended, and reaches the link through four functions, open, close,
//! write and read with a timeout ([`transport`]). The link's own tasks run
//! above the baseline and move bytes between the hardware and two bounded
//! queues ([`queue`], modelled in [`fifo`]). Nothing in this crate waits:
//! where a caller would suspend, it gets an answer that says so, and asks
//! again after it was woken.
//!
//! Beside the transport stand the small parts that the two scheduling
//! domains share: a mailbox in which the latest value wins ([`mailbox`]),
//! the latest sensor reading with the instant of its capture ([`state`]),
//! the clock and its conversions ([`clock`]), and the order in which the
//! baseline loop yields and lets the engine work ([`sched`]).
//!
//! The hardware, the session engine and all suspension are the caller's
//! business.

pub mod buffer;
pub mod clock;
pub mod cstr;
pub mod fifo;
pub mod mailbox;
pub mod queue;
pub mod sched;
pub mod state;
pub mod transport;
pub mod transport_laws;
pub mod usb;
