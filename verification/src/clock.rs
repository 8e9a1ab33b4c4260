//! Time as the core reads it: whole microseconds since start-up, and the
//! forms in which it is handed on.

use embassy_time::Instant;
use vstd::prelude::*;

verus! {

/// Microseconds in a second.
pub const MICROS_PER_SECOND: u64 = 1_000_000;

/// Microseconds in a millisecond.
pub const MICROS_PER_MILLI: u64 = 1_000;

/// Nanoseconds in a microsecond.
pub const NANOS_PER_MICRO: u64 = 1_000;

/// `embassy_time::Instant::now`, read in microseconds with
/// `Instant::as_micros`. Nothing is claimed of the value: it is whatever the
/// time driver reports at the moment of the call. At the driver's rate of
/// one tick per microsecond the conversion multiplies and divides by one.
#[verifier::external_body]
pub(crate) fn now_micros() -> (micros: u64) {
    Instant::now().as_micros()
}

/// The value of `x` in two's complement of 32 bits.
pub open spec fn wrap_i32(x: int) -> int {
    let low = x % 0x1_0000_0000;
    if low < 0x8000_0000 {
        low
    } else {
        low - 0x1_0000_0000
    }
}

/// The value of an unsigned 64-bit number when its bits are read as signed.
pub open spec fn wrap_i64(x: u64) -> int {
    if x <= i64::MAX {
        x as int
    } else {
        x - 0x1_0000_0000_0000_0000
    }
}

/// Quotient of the division that rounds towards zero.
pub open spec fn div_towards_zero(x: int, d: int) -> int
    recommends
        d > 0,
{
    if x >= 0 {
        x / d
    } else {
        -((-x) / d)
    }
}

/// Remainder of the division that rounds towards zero: it has the sign of
/// `x`.
pub open spec fn rem_towards_zero(x: int, d: int) -> int
    recommends
        d > 0,
{
    x - div_towards_zero(x, d) * d
}

/// A point in time as a message header carries it.
#[derive(Clone, Copy, Debug, PartialEq, Eq, Structural)]
pub struct Stamp {
    /// Whole seconds since start-up, in two's complement of 32 bits.
    pub sec: i32,
    /// What is left of the second, in nanoseconds.
    pub nanosec: u32,
}

/// A point in time as the C library's clock interface carries it.
#[derive(Clone, Copy, Debug, PartialEq, Eq, Structural)]
pub struct Timespec {
    /// Whole seconds.
    pub tv_sec: i64,
    /// What is left of the second, in nanoseconds.
    pub tv_nsec: i32,
}

/// The stamp of the instant `micros` microseconds after start-up.
pub open spec fn stamp_of(micros: u64) -> Stamp {
    Stamp {
        sec: wrap_i32(micros as int / MICROS_PER_SECOND as int) as i32,
        nanosec: ((micros % MICROS_PER_SECOND) * NANOS_PER_MICRO) as u32,
    }
}

/// The C time of the instant `micros` microseconds after start-up. The count
/// is read as a signed number first, and divided towards zero.
pub open spec fn timespec_of(micros: u64) -> Timespec {
    let signed = wrap_i64(micros);
    Timespec {
        tv_sec: div_towards_zero(signed, MICROS_PER_SECOND as int) as i64,
        tv_nsec: (rem_towards_zero(signed, MICROS_PER_SECOND as int) * NANOS_PER_MICRO) as i32,
    }
}

/// A timeout of `timeout_ms` milliseconds, in microseconds. A negative
/// timeout is none at all.
pub open spec fn timeout_micros_of(timeout_ms: i32) -> u64 {
    if timeout_ms > 0 {
        (timeout_ms * MICROS_PER_MILLI) as u64
    } else {
        0
    }
}

/// Whether a wait of `wait` microseconds that began at the instant `start`
/// is over at the instant `now`: the clock has reached the instant that lies
/// `wait` after the start. An instant that the clock cannot reach is never
/// reached.
pub open spec fn wait_is_over(start: u64, wait: u64, now: u64) -> bool {
    now >= start + wait
}

/// Splits a microsecond count into seconds and the rest of the second, the
/// rest in nanoseconds.
pub fn stamp(micros: u64) -> (stamp: Stamp)
    ensures
        stamp == stamp_of(micros),
        micros / MICROS_PER_SECOND <= i32::MAX ==> stamp.sec == micros / MICROS_PER_SECOND,
        stamp.nanosec == (micros % MICROS_PER_SECOND) * NANOS_PER_MICRO,
        stamp.nanosec < 1_000_000_000,
{
    let seconds: u64 = micros / MICROS_PER_SECOND;
    let low: u64 = seconds % 0x1_0000_0000;
    let sec: i32 = if low < 0x8000_0000 {
        low as i32
    } else {
        (low as i64 - 0x1_0000_0000) as i32
    };
    let rest: u64 = micros % MICROS_PER_SECOND;
    Stamp { sec, nanosec: (rest * NANOS_PER_MICRO) as u32 }
}

/// Converts a microsecond count to the C library's seconds and nanoseconds.
pub fn timespec_from_micros(micros: u64) -> (time: Timespec)
    ensures
        time == timespec_of(micros),
        micros <= i64::MAX ==> time.tv_sec == micros / MICROS_PER_SECOND && time.tv_nsec == (micros
            % MICROS_PER_SECOND) * NANOS_PER_MICRO,
{
    if micros <= 0x7fff_ffff_ffff_ffff {
        let rest: u64 = micros % MICROS_PER_SECOND;
        Timespec {
            tv_sec: (micros / MICROS_PER_SECOND) as i64,
            tv_nsec: (rest * NANOS_PER_MICRO) as i32,
        }
    } else {
        let below_zero: u64 = (u64::MAX - micros) + 1;
        let rest: u64 = below_zero % MICROS_PER_SECOND;
        Timespec {
            tv_sec: -((below_zero / MICROS_PER_SECOND) as i64),
            tv_nsec: -((rest * NANOS_PER_MICRO) as i32),
        }
    }
}

/// Reads the clock and reports it as C time. Which instant is reported is up
/// to the clock; the conversion is that of [`timespec_from_micros`].
pub fn clock_gettime() -> (time: Timespec)
    ensures
        exists|micros: u64| time == timespec_of(micros),
{
    let micros = now_micros();
    timespec_from_micros(micros)
}

/// A timeout given in milliseconds, in microseconds.
pub fn timeout_micros(timeout_ms: i32) -> (wait: u64)
    ensures
        wait == timeout_micros_of(timeout_ms),
{
    if timeout_ms <= 0 {
        0
    } else {
        (timeout_ms as u64) * MICROS_PER_MILLI
    }
}

/// Whether a wait of `wait` microseconds that began at `start` is over at
/// `now`. The sum is never formed, so no instant is too late to ask about.
pub fn is_over(start: u64, wait: u64, now: u64) -> (over: bool)
    ensures
        over == wait_is_over(start, wait, now),
{
    now >= start && now - start >= wait
}

} // verus!
