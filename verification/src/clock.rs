//! The wall clock, in the milliseconds that the driver counts in.

use vstd::prelude::*;

verus! {

/// Milliseconds in a second.
pub const MILLIS_PER_SEC: i64 = 1_000;

/// Nanoseconds in a millisecond.
pub const NANOS_PER_MILLI: i32 = 1_000_000;

/// The milliseconds in `sec` seconds and `nsec` nanoseconds; a nanosecond
/// part below 0 counts as none.
pub open spec fn millis(sec: i64, nsec: i32) -> int {
    sec * MILLIS_PER_SEC + (if nsec > 0 {
        nsec as int / NANOS_PER_MILLI as int
    } else {
        0
    })
}

/// `t`, or the end of the `i64` range that lies nearest to it.
pub open spec fn clamped(t: int) -> i64 {
    if t > i64::MAX {
        i64::MAX
    } else if t < i64::MIN {
        i64::MIN
    } else {
        t as i64
    }
}

/// Reads the system clock with `time::get_time`: seconds and nanoseconds
/// since the epoch. Nothing is claimed of the seconds. Of the nanoseconds,
/// that they lie within one second, which `time::Timespec::new` asserts of
/// every value that `get_time` hands out.
#[verifier::external_body]
fn read_clock() -> (reading: (i64, i32))
    ensures
        0 <= reading.1 < 1_000_000_000,
{
    let spec = time::get_time();
    (spec.sec, spec.nsec)
}

/// Turns a reading of seconds and nanoseconds into milliseconds, clamped to
/// the range of `i64`.
pub fn millis_of(sec: i64, nsec: i32) -> (t: i64)
    ensures
        t == clamped(millis(sec, nsec)),
{
    let part: i128 = if nsec > 0 {
        (nsec / NANOS_PER_MILLI) as i128
    } else {
        0
    };
    let whole: i128 = sec as i128 * 1_000 + part;
    if whole > i64::MAX as i128 {
        i64::MAX
    } else if whole < i64::MIN as i128 {
        i64::MIN
    } else {
        whole as i64
    }
}

/// The time now, in milliseconds since the epoch: some reading of the clock,
/// turned into milliseconds.
pub fn now() -> (t: i64)
    ensures
        exists|sec: i64, nsec: i32|
            0 <= nsec < 1_000_000_000 && t == clamped(#[trigger] millis(sec, nsec)),
{
    let (sec, nsec) = read_clock();
    millis_of(sec, nsec)
}

} // verus!
