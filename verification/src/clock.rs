//! Block time, counted in nanoseconds since the epoch as the host counts it.

use vstd::prelude::*;

verus! {

/// Nanoseconds in one second.
pub const NANOS_PER_SECOND: u64 = 1_000_000_000;

/// The instant `seconds` after `time`, in nanoseconds, as a mathematical integer.
pub open spec fn seconds_after(time: u64, seconds: u64) -> int {
    time + seconds * NANOS_PER_SECOND
}

/// Calls `cosmwasm_std::Timestamp::plus_seconds` on the timestamp of `time`
/// nanoseconds and reads the result back in nanoseconds. The contract says
/// that this adds `seconds` times a thousand million, and keeps to the inputs
/// on which the sum fits in 64 bits, since the host type panics on the others.
#[verifier::external_body]
pub(crate) fn plus_seconds(time: u64, seconds: u64) -> (later: u64)
    requires
        seconds_after(time, seconds) <= u64::MAX,
    ensures
        later == seconds_after(time, seconds),
{
    cosmwasm_std::Timestamp::from_nanos(time).plus_seconds(seconds).nanos()
}

/// The instant `seconds` after `time`, or `None` where it lies beyond what
/// 64 bits of nanoseconds can hold.
pub fn checked_plus_seconds(time: u64, seconds: u64) -> (later: Option<u64>)
    ensures
        later == if seconds_after(time, seconds) <= u64::MAX {
            Some(seconds_after(time, seconds) as u64)
        } else {
            None
        },
{
    if seconds > (u64::MAX - time) / NANOS_PER_SECOND {
        assert(seconds_after(time, seconds) > u64::MAX) by (nonlinear_arith)
            requires
                seconds > (u64::MAX - time) / (NANOS_PER_SECOND as int),
                NANOS_PER_SECOND == 1_000_000_000,
                time <= u64::MAX,
                seconds_after(time, seconds) == time + seconds * NANOS_PER_SECOND,
        ;
        None
    } else {
        assert(seconds_after(time, seconds) <= u64::MAX) by (nonlinear_arith)
            requires
                seconds <= (u64::MAX - time) / (NANOS_PER_SECOND as int),
                NANOS_PER_SECOND == 1_000_000_000,
                time <= u64::MAX,
                seconds_after(time, seconds) == time + seconds * NANOS_PER_SECOND,
        ;
        Some(plus_seconds(time, seconds))
    }
}

/// Whether `now` lies more than `seconds` after `since`.
pub open spec fn elapsed_more_than(since: u64, seconds: u64, now: u64) -> bool {
    now > seconds_after(since, seconds)
}

/// Whether `now` lies more than `seconds` after `since`.
pub fn has_elapsed_more_than(since: u64, seconds: u64, now: u64) -> (elapsed: bool)
    ensures
        elapsed == elapsed_more_than(since, seconds, now),
{
    match checked_plus_seconds(since, seconds) {
        Some(deadline) => deadline < now,
        None => false,
    }
}

} // verus!
