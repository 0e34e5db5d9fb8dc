//! The wall clock.
use vstd::prelude::*;

use crate::card::Timestamp;

verus! {

#[verifier::external_type_specification]
#[verifier::external_body]
pub struct ExSystemTime(std::time::SystemTime);

/// Calls `std::time::SystemTime::now`.  Nothing is stated of the result: it
/// depends on the machine's clock.
#[verifier::external_body]
fn system_now() -> (r: std::time::SystemTime) {
    std::time::SystemTime::now()
}

/// Calls `SystemTime::duration_since(UNIX_EPOCH)`: `Ok` with the time elapsed
/// since the epoch, or, when the clock reads before the epoch, `Err` with how
/// far before it (from `SystemTimeError::duration`).  Nothing is stated of the
/// durations: they depend on the time given.
#[verifier::external_body]
fn since_epoch(t: &std::time::SystemTime) -> (r: Result<core::time::Duration, core::time::Duration>) {
    t.duration_since(std::time::UNIX_EPOCH).map_err(|e| e.duration())
}

/// `Duration::as_secs`: the whole seconds of a duration.
pub assume_specification[ core::time::Duration::as_secs ](d: &core::time::Duration) -> (r: u64);

/// `Duration::subsec_nanos`: the fraction of a second, in nanoseconds, which
/// std documents as always less than one billion.
pub assume_specification[ core::time::Duration::subsec_nanos ](d: &core::time::Duration) -> (r: u32)
    ensures
        r < 1_000_000_000,
;

/// The point in time `secs` seconds and `nanos` nanoseconds after the epoch
/// (`after`) or before it, as whole seconds and a non-negative fraction;
/// points beyond what an `i64` of seconds holds become the nearest one it holds.
pub open spec fn epoch_offset_spec(after: bool, secs: u64, nanos: u32) -> Timestamp {
    if after {
        if secs > i64::MAX {
            Timestamp { secs: i64::MAX, nanos }
        } else {
            Timestamp { secs: secs as i64, nanos }
        }
    } else if nanos == 0 {
        if secs > 0x8000_0000_0000_0000 {
            Timestamp { secs: i64::MIN, nanos: 0 }
        } else {
            Timestamp { secs: (0 - secs) as i64, nanos: 0 }
        }
    } else {
        if secs > i64::MAX {
            Timestamp { secs: i64::MIN, nanos: 0 }
        } else {
            Timestamp { secs: (0 - secs - 1) as i64, nanos: (1_000_000_000 - nanos) as u32 }
        }
    }
}

/// Turns an offset from the epoch into a timestamp (see `epoch_offset_spec`).
pub fn timestamp_from_epoch_offset(after: bool, secs: u64, nanos: u32) -> (r: Timestamp)
    requires
        nanos < 1_000_000_000,
    ensures
        r == epoch_offset_spec(after, secs, nanos),
        r.nanos < 1_000_000_000,
{
    if after {
        if secs > i64::MAX as u64 {
            Timestamp { secs: i64::MAX, nanos }
        } else {
            Timestamp { secs: secs as i64, nanos }
        }
    } else if nanos == 0 {
        if secs >= 0x8000_0000_0000_0000u64 {
            Timestamp { secs: i64::MIN, nanos: 0 }
        } else {
            Timestamp { secs: 0 - (secs as i64), nanos: 0 }
        }
    } else {
        if secs > i64::MAX as u64 {
            Timestamp { secs: i64::MIN, nanos: 0 }
        } else {
            Timestamp { secs: 0 - (secs as i64) - 1, nanos: 1_000_000_000 - nanos }
        }
    }
}

/// The current time, read from the system clock; a clock set before 1970 gives
/// a negative timestamp.  Only that the fraction is below one second is stated:
/// the rest depends on the machine's clock.
pub fn now_timestamp() -> (r: Timestamp)
    ensures
        r.nanos < 1_000_000_000,
{
    let t = system_now();
    match since_epoch(&t) {
        Ok(d) => timestamp_from_epoch_offset(true, d.as_secs(), d.subsec_nanos()),
        Err(d) => timestamp_from_epoch_offset(false, d.as_secs(), d.subsec_nanos()),
    }
}

/// A timestamp made from an offset from the epoch stands for the same instant
/// (counted in nanoseconds, negative before the epoch) whenever that instant
/// fits in an `i64` of seconds, with a fraction below one second; an instant
/// too far after the epoch becomes the last second an `i64` holds.
pub proof fn law_epoch_offset_keeps_the_instant(after: bool, secs: u64, nanos: u32)
    requires
        nanos < 1_000_000_000,
    ensures
        epoch_offset_spec(after, secs, nanos).nanos < 1_000_000_000,
        (if after {
            secs <= i64::MAX
        } else if nanos == 0 {
            secs <= 0x8000_0000_0000_0000
        } else {
            secs <= i64::MAX
        }) ==> epoch_offset_spec(after, secs, nanos).secs * 1_000_000_000 + epoch_offset_spec(
            after,
            secs,
            nanos,
        ).nanos == if after {
            secs * 1_000_000_000 + nanos
        } else {
            0 - (secs * 1_000_000_000 + nanos)
        },
        after && secs > i64::MAX ==> epoch_offset_spec(after, secs, nanos).secs == i64::MAX,
{
}

} // verus!
