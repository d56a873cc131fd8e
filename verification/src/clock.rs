//! The time source: wall-clock milliseconds since the crate epoch, the one
//! piece of non-determinism the allocator touches.
use crate::snowflake::TIMESTAMP_SPACE;
use vstd::prelude::*;

verus! {

/// The crate epoch, as milliseconds of the Unix epoch: the start of 2020.
/// The 41-bit timestamp field runs out about 69 years later; choosing an
/// epoch in the recent past is a deployment duty, not the allocator's.
pub const EPOCH_UNIX_MS: i64 = 1_577_836_800_000;

/// What one wall-clock reading means to the allocator: milliseconds since
/// the crate epoch, reduced to the 41-bit timestamp space, with a reading
/// before the epoch counting as zero (a backward-moving clock like any
/// other).
pub open spec fn epoch_ms_of(t: i64) -> u64 {
    if t >= EPOCH_UNIX_MS {
        (((t - EPOCH_UNIX_MS) as u64) % TIMESTAMP_SPACE) as u64
    } else {
        0
    }
}

/// Relies on chrono::Utc::now and chrono::DateTime::timestamp_millis: the
/// number of non-leap milliseconds since the Unix epoch, by the system
/// clock. Nothing can be promised of a clock reading. chrono panics on a
/// system clock set before 1970, a machine state no contract can exclude.
#[verifier::external_body]
fn unix_millis() -> (r: i64) {
    chrono::Utc::now().timestamp_millis()
}

/// Relies on std::hint::spin_loop: a no-op hint to the processor, emitted
/// while the allocator waits out a clock regression or an exhausted
/// millisecond so the bounded spin does not peg a core.
#[verifier::external_body]
pub(crate) fn relax() {
    std::hint::spin_loop()
}

/// Shifts one wall-clock reading to the crate epoch: exactly
/// [`epoch_ms_of`] of the reading.
pub fn reading_to_ms(t: i64) -> (r: u64)
    ensures
        r == epoch_ms_of(t),
        r < TIMESTAMP_SPACE,
{
    if t >= EPOCH_UNIX_MS {
        ((t - EPOCH_UNIX_MS) as u64) % TIMESTAMP_SPACE
    } else {
        0
    }
}

/// Milliseconds since the crate epoch, by the system clock: the epoch
/// meaning of whatever the clock read.
pub fn now_ms() -> (r: u64)
    ensures
        r < TIMESTAMP_SPACE,
{
    reading_to_ms(unix_millis())
}

} // verus!
