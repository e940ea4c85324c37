//! Wall-clock time in whole seconds.

use vstd::prelude::*;

verus! {

/// `std::time::SystemTime`: a reading of the system clock, carried as it
/// is. Nothing can be seen inside it.
#[verifier::external_type_specification]
#[verifier::external_body]
pub struct ExSystemTime(std::time::SystemTime);

/// `std::time::SystemTime::now`: the current reading of the system clock.
/// Nothing is claimed of the reading.
#[verifier::external_body]
fn system_clock() -> std::time::SystemTime {
    std::time::SystemTime::now()
}

/// `std::time::SystemTime::duration_since` against `UNIX_EPOCH`: the time
/// elapsed since the epoch, or `None` for a reading that lies before it.
/// Nothing is claimed of the duration.
#[verifier::external_body]
fn since_epoch(reading: &std::time::SystemTime) -> Option<std::time::Duration> {
    reading.duration_since(std::time::UNIX_EPOCH).ok()
}

/// `core::time::Duration::as_secs`: the whole seconds of a duration. The
/// duration is opaque here, so nothing is claimed of the count.
pub assume_specification[ core::time::Duration::as_secs ](d: &core::time::Duration) -> u64;

/// The low 32 bits of a count of seconds.
pub open spec fn low_seconds(secs: u64) -> u32 {
    (secs % 0x1_0000_0000) as u32
}

/// Reduces a count of seconds to the 32 bits that a token's expiry holds, by
/// dropping the bits above them.
pub fn truncate_seconds(secs: u64) -> (r: u32)
    ensures
        r == low_seconds(secs),
{
    (secs % 0x1_0000_0000) as u32
}

/// Seconds since the Unix epoch, reduced to 32 bits; 0 while the system clock
/// reads a time before the epoch.
pub fn now_sec() -> u32 {
    let reading = system_clock();
    let elapsed = match since_epoch(&reading) {
        Some(elapsed) => Some(elapsed.as_secs()),
        None => None,
    };
    timestamp(elapsed)
}

/// The timestamp that stands for a reading of the clock, given the whole
/// seconds from the epoch to the reading, or `None` for a reading before the
/// epoch: the low 32 bits of the seconds, and 0 where there are none.
pub open spec fn spec_timestamp(elapsed: Option<u64>) -> u32 {
    match elapsed {
        Some(secs) => low_seconds(secs),
        None => 0,
    }
}

/// Turns what the clock gave into a timestamp: the seconds since the epoch,
/// reduced to 32 bits, and 0 for a reading that lies before the epoch.
#[verifier::when_used_as_spec(spec_timestamp)]
pub fn timestamp(elapsed: Option<u64>) -> (r: u32)
    ensures
        r == spec_timestamp(elapsed),
{
    match elapsed {
        Some(secs) => truncate_seconds(secs),
        None => 0,
    }
}

} // verus!
