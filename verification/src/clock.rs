//! The wall clock, read in one place.
use vstd::prelude::*;

verus! {

/// The whole milliseconds that a duration holds, as
/// `std::time::Duration::as_millis` gives them.
pub uninterp spec fn duration_millis(d: std::time::Duration) -> u128;

/// `std::time::Duration::as_millis` gives the whole milliseconds of the
/// duration, which depend on the duration alone.
pub assume_specification[ std::time::Duration::as_millis ](d: &std::time::Duration) -> (ms: u128)
    ensures
        ms == duration_millis(*d),
;

/// The milliseconds of a duration as a `u64`, the largest `u64` standing for
/// any longer one.
pub open spec fn millis_u64(d: std::time::Duration) -> u64 {
    if duration_millis(d) > u64::MAX {
        u64::MAX
    } else {
        duration_millis(d) as u64
    }
}

/// The milliseconds of `d`, saturated to a `u64`.
pub fn whole_millis(d: &std::time::Duration) -> (ms: u64)
    ensures
        ms == millis_u64(*d),
{
    let ms: u128 = d.as_millis();
    if ms > u64::MAX as u128 {
        u64::MAX
    } else {
        ms as u64
    }
}

/// A point in time, as the system clock gives it.
#[verifier::external_type_specification]
#[verifier::external_body]
pub struct ExSystemTime(std::time::SystemTime);

/// `std::time::SystemTime::now` reads the system clock. Nothing is promised
/// of what it gives: it changes from one call to the next.
#[verifier::external_body]
pub(crate) fn system_now() -> std::time::SystemTime {
    std::time::SystemTime::now()
}

/// `std::time::SystemTime::duration_since`, asked how long after the Unix
/// epoch a point in time lies; `None` where it lies before. Nothing is
/// promised of the duration.
#[verifier::external_body]
pub(crate) fn since_epoch(time: &std::time::SystemTime) -> Option<std::time::Duration> {
    time.duration_since(std::time::UNIX_EPOCH).ok()
}

/// The milliseconds of a point in time that lies `elapsed` after the Unix
/// epoch; 0 for one that lies before it, for which `elapsed` is `None`.
pub open spec fn epoch_millis(elapsed: Option<std::time::Duration>) -> u64 {
    match elapsed {
        Some(duration) => millis_u64(duration),
        None => 0,
    }
}

/// The milliseconds of a point in time, given how long after the Unix epoch
/// it lies.
pub fn millis_since_epoch(elapsed: Option<std::time::Duration>) -> (ms: u64)
    ensures
        ms == epoch_millis(elapsed),
{
    match elapsed {
        Some(duration) => whole_millis(&duration),
        None => 0,
    }
}

/// The milliseconds that the system clock stands after the Unix epoch, or 0
/// where it stands before. The clock is read anew at every call: nothing
/// holds of the value but that it is what `millis_since_epoch` makes of the
/// reading.
pub fn unix_millis() -> u64 {
    let now = system_now();
    millis_since_epoch(since_epoch(&now))
}

} // verus!
