//! The wall clock.
use vstd::prelude::*;

verus! {

/// The whole seconds since the Unix epoch by the system clock, as `SystemTime::elapsed` on
/// `UNIX_EPOCH` measures them; nothing where the clock stands before the epoch. No contract holds
/// of every reading of a clock.
#[verifier::external_body]
fn epoch_elapsed() -> (r: Option<u64>)
{
    std::time::UNIX_EPOCH.elapsed().ok().map(|span| span.as_secs())
}

/// Whether `reading` is what a look at the system clock may give.
pub closed spec fn clock_reading(reading: Option<u64>) -> bool {
    call_ensures(epoch_elapsed, (), reading)
}

/// The time stamp for a clock reading: the seconds since the Unix epoch, or zero where the clock
/// stands before it.
pub open spec fn time_stamp(elapsed: Option<u64>) -> u64 {
    match elapsed {
        Some(seconds) => seconds,
        None => 0,
    }
}

/// The time stamp for a clock reading.
pub fn unix_time(elapsed: Option<u64>) -> (r: u64)
    ensures
        r == time_stamp(elapsed),
{
    match elapsed {
        Some(seconds) => seconds,
        None => 0,
    }
}

/// The time stamp for now: that of a look at the system clock.
pub fn unix_now() -> (r: u64)
    ensures
        exists|reading: Option<u64>| #[trigger] clock_reading(reading) && r == time_stamp(reading),
{
    let reading: Option<u64> = epoch_elapsed();
    assert(clock_reading(reading));
    unix_time(reading)
}

/// A time stamp is the clock's seconds, or zero for a clock that stands before the epoch.
pub proof fn law_time_stamp_is_the_reading(elapsed: Option<u64>, r: u64)
    requires
        call_ensures(unix_time, (elapsed,), r),
    ensures
        elapsed matches Some(seconds) ==> r == seconds,
        elapsed is None ==> r == 0,
{
}

} // verus!
