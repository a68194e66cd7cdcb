//! What the controller needs from the clock: the hour of the day and the
//! place of the present time relative to sunrise and sunset.

use vstd::prelude::*;
use crate::tracking::ClockReading;

verus! {

/// Hours as the clock device reports them.
#[derive(Clone, Copy, Debug, PartialEq, Eq, Structural)]
pub enum Hours {
    /// Before noon, 12-hour mode.
    AM(u8),
    /// After noon, 12-hour mode.
    PM(u8),
    /// 24-hour mode.
    H24(u8),
}

/// Offset added to an hour after noon.
pub const PM_OFFSET: u8 = 11;

/// The hour as a single number: hours after noon are shifted by eleven.
pub open spec fn hour_of(hours: Hours) -> int {
    match hours {
        Hours::AM(h) => h as int,
        Hours::PM(h) => h + PM_OFFSET,
        Hours::H24(h) => h as int,
    }
}

/// The hour as a single number.
pub fn get_hour(hours: Hours) -> (hour: u8)
    requires
        hour_of(hours) <= u8::MAX,
    ensures
        hour == hour_of(hours),
{
    match hours {
        Hours::AM(h) => h,
        Hours::PM(h) => h + PM_OFFSET,
        Hours::H24(h) => h,
    }
}

/// Whether `now` is at or after an event of the day; an event that does not
/// happen today has never been passed.
pub open spec fn is_after(now: i64, event: Option<i64>) -> bool {
    event.is_some() && now >= event.unwrap()
}

/// Whether the present time is at or after today's sunrise; `false` on a day
/// without one. Times are seconds since the epoch.
pub fn after_sunrise(now: i64, sunrise: Option<i64>) -> (after: bool)
    ensures
        after == is_after(now, sunrise),
{
    match sunrise {
        Some(at) => now >= at,
        None => false,
    }
}

/// Whether the present time is at or after today's sunset; `false` on a day
/// without one. Times are seconds since the epoch.
pub fn after_sunset(now: i64, sunset: Option<i64>) -> (after: bool)
    ensures
        after == is_after(now, sunset),
{
    match sunset {
        Some(at) => now >= at,
        None => false,
    }
}

/// What the clock says about the day at time `now`.
pub fn clock_reading(now: i64, sunrise: Option<i64>, sunset: Option<i64>) -> (reading:
    ClockReading)
    ensures
        reading == (ClockReading {
            after_sunrise: is_after(now, sunrise),
            after_sunset: is_after(now, sunset),
        }),
{
    ClockReading { after_sunrise: after_sunrise(now, sunrise), after_sunset: after_sunset(now, sunset) }
}

} // verus!
