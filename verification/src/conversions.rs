//! Conversions between units and notations.
use vstd::prelude::*;

verus! {

/// The radians in a circle, twice pi, as a binary64 encoding.
pub const RIC: u64 = 0x4019_21FB_5444_2D18;

/// The hour of the 12-hour clock that an hour of the 24-hour clock shows as;
/// zero for what is no hour of the day.
pub open spec fn standard_hour(hour: i32) -> u32 {
    if hour == 0 || hour == 12 {
        12
    } else if 1 <= hour <= 11 {
        hour as u32
    } else if 13 <= hour <= 23 {
        (hour - 12) as u32
    } else {
        0
    }
}

/// The half of the day that goes with `standard_hour`.
pub open spec fn standard_half(hour: i32) -> Seq<char> {
    if 0 <= hour <= 11 {
        "AM"@
    } else if 12 <= hour <= 23 {
        "PM"@
    } else {
        "Unknown"@
    }
}

/// Converts an hour of the 24-hour clock to the 12-hour clock.
pub fn military2standard(hour: i32) -> (r: (u32, &'static str))
    ensures
        r.0 == standard_hour(hour),
        r.1@ == standard_half(hour),
{
    if hour < 0 || hour > 23 {
        (0, "Unknown")
    } else if hour == 0 {
        (12, "AM")
    } else if hour < 12 {
        (hour as u32, "AM")
    } else if hour == 12 {
        (12, "PM")
    } else {
        ((hour - 12) as u32, "PM")
    }
}

} // verus!
