//! The Julian Date: a continuous count of days.
use crate::planets::earth::EarthCodes;
use crate::planets::earth::EarthDate;
use crate::planets::earth::EarthDateTime;
use crate::planets::earth::EarthTime;
use chrono::Datelike;
use chrono::Timelike;
use vstd::prelude::*;

verus! {

/// The Julian Date of the epoch J2000, noon of January 1st, 2000, in half days.
pub const JD2NOON: i64 = 4_903_090;

/// The Julian Date of midnight before January 1st, 1970, in half days.
pub const UNIX_EPOCH: i64 = 4_881_175;

/// The milliseconds in half a day.
pub const HALF_DAY_MILLIS: i64 = 43_200_000;

/// The epoch J2000 in milliseconds since midnight before January 1st, 1970.
pub const J2000_MILLIS: i64 = (JD2NOON - UNIX_EPOCH) * HALF_DAY_MILLIS;

/// The quotient of a division that rounds towards zero, for a positive divisor.
pub open spec fn quotient(a: int, b: int) -> int {
    if a >= 0 {
        a / b
    } else {
        -((-a) / b)
    }
}

/// The whole part of the Julian Date formula for a civil date.
///
/// The months count from March for the leap day, the centuries drop their
/// leap years, and every division rounds towards zero.
pub open spec fn day_count(year: int, month: int, day: int) -> int {
    367 * year - quotient(7 * (year + quotient(month + 9, 12)), 4) - quotient(
        quotient(3 * (year + quotient(month - 9, 7)), 100) + 1,
        4,
    ) + quotient(275 * month, 9) + day
}

/// The calendar date that the proleptic Gregorian calendar gives to an
/// instant, `millis` milliseconds after midnight before January 1st, 1970, in
/// universal time: year, month, day, hour, minute, second. None where the
/// instant lies outside the years that can be told.
pub uninterp spec fn utc_civil(millis: i64) -> Option<(i32, u32, u32, u32, u32, u32)>;

/// `chrono::DateTime::from_timestamp_millis`, then `naive_utc`, read through
/// `Datelike` and `Timelike`: the civil date and time of day of an instant.
/// Months run from 1 to 12, days from 1 to 31, hours to 23, minutes and
/// seconds to 59.
#[verifier::external_body]
fn civil_at(millis: i64) -> (r: Option<(i32, u32, u32, u32, u32, u32)>)
    ensures
        r == utc_civil(millis),
        r matches Some(t) ==> 1 <= t.1 <= 12 && 1 <= t.2 <= 31 && t.3 <= 23 && t.4 <= 59 && t.5
            <= 59,
{
    let t = chrono::DateTime::from_timestamp_millis(millis)?.naive_utc();
    Some((t.year(), t.month(), t.day(), t.hour(), t.minute(), t.second()))
}

/// Julian date calculations.
#[derive(Debug, Default, Clone, Copy)]
pub struct Julian;

impl Julian {
    /// The date that `jd2greg_named` gives for an instant.
    pub open spec fn date_at(millis: i64) -> EarthDate {
        match utc_civil(millis) {
            Some(t) => EarthDate { year: t.0, month: t.1, day: t.2 },
            None => EarthDate { year: 0, month: 0, day: 0 },
        }
    }

    /// The Julian Date of a civil date at midnight, universal time, in half days.
    ///
    /// Half days make the formula's constant of 1721028.5 days whole.
    pub fn half_days(self, year: i32, month: i32, day: i32) -> (r: i64)
        ensures
            r == 2 * day_count(year as int, month as int, day as int) + 3_442_057,
    {
        let y: i64 = year as i64;
        let m: i64 = month as i64;
        let d: i64 = day as i64;
        let leap: i64 = 7 * (y + (m + 9) / 12) / 4;
        let century: i64 = ((3 * (y + (m - 9) / 7) / 100) + 1) / 4;
        let months: i64 = 275 * m / 9;
        2 * (367 * y - leap - century + months + d) + 3_442_057
    }

    /// Converts an instant to a Gregorian date and time of day.
    ///
    /// The instant is given in milliseconds since midnight before January
    /// 1st, 1970. Where it cannot be told as a date, nothing is set.
    pub fn jd2greg_named(self, millis: i64) -> (r: EarthDateTime)
        ensures
            r.date == Self::date_at(millis),
            r.codes.blank(),
            match utc_civil(millis) {
                Some(t) => r.time == (EarthTime {
                    hour: t.3 as u8,
                    minute: t.4 as u8,
                    second: t.5 as u8,
                }) && r.time.hour <= 23 && r.time.minute <= 59 && r.time.second <= 59,
                None => r.blank(),
            },
    {
        match civil_at(millis) {
            Some(t) => EarthDateTime {
                date: EarthDate { year: t.0, month: t.1, day: t.2 },
                codes: EarthCodes::default(),
                time: EarthTime { hour: t.3 as u8, minute: t.4 as u8, second: t.5 as u8 },
            },
            None => EarthDateTime::default(),
        }
    }
}

} // verus!
