//! What every body shares: its eras, its hours, the search for its year.
use crate::binary64::at_most;
use crate::binary64::le;
use crate::binary64::less;
use crate::binary64::lt;
use crate::binary64::ZERO;
use crate::orbit::Season;
use vstd::prelude::*;

verus! {

/// The eras that a date is in.
#[derive(Debug, Default, Clone, Copy, PartialEq, Eq, Structural)]
pub enum Eras {
    /// After Discovery: the year is positive.
    AD,
    /// Before Discovery: the year is zero or negative.
    BD,
    /// No date was given.
    #[default]
    Unknown,
}

impl Eras {
    /// The era a year belongs to.
    pub open spec fn era_of(year: i32) -> Eras {
        if year > 0 {
            Eras::AD
        } else {
            Eras::BD
        }
    }

    /// The name an era goes by.
    pub open spec fn label(self) -> Seq<char> {
        match self {
            Eras::AD => "AD"@,
            Eras::BD => "BD"@,
            Eras::Unknown => "Unknown"@,
        }
    }

    /// The era of a year counted from the body's epoch.
    pub fn of(year: i32) -> (r: Eras)
        ensures
            r == Eras::era_of(year),
    {
        if year > 0 {
            Eras::AD
        } else {
            Eras::BD
        }
    }

    /// The name of the era.
    pub fn as_ref(&self) -> (r: &'static str)
        ensures
            r@ == self.label(),
    {
        match self {
            Eras::AD => "AD",
            Eras::BD => "BD",
            Eras::Unknown => "Unknown",
        }
    }
}

/// The half of the day that an hour falls in.
#[derive(Debug, Default, Clone, Copy, PartialEq, Eq, Structural)]
pub enum HourType {
    /// Ante meridiem
    AM,
    /// Post meridiem
    PM,
    /// Not an hour of the day.
    #[default]
    Unknown,
}

impl HourType {
    /// The half of the day of an hour on the 24-hour clock; hour 24 counts as evening.
    pub open spec fn half_of(hour: u8) -> HourType {
        if hour <= 11 {
            HourType::AM
        } else if hour <= 24 {
            HourType::PM
        } else {
            HourType::Unknown
        }
    }

    /// The name a half of the day goes by.
    pub open spec fn label(self) -> Seq<char> {
        match self {
            HourType::AM => "AM"@,
            HourType::PM => "PM"@,
            HourType::Unknown => "Unknown"@,
        }
    }

    /// The half of the day that an hour of the 24-hour clock falls in.
    pub fn of(hour: u8) -> (r: HourType)
        ensures
            r == HourType::half_of(hour),
    {
        if hour <= 11 {
            HourType::AM
        } else if hour <= 24 {
            HourType::PM
        } else {
            HourType::Unknown
        }
    }

    /// The name of the half of the day.
    pub fn as_ref(&self) -> (r: &'static str)
        ensures
            r@ == self.label(),
    {
        match self {
            HourType::AM => "AM",
            HourType::PM => "PM",
            HourType::Unknown => "Unknown",
        }
    }

    /// Computes the hour type of an hour, by the 24-hour clock, as its name.
    pub fn new(&self, hour: u8) -> (r: String)
        ensures
            r@ == HourType::half_of(hour).label(),
    {
        HourType::of(hour).as_ref().to_string()
    }
}

/// What a time of day consists of.
#[derive(Debug, Default, Clone)]
pub struct Time {
    /// The hour of the body
    pub hour: i32,
    /// The minute of the body
    pub minute: u8,
    /// The second of the body
    pub second: u8,
    /// The code of the time zone
    pub code: String,
    /// The name of the time zone
    pub name: String,
    /// The name of the time zone's offset
    pub offset_name: String,
    /// The half of the day, by name
    pub hour_type: String,
}

/// A date on a body in whole numbers.
#[derive(Debug, Default, Clone, Copy, PartialEq, Eq)]
pub struct SpaceDate {
    /// The year, counted from the body's epoch
    pub year: i32,
    /// The month, from 1
    pub month: u32,
    /// The day of the year, from 1
    pub day: u32,
    /// The solar longitude in whole degrees
    pub ls: u32,
}

impl SpaceDate {
    /// The era the date lies in.
    pub fn era(&self) -> (r: Eras)
        ensures
            r == Eras::era_of(self.year),
    {
        Eras::of(self.year)
    }

    /// The season the date lies in.
    pub fn season(&self) -> (r: Season)
        ensures
            r == Season::at(self.ls),
    {
        Season::Unknown.from(self.ls)
    }
}

/// The year that the count of years starts from.
pub const EPOCH_YEAR: i64 = 12;

/// How the day of the year is to be moved by one orbital period.
#[derive(Debug, Clone, Copy, PartialEq, Eq, Structural)]
pub enum Shift {
    /// The day lies past the end of its year: take one orbital period off.
    Subtract,
    /// The day lies before the start of its year: add one orbital period.
    Add,
    /// The day lies within its year.
    Keep,
}

/// The search for the year that a day since the epoch falls in.
///
/// The day is first walked back, one orbital period at a time, while it is no
/// less than a period; then walked forward while it is negative. The first
/// walk is never taken up again once the second has begun.
#[derive(Debug, Clone, Copy)]
pub struct YearSearch {
    year: i64,
    rewinding: bool,
}

impl YearSearch {
    /// The year counted so far.
    pub closed spec fn count(&self) -> i64 {
        self.year
    }

    /// Whether the walk back through the years is over.
    pub closed spec fn turned(&self) -> bool {
        self.rewinding
    }

    /// The move that a day and an orbital period, both binary64 encodings, call for.
    pub open spec fn shift_of(turned: bool, day: u64, orbital_period: u64) -> Shift {
        if !turned && at_most(orbital_period, day) {
            Shift::Subtract
        } else if less(day, ZERO) {
            Shift::Add
        } else {
            Shift::Keep
        }
    }

    /// A count of years as a year: the nearest `i32`.
    pub open spec fn clamp(count: i64) -> i32 {
        if count > i32::MAX {
            i32::MAX
        } else if count < i32::MIN {
            i32::MIN
        } else {
            count as i32
        }
    }

    /// Starts a search at the epoch year.
    pub fn start() -> (r: YearSearch)
        ensures
            r.count() == EPOCH_YEAR,
            !r.turned(),
    {
        YearSearch { year: EPOCH_YEAR, rewinding: false }
    }

    /// Decides how the day is to be moved, and counts the year with it.
    ///
    /// A period taken off the day is a year gained, a period added a year
    /// lost; the count stops at the ends of `i64`.
    pub fn step(&mut self, day: u64, orbital_period: u64) -> (r: Shift)
        ensures
            r == Self::shift_of(old(self).turned(), day, orbital_period),
            final(self).turned() == (old(self).turned() || r != Shift::Subtract),
            final(self).count() == match r {
                Shift::Subtract => if old(self).count() < i64::MAX {
                    (old(self).count() + 1) as i64
                } else {
                    old(self).count()
                },
                Shift::Add => if old(self).count() > i64::MIN {
                    (old(self).count() - 1) as i64
                } else {
                    old(self).count()
                },
                Shift::Keep => old(self).count(),
            },
    {
        if !self.rewinding && le(orbital_period, day) {
            if self.year < i64::MAX {
                self.year = self.year + 1;
            }
            Shift::Subtract
        } else {
            self.rewinding = true;
            if lt(day, ZERO) {
                if self.year > i64::MIN {
                    self.year = self.year - 1;
                }
                Shift::Add
            } else {
                Shift::Keep
            }
        }
    }

    /// The year found, brought into the range of `i32`.
    pub fn year(&self) -> (r: i32)
        ensures
            r == Self::clamp(self.count()),
    {
        if self.year > i32::MAX as i64 {
            i32::MAX
        } else if self.year < i32::MIN as i64 {
            i32::MIN
        } else {
            self.year as i32
        }
    }
}

} // verus!
