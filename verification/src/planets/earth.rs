//! The Earth: its dates, its times of day, its time zones, its calendars.
use crate::julian::Julian;
use crate::julian::J2000_MILLIS;
use crate::text::same_text;
use std::str::FromStr;
use vstd::prelude::*;

verus! {

/// A date on Earth.
#[derive(Debug, Clone, Copy, PartialEq, Eq, Structural)]
pub struct EarthDate {
    /// The year on Earth
    pub year: i32,
    /// The month on Earth
    pub month: u32,
    /// The day on Earth
    pub day: u32,
}

impl Default for EarthDate {
    fn default() -> (r: EarthDate)
        ensures
            r == (EarthDate { year: 0, month: 0, day: 0 }),
    {
        EarthDate { year: 0, month: 0, day: 0 }
    }
}

impl EarthDate {
    /// Returns the date of the epoch J2000, noon of the first day of the year 2000.
    pub fn julian_epoch() -> (r: EarthDate)
        ensures
            r == Julian::date_at(J2000_MILLIS),
    {
        Julian.jd2greg_named(J2000_MILLIS).date
    }
}

/// The codes that a calendar gives to a year, a month and a day.
#[derive(Debug)]
pub struct EarthCodes {
    /// The code for the year
    pub year: String,
    /// The code for the month
    pub month: String,
    /// The code for the day
    pub day: String,
}

impl EarthCodes {
    /// Whether none of the three codes is set.
    pub open spec fn blank(&self) -> bool {
        self.year@.len() == 0 && self.month@.len() == 0 && self.day@.len() == 0
    }
}

impl Default for EarthCodes {
    fn default() -> (r: EarthCodes)
        ensures
            r.blank(),
    {
        EarthCodes { year: String::new(), month: String::new(), day: String::new() }
    }
}

/// A time of day on Earth.
#[derive(Debug, Clone, Copy, PartialEq, Eq, Structural)]
pub struct EarthTime {
    /// The hour on Earth
    pub hour: u8,
    /// The minute on Earth
    pub minute: u8,
    /// The second on Earth
    pub second: u8,
}

impl Default for EarthTime {
    fn default() -> (r: EarthTime)
        ensures
            r == (EarthTime { hour: 0, minute: 0, second: 0 }),
    {
        EarthTime { hour: 0, minute: 0, second: 0 }
    }
}

/// A date and a time of day on Earth, with the codes of a calendar.
#[derive(Debug)]
pub struct EarthDateTime {
    /// The date
    pub date: EarthDate,
    /// The codes
    pub codes: EarthCodes,
    /// The time of day
    pub time: EarthTime,
}

/// What a clock in the time zone called `name` shows at an instant, `millis`
/// milliseconds after midnight before January 1st, 1970, universal time,
/// written out after the pattern `format`. None where no zone of the database
/// goes by that name, or the instant lies outside the years that can be told.
pub uninterp spec fn zone_stamp(name: Seq<char>, millis: i64, format: Seq<char>) -> Option<
    Seq<char>,
>;

/// `chrono::DateTime::with_timezone` and `format`, on the instant that
/// `chrono::DateTime::from_timestamp_millis` makes of `millis` and the zone
/// that `chrono_tz::Tz::from_str` finds for `name`: the date and time of day
/// in that zone, written out. The pattern is the one this library writes
/// with; chrono gives up on patterns it cannot read.
#[verifier::external_body]
fn stamp_at(name: &str, millis: i64, format: &str) -> (r: Option<String>)
    requires
        format@ == STAMP@,
    ensures
        match r {
            Some(stamp) => zone_stamp(name@, millis, format@) == Some(stamp@),
            None => zone_stamp(name@, millis, format@) is None,
        },
{
    let zone = chrono_tz::Tz::from_str(name).ok()?;
    let now = chrono::DateTime::from_timestamp_millis(millis)?;
    Some(now.with_timezone(&zone).format(format).to_string())
}

/// How a date and time of day is written: year, month and day, the time by
/// the 12-hour clock, and the abbreviation of the time zone.
pub const STAMP: &'static str = "%Y/%m/%d %r %Z";

impl EarthDateTime {
    /// Whether nothing is set: midnight of day zero, without codes.
    pub open spec fn blank(&self) -> bool {
        &&& self.date == (EarthDate { year: 0, month: 0, day: 0 })
        &&& self.time == (EarthTime { hour: 0, minute: 0, second: 0 })
        &&& self.codes.blank()
    }

    /// What `set_datetime` answers: the place and what its clock shows.
    pub open spec fn answer(input: Seq<char>, now: i64, local: (Seq<char>, Seq<char>)) -> (
        Seq<char>,
        Seq<char>,
    ) {
        match zone_stamp(input, now, STAMP@) {
            Some(stamp) => (input, stamp),
            None => local,
        }
    }

    /// Tells the date and time of day at the instant `now` in the time zone
    /// that `input` names.
    ///
    /// `now` counts milliseconds from midnight before January 1st, 1970,
    /// universal time. Where no time zone goes by the name `input`, the
    /// answer is `local`: the name of the place the caller is at, and what
    /// its clock shows.
    pub fn set_datetime(input: String, now: i64, local: (String, String)) -> (r: Vec<
        (String, String),
    >)
        ensures
            r@.len() == 1,
            (r@[0].0@, r@[0].1@) == Self::answer(input@, now, (local.0@, local.1@)),
    {
        let mut list: Vec<(String, String)> = Vec::new();
        match stamp_at(input.as_str(), now, STAMP) {
            Some(stamp) => list.push((input, stamp)),
            None => list.push(local),
        }
        list
    }
}

impl Default for EarthDateTime {
    fn default() -> (r: EarthDateTime)
        ensures
            r.blank(),
    {
        EarthDateTime {
            date: EarthDate::default(),
            codes: EarthCodes::default(),
            time: EarthTime::default(),
        }
    }
}

/// The name of the time zone at `index` of the time zone database, if it has that many.
pub uninterp spec fn zone_name(index: int) -> Option<Seq<char>>;

/// `chrono_tz::TZ_VARIANTS`, read at one index with `get`, and the `to_string`
/// of the `chrono_tz::Tz` found there: the name that the time zone displays
/// as, or nothing past the end of the table.
#[verifier::external_body]
fn zone_at(index: usize) -> (r: Option<String>)
    ensures
        match r {
            Some(name) => zone_name(index as int) == Some(name@),
            None => zone_name(index as int) is None,
        },
{
    Some(chrono_tz::TZ_VARIANTS.get(index)?.to_string())
}

/// Whether the database has a zone at every index below `count` and none at `count`.
pub open spec fn zones_end_at(count: int) -> bool {
    &&& 0 <= count
    &&& zone_name(count) is None
    &&& forall|i: int| 0 <= i < count ==> (#[trigger] zone_name(i)) is Some
}

/// The names of the first `count` zones of the database, in its order.
pub open spec fn zone_names(count: int) -> Seq<Seq<char>> {
    Seq::new(count as nat, |i: int| zone_name(i).unwrap())
}

/// The characters of each string of a list.
pub open spec fn texts(list: Seq<String>) -> Seq<Seq<char>> {
    list.map_values(|s: String| s@)
}

/// The time zones of the Earth.
#[derive(Debug, Default, Clone, Copy)]
pub struct EarthTimeZones;

impl EarthTimeZones {
    /// Appends the name of every time zone of the database to `list`, in the
    /// order of the database.
    pub fn all_timezones(list: Vec<String>) -> (r: Vec<String>)
        ensures
            exists|count: int|
                zones_end_at(count) && texts(r@) == texts(list@) + #[trigger] zone_names(count),
    {
        let ghost before = list@;
        let mut list = list;
        let mut index: usize = 0;
        loop
            invariant
                list@.len() == before.len() + index,
                texts(list@) == texts(before) + zone_names(index as int),
                forall|i: int| 0 <= i < index ==> (#[trigger] zone_name(i)) is Some,
            ensures
                zones_end_at(index as int),
                texts(list@) == texts(before) + zone_names(index as int),
            decreases usize::MAX - index,
        {
            match zone_at(index) {
                None => {
                    break ;
                },
                Some(name) => {
                    let ghost was = list@;
                    list.push(name);
                    proof {
                        // The list fits a vector, so the index fits its type.
                        assert(list@.len() == list.len());
                        assert(texts(list@) =~= texts(was).push(name@));
                        assert(zone_names(index + 1) =~= zone_names(index as int).push(name@));
                    }
                    index = index + 1;
                },
            }
        }
        list
    }
}

/// The calendars of the Earth that a date can be written in.
#[derive(Debug, Clone, Copy, PartialEq, Eq, Structural)]
pub enum Calendar {
    /// The Gregorian calendar
    Gregorian,
    /// The Julian calendar
    Julian,
    /// The Indian national calendar
    Indian,
    /// The ISO calendar
    Iso,
    /// The Chinese calendar
    Chinese,
    /// The calendar of the Republic of China
    Roc,
    /// The Ethiopian calendar, counted from the creation of the world
    EthiopianAlem,
    /// The Ethiopian calendar, counted from the incarnation
    EthiopianMihret,
    /// The Japanese calendar, in the Heisei era
    JapaneseHeisei,
    /// The Japanese calendar, in the Reiwa era
    JapaneseReiwa,
    /// The Japanese calendar, in the Meiji era
    JapaneseMeiji,
    /// The Japanese calendar, in the Taisho era
    JapaneseTaisho,
    /// The Japanese calendar, in the Showa era
    JapaneseShowa,
    /// The Japanese calendar with its historical eras
    JapaneseExtended,
    /// The Persian calendar
    Persian,
    /// The Coptic calendar
    Coptic,
    /// The Hebrew calendar
    Hebrew,
    /// The Buddhist calendar
    Buddhist,
    /// The civil Islamic calendar
    IslamicCivil,
    /// The observational Islamic calendar
    IslamicObservational,
    /// The tabular Islamic calendar
    IslamicTabular,
    /// The Islamic calendar of Umm al-Qura
    IslamicUmmAlQura,
}

impl Calendar {
    /// The identifier a calendar is asked for by.
    pub open spec fn label(self) -> Seq<char> {
        match self {
            Calendar::Gregorian => "gregorian"@,
            Calendar::Julian => "julian"@,
            Calendar::Indian => "indian"@,
            Calendar::Iso => "iso"@,
            Calendar::Chinese => "chinese"@,
            Calendar::Roc => "roc"@,
            Calendar::EthiopianAlem => "ethiopian_alem"@,
            Calendar::EthiopianMihret => "ethiopian_mihret"@,
            Calendar::JapaneseHeisei => "japanese_heisei"@,
            Calendar::JapaneseReiwa => "japanese_reiwa"@,
            Calendar::JapaneseMeiji => "japanese_meiji"@,
            Calendar::JapaneseTaisho => "japanese_taisho"@,
            Calendar::JapaneseShowa => "japanese_showa"@,
            Calendar::JapaneseExtended => "japanese_extended"@,
            Calendar::Persian => "persian"@,
            Calendar::Coptic => "coptic"@,
            Calendar::Hebrew => "hewbrew"@,
            Calendar::Buddhist => "buddhist"@,
            Calendar::IslamicCivil => "islamic_civil"@,
            Calendar::IslamicObservational => "islamic_observational"@,
            Calendar::IslamicTabular => "islamic_tabular"@,
            Calendar::IslamicUmmAlQura => "islamic_umm_al_qura"@,
        }
    }

    /// The calendar at a place of the list of calendars, from 0.
    pub open spec fn nth(place: int) -> Option<Calendar> {
        if place == 0 {
            Some(Calendar::Gregorian)
        } else if place == 1 {
            Some(Calendar::Julian)
        } else if place == 2 {
            Some(Calendar::Indian)
        } else if place == 3 {
            Some(Calendar::Iso)
        } else if place == 4 {
            Some(Calendar::Chinese)
        } else if place == 5 {
            Some(Calendar::Roc)
        } else if place == 6 {
            Some(Calendar::EthiopianAlem)
        } else if place == 7 {
            Some(Calendar::EthiopianMihret)
        } else if place == 8 {
            Some(Calendar::JapaneseHeisei)
        } else if place == 9 {
            Some(Calendar::JapaneseReiwa)
        } else if place == 10 {
            Some(Calendar::JapaneseMeiji)
        } else if place == 11 {
            Some(Calendar::JapaneseTaisho)
        } else if place == 12 {
            Some(Calendar::JapaneseShowa)
        } else if place == 13 {
            Some(Calendar::JapaneseExtended)
        } else if place == 14 {
            Some(Calendar::Persian)
        } else if place == 15 {
            Some(Calendar::Coptic)
        } else if place == 16 {
            Some(Calendar::Hebrew)
        } else if place == 17 {
            Some(Calendar::Buddhist)
        } else if place == 18 {
            Some(Calendar::IslamicCivil)
        } else if place == 19 {
            Some(Calendar::IslamicObservational)
        } else if place == 20 {
            Some(Calendar::IslamicTabular)
        } else if place == 21 {
            Some(Calendar::IslamicUmmAlQura)
        } else {
            None
        }
    }

    /// The first calendar, from `place` of the list onwards, that goes by `name`.
    pub open spec fn named(name: Seq<char>, place: int) -> Option<Calendar>
        decreases CALENDARS - place,
    {
        if place < 0 || place >= CALENDARS {
            None
        } else {
            match Calendar::nth(place) {
                Some(calendar) if calendar.label() == name => Some(calendar),
                _ => Calendar::named(name, place + 1),
            }
        }
    }

    /// The place of a calendar in the list of calendars.
    pub open spec fn place(self) -> int {
        match self {
            Calendar::Gregorian => 0,
            Calendar::Julian => 1,
            Calendar::Indian => 2,
            Calendar::Iso => 3,
            Calendar::Chinese => 4,
            Calendar::Roc => 5,
            Calendar::EthiopianAlem => 6,
            Calendar::EthiopianMihret => 7,
            Calendar::JapaneseHeisei => 8,
            Calendar::JapaneseReiwa => 9,
            Calendar::JapaneseMeiji => 10,
            Calendar::JapaneseTaisho => 11,
            Calendar::JapaneseShowa => 12,
            Calendar::JapaneseExtended => 13,
            Calendar::Persian => 14,
            Calendar::Coptic => 15,
            Calendar::Hebrew => 16,
            Calendar::Buddhist => 17,
            Calendar::IslamicCivil => 18,
            Calendar::IslamicObservational => 19,
            Calendar::IslamicTabular => 20,
            Calendar::IslamicUmmAlQura => 21,
        }
    }

    /// No two calendars go by the same identifier.
    pub proof fn lemma_labels_differ(a: Calendar, b: Calendar)
        requires
            a != b,
        ensures
            a.label() != b.label(),
    {
        reveal_strlit("gregorian");
        reveal_strlit("julian");
        reveal_strlit("indian");
        reveal_strlit("iso");
        reveal_strlit("chinese");
        reveal_strlit("roc");
        reveal_strlit("ethiopian_alem");
        reveal_strlit("ethiopian_mihret");
        reveal_strlit("japanese_heisei");
        reveal_strlit("japanese_reiwa");
        reveal_strlit("japanese_meiji");
        reveal_strlit("japanese_taisho");
        reveal_strlit("japanese_showa");
        reveal_strlit("japanese_extended");
        reveal_strlit("persian");
        reveal_strlit("coptic");
        reveal_strlit("hewbrew");
        reveal_strlit("buddhist");
        reveal_strlit("islamic_civil");
        reveal_strlit("islamic_observational");
        reveal_strlit("islamic_tabular");
        reveal_strlit("islamic_umm_al_qura");
        let (x, y) = (a.label(), b.label());
        // Identifiers of one length differ in their first or their tenth letter.
        assert(x.len() != y.len() || x[0] != y[0] || x[9] != y[9]);
    }

    /// The identifier of a calendar names that calendar, from wherever
    /// before it the list is searched.
    pub proof fn lemma_label_names(self, from: int)
        requires
            0 <= from <= self.place(),
        ensures
            Calendar::named(self.label(), from) == Some(self),
        decreases self.place() - from,
    {
        if from < self.place() {
            self.lemma_label_names(from + 1);
            Self::lemma_labels_differ(Calendar::nth(from).unwrap(), self);
        }
    }

    /// The calendar at a place of the list of calendars, from 0.
    pub fn at(place: usize) -> (r: Option<Calendar>)
        ensures
            r == Calendar::nth(place as int),
    {
        if place == 0 {
            Some(Calendar::Gregorian)
        } else if place == 1 {
            Some(Calendar::Julian)
        } else if place == 2 {
            Some(Calendar::Indian)
        } else if place == 3 {
            Some(Calendar::Iso)
        } else if place == 4 {
            Some(Calendar::Chinese)
        } else if place == 5 {
            Some(Calendar::Roc)
        } else if place == 6 {
            Some(Calendar::EthiopianAlem)
        } else if place == 7 {
            Some(Calendar::EthiopianMihret)
        } else if place == 8 {
            Some(Calendar::JapaneseHeisei)
        } else if place == 9 {
            Some(Calendar::JapaneseReiwa)
        } else if place == 10 {
            Some(Calendar::JapaneseMeiji)
        } else if place == 11 {
            Some(Calendar::JapaneseTaisho)
        } else if place == 12 {
            Some(Calendar::JapaneseShowa)
        } else if place == 13 {
            Some(Calendar::JapaneseExtended)
        } else if place == 14 {
            Some(Calendar::Persian)
        } else if place == 15 {
            Some(Calendar::Coptic)
        } else if place == 16 {
            Some(Calendar::Hebrew)
        } else if place == 17 {
            Some(Calendar::Buddhist)
        } else if place == 18 {
            Some(Calendar::IslamicCivil)
        } else if place == 19 {
            Some(Calendar::IslamicObservational)
        } else if place == 20 {
            Some(Calendar::IslamicTabular)
        } else if place == 21 {
            Some(Calendar::IslamicUmmAlQura)
        } else {
            None
        }
    }

    /// The identifier of the calendar.
    pub fn as_ref(&self) -> (r: &'static str)
        ensures
            r@ == self.label(),
    {
        match self {
            Calendar::Gregorian => "gregorian",
            Calendar::Julian => "julian",
            Calendar::Indian => "indian",
            Calendar::Iso => "iso",
            Calendar::Chinese => "chinese",
            Calendar::Roc => "roc",
            Calendar::EthiopianAlem => "ethiopian_alem",
            Calendar::EthiopianMihret => "ethiopian_mihret",
            Calendar::JapaneseHeisei => "japanese_heisei",
            Calendar::JapaneseReiwa => "japanese_reiwa",
            Calendar::JapaneseMeiji => "japanese_meiji",
            Calendar::JapaneseTaisho => "japanese_taisho",
            Calendar::JapaneseShowa => "japanese_showa",
            Calendar::JapaneseExtended => "japanese_extended",
            Calendar::Persian => "persian",
            Calendar::Coptic => "coptic",
            Calendar::Hebrew => "hewbrew",
            Calendar::Buddhist => "buddhist",
            Calendar::IslamicCivil => "islamic_civil",
            Calendar::IslamicObservational => "islamic_observational",
            Calendar::IslamicTabular => "islamic_tabular",
            Calendar::IslamicUmmAlQura => "islamic_umm_al_qura",
        }
    }
}

/// The number of calendars.
pub const CALENDARS: usize = 22;

/// The calendars of the Earth, by name.
#[derive(Debug, Default, Clone, Copy)]
pub struct RustSolarCalendar;

impl RustSolarCalendar {
    /// Finds the calendar that `calendar_type` names: the first of the list
    /// that goes by it, or none where no calendar does.
    pub fn recognise(self, calendar_type: &str) -> (r: Option<Calendar>)
        ensures
            r == Calendar::named(calendar_type@, 0),
    {
        let mut place: usize = 0;
        while place < CALENDARS
            invariant
                place <= CALENDARS,
                Calendar::named(calendar_type@, 0) == Calendar::named(calendar_type@, place as int),
            decreases CALENDARS - place,
        {
            match Calendar::at(place) {
                Some(calendar) => {
                    if same_text(calendar.as_ref(), calendar_type) {
                        return Some(calendar);
                    }
                },
                None => {},
            }
            place = place + 1;
        }
        None
    }
}

} // verus!
