//! Mars: its orbit and its time zones.
use crate::kepler::HourType;
use crate::kepler::Time;
use crate::binary64::lemma_scaled_increases;
use crate::binary64::ONE;
use crate::orbit::OrbitalElements;
use crate::orbit::PerihelionWindow;
use crate::orbit::Type;
use crate::text::same_text;
use vstd::prelude::*;

verus! {

/// The Julian Date of the epoch of Mars: 2442765.667, December 19th, 1975.
pub const EPOCH: u64 = 0x4142_A306_D560_4189;

/// The orbital eccentricity of Mars: 0.0934.
pub const ORBITAL_ECCENTRICITY: u64 = 0x3FB7_E90F_F972_4745;

/// The orbital period of Mars in sols: 668.6.
pub const ORBITAL_PERIOD: u64 = 0x4084_E4CC_CCCC_CCCD;

/// The rotational period of Mars in seconds: 88775.245.
pub const ROTATIONAL_PERIOD: u64 = 0x40F5_AC73_EB85_1EB8;

/// The semi-major axis of the orbit of Mars in astronomical units: 1.52.
pub const SEMIMAJOR: u64 = 0x3FF8_51EB_851E_B852;

/// The sols that open and close the month of the perihelion: 468.5 and 514.6.
pub const PERIHELION_MONTH: (u64, u64) = (0x407D_4800_0000_0000, 0x4080_14CC_CCCC_CCCD);

/// The solar longitudes that open and close the month of the perihelion: 240 and 270 degrees.
pub const PERIHELION_LS: (u64, u64) = (0x406E_0000_0000_0000, 0x4070_E000_0000_0000);

/// The solar longitude of the perihelion: 251 degrees.
pub const PERIHELION: u64 = 0x406F_6000_0000_0000;

/// The fourth planet from the sun.
#[derive(Debug, Clone, Copy)]
pub struct Mars;

impl Mars {
    /// The orbital elements of Mars. Its orbit is an ellipse.
    pub fn elements(&self) -> (r: OrbitalElements)
        ensures
            r.spec_semimajor() == SEMIMAJOR,
            r.spec_eccentricity() == ORBITAL_ECCENTRICITY,
            r.spec_orbital_period() == ORBITAL_PERIOD,
            r.spec_rotational_period() == ROTATIONAL_PERIOD,
            r.spec_epoch() == EPOCH,
            Type::of(r.spec_eccentricity()) == Type::Elliptical,
    {
        proof {
            crate::binary64::lemma_one();
            lemma_scaled_increases(0, ORBITAL_ECCENTRICITY);
            lemma_scaled_increases(ORBITAL_ECCENTRICITY, ONE);
        }
        let made = OrbitalElements::new(
            SEMIMAJOR,
            ORBITAL_ECCENTRICITY,
            ORBITAL_PERIOD,
            ROTATIONAL_PERIOD,
            EPOCH,
        );
        made.unwrap()
    }

    /// The perihelion of Mars: in the month from sol 468.5 to sol 514.6, at 251 degrees.
    pub fn perihelion(&self) -> (r: PerihelionWindow)
        ensures
            r.spec_month() == PERIHELION_MONTH,
            r.spec_ls() == PERIHELION_LS,
            r.spec_perihelion() == PERIHELION,
    {
        proof {
            lemma_scaled_increases(PERIHELION_MONTH.0, PERIHELION_MONTH.1);
            lemma_scaled_increases(PERIHELION_LS.0, PERIHELION);
            lemma_scaled_increases(PERIHELION, PERIHELION_LS.1);
        }
        let made = PerihelionWindow::new(PERIHELION_MONTH, PERIHELION_LS, PERIHELION);
        made.unwrap()
    }
}

/// Why a text names no time zone.
#[derive(Debug, Clone, Copy, PartialEq, Eq, Structural)]
pub enum TzError {
    /// No time zone goes by that name.
    NotFound,
    /// A time zone was found where none was looked for.
    Found,
}

/// A band of longitudes, in degrees from -180 to 180.
#[derive(Debug, Clone, Copy, PartialEq, Eq, Structural)]
pub struct Longitude {
    /// Where the band begins
    pub east: i32,
    /// Where the band ends
    pub west: i32,
}

/// The time zones of Mars.
///
/// A zone lies a whole number of decisols from the prime meridian, from five
/// to the west to five to the east. One decisol is 2.5 hours; there is no
/// daylight saving time on Mars.
#[derive(Debug, Default, Clone, Copy, PartialEq, Eq, Structural)]
pub enum Martian {
    /// Mars Coordinated Time - 5
    MTCn5,
    /// Mars Coordinated Time - 4
    MTCn4,
    /// Mars Coordinated Time - 3
    MTCn3,
    /// Mars Coordinated Time - 2
    MTCn2,
    /// Mars Coordinated Time - 1
    MTCn1,
    /// Mars Coordinated Time
    #[default]
    MTC,
    /// Mars Coordinated Time + 1
    MTCp1,
    /// Mars Coordinated Time + 2
    MTCp2,
    /// Mars Coordinated Time + 3
    MTCp3,
    /// Mars Coordinated Time + 4
    MTCp4,
    /// Mars Coordinated Time + 5
    MTCp5,
}

impl Martian {
    /// The decisols that a zone lies east of the prime meridian.
    pub open spec fn spec_decisols(self) -> int {
        match self {
            Martian::MTCn5 => -5,
            Martian::MTCn4 => -4,
            Martian::MTCn3 => -3,
            Martian::MTCn2 => -2,
            Martian::MTCn1 => -1,
            Martian::MTC => 0,
            Martian::MTCp1 => 1,
            Martian::MTCp2 => 2,
            Martian::MTCp3 => 3,
            Martian::MTCp4 => 4,
            Martian::MTCp5 => 5,
        }
    }

    /// The identifier of a zone.
    pub open spec fn label(self) -> Seq<char> {
        match self {
            Martian::MTCn5 => "MTCn5"@,
            Martian::MTCn4 => "MTCn4"@,
            Martian::MTCn3 => "MTCn3"@,
            Martian::MTCn2 => "MTCn2"@,
            Martian::MTCn1 => "MTCn1"@,
            Martian::MTC => "MTC"@,
            Martian::MTCp1 => "MTCp1"@,
            Martian::MTCp2 => "MTCp2"@,
            Martian::MTCp3 => "MTCp3"@,
            Martian::MTCp4 => "MTCp4"@,
            Martian::MTCp5 => "MTCp5"@,
        }
    }

    /// The way a zone is written: `MTC`, a sign and the decisols.
    pub open spec fn spec_notation(self) -> Seq<char> {
        match self {
            Martian::MTCn5 => "MTC-5"@,
            Martian::MTCn4 => "MTC-4"@,
            Martian::MTCn3 => "MTC-3"@,
            Martian::MTCn2 => "MTC-2"@,
            Martian::MTCn1 => "MTC-1"@,
            Martian::MTC => "MTC"@,
            Martian::MTCp1 => "MTC+1"@,
            Martian::MTCp2 => "MTC+2"@,
            Martian::MTCp3 => "MTC+3"@,
            Martian::MTCp4 => "MTC+4"@,
            Martian::MTCp5 => "MTC+5"@,
        }
    }

    /// The code of a zone.
    pub open spec fn spec_code(self) -> Seq<char> {
        match self {
            Martian::MTCn5 => "AMT"@,
            Martian::MTCn4 => "OT"@,
            Martian::MTCn3 => "TT"@,
            Martian::MTCn2 => "MT"@,
            Martian::MTCn1 => "AGT"@,
            Martian::MTC => "NT"@,
            Martian::MTCp1 => "ABT"@,
            Martian::MTCp2 => "HT"@,
            Martian::MTCp3 => "UT"@,
            Martian::MTCp4 => "ET"@,
            Martian::MTCp5 => "ACT"@,
        }
    }

    /// The name of a zone.
    pub open spec fn spec_named(self) -> Seq<char> {
        match self {
            Martian::MTCn5 => "Amazonis Time"@,
            Martian::MTCn4 => "Olympus Time"@,
            Martian::MTCn3 => "Tharsis Time"@,
            Martian::MTCn2 => "Marineris Time"@,
            Martian::MTCn1 => "Argyre Time"@,
            Martian::MTC => "Noachis Time"@,
            Martian::MTCp1 => "Arabia Time"@,
            Martian::MTCp2 => "Hellas Time"@,
            Martian::MTCp3 => "Utopia Time"@,
            Martian::MTCp4 => "Elysium Time"@,
            Martian::MTCp5 => "Arcadia Time"@,
        }
    }

    /// The hours of a zone's offset, written out.
    pub open spec fn spec_offset(self) -> Seq<char> {
        match self {
            Martian::MTCn5 => "-12.5"@,
            Martian::MTCn4 => "-10.0"@,
            Martian::MTCn3 => "-7.5"@,
            Martian::MTCn2 => "-5.0"@,
            Martian::MTCn1 => "-2.5"@,
            Martian::MTC => "0.0"@,
            Martian::MTCp1 => "2.5"@,
            Martian::MTCp2 => "5.0"@,
            Martian::MTCp3 => "7.5"@,
            Martian::MTCp4 => "10.0"@,
            Martian::MTCp5 => "12.5"@,
        }
    }

    /// The band of longitudes of a zone.
    ///
    /// The two outermost zones are half as wide as the others.
    pub open spec fn spec_prime(self) -> Longitude {
        let d = self.spec_decisols();
        Longitude {
            east: (if d == -5 { -180 } else { 36 * d - 18 }) as i32,
            west: (if d == 5 { 180 } else { 36 * d + 18 }) as i32,
        }
    }

    /// Where the band of a zone begins, written out.
    pub open spec fn spec_east(self) -> Seq<char> {
        match self {
            Martian::MTCn5 => "-180"@,
            Martian::MTCn4 => "-162"@,
            Martian::MTCn3 => "-126"@,
            Martian::MTCn2 => "-90"@,
            Martian::MTCn1 => "-54"@,
            Martian::MTC => "-18"@,
            Martian::MTCp1 => "18"@,
            Martian::MTCp2 => "54"@,
            Martian::MTCp3 => "90"@,
            Martian::MTCp4 => "126"@,
            Martian::MTCp5 => "162"@,
        }
    }

    /// Where the band of a zone ends, written out.
    pub open spec fn spec_west(self) -> Seq<char> {
        match self {
            Martian::MTCn5 => "-162"@,
            Martian::MTCn4 => "-126"@,
            Martian::MTCn3 => "-90"@,
            Martian::MTCn2 => "-54"@,
            Martian::MTCn1 => "-18"@,
            Martian::MTC => "18"@,
            Martian::MTCp1 => "54"@,
            Martian::MTCp2 => "90"@,
            Martian::MTCp3 => "126"@,
            Martian::MTCp4 => "162"@,
            Martian::MTCp5 => "180"@,
        }
    }

    /// The property of a zone that goes by the name `prop`.
    pub open spec fn property(self, prop: Seq<char>) -> Option<Seq<char>> {
        if prop == "Code"@ {
            Some(self.spec_code())
        } else if prop == "Name"@ {
            Some(self.spec_named())
        } else if prop == "Offset"@ {
            Some(self.spec_offset())
        } else if prop == "East"@ {
            Some(self.spec_east())
        } else if prop == "West"@ {
            Some(self.spec_west())
        } else {
            None
        }
    }

    /// The zone that lies `decisols` east of the prime meridian.
    pub open spec fn at(decisols: int) -> Option<Martian> {
        if decisols == -5 {
            Some(Martian::MTCn5)
        } else if decisols == -4 {
            Some(Martian::MTCn4)
        } else if decisols == -3 {
            Some(Martian::MTCn3)
        } else if decisols == -2 {
            Some(Martian::MTCn2)
        } else if decisols == -1 {
            Some(Martian::MTCn1)
        } else if decisols == 0 {
            Some(Martian::MTC)
        } else if decisols == 1 {
            Some(Martian::MTCp1)
        } else if decisols == 2 {
            Some(Martian::MTCp2)
        } else if decisols == 3 {
            Some(Martian::MTCp3)
        } else if decisols == 4 {
            Some(Martian::MTCp4)
        } else if decisols == 5 {
            Some(Martian::MTCp5)
        } else {
            None
        }
    }

    /// The first zone, from `from` decisols eastwards, that is written as `text`.
    pub open spec fn written(text: Seq<char>, from: int) -> Option<Martian>
        decreases 6 - from,
    {
        if from > 5 {
            None
        } else {
            match Martian::at(from) {
                Some(zone) if zone.spec_notation() == text => Some(zone),
                _ => Martian::written(text, from + 1),
            }
        }
    }

    /// Every zone is the one at its decisols.
    pub proof fn lemma_at_decisols(self)
        ensures
            -5 <= self.spec_decisols() <= 5,
            Martian::at(self.spec_decisols()) == Some(self),
    {
    }

    /// No two zones are written alike.
    pub proof fn lemma_notations_differ(a: Martian, b: Martian)
        requires
            a != b,
        ensures
            a.spec_notation() != b.spec_notation(),
    {
        reveal_strlit("MTC-5");
        reveal_strlit("MTC-4");
        reveal_strlit("MTC-3");
        reveal_strlit("MTC-2");
        reveal_strlit("MTC-1");
        reveal_strlit("MTC");
        reveal_strlit("MTC+1");
        reveal_strlit("MTC+2");
        reveal_strlit("MTC+3");
        reveal_strlit("MTC+4");
        reveal_strlit("MTC+5");
        let (x, y) = (a.spec_notation(), b.spec_notation());
        if x.len() == y.len() && x.len() == 5 {
            assert(x[3] != y[3] || x[4] != y[4]);
        }
    }

    /// What a zone is written as reads back as that zone, from wherever
    /// to its west the reading starts.
    pub proof fn lemma_written_reads_back(self, from: int)
        requires
            -5 <= from <= self.spec_decisols(),
        ensures
            Martian::written(self.spec_notation(), from) == Some(self),
        decreases self.spec_decisols() - from,
    {
        if from < self.spec_decisols() {
            self.lemma_written_reads_back(from + 1);
            Self::lemma_notations_differ(Martian::at(from).unwrap(), self);
        }
    }

    /// The bands lie side by side from -180 to 180 degrees: each begins where
    /// the one to its west ends.
    pub proof fn lemma_bands_adjoin(self)
        ensures
            self.spec_prime().east < self.spec_prime().west,
            self.spec_decisols() == -5 ==> self.spec_prime().east == -180,
            self.spec_decisols() == 5 ==> self.spec_prime().west == 180,
            self.spec_decisols() > -5 ==> Martian::at(self.spec_decisols() - 1).unwrap().spec_prime().west
                == self.spec_prime().east,
    {
    }

    /// The decisols that the zone lies east of the prime meridian, from -5 to 5.
    pub fn decisols(&self) -> (r: i32)
        ensures
            r == self.spec_decisols(),
    {
        match self {
            Martian::MTCn5 => -5,
            Martian::MTCn4 => -4,
            Martian::MTCn3 => -3,
            Martian::MTCn2 => -2,
            Martian::MTCn1 => -1,
            Martian::MTC => 0,
            Martian::MTCp1 => 1,
            Martian::MTCp2 => 2,
            Martian::MTCp3 => 3,
            Martian::MTCp4 => 4,
            Martian::MTCp5 => 5,
        }
    }

    /// The zone that lies `decisols` east of the prime meridian, if there is one.
    pub fn from_decisols(decisols: i32) -> (r: Option<Martian>)
        ensures
            r == Martian::at(decisols as int),
    {
        if decisols == -5 {
            Some(Martian::MTCn5)
        } else if decisols == -4 {
            Some(Martian::MTCn4)
        } else if decisols == -3 {
            Some(Martian::MTCn3)
        } else if decisols == -2 {
            Some(Martian::MTCn2)
        } else if decisols == -1 {
            Some(Martian::MTCn1)
        } else if decisols == 0 {
            Some(Martian::MTC)
        } else if decisols == 1 {
            Some(Martian::MTCp1)
        } else if decisols == 2 {
            Some(Martian::MTCp2)
        } else if decisols == 3 {
            Some(Martian::MTCp3)
        } else if decisols == 4 {
            Some(Martian::MTCp4)
        } else if decisols == 5 {
            Some(Martian::MTCp5)
        } else {
            None
        }
    }

    /// The identifier of the zone.
    pub fn as_ref(&self) -> (r: &'static str)
        ensures
            r@ == self.label(),
    {
        match self {
            Martian::MTCn5 => "MTCn5",
            Martian::MTCn4 => "MTCn4",
            Martian::MTCn3 => "MTCn3",
            Martian::MTCn2 => "MTCn2",
            Martian::MTCn1 => "MTCn1",
            Martian::MTC => "MTC",
            Martian::MTCp1 => "MTCp1",
            Martian::MTCp2 => "MTCp2",
            Martian::MTCp3 => "MTCp3",
            Martian::MTCp4 => "MTCp4",
            Martian::MTCp5 => "MTCp5",
        }
    }

    /// The zone as it is written: `MTC`, a sign and the decisols.
    pub fn notation(&self) -> (r: &'static str)
        ensures
            r@ == self.spec_notation(),
    {
        match self {
            Martian::MTCn5 => "MTC-5",
            Martian::MTCn4 => "MTC-4",
            Martian::MTCn3 => "MTC-3",
            Martian::MTCn2 => "MTC-2",
            Martian::MTCn1 => "MTC-1",
            Martian::MTC => "MTC",
            Martian::MTCp1 => "MTC+1",
            Martian::MTCp2 => "MTC+2",
            Martian::MTCp3 => "MTC+3",
            Martian::MTCp4 => "MTC+4",
            Martian::MTCp5 => "MTC+5",
        }
    }

    /// Reads a zone from the way it is written.
    pub fn from_str(s: &str) -> (r: Result<Martian, TzError>)
        ensures
            match r {
                Ok(zone) => Martian::written(s@, -5) == Some(zone),
                Err(e) => e == TzError::NotFound && Martian::written(s@, -5) is None,
            },
    {
        let mut decisols: i32 = -5;
        while decisols <= 5
            invariant
                -5 <= decisols <= 6,
                Martian::written(s@, -5) == Martian::written(s@, decisols as int),
            decreases 6 - decisols,
        {
            match Martian::from_decisols(decisols) {
                Some(zone) => {
                    if same_text(zone.notation(), s) {
                        return Ok(zone);
                    }
                },
                None => {},
            }
            decisols = decisols + 1;
        }
        Err(TzError::NotFound)
    }

    /// The code of the zone.
    fn code_text(&self) -> (r: &'static str)
        ensures
            r@ == self.spec_code(),
    {
        match self {
            Martian::MTCn5 => "AMT",
            Martian::MTCn4 => "OT",
            Martian::MTCn3 => "TT",
            Martian::MTCn2 => "MT",
            Martian::MTCn1 => "AGT",
            Martian::MTC => "NT",
            Martian::MTCp1 => "ABT",
            Martian::MTCp2 => "HT",
            Martian::MTCp3 => "UT",
            Martian::MTCp4 => "ET",
            Martian::MTCp5 => "ACT",
        }
    }

    /// The name of the zone.
    fn name_text(&self) -> (r: &'static str)
        ensures
            r@ == self.spec_named(),
    {
        match self {
            Martian::MTCn5 => "Amazonis Time",
            Martian::MTCn4 => "Olympus Time",
            Martian::MTCn3 => "Tharsis Time",
            Martian::MTCn2 => "Marineris Time",
            Martian::MTCn1 => "Argyre Time",
            Martian::MTC => "Noachis Time",
            Martian::MTCp1 => "Arabia Time",
            Martian::MTCp2 => "Hellas Time",
            Martian::MTCp3 => "Utopia Time",
            Martian::MTCp4 => "Elysium Time",
            Martian::MTCp5 => "Arcadia Time",
        }
    }

    /// The hours of the offset of the zone, written out.
    fn offset_text(&self) -> (r: &'static str)
        ensures
            r@ == self.spec_offset(),
    {
        match self {
            Martian::MTCn5 => "-12.5",
            Martian::MTCn4 => "-10.0",
            Martian::MTCn3 => "-7.5",
            Martian::MTCn2 => "-5.0",
            Martian::MTCn1 => "-2.5",
            Martian::MTC => "0.0",
            Martian::MTCp1 => "2.5",
            Martian::MTCp2 => "5.0",
            Martian::MTCp3 => "7.5",
            Martian::MTCp4 => "10.0",
            Martian::MTCp5 => "12.5",
        }
    }

    /// Where the band of the zone begins, written out.
    fn east_text(&self) -> (r: &'static str)
        ensures
            r@ == self.spec_east(),
    {
        match self {
            Martian::MTCn5 => "-180",
            Martian::MTCn4 => "-162",
            Martian::MTCn3 => "-126",
            Martian::MTCn2 => "-90",
            Martian::MTCn1 => "-54",
            Martian::MTC => "-18",
            Martian::MTCp1 => "18",
            Martian::MTCp2 => "54",
            Martian::MTCp3 => "90",
            Martian::MTCp4 => "126",
            Martian::MTCp5 => "162",
        }
    }

    /// Where the band of the zone ends, written out.
    fn west_text(&self) -> (r: &'static str)
        ensures
            r@ == self.spec_west(),
    {
        match self {
            Martian::MTCn5 => "-162",
            Martian::MTCn4 => "-126",
            Martian::MTCn3 => "-90",
            Martian::MTCn2 => "-54",
            Martian::MTCn1 => "-18",
            Martian::MTC => "18",
            Martian::MTCp1 => "54",
            Martian::MTCp2 => "90",
            Martian::MTCp3 => "126",
            Martian::MTCp4 => "162",
            Martian::MTCp5 => "180",
        }
    }

    /// The property of the zone that goes by the name `prop`: its `Code`, its
    /// `Name`, its `Offset` in hours, or the `East` and `West` of its band.
    pub fn get_str(&self, prop: &str) -> (r: Option<&'static str>)
        ensures
            match r {
                Some(text) => self.property(prop@) == Some(text@),
                None => self.property(prop@) is None,
            },
    {
        if same_text(prop, "Code") {
            Some(self.code_text())
        } else if same_text(prop, "Name") {
            Some(self.name_text())
        } else if same_text(prop, "Offset") {
            Some(self.offset_text())
        } else if same_text(prop, "East") {
            Some(self.east_text())
        } else if same_text(prop, "West") {
            Some(self.west_text())
        } else {
            None
        }
    }

    /// The code of the zone.
    pub fn code(&self) -> (r: String)
        ensures
            r@ == self.spec_code(),
    {
        self.code_text().to_string()
    }

    /// The name of the zone.
    pub fn named(&self) -> (r: String)
        ensures
            r@ == self.spec_named(),
    {
        self.name_text().to_string()
    }

    /// The band of longitudes of the zone.
    pub fn prime(&self) -> (r: Longitude)
        ensures
            r == self.spec_prime(),
    {
        let d: i32 = self.decisols();
        Longitude {
            east: if d == -5 { -180 } else { 36 * d - 18 },
            west: if d == 5 { 180 } else { 36 * d + 18 },
        }
    }

    /// The band of longitudes of the zone `body`, from its beginning to its end.
    pub fn prime_meridian(&self, body: Martian) -> (r: (i32, i32))
        ensures
            r == (body.spec_prime().east, body.spec_prime().west),
    {
        let band = body.prime();
        (band.east, band.west)
    }

    /// The name of the zone `body`.
    pub fn named_prime_meridian(&self, body: Martian) -> (r: String)
        ensures
            r@ == body.spec_named(),
    {
        body.named()
    }

    /// The code of the zone `body`.
    pub fn code_prime_meridian(&self, body: Martian) -> (r: String)
        ensures
            r@ == body.spec_code(),
    {
        body.code()
    }

    /// The time of day in the zone, from its hour, minute and second.
    pub fn clock(&self, hour: u8, minute: u8, second: u8) -> (r: Time)
        ensures
            r.hour == hour,
            r.minute == minute,
            r.second == second,
            r.code@ == self.spec_code(),
            r.name@ == self.spec_named(),
            r.offset_name@ == self.label(),
            r.hour_type@ == HourType::half_of(hour).label(),
    {
        Time {
            hour: hour as i32,
            minute,
            second,
            code: self.code(),
            name: self.named(),
            offset_name: self.as_ref().to_string(),
            hour_type: HourType::Unknown.new(hour),
        }
    }
}

} // verus!
