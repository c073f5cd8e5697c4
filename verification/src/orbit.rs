//! Orbits: their shape, their seasons, the elements that describe them.
use crate::binary64::at_most;
use crate::binary64::infinite;
use crate::binary64::le;
use crate::binary64::lemma_one;
use crate::binary64::lemma_scaled_increases;
use crate::binary64::lemma_zero;
use crate::binary64::less;
use crate::binary64::lt;
use crate::binary64::nan;
use crate::binary64::scaled;
use crate::binary64::unit;
use crate::binary64::INFINITY;
use crate::binary64::ONE;
use crate::binary64::SIGN;
use crate::binary64::ZERO;
use crate::conversions::RIC;
use vstd::prelude::*;

verus! {

/// What can go wrong with an orbit.
#[derive(Debug, Clone, Copy, PartialEq, Eq, Structural)]
pub enum OrbitError {
    /// The eccentricity is negative or not a number: the orbit has no shape.
    InvalidOrbitShape,
    /// An iterative solver used up its rounds without settling.
    NonConvergence,
    /// A formula for closed orbits was asked about an open one.
    DomainViolation,
}

/// The orbital types a body can follow.
#[derive(Debug, Default, Clone, Copy, PartialEq, Eq, Structural)]
pub enum Type {
    /// The orbit path is round: eccentricity zero.
    Circular,
    /// The orbit path is oval: eccentricity between zero and one.
    Elliptical,
    /// The orbit path is a parabola: eccentricity one.
    Parabolic,
    /// The orbit path is a hyperbola: eccentricity above one.
    Hyperbolic,
    /// The orbit path is a straight line: eccentricity infinite.
    Straight,
    /// The eccentricity describes no orbit.
    #[default]
    Unknown,
}

impl Type {
    /// The shape that belongs to an eccentricity, given as a binary64 encoding.
    pub open spec fn of(obe: u64) -> Type {
        if nan(obe) || scaled(obe) < 0 {
            Type::Unknown
        } else if scaled(obe) == 0 {
            Type::Circular
        } else if infinite(obe) {
            Type::Straight
        } else if scaled(obe) < unit() {
            Type::Elliptical
        } else if scaled(obe) == unit() {
            Type::Parabolic
        } else {
            Type::Hyperbolic
        }
    }

    /// Whether the orbit closes on itself: eccentricity in `[0, 1)`.
    pub open spec fn bound(self) -> bool {
        self == Type::Circular || self == Type::Elliptical
    }

    /// An orbit is closed exactly when its eccentricity is a number from
    /// zero up to, but without, one.
    pub proof fn lemma_bound_below_one(obe: u64)
        ensures
            Type::of(obe).bound() <==> !nan(obe) && 0 <= scaled(obe) < unit(),
    {
        lemma_one();
        lemma_scaled_increases(0, ONE);
        if infinite(obe) && obe < SIGN {
            lemma_scaled_increases(ONE, obe);
        }
    }

    /// An eccentricity that is negative or not a number has no shape, and
    /// every other eccentricity has one.
    pub proof fn lemma_shapeless(obe: u64)
        ensures
            Type::of(obe) == Type::Unknown <==> nan(obe) || scaled(obe) < 0,
    {
    }

    /// Gives the shape of an orbit from its eccentricity `obe`, a binary64 encoding.
    ///
    /// Both zeros are circular, one is parabolic, positive infinity is
    /// straight; a negative number or a NaN has no shape.
    pub fn shape(&self, obe: u64) -> (r: Type)
        ensures
            r == Type::of(obe),
    {
        proof {
            lemma_one();
            lemma_zero(obe);
            if 0 < obe < ONE {
                lemma_scaled_increases(0, obe);
                lemma_scaled_increases(obe, ONE);
            }
            if ONE < obe < SIGN {
                lemma_scaled_increases(ONE, obe);
            }
            if obe > SIGN {
                lemma_scaled_increases(0, (obe - SIGN) as u64);
            }
        }
        if obe == ZERO || obe == SIGN {
            Type::Circular
        } else if obe < ONE {
            Type::Elliptical
        } else if obe == ONE {
            Type::Parabolic
        } else if obe < INFINITY {
            Type::Hyperbolic
        } else if obe == INFINITY {
            Type::Straight
        } else {
            Type::Unknown
        }
    }

    /// Checks that a formula for closed orbits may be used on this shape.
    pub fn require_bound(&self) -> (r: Result<(), OrbitError>)
        ensures
            r is Ok <==> self.bound(),
            r == Err::<(), OrbitError>(OrbitError::InvalidOrbitShape) <==> *self == Type::Unknown,
            r == Err::<(), OrbitError>(OrbitError::DomainViolation) <==> !self.bound() && *self
                != Type::Unknown,
    {
        match self {
            Type::Circular | Type::Elliptical => Ok(()),
            Type::Unknown => Err(OrbitError::InvalidOrbitShape),
            _ => Err(OrbitError::DomainViolation),
        }
    }
}

/// The seasons that all Keplerian bodies follow.
#[derive(Debug, Default, Clone, Copy, PartialEq, Eq, Structural)]
pub enum Season {
    /// March 19th
    VernalEquinox,
    /// July 6
    Aphelion,
    /// June 20th -> June 21st
    SummerSolstice,
    /// September 22
    AutumnEquinox,
    /// January 3rd
    Perihelion,
    /// December 21st -> December 22nd
    WinterSolstice,
    /// The solar longitude is off the circle, or the body has no seasons.
    #[default]
    Unknown,
}

impl Season {
    /// The season at a solar longitude of `ls` whole degrees.
    ///
    /// The two apsides own their degree; every other degree of the circle
    /// belongs to the quarter that ends with it.
    pub open spec fn at(ls: u32) -> Season {
        if ls == 71 {
            Season::Aphelion
        } else if ls == 251 {
            Season::Perihelion
        } else if ls <= 90 {
            Season::VernalEquinox
        } else if ls <= 180 {
            Season::SummerSolstice
        } else if ls <= 270 {
            Season::AutumnEquinox
        } else if ls <= 360 {
            Season::WinterSolstice
        } else {
            Season::Unknown
        }
    }

    /// The name a season goes by.
    pub open spec fn label(self) -> Seq<char> {
        match self {
            Season::VernalEquinox => "Vernal Equinox"@,
            Season::Aphelion => "Aphelion"@,
            Season::SummerSolstice => "Summer Solstice"@,
            Season::AutumnEquinox => "Autumn Equinox"@,
            Season::Perihelion => "Perihelion"@,
            Season::WinterSolstice => "Winter Solstice"@,
            Season::Unknown => "N/A"@,
        }
    }

    /// The degrees a season spans: the first, and how many.
    pub open spec fn span(self) -> (u32, u32) {
        match self {
            Season::VernalEquinox => (0, 90),
            Season::Aphelion => (71, 1),
            Season::SummerSolstice => (90, 90),
            Season::AutumnEquinox => (180, 90),
            Season::Perihelion => (251, 1),
            Season::WinterSolstice => (270, 90),
            Season::Unknown => (1000, 1),
        }
    }

    /// Every degree of the circle, from 0 to 360, has its season, and no
    /// other number has one.
    pub proof fn lemma_seasons_cover_the_circle(ls: u32)
        ensures
            Season::at(ls) == Season::Unknown <==> ls > 360,
    {
    }

    /// Creates a season given a solar longitude in whole degrees.
    pub fn from(&self, ls: u32) -> (r: Season)
        ensures
            r == Season::at(ls),
    {
        if ls == 71 {
            Season::Aphelion
        } else if ls == 251 {
            Season::Perihelion
        } else if ls <= 90 {
            Season::VernalEquinox
        } else if ls <= 180 {
            Season::SummerSolstice
        } else if ls <= 270 {
            Season::AutumnEquinox
        } else if ls <= 360 {
            Season::WinterSolstice
        } else {
            Season::Unknown
        }
    }

    /// The name of the season.
    pub fn as_ref(&self) -> (r: &'static str)
        ensures
            r@ == self.label(),
    {
        match self {
            Season::VernalEquinox => "Vernal Equinox",
            Season::Aphelion => "Aphelion",
            Season::SummerSolstice => "Summer Solstice",
            Season::AutumnEquinox => "Autumn Equinox",
            Season::Perihelion => "Perihelion",
            Season::WinterSolstice => "Winter Solstice",
            Season::Unknown => "N/A",
        }
    }
}

/// The solar longitudes of a season, in rising order.
///
/// The quarters are listed from their first degree up to, but without, the
/// first degree of the next; an apsis is its one degree; `Unknown` is the one
/// off-circle value 1000.
pub fn seasons_ls(season: Season) -> (r: Vec<u32>)
    ensures
        r@.len() == season.span().1,
        forall|i: int| 0 <= i < r@.len() ==> r@[i] == season.span().0 + i,
{
    let (first, count): (u32, u32) = match season {
        Season::VernalEquinox => (0, 90),
        Season::Aphelion => (71, 1),
        Season::SummerSolstice => (90, 90),
        Season::AutumnEquinox => (180, 90),
        Season::Perihelion => (251, 1),
        Season::WinterSolstice => (270, 90),
        Season::Unknown => (1000, 1),
    };
    let mut degrees: Vec<u32> = Vec::new();
    let mut k: u32 = 0;
    while k < count
        invariant
            k <= count <= 90,
            first <= 1000,
            degrees@.len() == k,
            forall|i: int| 0 <= i < k ==> degrees@[i] == first + i,
        decreases count - k,
    {
        degrees.push(first + k);
        k = k + 1;
    }
    degrees
}

/// The perihelion of a body: the month it falls in and where in that month.
///
/// All five numbers are binary64 encodings. `month` bounds the month in
/// body-days, `ls` bounds it in degrees of solar longitude, `perihelion` is
/// the solar longitude of the perihelion itself.
#[derive(Debug, Clone, Copy)]
pub struct PerihelionWindow {
    month: (u64, u64),
    ls: (u64, u64),
    perihelion: u64,
}

impl PerihelionWindow {
    /// What makes five numbers a window: both intervals rise, and the
    /// perihelion lies within the longitudes.
    pub open spec fn admits(month: (u64, u64), ls: (u64, u64), perihelion: u64) -> bool {
        &&& less(month.0, month.1)
        &&& less(ls.0, ls.1)
        &&& at_most(ls.0, perihelion)
        &&& at_most(perihelion, ls.1)
    }

    #[verifier::type_invariant]
    spec fn wf(self) -> bool {
        Self::admits(self.month, self.ls, self.perihelion)
    }

    /// The month interval `(start, end)`.
    pub closed spec fn spec_month(&self) -> (u64, u64) {
        self.month
    }

    /// The solar-longitude interval `(start, end)`.
    pub closed spec fn spec_ls(&self) -> (u64, u64) {
        self.ls
    }

    /// The solar longitude of the perihelion.
    pub closed spec fn spec_perihelion(&self) -> u64 {
        self.perihelion
    }

    /// Makes a window of five numbers, if they are one.
    pub fn new(month: (u64, u64), ls: (u64, u64), perihelion: u64) -> (r: Option<Self>)
        ensures
            r is Some <==> Self::admits(month, ls, perihelion),
            r matches Some(w) ==> w.spec_month() == month && w.spec_ls() == ls
                && w.spec_perihelion() == perihelion,
    {
        if lt(month.0, month.1) && lt(ls.0, ls.1) && le(ls.0, perihelion) && le(perihelion, ls.1) {
            Some(PerihelionWindow { month, ls, perihelion })
        } else {
            None
        }
    }

    /// The month interval `(start, end)`, in body-days.
    #[verifier::when_used_as_spec(spec_month)]
    pub fn month(&self) -> (r: (u64, u64))
        ensures
            r == self.spec_month(),
            less(r.0, r.1),
    {
        proof {
            use_type_invariant(self);
        }
        self.month
    }

    /// The solar-longitude interval `(start, end)`, in degrees.
    #[verifier::when_used_as_spec(spec_ls)]
    pub fn ls(&self) -> (r: (u64, u64))
        ensures
            r == self.spec_ls(),
            less(r.0, r.1),
    {
        proof {
            use_type_invariant(self);
        }
        self.ls
    }

    /// The solar longitude of the perihelion, in degrees.
    #[verifier::when_used_as_spec(spec_perihelion)]
    pub fn perihelion(&self) -> (r: u64)
        ensures
            r == self.spec_perihelion(),
            at_most(self.spec_ls().0, r),
            at_most(r, self.spec_ls().1),
    {
        proof {
            use_type_invariant(self);
        }
        self.perihelion
    }
}

/// The constants of a body's orbit, each a binary64 encoding.
#[derive(Debug, Clone, Copy)]
pub struct OrbitalElements {
    semimajor: u64,
    eccentricity: u64,
    orbital_period: u64,
    rotational_period: u64,
    epoch: u64,
}

impl OrbitalElements {
    #[verifier::type_invariant]
    spec fn wf(self) -> bool {
        Type::of(self.eccentricity) != Type::Unknown
    }

    /// The semi-major axis, in astronomical units.
    pub closed spec fn spec_semimajor(&self) -> u64 {
        self.semimajor
    }

    /// The orbital eccentricity.
    pub closed spec fn spec_eccentricity(&self) -> u64 {
        self.eccentricity
    }

    /// The orbital period, in days of the body.
    pub closed spec fn spec_orbital_period(&self) -> u64 {
        self.orbital_period
    }

    /// The rotational period, in seconds.
    pub closed spec fn spec_rotational_period(&self) -> u64 {
        self.rotational_period
    }

    /// The Julian Date of the body's reference event.
    pub closed spec fn spec_epoch(&self) -> u64 {
        self.epoch
    }

    /// Makes a set of elements, unless the eccentricity has no shape.
    pub fn new(
        semimajor: u64,
        eccentricity: u64,
        orbital_period: u64,
        rotational_period: u64,
        epoch: u64,
    ) -> (r: Result<Self, OrbitError>)
        ensures
            r is Ok <==> Type::of(eccentricity) != Type::Unknown,
            r matches Err(e) ==> e == OrbitError::InvalidOrbitShape,
            r matches Ok(el) ==> {
                &&& el.spec_semimajor() == semimajor
                &&& el.spec_eccentricity() == eccentricity
                &&& el.spec_orbital_period() == orbital_period
                &&& el.spec_rotational_period() == rotational_period
                &&& el.spec_epoch() == epoch
            },
    {
        match Type::Unknown.shape(eccentricity) {
            Type::Unknown => Err(OrbitError::InvalidOrbitShape),
            _ => Ok(
                OrbitalElements {
                    semimajor,
                    eccentricity,
                    orbital_period,
                    rotational_period,
                    epoch,
                },
            ),
        }
    }

    /// The semi-major axis, in astronomical units.
    #[verifier::when_used_as_spec(spec_semimajor)]
    pub fn semimajor(&self) -> (r: u64)
        ensures
            r == self.spec_semimajor(),
    {
        self.semimajor
    }

    /// The orbital eccentricity.
    #[verifier::when_used_as_spec(spec_eccentricity)]
    pub fn eccentricity(&self) -> (r: u64)
        ensures
            r == self.spec_eccentricity(),
    {
        self.eccentricity
    }

    /// The orbital period, in days of the body.
    #[verifier::when_used_as_spec(spec_orbital_period)]
    pub fn orbital_period(&self) -> (r: u64)
        ensures
            r == self.spec_orbital_period(),
    {
        self.orbital_period
    }

    /// The rotational period, in seconds.
    #[verifier::when_used_as_spec(spec_rotational_period)]
    pub fn rotational_period(&self) -> (r: u64)
        ensures
            r == self.spec_rotational_period(),
    {
        self.rotational_period
    }

    /// The Julian Date of the body's reference event.
    #[verifier::when_used_as_spec(spec_epoch)]
    pub fn epoch(&self) -> (r: u64)
        ensures
            r == self.spec_epoch(),
    {
        self.epoch
    }

    /// The shape of the orbit; never `Unknown`.
    pub fn shape(&self) -> (r: Type)
        ensures
            r == Type::of(self.spec_eccentricity()),
            r != Type::Unknown,
    {
        proof {
            use_type_invariant(self);
        }
        Type::Unknown.shape(self.eccentricity)
    }
}

/// How a raw solar longitude, in radians, is brought onto the circle.
#[derive(Debug, Clone, Copy, PartialEq, Eq, Structural)]
pub enum Turn {
    /// It is below zero: add one full circle.
    Forward,
    /// It is above one full circle: take one full circle off.
    Backward,
    /// It is on the circle already, or is a NaN.
    Stay,
}

/// The solar longitude of a body: where on its orbit it is.
#[derive(Debug, Clone, Copy)]
pub struct SolarLongitude;

impl SolarLongitude {
    /// The correction that a raw solar longitude of `ls` radians calls for.
    pub open spec fn turn_of(ls: u64) -> Turn {
        if less(ls, ZERO) {
            Turn::Forward
        } else if less(RIC, ls) {
            Turn::Backward
        } else {
            Turn::Stay
        }
    }

    /// A solar longitude that stays as it is lies on the circle, from zero to
    /// one full turn, unless it is a NaN.
    pub proof fn lemma_stay_is_on_circle(ls: u64)
        requires
            Self::turn_of(ls) == Turn::Stay,
            !nan(ls),
        ensures
            0 <= scaled(ls) <= scaled(RIC),
    {
    }

    /// Decides how a true anomaly less the perihelion time, `ls` radians as a
    /// binary64 encoding, is wrapped onto the circle.
    pub fn turn(&self, ls: u64) -> (r: Turn)
        ensures
            r == Self::turn_of(ls),
    {
        if lt(ls, ZERO) {
            Turn::Forward
        } else if lt(RIC, ls) {
            Turn::Backward
        } else {
            Turn::Stay
        }
    }
}

} // verus!
