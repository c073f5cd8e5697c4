use rust_solar::anomaly::{Solver, Step, SENTINEL};
use rust_solar::conversions::RIC;
use rust_solar::kepler::{Eras, Shift, YearSearch};
use rust_solar::orbit::{Season, SolarLongitude, Turn, Type};
use rust_solar::planets::mars::{
    Longitude, Mars, Martian, TzError, EPOCH, ORBITAL_ECCENTRICITY, ORBITAL_PERIOD, PERIHELION,
    PERIHELION_LS, PERIHELION_MONTH, ROTATIONAL_PERIOD, SEMIMAJOR,
};

const ZONES: [Martian; 11] = [
    Martian::MTCn5, Martian::MTCn4, Martian::MTCn3, Martian::MTCn2, Martian::MTCn1, Martian::MTC,
    Martian::MTCp1, Martian::MTCp2, Martian::MTCp3, Martian::MTCp4, Martian::MTCp5,
];

#[test]
fn martian_tz_8() {
    let value = f64::from(Martian::MTCn1.decisols()) * 2.5;
    println!("Coordinated Time: {:?}", value);
    assert_eq!(value, -2.5);
    assert_eq!(Martian::MTCn1.get_str("Offset").unwrap().parse::<f64>().unwrap(), value);
}

#[test]
fn elements_of_mars() {
    assert_eq!(f64::from_bits(EPOCH), 2.442765667e6);
    assert_eq!(f64::from_bits(ORBITAL_ECCENTRICITY), 0.0934);
    assert_eq!(f64::from_bits(ORBITAL_PERIOD), 668.6);
    assert_eq!(f64::from_bits(ROTATIONAL_PERIOD), 88_775.245);
    assert_eq!(f64::from_bits(SEMIMAJOR), 1.52);
    assert_eq!(f64::from_bits(PERIHELION_MONTH.0), 468.5);
    assert_eq!(f64::from_bits(PERIHELION_MONTH.1), 514.6);
    assert_eq!(f64::from_bits(PERIHELION_LS.0), 240.0);
    assert_eq!(f64::from_bits(PERIHELION_LS.1), 270.0);
    assert_eq!(f64::from_bits(PERIHELION), 251.0);
    let elements = Mars.elements();
    assert_eq!(elements.shape(), Type::Elliptical);
    assert_eq!(elements.shape().require_bound(), Ok(()));
    assert_eq!(elements.epoch(), EPOCH);
    assert_eq!(elements.eccentricity(), ORBITAL_ECCENTRICITY);
    assert_eq!(elements.orbital_period(), ORBITAL_PERIOD);
    assert_eq!(elements.rotational_period(), ROTATIONAL_PERIOD);
    assert_eq!(elements.semimajor(), SEMIMAJOR);
    let window = Mars.perihelion();
    assert_eq!(window.month(), PERIHELION_MONTH);
    assert_eq!(window.ls(), PERIHELION_LS);
    assert_eq!(window.perihelion(), PERIHELION);
}

#[test]
fn zones_by_decisols() {
    for (place, zone) in ZONES.iter().enumerate() {
        let decisols = place as i32 - 5;
        assert_eq!(zone.decisols(), decisols);
        assert_eq!(Martian::from_decisols(decisols), Some(*zone));
        let offset: f64 = zone.get_str("Offset").unwrap().parse().unwrap();
        assert_eq!(offset, 2.5 * f64::from(decisols));
    }
    assert_eq!(Martian::from_decisols(6), None);
    assert_eq!(Martian::from_decisols(-6), None);
    assert_eq!(Martian::default(), Martian::MTC);
}

#[test]
fn zones_as_written() {
    let written = [
        "MTC-5", "MTC-4", "MTC-3", "MTC-2", "MTC-1", "MTC", "MTC+1", "MTC+2", "MTC+3", "MTC+4",
        "MTC+5",
    ];
    let labels = [
        "MTCn5", "MTCn4", "MTCn3", "MTCn2", "MTCn1", "MTC", "MTCp1", "MTCp2", "MTCp3", "MTCp4",
        "MTCp5",
    ];
    for place in 0..11 {
        assert_eq!(ZONES[place].notation(), written[place]);
        assert_eq!(ZONES[place].as_ref(), labels[place]);
        assert_eq!(Martian::from_str(written[place]), Ok(ZONES[place]));
    }
    assert_eq!(Martian::from_str("MTC+6"), Err(TzError::NotFound));
    assert_eq!(Martian::from_str("MTCn5"), Err(TzError::NotFound));
    assert_eq!(Martian::from_str("mtc"), Err(TzError::NotFound));
    assert_eq!(Martian::from_str(""), Err(TzError::NotFound));
}

#[test]
fn zone_properties() {
    let codes = ["AMT", "OT", "TT", "MT", "AGT", "NT", "ABT", "HT", "UT", "ET", "ACT"];
    let names = [
        "Amazonis Time", "Olympus Time", "Tharsis Time", "Marineris Time", "Argyre Time",
        "Noachis Time", "Arabia Time", "Hellas Time", "Utopia Time", "Elysium Time",
        "Arcadia Time",
    ];
    let offsets = ["-12.5", "-10.0", "-7.5", "-5.0", "-2.5", "0.0", "2.5", "5.0", "7.5", "10.0", "12.5"];
    let bands = [
        (-180, -162), (-162, -126), (-126, -90), (-90, -54), (-54, -18), (-18, 18), (18, 54),
        (54, 90), (90, 126), (126, 162), (162, 180),
    ];
    for place in 0..11 {
        let zone = ZONES[place];
        assert_eq!(zone.get_str("Code"), Some(codes[place]));
        assert_eq!(zone.get_str("Name"), Some(names[place]));
        assert_eq!(zone.get_str("Offset"), Some(offsets[place]));
        assert_eq!(zone.get_str("East").unwrap(), bands[place].0.to_string());
        assert_eq!(zone.get_str("West").unwrap(), bands[place].1.to_string());
        assert_eq!(zone.get_str("code"), None);
        assert_eq!(zone.get_str(""), None);
        assert_eq!(zone.code(), codes[place]);
        assert_eq!(zone.named(), names[place]);
        assert_eq!(zone.prime(), Longitude { east: bands[place].0, west: bands[place].1 });
        assert_eq!(Martian::MTC.prime_meridian(zone), bands[place]);
        assert_eq!(Martian::MTC.named_prime_meridian(zone), names[place]);
        assert_eq!(Martian::MTC.code_prime_meridian(zone), codes[place]);
    }
}

#[test]
fn zone_clock() {
    let time = Martian::MTCp3.clock(14, 7, 59);
    assert_eq!(time.hour, 14);
    assert_eq!(time.minute, 7);
    assert_eq!(time.second, 59);
    assert_eq!(time.code, "UT");
    assert_eq!(time.name, "Utopia Time");
    assert_eq!(time.offset_name, "MTCp3");
    assert_eq!(time.hour_type, "PM");
    assert_eq!(Martian::MTCn5.clock(3, 0, 0).hour_type, "AM");
    assert_eq!(Martian::MTCn5.clock(99, 0, 0).hour_type, "Unknown");
}

struct Found {
    year: i32,
    month: u8,
    day: f64,
    ls: f64,
    season: Season,
    era: Eras,
}

fn mars_date(julian_date: f64) -> Found {
    let elements = Mars.elements();
    let window = Mars.perihelion();
    let e = f64::from_bits(elements.eccentricity());
    let period = f64::from_bits(elements.orbital_period());
    let (month, ls) = (window.month(), window.ls());
    let (m0, m1) = (f64::from_bits(month.0), f64::from_bits(month.1));
    let (l0, l1) = (f64::from_bits(ls.0), f64::from_bits(ls.1));
    let peri = f64::from_bits(window.perihelion());
    let turn = f64::from_bits(RIC);

    let mut day = (julian_date - f64::from_bits(elements.epoch())) * 86400.0
        / f64::from_bits(elements.rotational_period());
    let mut search = YearSearch::start();
    loop {
        match search.step(day.to_bits(), period.to_bits()) {
            Shift::Subtract => day -= period,
            Shift::Add => day += period,
            Shift::Keep => break,
        }
    }

    let elapse = (day - (((m1 - m0) / (l1 - l0)) * (peri - l0) + m0)) / period;
    let mean_motion = turn * (elapse - elapse.round());
    let xref = mean_motion.abs();
    let mut solver = Solver::new(elements.shape()).unwrap();
    let mut x = xref + e * xref.sin();
    let mut dx = f64::from_bits(SENTINEL);
    while solver.poll(dx.to_bits()).unwrap() == Step::Iterate {
        dx = -(x - e * x.sin() - xref) / (1.0 - e * x.cos());
        x += dx;
    }
    if mean_motion < 0.0 {
        x = -x;
    }
    let theta = 2.0 * (((1.0 + e) / (1.0 - e)).sqrt() * (x / 2.0).tan()).atan();
    let raw = theta - turn * (1.0 - peri / 360.0);
    let ls = match SolarLongitude.turn(raw.to_bits()) {
        Turn::Forward => raw + turn,
        Turn::Backward => raw - turn,
        Turn::Stay => raw,
    }
    .to_degrees();

    Found {
        year: search.year(),
        month: (1.0 + (ls / (l1 - l0)).floor()) as u8,
        day: 1.0 + day.floor(),
        ls,
        season: Season::default().from(ls as u32),
        era: Eras::of(search.year()),
    }
}

#[test]
fn mars_scenario() {
    let found = mars_date(2460347.5);
    assert!(found.day >= 1.0 && found.day.fract() == 0.0);
    assert!(found.month >= 1);
    assert!((0.0..360.0).contains(&found.ls));
    assert_eq!(found.year, 37);
    assert_eq!(found.month, 7);
    assert_eq!(found.day, 397.0);
    assert!((found.ls - 194.5049890088372).abs() < 1.0e-9);
    assert_eq!(found.season, Season::AutumnEquinox);
    assert_eq!(found.era, Eras::AD);

    let again = mars_date(2460347.5);
    assert_eq!(again.ls.to_bits(), found.ls.to_bits());
    assert_eq!((again.year, again.month, again.day), (found.year, found.month, found.day));

    let early = mars_date(2400000.5);
    assert_eq!((early.year, early.month, early.day), (-51, 9, 501.0));
    assert_eq!(early.era, Eras::BD);
    assert_eq!(early.season, Season::AutumnEquinox);
    assert!((early.ls - 261.0630692802802).abs() < 1.0e-9);
}
