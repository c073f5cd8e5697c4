use rust_solar::binary64::{is_finite, is_nan, le, lt};
use rust_solar::conversions::RIC;
use rust_solar::orbit::{
    seasons_ls, OrbitError, OrbitalElements, PerihelionWindow, Season, SolarLongitude, Turn, Type,
};
use std::f64::consts::PI;

#[test]
fn orbittype_work() {
    let shape = Type::default().shape(0.017f64.to_bits());
    println!("{:?}", shape);
    assert_eq!(shape, Type::Elliptical);
}

#[test]
fn ric_work() {
    assert_eq!(f64::from_bits(RIC), PI * 2.0);
}

#[test]
fn season_work() {
    for needle in 0..=360u32 {
        let tmp = Season::default().from(needle);
        println!("{needle}: {}", tmp.as_ref());
        assert_ne!(tmp, Season::Unknown);
    }
}

#[test]
fn shape_of_listed_eccentricities() {
    let shape = |e: f64| Type::default().shape(e.to_bits());
    assert_eq!(shape(0.0), Type::Circular);
    assert_eq!(shape(-0.0), Type::Circular);
    assert_eq!(shape(0.5), Type::Elliptical);
    assert_eq!(shape(0.999), Type::Elliptical);
    assert_eq!(shape(f64::MIN_POSITIVE / 4.0), Type::Elliptical);
    assert_eq!(shape(1.0), Type::Parabolic);
    assert_eq!(shape(1.5), Type::Hyperbolic);
    assert_eq!(shape(f64::MAX), Type::Hyperbolic);
    assert_eq!(shape(f64::INFINITY), Type::Straight);
    assert_eq!(shape(f64::NAN), Type::Unknown);
    assert_eq!(shape(-f64::NAN), Type::Unknown);
    assert_eq!(shape(-1.0), Type::Unknown);
    assert_eq!(shape(-f64::MIN_POSITIVE), Type::Unknown);
    assert_eq!(shape(f64::NEG_INFINITY), Type::Unknown);
}

#[test]
fn season_boundaries() {
    let season = |ls: u32| Season::default().from(ls);
    assert_eq!(season(71), Season::Aphelion);
    assert_eq!(season(251), Season::Perihelion);
    assert_eq!(season(0), Season::VernalEquinox);
    assert_eq!(season(90), Season::VernalEquinox);
    assert_eq!(season(91), Season::SummerSolstice);
    assert_eq!(season(180), Season::SummerSolstice);
    assert_eq!(season(181), Season::AutumnEquinox);
    assert_eq!(season(270), Season::AutumnEquinox);
    assert_eq!(season(271), Season::WinterSolstice);
    assert_eq!(season(360), Season::WinterSolstice);
    assert_eq!(season(361), Season::Unknown);
    assert_eq!(season(u32::MAX), Season::Unknown);
}

#[test]
fn season_names() {
    assert_eq!(Season::VernalEquinox.as_ref(), "Vernal Equinox");
    assert_eq!(Season::Aphelion.as_ref(), "Aphelion");
    assert_eq!(Season::SummerSolstice.as_ref(), "Summer Solstice");
    assert_eq!(Season::AutumnEquinox.as_ref(), "Autumn Equinox");
    assert_eq!(Season::Perihelion.as_ref(), "Perihelion");
    assert_eq!(Season::WinterSolstice.as_ref(), "Winter Solstice");
    assert_eq!(Season::Unknown.as_ref(), "N/A");
}

#[test]
fn season_longitudes() {
    assert_eq!(seasons_ls(Season::VernalEquinox), (0..90).collect::<Vec<u32>>());
    assert_eq!(seasons_ls(Season::Aphelion), vec![71]);
    assert_eq!(seasons_ls(Season::SummerSolstice), (90..180).collect::<Vec<u32>>());
    assert_eq!(seasons_ls(Season::AutumnEquinox), (180..270).collect::<Vec<u32>>());
    assert_eq!(seasons_ls(Season::Perihelion), vec![251]);
    assert_eq!(seasons_ls(Season::WinterSolstice), (270..360).collect::<Vec<u32>>());
    assert_eq!(seasons_ls(Season::Unknown), vec![1000]);
}

fn samples() -> Vec<f64> {
    vec![
        f64::NEG_INFINITY, f64::MIN, -1.0e300, -668.6, -1.0, -1.0e-7, -f64::MIN_POSITIVE,
        -5.0e-324, -0.0, 0.0, 5.0e-324, f64::MIN_POSITIVE / 2.0, f64::MIN_POSITIVE, 1.0e-7,
        0.0934, 0.5, 0.999, 1.0, 1.0000000000000002, 1.5, 2.0, PI * 2.0, 10.0, 251.0, 668.6,
        2442765.667, 1.0e300, f64::MAX, f64::INFINITY, f64::NAN, -f64::NAN,
    ]
}

#[test]
fn comparisons_agree_with_the_hardware() {
    for a in samples() {
        assert_eq!(is_nan(a.to_bits()), a.is_nan(), "{a}");
        assert_eq!(is_finite(a.to_bits()), a.is_finite(), "{a}");
        for b in samples() {
            assert_eq!(lt(a.to_bits(), b.to_bits()), a < b, "{a} < {b}");
            assert_eq!(le(a.to_bits(), b.to_bits()), a <= b, "{a} <= {b}");
        }
    }
}

#[test]
fn absolute_value_agrees_with_the_hardware() {
    for a in samples() {
        let got = f64::from_bits(rust_solar::binary64::abs(a.to_bits()));
        if a.is_nan() {
            assert!(got.is_nan());
        } else {
            assert_eq!(got, a.abs());
            assert!(got.is_sign_positive());
        }
    }
}

#[test]
fn window_is_checked() {
    let b = |x: f64| x.to_bits();
    let mars = PerihelionWindow::new((b(468.5), b(514.6)), (b(240.0), b(270.0)), b(251.0)).unwrap();
    assert_eq!(f64::from_bits(mars.month().0), 468.5);
    assert_eq!(f64::from_bits(mars.month().1), 514.6);
    assert_eq!(f64::from_bits(mars.ls().0), 240.0);
    assert_eq!(f64::from_bits(mars.ls().1), 270.0);
    assert_eq!(f64::from_bits(mars.perihelion()), 251.0);
    assert!(PerihelionWindow::new((b(1.0), b(2.0)), (b(240.0), b(270.0)), b(240.0)).is_some());
    assert!(PerihelionWindow::new((b(1.0), b(2.0)), (b(240.0), b(270.0)), b(270.0)).is_some());
    assert!(PerihelionWindow::new((b(2.0), b(2.0)), (b(240.0), b(270.0)), b(251.0)).is_none());
    assert!(PerihelionWindow::new((b(1.0), b(2.0)), (b(270.0), b(240.0)), b(251.0)).is_none());
    assert!(PerihelionWindow::new((b(1.0), b(2.0)), (b(240.0), b(270.0)), b(239.0)).is_none());
    assert!(PerihelionWindow::new((b(1.0), b(2.0)), (b(240.0), b(270.0)), b(271.0)).is_none());
    assert!(PerihelionWindow::new((b(f64::NAN), b(2.0)), (b(240.0), b(270.0)), b(251.0)).is_none());
    assert!(PerihelionWindow::new((b(1.0), b(2.0)), (b(240.0), b(270.0)), b(f64::NAN)).is_none());
}

#[test]
fn elements_need_a_shape() {
    let b = |x: f64| x.to_bits();
    let made = OrbitalElements::new(b(1.52), b(0.0934), b(668.6), b(88775.245), b(2442765.667)).unwrap();
    assert_eq!(made.shape(), Type::Elliptical);
    assert_eq!(f64::from_bits(made.semimajor()), 1.52);
    assert_eq!(f64::from_bits(made.eccentricity()), 0.0934);
    assert_eq!(f64::from_bits(made.orbital_period()), 668.6);
    assert_eq!(f64::from_bits(made.rotational_period()), 88775.245);
    assert_eq!(f64::from_bits(made.epoch()), 2442765.667);
    for bad in [-0.5, f64::NAN, f64::NEG_INFINITY] {
        let refused = OrbitalElements::new(b(1.0), b(bad), b(1.0), b(1.0), b(0.0));
        assert_eq!(refused.err(), Some(OrbitError::InvalidOrbitShape));
    }
    assert!(OrbitalElements::new(b(1.0), b(f64::INFINITY), b(1.0), b(1.0), b(0.0)).is_ok());
}

#[test]
fn closed_orbits_only() {
    assert_eq!(Type::Circular.require_bound(), Ok(()));
    assert_eq!(Type::Elliptical.require_bound(), Ok(()));
    assert_eq!(Type::Parabolic.require_bound(), Err(OrbitError::DomainViolation));
    assert_eq!(Type::Hyperbolic.require_bound(), Err(OrbitError::DomainViolation));
    assert_eq!(Type::Straight.require_bound(), Err(OrbitError::DomainViolation));
    assert_eq!(Type::Unknown.require_bound(), Err(OrbitError::InvalidOrbitShape));
}

#[test]
fn longitude_is_wrapped_once() {
    let turn = |ls: f64| SolarLongitude.turn(ls.to_bits());
    assert_eq!(turn(-0.1), Turn::Forward);
    assert_eq!(turn(-7.0), Turn::Forward);
    assert_eq!(turn(-0.0), Turn::Stay);
    assert_eq!(turn(0.0), Turn::Stay);
    assert_eq!(turn(3.0), Turn::Stay);
    assert_eq!(turn(PI * 2.0), Turn::Stay);
    assert_eq!(turn(6.283185307179587), Turn::Backward);
    assert_eq!(turn(9.0), Turn::Backward);
    assert_eq!(turn(f64::NAN), Turn::Stay);
    for ls in samples() {
        let mut wrapped = ls;
        if wrapped < 0.0 {
            wrapped += PI * 2.0;
        }
        if wrapped > PI * 2.0 {
            wrapped -= PI * 2.0;
        }
        let by_turn = match turn(ls) {
            Turn::Forward => ls + PI * 2.0,
            Turn::Backward => ls - PI * 2.0,
            Turn::Stay => ls,
        };
        assert_eq!(by_turn.to_bits(), wrapped.to_bits(), "{ls}");
    }
}
