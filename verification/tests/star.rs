use the_sapphire_star::decimal::Decimal;
use the_sapphire_star::length;
use the_sapphire_star::length::Length;
use the_sapphire_star::mass;
use the_sapphire_star::mass::Mass;
use the_sapphire_star::power;
use the_sapphire_star::power::Power;
use the_sapphire_star::star::SpectralType;
use the_sapphire_star::temperature;
use the_sapphire_star::temperature::Temperature;

const MAIN_SEQUENCE: [SpectralType; 7] = [
    SpectralType::O,
    SpectralType::B,
    SpectralType::A,
    SpectralType::F,
    SpectralType::G,
    SpectralType::K,
    SpectralType::M,
];

const WHITE_DWARFS: [SpectralType; 11] = [
    SpectralType::DA,
    SpectralType::DB,
    SpectralType::DO,
    SpectralType::DQ,
    SpectralType::DZ,
    SpectralType::DC,
    SpectralType::DX,
    SpectralType::DAB,
    SpectralType::DAO,
    SpectralType::DAZ,
    SpectralType::DBZ,
];

const NON_STELLAR: [SpectralType; 2] = [SpectralType::P, SpectralType::Q];

const OTHERS: [SpectralType; 8] = [
    SpectralType::WR,
    SpectralType::L,
    SpectralType::T,
    SpectralType::Y,
    SpectralType::C,
    SpectralType::S,
    SpectralType::MS,
    SpectralType::SC,
];

fn all() -> Vec<SpectralType> {
    let mut all = Vec::new();
    all.extend(MAIN_SEQUENCE);
    all.extend(OTHERS);
    all.extend(WHITE_DWARFS);
    all.extend(NON_STELLAR);
    all
}

fn off_main_sequence() -> Vec<SpectralType> {
    all().into_iter().filter(|t| !MAIN_SEQUENCE.contains(t)).collect()
}

fn d(mantissa: i64, exponent: i16) -> Decimal {
    Decimal::new(mantissa, exponent)
}

#[test]
fn every_type_is_classified() {
    assert_eq!(all().len(), 28);
    for t in all() {
        let _ = t.is_main_sequence();
        let _ = t.is_white_dwarf();
        let _ = t.is_non_stellar();
        let _ = t.effective_temperature();
        let _ = t.main_sequence_mass();
        let _ = t.main_sequence_radius();
        let _ = t.main_sequence_luminosity();
        let _ = t.main_sequence_fraction();
    }
}

#[test]
fn the_groups_are_as_listed() {
    for t in all() {
        assert_eq!(t.is_main_sequence(), MAIN_SEQUENCE.contains(&t));
        assert_eq!(t.is_white_dwarf(), WHITE_DWARFS.contains(&t));
        assert_eq!(t.is_non_stellar(), NON_STELLAR.contains(&t));
    }
}

#[test]
fn no_type_is_in_two_groups() {
    for t in all() {
        let groups = [t.is_main_sequence(), t.is_white_dwarf(), t.is_non_stellar()];
        assert!(groups.iter().filter(|g| **g).count() <= 1);
    }
}

#[test]
fn main_sequence_fractions_come_to_nearly_one() {
    // In ten-millionths.
    let mut sum: i64 = 0;
    for t in MAIN_SEQUENCE {
        let share = t.main_sequence_fraction();
        assert!(share.exponent() >= -7 && share.exponent() <= 0);
        sum += share.mantissa() * 10_i64.pow((share.exponent() + 7) as u32);
    }
    assert_eq!(sum, 9_988_003);
    for t in off_main_sequence() {
        assert_eq!(t.main_sequence_fraction(), d(0, 0));
    }
}

#[test]
fn main_sequence_fractions_by_type() {
    let shares: Vec<Decimal> = MAIN_SEQUENCE.iter().map(|t| t.main_sequence_fraction()).collect();
    assert_eq!(
        shares,
        vec![d(3, -7), d(13, -4), d(6, -3), d(3, -2), d(76, -3), d(121, -3), d(7_645, -4)]
    );
}

#[test]
fn type_g_end_to_end() {
    let t = SpectralType::G;
    let temperature = t.effective_temperature();
    assert_eq!(temperature.start, Temperature::kelvin(52_000_000));
    assert_eq!(temperature.end, Temperature::kelvin(60_000_000));
    assert!(temperature.start.into().equals(d(5_200, 0)));
    assert!(temperature.end.into().equals(d(6_000, 0)));
    let mass = t.main_sequence_mass();
    assert_eq!(mass.start, Mass::solar_masses(d(8, -1)));
    assert_eq!(mass.end, Mass::solar_masses(d(104, -2)));
    assert_eq!(mass.start.into(), d(8, -1));
    assert_eq!(mass.end.into(), d(104, -2));
    assert_eq!(mass.start.scale(), mass::Scale::SolarMass);
    assert_eq!(mass.end.scale(), mass::Scale::SolarMass);
    assert_eq!(t.main_sequence_fraction(), d(76, -3));
}

#[test]
fn type_o_end_to_end() {
    let mass = SpectralType::O.main_sequence_mass();
    assert_eq!(mass.start, Mass::solar_masses(d(16, 0)));
    assert_eq!(mass.start.into(), d(16, 0));
    assert_eq!(mass.start.scale(), mass::Scale::SolarMass);
    assert_eq!(mass.end, mass::max());
}

#[test]
fn type_da_end_to_end() {
    let t = SpectralType::DA;
    assert!(t.is_white_dwarf());
    assert!(!t.is_main_sequence());
    let temperature = t.effective_temperature();
    assert_eq!(temperature.start, temperature::min());
    assert_eq!(temperature.end, temperature::max());
}

#[test]
fn effective_temperatures_by_type() {
    let k = |kelvin: i64| Temperature::kelvin(kelvin * 10_000);
    let table = [
        (SpectralType::O, k(30_000), temperature::max()),
        (SpectralType::B, k(10_000), k(30_000)),
        (SpectralType::A, k(7_500), k(10_000)),
        (SpectralType::F, k(6_000), k(7_500)),
        (SpectralType::G, k(5_200), k(6_000)),
        (SpectralType::K, k(3_700), k(5_200)),
        (SpectralType::M, k(2_400), k(3_700)),
    ];
    for (t, start, end) in table {
        let r = t.effective_temperature();
        assert_eq!((r.start, r.end), (start, end));
    }
    for t in off_main_sequence() {
        let r = t.effective_temperature();
        assert_eq!((r.start, r.end), (temperature::min(), temperature::max()));
    }
}

#[test]
fn main_sequence_masses_by_type() {
    let sol = |m: i64, e: i16| Mass::Msol(d(m, e));
    let table = [
        (SpectralType::O, sol(16, 0), mass::max()),
        (SpectralType::B, sol(21, -1), sol(16, 0)),
        (SpectralType::A, sol(14, -1), sol(21, -1)),
        (SpectralType::F, sol(104, -2), sol(14, -1)),
        (SpectralType::G, sol(8, -1), sol(104, -2)),
        (SpectralType::K, sol(45, -2), sol(8, -1)),
        (SpectralType::M, sol(8, -2), sol(45, -2)),
    ];
    for (t, start, end) in table {
        let r = t.main_sequence_mass();
        assert_eq!((r.start, r.end), (start, end));
    }
    for t in off_main_sequence() {
        let r = t.main_sequence_mass();
        assert_eq!((r.start, r.end), (mass::min(), mass::max()));
        assert!(r.start.into().mantissa() < 0);
    }
}

#[test]
fn main_sequence_radii_by_type() {
    let sol = |m: i64, e: i16| Length::Rsol(d(m, e));
    let table = [
        (SpectralType::O, sol(10, 0), length::max()),
        (SpectralType::B, sol(2, 0), sol(10, 0)),
        (SpectralType::A, sol(14, -1), sol(2, 0)),
        (SpectralType::F, sol(115, -2), sol(14, -1)),
        (SpectralType::G, sol(9, -1), sol(115, -2)),
        (SpectralType::K, sol(6, -1), sol(9, -1)),
        (SpectralType::M, length::zero(), sol(6, -1)),
    ];
    for (t, start, end) in table {
        let r = t.main_sequence_radius();
        assert_eq!((r.start, r.end), (start, end));
    }
    for t in off_main_sequence() {
        let r = t.main_sequence_radius();
        assert_eq!((r.start, r.end), (length::zero(), length::max()));
    }
}

#[test]
fn main_sequence_luminosities_by_type() {
    let sol = |m: i64, e: i16| Power::Lsol(d(m, e));
    let table = [
        (SpectralType::O, sol(30_000, 0), power::max()),
        (SpectralType::B, sol(25, 0), sol(30_000, 0)),
        (SpectralType::A, sol(5, 0), sol(25, 0)),
        (SpectralType::F, sol(15, -1), sol(5, 0)),
        (SpectralType::G, sol(6, -1), sol(15, -1)),
        (SpectralType::K, sol(8, -2), sol(6, -1)),
        (SpectralType::M, sol(0, 0), sol(8, -2)),
    ];
    for (t, start, end) in table {
        let r = t.main_sequence_luminosity();
        assert_eq!((r.start, r.end), (start, end));
    }
    for t in off_main_sequence() {
        let r = t.main_sequence_luminosity();
        assert_eq!((r.start, r.end), (power::zero(), power::max()));
    }
}

#[test]
fn ranges_are_written_with_their_units() {
    let r = SpectralType::G.main_sequence_mass();
    assert_eq!(r.start.to_string(), "0.8 M☉");
    assert_eq!(r.end.to_string(), "1.04 M☉");
    let r = SpectralType::G.effective_temperature();
    assert_eq!(r.start.to_string(), "5200 K");
    assert_eq!(r.end.to_string(), "6000 K");
    let r = SpectralType::M.main_sequence_radius();
    assert_eq!(r.start.to_string(), "0 m");
    assert_eq!(r.end.to_string(), "0.6 R☉");
    let r = SpectralType::K.main_sequence_luminosity();
    assert_eq!(r.start.to_string(), "0.08 L☉");
    assert_eq!(r.end.to_string(), "0.6 L☉");
}
