use the_sapphire_star::decimal::Decimal;
use the_sapphire_star::mass;
use the_sapphire_star::mass::Mass;
use the_sapphire_star::mass::Scale;

const SCALES: [Scale; 8] = [
    Scale::Gram,
    Scale::Kilogram,
    Scale::Ounce,
    Scale::Pound,
    Scale::LunarMass,
    Scale::EarthMass,
    Scale::JovianMass,
    Scale::SolarMass,
];

fn magnitudes() -> Vec<Decimal> {
    vec![
        Decimal::new(0, 0),
        Decimal::new(1, 0),
        Decimal::new(-1, 0),
        Decimal::new(104, -2),
        Decimal::new(3, -7),
        Decimal::new(15, 11),
        Decimal::new(i64::MAX, i16::MAX),
        Decimal::new(i64::MIN, i16::MIN),
    ]
}

#[test]
fn mass_round_trip_in_every_unit() {
    for scale in SCALES {
        for x in magnitudes() {
            let m = Mass::scaled(x, scale);
            assert_eq!(m.scale(), scale);
            assert_eq!(m.into(), x);
            assert!(m.to_unit(scale).equals(x));
        }
    }
}

#[test]
fn mass_in_grams_is_kept_as_given() {
    for x in magnitudes() {
        assert!(Mass::grams(x).to_unit(Scale::Gram).equals(x));
        assert!(Mass::new(x).to_unit(Scale::Gram).equals(x));
        assert!(Mass::from(x).to_unit(Scale::Gram).equals(x));
        assert_eq!(Mass::new(x), Mass::grams(x));
        assert_eq!(Mass::from(x), Mass::grams(x));
        assert_eq!(Mass::new(x).scale(), Scale::Gram);
    }
}

#[test]
fn mass_factors_in_grams() {
    let one = Decimal::new(1, 0);
    let grams = |m: Mass| m.to_unit(Scale::Gram);
    assert!(grams(Mass::grams(one)).equals(Decimal::new(1, 0)));
    assert!(grams(Mass::kilograms(one)).equals(Decimal::new(1, -3)));
    assert!(grams(Mass::ounces(one)).equals(Decimal::new(2_834_952, -5)));
    assert!(grams(Mass::pounds(one)).equals(Decimal::new(4_535_924, -4)));
    assert!(grams(Mass::lunar_masses(one)).equals(Decimal::new(7_342, 22)));
    assert!(grams(Mass::earth_masses(one)).equals(Decimal::new(59_722, 23)));
    assert!(grams(Mass::jovian_masses(one)).equals(Decimal::new(189_813, 25)));
    assert!(grams(Mass::solar_masses(one)).equals(Decimal::new(198_847, 28)));
}

#[test]
fn mass_short_names_are_the_long_ones() {
    let x = Decimal::new(25, -1);
    assert_eq!(Mass::g(x), Mass::grams(x));
    assert_eq!(Mass::kg(x), Mass::kilograms(x));
    assert_eq!(Mass::oz(x), Mass::ounces(x));
    assert_eq!(Mass::lb(x), Mass::pounds(x));
    assert_eq!(Mass::Mlunar(x), Mass::lunar_masses(x));
    assert_eq!(Mass::Mearth(x), Mass::earth_masses(x));
    assert_eq!(Mass::Mjovian(x), Mass::jovian_masses(x));
    assert_eq!(Mass::Msol(x), Mass::solar_masses(x));
    assert_eq!(Mass::scaled(x, Scale::Pound), Mass::pounds(x));
    assert_ne!(Mass::pounds(x), Mass::ounces(x));
}

#[test]
fn mass_across_units() {
    // 2 lb = 907.1848 g = 32 oz and a little: 907.1848 / 28.34952.
    let m = Mass::pounds(Decimal::new(2, 0));
    assert!(m.to_unit(Scale::Gram).equals(Decimal::new(9_071_848, -4)));
    let q = m.to_unit(Scale::Ounce);
    assert_eq!(q.mantissa(), 9_071_848);
    assert_eq!(q.exponent(), 1);
    assert_eq!(q.divisor(), 2_834_952);
    // A magnitude in kilograms is divided by a thousand.
    let m = Mass::kilograms(Decimal::new(5, 3));
    assert!(m.to_unit(Scale::Gram).equals(Decimal::new(5, 0)));
    assert!(Mass::grams(Decimal::new(5, 0)).to_unit(Scale::Kilogram).equals(Decimal::new(5, 3)));
    // 1.04 × 1.98847e33 g = 2.0680088e33 g
    let m = Mass::solar_masses(Decimal::new(104, -2));
    assert!(m.to_unit(Scale::Gram).equals(Decimal::new(20_680_088, 26)));
    assert!(!m.to_unit(Scale::Gram).equals(Decimal::new(104, -2)));
}

#[test]
fn mass_range_takes_each_end() {
    let r = Mass::range(Decimal::new(21, -1)..Decimal::new(16, 0), Scale::SolarMass);
    assert_eq!(r.start, Mass::solar_masses(Decimal::new(21, -1)));
    assert_eq!(r.end, Mass::solar_masses(Decimal::new(16, 0)));
    // The ends are taken as they come, in whatever order.
    let r = Mass::range(Decimal::new(3, 0)..Decimal::new(-3, 0), Scale::Ounce);
    assert_eq!(r.start, Mass::ounces(Decimal::new(3, 0)));
    assert_eq!(r.end, Mass::ounces(Decimal::new(-3, 0)));
}

#[test]
fn mass_is_written_with_its_symbol() {
    assert_eq!(Mass::grams(Decimal::new(16, 3)).to_string(), "16000 g");
    assert_eq!(Mass::kg(Decimal::new(0, 5)).to_string(), "0 kg");
    assert_eq!(Mass::oz(Decimal::new(12_345, -2)).to_string(), "123.45 oz");
    assert_eq!(Mass::pounds(Decimal::new(-3, -7)).to_string(), "-0.0000003 lb");
    assert_eq!(Mass::lunar_masses(Decimal::new(1, 0)).to_string(), "1 M☽");
    assert_eq!(Mass::earth_masses(Decimal::new(318, 0)).to_string(), "318 M♁");
    assert_eq!(Mass::jovian_masses(Decimal::new(75, -2)).to_string(), "0.75 M♃");
    assert_eq!(Mass::solar_masses(Decimal::new(104, -2)).to_string(), "1.04 M☉");
}

#[test]
fn mass_symbols() {
    let symbols: Vec<&str> = SCALES.iter().map(|s| s.symbol()).collect();
    assert_eq!(symbols, vec!["g", "kg", "oz", "lb", "M☽", "M♁", "M♃", "M☉"]);
}

#[test]
fn mass_bounds() {
    assert_eq!(mass::max(), Mass::grams(Decimal::max()));
    assert_eq!(mass::min(), Mass::grams(Decimal::min()));
    assert_eq!(mass::max().into(), Decimal::max());
    assert_eq!(mass::min().into(), Decimal::min());
    assert_eq!(mass::max().scale(), Scale::Gram);
    assert!(mass::min().into().mantissa() < 0);
}

#[test]
fn mass_defaults() {
    assert_eq!(Scale::default(), Scale::Gram);
    assert_eq!(Mass::default(), Mass::grams(Decimal::new(0, 0)));
}
