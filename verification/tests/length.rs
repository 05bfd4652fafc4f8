use the_sapphire_star::decimal::Decimal;
use the_sapphire_star::length;
use the_sapphire_star::length::Length;
use the_sapphire_star::length::Scale;

const SCALES: [Scale; 24] = [
    Scale::Millimeter,
    Scale::Centimeter,
    Scale::Meter,
    Scale::Kilometer,
    Scale::Megameter,
    Scale::Inch,
    Scale::Hand,
    Scale::Foot,
    Scale::Cubit,
    Scale::Yard,
    Scale::Mile,
    Scale::NauticalMile,
    Scale::EarthRadius,
    Scale::SolarRadius,
    Scale::AstronomicalUnit,
    Scale::Parsec,
    Scale::Kiloparsec,
    Scale::Megaparsec,
    Scale::LightSecond,
    Scale::LightMinute,
    Scale::LightHour,
    Scale::LightDay,
    Scale::LightWeek,
    Scale::LightYear,
];

fn magnitudes() -> Vec<Decimal> {
    vec![
        Decimal::new(0, 0),
        Decimal::new(1, 0),
        Decimal::new(-1, 0),
        Decimal::new(115, -2),
        Decimal::new(93, 9),
        Decimal::new(i64::MAX, i16::MAX),
        Decimal::new(i64::MIN, i16::MIN),
    ]
}

#[test]
fn length_round_trip_in_every_unit() {
    for scale in SCALES {
        for x in magnitudes() {
            let l = Length::scaled(x, scale);
            assert_eq!(l.scale(), scale);
            assert_eq!(l.into(), x);
            assert!(l.to_unit(scale).equals(x));
        }
    }
}

#[test]
fn length_in_meters_is_kept_as_given() {
    for x in magnitudes() {
        assert!(Length::meters(x).to_unit(Scale::Meter).equals(x));
        assert_eq!(Length::new(x), Length::meters(x));
        assert_eq!(Length::new(x).scale(), Scale::Meter);
    }
}

#[test]
fn kilometer_and_mile_in_meters() {
    let one = Decimal::new(1, 0);
    let km = Length::scaled(one, Scale::Kilometer);
    assert!(km.to_unit(Scale::Meter).equals(Decimal::new(1_000, 0)));
    let mile = Length::scaled(one, Scale::Mile);
    assert!(mile.to_unit(Scale::Meter).equals(Decimal::new(1_609_344, -3)));
    assert!(!mile.to_unit(Scale::Meter).equals(Decimal::new(1_609, 0)));
}

#[test]
fn length_factors_in_meters() {
    let one = Decimal::new(1, 0);
    let meters = |l: Length| l.to_unit(Scale::Meter);
    assert!(meters(Length::millimeters(one)).equals(Decimal::new(1, -3)));
    assert!(meters(Length::centimeters(one)).equals(Decimal::new(1, -2)));
    assert!(meters(Length::meters(one)).equals(Decimal::new(1, 0)));
    assert!(meters(Length::kilometers(one)).equals(Decimal::new(1_000, 0)));
    assert!(meters(Length::megameters(one)).equals(Decimal::new(1_000_000, 0)));
    assert!(meters(Length::inches(one)).equals(Decimal::new(254, -4)));
    assert!(meters(Length::hands(one)).equals(Decimal::new(1_016, -4)));
    assert!(meters(Length::feet(one)).equals(Decimal::new(3_048, -4)));
    assert!(meters(Length::cubits(one)).equals(Decimal::new(4_572, -4)));
    assert!(meters(Length::yards(one)).equals(Decimal::new(9_144, -4)));
    assert!(meters(Length::miles(one)).equals(Decimal::new(1_609_344, -3)));
    assert!(meters(Length::nautical_miles(one)).equals(Decimal::new(1_852_001, -3)));
    assert!(meters(Length::earth_radii(one)).equals(Decimal::new(6_378_100, 0)));
    assert!(meters(Length::solar_radii(one)).equals(Decimal::new(695_700_000, 0)));
    assert!(meters(Length::astronomical_units(one)).equals(Decimal::new(149_597_870_700, 0)));
    assert!(meters(Length::parsecs(one)).equals(Decimal::new(30_856_775_814_913_673, 0)));
    assert!(meters(Length::kiloparsecs(one)).equals(Decimal::new(30_856_775_814_913_673, 3)));
    assert!(meters(Length::megaparsecs(one)).equals(Decimal::new(30_856_775_814_913_673, 6)));
    assert!(meters(Length::light_seconds(one)).equals(Decimal::new(299_792_458, 0)));
    assert!(meters(Length::light_minutes(one)).equals(Decimal::new(299_792_458 * 60, 0)));
    assert!(meters(Length::light_hours(one)).equals(Decimal::new(299_792_458 * 3_600, 0)));
    assert!(meters(Length::light_days(one)).equals(Decimal::new(299_792_458 * 86_400, 0)));
    assert!(meters(Length::light_weeks(one)).equals(Decimal::new(299_792_458 * 604_800, 0)));
    assert!(meters(Length::light_years(one)).equals(Decimal::new(9_460_730_000_000, 0)));
}

#[test]
fn length_named_units_are_scaled() {
    let x = Decimal::new(115, -2);
    let named = [
        Length::millimeters(x),
        Length::centimeters(x),
        Length::meters(x),
        Length::kilometers(x),
        Length::megameters(x),
        Length::inches(x),
        Length::hands(x),
        Length::feet(x),
        Length::cubits(x),
        Length::yards(x),
        Length::miles(x),
        Length::nautical_miles(x),
        Length::earth_radii(x),
        Length::solar_radii(x),
        Length::astronomical_units(x),
        Length::parsecs(x),
        Length::kiloparsecs(x),
        Length::megaparsecs(x),
        Length::light_seconds(x),
        Length::light_minutes(x),
        Length::light_hours(x),
        Length::light_days(x),
        Length::light_weeks(x),
        Length::light_years(x),
    ];
    for (l, scale) in named.iter().zip(SCALES) {
        assert_eq!(*l, Length::scaled(x, scale));
    }
    assert_eq!(Length::Rsol(x), Length::solar_radii(x));
}

#[test]
fn length_across_units() {
    // 3 ft = 1 yd
    assert!(Length::feet(Decimal::new(3, 0)).to_unit(Scale::Yard).equals(Decimal::new(1, 0)));
    // 1 MPc = 1000 kpc
    let l = Length::megaparsecs(Decimal::new(1, 0));
    assert!(l.to_unit(Scale::Kiloparsec).equals(Decimal::new(1_000, 0)));
    // 1 light-week = 7 light-days
    let l = Length::light_weeks(Decimal::new(1, 0));
    assert!(l.to_unit(Scale::LightDay).equals(Decimal::new(7, 0)));
    // 2.54 cm = 1 in
    let l = Length::centimeters(Decimal::new(254, -2));
    assert!(l.to_unit(Scale::Inch).equals(Decimal::new(1, 0)));
    assert!(!l.to_unit(Scale::Inch).equals(Decimal::new(254, -2)));
}

#[test]
fn length_range_takes_each_end() {
    let r = Length::range(Decimal::new(9, -1)..Decimal::new(115, -2), Scale::SolarRadius);
    assert_eq!(r.start, Length::solar_radii(Decimal::new(9, -1)));
    assert_eq!(r.end, Length::solar_radii(Decimal::new(115, -2)));
}

#[test]
fn length_is_written_with_its_symbol() {
    assert_eq!(Length::kilometers(Decimal::new(42_195, -3)).to_string(), "42.195 km");
    assert_eq!(Length::Rsol(Decimal::new(6, -1)).to_string(), "0.6 R☉");
    assert_eq!(Length::earth_radii(Decimal::new(11, 0)).to_string(), "11 R♁");
    assert_eq!(Length::light_years(Decimal::new(93, 9)).to_string(), "93000000000 ly");
    let symbols: Vec<&str> = SCALES.iter().map(|s| s.symbol()).collect();
    assert_eq!(
        symbols,
        vec![
            "mm", "cm", "m", "km", "Mm", "in", "hh", "ft", "cubit", "yd", "mi", "nmi", "R♁",
            "R☉", "au", "pc", "kpc", "Mpc", "ls", "lmin", "lh", "ld", "lw", "ly"
        ]
    );
}

#[test]
fn length_bounds() {
    assert_eq!(length::zero(), Length::meters(Decimal::new(0, 0)));
    assert_eq!(length::max(), Length::meters(Decimal::max()));
    assert_eq!(length::max().into(), Decimal::max());
    assert_eq!(Scale::default(), Scale::Meter);
    assert_eq!(Length::default(), length::zero());
}
