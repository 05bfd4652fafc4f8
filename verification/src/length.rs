//! Length, kept in meters.
use crate::decimal::lemma_pow10_positive;
use crate::decimal::pow10;
use crate::decimal::scientific;
use crate::decimal::Decimal;
use crate::decimal::Magnitude;
use crate::decimal::Quotient;
use crate::decimal::MAX_EXPONENT;
use crate::text::decimal_text;
use core::ops::Range;
use vstd::prelude::*;

verus! {

/// The units of length.
#[derive(Clone, Copy, Debug, PartialEq, Eq, Structural)]
pub enum Scale {
    Millimeter,
    Centimeter,
    Meter,
    Kilometer,
    Megameter,
    Inch,
    Hand,
    Foot,
    Cubit,
    Yard,
    Mile,
    NauticalMile,
    EarthRadius,
    SolarRadius,
    AstronomicalUnit,
    Parsec,
    Kiloparsec,
    Megaparsec,
    LightSecond,
    LightMinute,
    LightHour,
    LightDay,
    LightWeek,
    LightYear,
}

impl Default for Scale {
    fn default() -> (s: Scale)
        ensures
            s == Scale::Meter,
    {
        Scale::Meter
    }
}

impl Scale {
    /// The conversion factor of the unit: the mantissa and the exponent of the
    /// meters that a magnitude of one comes to.
    pub open spec fn factor_parts(self) -> (int, int) {
        match self {
            Scale::Millimeter => (1, -3),
            Scale::Centimeter => (1, -2),
            Scale::Meter => (1, 0),
            Scale::Kilometer => (1, 3),
            Scale::Megameter => (1, 6),
            Scale::Inch => (254, -4),
            Scale::Hand => (1_016, -4),
            Scale::Foot => (3_048, -4),
            Scale::Cubit => (4_572, -4),
            Scale::Yard => (9_144, -4),
            Scale::Mile => (1_609_344, -3),
            Scale::NauticalMile => (1_852_001, -3),
            Scale::EarthRadius => (63_781, 2),
            Scale::SolarRadius => (6_957, 5),
            Scale::AstronomicalUnit => (1_495_978_707, 2),
            Scale::Parsec => (30_856_775_814_913_673, 0),
            Scale::Kiloparsec => (30_856_775_814_913_673, 3),
            Scale::Megaparsec => (30_856_775_814_913_673, 6),
            Scale::LightSecond => (299_792_458, 0),
            Scale::LightMinute => (1_798_754_748, 1),
            Scale::LightHour => (10_792_528_488, 2),
            Scale::LightDay => (259_020_683_712, 2),
            Scale::LightWeek => (1_813_144_785_984, 2),
            Scale::LightYear => (946_073, 7),
        }
    }

    /// The meters that a magnitude of one in this unit comes to.
    pub open spec fn meters(self) -> real {
        scientific(self.factor_parts().0, self.factor_parts().1)
    }

    /// The meters in `magnitude` of this unit.
    pub open spec fn to_meters(self, magnitude: real) -> real {
        magnitude * self.meters()
    }

    /// The magnitude, in this unit, of so many meters.
    pub open spec fn from_meters(self, meters: real) -> real {
        meters / self.meters()
    }

    /// The symbol of the unit.
    pub open spec fn symbol_text(self) -> Seq<char> {
        match self {
            Scale::Millimeter => "mm"@,
            Scale::Centimeter => "cm"@,
            Scale::Meter => "m"@,
            Scale::Kilometer => "km"@,
            Scale::Megameter => "Mm"@,
            Scale::Inch => "in"@,
            Scale::Hand => "hh"@,
            Scale::Foot => "ft"@,
            Scale::Cubit => "cubit"@,
            Scale::Yard => "yd"@,
            Scale::Mile => "mi"@,
            Scale::NauticalMile => "nmi"@,
            Scale::EarthRadius => "R♁"@,
            Scale::SolarRadius => "R☉"@,
            Scale::AstronomicalUnit => "au"@,
            Scale::Parsec => "pc"@,
            Scale::Kiloparsec => "kpc"@,
            Scale::Megaparsec => "Mpc"@,
            Scale::LightSecond => "ls"@,
            Scale::LightMinute => "lmin"@,
            Scale::LightHour => "lh"@,
            Scale::LightDay => "ld"@,
            Scale::LightWeek => "lw"@,
            Scale::LightYear => "ly"@,
        }
    }

    /// The conversion factor of the unit, in meters.
    pub fn factor(self) -> (f: Decimal)
        ensures
            f@ == self.meters(),
            f.mantissa() == self.factor_parts().0,
            f.exponent() == self.factor_parts().1,
            f.is_factor(),
    {
        match self {
            Scale::Millimeter => Decimal::new(1, -3),
            Scale::Centimeter => Decimal::new(1, -2),
            Scale::Meter => Decimal::new(1, 0),
            Scale::Kilometer => Decimal::new(1, 3),
            Scale::Megameter => Decimal::new(1, 6),
            Scale::Inch => Decimal::new(254, -4),
            Scale::Hand => Decimal::new(1_016, -4),
            Scale::Foot => Decimal::new(3_048, -4),
            Scale::Cubit => Decimal::new(4_572, -4),
            Scale::Yard => Decimal::new(9_144, -4),
            Scale::Mile => Decimal::new(1_609_344, -3),
            Scale::NauticalMile => Decimal::new(1_852_001, -3),
            Scale::EarthRadius => Decimal::new(63_781, 2),
            Scale::SolarRadius => Decimal::new(6_957, 5),
            Scale::AstronomicalUnit => Decimal::new(1_495_978_707, 2),
            Scale::Parsec => Decimal::new(30_856_775_814_913_673, 0),
            Scale::Kiloparsec => Decimal::new(30_856_775_814_913_673, 3),
            Scale::Megaparsec => Decimal::new(30_856_775_814_913_673, 6),
            Scale::LightSecond => Decimal::new(299_792_458, 0),
            Scale::LightMinute => Decimal::new(1_798_754_748, 1),
            Scale::LightHour => Decimal::new(10_792_528_488, 2),
            Scale::LightDay => Decimal::new(259_020_683_712, 2),
            Scale::LightWeek => Decimal::new(1_813_144_785_984, 2),
            Scale::LightYear => Decimal::new(946_073, 7),
        }
    }

    /// The symbol of the unit.
    pub fn symbol(self) -> (s: &'static str)
        ensures
            s@ == self.symbol_text(),
    {
        match self {
            Scale::Millimeter => "mm",
            Scale::Centimeter => "cm",
            Scale::Meter => "m",
            Scale::Kilometer => "km",
            Scale::Megameter => "Mm",
            Scale::Inch => "in",
            Scale::Hand => "hh",
            Scale::Foot => "ft",
            Scale::Cubit => "cubit",
            Scale::Yard => "yd",
            Scale::Mile => "mi",
            Scale::NauticalMile => "nmi",
            Scale::EarthRadius => "R♁",
            Scale::SolarRadius => "R☉",
            Scale::AstronomicalUnit => "au",
            Scale::Parsec => "pc",
            Scale::Kiloparsec => "kpc",
            Scale::Megaparsec => "Mpc",
            Scale::LightSecond => "ls",
            Scale::LightMinute => "lmin",
            Scale::LightHour => "lh",
            Scale::LightDay => "ld",
            Scale::LightWeek => "lw",
            Scale::LightYear => "ly",
        }
    }

    /// Every unit stands for a positive number of meters.
    pub proof fn lemma_positive(self)
        ensures
            self.meters() > 0 as real,
    {
        let (m, e) = self.factor_parts();
        lemma_pow10_positive(e);
        let p = pow10(e);
        assert(m as real * p > 0 as real) by (nonlinear_arith)
            requires
                m > 0,
                p > 0 as real,
        ;
    }

    /// A magnitude taken to meters and back in the same unit is unchanged.
    pub proof fn lemma_round_trip(self, magnitude: real)
        ensures
            self.from_meters(self.to_meters(magnitude)) == magnitude,
    {
        self.lemma_positive();
        let f = self.meters();
        assert((magnitude * f) / f == magnitude) by (nonlinear_arith)
            requires
                f > 0 as real,
        ;
    }

    /// In meters, the magnitude is the length.
    pub proof fn lemma_meter_is_base(magnitude: real)
        ensures
            Scale::Meter.to_meters(magnitude) == magnitude,
            Scale::Meter.from_meters(magnitude) == magnitude,
    {
        let f = Scale::Meter.meters();
        assert(f == 1 as real) by {
            assert(pow10(0) == 1 as real);
            assert(1 as real * (1 as real) == 1 as real) by (nonlinear_arith);
        }
        assert(magnitude * f == magnitude && magnitude / f == magnitude) by (nonlinear_arith)
            requires
                f == 1 as real,
        ;
    }

    /// A greater magnitude in the same unit is a greater length.
    pub proof fn lemma_order_is_kept(self, lesser: real, greater: real)
        requires
            lesser <= greater,
        ensures
            self.to_meters(lesser) <= self.to_meters(greater),
    {
        self.lemma_positive();
        let f = self.meters();
        assert(lesser * f <= greater * f) by (nonlinear_arith)
            requires
                lesser <= greater,
                f > 0 as real,
        ;
    }
}

/// A length: so many meters, together with the unit and the magnitude that it
/// was given in.
#[derive(Clone, Copy, Debug, PartialEq, Eq, Structural)]
pub struct Length {
    /// The magnitude as it was given, in `scale`.
    given: Decimal,
    meters: Magnitude,
    scale: Scale,
}

impl View for Length {
    type V = real;

    /// The length in meters.
    closed spec fn view(&self) -> real {
        self.meters@
    }
}

impl Default for Length {
    fn default() -> (q: Length)
        ensures
            q.measures(0 as real, Scale::Meter),
    {
        Length::meters(Decimal::new(0, 0))
    }
}

impl Length {
    /// The unit, in contracts.
    pub closed spec fn spec_scale(&self) -> Scale {
        self.scale
    }

    /// The magnitude in the length's own unit, in contracts.
    pub closed spec fn spec_into(self) -> Decimal {
        self.given
    }

    /// The meters are those of the magnitude that was given, in its unit. Every
    /// length that a program holds is so.
    #[verifier::type_invariant]
    pub closed spec fn wf(self) -> bool {
        let (m, e) = self.scale.factor_parts();
        &&& self.given.wf()
        &&& self.meters.mantissa() == self.given.mantissa() * m
        &&& self.meters.exponent() == self.given.exponent() + e
        &&& self.meters@ == self.scale.to_meters(self.given@)
    }

    /// The length is `magnitude` of the unit `scale`, and was given so.
    pub open spec fn measures(self, magnitude: real, scale: Scale) -> bool {
        &&& self.wf()
        &&& self.scale() == scale
        &&& self.into()@ == magnitude
        &&& self.into().wf()
        &&& self@ == scale.to_meters(magnitude)
    }

    /// Two lengths of the same magnitude of the same unit are the same length.
    pub proof fn lemma_one_measure(self, other: Length, magnitude: real, scale: Scale)
        requires
            self.measures(magnitude, scale),
            other.measures(magnitude, scale),
        ensures
            self == other,
    {
        self.given.lemma_equal_views(other.given);
        self.meters.lemma_equal_parts(other.meters);
    }

    /// A length of so many meters.
    pub fn new(meters: Decimal) -> (q: Length)
        ensures
            q.measures(meters@, Scale::Meter),
            q.into() == meters,
            q@ == meters@,
    {
        Length::meters(meters)
    }

    /// The length of `length` units of `scale`.
    pub fn scaled(length: Decimal, scale: Scale) -> (q: Length)
        ensures
            q.measures(length@, scale),
            q.into() == length,
    {
        proof {
            use_type_invariant(length);
        }
        Length { given: length, meters: Magnitude::product(length, scale.factor()), scale }
    }

    /// A length given in millimeters.
    pub fn millimeters(millimeters: Decimal) -> (q: Length)
        ensures
            q.measures(millimeters@, Scale::Millimeter),
            q.into() == millimeters,
    {
        Length::scaled(millimeters, Scale::Millimeter)
    }

    /// A length given in centimeters.
    pub fn centimeters(centimeters: Decimal) -> (q: Length)
        ensures
            q.measures(centimeters@, Scale::Centimeter),
            q.into() == centimeters,
    {
        Length::scaled(centimeters, Scale::Centimeter)
    }

    /// A length given in meters.
    pub fn meters(meters: Decimal) -> (q: Length)
        ensures
            q.measures(meters@, Scale::Meter),
            q.into() == meters,
            q@ == meters@,
    {
        proof {
            Scale::lemma_meter_is_base(meters@);
        }
        Length::scaled(meters, Scale::Meter)
    }

    /// A length given in kilometers.
    pub fn kilometers(kilometers: Decimal) -> (q: Length)
        ensures
            q.measures(kilometers@, Scale::Kilometer),
            q.into() == kilometers,
    {
        Length::scaled(kilometers, Scale::Kilometer)
    }

    /// A length given in megameters.
    pub fn megameters(megameters: Decimal) -> (q: Length)
        ensures
            q.measures(megameters@, Scale::Megameter),
            q.into() == megameters,
    {
        Length::scaled(megameters, Scale::Megameter)
    }

    /// A length given in inches.
    pub fn inches(inches: Decimal) -> (q: Length)
        ensures
            q.measures(inches@, Scale::Inch),
            q.into() == inches,
    {
        Length::scaled(inches, Scale::Inch)
    }

    /// A length given in hands.
    pub fn hands(hands: Decimal) -> (q: Length)
        ensures
            q.measures(hands@, Scale::Hand),
            q.into() == hands,
    {
        Length::scaled(hands, Scale::Hand)
    }

    /// A length given in feet.
    pub fn feet(feet: Decimal) -> (q: Length)
        ensures
            q.measures(feet@, Scale::Foot),
            q.into() == feet,
    {
        Length::scaled(feet, Scale::Foot)
    }

    /// A length given in cubits.
    pub fn cubits(cubits: Decimal) -> (q: Length)
        ensures
            q.measures(cubits@, Scale::Cubit),
            q.into() == cubits,
    {
        Length::scaled(cubits, Scale::Cubit)
    }

    /// A length given in yards.
    pub fn yards(yards: Decimal) -> (q: Length)
        ensures
            q.measures(yards@, Scale::Yard),
            q.into() == yards,
    {
        Length::scaled(yards, Scale::Yard)
    }

    /// A length given in miles.
    pub fn miles(miles: Decimal) -> (q: Length)
        ensures
            q.measures(miles@, Scale::Mile),
            q.into() == miles,
    {
        Length::scaled(miles, Scale::Mile)
    }

    /// A length given in nautical miles.
    pub fn nautical_miles(nautical_miles: Decimal) -> (q: Length)
        ensures
            q.measures(nautical_miles@, Scale::NauticalMile),
            q.into() == nautical_miles,
    {
        Length::scaled(nautical_miles, Scale::NauticalMile)
    }

    /// A length given in radii of the Earth.
    pub fn earth_radii(earth_radii: Decimal) -> (q: Length)
        ensures
            q.measures(earth_radii@, Scale::EarthRadius),
            q.into() == earth_radii,
    {
        Length::scaled(earth_radii, Scale::EarthRadius)
    }

    /// A length given in radii of the Sun.
    pub fn solar_radii(solar_radii: Decimal) -> (q: Length)
        ensures
            q.measures(solar_radii@, Scale::SolarRadius),
            q.into() == solar_radii,
    {
        Length::scaled(solar_radii, Scale::SolarRadius)
    }

    /// A length given in astronomical units.
    pub fn astronomical_units(astronomical_units: Decimal) -> (q: Length)
        ensures
            q.measures(astronomical_units@, Scale::AstronomicalUnit),
            q.into() == astronomical_units,
    {
        Length::scaled(astronomical_units, Scale::AstronomicalUnit)
    }

    /// A length given in parsecs.
    pub fn parsecs(parsecs: Decimal) -> (q: Length)
        ensures
            q.measures(parsecs@, Scale::Parsec),
            q.into() == parsecs,
    {
        Length::scaled(parsecs, Scale::Parsec)
    }

    /// A length given in kiloparsecs.
    pub fn kiloparsecs(kiloparsecs: Decimal) -> (q: Length)
        ensures
            q.measures(kiloparsecs@, Scale::Kiloparsec),
            q.into() == kiloparsecs,
    {
        Length::scaled(kiloparsecs, Scale::Kiloparsec)
    }

    /// A length given in megaparsecs.
    pub fn megaparsecs(megaparsecs: Decimal) -> (q: Length)
        ensures
            q.measures(megaparsecs@, Scale::Megaparsec),
            q.into() == megaparsecs,
    {
        Length::scaled(megaparsecs, Scale::Megaparsec)
    }

    /// A length given in light-seconds.
    pub fn light_seconds(light_seconds: Decimal) -> (q: Length)
        ensures
            q.measures(light_seconds@, Scale::LightSecond),
            q.into() == light_seconds,
    {
        Length::scaled(light_seconds, Scale::LightSecond)
    }

    /// A length given in light-minutes.
    pub fn light_minutes(light_minutes: Decimal) -> (q: Length)
        ensures
            q.measures(light_minutes@, Scale::LightMinute),
            q.into() == light_minutes,
    {
        Length::scaled(light_minutes, Scale::LightMinute)
    }

    /// A length given in light-hours.
    pub fn light_hours(light_hours: Decimal) -> (q: Length)
        ensures
            q.measures(light_hours@, Scale::LightHour),
            q.into() == light_hours,
    {
        Length::scaled(light_hours, Scale::LightHour)
    }

    /// A length given in light-days.
    pub fn light_days(light_days: Decimal) -> (q: Length)
        ensures
            q.measures(light_days@, Scale::LightDay),
            q.into() == light_days,
    {
        Length::scaled(light_days, Scale::LightDay)
    }

    /// A length given in light-weeks.
    pub fn light_weeks(light_weeks: Decimal) -> (q: Length)
        ensures
            q.measures(light_weeks@, Scale::LightWeek),
            q.into() == light_weeks,
    {
        Length::scaled(light_weeks, Scale::LightWeek)
    }

    /// A length given in light-years.
    pub fn light_years(light_years: Decimal) -> (q: Length)
        ensures
            q.measures(light_years@, Scale::LightYear),
            q.into() == light_years,
    {
        Length::scaled(light_years, Scale::LightYear)
    }

    /// A length given in radii of the Sun.
    #[allow(non_snake_case)]
    pub fn Rsol(solar_radii: Decimal) -> (q: Length)
        ensures
            q.measures(solar_radii@, Scale::SolarRadius),
            q.into() == solar_radii,
    {
        Length::solar_radii(solar_radii)
    }

    /// The lengths at the two ends of `range`, each taken in `scale`. Nothing
    /// is asked of the order of the ends, and what order they have is kept.
    pub fn range(range: Range<Decimal>, scale: Scale) -> (r: Range<Length>)
        ensures
            r.start.measures(range.start@, scale),
            r.start.into() == range.start,
            r.end.measures(range.end@, scale),
            r.end.into() == range.end,
            range.start@ <= range.end@ ==> r.start@ <= r.end@,
            range.start@ >= range.end@ ==> r.start@ >= r.end@,
    {
        proof {
            if range.start@ <= range.end@ {
                scale.lemma_order_is_kept(range.start@, range.end@);
            }
            if range.start@ >= range.end@ {
                scale.lemma_order_is_kept(range.end@, range.start@);
            }
        }
        Length::scaled(range.start, scale)..Length::scaled(range.end, scale)
    }

    /// The unit that the length was given in.
    #[verifier::when_used_as_spec(spec_scale)]
    pub fn scale(&self) -> (s: Scale)
        ensures
            s == self.spec_scale(),
    {
        self.scale
    }

    /// The magnitude of the length in its own unit: the meters, taken back to
    /// the unit that the length was given in.
    #[verifier::when_used_as_spec(spec_into)]
    pub fn into(self) -> (magnitude: Decimal)
        ensures
            magnitude == self.spec_into(),
            magnitude@ == self.scale().from_meters(self@),
            magnitude.wf(),
    {
        proof {
            use_type_invariant(self);
            self.scale.lemma_round_trip(self.given@);
        }
        self.given
    }

    /// The magnitude of the length in the unit `scale`, whatever unit it was
    /// given in.
    pub fn to_unit(self, scale: Scale) -> (magnitude: Quotient)
        ensures
            magnitude@ == scale.from_meters(self@),
            magnitude.mantissa() == self.into().mantissa() * self.scale().factor_parts().0,
            magnitude.exponent() == self.into().exponent() + self.scale().factor_parts().1
                - scale.factor_parts().1,
            magnitude.divisor() == scale.factor_parts().0,
    {
        proof {
            use_type_invariant(self);
        }
        self.meters.over(scale.factor())
    }

    /// The magnitude in the length's own unit, a space, and the unit's symbol.
    pub fn to_string(&self) -> (s: String)
        ensures
            s@ == decimal_text((*self).into().mantissa() as int, (*self).into().exponent() as int)
                + seq![' '] + self.scale().symbol_text(),
    {
        let mut s = self.given.to_string();
        proof {
            reveal_strlit(" ");
        }
        s.append(" ");
        s.append(self.scale.symbol());
        assert(" "@ =~= seq![' ']);
        s
    }
}

/// No length at all: the least length that is used as a bound.
pub fn zero() -> (q: Length)
    ensures
        q.measures(0 as real, Scale::Meter),
{
    Length::meters(Decimal::new(0, 0))
}

/// The greatest length that is used as a bound: the greatest decimal, in
/// meters.
pub fn max() -> (q: Length)
    ensures
        q.measures(scientific(i64::MAX as int, MAX_EXPONENT as int), Scale::Meter),
{
    Length::meters(Decimal::max())
}

} // verus!
