//! Mass, kept in grams.
use crate::decimal::lemma_pow10_positive;
use crate::decimal::pow10;
use crate::decimal::scientific;
use crate::decimal::Decimal;
use crate::decimal::Magnitude;
use crate::decimal::Quotient;
use crate::decimal::MAX_EXPONENT;
use crate::text::decimal_text;
use core::ops::Range;
use vstd::prelude::*;

verus! {

/// The units of mass.
#[derive(Clone, Copy, Debug, PartialEq, Eq, Structural)]
pub enum Scale {
    Gram,
    Kilogram,
    Ounce,
    Pound,
    LunarMass,
    EarthMass,
    JovianMass,
    SolarMass,
}

impl Default for Scale {
    fn default() -> (s: Scale)
        ensures
            s == Scale::Gram,
    {
        Scale::Gram
    }
}

impl Scale {
    /// The conversion factor of the unit: the mantissa and the exponent of the
    /// grams that a magnitude of one comes to. A magnitude in kilograms is
    /// divided by a thousand.
    pub open spec fn factor_parts(self) -> (int, int) {
        match self {
            Scale::Gram => (1, 0),
            Scale::Kilogram => (1, -3),
            Scale::Ounce => (2_834_952, -5),
            Scale::Pound => (4_535_924, -4),
            Scale::LunarMass => (7_342, 22),
            Scale::EarthMass => (59_722, 23),
            Scale::JovianMass => (189_813, 25),
            Scale::SolarMass => (198_847, 28),
        }
    }

    /// The grams that a magnitude of one in this unit comes to.
    pub open spec fn grams(self) -> real {
        scientific(self.factor_parts().0, self.factor_parts().1)
    }

    /// The grams in `magnitude` of this unit.
    pub open spec fn to_grams(self, magnitude: real) -> real {
        magnitude * self.grams()
    }

    /// The magnitude, in this unit, of so many grams.
    pub open spec fn from_grams(self, grams: real) -> real {
        grams / self.grams()
    }

    /// The symbol of the unit.
    pub open spec fn symbol_text(self) -> Seq<char> {
        match self {
            Scale::Gram => "g"@,
            Scale::Kilogram => "kg"@,
            Scale::Ounce => "oz"@,
            Scale::Pound => "lb"@,
            Scale::LunarMass => "M☽"@,
            Scale::EarthMass => "M♁"@,
            Scale::JovianMass => "M♃"@,
            Scale::SolarMass => "M☉"@,
        }
    }

    /// The conversion factor of the unit, in grams.
    pub fn factor(self) -> (f: Decimal)
        ensures
            f@ == self.grams(),
            f.mantissa() == self.factor_parts().0,
            f.exponent() == self.factor_parts().1,
            f.is_factor(),
    {
        match self {
            Scale::Gram => Decimal::new(1, 0),
            Scale::Kilogram => Decimal::new(1, -3),
            Scale::Ounce => Decimal::new(2_834_952, -5),
            Scale::Pound => Decimal::new(4_535_924, -4),
            Scale::LunarMass => Decimal::new(7_342, 22),
            Scale::EarthMass => Decimal::new(59_722, 23),
            Scale::JovianMass => Decimal::new(189_813, 25),
            Scale::SolarMass => Decimal::new(198_847, 28),
        }
    }

    /// The symbol of the unit.
    pub fn symbol(self) -> (s: &'static str)
        ensures
            s@ == self.symbol_text(),
    {
        match self {
            Scale::Gram => "g",
            Scale::Kilogram => "kg",
            Scale::Ounce => "oz",
            Scale::Pound => "lb",
            Scale::LunarMass => "M☽",
            Scale::EarthMass => "M♁",
            Scale::JovianMass => "M♃",
            Scale::SolarMass => "M☉",
        }
    }

    /// Every unit stands for a positive number of grams.
    pub proof fn lemma_positive(self)
        ensures
            self.grams() > 0 as real,
    {
        let (m, e) = self.factor_parts();
        lemma_pow10_positive(e);
        let p = pow10(e);
        assert(m as real * p > 0 as real) by (nonlinear_arith)
            requires
                m > 0,
                p > 0 as real,
        ;
    }

    /// A magnitude taken to grams and back in the same unit is unchanged.
    pub proof fn lemma_round_trip(self, magnitude: real)
        ensures
            self.from_grams(self.to_grams(magnitude)) == magnitude,
    {
        self.lemma_positive();
        let f = self.grams();
        assert((magnitude * f) / f == magnitude) by (nonlinear_arith)
            requires
                f > 0 as real,
        ;
    }

    /// In grams, the magnitude is the mass.
    pub proof fn lemma_gram_is_base(magnitude: real)
        ensures
            Scale::Gram.to_grams(magnitude) == magnitude,
            Scale::Gram.from_grams(magnitude) == magnitude,
    {
        let f = Scale::Gram.grams();
        assert(f == 1 as real) by {
            assert(pow10(0) == 1 as real);
            assert(1 as real * (1 as real) == 1 as real) by (nonlinear_arith);
        }
        assert(magnitude * f == magnitude && magnitude / f == magnitude) by (nonlinear_arith)
            requires
                f == 1 as real,
        ;
    }

    /// A greater magnitude in the same unit is a greater mass.
    pub proof fn lemma_order_is_kept(self, lesser: real, greater: real)
        requires
            lesser <= greater,
        ensures
            self.to_grams(lesser) <= self.to_grams(greater),
    {
        self.lemma_positive();
        let f = self.grams();
        assert(lesser * f <= greater * f) by (nonlinear_arith)
            requires
                lesser <= greater,
                f > 0 as real,
        ;
    }
}

/// A mass: so many grams, together with the unit and the magnitude that it was
/// given in.
#[derive(Clone, Copy, Debug, PartialEq, Eq, Structural)]
pub struct Mass {
    /// The magnitude as it was given, in `scale`.
    given: Decimal,
    grams: Magnitude,
    scale: Scale,
}

impl View for Mass {
    type V = real;

    /// The mass in grams.
    closed spec fn view(&self) -> real {
        self.grams@
    }
}

impl Default for Mass {
    fn default() -> (q: Mass)
        ensures
            q.measures(0 as real, Scale::Gram),
    {
        Mass::grams(Decimal::new(0, 0))
    }
}

impl Mass {
    /// The unit, in contracts.
    pub closed spec fn spec_scale(&self) -> Scale {
        self.scale
    }

    /// The magnitude in the mass's own unit, in contracts.
    pub closed spec fn spec_into(self) -> Decimal {
        self.given
    }

    /// The grams are those of the magnitude that was given, in its unit. Every
    /// mass that a program holds is so.
    #[verifier::type_invariant]
    pub closed spec fn wf(self) -> bool {
        let (m, e) = self.scale.factor_parts();
        &&& self.given.wf()
        &&& self.grams.mantissa() == self.given.mantissa() * m
        &&& self.grams.exponent() == self.given.exponent() + e
        &&& self.grams@ == self.scale.to_grams(self.given@)
    }

    /// The mass is `magnitude` of the unit `scale`, and was given so.
    pub open spec fn measures(self, magnitude: real, scale: Scale) -> bool {
        &&& self.wf()
        &&& self.scale() == scale
        &&& self.into()@ == magnitude
        &&& self.into().wf()
        &&& self@ == scale.to_grams(magnitude)
    }

    /// Two masses of the same magnitude of the same unit are the same mass.
    pub proof fn lemma_one_measure(self, other: Mass, magnitude: real, scale: Scale)
        requires
            self.measures(magnitude, scale),
            other.measures(magnitude, scale),
        ensures
            self == other,
    {
        self.given.lemma_equal_views(other.given);
        self.grams.lemma_equal_parts(other.grams);
    }

    /// A mass of so many grams.
    pub fn new(grams: Decimal) -> (q: Mass)
        ensures
            q.measures(grams@, Scale::Gram),
            q.into() == grams,
            q@ == grams@,
    {
        Mass::grams(grams)
    }

    /// The mass of `mass` units of `scale`.
    pub fn scaled(mass: Decimal, scale: Scale) -> (q: Mass)
        ensures
            q.measures(mass@, scale),
            q.into() == mass,
    {
        proof {
            use_type_invariant(mass);
        }
        Mass { given: mass, grams: Magnitude::product(mass, scale.factor()), scale }
    }

    /// A mass given in grams.
    pub fn grams(grams: Decimal) -> (q: Mass)
        ensures
            q.measures(grams@, Scale::Gram),
            q.into() == grams,
            q@ == grams@,
    {
        proof {
            Scale::lemma_gram_is_base(grams@);
        }
        Mass::scaled(grams, Scale::Gram)
    }

    /// A mass given in kilograms.
    pub fn kilograms(kilograms: Decimal) -> (q: Mass)
        ensures
            q.measures(kilograms@, Scale::Kilogram),
            q.into() == kilograms,
    {
        Mass::scaled(kilograms, Scale::Kilogram)
    }

    /// A mass given in ounces.
    pub fn ounces(ounces: Decimal) -> (q: Mass)
        ensures
            q.measures(ounces@, Scale::Ounce),
            q.into() == ounces,
    {
        Mass::scaled(ounces, Scale::Ounce)
    }

    /// A mass given in pounds.
    pub fn pounds(pounds: Decimal) -> (q: Mass)
        ensures
            q.measures(pounds@, Scale::Pound),
            q.into() == pounds,
    {
        Mass::scaled(pounds, Scale::Pound)
    }

    /// A mass given in masses of the Moon.
    pub fn lunar_masses(lunar_masses: Decimal) -> (q: Mass)
        ensures
            q.measures(lunar_masses@, Scale::LunarMass),
            q.into() == lunar_masses,
    {
        Mass::scaled(lunar_masses, Scale::LunarMass)
    }

    /// A mass given in masses of the Earth.
    pub fn earth_masses(earth_masses: Decimal) -> (q: Mass)
        ensures
            q.measures(earth_masses@, Scale::EarthMass),
            q.into() == earth_masses,
    {
        Mass::scaled(earth_masses, Scale::EarthMass)
    }

    /// A mass given in masses of Jupiter.
    pub fn jovian_masses(jovian_masses: Decimal) -> (q: Mass)
        ensures
            q.measures(jovian_masses@, Scale::JovianMass),
            q.into() == jovian_masses,
    {
        Mass::scaled(jovian_masses, Scale::JovianMass)
    }

    /// A mass given in masses of the Sun.
    pub fn solar_masses(solar_masses: Decimal) -> (q: Mass)
        ensures
            q.measures(solar_masses@, Scale::SolarMass),
            q.into() == solar_masses,
    {
        Mass::scaled(solar_masses, Scale::SolarMass)
    }

    /// A mass given in grams.
    pub fn g(g: Decimal) -> (q: Mass)
        ensures
            q.measures(g@, Scale::Gram),
            q.into() == g,
            q@ == g@,
    {
        Mass::grams(g)
    }

    /// A mass given in kilograms.
    pub fn kg(kg: Decimal) -> (q: Mass)
        ensures
            q.measures(kg@, Scale::Kilogram),
            q.into() == kg,
    {
        Mass::kilograms(kg)
    }

    /// A mass given in ounces.
    pub fn oz(oz: Decimal) -> (q: Mass)
        ensures
            q.measures(oz@, Scale::Ounce),
            q.into() == oz,
    {
        Mass::ounces(oz)
    }

    /// A mass given in pounds.
    pub fn lb(lb: Decimal) -> (q: Mass)
        ensures
            q.measures(lb@, Scale::Pound),
            q.into() == lb,
    {
        Mass::pounds(lb)
    }

    /// A mass given in masses of the Moon.
    #[allow(non_snake_case)]
    pub fn Mlunar(lunar_masses: Decimal) -> (q: Mass)
        ensures
            q.measures(lunar_masses@, Scale::LunarMass),
            q.into() == lunar_masses,
    {
        Mass::lunar_masses(lunar_masses)
    }

    /// A mass given in masses of the Earth.
    #[allow(non_snake_case)]
    pub fn Mearth(earth_masses: Decimal) -> (q: Mass)
        ensures
            q.measures(earth_masses@, Scale::EarthMass),
            q.into() == earth_masses,
    {
        Mass::earth_masses(earth_masses)
    }

    /// A mass given in masses of Jupiter.
    #[allow(non_snake_case)]
    pub fn Mjovian(jovian_masses: Decimal) -> (q: Mass)
        ensures
            q.measures(jovian_masses@, Scale::JovianMass),
            q.into() == jovian_masses,
    {
        Mass::jovian_masses(jovian_masses)
    }

    /// A mass given in masses of the Sun.
    #[allow(non_snake_case)]
    pub fn Msol(solar_masses: Decimal) -> (q: Mass)
        ensures
            q.measures(solar_masses@, Scale::SolarMass),
            q.into() == solar_masses,
    {
        Mass::solar_masses(solar_masses)
    }

    /// The masses at the two ends of `range`, each taken in `scale`. Nothing
    /// is asked of the order of the ends, and what order they have is kept.
    pub fn range(range: Range<Decimal>, scale: Scale) -> (r: Range<Mass>)
        ensures
            r.start.measures(range.start@, scale),
            r.start.into() == range.start,
            r.end.measures(range.end@, scale),
            r.end.into() == range.end,
            range.start@ <= range.end@ ==> r.start@ <= r.end@,
            range.start@ >= range.end@ ==> r.start@ >= r.end@,
    {
        proof {
            if range.start@ <= range.end@ {
                scale.lemma_order_is_kept(range.start@, range.end@);
            }
            if range.start@ >= range.end@ {
                scale.lemma_order_is_kept(range.end@, range.start@);
            }
        }
        Mass::scaled(range.start, scale)..Mass::scaled(range.end, scale)
    }

    /// A mass of so many grams.
    pub fn from(value: Decimal) -> (q: Mass)
        ensures
            q.measures(value@, Scale::Gram),
            q.into() == value,
            q@ == value@,
    {
        Mass::grams(value)
    }

    /// The unit that the mass was given in.
    #[verifier::when_used_as_spec(spec_scale)]
    pub fn scale(&self) -> (s: Scale)
        ensures
            s == self.spec_scale(),
    {
        self.scale
    }

    /// The magnitude of the mass in its own unit: the grams, taken back to
    /// the unit that the mass was given in.
    #[verifier::when_used_as_spec(spec_into)]
    pub fn into(self) -> (magnitude: Decimal)
        ensures
            magnitude == self.spec_into(),
            magnitude@ == self.scale().from_grams(self@),
            magnitude.wf(),
    {
        proof {
            use_type_invariant(self);
            self.scale.lemma_round_trip(self.given@);
        }
        self.given
    }

    /// The magnitude of the mass in the unit `scale`, whatever unit it was
    /// given in.
    pub fn to_unit(self, scale: Scale) -> (magnitude: Quotient)
        ensures
            magnitude@ == scale.from_grams(self@),
            magnitude.mantissa() == self.into().mantissa() * self.scale().factor_parts().0,
            magnitude.exponent() == self.into().exponent() + self.scale().factor_parts().1
                - scale.factor_parts().1,
            magnitude.divisor() == scale.factor_parts().0,
    {
        proof {
            use_type_invariant(self);
        }
        self.grams.over(scale.factor())
    }

    /// The magnitude in the mass's own unit, a space, and the unit's symbol.
    pub fn to_string(&self) -> (s: String)
        ensures
            s@ == decimal_text((*self).into().mantissa() as int, (*self).into().exponent() as int)
                + seq![' '] + self.scale().symbol_text(),
    {
        let mut s = self.given.to_string();
        proof {
            reveal_strlit(" ");
        }
        s.append(" ");
        s.append(self.scale.symbol());
        assert(" "@ =~= seq![' ']);
        s
    }
}

/// The least mass that is used as a bound: the least decimal, in grams. It
/// lies below zero, and stands for a mass that nothing is known of.
pub fn min() -> (q: Mass)
    ensures
        q.measures(scientific(i64::MIN as int, MAX_EXPONENT as int), Scale::Gram),
{
    Mass::grams(Decimal::min())
}

/// The greatest mass that is used as a bound: the greatest decimal, in
/// grams.
pub fn max() -> (q: Mass)
    ensures
        q.measures(scientific(i64::MAX as int, MAX_EXPONENT as int), Scale::Gram),
{
    Mass::grams(Decimal::max())
}

} // verus!
