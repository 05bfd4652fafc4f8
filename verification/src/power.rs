//! Power, kept in watts.
use crate::decimal::lemma_pow10_positive;
use crate::decimal::pow10;
use crate::decimal::scientific;
use crate::decimal::Decimal;
use crate::decimal::Magnitude;
use crate::decimal::Quotient;
use crate::decimal::MAX_EXPONENT;
use crate::text::decimal_text;
use core::ops::Range;
use vstd::prelude::*;

verus! {

/// The units of power.
#[derive(Clone, Copy, Debug, PartialEq, Eq, Structural)]
pub enum Scale {
    Watt,
    Kilowatt,
    Megawatt,
    Gigawatt,
    Terawatt,
    Petawatt,
    Horsepower,
    SolarLuminosity,
}

impl Default for Scale {
    fn default() -> (s: Scale)
        ensures
            s == Scale::Watt,
    {
        Scale::Watt
    }
}

impl Scale {
    /// The conversion factor of the unit: the mantissa and the exponent of the
    /// watts that a magnitude of one comes to.
    pub open spec fn factor_parts(self) -> (int, int) {
        match self {
            Scale::Watt => (1, 0),
            Scale::Kilowatt => (1, 3),
            Scale::Megawatt => (1, 6),
            Scale::Gigawatt => (1, 9),
            Scale::Terawatt => (1, 12),
            Scale::Petawatt => (1, 15),
            Scale::Horsepower => (7_457, -1),
            Scale::SolarLuminosity => (3_848, 23),
        }
    }

    /// The watts that a magnitude of one in this unit comes to.
    pub open spec fn watts(self) -> real {
        scientific(self.factor_parts().0, self.factor_parts().1)
    }

    /// The watts in `magnitude` of this unit.
    pub open spec fn to_watts(self, magnitude: real) -> real {
        magnitude * self.watts()
    }

    /// The magnitude, in this unit, of so many watts.
    pub open spec fn from_watts(self, watts: real) -> real {
        watts / self.watts()
    }

    /// The symbol of the unit.
    pub open spec fn symbol_text(self) -> Seq<char> {
        match self {
            Scale::Watt => "W"@,
            Scale::Kilowatt => "kW"@,
            Scale::Megawatt => "MW"@,
            Scale::Gigawatt => "GW"@,
            Scale::Terawatt => "TW"@,
            Scale::Petawatt => "PW"@,
            Scale::Horsepower => "hp"@,
            Scale::SolarLuminosity => "L☉"@,
        }
    }

    /// The conversion factor of the unit, in watts.
    pub fn factor(self) -> (f: Decimal)
        ensures
            f@ == self.watts(),
            f.mantissa() == self.factor_parts().0,
            f.exponent() == self.factor_parts().1,
            f.is_factor(),
    {
        match self {
            Scale::Watt => Decimal::new(1, 0),
            Scale::Kilowatt => Decimal::new(1, 3),
            Scale::Megawatt => Decimal::new(1, 6),
            Scale::Gigawatt => Decimal::new(1, 9),
            Scale::Terawatt => Decimal::new(1, 12),
            Scale::Petawatt => Decimal::new(1, 15),
            Scale::Horsepower => Decimal::new(7_457, -1),
            Scale::SolarLuminosity => Decimal::new(3_848, 23),
        }
    }

    /// The symbol of the unit.
    pub fn symbol(self) -> (s: &'static str)
        ensures
            s@ == self.symbol_text(),
    {
        match self {
            Scale::Watt => "W",
            Scale::Kilowatt => "kW",
            Scale::Megawatt => "MW",
            Scale::Gigawatt => "GW",
            Scale::Terawatt => "TW",
            Scale::Petawatt => "PW",
            Scale::Horsepower => "hp",
            Scale::SolarLuminosity => "L☉",
        }
    }

    /// Every unit stands for a positive number of watts.
    pub proof fn lemma_positive(self)
        ensures
            self.watts() > 0 as real,
    {
        let (m, e) = self.factor_parts();
        lemma_pow10_positive(e);
        let p = pow10(e);
        assert(m as real * p > 0 as real) by (nonlinear_arith)
            requires
                m > 0,
                p > 0 as real,
        ;
    }

    /// A magnitude taken to watts and back in the same unit is unchanged.
    pub proof fn lemma_round_trip(self, magnitude: real)
        ensures
            self.from_watts(self.to_watts(magnitude)) == magnitude,
    {
        self.lemma_positive();
        let f = self.watts();
        assert((magnitude * f) / f == magnitude) by (nonlinear_arith)
            requires
                f > 0 as real,
        ;
    }

    /// In watts, the magnitude is the power.
    pub proof fn lemma_watt_is_base(magnitude: real)
        ensures
            Scale::Watt.to_watts(magnitude) == magnitude,
            Scale::Watt.from_watts(magnitude) == magnitude,
    {
        let f = Scale::Watt.watts();
        assert(f == 1 as real) by {
            assert(pow10(0) == 1 as real);
            assert(1 as real * (1 as real) == 1 as real) by (nonlinear_arith);
        }
        assert(magnitude * f == magnitude && magnitude / f == magnitude) by (nonlinear_arith)
            requires
                f == 1 as real,
        ;
    }

    /// A greater magnitude in the same unit is a greater power.
    pub proof fn lemma_order_is_kept(self, lesser: real, greater: real)
        requires
            lesser <= greater,
        ensures
            self.to_watts(lesser) <= self.to_watts(greater),
    {
        self.lemma_positive();
        let f = self.watts();
        assert(lesser * f <= greater * f) by (nonlinear_arith)
            requires
                lesser <= greater,
                f > 0 as real,
        ;
    }
}

/// A power: so many watts, together with the unit and the magnitude that it
/// was given in.
#[derive(Clone, Copy, Debug, PartialEq, Eq, Structural)]
pub struct Power {
    /// The magnitude as it was given, in `scale`.
    given: Decimal,
    watts: Magnitude,
    scale: Scale,
}

impl View for Power {
    type V = real;

    /// The power in watts.
    closed spec fn view(&self) -> real {
        self.watts@
    }
}

impl Default for Power {
    fn default() -> (q: Power)
        ensures
            q.measures(0 as real, Scale::Watt),
    {
        Power::watts(Decimal::new(0, 0))
    }
}

impl Power {
    /// The unit, in contracts.
    pub closed spec fn spec_scale(&self) -> Scale {
        self.scale
    }

    /// The magnitude in the power's own unit, in contracts.
    pub closed spec fn spec_into(self) -> Decimal {
        self.given
    }

    /// The watts are those of the magnitude that was given, in its unit. Every
    /// power that a program holds is so.
    #[verifier::type_invariant]
    pub closed spec fn wf(self) -> bool {
        let (m, e) = self.scale.factor_parts();
        &&& self.given.wf()
        &&& self.watts.mantissa() == self.given.mantissa() * m
        &&& self.watts.exponent() == self.given.exponent() + e
        &&& self.watts@ == self.scale.to_watts(self.given@)
    }

    /// The power is `magnitude` of the unit `scale`, and was given so.
    pub open spec fn measures(self, magnitude: real, scale: Scale) -> bool {
        &&& self.wf()
        &&& self.scale() == scale
        &&& self.into()@ == magnitude
        &&& self.into().wf()
        &&& self@ == scale.to_watts(magnitude)
    }

    /// Two powers of the same magnitude of the same unit are the same power.
    pub proof fn lemma_one_measure(self, other: Power, magnitude: real, scale: Scale)
        requires
            self.measures(magnitude, scale),
            other.measures(magnitude, scale),
        ensures
            self == other,
    {
        self.given.lemma_equal_views(other.given);
        self.watts.lemma_equal_parts(other.watts);
    }

    /// The power of `power` units of `scale`.
    pub fn scaled(power: Decimal, scale: Scale) -> (q: Power)
        ensures
            q.measures(power@, scale),
            q.into() == power,
    {
        proof {
            use_type_invariant(power);
        }
        Power { given: power, watts: Magnitude::product(power, scale.factor()), scale }
    }

    /// A power of so many watts.
    pub fn new(watts: Decimal) -> (q: Power)
        ensures
            q.measures(watts@, Scale::Watt),
            q.into() == watts,
            q@ == watts@,
    {
        Power::watts(watts)
    }

    /// A power given in watts.
    pub fn watts(watts: Decimal) -> (q: Power)
        ensures
            q.measures(watts@, Scale::Watt),
            q.into() == watts,
            q@ == watts@,
    {
        proof {
            Scale::lemma_watt_is_base(watts@);
        }
        Power::scaled(watts, Scale::Watt)
    }

    /// A power given in kilowatts.
    pub fn kilowatts(kilowatts: Decimal) -> (q: Power)
        ensures
            q.measures(kilowatts@, Scale::Kilowatt),
            q.into() == kilowatts,
    {
        Power::scaled(kilowatts, Scale::Kilowatt)
    }

    /// A power given in megawatts.
    pub fn megawatts(megawatts: Decimal) -> (q: Power)
        ensures
            q.measures(megawatts@, Scale::Megawatt),
            q.into() == megawatts,
    {
        Power::scaled(megawatts, Scale::Megawatt)
    }

    /// A power given in gigawatts.
    pub fn gigawatts(gigawatts: Decimal) -> (q: Power)
        ensures
            q.measures(gigawatts@, Scale::Gigawatt),
            q.into() == gigawatts,
    {
        Power::scaled(gigawatts, Scale::Gigawatt)
    }

    /// A power given in terawatts.
    pub fn terawatts(terawatts: Decimal) -> (q: Power)
        ensures
            q.measures(terawatts@, Scale::Terawatt),
            q.into() == terawatts,
    {
        Power::scaled(terawatts, Scale::Terawatt)
    }

    /// A power given in petawatts.
    pub fn petawatts(petawatts: Decimal) -> (q: Power)
        ensures
            q.measures(petawatts@, Scale::Petawatt),
            q.into() == petawatts,
    {
        Power::scaled(petawatts, Scale::Petawatt)
    }

    /// A power given in horsepower.
    pub fn horsepower(horsepower: Decimal) -> (q: Power)
        ensures
            q.measures(horsepower@, Scale::Horsepower),
            q.into() == horsepower,
    {
        Power::scaled(horsepower, Scale::Horsepower)
    }

    /// A power given in luminosities of the Sun.
    pub fn solar_luminosity(solar_luminosity: Decimal) -> (q: Power)
        ensures
            q.measures(solar_luminosity@, Scale::SolarLuminosity),
            q.into() == solar_luminosity,
    {
        Power::scaled(solar_luminosity, Scale::SolarLuminosity)
    }

    /// A power given in watts.
    #[allow(non_snake_case)]
    pub fn W(watts: Decimal) -> (q: Power)
        ensures
            q.measures(watts@, Scale::Watt),
            q.into() == watts,
            q@ == watts@,
    {
        Power::watts(watts)
    }

    /// A power given in kilowatts.
    #[allow(non_snake_case)]
    pub fn kW(kilowatts: Decimal) -> (q: Power)
        ensures
            q.measures(kilowatts@, Scale::Kilowatt),
            q.into() == kilowatts,
    {
        Power::kilowatts(kilowatts)
    }

    /// A power given in megawatts.
    #[allow(non_snake_case)]
    pub fn MW(megawatts: Decimal) -> (q: Power)
        ensures
            q.measures(megawatts@, Scale::Megawatt),
            q.into() == megawatts,
    {
        Power::megawatts(megawatts)
    }

    /// A power given in gigawatts.
    #[allow(non_snake_case)]
    pub fn GW(gigawatts: Decimal) -> (q: Power)
        ensures
            q.measures(gigawatts@, Scale::Gigawatt),
            q.into() == gigawatts,
    {
        Power::gigawatts(gigawatts)
    }

    /// A power given in terawatts.
    #[allow(non_snake_case)]
    pub fn TW(terawatts: Decimal) -> (q: Power)
        ensures
            q.measures(terawatts@, Scale::Terawatt),
            q.into() == terawatts,
    {
        Power::terawatts(terawatts)
    }

    /// A power given in petawatts.
    #[allow(non_snake_case)]
    pub fn PW(petawatts: Decimal) -> (q: Power)
        ensures
            q.measures(petawatts@, Scale::Petawatt),
            q.into() == petawatts,
    {
        Power::petawatts(petawatts)
    }

    /// A power given in horsepower.
    pub fn hp(horsepower: Decimal) -> (q: Power)
        ensures
            q.measures(horsepower@, Scale::Horsepower),
            q.into() == horsepower,
    {
        Power::horsepower(horsepower)
    }

    /// A power given in luminosities of the Sun.
    #[allow(non_snake_case)]
    pub fn Lsol(solar_luminosity: Decimal) -> (q: Power)
        ensures
            q.measures(solar_luminosity@, Scale::SolarLuminosity),
            q.into() == solar_luminosity,
    {
        Power::solar_luminosity(solar_luminosity)
    }

    /// The powers at the two ends of `range`, each taken in `scale`. Nothing
    /// is asked of the order of the ends, and what order they have is kept.
    pub fn range(range: Range<Decimal>, scale: Scale) -> (r: Range<Power>)
        ensures
            r.start.measures(range.start@, scale),
            r.start.into() == range.start,
            r.end.measures(range.end@, scale),
            r.end.into() == range.end,
            range.start@ <= range.end@ ==> r.start@ <= r.end@,
            range.start@ >= range.end@ ==> r.start@ >= r.end@,
    {
        proof {
            if range.start@ <= range.end@ {
                scale.lemma_order_is_kept(range.start@, range.end@);
            }
            if range.start@ >= range.end@ {
                scale.lemma_order_is_kept(range.end@, range.start@);
            }
        }
        Power::scaled(range.start, scale)..Power::scaled(range.end, scale)
    }

    /// The unit that the power was given in.
    #[verifier::when_used_as_spec(spec_scale)]
    pub fn scale(&self) -> (s: Scale)
        ensures
            s == self.spec_scale(),
    {
        self.scale
    }

    /// The magnitude of the power in its own unit: the watts, taken back to
    /// the unit that the power was given in.
    #[verifier::when_used_as_spec(spec_into)]
    pub fn into(self) -> (magnitude: Decimal)
        ensures
            magnitude == self.spec_into(),
            magnitude@ == self.scale().from_watts(self@),
            magnitude.wf(),
    {
        proof {
            use_type_invariant(self);
            self.scale.lemma_round_trip(self.given@);
        }
        self.given
    }

    /// The magnitude of the power in the unit `scale`, whatever unit it was
    /// given in.
    pub fn to_unit(self, scale: Scale) -> (magnitude: Quotient)
        ensures
            magnitude@ == scale.from_watts(self@),
            magnitude.mantissa() == self.into().mantissa() * self.scale().factor_parts().0,
            magnitude.exponent() == self.into().exponent() + self.scale().factor_parts().1
                - scale.factor_parts().1,
            magnitude.divisor() == scale.factor_parts().0,
    {
        proof {
            use_type_invariant(self);
        }
        self.watts.over(scale.factor())
    }

    /// The magnitude in the power's own unit, a space, and the unit's symbol.
    pub fn to_string(&self) -> (s: String)
        ensures
            s@ == decimal_text((*self).into().mantissa() as int, (*self).into().exponent() as int)
                + seq![' '] + self.scale().symbol_text(),
    {
        let mut s = self.given.to_string();
        proof {
            reveal_strlit(" ");
        }
        s.append(" ");
        s.append(self.scale.symbol());
        assert(" "@ =~= seq![' ']);
        s
    }
}

/// No power at all: the least power that is used as a bound.
pub fn zero() -> (q: Power)
    ensures
        q.measures(0 as real, Scale::Watt),
{
    Power::watts(Decimal::new(0, 0))
}

/// The greatest power that is used as a bound: the greatest decimal, in
/// watts.
pub fn max() -> (q: Power)
    ensures
        q.measures(scientific(i64::MAX as int, MAX_EXPONENT as int), Scale::Watt),
{
    Power::watts(Decimal::max())
}

} // verus!
