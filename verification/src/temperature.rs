//! Temperature, kept in kelvin.
//!
//! A temperature is given as a whole number of ten-thousandths of a degree,
//! and kept in ninety-thousandths of a kelvin: the coarsest step in which a
//! temperature given in any of the four scales is a whole number.
use crate::decimal::lemma_lowest_terms;
use crate::decimal::lowest_terms;
use crate::decimal::pow10;
use crate::decimal::reduce;
use crate::decimal::Quotient;
use crate::text::decimal_string;
use crate::text::decimal_text;
use core::ops::Range;
use vstd::prelude::*;

verus! {

/// The scales of temperature.
#[derive(Clone, Copy, Debug, PartialEq, Eq, Structural)]
pub enum Scale {
    Celsius,
    Fahrenheit,
    Kelvin,
    Rankine,
}

/// The degrees that `ticks` ten-thousandths of a degree are.
pub open spec fn degrees(ticks: int) -> real {
    ticks as real / (10_000 as real)
}

/// The kelvin at which the Celsius scale has its zero: 273.15.
pub open spec fn celsius_zero() -> real {
    27_315 as real / (100 as real)
}

/// The degrees Rankine at which the Fahrenheit scale has its zero: 459.67.
pub open spec fn fahrenheit_zero() -> real {
    45_967 as real / (100 as real)
}

/// The integer nearest to `n / d`, for a positive `d`; a tie goes away from
/// zero.
pub open spec fn nearest(n: int, d: int) -> int {
    if n >= 0 {
        (2 * n + d) / (2 * d)
    } else {
        -((2 * (-n) + d) / (2 * d))
    }
}

impl Scale {
    /// The kelvin of a temperature of `degrees` on this scale. Degrees
    /// Rankine are taken to kelvin by adding 459.67 to them.
    pub open spec fn to_kelvin(self, degrees: real) -> real {
        match self {
            Scale::Celsius => degrees + celsius_zero(),
            Scale::Fahrenheit => (degrees + fahrenheit_zero()) * (5 as real) / (9 as real),
            Scale::Kelvin => degrees,
            Scale::Rankine => degrees + fahrenheit_zero(),
        }
    }

    /// The degrees on this scale of a temperature of `kelvin`.
    pub open spec fn from_kelvin(self, kelvin: real) -> real {
        match self {
            Scale::Celsius => kelvin - celsius_zero(),
            Scale::Fahrenheit => kelvin * (9 as real) / (5 as real) - fahrenheit_zero(),
            Scale::Kelvin => kelvin,
            Scale::Rankine => kelvin * (9 as real) / (5 as real),
        }
    }

    /// The symbol of the scale.
    pub open spec fn symbol_text(self) -> Seq<char> {
        match self {
            Scale::Celsius => "°C"@,
            Scale::Fahrenheit => "°F"@,
            Scale::Kelvin => "K"@,
            Scale::Rankine => "°R"@,
        }
    }

    /// The whole number that, divided by [`Scale::step`], is the
    /// ten-thousandths of a degree on this scale of a temperature of `quanta`
    /// ninety-thousandths of a kelvin.
    pub open spec fn steps(self, quanta: int) -> int {
        match self {
            Scale::Celsius => quanta - 9 * 2_731_500,
            Scale::Fahrenheit => quanta - 5 * 4_596_700,
            Scale::Kelvin => quanta,
            Scale::Rankine => quanta,
        }
    }

    /// The number of steps of [`Scale::steps`] in a ten-thousandth of a
    /// degree.
    pub open spec fn step(self) -> int {
        match self {
            Scale::Celsius => 9,
            Scale::Fahrenheit => 5,
            Scale::Kelvin => 9,
            Scale::Rankine => 5,
        }
    }

    /// The symbol of the scale.
    pub fn symbol(self) -> (s: &'static str)
        ensures
            s@ == self.symbol_text(),
    {
        match self {
            Scale::Celsius => "°C",
            Scale::Fahrenheit => "°F",
            Scale::Kelvin => "K",
            Scale::Rankine => "°R",
        }
    }

    /// Degrees taken to kelvin and back on the same scale are unchanged, on
    /// every scale but Rankine. Degrees Rankine come back unchanged at
    /// -1034.2575 only.
    pub proof fn lemma_round_trip(self, degrees: real)
        ensures
            (self.from_kelvin(self.to_kelvin(degrees)) == degrees) <==> (self != Scale::Rankine
                || degrees == -(10_342_575 as real) / (10_000 as real)),
    {
    }

    /// In kelvin, the degrees are the temperature.
    pub proof fn lemma_kelvin_is_base(degrees: real)
        ensures
            Scale::Kelvin.to_kelvin(degrees) == degrees,
            Scale::Kelvin.from_kelvin(degrees) == degrees,
    {
    }

    /// More degrees on the same scale are a higher temperature.
    pub proof fn lemma_order_is_kept(self, lesser: real, greater: real)
        requires
            lesser <= greater,
        ensures
            self.to_kelvin(lesser) <= self.to_kelvin(greater),
    {
    }

    /// The steps of a temperature, over the step of the scale and ten
    /// thousand, are its degrees on the scale.
    pub proof fn lemma_steps(self, quanta: int)
        ensures
            self.steps(quanta) as real / (self.step() as real) / (10_000 as real)
                == self.from_kelvin(quanta as real / (90_000 as real)),
    {
        let q = quanta as real;
        match self {
            Scale::Celsius => {
                assert((quanta - 9 * 2_731_500) as real / (9 as real) / (10_000 as real) == q / (
                90_000 as real) - celsius_zero());
            },
            Scale::Fahrenheit => {
                assert((quanta - 5 * 4_596_700) as real / (5 as real) / (10_000 as real) == q / (
                90_000 as real) * (9 as real) / (5 as real) - fahrenheit_zero());
            },
            Scale::Kelvin => {
                assert(q / (9 as real) / (10_000 as real) == q / (90_000 as real));
            },
            Scale::Rankine => {
                assert(q / (5 as real) / (10_000 as real) == q / (90_000 as real) * (9 as real) / (
                5 as real));
            },
        }
    }
}

/// A temperature: so many kelvin, together with the scale that it is read
/// on.
#[derive(Clone, Copy, Debug, PartialEq, Eq, Structural)]
pub struct Temperature {
    /// Ninety-thousandths of a kelvin.
    kelvin: i128,
    scale: Scale,
}

impl View for Temperature {
    type V = real;

    /// The temperature in kelvin.
    open spec fn view(&self) -> real {
        self.quanta() as real / (90_000 as real)
    }
}

impl Temperature {
    /// The temperature in ninety-thousandths of a kelvin.
    pub closed spec fn quanta(&self) -> int {
        self.kelvin as int
    }

    /// The scale, in contracts.
    pub closed spec fn spec_scale(&self) -> Scale {
        self.scale
    }

    #[verifier::type_invariant]
    spec fn inv(self) -> bool {
        -0x10_0000_0000_0000_0000 < self.kelvin < 0x10_0000_0000_0000_0000
    }

    /// The temperature is `degrees` on the scale `scale`, and is read on it.
    pub open spec fn measures(self, degrees: real, scale: Scale) -> bool {
        &&& self.scale() == scale
        &&& self@ == scale.to_kelvin(degrees)
    }

    /// Two temperatures of the same degrees on the same scale are the same
    /// temperature.
    pub proof fn lemma_one_measure(self, other: Temperature, degrees: real, scale: Scale)
        requires
            self.measures(degrees, scale),
            other.measures(degrees, scale),
        ensures
            self == other,
    {
        assert(self.kelvin as int == other.kelvin as int);
    }

    /// What [`Temperature::to_string`] writes before the symbol: the degrees
    /// on the temperature's own scale, to the nearest ten-thousandth.
    pub open spec fn shown(self) -> Seq<char> {
        let ticks = nearest(self.scale().steps(self.quanta()), self.scale().step());
        let (m, e) = lowest_terms(ticks, -4);
        decimal_text(m, e)
    }

    /// A temperature of so many ten-thousandths of a kelvin.
    pub fn new(kelvin: i64) -> (t: Temperature)
        ensures
            t.measures(degrees(kelvin as int), Scale::Kelvin),
            t@ == degrees(kelvin as int),
    {
        Temperature::kelvin(kelvin)
    }

    /// A temperature of so many ten-thousandths of a kelvin.
    pub fn kelvin(kelvin: i64) -> (t: Temperature)
        ensures
            t.measures(degrees(kelvin as int), Scale::Kelvin),
            t@ == degrees(kelvin as int),
    {
        Temperature { kelvin: 9 * (kelvin as i128), scale: Scale::Kelvin }
    }

    /// A temperature of so many ten-thousandths of a degree Celsius.
    pub fn celsius(celsius: i64) -> (t: Temperature)
        ensures
            t.measures(degrees(celsius as int), Scale::Celsius),
    {
        Temperature { kelvin: 9 * (celsius as i128 + 2_731_500), scale: Scale::Celsius }
    }

    /// A temperature of so many ten-thousandths of a degree Fahrenheit.
    pub fn fahrenheit(fahrenheit: i64) -> (t: Temperature)
        ensures
            t.measures(degrees(fahrenheit as int), Scale::Fahrenheit),
    {
        Temperature { kelvin: 5 * (fahrenheit as i128 + 4_596_700), scale: Scale::Fahrenheit }
    }

    /// A temperature of so many ten-thousandths of a degree Rankine.
    pub fn rankine(rankine: i64) -> (t: Temperature)
        ensures
            t.measures(degrees(rankine as int), Scale::Rankine),
    {
        Temperature { kelvin: 9 * (rankine as i128 + 4_596_700), scale: Scale::Rankine }
    }

    /// A temperature of so many ten-thousandths of a kelvin.
    #[allow(non_snake_case)]
    pub fn K(kelvin: i64) -> (t: Temperature)
        ensures
            t.measures(degrees(kelvin as int), Scale::Kelvin),
            t@ == degrees(kelvin as int),
    {
        Temperature::kelvin(kelvin)
    }

    /// The temperatures at the two ends of `range`, each in ten-thousandths
    /// of a kelvin. Nothing is asked of the order of the ends, and what order
    /// they have is kept.
    #[allow(non_snake_case)]
    pub fn K_range(range: Range<i64>) -> (r: Range<Temperature>)
        ensures
            r.start.measures(degrees(range.start as int), Scale::Kelvin),
            r.end.measures(degrees(range.end as int), Scale::Kelvin),
            range.start <= range.end ==> r.start@ <= r.end@,
            range.start >= range.end ==> r.start@ >= r.end@,
    {
        Temperature::kelvin(range.start)..Temperature::kelvin(range.end)
    }

    /// The same temperature, read in kelvin.
    pub fn to_kelvin(self) -> (t: Temperature)
        ensures
            t@ == self@,
            t.scale() == Scale::Kelvin,
    {
        proof {
            use_type_invariant(self);
        }
        Temperature { kelvin: self.kelvin, scale: Scale::Kelvin }
    }

    /// The same temperature, read in degrees Celsius.
    pub fn to_celsius(self) -> (t: Temperature)
        ensures
            t@ == self@,
            t.scale() == Scale::Celsius,
    {
        proof {
            use_type_invariant(self);
        }
        Temperature { kelvin: self.kelvin, scale: Scale::Celsius }
    }

    /// The same temperature, read in degrees Fahrenheit.
    pub fn to_fahrenheit(self) -> (t: Temperature)
        ensures
            t@ == self@,
            t.scale() == Scale::Fahrenheit,
    {
        proof {
            use_type_invariant(self);
        }
        Temperature { kelvin: self.kelvin, scale: Scale::Fahrenheit }
    }

    /// The same temperature, read in degrees Rankine.
    pub fn to_rankine(self) -> (t: Temperature)
        ensures
            t@ == self@,
            t.scale() == Scale::Rankine,
    {
        proof {
            use_type_invariant(self);
        }
        Temperature { kelvin: self.kelvin, scale: Scale::Rankine }
    }

    /// A temperature of `value` ten-thousandths of a kelvin, unless `value`
    /// is below zero.
    pub fn try_from(value: i64) -> (r: Result<Temperature, ()>)
        ensures
            r is Ok <==> value >= 0,
            r matches Ok(t) ==> t.measures(degrees(value as int), Scale::Kelvin),
    {
        if value >= 0 {
            Ok(Temperature::kelvin(value))
        } else {
            Err(())
        }
    }

    /// The scale that the temperature is read on.
    #[verifier::when_used_as_spec(spec_scale)]
    pub fn scale(&self) -> (s: Scale)
        ensures
            s == self.spec_scale(),
    {
        self.scale
    }

    /// The degrees of the temperature on its own scale.
    pub fn into(self) -> (degrees: Quotient)
        ensures
            degrees@ == self.scale().from_kelvin(self@),
            degrees.mantissa() == self.scale().steps(self.quanta()),
            degrees.exponent() == -4,
            degrees.divisor() == self.scale().step(),
    {
        self.to_unit(self.scale)
    }

    /// The degrees of the temperature on the scale `scale`, whatever scale
    /// it is read on.
    pub fn to_unit(self, scale: Scale) -> (degrees: Quotient)
        ensures
            degrees@ == scale.from_kelvin(self@),
            degrees.mantissa() == scale.steps(self.quanta()),
            degrees.exponent() == -4,
            degrees.divisor() == scale.step(),
    {
        proof {
            use_type_invariant(self);
            scale.lemma_steps(self.kelvin as int);
            lemma_ten_thousandth();
        }
        match scale {
            Scale::Celsius => Quotient::from_parts(self.kelvin - 9 * 2_731_500, -4, 9),
            Scale::Fahrenheit => Quotient::from_parts(self.kelvin - 5 * 4_596_700, -4, 5),
            Scale::Kelvin => Quotient::from_parts(self.kelvin, -4, 9),
            Scale::Rankine => Quotient::from_parts(self.kelvin, -4, 5),
        }
    }

    /// The degrees on the temperature's own scale, to the nearest
    /// ten-thousandth, then a space and the symbol of the scale.
    pub fn to_string(&self) -> (s: String)
        ensures
            s@ == self.shown() + seq![' '] + self.scale().symbol_text(),
    {
        let degrees = self.to_unit(self.scale);
        let divisor: i128 = degrees.divisor() as i128;
        let steps: i128 = degrees.mantissa();
        let distance: i128 = if steps >= 0 {
            steps
        } else {
            -steps
        };
        let rounded: i128 = (2 * distance + divisor) / (2 * divisor);
        proof {
            assert(0 <= rounded <= distance + 1) by (nonlinear_arith)
                requires
                    rounded == (2 * distance + divisor) / (2 * divisor),
                    distance >= 0,
                    divisor >= 1,
            ;
        }
        let ticks: i128 = if steps >= 0 {
            rounded
        } else {
            -rounded
        };
        let (m, e) = reduce(ticks, -4);
        proof {
            lemma_lowest_terms(ticks as int, -4);
        }
        let mut s = decimal_string(m, e);
        proof {
            reveal_strlit(" ");
        }
        s.append(" ");
        s.append(self.scale.symbol());
        assert(" "@ =~= seq![' ']);
        s
    }
}

/// Ten to the power of minus four is a ten-thousandth.
proof fn lemma_ten_thousandth()
    ensures
        pow10(-4) == 1 as real / (10_000 as real),
{
    reveal_with_fuel(pow10, 5);
}

/// The temperature at which nothing is left to take away: zero kelvin.
pub fn absolute_zero() -> (t: Temperature)
    ensures
        t.measures(0 as real, Scale::Kelvin),
{
    Temperature::kelvin(0)
}

/// The temperature at which brine freezes: 255.37 kelvin.
pub fn freezing_point_of_brine() -> (t: Temperature)
    ensures
        t.measures(25_537 as real / (100 as real), Scale::Kelvin),
{
    Temperature::kelvin(2_553_700)
}

/// The temperature at which water freezes: 273.15 kelvin.
pub fn freezing_point_of_water() -> (t: Temperature)
    ensures
        t.measures(celsius_zero(), Scale::Kelvin),
{
    Temperature::kelvin(2_731_500)
}

/// The temperature at which water boils: 373.1339 kelvin.
pub fn boiling_point_of_water() -> (t: Temperature)
    ensures
        t.measures(3_731_339 as real / (10_000 as real), Scale::Kelvin),
{
    Temperature::kelvin(3_731_339)
}

/// The least temperature that is used as a bound: absolute zero.
pub fn min() -> (t: Temperature)
    ensures
        t.measures(0 as real, Scale::Kelvin),
{
    absolute_zero()
}

/// The greatest temperature that is used as a bound: the greatest number of
/// ten-thousandths of a kelvin that can be given.
pub fn max() -> (t: Temperature)
    ensures
        t.measures(degrees(i64::MAX as int), Scale::Kelvin),
{
    Temperature::kelvin(i64::MAX)
}

} // verus!
