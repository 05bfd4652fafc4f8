//! Exact decimal numbers.
//!
//! The library reckons without rounding. A magnitude is given as a
//! [`Decimal`]; a quantity keeps its base-unit [`Magnitude`]; and what a
//! conversion into another unit gives is a [`Quotient`], since it need not
//! be a decimal number any more. Contracts speak of all three through their
//! views, which are real numbers.
use crate::text::decimal_string;
use crate::text::decimal_text;
use vstd::prelude::*;

verus! {

/// Ten raised to the power `e`, for any integer `e`.
pub open spec fn pow10(e: int) -> real
    decreases (if e >= 0 { e } else { -e }),
{
    if e == 0 {
        1 as real
    } else if e > 0 {
        pow10(e - 1) * (10 as real)
    } else {
        pow10(e + 1) / (10 as real)
    }
}

/// Ten raised to a natural power, as an integer.
pub open spec fn pow10_int(k: nat) -> int
    decreases k,
{
    if k == 0 {
        1
    } else {
        10 * pow10_int((k - 1) as nat)
    }
}

/// The distance of an integer from zero.
pub open spec fn abs(n: int) -> int {
    if n >= 0 {
        n
    } else {
        -n
    }
}

/// The number `mantissa × 10^exponent`.
pub open spec fn scientific(mantissa: int, exponent: int) -> real {
    mantissa as real * pow10(exponent)
}

/// Every power of ten is positive.
pub proof fn lemma_pow10_positive(e: int)
    ensures
        pow10(e) > 0 as real,
    decreases abs(e),
{
    if e > 0 {
        lemma_pow10_positive(e - 1);
        assert(pow10(e - 1) * (10 as real) > 0 as real) by (nonlinear_arith)
            requires
                pow10(e - 1) > 0 as real,
        ;
    } else if e < 0 {
        lemma_pow10_positive(e + 1);
        assert(pow10(e + 1) / (10 as real) > 0 as real) by (nonlinear_arith)
            requires
                pow10(e + 1) > 0 as real,
        ;
    }
}

/// Raising the exponent by one multiplies by ten.
pub proof fn lemma_pow10_succ(e: int)
    ensures
        pow10(e + 1) == pow10(e) * (10 as real),
{
    if e < 0 {
        assert(pow10(e) == pow10(e + 1) / (10 as real));
    }
}

/// Powers of ten multiply by adding their exponents.
pub proof fn lemma_pow10_add(a: int, b: int)
    ensures
        pow10(a + b) == pow10(a) * pow10(b),
    decreases abs(b),
{
    if b == 0 {
        assert(pow10(a) * (1 as real) == pow10(a)) by (nonlinear_arith);
    } else if b > 0 {
        lemma_pow10_add(a, b - 1);
        lemma_pow10_succ(a + b - 1);
        lemma_pow10_succ(b - 1);
        let x = pow10(a);
        let y = pow10(b - 1);
        assert((x * y) * (10 as real) == x * (y * (10 as real))) by (nonlinear_arith);
    } else {
        lemma_pow10_add(a, b + 1);
        lemma_pow10_succ(a + b);
        lemma_pow10_succ(b);
        let x = pow10(a);
        let y = pow10(b);
        let z = pow10(a + b);
        assert(z == x * y) by (nonlinear_arith)
            requires
                z * (10 as real) == x * (y * (10 as real)),
        ;
    }
}

/// On natural exponents the two powers of ten agree, and they only grow.
pub proof fn lemma_pow10_int(j: nat, k: nat)
    ensures
        pow10_int(k) >= 1,
        pow10(k as int) == pow10_int(k) as real,
        j <= k ==> pow10_int(j) <= pow10_int(k),
    decreases k,
{
    if k > 0 {
        lemma_pow10_int(j, (k - 1) as nat);
        if j < k {
            lemma_pow10_int((k - 1) as nat, (k - 1) as nat);
        }
    }
}

/// A decimal `mantissa × 10^exponent` in lowest terms: the trailing zeros of
/// the mantissa are moved into the exponent, and zero becomes `0 × 10^0`.
pub open spec fn lowest_terms(mantissa: int, exponent: int) -> (int, int)
    decreases abs(mantissa),
{
    if mantissa == 0 {
        (0, 0)
    } else if mantissa % 10 == 0 {
        lowest_terms(mantissa / 10, exponent + 1)
    } else {
        (mantissa, exponent)
    }
}

/// Lowest terms denote the same number, with no trailing zero left and no
/// more zeros moved than the mantissa had digits.
pub proof fn lemma_lowest_terms(mantissa: int, exponent: int)
    ensures
        ({
            let (m, e) = lowest_terms(mantissa, exponent);
            &&& m as real * pow10(e) == mantissa as real * pow10(exponent)
            &&& mantissa == 0 ==> m == 0 && e == 0
            &&& mantissa != 0 ==> m != 0 && m % 10 != 0 && e >= exponent
            &&& mantissa != 0 ==> m * pow10_int((e - exponent) as nat) == mantissa
            &&& abs(m) <= abs(mantissa)
        }),
    decreases abs(mantissa),
{
    if mantissa == 0 {
        assert(0 as real * pow10(0) == 0 as real * pow10(exponent)) by (nonlinear_arith);
    } else if mantissa % 10 == 0 {
        let (m, e) = lowest_terms(mantissa / 10, exponent + 1);
        lemma_lowest_terms(mantissa / 10, exponent + 1);
        lemma_pow10_succ(exponent);
        let p = pow10(exponent);
        let q = (mantissa / 10) as real;
        assert(mantissa as real == q * (10 as real));
        assert(q * (p * (10 as real)) == (q * (10 as real)) * p) by (nonlinear_arith);
        let k = (e - exponent - 1) as nat;
        assert(pow10_int((e - exponent) as nat) == 10 * pow10_int(k));
        assert(m * (10 * pow10_int(k)) == mantissa) by (nonlinear_arith)
            requires
                m * pow10_int(k) == mantissa / 10,
                (mantissa / 10) * 10 == mantissa,
        ;
    } else {
        assert(mantissa * 1 == mantissa);
    }
}

/// The least exponent a [`Decimal`] can hold.
pub const MIN_EXPONENT: i32 = -32768;

/// The greatest exponent a [`Decimal`] can hold.
pub const MAX_EXPONENT: i32 = 32785;

/// The bound that the mantissa of a [`Quotient`] stays under: two to the
/// power 125.
pub const MANTISSA_LIMIT: i128 = 0x2000_0000_0000_0000_0000_0000_0000_0000;

/// The bound on the exponent of a [`Quotient`], either way.
pub const EXPONENT_LIMIT: i32 = 40000;

/// Moves the trailing zeros of `mantissa` into the exponent.
pub(crate) fn reduce(mantissa: i128, exponent: i32) -> (r: (i128, i32))
    requires
        -EXPONENT_LIMIT <= exponent <= EXPONENT_LIMIT,
    ensures
        r.0 == lowest_terms(mantissa as int, exponent as int).0,
        r.1 == lowest_terms(mantissa as int, exponent as int).1,
{
    if mantissa == 0 {
        return (0, 0);
    }
    let mut m: i128 = mantissa;
    let mut e: i32 = exponent;
    let mut moved: u8 = 0;
    while m % 10 == 0 && moved < 38
        invariant
            m != 0,
            moved <= 38,
            e == exponent + moved,
            -EXPONENT_LIMIT <= exponent <= EXPONENT_LIMIT,
            lowest_terms(m as int, e as int) == lowest_terms(mantissa as int, exponent as int),
            m * pow10_int(moved as nat) == mantissa,
        decreases 38 - moved,
    {
        proof {
            assert((m / 10) * (10 * pow10_int(moved as nat)) == m * pow10_int(moved as nat))
                by (nonlinear_arith)
                requires
                    (m / 10) * 10 == m,
            ;
        }
        m = m / 10;
        e = e + 1;
        moved = moved + 1;
    }
    proof {
        if moved == 38 {
            lemma_pow10_int_38();
            assert(m % 10 != 0) by (nonlinear_arith)
                requires
                    m != 0,
                    m * 100_000_000_000_000_000_000_000_000_000_000_000_000 == mantissa,
                    -0x8000_0000_0000_0000_0000_0000_0000_0000 <= mantissa
                        < 0x8000_0000_0000_0000_0000_0000_0000_0000,
            ;
        }
    }
    (m, e)
}

proof fn lemma_pow10_int_38()
    ensures
        pow10_int(19) == 10_000_000_000_000_000_000,
        pow10_int(38) == 100_000_000_000_000_000_000_000_000_000_000_000_000,
{
    reveal_with_fuel(pow10_int, 20);
    assert(pow10_int(19) == 10_000_000_000_000_000_000);
    assert(pow10_int(38) == pow10_int(19) * pow10_int(19)) by {
        lemma_pow10_int_add(19, 19);
    }
}

proof fn lemma_pow10_int_add(j: nat, k: nat)
    ensures
        pow10_int(j + k) == pow10_int(j) * pow10_int(k),
    decreases k,
{
    if k == 0 {
        assert(pow10_int(j) * 1 == pow10_int(j));
    } else {
        lemma_pow10_int_add(j, (k - 1) as nat);
        let a = pow10_int(j);
        let b = pow10_int((k - 1) as nat);
        assert(10 * (a * b) == a * (10 * b)) by (nonlinear_arith);
    }
}

/// An exact decimal number, `mantissa × 10^exponent`, kept in lowest terms:
/// the mantissa of a nonzero number does not end in a zero digit, and zero is
/// `0 × 10^0`. Two decimals are therefore equal exactly when they denote the
/// same number.
#[derive(Clone, Copy, Debug, PartialEq, Eq, Structural)]
pub struct Decimal {
    mantissa: i64,
    exponent: i32,
}

impl View for Decimal {
    type V = real;

    /// The number that the decimal denotes.
    open spec fn view(&self) -> real {
        scientific(self.spec_mantissa() as int, self.spec_exponent() as int)
    }
}

impl Decimal {
    /// The mantissa, in contracts.
    pub closed spec fn spec_mantissa(&self) -> i64 {
        self.mantissa
    }

    /// The exponent, in contracts.
    pub closed spec fn spec_exponent(&self) -> i32 {
        self.exponent
    }

    /// Lowest terms, and an exponent within the type's range. Every decimal
    /// that a program holds is so.
    #[verifier::type_invariant]
    pub open spec fn wf(self) -> bool {
        &&& MIN_EXPONENT <= self.spec_exponent() <= MAX_EXPONENT
        &&& self.spec_mantissa() == 0 ==> self.spec_exponent() == 0
        &&& self.spec_mantissa() != 0 ==> self.spec_mantissa() as int % 10 != 0
    }

    /// A conversion factor: a positive decimal of at most sixteen digits or
    /// so, with a small exponent.
    pub open spec fn is_factor(self) -> bool {
        &&& 0 < self.spec_mantissa() < 0x0100_0000_0000_0000
        &&& -64 <= self.spec_exponent() <= 64
    }

    /// The decimal `mantissa × 10^exponent`, reduced to lowest terms.
    pub fn new(mantissa: i64, exponent: i16) -> (d: Decimal)
        ensures
            d@ == scientific(mantissa as int, exponent as int),
            d.mantissa() == lowest_terms(mantissa as int, exponent as int).0,
            d.exponent() == lowest_terms(mantissa as int, exponent as int).1,
            d.wf(),
    {
        let (m, e) = reduce(mantissa as i128, exponent as i32);
        proof {
            lemma_lowest_terms(mantissa as int, exponent as int);
            if mantissa != 0 {
                let k = (e - exponent) as nat;
                lemma_pow10_int(19, k);
                lemma_pow10_int_38();
                assert(k < 19) by (nonlinear_arith)
                    requires
                        m != 0,
                        m * pow10_int(k) == mantissa,
                        -0x8000_0000_0000_0000 <= mantissa < 0x8000_0000_0000_0000,
                        k >= 19 ==> pow10_int(k) >= 10_000_000_000_000_000_000,
                ;
            }
        }
        Decimal { mantissa: m as i64, exponent: e }
    }

    /// The mantissa: the number's digits as an integer.
    #[verifier::when_used_as_spec(spec_mantissa)]
    pub fn mantissa(&self) -> (m: i64)
        ensures
            m == self.spec_mantissa(),
    {
        self.mantissa
    }

    /// The power of ten by which the mantissa is scaled.
    #[verifier::when_used_as_spec(spec_exponent)]
    pub fn exponent(&self) -> (e: i32)
        ensures
            e == self.spec_exponent(),
    {
        self.exponent
    }

    /// The greatest decimal.
    pub fn max() -> (d: Decimal)
        ensures
            d.mantissa() == i64::MAX,
            d.exponent() == MAX_EXPONENT,
    {
        Decimal { mantissa: i64::MAX, exponent: MAX_EXPONENT }
    }

    /// The least decimal.
    pub fn min() -> (d: Decimal)
        ensures
            d.mantissa() == i64::MIN,
            d.exponent() == MAX_EXPONENT,
    {
        Decimal { mantissa: i64::MIN, exponent: MAX_EXPONENT }
    }

    /// The number written out in full, without an exponent: `"1.04"`,
    /// `"-0.0000003"`, `"16000"`.
    pub fn to_string(&self) -> (s: String)
        ensures
            s@ == decimal_text(self.mantissa() as int, self.exponent() as int),
    {
        proof {
            use_type_invariant(self);
        }
        decimal_string(self.mantissa as i128, self.exponent)
    }

    /// No decimal is greater than [`Decimal::max`], and none is less than
    /// [`Decimal::min`].
    pub proof fn lemma_bounds(self)
        requires
            self.wf(),
        ensures
            scientific(i64::MIN as int, MAX_EXPONENT as int) <= self@ <= scientific(
                i64::MAX as int,
                MAX_EXPONENT as int,
            ),
    {
        let e = self.exponent as int;
        let k = (MAX_EXPONENT - e) as nat;
        lemma_pow10_add(e, k as int);
        lemma_pow10_positive(e);
        lemma_pow10_int(0, k);
        let p = pow10(e);
        let t = pow10(k as int);
        let m = self.mantissa as real;
        let least = i64::MIN as real;
        let greatest = i64::MAX as real;
        assert(p <= p * t) by (nonlinear_arith)
            requires
                p > 0 as real,
                t >= 1 as real,
        ;
        assert(least * (p * t) <= m * p <= greatest * (p * t)) by (nonlinear_arith)
            requires
                least <= m <= greatest,
                least < 0 as real,
                greatest > 0 as real,
                p > 0 as real,
                p <= p * t,
        ;
    }

    /// Decimals that denote the same number are the same decimal.
    pub proof fn lemma_equal_views(self, other: Decimal)
        requires
            self.wf(),
            other.wf(),
            self@ == other@,
        ensures
            self == other,
    {
        let (a, b) = if self.exponent <= other.exponent {
            (self, other)
        } else {
            (other, self)
        };
        let k = (b.exponent - a.exponent) as nat;
        lemma_pow10_add(a.exponent as int, k as int);
        lemma_pow10_positive(a.exponent as int);
        lemma_pow10_int(0, k);
        let p = pow10(a.exponent as int);
        let am = a.mantissa as real;
        let bm = b.mantissa as real;
        let t = pow10_int(k) as real;
        assert(am == bm * t) by (nonlinear_arith)
            requires
                am * p == bm * (p * t),
                p > 0 as real,
        ;
        assert(a.mantissa as int == b.mantissa * pow10_int(k)) by (nonlinear_arith)
            requires
                a.mantissa as real == b.mantissa as real * (pow10_int(k) as real),
        ;
        if k > 0 {
            let r = pow10_int((k - 1) as nat);
            lemma_pow10_int(0, (k - 1) as nat);
            let tenth = b.mantissa * r;
            assert(a.mantissa as int == tenth * 10) by (nonlinear_arith)
                requires
                    a.mantissa as int == b.mantissa * (10 * r),
                    tenth == b.mantissa * r,
            ;
            assert(a.mantissa as int % 10 == 0);
            assert(a.mantissa == 0);
            assert(b.mantissa == 0) by (nonlinear_arith)
                requires
                    a.mantissa == 0,
                    a.mantissa as int == b.mantissa * (10 * r),
                    r >= 1,
            ;
            assert(false);
        } else {
            assert(a.mantissa == b.mantissa) by (nonlinear_arith)
                requires
                    a.mantissa as int == b.mantissa * pow10_int(k),
                    pow10_int(k) == 1,
            ;
            assert(a.exponent == b.exponent);
        }
    }
}

/// The base-unit magnitude of a quantity: an exact decimal with room for the
/// product of any [`Decimal`] and any conversion factor. It is not reduced.
#[derive(Clone, Copy, Debug, PartialEq, Eq, Structural)]
pub struct Magnitude {
    mantissa: i128,
    exponent: i32,
}

impl View for Magnitude {
    type V = real;

    /// The number that the magnitude denotes.
    open spec fn view(&self) -> real {
        scientific(self.mantissa() as int, self.exponent() as int)
    }
}

impl Magnitude {
    /// The mantissa.
    pub closed spec fn mantissa(&self) -> i128 {
        self.mantissa
    }

    /// The exponent.
    pub closed spec fn exponent(&self) -> i32 {
        self.exponent
    }

    #[verifier::type_invariant]
    spec fn inv(self) -> bool {
        &&& -MANTISSA_LIMIT < self.mantissa < MANTISSA_LIMIT
        &&& MIN_EXPONENT - 64 <= self.exponent <= MAX_EXPONENT + 64
    }

    /// `value` times `factor`.
    pub(crate) fn product(value: Decimal, factor: Decimal) -> (m: Magnitude)
        requires
            factor.is_factor(),
        ensures
            m@ == value@ * factor@,
            m.mantissa() == value.mantissa() * factor.mantissa(),
            m.exponent() == value.exponent() + factor.exponent(),
    {
        proof {
            use_type_invariant(value);
            use_type_invariant(factor);
            let a = value.mantissa as int;
            let b = factor.mantissa as int;
            assert(-MANTISSA_LIMIT < a * b < MANTISSA_LIMIT) by (nonlinear_arith)
                requires
                    -0x8000_0000_0000_0000 <= a < 0x8000_0000_0000_0000,
                    0 < b < 0x0100_0000_0000_0000,
            ;
            lemma_pow10_add(value.exponent as int, factor.exponent as int);
            let p = pow10(value.exponent as int);
            let q = pow10(factor.exponent as int);
            assert((a * b) as real * (p * q) == (a as real * p) * (b as real * q))
                by (nonlinear_arith);
        }
        Magnitude {
            mantissa: (value.mantissa as i128) * (factor.mantissa as i128),
            exponent: value.exponent + factor.exponent,
        }
    }

    /// The magnitude divided by `factor`.
    pub(crate) fn over(self, factor: Decimal) -> (q: Quotient)
        requires
            factor.is_factor(),
        ensures
            q@ == self@ / factor@,
            q.mantissa() == self.mantissa(),
            q.exponent() == self.exponent() - factor.exponent(),
            q.divisor() == factor.mantissa(),
    {
        proof {
            use_type_invariant(self);
            use_type_invariant(factor);
            let e = self.exponent - factor.exponent;
            lemma_pow10_add(e as int, factor.exponent as int);
            lemma_pow10_positive(factor.exponent as int);
            let m = self.mantissa as real;
            let d = factor.mantissa as real;
            let p = pow10(e as int);
            let f = pow10(factor.exponent as int);
            assert((m * p) / d == (m * (p * f)) / (d * f)) by (nonlinear_arith)
                requires
                    d > 0 as real,
                    f > 0 as real,
            ;
        }
        Quotient {
            mantissa: self.mantissa,
            exponent: self.exponent - factor.exponent,
            divisor: factor.mantissa as u64,
        }
    }

    /// Magnitudes of the same mantissa and exponent are the same magnitude.
    pub proof fn lemma_equal_parts(self, other: Magnitude)
        requires
            self.mantissa() == other.mantissa(),
            self.exponent() == other.exponent(),
        ensures
            self == other,
    {
    }
}

/// The exact result of a conversion: `mantissa × 10^exponent / divisor`.
#[derive(Clone, Copy, Debug, PartialEq, Eq, Structural)]
pub struct Quotient {
    mantissa: i128,
    exponent: i32,
    divisor: u64,
}

impl View for Quotient {
    type V = real;

    /// The number that the quotient denotes.
    open spec fn view(&self) -> real {
        scientific(self.spec_mantissa() as int, self.spec_exponent() as int) / (
        self.spec_divisor() as real)
    }
}

impl Quotient {
    /// The mantissa, in contracts.
    pub closed spec fn spec_mantissa(&self) -> i128 {
        self.mantissa
    }

    /// The exponent, in contracts.
    pub closed spec fn spec_exponent(&self) -> i32 {
        self.exponent
    }

    /// The divisor, in contracts.
    pub closed spec fn spec_divisor(&self) -> u64 {
        self.divisor
    }

    /// A divisor that is not zero, and parts within their bounds. Every
    /// quotient that a program holds is so.
    #[verifier::type_invariant]
    pub open spec fn wf(self) -> bool {
        &&& -MANTISSA_LIMIT < self.spec_mantissa() < MANTISSA_LIMIT
        &&& -EXPONENT_LIMIT <= self.spec_exponent() <= EXPONENT_LIMIT
        &&& self.spec_divisor() >= 1
    }

    /// The quotient `mantissa × 10^exponent / divisor`.
    pub(crate) fn from_parts(mantissa: i128, exponent: i32, divisor: u64) -> (q: Quotient)
        requires
            -MANTISSA_LIMIT < mantissa < MANTISSA_LIMIT,
            -EXPONENT_LIMIT <= exponent <= EXPONENT_LIMIT,
            divisor >= 1,
        ensures
            q.mantissa() == mantissa,
            q.exponent() == exponent,
            q.divisor() == divisor,
    {
        Quotient { mantissa, exponent, divisor }
    }

    /// The digits of the dividend, as an integer.
    #[verifier::when_used_as_spec(spec_mantissa)]
    pub fn mantissa(&self) -> (m: i128)
        ensures
            m == self.spec_mantissa(),
            -MANTISSA_LIMIT < m < MANTISSA_LIMIT,
    {
        proof {
            use_type_invariant(self);
        }
        self.mantissa
    }

    /// The power of ten by which the mantissa is scaled.
    #[verifier::when_used_as_spec(spec_exponent)]
    pub fn exponent(&self) -> (e: i32)
        ensures
            e == self.spec_exponent(),
            -EXPONENT_LIMIT <= e <= EXPONENT_LIMIT,
    {
        proof {
            use_type_invariant(self);
        }
        self.exponent
    }

    /// The whole number that the dividend is divided by; never zero.
    #[verifier::when_used_as_spec(spec_divisor)]
    pub fn divisor(&self) -> (d: u64)
        ensures
            d == self.spec_divisor(),
            d >= 1,
    {
        proof {
            use_type_invariant(self);
        }
        self.divisor
    }

    /// Whether the quotient and `d` denote the same number.
    pub fn equals(&self, d: Decimal) -> (same: bool)
        ensures
            same == (self@ == d@),
    {
        proof {
            use_type_invariant(self);
            use_type_invariant(d);
            let m = d.mantissa as int;
            let v = self.divisor as int;
            assert(-0x8000_0000_0000_0000_0000_0000_0000_0000 < m * v
                < 0x8000_0000_0000_0000_0000_0000_0000_0000) by (nonlinear_arith)
                requires
                    -0x8000_0000_0000_0000 <= m < 0x8000_0000_0000_0000,
                    1 <= v < 0x1_0000_0000_0000_0000,
            ;
            let x = scientific(self.mantissa as int, self.exponent as int);
            let p = pow10(d.exponent as int);
            assert((m * v) as real == m as real * v as real) by (nonlinear_arith);
            assert((x / (v as real) == m as real * p) == (x == (m as real * v as real) * p))
                by (nonlinear_arith)
                requires
                    v as real > 0 as real,
            ;
        }
        let scaled: i128 = (d.mantissa as i128) * (self.divisor as i128);
        same_number(self.mantissa, self.exponent, scaled, d.exponent)
    }
}

/// Whether `a × 10^ea` and `b × 10^eb` are the same number.
fn same_number(a: i128, ea: i32, b: i128, eb: i32) -> (same: bool)
    requires
        -EXPONENT_LIMIT <= ea <= EXPONENT_LIMIT,
        -EXPONENT_LIMIT <= eb <= EXPONENT_LIMIT,
    ensures
        same == (scientific(a as int, ea as int) == scientific(b as int, eb as int)),
{
    proof {
        if ea >= eb {
            lemma_scaled_up(a as int, ea as int, b as int, eb as int);
        } else {
            lemma_scaled_up(b as int, eb as int, a as int, ea as int);
        }
    }
    if ea >= eb {
        times_power_is(a, (ea - eb) as u32, b)
    } else {
        times_power_is(b, (eb - ea) as u32, a)
    }
}

/// Two numbers in scientific notation are equal where the one with the
/// greater exponent, its mantissa scaled up by the difference, has the
/// mantissa of the other.
proof fn lemma_scaled_up(a: int, ea: int, b: int, eb: int)
    requires
        ea >= eb,
    ensures
        (scientific(a, ea) == scientific(b, eb)) == (a * pow10_int((ea - eb) as nat) == b),
{
    let k = (ea - eb) as nat;
    lemma_pow10_add(eb, k as int);
    lemma_pow10_positive(eb);
    lemma_pow10_int(0, k);
    let p = pow10(eb);
    let t = pow10_int(k);
    assert((a * t) as real == a as real * t as real) by (nonlinear_arith);
    assert((a as real * (p * t as real) == b as real * p) == (a as real * t as real == b as real))
        by (nonlinear_arith)
        requires
            p > 0 as real,
    ;
}

/// Whether `a × 10^k` is `b`.
fn times_power_is(a: i128, k: u32, b: i128) -> (same: bool)
    ensures
        same == (a * pow10_int(k as nat) == b),
{
    if a == 0 {
        assert(0 * pow10_int(k as nat) == 0);
        return b == 0;
    }
    let mut x: i128 = a;
    let mut i: u32 = 0;
    while i < k
        invariant
            i <= k,
            a != 0,
            x == a * pow10_int(i as nat),
        decreases k - i,
    {
        proof {
            let t = pow10_int(i as nat);
            let r = pow10_int((k - i - 1) as nat);
            lemma_pow10_int(0, (k - i - 1) as nat);
            lemma_pow10_int_add((i + 1) as nat, (k - i - 1) as nat);
            assert(pow10_int((i + 1) as nat) == 10 * t);
            assert(a * (10 * t) == (a * t) * 10) by (nonlinear_arith);
            // Once out of range, always out of range.
            assert(a * ((10 * t) * r) == ((a * t) * 10) * r) by (nonlinear_arith);
            assert((x * 10 > i128::MAX ==> (x * 10) * r > i128::MAX) && (x * 10 < i128::MIN ==> (x
                * 10) * r < i128::MIN)) by (nonlinear_arith)
                requires
                    r >= 1,
            ;
        }
        match x.checked_mul(10) {
            Some(y) => {
                x = y;
            },
            None => {
                return false;
            },
        }
        i = i + 1;
    }
    x == b
}

} // verus!
