//! Stars by spectral type.
use crate::decimal::pow10;
use crate::decimal::scientific;
use crate::decimal::Decimal;
use crate::decimal::MAX_EXPONENT;
use crate::length;
use crate::length::Length;
use crate::mass;
use crate::mass::Mass;
use crate::power;
use crate::power::Power;
use crate::temperature;
use crate::temperature::degrees;
use crate::temperature::Temperature;
use core::ops::Range;
use vstd::prelude::*;

verus! {

/// The spectral type of a star, or of something that is not quite a star.
#[derive(Clone, Copy, Debug, PartialEq, Eq, Structural)]
pub enum SpectralType {
    // Main sequence stars.
    O,
    B,
    A,
    F,
    G,
    K,
    M,
    // Wolf-Rayet stars.
    WR,
    // Cool red and brown dwarf stars.
    L,
    T,
    Y,
    // Carbon stars.
    C,
    // Intermediary carbon related classes.
    S,
    MS,
    SC,
    // White dwarf stars.
    DA,
    DB,
    DO,
    DQ,
    DZ,
    DC,
    DX,
    DAB,
    DAO,
    DAZ,
    DBZ,
    // Non-stellar spectral types.
    P,
    Q,
}

impl SpectralType {
    /// The seven types of the main sequence.
    pub open spec fn on_main_sequence(self) -> bool {
        self is O || self is B || self is A || self is F || self is G || self is K || self is M
    }

    /// The eleven types of white dwarf.
    pub open spec fn white_dwarf(self) -> bool {
        self is DA || self is DB || self is DO || self is DQ || self is DZ || self is DC
            || self is DX || self is DAB || self is DAO || self is DAZ || self is DBZ
    }

    /// The two types that are not stars.
    pub open spec fn non_stellar(self) -> bool {
        self is P || self is Q
    }

    /// Whether the type lies on the main sequence.
    pub fn is_main_sequence(self) -> (b: bool)
        ensures
            b == self.on_main_sequence(),
    {
        match self {
            SpectralType::O
            | SpectralType::B
            | SpectralType::A
            | SpectralType::F
            | SpectralType::G
            | SpectralType::K
            | SpectralType::M => true,
            _ => false,
        }
    }

    /// Whether the type is one of the white dwarfs.
    pub fn is_white_dwarf(self) -> (b: bool)
        ensures
            b == self.white_dwarf(),
    {
        match self {
            SpectralType::DA
            | SpectralType::DB
            | SpectralType::DO
            | SpectralType::DQ
            | SpectralType::DZ
            | SpectralType::DC
            | SpectralType::DX
            | SpectralType::DAB
            | SpectralType::DAO
            | SpectralType::DAZ
            | SpectralType::DBZ => true,
            _ => false,
        }
    }

    /// Whether the type belongs to something other than a star.
    pub fn is_non_stellar(self) -> (b: bool)
        ensures
            b == self.non_stellar(),
    {
        match self {
            SpectralType::P | SpectralType::Q => true,
            _ => false,
        }
    }

    /// A spectral type belongs to at most one of the three groups.
    pub proof fn lemma_groups_are_disjoint(self)
        ensures
            !(self.on_main_sequence() && self.white_dwarf()),
            !(self.on_main_sequence() && self.non_stellar()),
            !(self.white_dwarf() && self.non_stellar()),
    {
    }

    /// The effective temperatures of the type, from and to, in kelvin. Type O
    /// is open above; of a type off the main sequence nothing is known, and it
    /// gets the whole range of temperatures.
    pub open spec fn effective_temperature_kelvin(self) -> (real, real) {
        match self {
            SpectralType::O => (30_000 as real, degrees(i64::MAX as int)),
            SpectralType::B => (10_000 as real, 30_000 as real),
            SpectralType::A => (7_500 as real, 10_000 as real),
            SpectralType::F => (6_000 as real, 7_500 as real),
            SpectralType::G => (5_200 as real, 6_000 as real),
            SpectralType::K => (3_700 as real, 5_200 as real),
            SpectralType::M => (2_400 as real, 3_700 as real),
            _ => (0 as real, degrees(i64::MAX as int)),
        }
    }

    /// The masses of the type on the main sequence, from and to, each with
    /// its unit. Type O is open above; of a type off the main sequence nothing
    /// is known, and it gets the whole range of masses, below zero too.
    pub open spec fn main_sequence_mass_bounds(self) -> ((real, mass::Scale), (real, mass::Scale)) {
        let sol = mass::Scale::SolarMass;
        let least = (scientific(i64::MIN as int, MAX_EXPONENT as int), mass::Scale::Gram);
        let greatest = (scientific(i64::MAX as int, MAX_EXPONENT as int), mass::Scale::Gram);
        match self {
            SpectralType::O => ((scientific(16, 0), sol), greatest),
            SpectralType::B => ((scientific(21, -1), sol), (scientific(16, 0), sol)),
            SpectralType::A => ((scientific(14, -1), sol), (scientific(21, -1), sol)),
            SpectralType::F => ((scientific(104, -2), sol), (scientific(14, -1), sol)),
            SpectralType::G => ((scientific(8, -1), sol), (scientific(104, -2), sol)),
            SpectralType::K => ((scientific(45, -2), sol), (scientific(8, -1), sol)),
            SpectralType::M => ((scientific(8, -2), sol), (scientific(45, -2), sol)),
            _ => (least, greatest),
        }
    }

    /// The radii of the type on the main sequence, from and to, each with its
    /// unit. Type O is open above, type M starts at nothing; a type off the
    /// main sequence gets the whole range of lengths.
    pub open spec fn main_sequence_radius_bounds(self) -> (
        (real, length::Scale),
        (real, length::Scale),
    ) {
        let sol = length::Scale::SolarRadius;
        let zero = (0 as real, length::Scale::Meter);
        let greatest = (scientific(i64::MAX as int, MAX_EXPONENT as int), length::Scale::Meter);
        match self {
            SpectralType::O => ((scientific(10, 0), sol), greatest),
            SpectralType::B => ((scientific(2, 0), sol), (scientific(10, 0), sol)),
            SpectralType::A => ((scientific(14, -1), sol), (scientific(2, 0), sol)),
            SpectralType::F => ((scientific(115, -2), sol), (scientific(14, -1), sol)),
            SpectralType::G => ((scientific(9, -1), sol), (scientific(115, -2), sol)),
            SpectralType::K => ((scientific(6, -1), sol), (scientific(9, -1), sol)),
            SpectralType::M => (zero, (scientific(6, -1), sol)),
            _ => (zero, greatest),
        }
    }

    /// The luminosities of the type on the main sequence, from and to, each
    /// with its unit. Type O is open above; a type off the main sequence gets
    /// the whole range of powers.
    pub open spec fn main_sequence_luminosity_bounds(self) -> (
        (real, power::Scale),
        (real, power::Scale),
    ) {
        let sol = power::Scale::SolarLuminosity;
        let zero = (0 as real, power::Scale::Watt);
        let greatest = (scientific(i64::MAX as int, MAX_EXPONENT as int), power::Scale::Watt);
        match self {
            SpectralType::O => ((scientific(30_000, 0), sol), greatest),
            SpectralType::B => ((scientific(25, 0), sol), (scientific(30_000, 0), sol)),
            SpectralType::A => ((scientific(5, 0), sol), (scientific(25, 0), sol)),
            SpectralType::F => ((scientific(15, -1), sol), (scientific(5, 0), sol)),
            SpectralType::G => ((scientific(6, -1), sol), (scientific(15, -1), sol)),
            SpectralType::K => ((scientific(8, -2), sol), (scientific(6, -1), sol)),
            SpectralType::M => ((scientific(0, 0), sol), (scientific(8, -2), sol)),
            _ => (zero, greatest),
        }
    }

    /// The share of the type among the stars of the main sequence, as the
    /// mantissa and the exponent of a decimal; nothing for a type that is not
    /// on it.
    pub open spec fn main_sequence_share_parts(self) -> (int, int) {
        match self {
            SpectralType::O => (3, -7),
            SpectralType::B => (13, -4),
            SpectralType::A => (6, -3),
            SpectralType::F => (3, -2),
            SpectralType::G => (76, -3),
            SpectralType::K => (121, -3),
            SpectralType::M => (7_645, -4),
            _ => (0, 0),
        }
    }

    /// The share of the type among the stars of the main sequence; nothing
    /// for a type that is not on it.
    pub open spec fn main_sequence_share(self) -> real {
        scientific(self.main_sequence_share_parts().0, self.main_sequence_share_parts().1)
    }

    /// The range of effective temperatures of stars of the type.
    pub fn effective_temperature(self) -> (r: Range<Temperature>)
        ensures
            r.start.measures(self.effective_temperature_kelvin().0, temperature::Scale::Kelvin),
            r.end.measures(self.effective_temperature_kelvin().1, temperature::Scale::Kelvin),
    {
        match self {
            SpectralType::O => Temperature::K(300_000_000)..temperature::max(),
            SpectralType::B => Temperature::K_range(100_000_000..300_000_000),
            SpectralType::A => Temperature::K_range(75_000_000..100_000_000),
            SpectralType::F => Temperature::K_range(60_000_000..75_000_000),
            SpectralType::G => Temperature::K_range(52_000_000..60_000_000),
            SpectralType::K => Temperature::K_range(37_000_000..52_000_000),
            SpectralType::M => Temperature::K_range(24_000_000..37_000_000),
            // Some temperature: no more is known here.
            _ => temperature::min()..temperature::max(),
        }
    }

    /// The range of masses of main-sequence stars of the type.
    pub fn main_sequence_mass(self) -> (r: Range<Mass>)
        ensures
            r.start.measures(
                self.main_sequence_mass_bounds().0.0,
                self.main_sequence_mass_bounds().0.1,
            ),
            r.end.measures(
                self.main_sequence_mass_bounds().1.0,
                self.main_sequence_mass_bounds().1.1,
            ),
    {
        let sol = mass::Scale::SolarMass;
        match self {
            SpectralType::O => Mass::Msol(Decimal::new(16, 0))..mass::max(),
            SpectralType::B => Mass::range(Decimal::new(21, -1)..Decimal::new(16, 0), sol),
            SpectralType::A => Mass::range(Decimal::new(14, -1)..Decimal::new(21, -1), sol),
            SpectralType::F => Mass::range(Decimal::new(104, -2)..Decimal::new(14, -1), sol),
            SpectralType::G => Mass::range(Decimal::new(8, -1)..Decimal::new(104, -2), sol),
            SpectralType::K => Mass::range(Decimal::new(45, -2)..Decimal::new(8, -1), sol),
            SpectralType::M => Mass::range(Decimal::new(8, -2)..Decimal::new(45, -2), sol),
            // Some mass, which may even lie below zero: no more is known here.
            _ => mass::min()..mass::max(),
        }
    }

    /// The range of radii of main-sequence stars of the type.
    pub fn main_sequence_radius(self) -> (r: Range<Length>)
        ensures
            r.start.measures(
                self.main_sequence_radius_bounds().0.0,
                self.main_sequence_radius_bounds().0.1,
            ),
            r.end.measures(
                self.main_sequence_radius_bounds().1.0,
                self.main_sequence_radius_bounds().1.1,
            ),
    {
        let sol = length::Scale::SolarRadius;
        match self {
            SpectralType::O => Length::Rsol(Decimal::new(10, 0))..length::max(),
            SpectralType::B => Length::range(Decimal::new(2, 0)..Decimal::new(10, 0), sol),
            SpectralType::A => Length::range(Decimal::new(14, -1)..Decimal::new(2, 0), sol),
            SpectralType::F => Length::range(Decimal::new(115, -2)..Decimal::new(14, -1), sol),
            SpectralType::G => Length::range(Decimal::new(9, -1)..Decimal::new(115, -2), sol),
            SpectralType::K => Length::range(Decimal::new(6, -1)..Decimal::new(9, -1), sol),
            SpectralType::M => length::zero()..Length::Rsol(Decimal::new(6, -1)),
            // Some radius: no more is known here.
            _ => length::zero()..length::max(),
        }
    }

    /// The range of luminosities of main-sequence stars of the type.
    pub fn main_sequence_luminosity(self) -> (r: Range<Power>)
        ensures
            r.start.measures(
                self.main_sequence_luminosity_bounds().0.0,
                self.main_sequence_luminosity_bounds().0.1,
            ),
            r.end.measures(
                self.main_sequence_luminosity_bounds().1.0,
                self.main_sequence_luminosity_bounds().1.1,
            ),
    {
        let sol = power::Scale::SolarLuminosity;
        match self {
            SpectralType::O => Power::Lsol(Decimal::new(30_000, 0))..power::max(),
            SpectralType::B => Power::range(Decimal::new(25, 0)..Decimal::new(30_000, 0), sol),
            SpectralType::A => Power::range(Decimal::new(5, 0)..Decimal::new(25, 0), sol),
            SpectralType::F => Power::range(Decimal::new(15, -1)..Decimal::new(5, 0), sol),
            SpectralType::G => Power::range(Decimal::new(6, -1)..Decimal::new(15, -1), sol),
            SpectralType::K => Power::range(Decimal::new(8, -2)..Decimal::new(6, -1), sol),
            SpectralType::M => Power::range(Decimal::new(0, 0)..Decimal::new(8, -2), sol),
            // Some power: no more is known here.
            _ => power::zero()..power::max(),
        }
    }

    /// The share of the type among the stars of the main sequence.
    pub fn main_sequence_fraction(self) -> (share: Decimal)
        ensures
            share@ == self.main_sequence_share(),
            share.mantissa() == self.main_sequence_share_parts().0,
            share.exponent() == self.main_sequence_share_parts().1,
            !self.on_main_sequence() ==> share@ == 0 as real,
    {
        proof {
            assert(scientific(0, 0) == 0 as real) by (nonlinear_arith)
                requires
                    scientific(0, 0) == 0 as real * pow10(0),
            ;
        }
        match self {
            SpectralType::O => Decimal::new(3, -7),
            SpectralType::B => Decimal::new(13, -4),
            SpectralType::A => Decimal::new(6, -3),
            SpectralType::F => Decimal::new(3, -2),
            SpectralType::G => Decimal::new(76, -3),
            SpectralType::K => Decimal::new(121, -3),
            // Most main sequence stars are of type M.
            SpectralType::M => Decimal::new(7_645, -4),
            // Not on the main sequence.
            _ => Decimal::new(0, 0),
        }
    }

    /// The shares of the seven types of the main sequence come to 0.9988003:
    /// all but a little over a thousandth of the whole.
    pub proof fn lemma_main_sequence_shares()
        ensures
            SpectralType::O.main_sequence_share() + SpectralType::B.main_sequence_share()
                + SpectralType::A.main_sequence_share() + SpectralType::F.main_sequence_share()
                + SpectralType::G.main_sequence_share() + SpectralType::K.main_sequence_share()
                + SpectralType::M.main_sequence_share() == 9_988_003 as real / (
            10_000_000 as real),
    {
        reveal_with_fuel(pow10, 8);
        assert(pow10(-7) == 1 as real / (10_000_000 as real));
        assert(pow10(-4) == 1 as real / (10_000 as real));
        assert(pow10(-3) == 1 as real / (1_000 as real));
        assert(pow10(-2) == 1 as real / (100 as real));
        assert(SpectralType::O.main_sequence_share() == 3 as real * pow10(-7));
        assert(SpectralType::B.main_sequence_share() == 13 as real * pow10(-4));
        assert(SpectralType::A.main_sequence_share() == 6 as real * pow10(-3));
        assert(SpectralType::F.main_sequence_share() == 3 as real * pow10(-2));
        assert(SpectralType::G.main_sequence_share() == 76 as real * pow10(-3));
        assert(SpectralType::K.main_sequence_share() == 121 as real * pow10(-3));
        assert(SpectralType::M.main_sequence_share() == 7_645 as real * pow10(-4));
    }
}

} // verus!
