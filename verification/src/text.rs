//! Numbers written out in decimal notation.
use crate::decimal::pow10_int;
use vstd::prelude::*;

verus! {

/// The character of a decimal digit.
pub open spec fn digit_char(d: int) -> char {
    if d == 0 {
        '0'
    } else if d == 1 {
        '1'
    } else if d == 2 {
        '2'
    } else if d == 3 {
        '3'
    } else if d == 4 {
        '4'
    } else if d == 5 {
        '5'
    } else if d == 6 {
        '6'
    } else if d == 7 {
        '7'
    } else if d == 8 {
        '8'
    } else {
        '9'
    }
}

/// The number of decimal digits of `n`; zero has one.
pub open spec fn digit_count(n: nat) -> nat
    decreases n,
{
    if n < 10 {
        1
    } else {
        1 + digit_count(n / 10)
    }
}

/// The digit of `n` that counts the multiples of `10^place`.
pub open spec fn digit_at(n: nat, place: nat) -> int {
    (n as int / pow10_int(place)) % 10
}

/// The digits of `n`, the most significant first.
pub open spec fn digits(n: nat) -> Seq<char> {
    Seq::new(
        digit_count(n),
        |i: int| digit_char(digit_at(n, (digit_count(n) - 1 - i) as nat)),
    )
}

/// `count` zero digits.
pub open spec fn zeros(count: nat) -> Seq<char> {
    Seq::new(count, |i: int| '0')
}

/// `n × 10^exponent` written out in full: the digits of `n`, followed by
/// zeros or parted by a decimal point as the exponent asks.
pub open spec fn unsigned_text(n: nat, exponent: int) -> Seq<char> {
    let d = digits(n);
    if n == 0 {
        seq!['0']
    } else if exponent >= 0 {
        d + zeros(exponent as nat)
    } else if d.len() > -exponent {
        d.subrange(0, d.len() + exponent) + seq!['.'] + d.subrange(
            d.len() + exponent,
            d.len() as int,
        )
    } else {
        seq!['0', '.'] + zeros((-exponent - d.len()) as nat) + d
    }
}

/// `mantissa × 10^exponent` written out in full, with a minus sign in front
/// of a negative number.
pub open spec fn decimal_text(mantissa: int, exponent: int) -> Seq<char> {
    if mantissa < 0 {
        seq!['-'] + unsigned_text((-mantissa) as nat, exponent)
    } else {
        unsigned_text(mantissa as nat, exponent)
    }
}

/// The text of one digit.
fn digit_str(d: u8) -> (s: &'static str)
    requires
        d < 10,
    ensures
        s@ == seq![digit_char(d as int)],
{
    proof {
        reveal_strlit("0");
        reveal_strlit("1");
        reveal_strlit("2");
        reveal_strlit("3");
        reveal_strlit("4");
        reveal_strlit("5");
        reveal_strlit("6");
        reveal_strlit("7");
        reveal_strlit("8");
        reveal_strlit("9");
    }
    let s = match d {
        0 => "0",
        1 => "1",
        2 => "2",
        3 => "3",
        4 => "4",
        5 => "5",
        6 => "6",
        7 => "7",
        8 => "8",
        _ => "9",
    };
    assert(s@ =~= seq![digit_char(d as int)]);
    s
}

/// The digits that `places` holds from place `from` down to place `to`, the
/// higher places first.
pub open spec fn places_text(places: Seq<u8>, from: int, to: int) -> Seq<char> {
    Seq::new((from - to) as nat, |i: int| digit_char(places[from - 1 - i] as int))
}

/// Writes the digits of `places` from place `from` down to place `to`.
fn push_places(s: &mut String, places: &Vec<u8>, from: usize, to: usize)
    requires
        to <= from <= places@.len(),
        forall|j: int| 0 <= j < places@.len() ==> places@[j] < 10,
    ensures
        final(s)@ == old(s)@ + places_text(places@, from as int, to as int),
{
    let mut i: usize = from;
    while i > to
        invariant
            to <= i <= from <= places@.len(),
            forall|j: int| 0 <= j < places@.len() ==> places@[j] < 10,
            s@ == old(s)@ + places_text(places@, from as int, i as int),
        decreases i,
    {
        i = i - 1;
        let ghost before = s@;
        s.append(digit_str(places[i]));
        assert(s@ =~= old(s)@ + places_text(places@, from as int, i as int));
    }
}

/// Writes `count` zeros.
fn push_zeros(s: &mut String, count: usize)
    ensures
        final(s)@ == old(s)@ + zeros(count as nat),
{
    let mut i: usize = 0;
    while i < count
        invariant
            i <= count,
            s@ == old(s)@ + zeros(i as nat),
        decreases count - i,
    {
        proof {
            reveal_strlit("0");
        }
        s.append("0");
        i = i + 1;
        assert(s@ =~= old(s)@ + zeros(i as nat));
    }
}

/// The digits of a positive `n`, the least significant first.
fn places_of(n: u128) -> (places: Vec<u8>)
    requires
        n > 0,
    ensures
        places@.len() == digit_count(n as nat),
        forall|j: int| 0 <= j < places@.len() ==> places@[j] == digit_at(n as nat, j as nat),
        forall|j: int| 0 <= j < places@.len() ==> places@[j] < 10,
{
    let mut places: Vec<u8> = Vec::new();
    let mut rest: u128 = n;
    while rest > 0
        invariant
            n > 0,
            rest as int == n as int / pow10_int(places@.len()),
            pow10_int(places@.len()) > 0,
            places@.len() + (if rest == 0 {
                0
            } else {
                digit_count(rest as nat)
            }) == digit_count(n as nat),
            forall|j: int|
                0 <= j < places@.len() ==> places@[j] == digit_at(n as nat, j as nat),
            forall|j: int| 0 <= j < places@.len() ==> places@[j] < 10,
        decreases rest,
    {
        proof {
            let p = pow10_int(places@.len());
            vstd::arithmetic::div_mod::lemma_div_denominator(n as int, p, 10);
            assert(pow10_int((places@.len() + 1) as nat) == 10 * p);
            assert(p * 10 == 10 * p);
        }
        let d: u8 = (rest % 10) as u8;
        places.push(d);
        rest = rest / 10;
    }
    places
}

/// `mantissa × 10^exponent` written out in full.
pub(crate) fn decimal_string(mantissa: i128, exponent: i32) -> (s: String)
    requires
        mantissa > i128::MIN,
    ensures
        s@ == decimal_text(mantissa as int, exponent as int),
{
    let mut s = String::new();
    if mantissa == 0 {
        proof {
            reveal_strlit("0");
        }
        s.append("0");
        assert(s@ =~= seq!['0']);
        return s;
    }
    let n: u128 = if mantissa < 0 {
        proof {
            reveal_strlit("-");
        }
        s.append("-");
        (-mantissa) as u128
    } else {
        mantissa as u128
    };
    let ghost sign = s@;
    assert(sign =~= (if mantissa < 0 {
        seq!['-']
    } else {
        Seq::<char>::empty()
    }));
    let places = places_of(n);
    let count: usize = places.len();
    let ghost d = digits(n as nat);
    assert(d =~= places_text(places@, count as int, 0));
    if exponent >= 0 {
        push_places(&mut s, &places, count, 0);
        push_zeros(&mut s, exponent as usize);
        assert(s@ =~= sign + unsigned_text(n as nat, exponent as int));
    } else {
        let shift: usize = (-(exponent as i64)) as usize;
        if count > shift {
            push_places(&mut s, &places, count, shift);
            proof {
                reveal_strlit(".");
            }
            s.append(".");
            push_places(&mut s, &places, shift, 0);
            assert(d.subrange(0, d.len() + exponent) =~= places_text(
                places@,
                count as int,
                shift as int,
            ));
            assert(d.subrange(d.len() + exponent, d.len() as int) =~= places_text(
                places@,
                shift as int,
                0,
            ));
            assert(s@ =~= sign + unsigned_text(n as nat, exponent as int));
        } else {
            proof {
                reveal_strlit("0.");
            }
            s.append("0.");
            push_zeros(&mut s, shift - count);
            push_places(&mut s, &places, count, 0);
            assert(s@ =~= sign + unsigned_text(n as nat, exponent as int));
        }
    }
    assert(s@ =~= decimal_text(mantissa as int, exponent as int));
    s
}

} // verus!
