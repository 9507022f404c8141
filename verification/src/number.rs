//! Fixed-point decimal numbers.
//!
//! Tuning parameters such as a sampling temperature are small decimal
//! fractions. They are held exactly, as a signed count of thousandths, so
//! that every value has one representation and one textual form.

use vstd::prelude::*;
use vstd::string::*;

verus! {

/// A decimal number with three fractional digits.
#[derive(Clone, Copy, Debug, PartialEq, Eq, Structural)]
pub struct Decimal {
    /// The number, counted in thousandths.
    pub thousandths: i64,
}

/// The character that stands for the decimal digit `d`.
pub open spec fn digit_char(d: int) -> char
    recommends
        0 <= d < 10,
{
    seq!['0', '1', '2', '3', '4', '5', '6', '7', '8', '9'][d]
}

/// The decimal numeral of `n`, without leading zeros.
pub open spec fn nat_text(n: nat) -> Seq<char>
    decreases n,
{
    if n < 10 {
        seq![digit_char(n as int)]
    } else {
        nat_text(n / 10).push(digit_char((n % 10) as int))
    }
}

/// The digits after the decimal point for `f` thousandths, `0 < f < 1000`,
/// without trailing zeros.
pub open spec fn fraction_text(f: nat) -> Seq<char>
    recommends
        0 < f < 1000,
{
    if f % 100 == 0 {
        seq![digit_char((f / 100) as int)]
    } else if f % 10 == 0 {
        seq![digit_char((f / 100) as int), digit_char((f / 10 % 10) as int)]
    } else {
        seq![
            digit_char((f / 100) as int),
            digit_char((f / 10 % 10) as int),
            digit_char((f % 10) as int),
        ]
    }
}

/// The numeral of `t` thousandths: an optional minus sign, the whole part,
/// and a fractional part only where it is not zero.
pub open spec fn decimal_text(t: int) -> Seq<char> {
    let m: nat = if t < 0 { (-t) as nat } else { t as nat };
    let sign: Seq<char> = if t < 0 { seq!['-'] } else { Seq::<char>::empty() };
    if m % 1000 == 0 {
        sign + nat_text(m / 1000)
    } else {
        sign + nat_text(m / 1000) + seq!['.'] + fraction_text(m % 1000)
    }
}

fn digit_str(d: u64) -> (s: &'static str)
    requires
        d < 10,
    ensures
        s@ == seq![digit_char(d as int)],
{
    proof {
        reveal_strlit("0");
        reveal_strlit("1");
        reveal_strlit("2");
        reveal_strlit("3");
        reveal_strlit("4");
        reveal_strlit("5");
        reveal_strlit("6");
        reveal_strlit("7");
        reveal_strlit("8");
        reveal_strlit("9");
    }
    let s: &'static str = if d == 0 {
        "0"
    } else if d == 1 {
        "1"
    } else if d == 2 {
        "2"
    } else if d == 3 {
        "3"
    } else if d == 4 {
        "4"
    } else if d == 5 {
        "5"
    } else if d == 6 {
        "6"
    } else if d == 7 {
        "7"
    } else if d == 8 {
        "8"
    } else {
        "9"
    };
    assert(s@ =~= seq![digit_char(d as int)]);
    s
}

/// Appends the decimal numeral of `n` to `out`.
pub fn push_nat(out: &mut String, n: u64)
    ensures
        final(out)@ == old(out)@ + nat_text(n as nat),
    decreases n,
{
    if n >= 10 {
        push_nat(out, n / 10);
    }
    out.append(digit_str(n % 10));
    assert(out@ =~= old(out)@ + nat_text(n as nat));
}

fn push_fraction(out: &mut String, f: u64)
    requires
        0 < f < 1000,
    ensures
        final(out)@ == old(out)@ + fraction_text(f as nat),
{
    out.append(digit_str(f / 100));
    if f % 100 != 0 {
        out.append(digit_str(f / 10 % 10));
        if f % 10 != 0 {
            out.append(digit_str(f % 10));
        }
    }
    assert(out@ =~= old(out)@ + fraction_text(f as nat));
}

impl Decimal {
    /// The number as a count of thousandths.
    pub open spec fn value(&self) -> int {
        self.thousandths as int
    }

    /// Whether the number has no fractional part.
    pub open spec fn whole(&self) -> bool {
        self.value() % 1000 == 0
    }

    /// Whether the number lies between `low` and `high` thousandths, both included.
    pub open spec fn within(&self, low: int, high: int) -> bool {
        low <= self.value() <= high
    }

    /// The number `n / 1000`.
    pub fn from_thousandths(n: i64) -> (d: Decimal)
        ensures
            d.value() == n,
    {
        Decimal { thousandths: n }
    }

    /// The whole number `n`.
    pub open spec fn whole_number(n: u32) -> Decimal {
        Decimal { thousandths: (n * 1000) as i64 }
    }

    /// The whole number that this is, if it is one that fits in `u32`.
    pub open spec fn as_whole_number(&self) -> Option<u32> {
        if self.whole() && self.within(0, u32::MAX * 1000) {
            Some((self.value() / 1000) as u32)
        } else {
            None
        }
    }

    /// The whole number `n`.
    pub fn from_integer(n: u32) -> (d: Decimal)
        ensures
            d == Decimal::whole_number(n),
    {
        let wide: i64 = n as i64;
        Decimal { thousandths: wide * 1000 }
    }

    /// Whether the number lies between `low` and `high` thousandths, both included.
    pub fn is_within(&self, low: i64, high: i64) -> (b: bool)
        ensures
            b == self.within(low as int, high as int),
    {
        low <= self.thousandths && self.thousandths <= high
    }

    /// The whole number that this is, if it is one that fits in `u32`.
    pub fn to_integer(&self) -> (r: Option<u32>)
        ensures
            r == self.as_whole_number(),
    {
        let t: i64 = self.thousandths;
        if t >= 0 && t % 1000 == 0 && t / 1000 <= 0xffff_ffff {
            let q: i64 = t / 1000;
            Some(q as u32)
        } else {
            None
        }
    }

    /// The magnitude of the number, in thousandths.
    fn magnitude(&self) -> (m: u64)
        ensures
            m == if self.value() < 0 { -self.value() } else { self.value() },
    {
        let t: i64 = self.thousandths;
        if t >= 0 {
            t as u64
        } else {
            let below: i64 = -(t + 1);
            below as u64 + 1
        }
    }

    /// Appends the numeral of the number to `out`.
    pub fn push_text(&self, out: &mut String)
        ensures
            final(out)@ == old(out)@ + decimal_text(self.value()),
    {
        let m: u64 = self.magnitude();
        if self.thousandths < 0 {
            proof {
                reveal_strlit("-");
            }
            out.append("-");
        }
        push_nat(out, m / 1000);
        if m % 1000 != 0 {
            proof {
                reveal_strlit(".");
            }
            out.append(".");
            push_fraction(out, m % 1000);
        }
        assert(out@ =~= old(out)@ + decimal_text(self.value()));
    }

    /// The numeral of the number, such as `0.8`, `-1.25` or `16`.
    pub fn to_text(&self) -> (s: String)
        ensures
            s@ == decimal_text(self.value()),
    {
        let mut out: String = String::new();
        self.push_text(&mut out);
        assert(out@ =~= decimal_text(self.value()));
        out
    }
}

} // verus!
