//! Decimal amounts: money, quantities and percentages.

use std::str::FromStr;

use rust_decimal::Decimal;
use vstd::prelude::*;

use crate::text;

verus! {

/// A decimal number: `magnitude / 10^scale`, with a sign that zero has too.
pub struct AmountView {
    pub negative: bool,
    pub magnitude: nat,
    pub scale: nat,
}

/// Ten to the power `n`.
pub open spec fn pow10(n: nat) -> nat
    decreases n,
{
    if n == 0 {
        1
    } else {
        10 * pow10((n - 1) as nat)
    }
}

/// The last `width` decimal digits of `n`, zeros included.
pub open spec fn fixed_digits(n: nat, width: nat) -> Seq<char>
    decreases width,
{
    if width == 0 {
        Seq::empty()
    } else {
        fixed_digits(n / 10, (width - 1) as nat).push(text::digit_char(n % 10))
    }
}

impl AmountView {
    /// The signed whole number that the scale divides.
    pub open spec fn numerator(self) -> int {
        if self.negative {
            -(self.magnitude as int)
        } else {
            self.magnitude as int
        }
    }

    /// Whether the number is larger than `other`, whatever their scales.
    pub open spec fn exceeds(self, other: AmountView) -> bool {
        self.numerator() * pow10(other.scale) > other.numerator() * pow10(self.scale)
    }

    /// Whether the two are the same number, whatever their scales.
    pub open spec fn equals(self, other: AmountView) -> bool {
        self.numerator() * pow10(other.scale) == other.numerator() * pow10(self.scale)
    }

    /// The number as text: a sign where it is negative, the whole part, and the
    /// fraction with exactly as many digits as the scale says.
    pub open spec fn text(self) -> Seq<char> {
        let sign = if self.negative {
            seq!['-']
        } else {
            Seq::empty()
        };
        let whole = text::nat_text(self.magnitude / pow10(self.scale));
        let fraction = if self.scale == 0 {
            Seq::empty()
        } else {
            seq!['.'] + fixed_digits(self.magnitude % pow10(self.scale), self.scale)
        };
        sign + whole + fraction
    }
}

/// Zero, without a fraction.
pub open spec fn zero_amount() -> AmountView {
    AmountView { negative: false, magnitude: 0, scale: 0 }
}

/// A decimal number of up to 96 bits and 28 fractional digits.
#[derive(Clone, Copy)]
pub struct Amount {
    negative: bool,
    hi: u32,
    mid: u32,
    lo: u32,
    scale: u32,
}

impl View for Amount {
    type V = AmountView;

    closed spec fn view(&self) -> AmountView {
        AmountView {
            negative: self.negative,
            magnitude: (self.lo + self.mid * 0x1_0000_0000 + self.hi
                * 0x1_0000_0000_0000_0000) as nat,
            scale: self.scale as nat,
        }
    }
}

impl Amount {
    /// The fraction never has more digits than the number type allows.
    #[verifier::type_invariant]
    spec fn in_bounds(self) -> bool {
        self.scale <= 28
    }

    /// Zero.
    pub fn zero() -> (a: Amount)
        ensures
            a@ == zero_amount(),
    {
        Amount { negative: false, hi: 0, mid: 0, lo: 0, scale: 0 }
    }

    /// The number with these 32-bit parts, lowest first, if the scale is one that
    /// an amount can have.
    pub fn from_parts(lo: u32, mid: u32, hi: u32, negative: bool, scale: u32) -> (a: Option<Amount>)
        ensures
            a is Some <==> scale <= 28,
            a matches Some(n) ==> n@ == (AmountView {
                negative,
                magnitude: (lo + mid * 0x1_0000_0000 + hi * 0x1_0000_0000_0000_0000) as nat,
                scale: scale as nat,
            }),
    {
        if scale <= 28 {
            Some(Amount { negative, hi, mid, lo, scale })
        } else {
            None
        }
    }

    /// The sign, the 32-bit parts from the highest down, and the scale.
    pub fn parts(&self) -> (p: (bool, u32, u32, u32, u32))
        ensures
            self@ == (AmountView {
                negative: p.0,
                magnitude: (p.3 + p.2 * 0x1_0000_0000 + p.1 * 0x1_0000_0000_0000_0000) as nat,
                scale: p.4 as nat,
            }),
            p.4 <= 28,
    {
        proof {
            use_type_invariant(self);
        }
        (self.negative, self.hi, self.mid, self.lo, self.scale)
    }

    /// The amount as text.
    pub fn text(&self) -> (s: String)
        ensures
            s@ == self@.text(),
    {
        proof {
            use_type_invariant(self);
        }
        decimal_text(self)
    }

    /// Whether the amount is larger than `other`.
    pub fn exceeds(&self, other: &Amount) -> (larger: bool)
        ensures
            larger == self@.exceeds(other@),
    {
        proof {
            use_type_invariant(self);
            use_type_invariant(other);
        }
        decimal_exceeds(self, other)
    }

    /// Whether the amount is the same number as `other`.
    pub fn equals(&self, other: &Amount) -> (same: bool)
        ensures
            same == self@.equals(other@),
    {
        proof {
            use_type_invariant(self);
            use_type_invariant(other);
        }
        decimal_equals(self, other)
    }
}

/// What `Decimal::from_str` of the `rust_decimal` crate reads in a text: the sign,
/// the 96-bit whole number and the scale, or nothing where it refuses the text.
pub uninterp spec fn decimal_reading(text: Seq<char>) -> Option<AmountView>;

/// `Decimal::from_str` of the `rust_decimal` crate, taken apart with `unpack`. Which
/// texts it reads, and how it rounds those with too many digits, is left to the
/// crate: the result is named, not described.
#[verifier::external_body]
pub(crate) fn decimal_from_str(text: &str) -> (amount: Option<Amount>)
    ensures
        match amount {
            Some(a) => decimal_reading(text@) == Some(a@),
            None => decimal_reading(text@) is None,
        },
{
    match Decimal::from_str(text) {
        Ok(d) => {
            let u = d.unpack();
            Some(Amount { negative: u.negative, hi: u.hi, mid: u.mid, lo: u.lo, scale: u.scale })
        },
        Err(_) => None,
    }
}

/// `to_string` of a `rust_decimal` `Decimal`: the sign, the whole part without
/// leading zeros, and exactly `scale` fractional digits after a point. The crate
/// has no decimal with a scale above 28.
#[verifier::external_body]
fn decimal_text(amount: &Amount) -> (text: String)
    requires
        amount@.scale <= 28,
    ensures
        text@ == amount@.text(),
{
    let mut d = Decimal::from_parts(amount.lo, amount.mid, amount.hi, false, amount.scale);
    d.set_sign_negative(amount.negative);
    d.to_string()
}

/// `>` on `rust_decimal` `Decimal`s compares the numbers, not their scales.
#[verifier::external_body]
fn decimal_exceeds(a: &Amount, b: &Amount) -> (larger: bool)
    requires
        a@.scale <= 28,
        b@.scale <= 28,
    ensures
        larger == a@.exceeds(b@),
{
    let x = Decimal::from_parts(a.lo, a.mid, a.hi, a.negative, a.scale);
    let y = Decimal::from_parts(b.lo, b.mid, b.hi, b.negative, b.scale);
    x > y
}

/// `==` on `rust_decimal` `Decimal`s compares the numbers, not their scales.
#[verifier::external_body]
fn decimal_equals(a: &Amount, b: &Amount) -> (same: bool)
    requires
        a@.scale <= 28,
        b@.scale <= 28,
    ensures
        same == a@.equals(b@),
{
    let x = Decimal::from_parts(a.lo, a.mid, a.hi, a.negative, a.scale);
    let y = Decimal::from_parts(b.lo, b.mid, b.hi, b.negative, b.scale);
    x == y
}

/// The signed whole number of an amount, before the scale divides it.
pub open spec fn signed(a: AmountView) -> int {
    if a.negative {
        -(a.magnitude as int)
    } else {
        a.magnitude as int
    }
}

/// Whether `a` is the larger number: with both brought to the same denominator, its
/// numerator is the larger one.
pub open spec fn larger(a: AmountView, b: AmountView) -> bool {
    signed(a) * vstd::arithmetic::power::pow(10, b.scale) > signed(b)
        * vstd::arithmetic::power::pow(10, a.scale)
}

proof fn lemma_pow10(n: nat)
    ensures
        pow10(n) == vstd::arithmetic::power::pow(10, n),
        pow10(n) > 0,
    decreases n,
{
    reveal(vstd::arithmetic::power::pow);
    if n > 0 {
        lemma_pow10((n - 1) as nat);
    }
}

/// An amount exceeds another exactly where it is the larger number, whatever their
/// scales, and equals another exactly where neither is larger.
pub proof fn amounts_compare_as_numbers(a: AmountView, b: AmountView)
    ensures
        a.exceeds(b) <==> larger(a, b),
        a.equals(b) <==> !larger(a, b) && !larger(b, a),
        a.scale == b.scale ==> (a.exceeds(b) <==> signed(a) > signed(b)),
{
    lemma_pow10(a.scale);
    lemma_pow10(b.scale);
    if a.scale == b.scale {
        let p = pow10(a.scale) as int;
        let x = signed(a);
        let y = signed(b);
        assert(x * p > y * p <==> x > y) by (nonlinear_arith)
            requires
                p > 0,
        ;
    }
}

/// An amount without a fraction is written as its sign and its whole number.
pub proof fn whole_amounts_are_written_as_numbers(a: AmountView)
    requires
        a.scale == 0,
    ensures
        a.text() == (if a.negative {
            seq!['-'] + text::nat_text(a.magnitude)
        } else {
            text::nat_text(a.magnitude)
        }),
{
    assert(a.magnitude / 1 == a.magnitude);
    assert(a.text() =~= (if a.negative {
        seq!['-'] + text::nat_text(a.magnitude)
    } else {
        text::nat_text(a.magnitude)
    }));
}

/// One more digit of the fraction is one more digit at the end of the text, behind a
/// point where it is the first.
pub proof fn fractions_are_written_digit_by_digit(
    a: AmountView,
    longer: AmountView,
    digit: nat,
    c: char,
)
    requires
        digit < 10,
        c as u32 == 0x30 + digit,
        longer.negative == a.negative,
        longer.magnitude == 10 * a.magnitude + digit,
        longer.scale == a.scale + 1,
    ensures
        longer.text() == if a.scale == 0 {
            a.text().push('.').push(c)
        } else {
            a.text().push(c)
        },
{
    let m = a.magnitude as int;
    let p = pow10(a.scale) as int;
    let big = longer.magnitude as int;
    lemma_pow10(a.scale);
    assert(pow10(longer.scale) == 10 * p);
    let q = m / p;
    let r = m % p;
    vstd::arithmetic::div_mod::lemma_fundamental_div_mod(m, p);
    vstd::arithmetic::div_mod::lemma_mod_bound(m, p);
    assert(big == q * (10 * p) + (10 * r + digit)) by (nonlinear_arith)
        requires
            big == 10 * m + digit,
            m == p * q + r,
    ;
    vstd::arithmetic::div_mod::lemma_fundamental_div_mod_converse(big, 10 * p, q, 10 * r + digit);
    assert((10 * r + digit) / 10 == r);
    assert((10 * r + digit) % 10 == digit as int);
    assert(text::digit_char(digit) == c);
    let before = fixed_digits(r as nat, a.scale);
    assert(fixed_digits((10 * r + digit) as nat, longer.scale) == before.push(c));
    if a.scale == 0 {
        assert(before =~= Seq::empty());
        assert(longer.text() =~= a.text().push('.').push(c));
    } else {
        assert(longer.text() =~= a.text().push(c));
    }
}

} // verus!
