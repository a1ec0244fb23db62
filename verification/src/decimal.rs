use vstd::prelude::*;
use vstd::arithmetic::power::{pow, lemma_pow0, lemma_pow_positive, lemma_pow_adds};
use vstd::arithmetic::mul::{
    lemma_mul_is_associative, lemma_mul_strict_inequality, lemma_mul_strict_inequality_converse,
    lemma_mul_equality_converse,
};
use bigdecimal::BigDecimal;
use bigdecimal::num_bigint::BigInt;

verus! {

/// A decimal number `unscaled * 10^(-scale)`, kept as written: `1.50` is
/// `{ unscaled: 150, scale: 2 }` and differs from `1.5` as a record field,
/// though the two are the same number.
#[derive(Clone, Copy, Debug, PartialEq, Eq, Structural)]
pub struct Decimal {
    pub unscaled: i128,
    pub scale: i64,
}

/// The text in which `bigdecimal` prints the decimal with mantissa
/// `unscaled` and scale `scale`: plain digits for numbers of moderate size,
/// with an exponent beyond thresholds that the crate fixes when it is built.
pub uninterp spec fn decimal_text(unscaled: int, scale: int) -> Seq<char>;

impl Decimal {
    /// The mantissa of the same number written with `digits` fractional digits.
    pub open spec fn scaled_to(self, digits: int) -> int
        recommends
            self.scale <= digits,
    {
        self.unscaled * pow(10, (digits - self.scale) as nat)
    }

    /// The larger of the two scales.
    pub open spec fn common_scale(self, other: Decimal) -> int {
        if self.scale >= other.scale {
            self.scale as int
        } else {
            other.scale as int
        }
    }

    /// `self` is the smaller number.
    pub open spec fn num_lt(self, other: Decimal) -> bool {
        self.scaled_to(self.common_scale(other)) < other.scaled_to(self.common_scale(other))
    }

    /// The two are the same number.
    pub open spec fn num_eq(self, other: Decimal) -> bool {
        self.scaled_to(self.common_scale(other)) == other.scaled_to(self.common_scale(other))
    }

    /// The number is zero or more.
    pub open spec fn non_negative(self) -> bool {
        self.unscaled >= 0
    }

    /// The text of the number.
    pub open spec fn text(self) -> Seq<char> {
        decimal_text(self.unscaled as int, self.scale as int)
    }

    pub open spec fn spec_zero() -> Decimal {
        Decimal { unscaled: 0, scale: 0 }
    }

    pub open spec fn spec_one() -> Decimal {
        Decimal { unscaled: 1, scale: 0 }
    }

    pub fn new(unscaled: i128, scale: i64) -> (r: Decimal)
        ensures
            r == (Decimal { unscaled, scale }),
    {
        Decimal { unscaled, scale }
    }

    #[verifier::when_used_as_spec(spec_zero)]
    pub fn zero() -> (r: Decimal)
        ensures
            r == Decimal::spec_zero(),
    {
        Decimal { unscaled: 0, scale: 0 }
    }

    #[verifier::when_used_as_spec(spec_one)]
    pub fn one() -> (r: Decimal)
        ensures
            r == Decimal::spec_one(),
    {
        Decimal { unscaled: 1, scale: 0 }
    }

    /// Whether `self` is the smaller number.
    pub fn lt(&self, other: &Decimal) -> (r: bool)
        ensures
            r == self.num_lt(*other),
    {
        big_lt(self.unscaled, self.scale, other.unscaled, other.scale)
    }

    /// Whether the two are the same number, whatever their scales.
    pub fn same_number(&self, other: &Decimal) -> (r: bool)
        ensures
            r == self.num_eq(*other),
    {
        !self.lt(other) && !other.lt(self)
    }

    /// The number as text.
    pub fn to_text(&self) -> (r: String)
        ensures
            r@ == self.text(),
    {
        big_text(self.unscaled, self.scale)
    }
}

/// `<` of `bigdecimal::BigDecimal` on the two decimals built by
/// `BigDecimal::new`. The crate compares by numeric value: it brings the
/// mantissas to a common scale and compares them as integers.
#[verifier::external_body]
fn big_lt(a_unscaled: i128, a_scale: i64, b_unscaled: i128, b_scale: i64) -> (r: bool)
    ensures
        r == (Decimal { unscaled: a_unscaled, scale: a_scale }).num_lt(
            Decimal { unscaled: b_unscaled, scale: b_scale },
        ),
{
    BigDecimal::new(BigInt::from(a_unscaled), a_scale) < BigDecimal::new(
        BigInt::from(b_unscaled),
        b_scale,
    )
}

/// `to_string` of `bigdecimal::BigDecimal`, through its `Display`, on the
/// decimal built by `BigDecimal::new`. The text is a function of mantissa and
/// scale alone; the contract gives it a name and says nothing of its shape.
#[verifier::external_body]
fn big_text(unscaled: i128, scale: i64) -> (r: String)
    ensures
        r@ == decimal_text(unscaled as int, scale as int),
{
    BigDecimal::new(BigInt::from(unscaled), scale).to_string()
}

/// A negative amount becomes zero; any other amount stays as it is.
pub open spec fn spec_ensure_not_negative(val: Decimal) -> Decimal {
    if val.unscaled < 0 {
        Decimal::spec_zero()
    } else {
        val
    }
}

#[verifier::when_used_as_spec(spec_ensure_not_negative)]
pub fn ensure_not_negative(val: Decimal) -> (r: Decimal)
    ensures
        r == spec_ensure_not_negative(val),
        r.non_negative(),
{
    if val.unscaled < 0 {
        Decimal::zero()
    } else {
        val
    }
}

/// Writing a number with more fractional digits multiplies its mantissa by a
/// power of ten.
proof fn lemma_scaled_lift(d: Decimal, m: int, big: int)
    requires
        d.scale <= m <= big,
    ensures
        d.scaled_to(big) == d.scaled_to(m) * pow(10, (big - m) as nat),
        pow(10, (big - m) as nat) > 0,
{
    let e1 = (m - d.scale) as nat;
    let e2 = (big - m) as nat;
    lemma_pow_adds(10, e1, e2);
    lemma_pow_positive(10, e2);
    lemma_mul_is_associative(d.unscaled as int, pow(10, e1), pow(10, e2));
    assert((big - d.scale) as nat == e1 + e2);
}

/// Comparing two decimals is comparing their mantissas at any scale that is
/// at least both of theirs.
pub proof fn lemma_compare_at(a: Decimal, b: Decimal, digits: int)
    requires
        a.scale <= digits,
        b.scale <= digits,
    ensures
        a.num_lt(b) == (a.scaled_to(digits) < b.scaled_to(digits)),
        a.num_eq(b) == (a.scaled_to(digits) == b.scaled_to(digits)),
{
    let m = a.common_scale(b);
    let k = pow(10, (digits - m) as nat);
    lemma_scaled_lift(a, m, digits);
    lemma_scaled_lift(b, m, digits);
    let x = a.scaled_to(m);
    let y = b.scaled_to(m);
    if x < y {
        lemma_mul_strict_inequality(x, y, k);
    }
    if x * k < y * k {
        lemma_mul_strict_inequality_converse(x, y, k);
    }
    if x * k == y * k {
        lemma_mul_equality_converse(k, x, y);
    }
}

/// The largest of three scales.
pub open spec fn common_scale3(a: Decimal, b: Decimal, c: Decimal) -> int {
    let m = a.common_scale(b);
    if m >= c.scale {
        m
    } else {
        c.scale as int
    }
}

/// Three decimals compare among each other as their mantissas do at their
/// common scale: the numeric order is a total order on numbers.
pub proof fn lemma_compare_three(a: Decimal, b: Decimal, c: Decimal)
    ensures
        a.num_lt(b) == (a.scaled_to(common_scale3(a, b, c)) < b.scaled_to(common_scale3(a, b, c))),
        a.num_eq(b) == (a.scaled_to(common_scale3(a, b, c)) == b.scaled_to(common_scale3(a, b, c))),
        b.num_lt(a) == (b.scaled_to(common_scale3(a, b, c)) < a.scaled_to(common_scale3(a, b, c))),
        b.num_lt(c) == (b.scaled_to(common_scale3(a, b, c)) < c.scaled_to(common_scale3(a, b, c))),
        b.num_eq(c) == (b.scaled_to(common_scale3(a, b, c)) == c.scaled_to(common_scale3(a, b, c))),
        c.num_lt(b) == (c.scaled_to(common_scale3(a, b, c)) < b.scaled_to(common_scale3(a, b, c))),
        a.num_lt(c) == (a.scaled_to(common_scale3(a, b, c)) < c.scaled_to(common_scale3(a, b, c))),
        a.num_eq(c) == (a.scaled_to(common_scale3(a, b, c)) == c.scaled_to(common_scale3(a, b, c))),
        c.num_lt(a) == (c.scaled_to(common_scale3(a, b, c)) < a.scaled_to(common_scale3(a, b, c))),
{
    let m = common_scale3(a, b, c);
    lemma_compare_at(a, b, m);
    lemma_compare_at(b, a, m);
    lemma_compare_at(b, c, m);
    lemma_compare_at(c, b, m);
    lemma_compare_at(a, c, m);
    lemma_compare_at(c, a, m);
}

/// Two decimals that are the same number and are written with the same
/// scale are the same decimal.
pub proof fn lemma_same_number_same_scale(a: Decimal, b: Decimal)
    requires
        a.num_eq(b),
        a.scale == b.scale,
    ensures
        a == b,
{
    lemma_pow0(10);
}

} // verus!
