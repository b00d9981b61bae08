//! Exact rational numbers over `i64`, with a ghost-level model.
//!
//! The board layout formulas divide integer extents by small counts
//! (`width / 2`, `width / covers_count`, ...), so positions are exact
//! rationals. A [`Rat`] carries an `i64` numerator and a positive
//! `i64` denominator; its ghost model is a [`Ratio`] over `int`, and
//! the spec functions below define equality, order and arithmetic on
//! that model by cross-multiplication.

use vstd::prelude::*;

verus! {

/// Ghost model of a rational number: an integer numerator over an
/// integer denominator. Meaningful when `den > 0`.
pub ghost struct Ratio {
    pub num: int,
    pub den: int,
}

/// The rational `i / 1`.
pub open spec fn ratio_of_int(i: int) -> Ratio {
    Ratio { num: i, den: 1 }
}

/// Well-formed: the denominator is positive.
pub open spec fn ratio_wf(a: Ratio) -> bool {
    a.den > 0
}

/// `a == b` as rational values, by cross-multiplication.
pub open spec fn ratio_eq(a: Ratio, b: Ratio) -> bool {
    a.num * b.den == b.num * a.den
}

/// `a <= b` as rational values; assumes positive denominators.
pub open spec fn ratio_le(a: Ratio, b: Ratio) -> bool {
    a.num * b.den <= b.num * a.den
}

/// Sum of two rationals, on the common denominator.
pub open spec fn ratio_add(a: Ratio, b: Ratio) -> Ratio {
    Ratio { num: a.num * b.den + b.num * a.den, den: a.den * b.den }
}

/// Difference of two rationals, on the common denominator.
pub open spec fn ratio_sub(a: Ratio, b: Ratio) -> Ratio {
    Ratio { num: a.num * b.den - b.num * a.den, den: a.den * b.den }
}

/// Negation.
pub open spec fn ratio_neg(a: Ratio) -> Ratio {
    Ratio { num: -a.num, den: a.den }
}

/// Division by a positive integer.
pub open spec fn ratio_div_int(a: Ratio, k: int) -> Ratio {
    Ratio { num: a.num, den: a.den * k }
}

/// Multiplication by an integer.
pub open spec fn ratio_mul_int(a: Ratio, k: int) -> Ratio {
    Ratio { num: a.num * k, den: a.den }
}

/// An exact rational number: `num / den` with `den > 0`.
///
/// Values are kept unreduced; two `Rat`s represent the same rational
/// when [`ratio_eq`] holds of their models, which [`Rat::eqv`] decides.
#[derive(Clone, Copy, Debug, PartialEq, Eq, Structural)]
pub struct Rat {
    pub num: i64,
    pub den: i64,
}

impl View for Rat {
    type V = Ratio;

    open spec fn view(&self) -> Ratio {
        Ratio { num: self.num as int, den: self.den as int }
    }
}

impl Rat {
    /// Well-formed: the denominator is positive.
    pub open spec fn wf(self) -> bool {
        ratio_wf(self@)
    }

    /// Both components bounded by `m` in magnitude.
    pub open spec fn bounded(self, m: int) -> bool {
        -m <= self.num as int <= m && self.den as int <= m
    }

    /// The rational `num / den`.
    pub fn new(num: i64, den: i64) -> (r: Rat)
        requires
            den > 0,
        ensures
            r@ == (Ratio { num: num as int, den: den as int }),
            r.wf(),
    {
        Rat { num, den }
    }

    /// The rational `i / 1`.
    pub fn from_int(i: i64) -> (r: Rat)
        ensures
            r@ == ratio_of_int(i as int),
            r.wf(),
    {
        Rat { num: i, den: 1 }
    }

    /// Decides rational equality of two well-formed values.
    pub fn eqv(&self, other: &Rat) -> (r: bool)
        requires
            self.wf(),
            other.wf(),
        ensures
            r == ratio_eq(self@, other@),
    {
        proof {
            lemma_i64_mul_fits_i128(self.num as int, other.den as int);
            lemma_i64_mul_fits_i128(other.num as int, self.den as int);
        }
        let lhs: i128 = (self.num as i128) * (other.den as i128);
        let rhs: i128 = (other.num as i128) * (self.den as i128);
        lhs == rhs
    }

    /// Decides `self <= other` on well-formed values.
    pub fn le(&self, other: &Rat) -> (r: bool)
        requires
            self.wf(),
            other.wf(),
        ensures
            r == ratio_le(self@, other@),
    {
        proof {
            lemma_i64_mul_fits_i128(self.num as int, other.den as int);
            lemma_i64_mul_fits_i128(other.num as int, self.den as int);
        }
        let lhs: i128 = (self.num as i128) * (other.den as i128);
        let rhs: i128 = (other.num as i128) * (self.den as i128);
        lhs <= rhs
    }
}

/// The product of two `i64` values fits in an `i128`.
pub proof fn lemma_i64_mul_fits_i128(a: int, b: int)
    by (nonlinear_arith)
    requires
        i64::MIN <= a <= i64::MAX,
        i64::MIN <= b <= i64::MAX,
    ensures
        i128::MIN <= a * b <= i128::MAX,
{
}

/// Rational equality implies order in both directions.
pub proof fn lemma_ratio_eq_le(a: Ratio, b: Ratio)
    requires
        ratio_wf(a),
        ratio_wf(b),
        ratio_eq(a, b),
    ensures
        ratio_le(a, b),
        ratio_le(b, a),
{
}

/// `ratio_le` is transitive on well-formed values.
pub proof fn lemma_ratio_le_trans(a: Ratio, b: Ratio, c: Ratio)
    requires
        ratio_wf(a),
        ratio_wf(b),
        ratio_wf(c),
        ratio_le(a, b),
        ratio_le(b, c),
    ensures
        ratio_le(a, c),
{
    assert(a.num * c.den <= c.num * a.den) by (nonlinear_arith)
        requires
            a.den > 0,
            b.den > 0,
            c.den > 0,
            a.num * b.den <= b.num * a.den,
            b.num * c.den <= c.num * b.den,
    ;
}

/// Adding a non-negative rational does not decrease a value.
pub proof fn lemma_ratio_le_add_nonneg(a: Ratio, s: Ratio)
    requires
        ratio_wf(a),
        ratio_wf(s),
        ratio_le(ratio_of_int(0), s),
    ensures
        ratio_le(a, ratio_add(a, s)),
{
    assert(a.num * (a.den * s.den) <= (a.num * s.den + s.num * a.den) * a.den) by (nonlinear_arith)
        requires
            a.den > 0,
            s.den > 0,
            0 <= s.num,
    ;
}

} // verus!
