//! Exact rational scalars.
//!
//! Every number in the kernel is a fraction `num/den` of machine integers
//! with a positive denominator. Arithmetic is exact; the only rounding in
//! the whole kernel happens in [`Rat::sqrt_floor`], which rounds down to the
//! comparison grid of spacing `1/EPS_DEN`. Comparisons with [`nums_equal`]
//! use the same grid: two numbers are equal when they differ by less than
//! `1/EPS_DEN`, which absorbs that rounding.

use vstd::prelude::*;

verus! {

/// Denominator of the comparison grid: numbers closer than `1/EPS_DEN` are
/// considered equal, and square roots are computed on this grid.
pub const EPS_DEN: i128 = 100000;

/// Largest magnitude allowed in intermediate products. It is symmetric
/// around zero (it excludes `i128::MIN`) so that negation never overflows.
pub const MAX_I: i128 = 0x7fff_ffff_ffff_ffff_ffff_ffff_ffff_ffff;

/// Mathematical model of a scalar: an unbounded fraction `num/den`.
pub struct SRat {
    pub num: int,
    pub den: int,
}

/// An exact rational scalar, the kernel's replacement for a machine real.
#[derive(Clone, Copy, Debug)]
pub struct Rat {
    pub num: i128,
    pub den: i128,
}

impl View for Rat {
    type V = SRat;

    open spec fn view(&self) -> SRat {
        SRat { num: self.num as int, den: self.den as int }
    }
}

/// A well-formed scalar keeps its denominator positive.
pub open spec fn srat_wf(r: SRat) -> bool {
    r.den > 0
}

/// `x` is representable in the symmetric i128 range.
pub open spec fn fits(x: int) -> bool {
    -MAX_I <= x <= MAX_I
}

pub open spec fn abs_i(x: int) -> int {
    if x < 0 {
        -x
    } else {
        x
    }
}

/// Exact value equality of two fractions, by cross multiplication.
pub open spec fn rat_eq(a: SRat, b: SRat) -> bool {
    a.num * b.den == b.num * a.den
}

/// Strict order of two fractions with positive denominators.
pub open spec fn rat_lt(a: SRat, b: SRat) -> bool {
    a.num * b.den < b.num * a.den
}

pub open spec fn rat_le(a: SRat, b: SRat) -> bool {
    a.num * b.den <= b.num * a.den
}

/// Grid equality: `|a - b| < 1/EPS_DEN`, written without division.
pub open spec fn rat_near(a: SRat, b: SRat) -> bool {
    EPS_DEN * abs_i(a.num * b.den - b.num * a.den) < a.den * b.den
}

pub open spec fn rat_add(a: SRat, b: SRat) -> SRat {
    SRat { num: a.num * b.den + b.num * a.den, den: a.den * b.den }
}

pub open spec fn rat_sub(a: SRat, b: SRat) -> SRat {
    SRat { num: a.num * b.den - b.num * a.den, den: a.den * b.den }
}

pub open spec fn rat_neg(a: SRat) -> SRat {
    SRat { num: -a.num, den: a.den }
}

pub open spec fn rat_mul(a: SRat, b: SRat) -> SRat {
    SRat { num: a.num * b.num, den: a.den * b.den }
}

/// Division normalizes the sign so the denominator stays positive.
pub open spec fn rat_div(a: SRat, b: SRat) -> SRat {
    if b.num < 0 {
        SRat { num: -(a.num * b.den), den: -(a.den * b.num) }
    } else {
        SRat { num: a.num * b.den, den: a.den * b.num }
    }
}

/// The square root rounded down to the grid: the numerator is the integer
/// square root of `num * den * EPS_DEN^2` and the denominator `den * EPS_DEN`,
/// so the result is the largest grid value whose square is at most `a`.
pub open spec fn rat_sqrt(a: SRat) -> SRat {
    SRat { num: isqrt_s(a.num * a.den * EPS_DEN * EPS_DEN), den: a.den * EPS_DEN }
}

/// The intermediate products of `rat_add` stay in range.
pub open spec fn add_fits(a: SRat, b: SRat) -> bool {
    &&& fits(a.num * b.den)
    &&& fits(b.num * a.den)
    &&& fits(a.num * b.den + b.num * a.den)
    &&& fits(a.num * b.den - b.num * a.den)
    &&& fits(a.den * b.den)
}

pub open spec fn mul_fits(a: SRat, b: SRat) -> bool {
    &&& fits(a.num * b.num)
    &&& fits(a.den * b.den)
}

pub open spec fn div_fits(a: SRat, b: SRat) -> bool {
    &&& fits(a.num * b.den)
    &&& fits(a.den * b.num)
}

pub open spec fn cmp_fits(a: SRat, b: SRat) -> bool {
    &&& fits(a.num * b.den)
    &&& fits(b.num * a.den)
}

pub open spec fn near_fits(a: SRat, b: SRat) -> bool {
    &&& cmp_fits(a, b)
    &&& fits(a.num * b.den - b.num * a.den)
    &&& fits(EPS_DEN * (a.num * b.den - b.num * a.den))
    &&& fits(EPS_DEN * (b.num * a.den - a.num * b.den))
    &&& fits(a.den * b.den)
}

pub open spec fn sqrt_fits(a: SRat) -> bool {
    &&& fits(a.num * a.den * EPS_DEN * EPS_DEN)
    &&& fits(a.den * EPS_DEN)
}

/// Integer square root (rounded down), defined by counting up.
pub open spec fn isqrt_s(x: int) -> int
    decreases x,
{
    if x <= 0 {
        0
    } else {
        let p = isqrt_s(x - 1);
        if (p + 1) * (p + 1) <= x {
            p + 1
        } else {
            p
        }
    }
}

/// `isqrt_s(x)` is the integer square root: its square is at most `x` and
/// the next square is beyond `x`.
pub proof fn lemma_isqrt(x: int)
    requires
        x >= 0,
    ensures
        isqrt_s(x) >= 0,
        isqrt_s(x) * isqrt_s(x) <= x,
        x < (isqrt_s(x) + 1) * (isqrt_s(x) + 1),
    decreases x,
{
    if x == 0 {
    } else {
        lemma_isqrt(x - 1);
        let p = isqrt_s(x - 1);
        if (p + 1) * (p + 1) <= x {
            assert(x <= (p + 1) * (p + 1));
            assert((p + 1) * (p + 1) < (p + 2) * (p + 2)) by (nonlinear_arith)
                requires
                    p >= 0,
            ;
        } else {
        }
    }
}

/// The integer square root is the unique `r` with `r^2 <= x < (r+1)^2`.
pub proof fn lemma_isqrt_unique(x: int, r: int)
    requires
        x >= 0,
        r >= 0,
        r * r <= x,
        x < (r + 1) * (r + 1),
    ensures
        isqrt_s(x) == r,
{
    lemma_isqrt(x);
    let q = isqrt_s(x);
    assert(q <= r) by (nonlinear_arith)
        requires
            q >= 0,
            r >= 0,
            q * q <= x,
            x < (r + 1) * (r + 1),
    ;
    assert(r <= q) by (nonlinear_arith)
        requires
            q >= 0,
            r >= 0,
            r * r <= x,
            x < (q + 1) * (q + 1),
    ;
}

/// Any `y` whose square is at most `x` is at most the integer square root.
pub proof fn lemma_isqrt_lower(x: int, y: int)
    requires
        y >= 0,
        y * y <= x,
    ensures
        y <= isqrt_s(x),
{
    lemma_isqrt(x);
    let q = isqrt_s(x);
    assert(y <= q) by (nonlinear_arith)
        requires
            y >= 0,
            q >= 0,
            y * y <= x,
            x < (q + 1) * (q + 1),
    ;
}

/// Integer square root by binary search over `[0, 2^64]`.
fn isqrt_u(x: u128) -> (r: u128)
    ensures
        (r as int) * (r as int) <= x as int,
        (x as int) < (r as int + 1) * (r as int + 1),
{
    let mut lo: u128 = 0;
    let mut hi: u128 = 0x1_0000_0000_0000_0000;
    assert((x as int) < (hi as int) * (hi as int)) by (nonlinear_arith)
        requires
            hi == 0x1_0000_0000_0000_0000u128,
            x <= 0xffff_ffff_ffff_ffff_ffff_ffff_ffff_ffffu128,
    ;
    while lo + 1 < hi
        invariant
            lo < hi,
            hi <= 0x1_0000_0000_0000_0000u128,
            (lo as int) * (lo as int) <= x as int,
            (x as int) < (hi as int) * (hi as int),
        decreases hi - lo,
    {
        let mid: u128 = lo + (hi - lo) / 2;
        assert(lo <= mid && mid < hi);
        assert((mid as int) * (mid as int) <= 0xffff_ffff_ffff_ffff_ffff_ffff_ffff_ffff) by (nonlinear_arith)
            requires
                mid < 0x1_0000_0000_0000_0000u128,
        ;
        if mid * mid <= x {
            lo = mid;
        } else {
            hi = mid;
        }
    }
    lo
}

/// The product of two positive integers is positive.
pub proof fn lemma_pos_mul(a: int, b: int)
    by (nonlinear_arith)
    requires
        a > 0,
        b > 0,
    ensures
        a * b > 0,
{
}

/// The product of a positive and a negative integer is negative.
pub proof fn lemma_pos_neg_mul(a: int, b: int)
    by (nonlinear_arith)
    requires
        a > 0,
        b < 0,
    ensures
        a * b < 0,
{
}

impl Rat {
    /// Build `num/den`, normalizing the sign so the denominator is positive.
    pub fn new(num: i128, den: i128) -> (r: Rat)
        requires
            den != 0,
            fits(num as int),
            fits(den as int),
        ensures
            srat_wf(r@),
            rat_eq(r@, SRat { num: num as int, den: den as int }),
    {
        if den > 0 {
            Rat { num, den }
        } else {
            proof {
                assert((-num as int) * (den as int) == (num as int) * (-den as int))
                    by (nonlinear_arith);
            }
            Rat { num: -num, den: -den }
        }
    }

    /// The integer `n` as a rational.
    pub fn from_int(n: i128) -> (r: Rat)
        ensures
            r@.num == n as int,
            r@.den == 1,
            srat_wf(r@),
    {
        Rat { num: n, den: 1 }
    }

    pub fn add(&self, other: &Rat) -> (r: Rat)
        requires
            srat_wf(self@),
            srat_wf(other@),
            add_fits(self@, other@),
        ensures
            r@ == rat_add(self@, other@),
            srat_wf(r@),
    {
        proof {
            lemma_pos_mul(self@.den, other@.den);
        }
        Rat { num: self.num * other.den + other.num * self.den, den: self.den * other.den }
    }

    pub fn sub(&self, other: &Rat) -> (r: Rat)
        requires
            srat_wf(self@),
            srat_wf(other@),
            add_fits(self@, other@),
        ensures
            r@ == rat_sub(self@, other@),
            srat_wf(r@),
    {
        proof {
            lemma_pos_mul(self@.den, other@.den);
        }
        Rat { num: self.num * other.den - other.num * self.den, den: self.den * other.den }
    }

    pub fn neg(&self) -> (r: Rat)
        requires
            srat_wf(self@),
            fits(self@.num),
        ensures
            r@ == rat_neg(self@),
            srat_wf(r@),
    {
        Rat { num: -self.num, den: self.den }
    }

    pub fn mul(&self, other: &Rat) -> (r: Rat)
        requires
            srat_wf(self@),
            srat_wf(other@),
            mul_fits(self@, other@),
        ensures
            r@ == rat_mul(self@, other@),
            srat_wf(r@),
    {
        proof {
            lemma_pos_mul(self@.den, other@.den);
        }
        Rat { num: self.num * other.num, den: self.den * other.den }
    }

    pub fn div(&self, other: &Rat) -> (r: Rat)
        requires
            srat_wf(self@),
            srat_wf(other@),
            other@.num != 0,
            div_fits(self@, other@),
        ensures
            r@ == rat_div(self@, other@),
            srat_wf(r@),
    {
        if other.num < 0 {
            proof {
                lemma_pos_neg_mul(self@.den, other@.num);
            }
            Rat { num: -(self.num * other.den), den: -(self.den * other.num) }
        } else {
            proof {
                lemma_pos_mul(self@.den, other@.num);
            }
            Rat { num: self.num * other.den, den: self.den * other.num }
        }
    }

    pub fn lt(&self, other: &Rat) -> (r: bool)
        requires
            srat_wf(self@),
            srat_wf(other@),
            cmp_fits(self@, other@),
        ensures
            r == rat_lt(self@, other@),
    {
        self.num * other.den < other.num * self.den
    }

    pub fn le(&self, other: &Rat) -> (r: bool)
        requires
            srat_wf(self@),
            srat_wf(other@),
            cmp_fits(self@, other@),
        ensures
            r == rat_le(self@, other@),
    {
        self.num * other.den <= other.num * self.den
    }

    /// Whether the value is strictly positive.
    pub fn is_positive(&self) -> (r: bool)
        requires
            srat_wf(self@),
        ensures
            r == (self@.num > 0),
    {
        self.num > 0
    }

    /// The square root rounded down to the comparison grid: the largest
    /// multiple of `1/(den*EPS_DEN)` whose square is at most `self`. Exact
    /// whenever `self` is the square of a grid value.
    pub fn sqrt_floor(&self) -> (r: Rat)
        requires
            srat_wf(self@),
            self@.num >= 0,
            sqrt_fits(self@),
        ensures
            r@ == rat_sqrt(self@),
            srat_wf(r@),
    {
        proof {
            assert(self@.num * self@.den >= 0 && self@.num * self@.den <= self@.num * self@.den
                * (EPS_DEN * EPS_DEN)) by (nonlinear_arith)
                requires
                    self@.num >= 0,
                    self@.den > 0,
            ;
        }
        let prod: i128 = self.num * self.den;
        let s2: i128 = EPS_DEN * EPS_DEN;
        assert(prod as int * s2 as int == self@.num * self@.den * EPS_DEN * EPS_DEN) by (nonlinear_arith)
            requires
                prod as int == self@.num * self@.den,
                s2 as int == (EPS_DEN as int) * (EPS_DEN as int),
        ;
        let scaled: i128 = prod * s2;
        let q: u128 = isqrt_u(scaled as u128);
        proof {
            assert(q as int <= MAX_I) by (nonlinear_arith)
                requires
                    q as int * (q as int) <= scaled as int,
                    scaled as int <= MAX_I,
                    q >= 0,
            ;
            lemma_isqrt_unique(scaled as int, q as int);
        }
        Rat { num: q as i128, den: self.den * EPS_DEN }
    }
}

/// Grid equality of two scalars: true when they differ by less than
/// `1/EPS_DEN`. This is the kernel's analogue of tolerance comparison.
pub fn nums_equal(n1: &Rat, n2: &Rat) -> (r: bool)
    requires
        srat_wf(n1@),
        srat_wf(n2@),
        near_fits(n1@, n2@),
    ensures
        r == rat_near(n1@, n2@),
{
    let x: i128 = n1.num * n2.den;
    let y: i128 = n2.num * n1.den;
    let d: i128 = if x >= y {
        x - y
    } else {
        y - x
    };
    EPS_DEN * d < n1.den * n2.den
}

/// A strict bound below a weak bound stays strict.
pub proof fn lemma_rat_lt_le_trans(a: SRat, b: SRat, c: SRat)
    by (nonlinear_arith)
    requires
        srat_wf(a),
        srat_wf(b),
        srat_wf(c),
        rat_lt(a, b),
        rat_le(b, c),
    ensures
        rat_lt(a, c),
{
}

/// Strict order implies weak order.
pub proof fn lemma_rat_lt_le(a: SRat, b: SRat)
    ensures
        rat_lt(a, b) ==> rat_le(a, b),
{
}

} // verus!
