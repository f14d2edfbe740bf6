//! Homogeneous-coordinate tuples, and the point/vector wrappers over them.
//!
//! A [`Tuple4`] stores the four components as integers over one positive
//! denominator, so componentwise arithmetic is exact. A [`Point`] is a tuple
//! whose `w` component equals `1` (that is, `nw == den`); a [`Vector`] is a
//! tuple with `w == 0`. Magnitude rounds down to the comparison grid (see
//! [`crate::rat`]); everything else is exact.

use crate::rat::{
    abs_i, add_fits, fits, isqrt_s, lemma_isqrt, lemma_isqrt_lower, lemma_pos_mul,
    lemma_pos_neg_mul, near_fits, nums_equal, rat_eq, rat_near, rat_sqrt, sqrt_fits, srat_wf,
    Rat, SRat, EPS_DEN,
};
use vstd::prelude::*;

verus! {

/// Mathematical model of a tuple: unbounded integer components over one
/// denominator.
pub struct STup {
    pub nx: int,
    pub ny: int,
    pub nz: int,
    pub nw: int,
    pub den: int,
}

/// A homogeneous 4-component tuple `(x, y, z, w)`.
#[derive(Clone, Copy, Debug)]
pub struct Tuple4 {
    pub nx: i128,
    pub ny: i128,
    pub nz: i128,
    pub nw: i128,
    pub den: i128,
}

impl View for Tuple4 {
    type V = STup;

    open spec fn view(&self) -> STup {
        STup {
            nx: self.nx as int,
            ny: self.ny as int,
            nz: self.nz as int,
            nw: self.nw as int,
            den: self.den as int,
        }
    }
}

/// An affine location: a tuple with `w == 1`.
#[derive(Clone, Copy, Debug)]
pub struct Point {
    pub tup: Tuple4,
}

impl View for Point {
    type V = STup;

    open spec fn view(&self) -> STup {
        self.tup@
    }
}

/// A free direction or displacement: a tuple with `w == 0`.
#[derive(Clone, Copy, Debug)]
pub struct Vector {
    pub tup: Tuple4,
}

impl View for Vector {
    type V = STup;

    open spec fn view(&self) -> STup {
        self.tup@
    }
}

pub open spec fn stup_wf(t: STup) -> bool {
    t.den > 0
}

pub open spec fn spoint_wf(t: STup) -> bool {
    t.den > 0 && t.nw == t.den
}

pub open spec fn svec_wf(t: STup) -> bool {
    t.den > 0 && t.nw == 0
}

/// The `x` component as a scalar, and likewise for the other components.
pub open spec fn cx(t: STup) -> SRat {
    SRat { num: t.nx, den: t.den }
}

pub open spec fn cy(t: STup) -> SRat {
    SRat { num: t.ny, den: t.den }
}

pub open spec fn cz(t: STup) -> SRat {
    SRat { num: t.nz, den: t.den }
}

pub open spec fn cw(t: STup) -> SRat {
    SRat { num: t.nw, den: t.den }
}

/// The component at index `i`, in `x, y, z, w` order.
pub open spec fn tup_comp(t: STup, i: int) -> SRat {
    if i == 0 {
        cx(t)
    } else if i == 1 {
        cy(t)
    } else if i == 2 {
        cz(t)
    } else {
        cw(t)
    }
}

/// Componentwise value equality.
pub open spec fn tup_eq(a: STup, b: STup) -> bool {
    &&& rat_eq(cx(a), cx(b))
    &&& rat_eq(cy(a), cy(b))
    &&& rat_eq(cz(a), cz(b))
    &&& rat_eq(cw(a), cw(b))
}

/// Componentwise grid equality (each component within `1/EPS_DEN`).
pub open spec fn tup_near(a: STup, b: STup) -> bool {
    &&& rat_near(cx(a), cx(b))
    &&& rat_near(cy(a), cy(b))
    &&& rat_near(cz(a), cz(b))
    &&& rat_near(cw(a), cw(b))
}

pub open spec fn tup_add(a: STup, b: STup) -> STup {
    STup {
        nx: a.nx * b.den + b.nx * a.den,
        ny: a.ny * b.den + b.ny * a.den,
        nz: a.nz * b.den + b.nz * a.den,
        nw: a.nw * b.den + b.nw * a.den,
        den: a.den * b.den,
    }
}

pub open spec fn tup_sub(a: STup, b: STup) -> STup {
    STup {
        nx: a.nx * b.den - b.nx * a.den,
        ny: a.ny * b.den - b.ny * a.den,
        nz: a.nz * b.den - b.nz * a.den,
        nw: a.nw * b.den - b.nw * a.den,
        den: a.den * b.den,
    }
}

pub open spec fn tup_neg(a: STup) -> STup {
    STup { nx: -a.nx, ny: -a.ny, nz: -a.nz, nw: -a.nw, den: a.den }
}

pub open spec fn tup_scale(a: STup, s: SRat) -> STup {
    STup { nx: a.nx * s.num, ny: a.ny * s.num, nz: a.nz * s.num, nw: a.nw * s.num, den: a.den * s.den }
}

/// Division by a scalar, with the sign normalized into the numerators.
pub open spec fn tup_div_scalar(a: STup, s: SRat) -> STup {
    if s.num < 0 {
        STup {
            nx: -(a.nx * s.den),
            ny: -(a.ny * s.den),
            nz: -(a.nz * s.den),
            nw: -(a.nw * s.den),
            den: -(a.den * s.num),
        }
    } else {
        STup { nx: a.nx * s.den, ny: a.ny * s.den, nz: a.nz * s.den, nw: a.nw * s.den, den: a.den * s.num }
    }
}

/// Dot product over all four components.
pub open spec fn tup_dot(a: STup, b: STup) -> SRat {
    SRat { num: a.nx * b.nx + a.ny * b.ny + a.nz * b.nz + a.nw * b.nw, den: a.den * b.den }
}

/// Numerator of the dot product of a tuple with itself: a sum of squares.
pub open spec fn tup_sq(a: STup) -> int {
    a.nx * a.nx + a.ny * a.ny + a.nz * a.nz + a.nw * a.nw
}

/// The Euclidean norm, rounded down to the comparison grid.
pub open spec fn vec_mag(a: STup) -> SRat {
    rat_sqrt(tup_dot(a, a))
}

/// `a / |a|`: the unit vector in the direction of `a`.
pub open spec fn vec_norm(a: STup) -> STup {
    tup_div_scalar(a, vec_mag(a))
}

/// 3D cross product; the `w` component of the result is zero.
pub open spec fn vec_cross(a: STup, b: STup) -> STup {
    STup {
        nx: a.ny * b.nz - a.nz * b.ny,
        ny: a.nz * b.nx - a.nx * b.nz,
        nz: a.nx * b.ny - a.ny * b.nx,
        nw: 0,
        den: a.den * b.den,
    }
}

/// Writing one component: the others are rescaled onto the new denominator.
pub open spec fn tup_set(t: STup, i: int, v: SRat) -> STup {
    STup {
        nx: if i == 0 {
            v.num * t.den
        } else {
            t.nx * v.den
        },
        ny: if i == 1 {
            v.num * t.den
        } else {
            t.ny * v.den
        },
        nz: if i == 2 {
            v.num * t.den
        } else {
            t.nz * v.den
        },
        nw: if i == 3 {
            v.num * t.den
        } else {
            t.nw * v.den
        },
        den: t.den * v.den,
    }
}

/// A tuple built from four scalars, over their common denominator.
pub open spec fn tup_new(x: SRat, y: SRat, z: SRat, w: SRat) -> STup {
    STup {
        nx: x.num * y.den * z.den * w.den,
        ny: y.num * x.den * z.den * w.den,
        nz: z.num * x.den * y.den * w.den,
        nw: w.num * x.den * y.den * z.den,
        den: x.den * y.den * z.den * w.den,
    }
}

/// A point built from three scalars (`w` is one).
pub open spec fn point_new(x: SRat, y: SRat, z: SRat) -> STup {
    STup {
        nx: x.num * y.den * z.den,
        ny: y.num * x.den * z.den,
        nz: z.num * x.den * y.den,
        nw: x.den * y.den * z.den,
        den: x.den * y.den * z.den,
    }
}

/// A vector built from three scalars (`w` is zero).
pub open spec fn vec_new(x: SRat, y: SRat, z: SRat) -> STup {
    STup {
        nx: x.num * y.den * z.den,
        ny: y.num * x.den * z.den,
        nz: z.num * x.den * y.den,
        nw: 0,
        den: x.den * y.den * z.den,
    }
}

pub open spec fn tup_add_fits(a: STup, b: STup) -> bool {
    &&& add_fits(cx(a), cx(b))
    &&& add_fits(cy(a), cy(b))
    &&& add_fits(cz(a), cz(b))
    &&& add_fits(cw(a), cw(b))
}

pub open spec fn tup_scale_fits(a: STup, s: SRat) -> bool {
    &&& fits(a.nx * s.num)
    &&& fits(a.ny * s.num)
    &&& fits(a.nz * s.num)
    &&& fits(a.nw * s.num)
    &&& fits(a.den * s.den)
}

pub open spec fn tup_div_fits(a: STup, s: SRat) -> bool {
    &&& fits(a.nx * s.den)
    &&& fits(a.ny * s.den)
    &&& fits(a.nz * s.den)
    &&& fits(a.nw * s.den)
    &&& fits(a.den * s.num)
}

/// Every product and every partial sum of the dot product stays in range.
pub open spec fn tup_dot_fits(a: STup, b: STup) -> bool {
    &&& fits(a.nx * b.nx)
    &&& fits(a.ny * b.ny)
    &&& fits(a.nz * b.nz)
    &&& fits(a.nw * b.nw)
    &&& fits(a.nx * b.nx + a.ny * b.ny)
    &&& fits(a.nx * b.nx + a.ny * b.ny + a.nz * b.nz)
    &&& fits(a.nx * b.nx + a.ny * b.ny + a.nz * b.nz + a.nw * b.nw)
    &&& fits(a.den * b.den)
}

pub open spec fn tup_near_fits(a: STup, b: STup) -> bool {
    &&& near_fits(cx(a), cx(b))
    &&& near_fits(cy(a), cy(b))
    &&& near_fits(cz(a), cz(b))
    &&& near_fits(cw(a), cw(b))
}

pub open spec fn vec_cross_fits(a: STup, b: STup) -> bool {
    &&& fits(a.ny * b.nz)
    &&& fits(a.nz * b.ny)
    &&& fits(a.ny * b.nz - a.nz * b.ny)
    &&& fits(a.nz * b.nx)
    &&& fits(a.nx * b.nz)
    &&& fits(a.nz * b.nx - a.nx * b.nz)
    &&& fits(a.nx * b.ny)
    &&& fits(a.ny * b.nx)
    &&& fits(a.nx * b.ny - a.ny * b.nx)
    &&& fits(a.den * b.den)
}

pub open spec fn tup_set_fits(t: STup, v: SRat) -> bool {
    &&& fits(t.nx * v.den)
    &&& fits(t.ny * v.den)
    &&& fits(t.nz * v.den)
    &&& fits(t.nw * v.den)
    &&& fits(v.num * t.den)
    &&& fits(t.den * v.den)
}

pub open spec fn tup_new_fits(x: SRat, y: SRat, z: SRat, w: SRat) -> bool {
    &&& fits(x.den * y.den)
    &&& fits(x.den * y.den * z.den)
    &&& fits(x.den * y.den * z.den * w.den)
    &&& fits(x.num * y.den)
    &&& fits(x.num * y.den * z.den)
    &&& fits(x.num * y.den * z.den * w.den)
    &&& fits(y.num * x.den)
    &&& fits(y.num * x.den * z.den)
    &&& fits(y.num * x.den * z.den * w.den)
    &&& fits(z.num * x.den)
    &&& fits(z.num * x.den * y.den)
    &&& fits(z.num * x.den * y.den * w.den)
    &&& fits(w.num * x.den)
    &&& fits(w.num * x.den * y.den)
    &&& fits(w.num * x.den * y.den * z.den)
}

pub open spec fn tup3_new_fits(x: SRat, y: SRat, z: SRat) -> bool {
    &&& fits(x.den * y.den)
    &&& fits(x.den * y.den * z.den)
    &&& fits(x.num * y.den)
    &&& fits(x.num * y.den * z.den)
    &&& fits(y.num * x.den)
    &&& fits(y.num * x.den * z.den)
    &&& fits(z.num * x.den)
    &&& fits(z.num * x.den * y.den)
}

pub open spec fn vec_mag_fits(a: STup) -> bool {
    &&& tup_dot_fits(a, a)
    &&& sqrt_fits(tup_dot(a, a))
}

pub open spec fn vec_norm_fits(a: STup) -> bool {
    &&& vec_mag_fits(a)
    &&& tup_div_fits(a, vec_mag(a))
}

impl Tuple4 {
    pub fn new(x: Rat, y: Rat, z: Rat, w: Rat) -> (r: Tuple4)
        requires
            srat_wf(x@),
            srat_wf(y@),
            srat_wf(z@),
            srat_wf(w@),
            tup_new_fits(x@, y@, z@, w@),
        ensures
            r@ == tup_new(x@, y@, z@, w@),
            stup_wf(r@),
    {
        proof {
            lemma_pos_mul(x@.den, y@.den);
            lemma_pos_mul(x@.den * y@.den, z@.den);
            lemma_pos_mul(x@.den * y@.den * z@.den, w@.den);
        }
        Tuple4 {
            nx: x.num * y.den * z.den * w.den,
            ny: y.num * x.den * z.den * w.den,
            nz: z.num * x.den * y.den * w.den,
            nw: w.num * x.den * y.den * z.den,
            den: x.den * y.den * z.den * w.den,
        }
    }

    pub fn x(&self) -> (r: Rat)
        ensures
            r@ == cx(self@),
    {
        Rat { num: self.nx, den: self.den }
    }

    pub fn y(&self) -> (r: Rat)
        ensures
            r@ == cy(self@),
    {
        Rat { num: self.ny, den: self.den }
    }

    pub fn z(&self) -> (r: Rat)
        ensures
            r@ == cz(self@),
    {
        Rat { num: self.nz, den: self.den }
    }

    pub fn w(&self) -> (r: Rat)
        ensures
            r@ == cw(self@),
    {
        Rat { num: self.nw, den: self.den }
    }

    pub fn get(&self, idx: usize) -> (r: Rat)
        requires
            idx < 4,
        ensures
            r@ == tup_comp(self@, idx as int),
    {
        if idx == 0 {
            self.x()
        } else if idx == 1 {
            self.y()
        } else if idx == 2 {
            self.z()
        } else {
            self.w()
        }
    }

    pub fn set(&mut self, idx: usize, num: Rat)
        requires
            idx < 4,
            stup_wf(old(self)@),
            srat_wf(num@),
            tup_set_fits(old(self)@, num@),
        ensures
            final(self)@ == tup_set(old(self)@, idx as int, num@),
            stup_wf(final(self)@),
    {
        proof {
            lemma_pos_mul(self@.den, num@.den);
        }
        let scaled_x: i128 = if idx == 0 {
            num.num * self.den
        } else {
            self.nx * num.den
        };
        let scaled_y: i128 = if idx == 1 {
            num.num * self.den
        } else {
            self.ny * num.den
        };
        let scaled_z: i128 = if idx == 2 {
            num.num * self.den
        } else {
            self.nz * num.den
        };
        let scaled_w: i128 = if idx == 3 {
            num.num * self.den
        } else {
            self.nw * num.den
        };
        let new_den: i128 = self.den * num.den;
        self.nx = scaled_x;
        self.ny = scaled_y;
        self.nz = scaled_z;
        self.nw = scaled_w;
        self.den = new_den;
    }

    pub fn set_x(&mut self, num: Rat)
        requires
            stup_wf(old(self)@),
            srat_wf(num@),
            tup_set_fits(old(self)@, num@),
        ensures
            final(self)@ == tup_set(old(self)@, 0, num@),
            stup_wf(final(self)@),
    {
        self.set(0, num);
    }

    pub fn set_y(&mut self, num: Rat)
        requires
            stup_wf(old(self)@),
            srat_wf(num@),
            tup_set_fits(old(self)@, num@),
        ensures
            final(self)@ == tup_set(old(self)@, 1, num@),
            stup_wf(final(self)@),
    {
        self.set(1, num);
    }

    pub fn set_z(&mut self, num: Rat)
        requires
            stup_wf(old(self)@),
            srat_wf(num@),
            tup_set_fits(old(self)@, num@),
        ensures
            final(self)@ == tup_set(old(self)@, 2, num@),
            stup_wf(final(self)@),
    {
        self.set(2, num);
    }

    pub fn set_w(&mut self, num: Rat)
        requires
            stup_wf(old(self)@),
            srat_wf(num@),
            tup_set_fits(old(self)@, num@),
        ensures
            final(self)@ == tup_set(old(self)@, 3, num@),
            stup_wf(final(self)@),
    {
        self.set(3, num);
    }

    pub fn add_tuple(&self, rhs: &Tuple4) -> (r: Tuple4)
        requires
            stup_wf(self@),
            stup_wf(rhs@),
            tup_add_fits(self@, rhs@),
        ensures
            r@ == tup_add(self@, rhs@),
            stup_wf(r@),
    {
        proof {
            lemma_pos_mul(self@.den, rhs@.den);
        }
        Tuple4 {
            nx: self.nx * rhs.den + rhs.nx * self.den,
            ny: self.ny * rhs.den + rhs.ny * self.den,
            nz: self.nz * rhs.den + rhs.nz * self.den,
            nw: self.nw * rhs.den + rhs.nw * self.den,
            den: self.den * rhs.den,
        }
    }

    pub fn sub_tuple(&self, rhs: &Tuple4) -> (r: Tuple4)
        requires
            stup_wf(self@),
            stup_wf(rhs@),
            tup_add_fits(self@, rhs@),
        ensures
            r@ == tup_sub(self@, rhs@),
            stup_wf(r@),
    {
        proof {
            lemma_pos_mul(self@.den, rhs@.den);
        }
        Tuple4 {
            nx: self.nx * rhs.den - rhs.nx * self.den,
            ny: self.ny * rhs.den - rhs.ny * self.den,
            nz: self.nz * rhs.den - rhs.nz * self.den,
            nw: self.nw * rhs.den - rhs.nw * self.den,
            den: self.den * rhs.den,
        }
    }

    pub fn neg(&self) -> (r: Tuple4)
        requires
            stup_wf(self@),
            fits(self@.nx),
            fits(self@.ny),
            fits(self@.nz),
            fits(self@.nw),
        ensures
            r@ == tup_neg(self@),
            stup_wf(r@),
    {
        Tuple4 { nx: -self.nx, ny: -self.ny, nz: -self.nz, nw: -self.nw, den: self.den }
    }

    pub fn mul_scalar(self, num: Rat) -> (r: Tuple4)
        requires
            stup_wf(self@),
            srat_wf(num@),
            tup_scale_fits(self@, num@),
        ensures
            r@ == tup_scale(self@, num@),
            stup_wf(r@),
    {
        proof {
            lemma_pos_mul(self@.den, num@.den);
        }
        Tuple4 {
            nx: self.nx * num.num,
            ny: self.ny * num.num,
            nz: self.nz * num.num,
            nw: self.nw * num.num,
            den: self.den * num.den,
        }
    }

    pub fn div_scalar(self, num: Rat) -> (r: Tuple4)
        requires
            stup_wf(self@),
            srat_wf(num@),
            num@.num != 0,
            tup_div_fits(self@, num@),
        ensures
            r@ == tup_div_scalar(self@, num@),
            stup_wf(r@),
    {
        if num.num < 0 {
            proof {
                lemma_pos_neg_mul(self@.den, num@.num);
            }
            Tuple4 {
                nx: -(self.nx * num.den),
                ny: -(self.ny * num.den),
                nz: -(self.nz * num.den),
                nw: -(self.nw * num.den),
                den: -(self.den * num.num),
            }
        } else {
            proof {
                lemma_pos_mul(self@.den, num@.num);
            }
            Tuple4 {
                nx: self.nx * num.den,
                ny: self.ny * num.den,
                nz: self.nz * num.den,
                nw: self.nw * num.den,
                den: self.den * num.num,
            }
        }
    }

    /// Dot product over all four components.
    pub fn dot(self, rhs: Tuple4) -> (r: Rat)
        requires
            stup_wf(self@),
            stup_wf(rhs@),
            tup_dot_fits(self@, rhs@),
        ensures
            r@ == tup_dot(self@, rhs@),
            srat_wf(r@),
    {
        proof {
            lemma_pos_mul(self@.den, rhs@.den);
        }
        Rat {
            num: self.nx * rhs.nx + self.ny * rhs.ny + self.nz * rhs.nz + self.nw * rhs.nw,
            den: self.den * rhs.den,
        }
    }

    /// Whether `w` equals one exactly.
    pub fn is_point(&self) -> (r: bool)
        requires
            stup_wf(self@),
        ensures
            r == (self@.nw == self@.den),
    {
        self.nw == self.den
    }

    /// Whether `w` equals zero exactly.
    pub fn is_vector(&self) -> (r: bool)
        requires
            stup_wf(self@),
        ensures
            r == (self@.nw == 0),
    {
        self.nw == 0
    }

    /// Componentwise grid equality.
    pub fn approx_eq(&self, other: &Tuple4) -> (r: bool)
        requires
            stup_wf(self@),
            stup_wf(other@),
            tup_near_fits(self@, other@),
        ensures
            r == tup_near(self@, other@),
    {
        let ex: bool = nums_equal(&self.x(), &other.x());
        let ey: bool = nums_equal(&self.y(), &other.y());
        let ez: bool = nums_equal(&self.z(), &other.z());
        let ew: bool = nums_equal(&self.w(), &other.w());
        ex && ey && ez && ew
    }
}

impl Point {
    pub fn new(x: Rat, y: Rat, z: Rat) -> (r: Point)
        requires
            srat_wf(x@),
            srat_wf(y@),
            srat_wf(z@),
            tup3_new_fits(x@, y@, z@),
        ensures
            r@ == point_new(x@, y@, z@),
            spoint_wf(r@),
    {
        proof {
            lemma_pos_mul(x@.den, y@.den);
            lemma_pos_mul(x@.den * y@.den, z@.den);
        }
        Point {
            tup: Tuple4 {
                nx: x.num * y.den * z.den,
                ny: y.num * x.den * z.den,
                nz: z.num * x.den * y.den,
                nw: x.den * y.den * z.den,
                den: x.den * y.den * z.den,
            },
        }
    }

    /// Wrap a tuple whose `w` component is one.
    pub fn from_tup(tup: Tuple4) -> (r: Point)
        requires
            stup_wf(tup@),
            tup@.nw == tup@.den,
        ensures
            r@ == tup@,
            spoint_wf(r@),
    {
        Point { tup }
    }

    pub fn x(&self) -> (r: Rat)
        ensures
            r@ == cx(self@),
    {
        self.tup.x()
    }

    pub fn y(&self) -> (r: Rat)
        ensures
            r@ == cy(self@),
    {
        self.tup.y()
    }

    pub fn z(&self) -> (r: Rat)
        ensures
            r@ == cz(self@),
    {
        self.tup.z()
    }

    pub fn w(&self) -> (r: Rat)
        ensures
            r@ == cw(self@),
    {
        self.tup.w()
    }

    pub fn add_vector(&self, rhs: Vector) -> (r: Point)
        requires
            spoint_wf(self@),
            svec_wf(rhs@),
            tup_add_fits(self@, rhs@),
        ensures
            r@ == tup_add(self@, rhs@),
            spoint_wf(r@),
    {
        let tup: Tuple4 = self.tup.add_tuple(&rhs.tup);
        Point { tup }
    }

    pub fn sub_vector(&self, rhs: Vector) -> (r: Point)
        requires
            spoint_wf(self@),
            svec_wf(rhs@),
            tup_add_fits(self@, rhs@),
        ensures
            r@ == tup_sub(self@, rhs@),
            spoint_wf(r@),
    {
        let tup: Tuple4 = self.tup.sub_tuple(&rhs.tup);
        Point { tup }
    }

    /// The displacement from `rhs` to `self`.
    pub fn sub_point(&self, rhs: Point) -> (r: Vector)
        requires
            spoint_wf(self@),
            spoint_wf(rhs@),
            tup_add_fits(self@, rhs@),
        ensures
            r@ == tup_sub(self@, rhs@),
            svec_wf(r@),
    {
        proof {
            assert(self@.nw * rhs@.den - rhs@.nw * self@.den == 0) by (nonlinear_arith)
                requires
                    self@.nw == self@.den,
                    rhs@.nw == rhs@.den,
            ;
        }
        let tup: Tuple4 = self.tup.sub_tuple(&rhs.tup);
        Vector { tup }
    }

    /// Componentwise grid equality.
    pub fn approx_eq(&self, other: &Point) -> (r: bool)
        requires
            spoint_wf(self@),
            spoint_wf(other@),
            tup_near_fits(self@, other@),
        ensures
            r == tup_near(self@, other@),
    {
        self.tup.approx_eq(&other.tup)
    }
}

impl Vector {
    pub fn new(x: Rat, y: Rat, z: Rat) -> (r: Vector)
        requires
            srat_wf(x@),
            srat_wf(y@),
            srat_wf(z@),
            tup3_new_fits(x@, y@, z@),
        ensures
            r@ == vec_new(x@, y@, z@),
            svec_wf(r@),
    {
        proof {
            lemma_pos_mul(x@.den, y@.den);
            lemma_pos_mul(x@.den * y@.den, z@.den);
        }
        Vector {
            tup: Tuple4 {
                nx: x.num * y.den * z.den,
                ny: y.num * x.den * z.den,
                nz: z.num * x.den * y.den,
                nw: 0,
                den: x.den * y.den * z.den,
            },
        }
    }

    /// Wrap a tuple whose `w` component is zero.
    pub fn from_tup(tup: Tuple4) -> (r: Vector)
        requires
            stup_wf(tup@),
            tup@.nw == 0,
        ensures
            r@ == tup@,
            svec_wf(r@),
    {
        Vector { tup }
    }

    pub fn x(&self) -> (r: Rat)
        ensures
            r@ == cx(self@),
    {
        self.tup.x()
    }

    pub fn y(&self) -> (r: Rat)
        ensures
            r@ == cy(self@),
    {
        self.tup.y()
    }

    pub fn z(&self) -> (r: Rat)
        ensures
            r@ == cz(self@),
    {
        self.tup.z()
    }

    pub fn w(&self) -> (r: Rat)
        ensures
            r@ == cw(self@),
    {
        self.tup.w()
    }

    pub fn add_vector(&self, rhs: Vector) -> (r: Vector)
        requires
            svec_wf(self@),
            svec_wf(rhs@),
            tup_add_fits(self@, rhs@),
        ensures
            r@ == tup_add(self@, rhs@),
            svec_wf(r@),
    {
        let tup: Tuple4 = self.tup.add_tuple(&rhs.tup);
        Vector { tup }
    }

    pub fn sub_vector(&self, rhs: Vector) -> (r: Vector)
        requires
            svec_wf(self@),
            svec_wf(rhs@),
            tup_add_fits(self@, rhs@),
        ensures
            r@ == tup_sub(self@, rhs@),
            svec_wf(r@),
    {
        let tup: Tuple4 = self.tup.sub_tuple(&rhs.tup);
        Vector { tup }
    }

    pub fn mul_scalar(&self, num: Rat) -> (r: Vector)
        requires
            svec_wf(self@),
            srat_wf(num@),
            tup_scale_fits(self@, num@),
        ensures
            r@ == tup_scale(self@, num@),
            svec_wf(r@),
    {
        let tup: Tuple4 = self.tup.mul_scalar(num);
        Vector { tup }
    }

    /// Euclidean norm over all four components, rounded down to the grid.
    /// Exact whenever the squared length is the square of a grid value.
    pub fn magnitude(self) -> (r: Rat)
        requires
            svec_wf(self@),
            vec_mag_fits(self@),
        ensures
            r@ == vec_mag(self@),
            srat_wf(r@),
    {
        let d: Rat = self.tup.dot(self.tup);
        proof {
            lemma_sq_nonneg(self@.nx, self@.ny, self@.nz, self@.nw);
        }
        d.sqrt_floor()
    }

    /// The unit vector in this direction: each component divided by the
    /// magnitude. The vector must be nonzero.
    pub fn normalize(&self) -> (r: Vector)
        requires
            svec_wf(self@),
            tup_sq(self@) > 0,
            vec_norm_fits(self@),
        ensures
            r@ == vec_norm(self@),
            svec_wf(r@),
    {
        let mag: Rat = self.magnitude();
        proof {
            lemma_mag_pos(self@);
            lemma_pos_mul(self@.den, vec_mag(self@).num);
            assert(self@.nw * vec_mag(self@).den == 0) by (nonlinear_arith)
                requires
                    self@.nw == 0,
            ;
        }
        let tup: Tuple4 = self.tup.div_scalar(mag);
        Vector { tup }
    }

    /// Dot product of two vectors.
    pub fn dot(&self, other: Vector) -> (r: Rat)
        requires
            svec_wf(self@),
            svec_wf(other@),
            tup_dot_fits(self@, other@),
        ensures
            r@ == tup_dot(self@, other@),
            srat_wf(r@),
    {
        self.tup.dot(other.tup)
    }

    /// 3D cross product.
    pub fn cross(&self, other: Vector) -> (r: Vector)
        requires
            svec_wf(self@),
            svec_wf(other@),
            vec_cross_fits(self@, other@),
        ensures
            r@ == vec_cross(self@, other@),
            svec_wf(r@),
    {
        proof {
            lemma_pos_mul(self@.den, other@.den);
        }
        Vector {
            tup: Tuple4 {
                nx: self.tup.ny * other.tup.nz - self.tup.nz * other.tup.ny,
                ny: self.tup.nz * other.tup.nx - self.tup.nx * other.tup.nz,
                nz: self.tup.nx * other.tup.ny - self.tup.ny * other.tup.nx,
                nw: 0,
                den: self.tup.den * other.tup.den,
            },
        }
    }

    /// Componentwise grid equality.
    pub fn approx_eq(&self, other: &Vector) -> (r: bool)
        requires
            svec_wf(self@),
            svec_wf(other@),
            tup_near_fits(self@, other@),
        ensures
            r == tup_near(self@, other@),
    {
        self.tup.approx_eq(&other.tup)
    }
}

/// A sum of four squares is nonnegative.
proof fn lemma_sq_nonneg(a: int, b: int, c: int, d: int)
    by (nonlinear_arith)
    ensures
        a * a + b * b + c * c + d * d >= 0,
{
}

/// The magnitude of a nonzero vector is strictly positive.
pub proof fn lemma_mag_pos(v: STup)
    requires
        stup_wf(v),
        tup_sq(v) > 0,
    ensures
        vec_mag(v).num >= 1,
        vec_mag(v).den > 0,
{
    let q = tup_sq(v);
    let scaled = q * (v.den * v.den) * EPS_DEN * EPS_DEN;
    assert(tup_dot(v, v).num == q);
    assert(tup_dot(v, v).den == v.den * v.den);
    assert(scaled >= 1 * 1) by (nonlinear_arith)
        requires
            scaled == q * (v.den * v.den) * EPS_DEN * EPS_DEN,
            q >= 1,
            v.den >= 1,
            EPS_DEN >= 1,
    ;
    lemma_isqrt_lower(scaled, 1);
    lemma_pos_mul(v.den, v.den);
    lemma_pos_mul(v.den * v.den, EPS_DEN as int);
}

/// The square of a product is the product of the squares.
proof fn lemma_sq_mul(x: int, m: int)
    by (nonlinear_arith)
    ensures
        (x * m) * (x * m) == (x * x) * (m * m),
{
}

/// Multiplication distributes over a four-term sum.
proof fn lemma_distrib4(p: int, q: int, r: int, t: int, f: int)
    by (nonlinear_arith)
    ensures
        (p + q + r + t) * f == p * f + q * f + r * f + t * f,
{
}

/// Squares distribute over a common factor of all four components.
proof fn lemma_scale_sq(x: int, y: int, z: int, w: int, m: int)
    ensures
        (x * m) * (x * m) + (y * m) * (y * m) + (z * m) * (z * m) + (w * m) * (w * m) == (x * x + y
            * y + z * z + w * w) * (m * m),
{
    lemma_sq_mul(x, m);
    lemma_sq_mul(y, m);
    lemma_sq_mul(z, m);
    lemma_sq_mul(w, m);
    lemma_distrib4(x * x, y * y, z * z, w * w, m * m);
}

/// Build a point from three scalars.
pub fn point(x: Rat, y: Rat, z: Rat) -> (r: Point)
    requires
        srat_wf(x@),
        srat_wf(y@),
        srat_wf(z@),
        tup3_new_fits(x@, y@, z@),
    ensures
        r@ == point_new(x@, y@, z@),
        spoint_wf(r@),
{
    Point::new(x, y, z)
}

/// Build a vector from three scalars.
pub fn vector(x: Rat, y: Rat, z: Rat) -> (r: Vector)
    requires
        srat_wf(x@),
        srat_wf(y@),
        srat_wf(z@),
        tup3_new_fits(x@, y@, z@),
    ensures
        r@ == vec_new(x@, y@, z@),
        svec_wf(r@),
{
    Vector::new(x, y, z)
}

/// Build a raw tuple from four scalars.
pub fn tuple(x: Rat, y: Rat, z: Rat, w: Rat) -> (r: Tuple4)
    requires
        srat_wf(x@),
        srat_wf(y@),
        srat_wf(z@),
        srat_wf(w@),
        tup_new_fits(x@, y@, z@, w@),
    ensures
        r@ == tup_new(x@, y@, z@, w@),
        stup_wf(r@),
{
    Tuple4::new(x, y, z, w)
}

/// The scalar one.
pub open spec fn srat_one() -> SRat {
    SRat { num: 1, den: 1 }
}

/// Normalization law: a nonzero vector, once normalized, has magnitude one
/// up to the comparison grid.
pub proof fn lemma_normalize_magnitude(v: STup)
    requires
        svec_wf(v),
        tup_sq(v) > 0,
    ensures
        rat_near(vec_mag(vec_norm(v)), srat_one()),
{
    let s = EPS_DEN as int;
    let q = tup_sq(v);
    let d = v.den;
    let a = isqrt_s(q * (d * d) * s * s);
    assert(vec_mag(v) == SRat { num: a, den: d * d * s }) by {
        assert(tup_dot(v, v).num == q && tup_dot(v, v).den == d * d);
    }
    lemma_mag_pos(v);
    // the normalized vector: components n_i * (d*d*s) over denominator d * a
    let u = vec_norm(v);
    assert(u == STup {
        nx: v.nx * (d * d * s),
        ny: v.ny * (d * d * s),
        nz: v.nz * (d * d * s),
        nw: v.nw * (d * d * s),
        den: d * a,
    });
    let m = d * d * s;
    lemma_scale_sq(v.nx, v.ny, v.nz, v.nw, m);
    assert(tup_sq(u) == q * (m * m));
    let ud = d * a;
    let arg = tup_sq(u) * (ud * ud) * s * s;
    let b = isqrt_s(arg);
    assert(vec_mag(u) == SRat { num: b, den: ud * ud * s }) by {
        assert(tup_dot(u, u).num == tup_sq(u) && tup_dot(u, u).den == ud * ud);
    }
    // bounds on a and b from the integer square root
    lemma_isqrt(q * (d * d) * s * s);
    lemma_isqrt(arg);
    assert(a * a <= q * (d * d) * s * s < (a + 1) * (a + 1));
    assert(b >= 0 && b * b <= arg < (b + 1) * (b + 1));
    // lower bound: (d * d * a * a * s)^2 is at most the argument of b's root
    let t = d * d * (a * a) * s;
    assert(t >= 1 && t * t <= arg) by (nonlinear_arith)
        requires
            t == d * d * (a * a) * s,
            arg == q * (m * m) * (ud * ud) * s * s,
            m == d * d * s,
            ud == d * a,
            a * a <= q * (d * d) * s * s,
            a >= 1,
            d >= 1,
            s >= 1,
            q >= 1,
    ;
    lemma_isqrt_lower(arg, t);
    // upper bound: the argument is below (d * d * a * (a + 1) * s)^2
    let t2 = d * d * (a * (a + 1)) * s;
    assert(arg < t2 * t2) by (nonlinear_arith)
        requires
            t2 == d * d * (a * (a + 1)) * s,
            arg == q * (m * m) * (ud * ud) * s * s,
            m == d * d * s,
            ud == d * a,
            q * (d * d) * s * s < (a + 1) * (a + 1),
            a >= 1,
            d >= 1,
            s >= 1,
            q >= 1,
    ;
    assert(b < t2) by (nonlinear_arith)
        requires
            b >= 0,
            t2 >= 0,
            b * b <= arg,
            arg < t2 * t2,
    ;
    // a is at least d * s, since q is at least one
    assert(a >= d * s) by {
        assert((d * s) * (d * s) <= q * (d * d) * s * s) by (nonlinear_arith)
            requires
                q >= 1,
                d >= 1,
                s >= 1,
        ;
        lemma_isqrt_lower(q * (d * d) * s * s, d * s);
    }
    // so 0 <= b - d^2 a^2 s < d^2 a s, and a >= d s turns that into the grid bound
    assert(s * abs_i(b * 1 - 1 * (ud * ud * s)) < (ud * ud * s) * 1) by (nonlinear_arith)
        requires
            ud == d * a,
            t == d * d * (a * a) * s,
            t2 == d * d * (a * (a + 1)) * s,
            t <= b < t2,
            a >= d * s,
            a >= 1,
            d >= 1,
            s >= 2,
    ;
}

} // verus!
