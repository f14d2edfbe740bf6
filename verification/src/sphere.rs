//! The unit sphere and the ray-sphere intersection algorithm.
//!
//! A sphere is the unit sphere at the local origin; its placement in world
//! space is carried entirely by its transform matrix. To intersect, the
//! world-space ray is carried into the sphere's local space by the inverse
//! transform, and the quadratic `a t^2 + b t + c = 0` is solved there. The
//! discriminant decides: negative means a miss, otherwise both roots are
//! reported, even when equal (tangent) or negative (sphere behind the ray).

use crate::coord::{
    point_new, spoint_wf, svec_wf, tup_add_fits, tup_dot, tup_dot_fits, tup_near, tup_near_fits,
    tup_sq, tup_sub, vec_norm, vec_norm_fits, Point, STup, Tuple4, Vector,
};
use crate::intersection::{intersection, intersections, Intersection, Intersections};
use crate::matrix::{
    identity_matrix, sm_det, sm_det_fits, sm_id, sm_inv, sm_mul_tup, sm_near, sm_near_fits,
    sm_tup_fits, sm_wf, Matrix, SMat,
};
use crate::rat::{
    add_fits, div_fits, fits, lemma_pos_mul, mul_fits, near_fits, nums_equal, rat_add, rat_div,
    rat_mul, rat_near, rat_neg, rat_sqrt, rat_sub, sqrt_fits, srat_wf, Rat, SRat,
};
use crate::rays::{sray_wf, Ray, SRay};
use vstd::prelude::*;

verus! {

/// The integer `n` as a scalar.
pub open spec fn srat_int(n: int) -> SRat {
    SRat { num: n, den: 1 }
}

/// Mathematical model of a sphere: local origin, radius, and transform.
#[verifier::ext_equal]
pub struct SSphere {
    pub origin: STup,
    pub radius: SRat,
    pub tf: SMat,
}

/// A unit sphere at the local origin, placed in world space by its
/// transform matrix.
#[derive(Debug)]
pub struct Sphere {
    pub origin: Point,
    pub radius: Rat,
    pub tf: Matrix,
}

impl View for Sphere {
    type V = SSphere;

    open spec fn view(&self) -> SSphere {
        SSphere { origin: self.origin@, radius: self.radius@, tf: self.tf@ }
    }
}

impl Clone for Sphere {
    /// An exact copy of the sphere.
    fn clone(&self) -> (r: Self)
        ensures
            r@ == self@,
    {
        let r = Sphere { origin: self.origin, radius: self.radius, tf: self.tf.clone() };
        proof {
            assert(r@ =~= self@);
        }
        r
    }
}

pub open spec fn ssphere_wf(s: SSphere) -> bool {
    &&& spoint_wf(s.origin)
    &&& srat_wf(s.radius)
    &&& sm_wf(s.tf)
    &&& s.tf.dim == 4
}

/// The incoming ray carried into the sphere's local space by the inverse
/// transform (componentwise, on raw tuples).
pub open spec fn sx_lorigin(s: SSphere, r: SRay) -> STup {
    sm_mul_tup(sm_inv(s.tf), r.origin)
}

pub open spec fn sx_ldir(s: SSphere, r: SRay) -> STup {
    sm_mul_tup(sm_inv(s.tf), r.dir)
}

/// The vector from the sphere's local origin to the local ray origin.
pub open spec fn sx_s2r(s: SSphere, r: SRay) -> STup {
    tup_sub(sx_lorigin(s, r), s.origin)
}

/// The quadratic coefficients of the intersection equation.
pub open spec fn sx_a(s: SSphere, r: SRay) -> SRat {
    tup_dot(sx_ldir(s, r), sx_ldir(s, r))
}

pub open spec fn sx_b(s: SSphere, r: SRay) -> SRat {
    rat_mul(srat_int(2), tup_dot(sx_ldir(s, r), sx_s2r(s, r)))
}

pub open spec fn sx_c(s: SSphere, r: SRay) -> SRat {
    rat_sub(tup_dot(sx_s2r(s, r), sx_s2r(s, r)), srat_int(1))
}

/// The discriminant `b^2 - 4 a c`.
pub open spec fn sx_disc(s: SSphere, r: SRay) -> SRat {
    rat_sub(
        rat_mul(sx_b(s, r), sx_b(s, r)),
        rat_mul(rat_mul(srat_int(4), sx_a(s, r)), sx_c(s, r)),
    )
}

pub open spec fn sx_sqrt(s: SSphere, r: SRay) -> SRat {
    rat_sqrt(sx_disc(s, r))
}

pub open spec fn sx_two_a(s: SSphere, r: SRay) -> SRat {
    rat_mul(srat_int(2), sx_a(s, r))
}

/// The smaller root `(-b - sqrt(disc)) / (2a)`.
pub open spec fn sx_t1(s: SSphere, r: SRay) -> SRat {
    rat_div(rat_sub(rat_neg(sx_b(s, r)), sx_sqrt(s, r)), sx_two_a(s, r))
}

/// The larger root `(-b + sqrt(disc)) / (2a)`.
pub open spec fn sx_t2(s: SSphere, r: SRay) -> SRat {
    rat_div(rat_add(rat_neg(sx_b(s, r)), sx_sqrt(s, r)), sx_two_a(s, r))
}

/// Every intermediate of the intersection computation stays in machine
/// range, the transform is invertible, and the local direction is nonzero.
pub open spec fn sx_fits(s: SSphere, r: SRay) -> bool {
    let lo = sx_lorigin(s, r);
    let ld = sx_ldir(s, r);
    let s2 = sx_s2r(s, r);
    let a = sx_a(s, r);
    let b = sx_b(s, r);
    let c = sx_c(s, r);
    let disc = sx_disc(s, r);
    let sq = sx_sqrt(s, r);
    let ta = sx_two_a(s, r);
    &&& sm_det_fits(s.tf)
    &&& sm_det(s.tf) != 0
    &&& sm_tup_fits(sm_inv(s.tf), r.origin)
    &&& sm_tup_fits(sm_inv(s.tf), r.dir)
    &&& tup_add_fits(lo, s.origin)
    &&& tup_sq(ld) > 0
    &&& tup_dot_fits(ld, ld)
    &&& tup_dot_fits(ld, s2)
    &&& tup_dot_fits(s2, s2)
    &&& mul_fits(srat_int(2), tup_dot(ld, s2))
    &&& add_fits(tup_dot(s2, s2), srat_int(1))
    &&& mul_fits(b, b)
    &&& mul_fits(srat_int(4), a)
    &&& mul_fits(rat_mul(srat_int(4), a), c)
    &&& add_fits(rat_mul(b, b), rat_mul(rat_mul(srat_int(4), a), c))
    &&& mul_fits(srat_int(2), a)
    &&& fits(b.num)
    &&& (disc.num >= 0 ==> sqrt_fits(disc) && add_fits(rat_neg(b), sq) && div_fits(
        rat_sub(rat_neg(b), sq),
        ta,
    ) && div_fits(rat_add(rat_neg(b), sq), ta))
}

impl Sphere {
    /// A sphere with the given local origin and radius, placed by the
    /// identity transform.
    pub fn new(origin: Point, radius: Rat) -> (r: Sphere)
        requires
            spoint_wf(origin@),
            srat_wf(radius@),
        ensures
            r@.origin == origin@,
            r@.radius == radius@,
            r@.tf =~= sm_id(4),
            ssphere_wf(r@),
    {
        Sphere { origin, radius, tf: identity_matrix() }
    }

    /// The sphere with its transform replaced.
    pub fn with_transform(self, tf: Matrix) -> (r: Sphere)
        requires
            sm_wf(tf@),
            tf@.dim == 4,
        ensures
            r@.origin == self@.origin,
            r@.radius == self@.radius,
            r@.tf == tf@,
    {
        Sphere { origin: self.origin, radius: self.radius, tf }
    }

    /// Replace the transform in place.
    pub fn set_transform(&mut self, tf: Matrix)
        requires
            sm_wf(tf@),
            tf@.dim == 4,
        ensures
            final(self)@.origin == old(self)@.origin,
            final(self)@.radius == old(self)@.radius,
            final(self)@.tf == tf@,
    {
        self.tf = tf;
    }

    /// Grid equality of spheres: origin, radius and transform all equal up
    /// to the comparison grid.
    pub fn approx_eq(&self, other: &Sphere) -> (r: bool)
        requires
            ssphere_wf(self@),
            ssphere_wf(other@),
            tup_near_fits(self@.origin, other@.origin),
            near_fits(self@.radius, other@.radius),
            sm_near_fits(self@.tf, other@.tf),
        ensures
            r == (tup_near(self@.origin, other@.origin) && rat_near(self@.radius, other@.radius)
                && sm_near(self@.tf, other@.tf)),
    {
        let eo: bool = self.origin.approx_eq(&other.origin);
        let er: bool = nums_equal(&self.radius, &other.radius);
        let et: bool = self.tf.approx_eq(&other.tf);
        eo && er && et
    }

    /// The surface normal at a point on the sphere: the displacement from
    /// the local origin, normalized.
    pub fn normal_at(&self, p: Point) -> (r: Vector)
        requires
            ssphere_wf(self@),
            spoint_wf(p@),
            tup_add_fits(p@, self@.origin),
            tup_sq(tup_sub(p@, self@.origin)) > 0,
            vec_norm_fits(tup_sub(p@, self@.origin)),
        ensures
            r@ == vec_norm(tup_sub(p@, self@.origin)),
            svec_wf(r@),
    {
        let v: Vector = p.sub_point(self.origin);
        v.normalize()
    }

    /// Intersect a world-space ray with the sphere. The ray is carried into
    /// local space by the inverse transform; a negative discriminant gives
    /// the empty collection, otherwise both roots are reported in order,
    /// each paired with this sphere.
    pub fn intersect(&self, ray: Ray) -> (r: Intersections)
        requires
            ssphere_wf(self@),
            sray_wf(ray@),
            sx_fits(self@, ray@),
        ensures
            sx_disc(self@, ray@).num < 0 ==> r@.len() == 0,
            sx_disc(self@, ray@).num >= 0 ==> {
                &&& r@.len() == 2
                &&& r@[0].t == sx_t1(self@, ray@)
                &&& r@[1].t == sx_t2(self@, ray@)
                &&& r@[0].object == self@
                &&& r@[1].object == self@
            },
    {
        let inv: Matrix = self.tf.inverse();
        let lo: Tuple4 = inv.mul_tuple(&ray.origin.tup);
        let ld: Tuple4 = inv.mul_tuple(&ray.dir.tup);
        let s2r: Tuple4 = lo.sub_tuple(&self.origin.tup);
        let a: Rat = ld.dot(ld);
        let dls: Rat = ld.dot(s2r);
        let two: Rat = Rat::from_int(2);
        let b: Rat = two.mul(&dls);
        let dss: Rat = s2r.dot(s2r);
        let one: Rat = Rat::from_int(1);
        let c: Rat = dss.sub(&one);
        let four: Rat = Rat::from_int(4);
        let four_a: Rat = four.mul(&a);
        let four_ac: Rat = four_a.mul(&c);
        let b2: Rat = b.mul(&b);
        let disc: Rat = b2.sub(&four_ac);
        if disc.num < 0 {
            let empty: Vec<Intersection> = Vec::new();
            intersections(empty)
        } else {
            let sq: Rat = disc.sqrt_floor();
            let two_a: Rat = two.mul(&a);
            proof {
                assert(two_a@.num > 0) by (nonlinear_arith)
                    requires
                        two_a@.num == 2 * sx_a(self@, ray@).num,
                        sx_a(self@, ray@).num > 0,
                ;
            }
            let nb: Rat = b.neg();
            let t1n: Rat = nb.sub(&sq);
            let t1: Rat = t1n.div(&two_a);
            let t2n: Rat = nb.add(&sq);
            let t2: Rat = t2n.div(&two_a);
            let i1: Intersection = intersection(t1, self.clone());
            let i2: Intersection = intersection(t2, self.clone());
            let mut xs: Vec<Intersection> = Vec::new();
            xs.push(i1);
            xs.push(i2);
            intersections(xs)
        }
    }
}

/// The unit sphere at the origin with the identity transform.
pub fn sphere() -> (r: Sphere)
    ensures
        r@.origin == point_new(srat_int(0), srat_int(0), srat_int(0)),
        r@.radius == srat_int(1),
        r@.tf =~= sm_id(4),
        ssphere_wf(r@),
{
    let zero: Rat = Rat::from_int(0);
    let origin: Point = Point::new(zero, zero, zero);
    Sphere::new(origin, Rat::from_int(1))
}

} // verus!
