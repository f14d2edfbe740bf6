//! Rays: an origin point and a direction vector, with a position-at-
//! parameter function and an affine transform that yields a new ray.

use crate::coord::{
    spoint_wf, svec_wf, tup_add, tup_add_fits, tup_scale, tup_scale_fits, Point, STup, Vector,
};
use crate::matrix::{sm_affine, sm_mul_tup, sm_tup_fits, sm_wf, Matrix};
use crate::rat::{srat_wf, Rat};
use vstd::prelude::*;

verus! {

/// Mathematical model of a ray: its origin and direction tuples.
pub struct SRay {
    pub origin: STup,
    pub dir: STup,
}

/// A ray: an origin point and a direction vector.
#[derive(Clone, Copy, Debug)]
pub struct Ray {
    pub origin: Point,
    pub dir: Vector,
}

impl View for Ray {
    type V = SRay;

    open spec fn view(&self) -> SRay {
        SRay { origin: self.origin@, dir: self.dir@ }
    }
}

pub open spec fn sray_wf(r: SRay) -> bool {
    spoint_wf(r.origin) && svec_wf(r.dir)
}

impl Ray {
    /// The point `origin + direction * t`; `t` may be negative (behind the
    /// origin).
    pub fn position(&self, t: Rat) -> (r: Point)
        requires
            sray_wf(self@),
            srat_wf(t@),
            tup_scale_fits(self@.dir, t@),
            tup_add_fits(self@.origin, tup_scale(self@.dir, t@)),
        ensures
            r@ == tup_add(self@.origin, tup_scale(self@.dir, t@)),
            spoint_wf(r@),
    {
        let d: Vector = self.dir.mul_scalar(t);
        self.origin.add_vector(d)
    }

    /// The ray carried through an affine transform: both origin and
    /// direction are multiplied by the matrix; a new ray is returned.
    pub fn transform(&self, m: &Matrix) -> (r: Ray)
        requires
            sray_wf(self@),
            sm_wf(m@),
            sm_affine(m@),
            sm_tup_fits(m@, self@.origin),
            sm_tup_fits(m@, self@.dir),
        ensures
            r@.origin == sm_mul_tup(m@, self@.origin),
            r@.dir == sm_mul_tup(m@, self@.dir),
            sray_wf(r@),
    {
        Ray { origin: m.mul_point(&self.origin), dir: m.mul_vector(&self.dir) }
    }

    pub fn origin(&self) -> (r: Point)
        ensures
            r@ == self@.origin,
    {
        self.origin
    }

    pub fn dir(&self) -> (r: Vector)
        ensures
            r@ == self@.dir,
    {
        self.dir
    }
}

/// Build a ray from an origin and a direction.
pub fn ray(origin: Point, dir: Vector) -> (r: Ray)
    requires
        spoint_wf(origin@),
        svec_wf(dir@),
    ensures
        r@.origin == origin@,
        r@.dir == dir@,
        sray_wf(r@),
{
    Ray { origin, dir }
}

} // verus!
