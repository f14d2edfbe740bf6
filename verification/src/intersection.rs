//! Intersection records and the hit-selection rule.
//!
//! An [`Intersection`] couples a ray parameter `t` with the primitive it
//! hit; [`Intersections`] keeps them in insertion order. [`Intersections::hit`]
//! picks the intersection with the smallest strictly positive `t` (the
//! nearest surface in front of the viewer), keeping the earliest among ties.

use crate::rat::{
    cmp_fits, lemma_rat_lt_le, lemma_rat_lt_le_trans, rat_le, rat_lt, srat_wf, Rat, SRat,
};
use crate::sphere::{SSphere, Sphere};
use vstd::prelude::*;

verus! {

/// Mathematical model of one intersection record.
#[verifier::ext_equal]
pub struct SIx {
    pub t: SRat,
    pub object: SSphere,
}

/// The primitive an intersection refers to.
#[derive(Debug)]
pub enum Intersected {
    Sphere(Sphere),
}

impl View for Intersected {
    type V = SSphere;

    open spec fn view(&self) -> SSphere {
        match self {
            Intersected::Sphere(s) => s@,
        }
    }
}

impl Clone for Intersected {
    /// An exact copy of the referenced primitive.
    fn clone(&self) -> (r: Self)
        ensures
            r@ == self@,
    {
        match self {
            Intersected::Sphere(s) => Intersected::Sphere(s.clone()),
        }
    }
}

impl Intersected {
    /// The sphere inside.
    pub fn as_sphere(&self) -> (r: &Sphere)
        ensures
            r@ == self@,
    {
        match self {
            Intersected::Sphere(s) => s,
        }
    }
}

/// One ray-primitive intersection: the ray parameter and the object hit.
#[derive(Debug)]
pub struct Intersection {
    pub t: Rat,
    pub object: Intersected,
}

impl View for Intersection {
    type V = SIx;

    open spec fn view(&self) -> SIx {
        SIx { t: self.t@, object: self.object@ }
    }
}

impl Clone for Intersection {
    /// An exact copy of the record.
    fn clone(&self) -> (r: Self)
        ensures
            r@ == self@,
    {
        Intersection { t: self.t, object: self.object.clone() }
    }
}

impl Intersection {
    /// Pair a ray parameter with the object hit.
    pub fn new(t: Rat, object: Intersected) -> (r: Intersection)
        ensures
            r@.t == t@,
            r@.object == object@,
    {
        Intersection { t, object }
    }

    pub fn t(&self) -> (r: Rat)
        ensures
            r@ == self@.t,
    {
        self.t
    }

    pub fn object(&self) -> (r: &Intersected)
        ensures
            r@ == self@.object,
    {
        &self.object
    }
}

/// Build an intersection of a sphere at parameter `t`.
pub fn intersection(t: Rat, object: Sphere) -> (r: Intersection)
    ensures
        r@.t == t@,
        r@.object == object@,
{
    Intersection::new(t, Intersected::Sphere(object))
}

/// An ordered collection of intersections, in insertion order.
#[derive(Debug)]
pub struct Intersections(pub Vec<Intersection>);

impl View for Intersections {
    type V = Seq<SIx>;

    open spec fn view(&self) -> Seq<SIx> {
        self.0@.map(|i: int, x: Intersection| x@)
    }
}

/// Aggregate intersections into a collection, keeping their order.
pub fn intersections(xs: Vec<Intersection>) -> (r: Intersections)
    ensures
        r@.len() == xs@.len(),
        forall|k: int| 0 <= k < xs@.len() ==> r@[k] == xs@[k]@,
{
    Intersections(xs)
}

/// Every parameter in the collection is a well-formed scalar.
pub open spec fn sxs_wf(s: Seq<SIx>) -> bool {
    forall|i: int| 0 <= i < s.len() ==> srat_wf(#[trigger] s[i].t)
}

/// Every pair of parameters can be compared in machine range.
pub open spec fn sxs_cmp_fits(s: Seq<SIx>) -> bool {
    forall|i: int, j: int|
        0 <= i < s.len() && 0 <= j < s.len() ==> cmp_fits(#[trigger] s[i].t, #[trigger] s[j].t)
}

/// The hit among a list of intersections: scan in order, keeping the first
/// record whose `t` is strictly positive and strictly below the best so far.
pub open spec fn spec_hit(s: Seq<SIx>) -> Option<SIx>
    decreases s.len(),
{
    if s.len() == 0 {
        Option::None
    } else {
        let prev = spec_hit(s.drop_last());
        let cand = s.last();
        match prev {
            Option::None => if cand.t.num > 0 {
                Option::Some(cand)
            } else {
                Option::None
            },
            Option::Some(p) => if cand.t.num > 0 && rat_lt(cand.t, p.t) {
                Option::Some(cand)
            } else {
                Option::Some(p)
            },
        }
    }
}

impl Intersections {
    pub fn len(&self) -> (r: usize)
        ensures
            r == self@.len(),
    {
        self.0.len()
    }

    pub fn is_empty(&self) -> (r: bool)
        ensures
            r == (self@.len() == 0),
    {
        self.0.len() == 0
    }

    pub fn get(&self, i: usize) -> (r: &Intersection)
        requires
            i < self@.len(),
        ensures
            r@ == self@[i as int],
    {
        &self.0[i]
    }

    /// The visible hit: among the records with strictly positive `t`, the
    /// one with the smallest `t` (the earliest such record on a tie), or
    /// nothing when every `t` is zero or negative.
    pub fn hit(&self) -> (r: Option<Intersection>)
        requires
            sxs_wf(self@),
            sxs_cmp_fits(self@),
        ensures
            (r is None) == (spec_hit(self@) is None),
            r matches Some(x) ==> spec_hit(self@) == Some(x@),
    {
        let ghost v = self@;
        let mut best: Option<usize> = None;
        let mut i: usize = 0;
        while i < self.0.len()
            invariant
                sxs_wf(v),
                sxs_cmp_fits(v),
                v == self@,
                v.len() == self.0@.len(),
                0 <= i <= v.len(),
                match best {
                    Option::None => spec_hit(v.subrange(0, i as int)) is None,
                    Option::Some(j) => j < i && spec_hit(v.subrange(0, i as int)) == Some(
                        v[j as int],
                    ),
                },
            decreases v.len() - i,
        {
            proof {
                assert(v.subrange(0, i + 1).drop_last() =~= v.subrange(0, i as int));
                assert(v.subrange(0, i + 1).last() == v[i as int]);
                assert(forall|k: int| 0 <= k < v.len() ==> v[k] == self.0@[k]@);
            }
            proof {
                assert(v[i as int] == self.0@[i as int]@);
                assert(srat_wf(v[i as int].t));
            }
            let cand_pos: bool = self.0[i].t.is_positive();
            let replace: bool;
            match &best {
                Option::None => {
                    replace = cand_pos;
                },
                Option::Some(j) => {
                    let jj: usize = *j;
                    proof {
                        assert(v[jj as int] == self.0@[jj as int]@);
                        assert(srat_wf(v[jj as int].t));
                        assert(cmp_fits(v[i as int].t, v[jj as int].t));
                    }
                    replace = cand_pos && self.0[i].t.lt(&self.0[jj].t);
                },
            }
            if replace {
                best = Some(i);
            }
            i = i + 1;
        }
        proof {
            assert(v.subrange(0, v.len() as int) =~= v);
        }
        match best {
            Option::None => None,
            Option::Some(j) => Some(self.0[j].clone()),
        }
    }
}

/// Hit selection is sound: no hit means no record has positive `t`; a hit
/// is a record of the list with positive `t`, no larger than any other
/// positive `t` in the list.
pub proof fn lemma_hit_selection(s: Seq<SIx>)
    requires
        sxs_wf(s),
    ensures
        spec_hit(s) is None ==> forall|i: int| 0 <= i < s.len() ==> !(#[trigger] s[i].t.num > 0),
        spec_hit(s) matches Some(x) ==> {
            &&& exists|i: int| 0 <= i < s.len() && s[i] == x
            &&& x.t.num > 0
            &&& forall|i: int|
                0 <= i < s.len() && #[trigger] s[i].t.num > 0 ==> rat_le(x.t, s[i].t)
        },
    decreases s.len(),
{
    if s.len() == 0 {
    } else {
        let pre = s.drop_last();
        lemma_hit_selection(pre);
        let cand = s.last();
        assert(forall|i: int| 0 <= i < pre.len() ==> pre[i] == s[i]);
        assert(s[s.len() - 1] == cand);
        match spec_hit(pre) {
            Option::None => {
                if cand.t.num > 0 {
                    assert(spec_hit(s) == Some(cand));
                }
            },
            Option::Some(p) => {
                if cand.t.num > 0 && rat_lt(cand.t, p.t) {
                    let i0 = choose|i: int| 0 <= i < pre.len() && pre[i] == p;
                    assert forall|i: int|
                        0 <= i < s.len() && #[trigger] s[i].t.num > 0 implies rat_le(
                        cand.t,
                        s[i].t,
                    ) by {
                        if i < s.len() - 1 {
                            lemma_rat_lt_le_trans(cand.t, p.t, s[i].t);
                        } else {
                            lemma_rat_lt_le(cand.t, cand.t);
                        }
                    }
                } else {
                    assert(spec_hit(s) == Some(p));
                    if cand.t.num > 0 {
                        assert(rat_le(p.t, cand.t)) by {
                            assert(!rat_lt(cand.t, p.t));
                        }
                    }
                }
            },
        }
    }
}

} // verus!
