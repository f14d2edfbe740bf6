//! Affine transform builders: translation, scaling, per-axis rotation and
//! shearing, each a 4x4 matrix that perturbs the identity, plus a chain
//! builder that composes a list of transforms right to left.
//!
//! Rotations take the sine and cosine of the angle as scalars, since the
//! kernel computes with exact rationals; callers evaluate the trigonometry
//! and pass the values in.

use crate::coord::{svec_wf, tup_eq, STup};
use crate::matrix::{
    identity_matrix, sm_affine, sm_id, sm_mul, sm_mul_fits, sm_mul_tup, sm_wf, Matrix, SMat,
};
use crate::rat::{fits, lemma_pos_mul, srat_wf, Rat, SRat};
use vstd::prelude::*;

verus! {

/// A 4x4 matrix from sixteen integer entries over one denominator.
pub open spec fn sm_from16(
    e0: int,
    e1: int,
    e2: int,
    e3: int,
    e4: int,
    e5: int,
    e6: int,
    e7: int,
    e8: int,
    e9: int,
    e10: int,
    e11: int,
    e12: int,
    e13: int,
    e14: int,
    e15: int,
    den: int,
) -> SMat {
    SMat {
        dim: 4,
        den,
        n: seq![e0, e1, e2, e3, e4, e5, e6, e7, e8, e9, e10, e11, e12, e13, e14, e15],
    }
}

/// Build a 4x4 matrix from sixteen machine integers over one denominator.
fn mat16(
    e0: i128,
    e1: i128,
    e2: i128,
    e3: i128,
    e4: i128,
    e5: i128,
    e6: i128,
    e7: i128,
    e8: i128,
    e9: i128,
    e10: i128,
    e11: i128,
    e12: i128,
    e13: i128,
    e14: i128,
    e15: i128,
    den: i128,
) -> (r: Matrix)
    requires
        den > 0,
    ensures
        r@ =~= sm_from16(
            e0 as int,
            e1 as int,
            e2 as int,
            e3 as int,
            e4 as int,
            e5 as int,
            e6 as int,
            e7 as int,
            e8 as int,
            e9 as int,
            e10 as int,
            e11 as int,
            e12 as int,
            e13 as int,
            e14 as int,
            e15 as int,
            den as int,
        ),
        sm_wf(r@),
{
    let n: Vec<i128> = vec![e0, e1, e2, e3, e4, e5, e6, e7, e8, e9, e10, e11, e12, e13, e14, e15];
    let r = Matrix { dim: 4, n, den };
    proof {
        assert(r@.n.len() == 16);
        assert(r@.n[0] == e0 as int);
        assert(r@.n[1] == e1 as int);
        assert(r@.n[2] == e2 as int);
        assert(r@.n[3] == e3 as int);
        assert(r@.n[4] == e4 as int);
        assert(r@.n[5] == e5 as int);
        assert(r@.n[6] == e6 as int);
        assert(r@.n[7] == e7 as int);
        assert(r@.n[8] == e8 as int);
        assert(r@.n[9] == e9 as int);
        assert(r@.n[10] == e10 as int);
        assert(r@.n[11] == e11 as int);
        assert(r@.n[12] == e12 as int);
        assert(r@.n[13] == e13 as int);
        assert(r@.n[14] == e14 as int);
        assert(r@.n[15] == e15 as int);
    }
    r
}

/// The translation matrix: identity with `(x, y, z)` in column 3.
pub open spec fn sm_translation(x: SRat, y: SRat, z: SRat) -> SMat {
    let d = x.den * y.den * z.den;
    sm_from16(
        d,
        0,
        0,
        x.num * y.den * z.den,
        0,
        d,
        0,
        y.num * x.den * z.den,
        0,
        0,
        d,
        z.num * x.den * y.den,
        0,
        0,
        0,
        d,
        d,
    )
}

pub open spec fn tf3_fits(x: SRat, y: SRat, z: SRat) -> bool {
    &&& fits(x.den * y.den)
    &&& fits(x.den * y.den * z.den)
    &&& fits(x.num * y.den)
    &&& fits(x.num * y.den * z.den)
    &&& fits(y.num * x.den)
    &&& fits(y.num * x.den * z.den)
    &&& fits(z.num * x.den)
    &&& fits(z.num * x.den * y.den)
}

/// Translation by `(x, y, z)`.
pub fn translation(x: Rat, y: Rat, z: Rat) -> (r: Matrix)
    requires
        srat_wf(x@),
        srat_wf(y@),
        srat_wf(z@),
        tf3_fits(x@, y@, z@),
    ensures
        r@ =~= sm_translation(x@, y@, z@),
        sm_wf(r@),
        sm_affine(r@),
{
    proof {
        lemma_pos_mul(x@.den, y@.den);
        lemma_pos_mul(x@.den * y@.den, z@.den);
    }
    let d: i128 = x.den * y.den * z.den;
    let tx: i128 = x.num * y.den * z.den;
    let ty: i128 = y.num * x.den * z.den;
    let tz: i128 = z.num * x.den * y.den;
    let r = mat16(d, 0, 0, tx, 0, d, 0, ty, 0, 0, d, tz, 0, 0, 0, d, d);
    proof {
        assert(sm_affine(r@));
    }
    r
}

/// The scaling matrix: identity with `(x, y, z, 1)` on the diagonal.
pub open spec fn sm_scaling(x: SRat, y: SRat, z: SRat) -> SMat {
    let d = x.den * y.den * z.den;
    sm_from16(
        x.num * y.den * z.den,
        0,
        0,
        0,
        0,
        y.num * x.den * z.den,
        0,
        0,
        0,
        0,
        z.num * x.den * y.den,
        0,
        0,
        0,
        0,
        d,
        d,
    )
}

/// Scaling by `(x, y, z)`.
pub fn scaling(x: Rat, y: Rat, z: Rat) -> (r: Matrix)
    requires
        srat_wf(x@),
        srat_wf(y@),
        srat_wf(z@),
        tf3_fits(x@, y@, z@),
    ensures
        r@ =~= sm_scaling(x@, y@, z@),
        sm_wf(r@),
        sm_affine(r@),
{
    proof {
        lemma_pos_mul(x@.den, y@.den);
        lemma_pos_mul(x@.den * y@.den, z@.den);
    }
    let d: i128 = x.den * y.den * z.den;
    let sx: i128 = x.num * y.den * z.den;
    let sy: i128 = y.num * x.den * z.den;
    let sz: i128 = z.num * x.den * y.den;
    let r = mat16(sx, 0, 0, 0, 0, sy, 0, 0, 0, 0, sz, 0, 0, 0, 0, d, d);
    proof {
        assert(sm_affine(r@));
    }
    r
}

pub open spec fn rot_fits(sn: SRat, cs: SRat) -> bool {
    &&& fits(sn.den * cs.den)
    &&& fits(cs.num * sn.den)
    &&& fits(sn.num * cs.den)
}

/// Rotation about the x axis: `sn` and `cs` are the sine and cosine of the
/// angle (positive angles turn counterclockwise seen from positive x).
pub open spec fn sm_rotation_x(sn: SRat, cs: SRat) -> SMat {
    let d = sn.den * cs.den;
    sm_from16(
        d,
        0,
        0,
        0,
        0,
        cs.num * sn.den,
        -(sn.num * cs.den),
        0,
        0,
        sn.num * cs.den,
        cs.num * sn.den,
        0,
        0,
        0,
        0,
        d,
        d,
    )
}

pub fn rotation_x(sn: Rat, cs: Rat) -> (r: Matrix)
    requires
        srat_wf(sn@),
        srat_wf(cs@),
        rot_fits(sn@, cs@),
    ensures
        r@ =~= sm_rotation_x(sn@, cs@),
        sm_wf(r@),
        sm_affine(r@),
{
    proof {
        lemma_pos_mul(sn@.den, cs@.den);
    }
    let d: i128 = sn.den * cs.den;
    let c: i128 = cs.num * sn.den;
    let s: i128 = sn.num * cs.den;
    let r = mat16(d, 0, 0, 0, 0, c, -s, 0, 0, s, c, 0, 0, 0, 0, d, d);
    proof {
        assert(sm_affine(r@));
    }
    r
}

/// Rotation about the y axis.
pub open spec fn sm_rotation_y(sn: SRat, cs: SRat) -> SMat {
    let d = sn.den * cs.den;
    sm_from16(
        cs.num * sn.den,
        0,
        sn.num * cs.den,
        0,
        0,
        d,
        0,
        0,
        -(sn.num * cs.den),
        0,
        cs.num * sn.den,
        0,
        0,
        0,
        0,
        d,
        d,
    )
}

pub fn rotation_y(sn: Rat, cs: Rat) -> (r: Matrix)
    requires
        srat_wf(sn@),
        srat_wf(cs@),
        rot_fits(sn@, cs@),
    ensures
        r@ =~= sm_rotation_y(sn@, cs@),
        sm_wf(r@),
        sm_affine(r@),
{
    proof {
        lemma_pos_mul(sn@.den, cs@.den);
    }
    let d: i128 = sn.den * cs.den;
    let c: i128 = cs.num * sn.den;
    let s: i128 = sn.num * cs.den;
    let r = mat16(c, 0, s, 0, 0, d, 0, 0, -s, 0, c, 0, 0, 0, 0, d, d);
    proof {
        assert(sm_affine(r@));
    }
    r
}

/// Rotation about the z axis.
pub open spec fn sm_rotation_z(sn: SRat, cs: SRat) -> SMat {
    let d = sn.den * cs.den;
    sm_from16(
        cs.num * sn.den,
        -(sn.num * cs.den),
        0,
        0,
        sn.num * cs.den,
        cs.num * sn.den,
        0,
        0,
        0,
        0,
        d,
        0,
        0,
        0,
        0,
        d,
        d,
    )
}

pub fn rotation_z(sn: Rat, cs: Rat) -> (r: Matrix)
    requires
        srat_wf(sn@),
        srat_wf(cs@),
        rot_fits(sn@, cs@),
    ensures
        r@ =~= sm_rotation_z(sn@, cs@),
        sm_wf(r@),
        sm_affine(r@),
{
    proof {
        lemma_pos_mul(sn@.den, cs@.den);
    }
    let d: i128 = sn.den * cs.den;
    let c: i128 = cs.num * sn.den;
    let s: i128 = sn.num * cs.den;
    let r = mat16(c, -s, 0, 0, s, c, 0, 0, 0, 0, d, 0, 0, 0, 0, d, d);
    proof {
        assert(sm_affine(r@));
    }
    r
}

/// The shearing matrix: identity with the six proportionality coefficients
/// injected off the diagonal (`xy` makes x change in proportion to y, and
/// so on).
pub open spec fn sm_shearing(xy: SRat, xz: SRat, yx: SRat, yz: SRat, zx: SRat, zy: SRat) -> SMat {
    let d = xy.den * xz.den * yx.den * yz.den * zx.den * zy.den;
    sm_from16(
        d,
        xy.num * xz.den * yx.den * yz.den * zx.den * zy.den,
        xz.num * xy.den * yx.den * yz.den * zx.den * zy.den,
        0,
        yx.num * xy.den * xz.den * yz.den * zx.den * zy.den,
        d,
        yz.num * xy.den * xz.den * yx.den * zx.den * zy.den,
        0,
        zx.num * xy.den * xz.den * yx.den * yz.den * zy.den,
        zy.num * xy.den * xz.den * yx.den * yz.den * zx.den,
        d,
        0,
        0,
        0,
        0,
        d,
        d,
    )
}

pub open spec fn shear_fits(xy: SRat, xz: SRat, yx: SRat, yz: SRat, zx: SRat, zy: SRat) -> bool {
    &&& fits(xy.den * xz.den)
    &&& fits(xy.den * xz.den * yx.den)
    &&& fits(xy.den * xz.den * yx.den * yz.den)
    &&& fits(xy.den * xz.den * yx.den * yz.den * zx.den)
    &&& fits(xy.den * xz.den * yx.den * yz.den * zx.den * zy.den)
    &&& fits(xy.num * xz.den)
    &&& fits(xy.num * xz.den * yx.den)
    &&& fits(xy.num * xz.den * yx.den * yz.den)
    &&& fits(xy.num * xz.den * yx.den * yz.den * zx.den)
    &&& fits(xy.num * xz.den * yx.den * yz.den * zx.den * zy.den)
    &&& fits(xz.num * xy.den)
    &&& fits(xz.num * xy.den * yx.den)
    &&& fits(xz.num * xy.den * yx.den * yz.den)
    &&& fits(xz.num * xy.den * yx.den * yz.den * zx.den)
    &&& fits(xz.num * xy.den * yx.den * yz.den * zx.den * zy.den)
    &&& fits(yx.num * xy.den)
    &&& fits(yx.num * xy.den * xz.den)
    &&& fits(yx.num * xy.den * xz.den * yz.den)
    &&& fits(yx.num * xy.den * xz.den * yz.den * zx.den)
    &&& fits(yx.num * xy.den * xz.den * yz.den * zx.den * zy.den)
    &&& fits(yz.num * xy.den)
    &&& fits(yz.num * xy.den * xz.den)
    &&& fits(yz.num * xy.den * xz.den * yx.den)
    &&& fits(yz.num * xy.den * xz.den * yx.den * zx.den)
    &&& fits(yz.num * xy.den * xz.den * yx.den * zx.den * zy.den)
    &&& fits(zx.num * xy.den)
    &&& fits(zx.num * xy.den * xz.den)
    &&& fits(zx.num * xy.den * xz.den * yx.den)
    &&& fits(zx.num * xy.den * xz.den * yx.den * yz.den)
    &&& fits(zx.num * xy.den * xz.den * yx.den * yz.den * zy.den)
    &&& fits(zy.num * xy.den)
    &&& fits(zy.num * xy.den * xz.den)
    &&& fits(zy.num * xy.den * xz.den * yx.den)
    &&& fits(zy.num * xy.den * xz.den * yx.den * yz.den)
    &&& fits(zy.num * xy.den * xz.den * yx.den * yz.den * zx.den)
}

pub fn shearing(xy: Rat, xz: Rat, yx: Rat, yz: Rat, zx: Rat, zy: Rat) -> (r: Matrix)
    requires
        srat_wf(xy@),
        srat_wf(xz@),
        srat_wf(yx@),
        srat_wf(yz@),
        srat_wf(zx@),
        srat_wf(zy@),
        shear_fits(xy@, xz@, yx@, yz@, zx@, zy@),
    ensures
        r@ =~= sm_shearing(xy@, xz@, yx@, yz@, zx@, zy@),
        sm_wf(r@),
        sm_affine(r@),
{
    proof {
        lemma_pos_mul(xy@.den, xz@.den);
        lemma_pos_mul(xy@.den * xz@.den, yx@.den);
        lemma_pos_mul(xy@.den * xz@.den * yx@.den, yz@.den);
        lemma_pos_mul(xy@.den * xz@.den * yx@.den * yz@.den, zx@.den);
        lemma_pos_mul(xy@.den * xz@.den * yx@.den * yz@.den * zx@.den, zy@.den);
    }
    let d: i128 = xy.den * xz.den * yx.den * yz.den * zx.den * zy.den;
    let e01: i128 = xy.num * xz.den * yx.den * yz.den * zx.den * zy.den;
    let e02: i128 = xz.num * xy.den * yx.den * yz.den * zx.den * zy.den;
    let e10: i128 = yx.num * xy.den * xz.den * yz.den * zx.den * zy.den;
    let e12: i128 = yz.num * xy.den * xz.den * yx.den * zx.den * zy.den;
    let e20: i128 = zx.num * xy.den * xz.den * yx.den * yz.den * zy.den;
    let e21: i128 = zy.num * xy.den * xz.den * yx.den * yz.den * zx.den;
    let r = mat16(d, e01, e02, 0, e10, d, e12, 0, e20, e21, d, 0, 0, 0, 0, d, d);
    proof {
        assert(sm_affine(r@));
    }
    r
}

/// The composition of a list of transforms, folded right to left: the first
/// transform in the list is applied first to a point.
pub open spec fn sm_chain(s: Seq<SMat>) -> SMat
    decreases s.len(),
{
    if s.len() == 0 {
        sm_id(4)
    } else {
        sm_mul(sm_chain(s.drop_first()), s[0])
    }
}

/// Every intermediate product of the chain stays in machine range.
pub open spec fn chain_fits(s: Seq<SMat>) -> bool
    decreases s.len(),
{
    if s.len() == 0 {
        true
    } else {
        chain_fits(s.drop_first()) && sm_mul_fits(sm_chain(s.drop_first()), s[0])
    }
}

pub open spec fn mats_view(v: Seq<Matrix>) -> Seq<SMat> {
    v.map(|i: int, m: Matrix| m@)
}

/// Fold a list of transforms into one matrix, right to left, starting from
/// the identity: applying the result to a point applies the listed
/// transforms in order.
pub fn chain(transforms: &Vec<Matrix>) -> (r: Matrix)
    requires
        forall|k: int|
            0 <= k < transforms@.len() ==> sm_wf(#[trigger] mats_view(transforms@)[k])
                && mats_view(transforms@)[k].dim == 4,
        chain_fits(mats_view(transforms@)),
    ensures
        r@ =~= sm_chain(mats_view(transforms@)),
        sm_wf(r@),
{
    let ghost full = mats_view(transforms@);
    let mut acc: Matrix = identity_matrix();
    let mut j: usize = transforms.len();
    proof {
        assert(full.subrange(j as int, full.len() as int) =~= Seq::<SMat>::empty());
    }
    while j > 0
        invariant
            forall|k: int| 0 <= k < full.len() ==> sm_wf(#[trigger] full[k]) && full[k].dim == 4,
            chain_fits(full),
            full == mats_view(transforms@),
            full.len() == transforms@.len(),
            0 <= j <= full.len(),
            acc@ =~= sm_chain(full.subrange(j as int, full.len() as int)),
            sm_wf(acc@),
            acc@.dim == 4,
        decreases j,
    {
        j = j - 1;
        proof {
            lemma_chain_suffix(full, j as int);
            assert(mats_view(transforms@)[j as int] == transforms@[j as int]@);
        }
        acc = acc.mul_matrix(&transforms[j]);
    }
    proof {
        assert(full.subrange(0, full.len() as int) =~= full);
    }
    acc
}

/// Peeling one element off the front of a suffix of the chain.
proof fn lemma_chain_suffix(s: Seq<SMat>, j: int)
    requires
        0 <= j < s.len(),
        chain_fits(s),
    ensures
        sm_chain(s.subrange(j, s.len() as int)) == sm_mul(
            sm_chain(s.subrange(j + 1, s.len() as int)),
            s[j],
        ),
        sm_mul_fits(sm_chain(s.subrange(j + 1, s.len() as int)), s[j]),
    decreases j,
{
    if j == 0 {
        lemma_chain_fits_suffix(s, 0);
        let t = s.subrange(0, s.len() as int);
        assert(t =~= s);
        assert(t.drop_first() =~= s.subrange(1, s.len() as int));
        assert(t[0] == s[0]);
    } else {
        lemma_chain_fits_suffix(s, j);
        let t = s.subrange(j, s.len() as int);
        assert(t.drop_first() =~= s.subrange(j + 1, s.len() as int));
        assert(t[0] == s[j]);
    }
}

/// `chain_fits` of a list covers every suffix.
proof fn lemma_chain_fits_suffix(s: Seq<SMat>, j: int)
    requires
        0 <= j < s.len(),
        chain_fits(s),
    ensures
        chain_fits(s.subrange(j, s.len() as int)),
    decreases j,
{
    if j == 0 {
        assert(s.subrange(0, s.len() as int) =~= s);
    } else {
        lemma_chain_fits_suffix(s, j - 1);
        let t = s.subrange(j - 1, s.len() as int);
        assert(t.drop_first() =~= s.subrange(j, s.len() as int));
    }
}

/// Translation preserves vectors: multiplying any vector (`w == 0`) by any
/// translation matrix gives back the same vector, exactly.
pub proof fn lemma_translation_vector(x: SRat, y: SRat, z: SRat, v: STup)
    requires
        srat_wf(x),
        srat_wf(y),
        srat_wf(z),
        svec_wf(v),
    ensures
        tup_eq(sm_mul_tup(sm_translation(x, y, z), v), v),
{
    let m = sm_translation(x, y, z);
    let d = x.den * y.den * z.den;
    let u = sm_mul_tup(m, v);
    assert(u.nx == d * v.nx && u.ny == d * v.ny && u.nz == d * v.nz && u.nw == 0 && u.den == d
        * v.den) by (nonlinear_arith)
        requires
            u.nx == m.n[0] * v.nx + m.n[1] * v.ny + m.n[2] * v.nz + m.n[3] * v.nw,
            u.ny == m.n[4] * v.nx + m.n[5] * v.ny + m.n[6] * v.nz + m.n[7] * v.nw,
            u.nz == m.n[8] * v.nx + m.n[9] * v.ny + m.n[10] * v.nz + m.n[11] * v.nw,
            u.nw == m.n[12] * v.nx + m.n[13] * v.ny + m.n[14] * v.nz + m.n[15] * v.nw,
            u.den == m.den * v.den,
            m.n[0] == d && m.n[1] == 0 && m.n[2] == 0,
            m.n[4] == 0 && m.n[5] == d && m.n[6] == 0,
            m.n[8] == 0 && m.n[9] == 0 && m.n[10] == d,
            m.n[12] == 0 && m.n[13] == 0 && m.n[14] == 0 && m.n[15] == d,
            m.den == d,
            v.nw == 0,
    ;
    assert(u.nx * v.den == v.nx * u.den) by (nonlinear_arith)
        requires
            u.nx == d * v.nx,
            u.den == d * v.den,
    ;
    assert(u.ny * v.den == v.ny * u.den) by (nonlinear_arith)
        requires
            u.ny == d * v.ny,
            u.den == d * v.den,
    ;
    assert(u.nz * v.den == v.nz * u.den) by (nonlinear_arith)
        requires
            u.nz == d * v.nz,
            u.den == d * v.den,
    ;
    assert(u.nw * v.den == v.nw * u.den);
}

} // verus!
