//! Square matrices of dimension 2, 3 or 4.
//!
//! A matrix stores its entries row-major as integers over one positive
//! denominator, so products, determinants (by cofactor expansion) and the
//! cofactor inverse are all exact. The model functions (`sm_*`) compute over
//! unbounded integers; each executable operation carries a `*_fits` bound
//! that keeps its intermediate machine arithmetic in range.

use crate::coord::{spoint_wf, stup_wf, svec_wf, Point, STup, Tuple4, Vector};
use crate::rat::{abs_i, lemma_pos_mul, srat_wf, Rat, SRat, EPS_DEN, MAX_I};
use vstd::arithmetic::div_mod::lemma_fundamental_div_mod_converse;
use vstd::prelude::*;

verus! {

/// Mathematical model of a matrix: the dimension, the flat row-major
/// entries, and the common denominator, all unbounded.
#[verifier::ext_equal]
pub struct SMat {
    pub dim: int,
    pub n: Seq<int>,
    pub den: int,
}

/// A square matrix of dimension 2, 3 or 4, stored flat in row-major order
/// over one positive denominator.
#[derive(Debug)]
pub struct Matrix {
    pub dim: usize,
    pub n: Vec<i128>,
    pub den: i128,
}

impl View for Matrix {
    type V = SMat;

    open spec fn view(&self) -> SMat {
        SMat {
            dim: self.dim as int,
            n: self.n@.map(|i: int, v: i128| v as int),
            den: self.den as int,
        }
    }
}

pub open spec fn sm_wf(m: SMat) -> bool {
    &&& (m.dim == 2 || m.dim == 3 || m.dim == 4)
    &&& m.n.len() == m.dim * m.dim
    &&& m.den > 0
}

/// The integer entry in row `r`, column `c`.
pub open spec fn sm_at(m: SMat, r: int, c: int) -> int {
    m.n[r * m.dim + c]
}

/// The entry in row `r`, column `c` as a scalar.
pub open spec fn sm_get(m: SMat, r: int, c: int) -> SRat {
    SRat { num: sm_at(m, r, c), den: m.den }
}

/// Row `r` of `a` times column `c` of `b`.
pub open spec fn sm_rc(a: SMat, b: SMat, r: int, c: int) -> int {
    if a.dim == 2 {
        sm_at(a, r, 0) * sm_at(b, 0, c) + sm_at(a, r, 1) * sm_at(b, 1, c)
    } else if a.dim == 3 {
        sm_at(a, r, 0) * sm_at(b, 0, c) + sm_at(a, r, 1) * sm_at(b, 1, c) + sm_at(a, r, 2) * sm_at(
            b,
            2,
            c,
        )
    } else {
        sm_at(a, r, 0) * sm_at(b, 0, c) + sm_at(a, r, 1) * sm_at(b, 1, c) + sm_at(a, r, 2) * sm_at(
            b,
            2,
            c,
        ) + sm_at(a, r, 3) * sm_at(b, 3, c)
    }
}

/// The matrix product, over the product of the denominators.
pub open spec fn sm_mul(a: SMat, b: SMat) -> SMat {
    SMat {
        dim: a.dim,
        den: a.den * b.den,
        n: Seq::new((a.dim * a.dim) as nat, |i: int| sm_rc(a, b, i / a.dim, i % a.dim)),
    }
}

/// Matrix times column tuple (dimension 4).
pub open spec fn sm_mul_tup(m: SMat, t: STup) -> STup {
    STup {
        nx: sm_at(m, 0, 0) * t.nx + sm_at(m, 0, 1) * t.ny + sm_at(m, 0, 2) * t.nz + sm_at(m, 0, 3)
            * t.nw,
        ny: sm_at(m, 1, 0) * t.nx + sm_at(m, 1, 1) * t.ny + sm_at(m, 1, 2) * t.nz + sm_at(m, 1, 3)
            * t.nw,
        nz: sm_at(m, 2, 0) * t.nx + sm_at(m, 2, 1) * t.ny + sm_at(m, 2, 2) * t.nz + sm_at(m, 2, 3)
            * t.nw,
        nw: sm_at(m, 3, 0) * t.nx + sm_at(m, 3, 1) * t.ny + sm_at(m, 3, 2) * t.nz + sm_at(m, 3, 3)
            * t.nw,
        den: m.den * t.den,
    }
}

/// The identity matrix of dimension `dim`, over denominator one.
pub open spec fn sm_id(dim: int) -> SMat {
    SMat {
        dim,
        den: 1,
        n: Seq::new(
            (dim * dim) as nat,
            |i: int|
                if i / dim == i % dim {
                    1
                } else {
                    0
                },
        ),
    }
}

pub open spec fn sm_transpose(m: SMat) -> SMat {
    SMat {
        dim: m.dim,
        den: m.den,
        n: Seq::new(m.n.len(), |i: int| sm_at(m, i % m.dim, i / m.dim)),
    }
}

/// Index `i` of the row or column list after deleting index `del`.
pub open spec fn skip_idx(i: int, del: int) -> int {
    if i < del {
        i
    } else {
        i + 1
    }
}

/// The submatrix with row `dr` and column `dc` deleted.
pub open spec fn sm_sub(m: SMat, dr: int, dc: int) -> SMat {
    SMat {
        dim: m.dim - 1,
        den: m.den,
        n: Seq::new(
            ((m.dim - 1) * (m.dim - 1)) as nat,
            |i: int| sm_at(m, skip_idx(i / (m.dim - 1), dr), skip_idx(i % (m.dim - 1), dc)),
        ),
    }
}

/// Integer determinant of the entry matrix: the base 2x2 formula, and
/// cofactor expansion along row 0 above that. The rational determinant is
/// this over `den^dim`.
pub open spec fn sm_det(m: SMat) -> int
    decreases m.dim, 1int, 0int,
{
    if m.dim <= 2 {
        sm_at(m, 0, 0) * sm_at(m, 1, 1) - sm_at(m, 0, 1) * sm_at(m, 1, 0)
    } else if m.dim == 3 {
        sm_at(m, 0, 0) * sm_cof(m, 0, 0) + sm_at(m, 0, 1) * sm_cof(m, 0, 1) + sm_at(m, 0, 2)
            * sm_cof(m, 0, 2)
    } else {
        sm_at(m, 0, 0) * sm_cof(m, 0, 0) + sm_at(m, 0, 1) * sm_cof(m, 0, 1) + sm_at(m, 0, 2)
            * sm_cof(m, 0, 2) + sm_at(m, 0, 3) * sm_cof(m, 0, 3)
    }
}

/// Integer minor: the determinant of the submatrix.
pub open spec fn sm_minor(m: SMat, r: int, c: int) -> int
    decreases m.dim, 0int, 1int,
{
    if m.dim <= 2 {
        0
    } else {
        sm_det(sm_sub(m, r, c))
    }
}

/// Integer cofactor: the minor with the checkerboard sign.
pub open spec fn sm_cof(m: SMat, r: int, c: int) -> int
    decreases m.dim, 0int, 2int,
{
    if (r + c) % 2 == 1 {
        -sm_minor(m, r, c)
    } else {
        sm_minor(m, r, c)
    }
}

/// Determinants of 2x2 matrices never expand through cofactors, so the 2x2
/// base case of `sm_det` is the whole story there; for larger matrices the
/// expansion goes through `sm_cof`.
pub proof fn lemma_sm_det_base(m: SMat)
    requires
        m.dim == 2,
    ensures
        sm_det(m) == sm_at(m, 0, 0) * sm_at(m, 1, 1) - sm_at(m, 0, 1) * sm_at(m, 1, 0),
{
}

/// `den^dim`: the denominator of the rational determinant.
pub open spec fn sm_den_pow(m: SMat) -> int {
    if m.dim <= 2 {
        m.den * m.den
    } else if m.dim == 3 {
        m.den * m.den * m.den
    } else {
        m.den * m.den * m.den * m.den
    }
}

/// The rational determinant.
pub open spec fn sm_det_rat(m: SMat) -> SRat {
    SRat { num: sm_det(m), den: sm_den_pow(m) }
}

/// The cofactor inverse: entry `(r, c)` is `den * cof(c, r)` over `|det|`,
/// with the sign of the determinant folded into the numerators.
pub open spec fn sm_inv(m: SMat) -> SMat {
    let dt = sm_det(m);
    SMat {
        dim: m.dim,
        den: abs_i(dt),
        n: Seq::new(
            m.n.len(),
            |i: int|
                if dt < 0 {
                    -(m.den * sm_cof(m, i % m.dim, i / m.dim))
                } else {
                    m.den * sm_cof(m, i % m.dim, i / m.dim)
                },
        ),
    }
}

/// Entrywise grid equality: every entry pair within `1/EPS_DEN`.
pub open spec fn sm_near(a: SMat, b: SMat) -> bool {
    &&& a.dim == b.dim
    &&& forall|i: int|
        0 <= i < a.n.len() ==> EPS_DEN * abs_i(a.n[i] * b.den - b.n[i] * a.den) < a.den * b.den
}

/// An affine transform: a 4x4 matrix whose bottom row is `(0, 0, 0, 1)`.
pub open spec fn sm_affine(m: SMat) -> bool {
    &&& m.dim == 4
    &&& sm_at(m, 3, 0) == 0
    &&& sm_at(m, 3, 1) == 0
    &&& sm_at(m, 3, 2) == 0
    &&& sm_at(m, 3, 3) == m.den
}

/// The largest absolute value in a sequence, at least one.
pub open spec fn seq_amax(s: Seq<int>) -> int
    decreases s.len(),
{
    if s.len() == 0 {
        1
    } else {
        let rest = seq_amax(s.drop_last());
        let v = abs_i(s.last());
        if v > rest {
            v
        } else {
            rest
        }
    }
}

/// The magnitude bound of a matrix: the largest of the denominator and all
/// entry magnitudes. The `*_fits` requirements are stated over this bound.
pub open spec fn sm_max(m: SMat) -> int {
    if m.den > seq_amax(m.n) {
        m.den
    } else {
        seq_amax(m.n)
    }
}

/// The magnitude bound of a tuple.
pub open spec fn stup_amax(t: STup) -> int {
    let a = abs_i(t.nx);
    let b = abs_i(t.ny);
    let c = abs_i(t.nz);
    let d = abs_i(t.nw);
    let e = if a > b {
        a
    } else {
        b
    };
    let f = if c > d {
        c
    } else {
        d
    };
    let g = if e > f {
        e
    } else {
        f
    };
    if t.den > g {
        t.den
    } else {
        g
    }
}

/// The product of two matrices stays in machine range.
pub open spec fn sm_mul_fits(a: SMat, b: SMat) -> bool {
    4 * (sm_max(a) * sm_max(b)) <= MAX_I
}

/// A matrix-tuple product stays in machine range.
pub open spec fn sm_tup_fits(m: SMat, t: STup) -> bool {
    4 * (sm_max(m) * stup_amax(t)) <= MAX_I
}

/// The determinant computation stays in machine range; this also covers the
/// entries of the cofactor inverse.
pub open spec fn sm_det_fits(m: SMat) -> bool {
    24 * (sm_max(m) * sm_max(m) * sm_max(m) * sm_max(m)) <= MAX_I
}

/// Entrywise grid comparison stays in machine range.
pub open spec fn sm_near_fits(a: SMat, b: SMat) -> bool {
    EPS_DEN * (2 * (sm_max(a) * sm_max(b))) <= MAX_I
}

pub proof fn lemma_seq_amax_pos(s: Seq<int>)
    ensures
        seq_amax(s) >= 1,
    decreases s.len(),
{
    if s.len() == 0 {
    } else {
        lemma_seq_amax_pos(s.drop_last());
    }
}

pub proof fn lemma_seq_amax(s: Seq<int>, i: int)
    requires
        0 <= i < s.len(),
    ensures
        abs_i(s[i]) <= seq_amax(s),
    decreases s.len(),
{
    if i == s.len() - 1 {
    } else {
        lemma_seq_amax(s.drop_last(), i);
        assert(s.drop_last()[i] == s[i]);
    }
}

/// Every entry and the denominator are bounded by `sm_max`.
pub proof fn lemma_sm_max(m: SMat, i: int)
    requires
        0 <= i < m.n.len(),
    ensures
        abs_i(m.n[i]) <= sm_max(m),
        -sm_max(m) <= m.n[i] <= sm_max(m),
        m.den <= sm_max(m),
        sm_max(m) >= 1,
{
    lemma_seq_amax_pos(m.n);
    lemma_seq_amax(m.n, i);
}

pub proof fn lemma_sm_max_base(m: SMat)
    ensures
        m.den <= sm_max(m),
        sm_max(m) >= 1,
{
    lemma_seq_amax_pos(m.n);
}

/// Bounded factors give a bounded product.
pub proof fn lemma_abs_mul(x: int, y: int, bx: int, by: int)
    by (nonlinear_arith)
    requires
        abs_i(x) <= bx,
        abs_i(y) <= by,
    ensures
        abs_i(x * y) <= bx * by,
        -(bx * by) <= x * y <= bx * by,
{
}

/// Multiplying a chain of inequalities by a positive factor.
pub proof fn lemma_mul_le(a: int, b: int, c: int)
    by (nonlinear_arith)
    requires
        0 <= a <= b,
        c >= 0,
    ensures
        c * a <= c * b,
{
}

/// Row-major index arithmetic: `r * dim + c` addresses row `r`, column `c`.
pub proof fn lemma_flat_index(dim: int, r: int, c: int)
    requires
        2 <= dim,
        0 <= r < dim,
        0 <= c < dim,
    ensures
        0 <= r * dim + c < dim * dim,
        (r * dim + c) / dim == r,
        (r * dim + c) % dim == c,
{
    assert(0 <= r * dim + c < dim * dim) by (nonlinear_arith)
        requires
            2 <= dim,
            0 <= r < dim,
            0 <= c < dim,
    ;
    lemma_fundamental_div_mod_converse(r * dim + c, dim, r, c);
}

/// A flat index below `dim * dim` decomposes into a row and a column.
pub proof fn lemma_index_rc(dim: int, i: int)
    requires
        2 <= dim,
        0 <= i < dim * dim,
    ensures
        0 <= i / dim < dim,
        0 <= i % dim < dim,
        (i / dim) * dim + (i % dim) == i,
{
    vstd::arithmetic::div_mod::lemma_fundamental_div_mod(i, dim);
    let q = i / dim;
    assert(0 <= q && q < dim) by (nonlinear_arith)
        requires
            i == dim * q + (i % dim),
            0 <= i % dim < dim,
            0 <= i < dim * dim,
            dim >= 2,
    ;
    assert(q * dim + (i % dim) == i) by (nonlinear_arith)
        requires
            i == dim * q + (i % dim),
    ;
}

impl Matrix {
    /// Build a matrix from its flat row-major entries over a common
    /// denominator. The number of entries must be 4, 9 or 16.
    pub fn new(vals: Vec<i128>, den: i128) -> (r: Matrix)
        requires
            vals@.len() == 4 || vals@.len() == 9 || vals@.len() == 16,
            den > 0,
        ensures
            r.n@ == vals@,
            r.den == den,
            r@.dim * r@.dim == vals@.len(),
            sm_wf(r@),
    {
        let dim: usize = if vals.len() == 4 {
            2
        } else if vals.len() == 9 {
            3
        } else {
            4
        };
        Matrix { dim, n: vals, den }
    }

    /// The dimension (2, 3 or 4).
    pub fn dim(&self) -> (r: usize)
        ensures
            r as int == self@.dim,
    {
        self.dim
    }

    /// The raw integer entry in row `r`, column `c`.
    fn get_i(&self, r: usize, c: usize) -> (v: i128)
        requires
            sm_wf(self@),
            r < self@.dim,
            c < self@.dim,
        ensures
            v as int == sm_at(self@, r as int, c as int),
    {
        proof {
            lemma_flat_index(self@.dim, r as int, c as int);
            assert(self@.dim * self@.dim <= 16) by (nonlinear_arith)
                requires
                    self@.dim == 2 || self@.dim == 3 || self@.dim == 4,
            ;
        }
        self.n[r * self.dim + c]
    }

    /// The entry in row `r`, column `c` as a scalar.
    pub fn get(&self, r: usize, c: usize) -> (v: Rat)
        requires
            sm_wf(self@),
            r < self@.dim,
            c < self@.dim,
        ensures
            v@ == sm_get(self@, r as int, c as int),
            srat_wf(v@),
    {
        Rat { num: self.get_i(r, c), den: self.den }
    }

    /// Whether the two matrices have the same dimension.
    pub fn same_variant(&self, other: &Matrix) -> (r: bool)
        ensures
            r == (self@.dim == other@.dim),
    {
        self.dim == other.dim
    }

    /// Entrywise grid equality; matrices of different dimensions are
    /// never equal.
    pub fn approx_eq(&self, other: &Matrix) -> (r: bool)
        requires
            sm_wf(self@),
            sm_wf(other@),
            sm_near_fits(self@, other@),
        ensures
            r == sm_near(self@, other@),
    {
        if self.dim != other.dim {
            return false;
        }
        proof {
            lemma_pos_mul(self@.den, other@.den);
        }
        let len: usize = self.n.len();
        let mut i: usize = 0;
        while i < len
            invariant
                sm_wf(self@),
                sm_wf(other@),
                sm_near_fits(self@, other@),
                self@.dim == other@.dim,
                len == self@.n.len(),
                self@.n.len() == other@.n.len(),
                0 <= i <= len,
                forall|k: int|
                    0 <= k < i ==> EPS_DEN * abs_i(self@.n[k] * other@.den - other@.n[k] * self@.den)
                        < self@.den * other@.den,
            decreases len - i,
        {
            proof {
                lemma_sm_max(self@, i as int);
                lemma_sm_max(other@, i as int);
                lemma_abs_mul(self@.n[i as int], other@.den, sm_max(self@), sm_max(other@));
                lemma_abs_mul(other@.n[i as int], self@.den, sm_max(other@), sm_max(self@));
                assert(sm_max(other@) * sm_max(self@) == sm_max(self@) * sm_max(other@))
                    by (nonlinear_arith);
                lemma_mul_le(
                    abs_i(self@.n[i as int] * other@.den - other@.n[i as int] * self@.den),
                    2 * (sm_max(self@) * sm_max(other@)),
                    EPS_DEN as int,
                );
                lemma_abs_mul(self@.den, other@.den, sm_max(self@), sm_max(other@));
            }
            let x: i128 = self.n[i] * other.den;
            let y: i128 = other.n[i] * self.den;
            let d: i128 = if x >= y {
                x - y
            } else {
                y - x
            };
            if !(EPS_DEN * d < self.den * other.den) {
                return false;
            }
            i = i + 1;
        }
        true
    }

    /// The 4x4 identity matrix.
    pub fn transpose(&self) -> (r: Matrix)
        requires
            sm_wf(self@),
        ensures
            r@ =~= sm_transpose(self@),
            sm_wf(r@),
    {
        let dim: usize = self.dim;
        let len: usize = self.n.len();
        let mut vals: Vec<i128> = Vec::new();
        let mut i: usize = 0;
        while i < len
            invariant
                sm_wf(self@),
                dim == self@.dim,
                len == self@.n.len(),
                0 <= i <= len,
                vals@.len() == i,
                forall|k: int| 0 <= k < i ==> vals@[k] as int == sm_transpose(self@).n[k],
            decreases len - i,
        {
            proof {
                lemma_index_rc(dim as int, i as int);
            }
            let r: usize = i / dim;
            let c: usize = i % dim;
            let v: i128 = self.get_i(c, r);
            vals.push(v);
            i = i + 1;
        }
        let res = Matrix { dim, n: vals, den: self.den };
        proof {
            assert(res@.n =~= sm_transpose(self@).n);
        }
        res
    }

    /// Matrix product; both matrices must have the same dimension.
    pub fn mul_matrix(&self, other: &Matrix) -> (r: Matrix)
        requires
            sm_wf(self@),
            sm_wf(other@),
            self@.dim == other@.dim,
            sm_mul_fits(self@, other@),
        ensures
            r@ =~= sm_mul(self@, other@),
            sm_wf(r@),
    {
        proof {
            lemma_sm_max_base(self@);
            lemma_sm_max_base(other@);
            lemma_pos_mul(self@.den, other@.den);
            lemma_abs_mul(self@.den, other@.den, sm_max(self@), sm_max(other@));
        }
        let dim: usize = self.dim;
        let len: usize = self.n.len();
        let mut vals: Vec<i128> = Vec::new();
        let mut i: usize = 0;
        while i < len
            invariant
                sm_wf(self@),
                sm_wf(other@),
                self@.dim == other@.dim,
                sm_mul_fits(self@, other@),
                dim == self@.dim,
                len == self@.n.len(),
                0 <= i <= len,
                vals@.len() == i,
                forall|k: int| 0 <= k < i ==> vals@[k] as int == sm_mul(self@, other@).n[k],
            decreases len - i,
        {
            proof {
                lemma_index_rc(dim as int, i as int);
            }
            let r: usize = i / dim;
            let c: usize = i % dim;
            let v: i128 = rcx(self, other, r, c);
            vals.push(v);
            i = i + 1;
        }
        let res = Matrix { dim, n: vals, den: self.den * other.den };
        proof {
            assert(res@.n =~= sm_mul(self@, other@).n);
        }
        res
    }

    /// Matrix times tuple; the matrix must be 4x4.
    pub fn mul_tuple(&self, tup: &Tuple4) -> (r: Tuple4)
        requires
            sm_wf(self@),
            stup_wf(tup@),
            self@.dim == 4,
            sm_tup_fits(self@, tup@),
        ensures
            r@ == sm_mul_tup(self@, tup@),
            stup_wf(r@),
    {
        proof {
            lemma_sm_max_base(self@);
            lemma_pos_mul(self@.den, tup@.den);
            lemma_abs_mul(self@.den, tup@.den, sm_max(self@), stup_amax(tup@));
        }
        let nx: i128 = self.row_tup(0, tup);
        let ny: i128 = self.row_tup(1, tup);
        let nz: i128 = self.row_tup(2, tup);
        let nw: i128 = self.row_tup(3, tup);
        Tuple4 { nx, ny, nz, nw, den: self.den * tup.den }
    }

    /// Row `r` of the matrix times the tuple column.
    fn row_tup(&self, r: usize, tup: &Tuple4) -> (v: i128)
        requires
            sm_wf(self@),
            stup_wf(tup@),
            self@.dim == 4,
            r < 4,
            sm_tup_fits(self@, tup@),
        ensures
            v as int == sm_at(self@, r as int, 0) * tup@.nx + sm_at(self@, r as int, 1) * tup@.ny
                + sm_at(self@, r as int, 2) * tup@.nz + sm_at(self@, r as int, 3) * tup@.nw,
    {
        let ghost ri = r as int;
        proof {
            let mm = sm_max(self@);
            let tm = stup_amax(tup@);
            lemma_sm_max_base(self@);
            lemma_flat_index(4, ri, 0);
            lemma_flat_index(4, ri, 1);
            lemma_flat_index(4, ri, 2);
            lemma_flat_index(4, ri, 3);
            lemma_sm_max(self@, ri * 4 + 0);
            lemma_sm_max(self@, ri * 4 + 1);
            lemma_sm_max(self@, ri * 4 + 2);
            lemma_sm_max(self@, ri * 4 + 3);
            lemma_abs_mul(sm_at(self@, ri, 0), tup@.nx, mm, tm);
            lemma_abs_mul(sm_at(self@, ri, 1), tup@.ny, mm, tm);
            lemma_abs_mul(sm_at(self@, ri, 2), tup@.nz, mm, tm);
            lemma_abs_mul(sm_at(self@, ri, 3), tup@.nw, mm, tm);
        }
        self.get_i(r, 0) * tup.nx + self.get_i(r, 1) * tup.ny + self.get_i(r, 2) * tup.nz
            + self.get_i(r, 3) * tup.nw
    }

    /// Matrix times point: the matrix must be an affine transform, so the
    /// result is again a point.
    pub fn mul_point(&self, p: &Point) -> (r: Point)
        requires
            sm_wf(self@),
            spoint_wf(p@),
            sm_affine(self@),
            sm_tup_fits(self@, p@),
        ensures
            r@ == sm_mul_tup(self@, p@),
            spoint_wf(r@),
    {
        let tup: Tuple4 = self.mul_tuple(&p.tup);
        proof {
            lemma_affine_row(self@, p@);
        }
        Point { tup }
    }

    /// Matrix times vector: an affine transform keeps `w` zero.
    pub fn mul_vector(&self, v: &Vector) -> (r: Vector)
        requires
            sm_wf(self@),
            svec_wf(v@),
            sm_affine(self@),
            sm_tup_fits(self@, v@),
        ensures
            r@ == sm_mul_tup(self@, v@),
            svec_wf(r@),
    {
        let tup: Tuple4 = self.mul_tuple(&v.tup);
        proof {
            lemma_affine_row(self@, v@);
        }
        Vector { tup }
    }
}

/// The bottom row of an affine transform maps `w` to `den * w`: points stay
/// points and vectors stay vectors.
proof fn lemma_affine_row(m: SMat, t: STup)
    requires
        sm_affine(m),
    ensures
        sm_mul_tup(m, t).nw == m.den * t.nw,
        sm_mul_tup(m, t).den == m.den * t.den,
{
    assert(sm_at(m, 3, 0) * t.nx == 0 && sm_at(m, 3, 1) * t.ny == 0 && sm_at(m, 3, 2) * t.nz == 0
        && sm_at(m, 3, 3) * t.nw == m.den * t.nw) by (nonlinear_arith)
        requires
            sm_at(m, 3, 0) == 0,
            sm_at(m, 3, 1) == 0,
            sm_at(m, 3, 2) == 0,
            sm_at(m, 3, 3) == m.den,
    ;
}

/// Row `r` of `a` times column `c` of `b`, on machine integers.
fn rcx(a: &Matrix, b: &Matrix, r: usize, c: usize) -> (v: i128)
    requires
        sm_wf(a@),
        sm_wf(b@),
        a@.dim == b@.dim,
        r < a@.dim,
        c < a@.dim,
        sm_mul_fits(a@, b@),
    ensures
        v as int == sm_rc(a@, b@, r as int, c as int),
{
    let ghost ri = r as int;
    let ghost ci = c as int;
    let ghost dim = a@.dim;
    proof {
        let ma = sm_max(a@);
        let mb = sm_max(b@);
        lemma_sm_max_base(a@);
        lemma_sm_max_base(b@);
        assert forall|k: int| 0 <= k < dim implies -(ma * mb) <= #[trigger] (sm_at(a@, ri, k)
            * sm_at(b@, k, ci)) <= ma * mb by {
            lemma_flat_index(dim, ri, k);
            lemma_flat_index(dim, k, ci);
            lemma_sm_max(a@, ri * dim + k);
            lemma_sm_max(b@, k * dim + ci);
            lemma_abs_mul(sm_at(a@, ri, k), sm_at(b@, k, ci), ma, mb);
        }
    }
    if a.dim == 2 {
        a.get_i(r, 0) * b.get_i(0, c) + a.get_i(r, 1) * b.get_i(1, c)
    } else if a.dim == 3 {
        a.get_i(r, 0) * b.get_i(0, c) + a.get_i(r, 1) * b.get_i(1, c) + a.get_i(r, 2) * b.get_i(
            2,
            c,
        )
    } else {
        a.get_i(r, 0) * b.get_i(0, c) + a.get_i(r, 1) * b.get_i(1, c) + a.get_i(r, 2) * b.get_i(
            2,
            c,
        ) + a.get_i(r, 3) * b.get_i(3, c)
    }
}

/// The 4x4 identity matrix, built on demand.
pub fn identity_matrix() -> (r: Matrix)
    ensures
        r@ =~= sm_id(4),
        sm_wf(r@),
        sm_affine(r@),
{
    let mut vals: Vec<i128> = Vec::new();
    let mut i: usize = 0;
    while i < 16
        invariant
            0 <= i <= 16,
            vals@.len() == i,
            forall|k: int| 0 <= k < i ==> vals@[k] as int == sm_id(4).n[k],
        decreases 16 - i,
    {
        let v: i128 = if i / 4 == i % 4 {
            1
        } else {
            0
        };
        vals.push(v);
        i = i + 1;
    }
    let res = Matrix { dim: 4, n: vals, den: 1 };
    proof {
        assert(res@.n =~= sm_id(4).n);
        assert(sm_at(res@, 3, 0) == 0 && sm_at(res@, 3, 1) == 0 && sm_at(res@, 3, 2) == 0 && sm_at(
            res@,
            3,
            3,
        ) == 1);
    }
    res
}

/// Entries of a submatrix are entries of the matrix, so any entrywise bound
/// carries over.
pub proof fn lemma_sub_entries(m: SMat, dr: int, dc: int, cap: int)
    requires
        m.dim == 3 || m.dim == 4,
        m.n.len() == m.dim * m.dim,
        0 <= dr < m.dim,
        0 <= dc < m.dim,
        forall|i: int| 0 <= i < m.n.len() ==> abs_i(m.n[i]) <= cap,
    ensures
        sm_sub(m, dr, dc).dim == m.dim - 1,
        sm_sub(m, dr, dc).n.len() == (m.dim - 1) * (m.dim - 1),
        forall|j: int| 0 <= j < sm_sub(m, dr, dc).n.len() ==> abs_i(sm_sub(m, dr, dc).n[j]) <= cap,
{
    let s = sm_sub(m, dr, dc);
    let d = m.dim - 1;
    assert forall|j: int| 0 <= j < s.n.len() implies abs_i(s.n[j]) <= cap by {
        lemma_index_rc(d, j);
        let rr = skip_idx(j / d, dr);
        let cc = skip_idx(j % d, dc);
        lemma_flat_index(m.dim, rr, cc);
        assert(s.n[j] == m.n[rr * m.dim + cc]);
    }
}

/// An entrywise bound caps the maximum of a sequence.
pub proof fn lemma_seq_amax_le(s: Seq<int>, cap: int)
    requires
        cap >= 1,
        forall|i: int| 0 <= i < s.len() ==> abs_i(s[i]) <= cap,
    ensures
        seq_amax(s) <= cap,
    decreases s.len(),
{
    if s.len() == 0 {
    } else {
        assert forall|i: int| 0 <= i < s.drop_last().len() implies abs_i(s.drop_last()[i])
            <= cap by {
            assert(s.drop_last()[i] == s[i]);
        }
        lemma_seq_amax_le(s.drop_last(), cap);
        assert(abs_i(s.last()) <= cap);
    }
}

/// The magnitude bound of a submatrix is at most that of the matrix.
pub proof fn lemma_sub_max(m: SMat, dr: int, dc: int)
    requires
        m.dim == 3 || m.dim == 4,
        m.n.len() == m.dim * m.dim,
        0 <= dr < m.dim,
        0 <= dc < m.dim,
    ensures
        sm_max(sm_sub(m, dr, dc)) <= sm_max(m),
        sm_max(sm_sub(m, dr, dc)) >= 1,
{
    let cap = sm_max(m);
    assert forall|i: int| 0 <= i < m.n.len() implies abs_i(m.n[i]) <= cap by {
        lemma_sm_max(m, i);
    }
    lemma_sm_max_base(m);
    lemma_sub_entries(m, dr, dc, cap);
    lemma_seq_amax_le(sm_sub(m, dr, dc).n, cap);
    lemma_seq_amax_pos(sm_sub(m, dr, dc).n);
}

/// An entrywise bound gives the classical factorial bound on the
/// determinant, dimension by dimension.
pub proof fn lemma_det_bound(m: SMat, cap: int)
    requires
        m.dim == 2 || m.dim == 3 || m.dim == 4,
        m.n.len() == m.dim * m.dim,
        cap >= 1,
        forall|i: int| 0 <= i < m.n.len() ==> abs_i(m.n[i]) <= cap,
    ensures
        m.dim == 2 ==> abs_i(sm_det(m)) <= 2 * (cap * cap),
        m.dim == 3 ==> abs_i(sm_det(m)) <= 6 * (cap * cap * cap),
        m.dim == 4 ==> abs_i(sm_det(m)) <= 24 * (cap * cap * cap * cap),
    decreases m.dim,
{
    if m.dim == 2 {
        lemma_abs_mul(sm_at(m, 0, 0), sm_at(m, 1, 1), cap, cap);
        lemma_abs_mul(sm_at(m, 0, 1), sm_at(m, 1, 0), cap, cap);
    } else if m.dim == 3 {
        assert forall|c: int| 0 <= c < 3 implies abs_i(sm_cof(m, 0, c)) <= 2 * (cap * cap) by {
            lemma_sub_entries(m, 0, c, cap);
            lemma_det_bound(sm_sub(m, 0, c), cap);
        }
        assert forall|c: int| 0 <= c < 3 implies abs_i(sm_at(m, 0, c) * sm_cof(m, 0, c)) <= 2 * (cap
            * cap * cap) by {
            lemma_flat_index(3, 0, c);
            lemma_abs_mul(sm_at(m, 0, c), sm_cof(m, 0, c), cap, 2 * (cap * cap));
            assert(cap * (2 * (cap * cap)) == 2 * (cap * cap * cap)) by (nonlinear_arith);
        }
    } else {
        assert forall|c: int| 0 <= c < 4 implies abs_i(sm_cof(m, 0, c)) <= 6 * (cap * cap
            * cap) by {
            lemma_sub_entries(m, 0, c, cap);
            lemma_det_bound(sm_sub(m, 0, c), cap);
        }
        assert forall|c: int| 0 <= c < 4 implies abs_i(sm_at(m, 0, c) * sm_cof(m, 0, c)) <= 6 * (cap
            * cap * cap * cap) by {
            lemma_flat_index(4, 0, c);
            lemma_abs_mul(sm_at(m, 0, c), sm_cof(m, 0, c), cap, 6 * (cap * cap * cap));
            assert(cap * (6 * (cap * cap * cap)) == 6 * (cap * cap * cap * cap))
                by (nonlinear_arith);
        }
    }
}

/// The determinant is bounded by the uniform `sm_det_fits` budget.
pub proof fn lemma_det_cap(m: SMat)
    requires
        m.dim == 2 || m.dim == 3 || m.dim == 4,
        m.n.len() == m.dim * m.dim,
    ensures
        abs_i(sm_det(m)) <= 24 * (sm_max(m) * sm_max(m) * sm_max(m) * sm_max(m)),
{
    let cap = sm_max(m);
    assert forall|i: int| 0 <= i < m.n.len() implies abs_i(m.n[i]) <= cap by {
        lemma_sm_max(m, i);
    }
    lemma_sm_max_base(m);
    lemma_det_bound(m, cap);
    assert(2 * (cap * cap) <= 24 * (cap * cap * cap * cap) && 6 * (cap * cap * cap) <= 24 * (cap
        * cap * cap * cap)) by (nonlinear_arith)
        requires
            cap >= 1,
    ;
}

/// A quartic budget is monotone in the bound.
proof fn lemma_fits_mono4(a: int, b: int)
    by (nonlinear_arith)
    requires
        1 <= a <= b,
    ensures
        24 * (a * a * a * a) <= 24 * (b * b * b * b),
{
}

impl Matrix {
    /// The submatrix with row `dr` and column `dc` deleted; only for
    /// dimensions 3 and 4.
    pub fn submatrix(&self, dr: usize, dc: usize) -> (r: Matrix)
        requires
            sm_wf(self@),
            self@.dim == 3 || self@.dim == 4,
            dr < self@.dim,
            dc < self@.dim,
        ensures
            r@ =~= sm_sub(self@, dr as int, dc as int),
            sm_wf(r@),
    {
        let dim: usize = self.dim;
        let d: usize = dim - 1;
        let len: usize = d * d;
        let mut vals: Vec<i128> = Vec::new();
        let mut i: usize = 0;
        while i < len
            invariant
                sm_wf(self@),
                self@.dim == 3 || self@.dim == 4,
                dr < self@.dim,
                dc < self@.dim,
                dim == self@.dim,
                d == dim - 1,
                len == d * d,
                0 <= i <= len,
                vals@.len() == i,
                forall|k: int|
                    0 <= k < i ==> vals@[k] as int == sm_sub(self@, dr as int, dc as int).n[k],
            decreases len - i,
        {
            proof {
                lemma_index_rc(d as int, i as int);
            }
            let row: usize = i / d;
            let col: usize = i % d;
            let srow: usize = if row < dr {
                row
            } else {
                row + 1
            };
            let scol: usize = if col < dc {
                col
            } else {
                col + 1
            };
            let v: i128 = self.get_i(srow, scol);
            vals.push(v);
            i = i + 1;
        }
        let res = Matrix { dim: d, n: vals, den: self.den };
        proof {
            assert(res@.n =~= sm_sub(self@, dr as int, dc as int).n);
        }
        res
    }

    /// The integer determinant of the entry matrix.
    fn det_i(&self) -> (v: i128)
        requires
            sm_wf(self@),
            sm_det_fits(self@),
        ensures
            v as int == sm_det(self@),
        decreases self.dim, 1int,
    {
        proof {
            let cap = sm_max(self@);
            lemma_sm_max_base(self@);
            assert forall|i: int| 0 <= i < self@.n.len() implies abs_i(self@.n[i]) <= cap by {
                lemma_sm_max(self@, i);
            }
            lemma_det_bound(self@, cap);
            assert(cap * cap <= 24 * (cap * cap * cap * cap) && 2 * (cap * cap) <= 24 * (cap * cap
                * cap * cap) && 6 * (cap * cap * cap) <= 24 * (cap * cap * cap * cap))
                by (nonlinear_arith)
                requires
                    cap >= 1,
            ;
        }
        if self.dim == 2 {
            proof {
                let cap = sm_max(self@);
                lemma_flat_index(2, 0, 0);
                lemma_flat_index(2, 0, 1);
                lemma_flat_index(2, 1, 0);
                lemma_flat_index(2, 1, 1);
                lemma_sm_max(self@, 0);
                lemma_sm_max(self@, 1);
                lemma_sm_max(self@, 2);
                lemma_sm_max(self@, 3);
                lemma_abs_mul(sm_at(self@, 0, 0), sm_at(self@, 1, 1), cap, cap);
                lemma_abs_mul(sm_at(self@, 0, 1), sm_at(self@, 1, 0), cap, cap);
            }
            self.get_i(0, 0) * self.get_i(1, 1) - self.get_i(0, 1) * self.get_i(1, 0)
        } else if self.dim == 3 {
            let c0: i128 = self.cof_i(0, 0);
            let c1: i128 = self.cof_i(0, 1);
            let c2: i128 = self.cof_i(0, 2);
            proof {
                self.lemma_det_terms();
            }
            self.get_i(0, 0) * c0 + self.get_i(0, 1) * c1 + self.get_i(0, 2) * c2
        } else {
            let c0: i128 = self.cof_i(0, 0);
            let c1: i128 = self.cof_i(0, 1);
            let c2: i128 = self.cof_i(0, 2);
            let c3: i128 = self.cof_i(0, 3);
            proof {
                self.lemma_det_terms();
            }
            self.get_i(0, 0) * c0 + self.get_i(0, 1) * c1 + self.get_i(0, 2) * c2 + self.get_i(
                0,
                3,
            ) * c3
        }
    }

    /// Each term of the cofactor expansion along row 0 is within the
    /// determinant budget.
    proof fn lemma_det_terms(&self)
        requires
            sm_wf(self@),
            self@.dim == 3 || self@.dim == 4,
        ensures
            forall|c: int|
                0 <= c < self@.dim ==> -(6 * (sm_max(self@) * sm_max(self@) * sm_max(self@)
                    * sm_max(self@))) <= #[trigger] (sm_at(self@, 0, c) * sm_cof(self@, 0, c)) <= 6
                    * (sm_max(self@) * sm_max(self@) * sm_max(self@) * sm_max(self@)),
    {
        let cap = sm_max(self@);
        lemma_sm_max_base(self@);
        assert forall|i: int| 0 <= i < self@.n.len() implies abs_i(self@.n[i]) <= cap by {
            lemma_sm_max(self@, i);
        }
        assert forall|c: int| 0 <= c < self@.dim implies -(6 * (cap * cap * cap * cap)) <= #[trigger] (
        sm_at(self@, 0, c) * sm_cof(self@, 0, c)) <= 6 * (cap * cap * cap * cap) by {
            lemma_sub_entries(self@, 0, c, cap);
            lemma_det_bound(sm_sub(self@, 0, c), cap);
            lemma_flat_index(self@.dim, 0, c);
            if self@.dim == 3 {
                lemma_abs_mul(sm_at(self@, 0, c), sm_cof(self@, 0, c), cap, 2 * (cap * cap));
                assert(cap * (2 * (cap * cap)) <= 6 * (cap * cap * cap * cap)) by (nonlinear_arith)
                    requires
                        cap >= 1,
                ;
            } else {
                lemma_abs_mul(sm_at(self@, 0, c), sm_cof(self@, 0, c), cap, 6 * (cap * cap * cap));
                assert(cap * (6 * (cap * cap * cap)) <= 6 * (cap * cap * cap * cap))
                    by (nonlinear_arith)
                    requires
                        cap >= 1,
                ;
            }
        }
    }

    /// The integer cofactor at `(r, c)`.
    fn cof_i(&self, r: usize, c: usize) -> (v: i128)
        requires
            sm_wf(self@),
            self@.dim == 3 || self@.dim == 4,
            r < self@.dim,
            c < self@.dim,
            sm_det_fits(self@),
        ensures
            v as int == sm_cof(self@, r as int, c as int),
        decreases self.dim, 0int,
    {
        let sub: Matrix = self.submatrix(r, c);
        proof {
            lemma_sub_max(self@, r as int, c as int);
            lemma_sm_max_base(self@);
            lemma_fits_mono4(sm_max(sub@), sm_max(self@));
            let capsub = sm_max(sub@);
            lemma_det_cap(sub@);
            assert(24 * (capsub * capsub * capsub * capsub) <= 24 * (sm_max(self@) * sm_max(self@)
                * sm_max(self@) * sm_max(self@)));
        }
        let md: i128 = sub.det_i();
        if (r + c) % 2 == 1 {
            -md
        } else {
            md
        }
    }

    /// The determinant as a scalar: the integer determinant over `den^dim`.
    pub fn determinant(&self) -> (r: Rat)
        requires
            sm_wf(self@),
            sm_det_fits(self@),
        ensures
            r@ == sm_det_rat(self@),
            srat_wf(r@),
    {
        let num: i128 = self.det_i();
        proof {
            self.lemma_den_pow_fits();
        }
        let dp: i128 = if self.dim == 2 {
            self.den * self.den
        } else if self.dim == 3 {
            self.den * self.den * self.den
        } else {
            self.den * self.den * self.den * self.den
        };
        Rat { num, den: dp }
    }

    /// Powers of the denominator stay within the determinant budget.
    proof fn lemma_den_pow_fits(&self)
        requires
            sm_wf(self@),
            sm_det_fits(self@),
        ensures
            0 < self@.den * self@.den <= MAX_I,
            0 < self@.den * self@.den * self@.den <= MAX_I,
            0 < self@.den * self@.den * self@.den * self@.den <= MAX_I,
            sm_den_pow(self@) > 0,
    {
        let cap = sm_max(self@);
        lemma_sm_max_base(self@);
        assert(0 < self@.den * self@.den <= 24 * (cap * cap * cap * cap) && 0 < self@.den
            * self@.den * self@.den <= 24 * (cap * cap * cap * cap) && 0 < self@.den * self@.den
            * self@.den * self@.den <= 24 * (cap * cap * cap * cap)) by (nonlinear_arith)
            requires
                0 < self@.den <= cap,
                cap >= 1,
        ;
    }

    /// The minor at `(r, c)`: the determinant of the submatrix, as a scalar.
    pub fn minor(&self, r: usize, c: usize) -> (v: Rat)
        requires
            sm_wf(self@),
            self@.dim == 3 || self@.dim == 4,
            r < self@.dim,
            c < self@.dim,
            sm_det_fits(self@),
        ensures
            v@ == sm_det_rat(sm_sub(self@, r as int, c as int)),
            v@.num == sm_minor(self@, r as int, c as int),
            srat_wf(v@),
    {
        let sub: Matrix = self.submatrix(r, c);
        proof {
            lemma_sub_max(self@, r as int, c as int);
            lemma_fits_mono4(sm_max(sub@), sm_max(self@));
            lemma_sm_max_base(self@);
        }
        sub.determinant()
    }

    /// The cofactor at `(r, c)`: the minor with the checkerboard sign.
    pub fn cofactor(&self, r: usize, c: usize) -> (v: Rat)
        requires
            sm_wf(self@),
            self@.dim == 3 || self@.dim == 4,
            r < self@.dim,
            c < self@.dim,
            sm_det_fits(self@),
        ensures
            v@.num == sm_cof(self@, r as int, c as int),
            v@.den == sm_den_pow(sm_sub(self@, r as int, c as int)),
            srat_wf(v@),
    {
        let m: Rat = self.minor(r, c);
        proof {
            lemma_sub_max(self@, r as int, c as int);
            lemma_det_cap(sm_sub(self@, r as int, c as int));
            lemma_fits_mono4(sm_max(sm_sub(self@, r as int, c as int)), sm_max(self@));
            lemma_sm_max_base(self@);
        }
        if (r + c) % 2 == 1 {
            Rat { num: -m.num, den: m.den }
        } else {
            m
        }
    }

    /// Whether the determinant is nonzero, which is exactly when the matrix
    /// has an inverse.
    pub fn invertible(&self) -> (r: bool)
        requires
            sm_wf(self@),
            sm_det_fits(self@),
        ensures
            r == (sm_det(self@) != 0),
    {
        let d: i128 = self.det_i();
        d != 0
    }

    /// The cofactor inverse: entry `(c, r)` is `cofactor(r, c) / det`. The
    /// matrix must be invertible (a nonzero determinant), and the operation
    /// exists only for dimensions 3 and 4, since a 2x2 entry has no
    /// submatrix.
    pub fn inverse(&self) -> (r: Matrix)
        requires
            sm_wf(self@),
            self@.dim == 3 || self@.dim == 4,
            sm_det(self@) != 0,
            sm_det_fits(self@),
        ensures
            r@ =~= sm_inv(self@),
            sm_wf(r@),
    {
        let dt: i128 = self.det_i();
        let dim: usize = self.dim;
        let len: usize = self.n.len();
        let mut vals: Vec<i128> = Vec::new();
        let mut i: usize = 0;
        while i < len
            invariant
                sm_wf(self@),
                self@.dim == 3 || self@.dim == 4,
                sm_det_fits(self@),
                dt as int == sm_det(self@),
                dim == self@.dim,
                len == self@.n.len(),
                0 <= i <= len,
                vals@.len() == i,
                forall|k: int| 0 <= k < i ==> vals@[k] as int == sm_inv(self@).n[k],
            decreases len - i,
        {
            proof {
                lemma_index_rc(dim as int, i as int);
            }
            let r: usize = i / dim;
            let c: usize = i % dim;
            let cf: i128 = self.cof_i(c, r);
            proof {
                let cap = sm_max(self@);
                lemma_sm_max_base(self@);
                assert forall|q: int| 0 <= q < self@.n.len() implies abs_i(self@.n[q]) <= cap by {
                    lemma_sm_max(self@, q);
                }
                lemma_sub_entries(self@, c as int, r as int, cap);
                lemma_det_bound(sm_sub(self@, c as int, r as int), cap);
                assert(2 * (cap * cap) <= 6 * (cap * cap * cap)) by (nonlinear_arith)
                    requires
                        cap >= 1,
                ;
                assert(abs_i(cf as int) <= 6 * (cap * cap * cap));
                lemma_abs_mul(self@.den, cf as int, cap, 6 * (cap * cap * cap));
                assert(cap * (6 * (cap * cap * cap)) <= 24 * (cap * cap * cap * cap))
                    by (nonlinear_arith)
                    requires
                        cap >= 1,
                ;
            }
            let v0: i128 = self.den * cf;
            let v: i128 = if dt < 0 {
                -v0
            } else {
                v0
            };
            vals.push(v);
            i = i + 1;
        }
        proof {
            lemma_det_cap(self@);
        }
        let dabs: i128 = if dt < 0 {
            -dt
        } else {
            dt
        };
        let res = Matrix { dim, n: vals, den: dabs };
        proof {
            assert(res@.n =~= sm_inv(self@).n);
        }
        res
    }
}


impl Clone for Matrix {
    /// An exact copy: the clone has the same dimension, entries and
    /// denominator.
    fn clone(&self) -> (r: Self)
        ensures
            r@ == self@,
    {
        let mut n2: Vec<i128> = Vec::new();
        let mut i: usize = 0;
        while i < self.n.len()
            invariant
                0 <= i <= self.n@.len(),
                n2@.len() == i,
                forall|k: int| 0 <= k < i ==> n2@[k] == self.n@[k],
            decreases self.n@.len() - i,
        {
            let v: i128 = self.n[i];
            n2.push(v);
            i = i + 1;
        }
        proof {
            assert(n2@ =~= self.n@);
        }
        let r = Matrix { dim: self.dim, n: n2, den: self.den };
        proof {
            assert(r@ =~= self@);
        }
        r
    }
}

} // verus!
