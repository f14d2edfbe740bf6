//! The algebraic laws of the matrix kernel.
//!
//! All statements are over the model type [`SMat`] with unbounded entries;
//! the executable operations are tied to that model by their contracts, so
//! the laws carry over to every computed result.

use crate::matrix::{lemma_flat_index, lemma_index_rc, sm_at, sm_id, sm_mul, sm_wf, SMat};
use vstd::prelude::*;

verus! {

/// Multiplying by the identity on the right changes nothing: the product
/// has the same dimension, denominator and entries.
pub proof fn lemma_mul_identity_right(m: SMat)
    requires
        sm_wf(m),
    ensures
        sm_mul(m, sm_id(m.dim)) =~= m,
{
    let d = m.dim;
    assert(d * d >= 4) by (nonlinear_arith)
        requires
            d >= 2,
    ;
    let p = sm_mul(m, sm_id(d));
    assert forall|t: int| 0 <= t < d * d implies p.n[t] == m.n[t] by {
        lemma_index_rc(d, t);
        let r = t / d;
        let c = t % d;
        assert forall|k: int| 0 <= k < d implies sm_at(sm_id(d), k, c) == (if k == c {
            1int
        } else {
            0int
        }) by {
            lemma_flat_index(d, k, c);
        }
        lemma_flat_index(d, r, c);
        assert(p.n[t] == sm_at(m, r, c));
    }
    assert(p.n =~= m.n);
    assert(sm_id(d).den == 1);
    assert(sm_id(d).dim == d);
    assert(p.den == m.den * sm_id(d).den);
    assert(p.dim == m.dim && p.den == m.den);
    assert(p =~= m);
}

/// Multiplying by the identity on the left changes nothing.
pub proof fn lemma_mul_identity_left(m: SMat)
    requires
        sm_wf(m),
    ensures
        sm_mul(sm_id(m.dim), m) =~= m,
{
    let d = m.dim;
    assert(d * d >= 4) by (nonlinear_arith)
        requires
            d >= 2,
    ;
    let p = sm_mul(sm_id(d), m);
    assert forall|t: int| 0 <= t < d * d implies p.n[t] == m.n[t] by {
        lemma_index_rc(d, t);
        let r = t / d;
        let c = t % d;
        assert forall|k: int| 0 <= k < d implies sm_at(sm_id(d), r, k) == (if r == k {
            1int
        } else {
            0int
        }) by {
            lemma_flat_index(d, r, k);
        }
        lemma_flat_index(d, r, c);
        assert(p.n[t] == sm_at(m, r, c));
    }
    assert(p.n =~= m.n);
    assert(sm_id(d).den == 1);
    assert(sm_id(d).dim == d);
    assert(p.den == sm_id(d).den * m.den);
    assert(p.dim == m.dim && p.den == m.den);
    assert(p =~= m);
}

/// Identity law: a matrix is unchanged by multiplication with the identity,
/// on either side.
pub proof fn lemma_identity_law(m: SMat)
    requires
        sm_wf(m),
    ensures
        sm_mul(m, sm_id(m.dim)) =~= m,
        sm_mul(sm_id(m.dim), m) =~= m,
{
    lemma_mul_identity_right(m);
    lemma_mul_identity_left(m);
}

} // verus!
