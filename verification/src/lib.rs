//! A verified math kernel for an educational ray tracer: exact rational
//! scalars, homogeneous-coordinate tuples, square matrices with inversion by
//! cofactor expansion, affine transform builders, and ray/sphere intersection
//! with a hit-selection rule.
//!
//! Every quantity is an exact rational: tuples and matrices store integer
//! components over a single positive denominator, so the algebraic laws of
//! the kernel (identity, inverse cancellation, and so on) hold exactly and
//! are proved, not approximated. The tolerance comparison that absorbs
//! rounding in square roots is itself an exact predicate on rationals.

pub mod coord;
pub mod intersection;
pub mod laws;
pub mod rays;
pub mod sphere;
pub mod transform;
pub mod matrix;
pub mod rat;
