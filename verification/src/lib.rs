//! A verified kernel for 2D projective geometric algebra (PGA), the algebra
//! R(2, 0, 1), together with the geometric constructions for single-fold
//! origami (the Huzita-Justin axioms) built on top of it.
//!
//! Coefficients are exact integers: every operation of the kernel states, per
//! basis blade, the polynomial it computes, and the algebraic laws of the
//! kernel are proved once and for all over the mathematical model. Scaling a
//! point or a line by a positive factor does not change the geometric object
//! it denotes, so the constructions return their results up to such a scale;
//! the square roots and tolerance checks that the floating-point front end
//! performs live outside this crate.

pub mod axioms;
pub mod geometry;
pub mod laws;
pub mod multivector;
