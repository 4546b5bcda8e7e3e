//! Derived geometric operations, expressed in terms of the kernel operators.
//!
//! Scaling a point or a line by a positive factor leaves the geometric object
//! it denotes unchanged, so these exact operations return their results up to
//! such a scale where the floating-point original would normalize: a caller
//! that needs unit-norm data divides by the norm itself. Contracts state the
//! exact coefficients of every result.

use vstd::prelude::*;

use crate::multivector::{
    Coeffs, Multivector, lemma_mul_bound, lemma_product_ops_bounded, lemma_scale_bounded,
    spec_add, spec_bounded, spec_geo, spec_inner, spec_point, spec_scale, spec_wedge,
    LINEAR_ARG_BOUND, PRODUCT_ARG_BOUND,
};

verus! {

/// Coefficients this large are accepted by the operations that chain two
/// bilinear products ([`project`] and [`reflect`]).
pub const CHAIN_ARG_BOUND: i64 = 10_000;

/// The midpoint of `a` and `b`, up to the positive scale `|w(a) * w(b)|`:
/// each point is brought to the other's weight before summing. When either
/// point is ideal (weight zero), normalization passes it through unchanged
/// and the result is the plain sum.
pub open spec fn spec_midpoint(a: Coeffs, b: Coeffs) -> Coeffs {
    if a.e12 != 0 && b.e12 != 0 {
        spec_add(
            spec_scale(a, if b.e12 < 0 {
                -b.e12
            } else {
                b.e12
            }),
            spec_scale(b, if a.e12 < 0 {
                -a.e12
            } else {
                a.e12
            }),
        )
    } else {
        spec_add(a, b)
    }
}

/// The result of translating `a` by `<dx, dy>`: the sandwich
/// `T * a * conjugation(T)` with the translator `T = 1 + 0.5 * ideal(dx, -dy)`,
/// whose half coefficients cancel exactly.
pub open spec fn spec_translate(a: Coeffs, dx: int, dy: int) -> Coeffs {
    Coeffs {
        s: a.s,
        e0: a.e0 - a.e1 * dy - a.e2 * dx,
        e1: a.e1,
        e2: a.e2,
        e01: a.e01 + a.e12 * dx,
        e20: a.e20 + a.e12 * dy,
        e12: a.e12,
        e012: a.e012,
    }
}

/// Intersect two lines by taking their wedge (outer) product: the "meet".
/// This works even if the lines are parallel: the result is then an ideal
/// point (a point at infinity, weight `e12 == 0`).
pub fn intersect_lines(l1: &Multivector, l2: &Multivector) -> (r: Multivector)
    requires
        spec_bounded(l1@, PRODUCT_ARG_BOUND as int),
        spec_bounded(l2@, PRODUCT_ARG_BOUND as int),
    ensures
        r@ == spec_wedge(l1@, l2@),
{
    l1.outer_product(l2)
}

/// The line through point `p` orthogonal to line `l`: the inner product
/// `p | l`. The line is oriented from `p` towards `l`; swapping the
/// arguments flips the orientation.
pub fn orthogonal(p: &Multivector, l: &Multivector) -> (r: Multivector)
    requires
        spec_bounded(p@, PRODUCT_ARG_BOUND as int),
        spec_bounded(l@, PRODUCT_ARG_BOUND as int),
    ensures
        r@ == spec_inner(p@, l@),
{
    p.inner_product(l)
}

/// The pseudoscalar coefficient of `p ^ l`. For a unit point and a unit line
/// this is the signed distance from the point to the line; in general it
/// differs from it by the positive factor `|w(p)| * norm(l)`, so its sign and
/// its zero set (incidence) are exact.
pub fn dist_point_to_line(p: &Multivector, l: &Multivector) -> (r: i64)
    requires
        spec_bounded(p@, PRODUCT_ARG_BOUND as int),
        spec_bounded(l@, PRODUCT_ARG_BOUND as int),
    ensures
        r == spec_wedge(p@, l@).e012,
{
    let w = p.outer_product(l);
    w.e012()
}

/// Projects multivector `a` onto multivector `b`: the product `(a | b) * b`.
/// With a point and a line, the result is the point on the line closest to
/// the point; with a line and a point, the line through the point parallel
/// to the original.
pub fn project(a: &Multivector, b: &Multivector) -> (r: Multivector)
    requires
        spec_bounded(a@, CHAIN_ARG_BOUND as int),
        spec_bounded(b@, CHAIN_ARG_BOUND as int),
    ensures
        r@ == spec_geo(spec_inner(a@, b@), b@),
{
    proof {
        lemma_product_ops_bounded(a@, b@, CHAIN_ARG_BOUND as int);
    }
    let m = a.inner_product(b);
    m.geometric_product(b)
}

/// Reflects the multivector `a` across the multivector `b`: the sandwich
/// `b * a * b`. For a point `a` and a line `b`, the result is the point
/// mirrored across the line.
pub fn reflect(a: &Multivector, b: &Multivector) -> (r: Multivector)
    requires
        spec_bounded(a@, CHAIN_ARG_BOUND as int),
        spec_bounded(b@, CHAIN_ARG_BOUND as int),
    ensures
        r@ == spec_geo(spec_geo(b@, a@), b@),
{
    proof {
        lemma_product_ops_bounded(b@, a@, CHAIN_ARG_BOUND as int);
    }
    let m = b.geometric_product(a);
    m.geometric_product(b)
}

/// The midpoint of two points, up to the positive scale `|w(p1) * w(p2)|`
/// (see [`spec_midpoint`]): each point is scaled by the absolute weight of
/// the other, which equals normalizing both before summing and then scaling.
pub fn midpoint(p1: &Multivector, p2: &Multivector) -> (r: Multivector)
    requires
        spec_bounded(p1@, PRODUCT_ARG_BOUND as int),
        spec_bounded(p2@, PRODUCT_ARG_BOUND as int),
    ensures
        r@ == spec_midpoint(p1@, p2@),
{
    let w1 = p1.e12();
    let w2 = p2.e12();
    if w1 != 0 && w2 != 0 {
        let s1: i64 = if w2 < 0 {
            -w2
        } else {
            w2
        };
        let s2: i64 = if w1 < 0 {
            -w1
        } else {
            w1
        };
        let a = p1.scaled(s1);
        let b = p2.scaled(s2);
        proof {
            lemma_scale_bounded(p1@, s1 as int, PRODUCT_ARG_BOUND as int, PRODUCT_ARG_BOUND as int);
            lemma_scale_bounded(p2@, s2 as int, PRODUCT_ARG_BOUND as int, PRODUCT_ARG_BOUND as int);
        }
        a.add(&b)
    } else {
        p1.add(p2)
    }
}

/// One of the two angle bisectors of two lines: their sum. The inputs are
/// taken as already normalized (unit lines); for unnormalized lines the
/// result is a bisector only up to that normalization, which the
/// floating-point front end performs. When `l2 == -l1` (the same line with
/// opposite orientation) the result is the zero multivector, which the
/// caller must detect: see
/// [`crate::axioms::lemma_axiom_3_opposite_orientation_degenerate`].
pub fn bisector(l1: &Multivector, l2: &Multivector) -> (r: Multivector)
    requires
        spec_bounded(l1@, LINEAR_ARG_BOUND as int),
        spec_bounded(l2@, LINEAR_ARG_BOUND as int),
    ensures
        r@ == spec_add(l1@, l2@),
{
    l1.add(l2)
}

/// Translates the multivector by `<x, y>` units: the sandwich product
/// `T * m * conjugation(T)` with the translator `T = 1 + 0.5 * ideal(x, -y)`.
/// The halves cancel, so the result is exact; its closed form is
/// [`spec_translate`].
pub fn translate(m: &Multivector, x: i64, y: i64) -> (r: Multivector)
    requires
        spec_bounded(m@, PRODUCT_ARG_BOUND as int),
        -PRODUCT_ARG_BOUND <= x <= PRODUCT_ARG_BOUND,
        -PRODUCT_ARG_BOUND <= y <= PRODUCT_ARG_BOUND,
    ensures
        r@ == spec_translate(m@, x as int, y as int),
{
    proof {
        let b: int = PRODUCT_ARG_BOUND as int;
        lemma_mul_bound(b, b, m@.e1, y as int);
        lemma_mul_bound(b, b, m@.e2, x as int);
        lemma_mul_bound(b, b, m@.e12, x as int);
        lemma_mul_bound(b, b, m@.e12, y as int);
    }
    Multivector {
        c0: m.c0,
        c1: m.c1 - m.c2 * y - m.c3 * x,
        c2: m.c2,
        c3: m.c3,
        c4: m.c4 + m.c6 * x,
        c5: m.c5 + m.c6 * y,
        c6: m.c6,
        c7: m.c7,
    }
}

/// The translator built from `<dx, dy>` moves a Euclidean point orthogonally
/// to the ideal direction `(dx, -dy)`, that is, by `<dy, dx>`: a point
/// `<px, py>` becomes `<px + dy, py + dx>`.
pub proof fn lemma_translate_point(px: int, py: int, dx: int, dy: int)
    ensures
        spec_translate(spec_point(px, py), dx, dy) == spec_point(px + dy, py + dx),
{
    broadcast use vstd::arithmetic::mul::group_mul_basics;

}

} // verus!
