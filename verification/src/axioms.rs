//! The Huzita-Justin single-fold axioms: for given points and lines on the
//! sheet, the crease line of the fold, or an explicit absence value where no
//! fold exists.
//!
//! Every construction here is exact. A crease is a projective object: scaling
//! it by a positive factor does not change the fold, so these functions
//! return the crease up to the positive scale that the floating-point front
//! end removes when it normalizes. The two steps that are irrational over the
//! integers stay with that front end: normalizing by a square-root norm, and
//! the circle offset `sqrt(r^2 - h^2)` of the fifth axiom, whose exact
//! no-solution decision and exact construction steps live here.

use vstd::prelude::*;

use crate::geometry;
use crate::geometry::spec_midpoint;
use crate::multivector::{
    Coeffs, Multivector, lemma_bounded_products, lemma_mul_bound, lemma_product_ops_bounded,
    lemma_product_ops_bounded_asym, lemma_scale_bounded, spec_add, spec_bounded, spec_geo,
    spec_inner, spec_is_line, spec_is_point, spec_join, spec_neg, spec_scale, spec_wedge,
    spec_zero, PRODUCT_ARG_BOUND,
};

verus! {

/// Coefficients this large are accepted by the axioms whose constructions
/// chain two bilinear products (`axiom_2`, and the fifth axiom's pieces).
pub const AXIOM_ARG_BOUND: i64 = 10_000;

/// Coefficients this large are accepted by [`axiom_7`], whose construction
/// is of degree six in the inputs.
pub const AXIOM_7_ARG_BOUND: i64 = 250;

/// An operation that no solver exists for, as distinct from a fold that has
/// no solution for the given inputs.
#[derive(Clone, Copy, Debug, PartialEq, Eq, Structural)]
pub enum AxiomError {
    Unsupported,
}

/// Given two points `p0` and `p1`, there is a unique fold that passes
/// through both of them: their join, up to scale.
pub fn axiom_1(p0: &Multivector, p1: &Multivector) -> (r: Multivector)
    requires
        spec_bounded(p0@, PRODUCT_ARG_BOUND as int),
        spec_bounded(p1@, PRODUCT_ARG_BOUND as int),
    ensures
        r@ == spec_join(p0@, p1@),
{
    p0.join(p1)
}

/// Given two points `p0` and `p1`, there is a unique fold that places `p0`
/// onto `p1`: the line through their midpoint perpendicular to the line
/// through both.
pub fn axiom_2(p0: &Multivector, p1: &Multivector) -> (r: Multivector)
    requires
        spec_bounded(p0@, AXIOM_ARG_BOUND as int),
        spec_bounded(p1@, AXIOM_ARG_BOUND as int),
    ensures
        r@ == spec_inner(spec_midpoint(p0@, p1@), spec_join(p0@, p1@)),
{
    proof {
        lemma_product_ops_bounded(p0@, p1@, AXIOM_ARG_BOUND as int);
        if p0@.e12 != 0 && p1@.e12 != 0 {
            lemma_scale_bounded(
                p0@,
                if p1@.e12 < 0 {
                    -p1@.e12
                } else {
                    p1@.e12
                },
                AXIOM_ARG_BOUND as int,
                AXIOM_ARG_BOUND as int,
            );
            lemma_scale_bounded(
                p1@,
                if p0@.e12 < 0 {
                    -p0@.e12
                } else {
                    p0@.e12
                },
                AXIOM_ARG_BOUND as int,
                AXIOM_ARG_BOUND as int,
            );
        }
    }
    let l = p0.join(p1);
    let m = geometry::midpoint(p0, p1);
    m.inner_product(&l)
}

/// Given two lines `l0` and `l1`, there is a fold that places `l0` onto
/// `l1`: their angle bisector, the sum of the unit lines. The inputs are
/// taken as already normalized; when `l1 == -l0` (the same line, oppositely
/// oriented) the result is the zero multivector, which the caller must
/// detect by its vanishing norm: see
/// [`lemma_axiom_3_opposite_orientation_degenerate`].
pub fn axiom_3(l0: &Multivector, l1: &Multivector) -> (r: Multivector)
    requires
        spec_bounded(l0@, PRODUCT_ARG_BOUND as int),
        spec_bounded(l1@, PRODUCT_ARG_BOUND as int),
    ensures
        r@ == spec_add(l0@, l1@),
{
    geometry::bisector(l0, l1)
}

/// When the two lines are the same line with opposite orientations, the
/// bisector of the third axiom degenerates to the zero multivector, whose
/// norm is zero: the caller must detect and discard it.
pub proof fn lemma_axiom_3_opposite_orientation_degenerate(l: Coeffs)
    ensures
        spec_add(l, spec_neg(l)) == spec_zero(),
{
}

/// Given a point `p` and a line `l`, there is a unique fold perpendicular to
/// `l` that passes through `p`: the inner product `p | l`, up to scale.
pub fn axiom_4(p: &Multivector, l: &Multivector) -> (r: Multivector)
    requires
        spec_bounded(p@, PRODUCT_ARG_BOUND as int),
        spec_bounded(l@, PRODUCT_ARG_BOUND as int),
    ensures
        r@ == spec_inner(p@, l@),
{
    geometry::orthogonal(p, l)
}

/// The exact no-solution test of the fifth axiom, with the square roots
/// cleared: the fold placing `p0` onto line `l` through `p1` exists exactly
/// when the distance from `p1` to `l` is at most the distance from `p1` to
/// `p0`. Squaring and multiplying out the normalizations of a Euclidean
/// point pair and a non-null line turns `dist(p1, l) > dist(p0, p1)` into
/// `e * e * w0 * w0 > d * n`, with `e` the pseudoscalar of `p1 ^ l`, `w0` the
/// weight of `p0`, `d` the weight-cleared squared separation of the points,
/// and `n` the squared norm of the line.
pub open spec fn spec_axiom_5_no_solution(p0: Coeffs, p1: Coeffs, l: Coeffs) -> bool {
    let e = spec_wedge(p1, l).e012;
    let dxw = p0.e20 * p1.e12 - p1.e20 * p0.e12;
    let dyw = p0.e01 * p1.e12 - p1.e01 * p0.e12;
    let d = dxw * dxw + dyw * dyw;
    let n = l.e1 * l.e1 + l.e2 * l.e2;
    e * e * p0.e12 * p0.e12 > d * n
}

/// Decides whether the fifth axiom has a solution: whether the circle around
/// `p1` through `p0` reaches the line `l`. Returns `false` exactly on the
/// no-solution inputs of [`spec_axiom_5_no_solution`]; the fold itself needs
/// the irrational offset `sqrt(r^2 - h^2)` along the line and is assembled
/// by the floating-point front end from [`axiom_5_foot`] and
/// [`axiom_5_crease`].
pub fn axiom_5_feasible(p0: &Multivector, p1: &Multivector, l: &Multivector) -> (r: bool)
    requires
        spec_bounded(p0@, AXIOM_ARG_BOUND as int),
        spec_bounded(p1@, AXIOM_ARG_BOUND as int),
        spec_bounded(l@, AXIOM_ARG_BOUND as int),
    ensures
        r == !spec_axiom_5_no_solution(p0@, p1@, l@),
{
    let b: i64 = AXIOM_ARG_BOUND;
    proof {
        lemma_product_ops_bounded(p1@, l@, b as int);
        lemma_bounded_products(p0@, p1@, b as int, b as int);
        lemma_bounded_products(l@, l@, b as int, b as int);
    }
    let w = p1.outer_product(l);
    let e: i64 = w.e012();
    let dxw: i64 = p0.e20() * p1.e12() - p1.e20() * p0.e12();
    let dyw: i64 = p0.e01() * p1.e12() - p1.e01() * p0.e12();
    let n: i64 = l.e1() * l.e1() + l.e2() * l.e2();
    let w0: i64 = p0.e12();
    proof {
        let bb: int = b as int;
        lemma_mul_bound(2 * (bb * bb), 2 * (bb * bb), dxw as int, dxw as int);
        lemma_mul_bound(2 * (bb * bb), 2 * (bb * bb), dyw as int, dyw as int);
        lemma_mul_bound(8 * (bb * bb), 8 * (bb * bb), e as int, e as int);
        lemma_mul_bound(64 * ((bb * bb) * (bb * bb)), bb, (e * e) as int, w0 as int);
        lemma_mul_bound(64 * (((bb * bb) * (bb * bb)) * bb), bb, (e * e * w0) as int, w0 as int);
        lemma_mul_bound(
            8 * ((bb * bb) * (bb * bb)),
            2 * (bb * bb),
            (dxw * dxw + dyw * dyw) as int,
            (n) as int,
        );
    }
    let d: i64 = dxw * dxw + dyw * dyw;
    let lhs: i128 = (e as i128) * (e as i128) * (w0 as i128) * (w0 as i128);
    let rhs: i128 = (d as i128) * (n as i128);
    !(lhs > rhs)
}

/// The foot of the perpendicular from `p1` onto `l`, up to scale: the meet
/// of the perpendicular through `p1` with `l` itself. Its weight carries the
/// scale and the orientation of the two unnormalized lines; the front end
/// divides by it.
pub fn axiom_5_foot(p1: &Multivector, l: &Multivector) -> (r: Multivector)
    requires
        spec_bounded(p1@, AXIOM_ARG_BOUND as int),
        spec_bounded(l@, AXIOM_ARG_BOUND as int),
    ensures
        r@ == spec_wedge(spec_inner(p1@, l@), l@),
{
    proof {
        lemma_product_ops_bounded(p1@, l@, AXIOM_ARG_BOUND as int);
    }
    let perpendicular = geometry::orthogonal(p1, l);
    perpendicular.outer_product(l)
}

/// The crease of the fifth axiom, given the intersection point on `l` that
/// the fold sends `p0` to: the line through `p1` perpendicular to the line
/// joining that intersection with `p0`, which is the perpendicular bisector
/// of the segment from the intersection to `p0`, up to scale.
pub fn axiom_5_crease(p1: &Multivector, intersection: &Multivector, p0: &Multivector) -> (r:
    Multivector)
    requires
        spec_bounded(p1@, AXIOM_ARG_BOUND as int),
        spec_bounded(intersection@, AXIOM_ARG_BOUND as int),
        spec_bounded(p0@, AXIOM_ARG_BOUND as int),
    ensures
        r@ == spec_inner(p1@, spec_join(intersection@, p0@)),
{
    proof {
        lemma_product_ops_bounded(intersection@, p0@, AXIOM_ARG_BOUND as int);
    }
    let m = intersection.join(p0);
    geometry::orthogonal(p1, &m)
}

/// Given two points and two lines, the fold placing `p0` onto `l0` and `p1`
/// onto `l1` solves a cubic tangency problem that this kernel has no solver
/// for: the result is always the explicit unsupported value, distinct from a
/// fold with no solution.
pub fn axiom_6(p0: &Multivector, p1: &Multivector, l0: &Multivector, l1: &Multivector) -> (r:
    Result<Multivector, AxiomError>)
    ensures
        r == Err::<Multivector, AxiomError>(AxiomError::Unsupported),
{
    Err(AxiomError::Unsupported)
}

/// The meet of the line through `p` parallel to `l1` with the line `l0`,
/// before any normalization. Its weight (`e12`) is zero exactly when that
/// meet is an ideal point, that is, when no finite intersection exists.
pub open spec fn spec_axiom_7_raw(p: Coeffs, l0: Coeffs, l1: Coeffs) -> Coeffs {
    spec_wedge(spec_geo(spec_inner(l1, p), p), l0)
}

/// The weight of [`spec_axiom_7_raw`]: zero exactly when the seventh axiom
/// has no solution.
pub open spec fn spec_axiom_7_weight(p: Coeffs, l0: Coeffs, l1: Coeffs) -> int {
    spec_axiom_7_raw(p, l0, l1).e12
}

/// The midpoint of `p` and the normalized, orientation-fixed intersection
/// point, up to the positive scale `|w(p)| * |weight|`: the intersection is
/// divided by its signed weight, so the raw point is scaled by the sign of
/// the weight times `|w(p)|`, and `p` by `|weight|`.
pub open spec fn spec_axiom_7_scaled_midpoint(p: Coeffs, l0: Coeffs, l1: Coeffs) -> Coeffs {
    let raw = spec_axiom_7_raw(p, l0, l1);
    let w = raw.e12;
    let wabs = if w < 0 {
        -w
    } else {
        w
    };
    let wp = p.e12;
    let wpabs = if wp < 0 {
        -wp
    } else {
        wp
    };
    let ws = if w < 0 {
        -wpabs
    } else {
        wpabs
    };
    spec_add(spec_scale(p, wabs), spec_scale(raw, ws))
}

/// The crease of the seventh axiom, up to positive scale: the line through
/// the midpoint of `p` and the intersection point, perpendicular to `l1`.
pub open spec fn spec_axiom_7_crease(p: Coeffs, l0: Coeffs, l1: Coeffs) -> Coeffs {
    spec_inner(spec_axiom_7_scaled_midpoint(p, l0, l1), l1)
}

/// Given one point `p` and two lines `l0` and `l1`, the fold that places `p`
/// onto `l0` and is perpendicular to `l1`: project `l1` onto `p` (the line
/// through `p` parallel to `l1`), intersect with `l0`, and drop the
/// perpendicular to `l1` through the midpoint of `p` and that intersection.
/// Returns `None` exactly when the intersection is an ideal point, which for
/// a Euclidean `p` happens exactly when `l0` and `l1` are parallel: see
/// [`lemma_axiom_7_parallel_lines_have_no_solution`].
pub fn axiom_7(p: &Multivector, l0: &Multivector, l1: &Multivector) -> (r: Option<Multivector>)
    requires
        spec_bounded(p@, AXIOM_7_ARG_BOUND as int),
        spec_bounded(l0@, AXIOM_7_ARG_BOUND as int),
        spec_bounded(l1@, AXIOM_7_ARG_BOUND as int),
    ensures
        r is None <==> spec_axiom_7_weight(p@, l0@, l1@) == 0,
        r matches Some(crease) ==> crease@ == spec_axiom_7_crease(p@, l0@, l1@),
{
    let ghost b: int = AXIOM_7_ARG_BOUND as int;
    proof {
        lemma_product_ops_bounded(l1@, p@, b);
        lemma_product_ops_bounded_asym(spec_inner(l1@, p@), p@, 8 * (b * b), b);
    }
    let parallel_through_p = l1.inner_product(p);
    let shifted = parallel_through_p.geometric_product(p);
    proof {
        lemma_product_ops_bounded_asym(shifted@, l0@, 8 * (8 * (b * b)) * b, b);
    }
    let raw = shifted.outer_product(l0);
    let w = raw.e12();
    if w == 0 {
        return None;
    }
    let wabs: i64 = if w < 0 {
        -w
    } else {
        w
    };
    let wp = p.e12();
    let wpabs: i64 = if wp < 0 {
        -wp
    } else {
        wp
    };
    let ws: i64 = if w < 0 {
        -wpabs
    } else {
        wpabs
    };
    let ghost rawbound: int = 8 * (8 * (8 * (b * b)) * b) * b;
    proof {
        lemma_scale_bounded(p@, wabs as int, b, rawbound);
        lemma_scale_bounded(raw@, ws as int, rawbound, b);
    }
    let m = Multivector {
        c0: p.c0 * wabs + raw.c0 * ws,
        c1: p.c1 * wabs + raw.c1 * ws,
        c2: p.c2 * wabs + raw.c2 * ws,
        c3: p.c3 * wabs + raw.c3 * ws,
        c4: p.c4 * wabs + raw.c4 * ws,
        c5: p.c5 * wabs + raw.c5 * ws,
        c6: p.c6 * wabs + raw.c6 * ws,
        c7: p.c7 * wabs + raw.c7 * ws,
    };
    proof {
        assert(m@ == spec_axiom_7_scaled_midpoint(p@, l0@, l1@));
        lemma_bounded_products(m@, l1@, 2 * (b * rawbound), b);
    }
    let crease = Multivector {
        c0: m.c0 * l1.c0 + m.c2 * l1.c2 + m.c3 * l1.c3 - m.c6 * l1.c6,
        c1: m.c1 * l1.c0 + m.c0 * l1.c1 + m.c4 * l1.c2 - m.c5 * l1.c3 + m.c3 * l1.c5 - m.c2
            * l1.c4 - m.c7 * l1.c6 - m.c6 * l1.c7,
        c2: m.c2 * l1.c0 + m.c0 * l1.c2 + m.c6 * l1.c3 - m.c3 * l1.c6,
        c3: m.c3 * l1.c0 + m.c0 * l1.c3 - m.c6 * l1.c2 + m.c2 * l1.c6,
        c4: m.c4 * l1.c0 + m.c7 * l1.c3 + m.c0 * l1.c4 + m.c3 * l1.c7,
        c5: m.c5 * l1.c0 + m.c7 * l1.c2 + m.c0 * l1.c5 + m.c2 * l1.c7,
        c6: m.c6 * l1.c0 + m.c0 * l1.c6,
        c7: m.c7 * l1.c0 + m.c0 * l1.c7,
    };
    Some(crease)
}

/// The seventh axiom on a Euclidean point and two genuine lines returns
/// `None` whenever the lines are parallel (in either orientation): the
/// weight of the raw intersection is the cross product of the line normals
/// scaled by the square of the point's weight.
pub proof fn lemma_axiom_7_parallel_lines_have_no_solution(p: Coeffs, l0: Coeffs, l1: Coeffs)
    requires
        spec_is_point(p),
        spec_is_line(l0),
        spec_is_line(l1),
    ensures
        spec_axiom_7_weight(p, l0, l1) == (l0.e1 * l1.e2 - l0.e2 * l1.e1) * (p.e12 * p.e12),
        l0.e1 * l1.e2 - l0.e2 * l1.e1 == 0 ==> spec_axiom_7_weight(p, l0, l1) == 0,
{
    broadcast use vstd::arithmetic::mul::group_mul_basics,
        vstd::arithmetic::mul::lemma_mul_unary_negation;

    let inner = spec_inner(l1, p);
    assert(inner.e1 == -(l1.e2 * p.e12));
    assert(inner.e2 == l1.e1 * p.e12);
    assert(inner.s == 0 && inner.e12 == 0 && inner.e012 == 0);
    let sh = spec_geo(inner, p);
    assert(sh.e1 == -((l1.e1 * p.e12) * p.e12));
    assert(sh.e2 == -((l1.e2 * p.e12) * p.e12));
    assert(sh.s == 0 && sh.e12 == 0);
    assert(spec_axiom_7_weight(p, l0, l1) == sh.e1 * l0.e2 - sh.e2 * l0.e1);
    assert(-((l1.e1 * p.e12) * p.e12) * l0.e2 - (-((l1.e2 * p.e12) * p.e12)) * l0.e1 == (l0.e1
        * l1.e2 - l0.e2 * l1.e1) * (p.e12 * p.e12)) by (nonlinear_arith);
    assert((l0.e1 * l1.e2 - l0.e2 * l1.e1 == 0 ==> (l0.e1 * l1.e2 - l0.e2 * l1.e1) * (p.e12
        * p.e12) == 0)) by (nonlinear_arith);
}

} // verus!
