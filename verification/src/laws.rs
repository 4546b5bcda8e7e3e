//! The algebraic laws of the kernel, proved once and for all over the
//! mathematical model [`Coeffs`], with no bounds on the coefficients.

use vstd::prelude::*;
use vstd::arithmetic::mul::{
    group_mul_basics, group_mul_is_distributive, lemma_mul_is_associative,
    lemma_mul_is_commutative, lemma_mul_unary_negation,
};

use crate::multivector::{
    Coeffs, spec_add, spec_conjugation, spec_dual, spec_geo, spec_grade_involution,
    spec_half_pseudo_pairing, spec_inverse_aux, spec_inverse_num, spec_join,
    spec_norm_signed_square, spec_pseudoscalar_mv, spec_reversion, spec_scalar_mv, spec_scale,
    spec_single, spec_sub, spec_wedge,
};

verus! {

/// The dual is an involution: `dual(dual(a)) == a`.
pub proof fn lemma_dual_involution(a: Coeffs)
    ensures
        spec_dual(spec_dual(a)) == a,
{
}

/// The join is the dual of the outer product of the duals, with the
/// arguments swapped: `join(a, b) == dual(dual(b) ^ dual(a))`.
pub proof fn lemma_join_is_dual_of_wedge_of_duals(a: Coeffs, b: Coeffs)
    ensures
        spec_join(a, b) == spec_dual(spec_wedge(spec_dual(b), spec_dual(a))),
{
    broadcast use lemma_mul_is_commutative, group_mul_is_distributive;

}

/// The geometric product distributes over sums on the right.
pub proof fn lemma_geo_add_right(a: Coeffs, b: Coeffs, c: Coeffs)
    ensures
        spec_geo(a, spec_add(b, c)) == spec_add(spec_geo(a, b), spec_geo(a, c)),
{
    broadcast use lemma_mul_is_commutative, group_mul_is_distributive;

}

/// The geometric product distributes over sums on the left.
pub proof fn lemma_geo_add_left(a: Coeffs, b: Coeffs, c: Coeffs)
    ensures
        spec_geo(spec_add(a, b), c) == spec_add(spec_geo(a, c), spec_geo(b, c)),
{
    broadcast use lemma_mul_is_commutative, group_mul_is_distributive;

}

/// The geometric product commutes with scaling on the right.
pub proof fn lemma_geo_scale_right(a: Coeffs, b: Coeffs, t: int)
    ensures
        spec_geo(a, spec_scale(b, t)) == spec_scale(spec_geo(a, b), t),
{
    broadcast use lemma_mul_is_commutative, lemma_mul_is_associative,
        group_mul_is_distributive;

}

/// The geometric product commutes with scaling on the left.
pub proof fn lemma_geo_scale_left(a: Coeffs, b: Coeffs, t: int)
    ensures
        spec_geo(spec_scale(a, t), b) == spec_scale(spec_geo(a, b), t),
{
    broadcast use lemma_mul_is_commutative, lemma_mul_is_associative,
        group_mul_is_distributive;

}

/// Associativity of the geometric product when the middle factor is the
/// basis blade `1` itself.
proof fn lemma_geo_assoc_basis_scalar(a: Coeffs, c: Coeffs)
    ensures
        spec_geo(spec_geo(a, spec_single(0, 1)), c) == spec_geo(
            a,
            spec_geo(spec_single(0, 1), c),
        ),
{
    broadcast use group_mul_basics, lemma_mul_unary_negation;

    let m = spec_geo(a, spec_single(0, 1));
    let n = spec_geo(spec_single(0, 1), c);
    assert(m.s == a.s);
    assert(m.e0 == a.e0);
    assert(m.e1 == a.e1);
    assert(m.e2 == a.e2);
    assert(m.e01 == a.e01);
    assert(m.e20 == a.e20);
    assert(m.e12 == a.e12);
    assert(m.e012 == a.e012);
    assert(n.s == c.s);
    assert(n.e0 == c.e0);
    assert(n.e1 == c.e1);
    assert(n.e2 == c.e2);
    assert(n.e01 == c.e01);
    assert(n.e20 == c.e20);
    assert(n.e12 == c.e12);
    assert(n.e012 == c.e012);
    assert(spec_geo(m, c).s == spec_geo(a, n).s);
    assert(spec_geo(m, c).e0 == spec_geo(a, n).e0);
    assert(spec_geo(m, c).e1 == spec_geo(a, n).e1);
    assert(spec_geo(m, c).e2 == spec_geo(a, n).e2);
    assert(spec_geo(m, c).e01 == spec_geo(a, n).e01);
    assert(spec_geo(m, c).e20 == spec_geo(a, n).e20);
    assert(spec_geo(m, c).e12 == spec_geo(a, n).e12);
    assert(spec_geo(m, c).e012 == spec_geo(a, n).e012);
}

/// Associativity of the geometric product when the middle factor is the
/// basis blade `e0` itself.
proof fn lemma_geo_assoc_basis_e0(a: Coeffs, c: Coeffs)
    ensures
        spec_geo(spec_geo(a, spec_single(1, 1)), c) == spec_geo(
            a,
            spec_geo(spec_single(1, 1), c),
        ),
{
    broadcast use group_mul_basics, lemma_mul_unary_negation;

    let m = spec_geo(a, spec_single(1, 1));
    let n = spec_geo(spec_single(1, 1), c);
    assert(m.s == 0);
    assert(m.e0 == a.s);
    assert(m.e1 == 0);
    assert(m.e2 == 0);
    assert(m.e01 == -a.e1);
    assert(m.e20 == a.e2);
    assert(m.e12 == 0);
    assert(m.e012 == a.e12);
    assert(n.s == 0);
    assert(n.e0 == c.s);
    assert(n.e1 == 0);
    assert(n.e2 == 0);
    assert(n.e01 == c.e1);
    assert(n.e20 == -c.e2);
    assert(n.e12 == 0);
    assert(n.e012 == c.e12);
    assert(spec_geo(m, c).s == spec_geo(a, n).s);
    assert(spec_geo(m, c).e0 == spec_geo(a, n).e0);
    assert(spec_geo(m, c).e1 == spec_geo(a, n).e1);
    assert(spec_geo(m, c).e2 == spec_geo(a, n).e2);
    assert(spec_geo(m, c).e01 == spec_geo(a, n).e01);
    assert(spec_geo(m, c).e20 == spec_geo(a, n).e20);
    assert(spec_geo(m, c).e12 == spec_geo(a, n).e12);
    assert(spec_geo(m, c).e012 == spec_geo(a, n).e012);
}

/// Associativity of the geometric product when the middle factor is the
/// basis blade `e1` itself.
proof fn lemma_geo_assoc_basis_e1(a: Coeffs, c: Coeffs)
    ensures
        spec_geo(spec_geo(a, spec_single(2, 1)), c) == spec_geo(
            a,
            spec_geo(spec_single(2, 1), c),
        ),
{
    broadcast use group_mul_basics, lemma_mul_unary_negation;

    let m = spec_geo(a, spec_single(2, 1));
    let n = spec_geo(spec_single(2, 1), c);
    assert(m.s == a.e1);
    assert(m.e0 == a.e01);
    assert(m.e1 == a.s);
    assert(m.e2 == -a.e12);
    assert(m.e01 == a.e0);
    assert(m.e20 == a.e012);
    assert(m.e12 == -a.e2);
    assert(m.e012 == a.e20);
    assert(n.s == c.e1);
    assert(n.e0 == -c.e01);
    assert(n.e1 == c.s);
    assert(n.e2 == c.e12);
    assert(n.e01 == -c.e0);
    assert(n.e20 == c.e012);
    assert(n.e12 == c.e2);
    assert(n.e012 == c.e20);
    assert(spec_geo(m, c).s == spec_geo(a, n).s);
    assert(spec_geo(m, c).e0 == spec_geo(a, n).e0);
    assert(spec_geo(m, c).e1 == spec_geo(a, n).e1);
    assert(spec_geo(m, c).e2 == spec_geo(a, n).e2);
    assert(spec_geo(m, c).e01 == spec_geo(a, n).e01);
    assert(spec_geo(m, c).e20 == spec_geo(a, n).e20);
    assert(spec_geo(m, c).e12 == spec_geo(a, n).e12);
    assert(spec_geo(m, c).e012 == spec_geo(a, n).e012);
}

/// Associativity of the geometric product when the middle factor is the
/// basis blade `e2` itself.
proof fn lemma_geo_assoc_basis_e2(a: Coeffs, c: Coeffs)
    ensures
        spec_geo(spec_geo(a, spec_single(3, 1)), c) == spec_geo(
            a,
            spec_geo(spec_single(3, 1), c),
        ),
{
    broadcast use group_mul_basics, lemma_mul_unary_negation;

    let m = spec_geo(a, spec_single(3, 1));
    let n = spec_geo(spec_single(3, 1), c);
    assert(m.s == a.e2);
    assert(m.e0 == -a.e20);
    assert(m.e1 == a.e12);
    assert(m.e2 == a.s);
    assert(m.e01 == a.e012);
    assert(m.e20 == -a.e0);
    assert(m.e12 == a.e1);
    assert(m.e012 == a.e01);
    assert(n.s == c.e2);
    assert(n.e0 == c.e20);
    assert(n.e1 == -c.e12);
    assert(n.e2 == c.s);
    assert(n.e01 == c.e012);
    assert(n.e20 == c.e0);
    assert(n.e12 == -c.e1);
    assert(n.e012 == c.e01);
    assert(spec_geo(m, c).s == spec_geo(a, n).s);
    assert(spec_geo(m, c).e0 == spec_geo(a, n).e0);
    assert(spec_geo(m, c).e1 == spec_geo(a, n).e1);
    assert(spec_geo(m, c).e2 == spec_geo(a, n).e2);
    assert(spec_geo(m, c).e01 == spec_geo(a, n).e01);
    assert(spec_geo(m, c).e20 == spec_geo(a, n).e20);
    assert(spec_geo(m, c).e12 == spec_geo(a, n).e12);
    assert(spec_geo(m, c).e012 == spec_geo(a, n).e012);
}

/// Associativity of the geometric product when the middle factor is the
/// basis blade `e01` itself.
proof fn lemma_geo_assoc_basis_e01(a: Coeffs, c: Coeffs)
    ensures
        spec_geo(spec_geo(a, spec_single(4, 1)), c) == spec_geo(
            a,
            spec_geo(spec_single(4, 1), c),
        ),
{
    broadcast use group_mul_basics, lemma_mul_unary_negation;

    let m = spec_geo(a, spec_single(4, 1));
    let n = spec_geo(spec_single(4, 1), c);
    assert(m.s == 0);
    assert(m.e0 == -a.e1);
    assert(m.e1 == 0);
    assert(m.e2 == 0);
    assert(m.e01 == a.s);
    assert(m.e20 == a.e12);
    assert(m.e12 == 0);
    assert(m.e012 == a.e2);
    assert(n.s == 0);
    assert(n.e0 == c.e1);
    assert(n.e1 == 0);
    assert(n.e2 == 0);
    assert(n.e01 == c.s);
    assert(n.e20 == -c.e12);
    assert(n.e12 == 0);
    assert(n.e012 == c.e2);
    assert(spec_geo(m, c).s == spec_geo(a, n).s);
    assert(spec_geo(m, c).e0 == spec_geo(a, n).e0);
    assert(spec_geo(m, c).e1 == spec_geo(a, n).e1);
    assert(spec_geo(m, c).e2 == spec_geo(a, n).e2);
    assert(spec_geo(m, c).e01 == spec_geo(a, n).e01);
    assert(spec_geo(m, c).e20 == spec_geo(a, n).e20);
    assert(spec_geo(m, c).e12 == spec_geo(a, n).e12);
    assert(spec_geo(m, c).e012 == spec_geo(a, n).e012);
}

/// Associativity of the geometric product when the middle factor is the
/// basis blade `e20` itself.
proof fn lemma_geo_assoc_basis_e20(a: Coeffs, c: Coeffs)
    ensures
        spec_geo(spec_geo(a, spec_single(5, 1)), c) == spec_geo(
            a,
            spec_geo(spec_single(5, 1), c),
        ),
{
    broadcast use group_mul_basics, lemma_mul_unary_negation;

    let m = spec_geo(a, spec_single(5, 1));
    let n = spec_geo(spec_single(5, 1), c);
    assert(m.s == 0);
    assert(m.e0 == a.e2);
    assert(m.e1 == 0);
    assert(m.e2 == 0);
    assert(m.e01 == -a.e12);
    assert(m.e20 == a.s);
    assert(m.e12 == 0);
    assert(m.e012 == a.e1);
    assert(n.s == 0);
    assert(n.e0 == -c.e2);
    assert(n.e1 == 0);
    assert(n.e2 == 0);
    assert(n.e01 == c.e12);
    assert(n.e20 == c.s);
    assert(n.e12 == 0);
    assert(n.e012 == c.e1);
    assert(spec_geo(m, c).s == spec_geo(a, n).s);
    assert(spec_geo(m, c).e0 == spec_geo(a, n).e0);
    assert(spec_geo(m, c).e1 == spec_geo(a, n).e1);
    assert(spec_geo(m, c).e2 == spec_geo(a, n).e2);
    assert(spec_geo(m, c).e01 == spec_geo(a, n).e01);
    assert(spec_geo(m, c).e20 == spec_geo(a, n).e20);
    assert(spec_geo(m, c).e12 == spec_geo(a, n).e12);
    assert(spec_geo(m, c).e012 == spec_geo(a, n).e012);
}

/// Associativity of the geometric product when the middle factor is the
/// basis blade `e12` itself.
proof fn lemma_geo_assoc_basis_e12(a: Coeffs, c: Coeffs)
    ensures
        spec_geo(spec_geo(a, spec_single(6, 1)), c) == spec_geo(
            a,
            spec_geo(spec_single(6, 1), c),
        ),
{
    broadcast use group_mul_basics, lemma_mul_unary_negation;

    let m = spec_geo(a, spec_single(6, 1));
    let n = spec_geo(spec_single(6, 1), c);
    assert(m.s == -a.e12);
    assert(m.e0 == -a.e012);
    assert(m.e1 == -a.e2);
    assert(m.e2 == a.e1);
    assert(m.e01 == a.e20);
    assert(m.e20 == -a.e01);
    assert(m.e12 == a.s);
    assert(m.e012 == a.e0);
    assert(n.s == -c.e12);
    assert(n.e0 == -c.e012);
    assert(n.e1 == c.e2);
    assert(n.e2 == -c.e1);
    assert(n.e01 == -c.e20);
    assert(n.e20 == c.e01);
    assert(n.e12 == c.s);
    assert(n.e012 == c.e0);
    assert(spec_geo(m, c).s == spec_geo(a, n).s);
    assert(spec_geo(m, c).e0 == spec_geo(a, n).e0);
    assert(spec_geo(m, c).e1 == spec_geo(a, n).e1);
    assert(spec_geo(m, c).e2 == spec_geo(a, n).e2);
    assert(spec_geo(m, c).e01 == spec_geo(a, n).e01);
    assert(spec_geo(m, c).e20 == spec_geo(a, n).e20);
    assert(spec_geo(m, c).e12 == spec_geo(a, n).e12);
    assert(spec_geo(m, c).e012 == spec_geo(a, n).e012);
}

/// Associativity of the geometric product when the middle factor is the
/// basis blade `e012` itself.
proof fn lemma_geo_assoc_basis_e012(a: Coeffs, c: Coeffs)
    ensures
        spec_geo(spec_geo(a, spec_single(7, 1)), c) == spec_geo(
            a,
            spec_geo(spec_single(7, 1), c),
        ),
{
    broadcast use group_mul_basics, lemma_mul_unary_negation;

    let m = spec_geo(a, spec_single(7, 1));
    let n = spec_geo(spec_single(7, 1), c);
    assert(m.s == 0);
    assert(m.e0 == -a.e12);
    assert(m.e1 == 0);
    assert(m.e2 == 0);
    assert(m.e01 == a.e2);
    assert(m.e20 == a.e1);
    assert(m.e12 == 0);
    assert(m.e012 == a.s);
    assert(n.s == 0);
    assert(n.e0 == -c.e12);
    assert(n.e1 == 0);
    assert(n.e2 == 0);
    assert(n.e01 == c.e2);
    assert(n.e20 == c.e1);
    assert(n.e12 == 0);
    assert(n.e012 == c.s);
    assert(spec_geo(m, c).s == spec_geo(a, n).s);
    assert(spec_geo(m, c).e0 == spec_geo(a, n).e0);
    assert(spec_geo(m, c).e1 == spec_geo(a, n).e1);
    assert(spec_geo(m, c).e2 == spec_geo(a, n).e2);
    assert(spec_geo(m, c).e01 == spec_geo(a, n).e01);
    assert(spec_geo(m, c).e20 == spec_geo(a, n).e20);
    assert(spec_geo(m, c).e12 == spec_geo(a, n).e12);
    assert(spec_geo(m, c).e012 == spec_geo(a, n).e012);
}

/// Associativity of the geometric product when the middle factor is a
/// multiple of the basis blade `1`.
proof fn lemma_geo_assoc_single_scalar(a: Coeffs, t: int, c: Coeffs)
    ensures
        spec_geo(spec_geo(a, spec_single(0, t)), c) == spec_geo(
            a,
            spec_geo(spec_single(0, t), c),
        ),
{
    let e = spec_single(0, 1);
    assert(spec_single(0, t) == spec_scale(e, t));
    lemma_geo_scale_right(a, e, t);
    lemma_geo_scale_left(spec_geo(a, e), c, t);
    lemma_geo_assoc_basis_scalar(a, c);
    lemma_geo_scale_left(e, c, t);
    lemma_geo_scale_right(a, spec_geo(e, c), t);
}

/// Associativity of the geometric product when the middle factor is a
/// multiple of the basis blade `e0`.
proof fn lemma_geo_assoc_single_e0(a: Coeffs, t: int, c: Coeffs)
    ensures
        spec_geo(spec_geo(a, spec_single(1, t)), c) == spec_geo(
            a,
            spec_geo(spec_single(1, t), c),
        ),
{
    let e = spec_single(1, 1);
    assert(spec_single(1, t) == spec_scale(e, t));
    lemma_geo_scale_right(a, e, t);
    lemma_geo_scale_left(spec_geo(a, e), c, t);
    lemma_geo_assoc_basis_e0(a, c);
    lemma_geo_scale_left(e, c, t);
    lemma_geo_scale_right(a, spec_geo(e, c), t);
}

/// Associativity of the geometric product when the middle factor is a
/// multiple of the basis blade `e1`.
proof fn lemma_geo_assoc_single_e1(a: Coeffs, t: int, c: Coeffs)
    ensures
        spec_geo(spec_geo(a, spec_single(2, t)), c) == spec_geo(
            a,
            spec_geo(spec_single(2, t), c),
        ),
{
    let e = spec_single(2, 1);
    assert(spec_single(2, t) == spec_scale(e, t));
    lemma_geo_scale_right(a, e, t);
    lemma_geo_scale_left(spec_geo(a, e), c, t);
    lemma_geo_assoc_basis_e1(a, c);
    lemma_geo_scale_left(e, c, t);
    lemma_geo_scale_right(a, spec_geo(e, c), t);
}

/// Associativity of the geometric product when the middle factor is a
/// multiple of the basis blade `e2`.
proof fn lemma_geo_assoc_single_e2(a: Coeffs, t: int, c: Coeffs)
    ensures
        spec_geo(spec_geo(a, spec_single(3, t)), c) == spec_geo(
            a,
            spec_geo(spec_single(3, t), c),
        ),
{
    let e = spec_single(3, 1);
    assert(spec_single(3, t) == spec_scale(e, t));
    lemma_geo_scale_right(a, e, t);
    lemma_geo_scale_left(spec_geo(a, e), c, t);
    lemma_geo_assoc_basis_e2(a, c);
    lemma_geo_scale_left(e, c, t);
    lemma_geo_scale_right(a, spec_geo(e, c), t);
}

/// Associativity of the geometric product when the middle factor is a
/// multiple of the basis blade `e01`.
proof fn lemma_geo_assoc_single_e01(a: Coeffs, t: int, c: Coeffs)
    ensures
        spec_geo(spec_geo(a, spec_single(4, t)), c) == spec_geo(
            a,
            spec_geo(spec_single(4, t), c),
        ),
{
    let e = spec_single(4, 1);
    assert(spec_single(4, t) == spec_scale(e, t));
    lemma_geo_scale_right(a, e, t);
    lemma_geo_scale_left(spec_geo(a, e), c, t);
    lemma_geo_assoc_basis_e01(a, c);
    lemma_geo_scale_left(e, c, t);
    lemma_geo_scale_right(a, spec_geo(e, c), t);
}

/// Associativity of the geometric product when the middle factor is a
/// multiple of the basis blade `e20`.
proof fn lemma_geo_assoc_single_e20(a: Coeffs, t: int, c: Coeffs)
    ensures
        spec_geo(spec_geo(a, spec_single(5, t)), c) == spec_geo(
            a,
            spec_geo(spec_single(5, t), c),
        ),
{
    let e = spec_single(5, 1);
    assert(spec_single(5, t) == spec_scale(e, t));
    lemma_geo_scale_right(a, e, t);
    lemma_geo_scale_left(spec_geo(a, e), c, t);
    lemma_geo_assoc_basis_e20(a, c);
    lemma_geo_scale_left(e, c, t);
    lemma_geo_scale_right(a, spec_geo(e, c), t);
}

/// Associativity of the geometric product when the middle factor is a
/// multiple of the basis blade `e12`.
proof fn lemma_geo_assoc_single_e12(a: Coeffs, t: int, c: Coeffs)
    ensures
        spec_geo(spec_geo(a, spec_single(6, t)), c) == spec_geo(
            a,
            spec_geo(spec_single(6, t), c),
        ),
{
    let e = spec_single(6, 1);
    assert(spec_single(6, t) == spec_scale(e, t));
    lemma_geo_scale_right(a, e, t);
    lemma_geo_scale_left(spec_geo(a, e), c, t);
    lemma_geo_assoc_basis_e12(a, c);
    lemma_geo_scale_left(e, c, t);
    lemma_geo_scale_right(a, spec_geo(e, c), t);
}

/// Associativity of the geometric product when the middle factor is a
/// multiple of the basis blade `e012`.
proof fn lemma_geo_assoc_single_e012(a: Coeffs, t: int, c: Coeffs)
    ensures
        spec_geo(spec_geo(a, spec_single(7, t)), c) == spec_geo(
            a,
            spec_geo(spec_single(7, t), c),
        ),
{
    let e = spec_single(7, 1);
    assert(spec_single(7, t) == spec_scale(e, t));
    lemma_geo_scale_right(a, e, t);
    lemma_geo_scale_left(spec_geo(a, e), c, t);
    lemma_geo_assoc_basis_e012(a, c);
    lemma_geo_scale_left(e, c, t);
    lemma_geo_scale_right(a, spec_geo(e, c), t);
}

/// The geometric product is associative: `(a * b) * c == a * (b * c)`.
///
/// The proof splits the middle factor into its 8 blade components, settles
/// each component separately, and reassembles by bilinearity.
pub proof fn lemma_geo_associative(a: Coeffs, b: Coeffs, c: Coeffs)
    ensures
        spec_geo(spec_geo(a, b), c) == spec_geo(a, spec_geo(b, c)),
{
    let b0 = spec_single(0, b.s);
    let b1 = spec_single(1, b.e0);
    let b2 = spec_single(2, b.e1);
    let b3 = spec_single(3, b.e2);
    let b4 = spec_single(4, b.e01);
    let b5 = spec_single(5, b.e20);
    let b6 = spec_single(6, b.e12);
    let b7 = spec_single(7, b.e012);
    let r7 = b7;
    let r6 = spec_add(b6, r7);
    let r5 = spec_add(b5, r6);
    let r4 = spec_add(b4, r5);
    let r3 = spec_add(b3, r4);
    let r2 = spec_add(b2, r3);
    let r1 = spec_add(b1, r2);
    let r0 = spec_add(b0, r1);
    assert(b == r0);

    // the left-hand side, pushed through the decomposition
    lemma_geo_add_right(a, b0, r1);
    lemma_geo_add_right(a, b1, r2);
    lemma_geo_add_right(a, b2, r3);
    lemma_geo_add_right(a, b3, r4);
    lemma_geo_add_right(a, b4, r5);
    lemma_geo_add_right(a, b5, r6);
    lemma_geo_add_right(a, b6, r7);
    let ga0 = spec_geo(a, b0);
    let ga1 = spec_geo(a, b1);
    let ga2 = spec_geo(a, b2);
    let ga3 = spec_geo(a, b3);
    let ga4 = spec_geo(a, b4);
    let ga5 = spec_geo(a, b5);
    let ga6 = spec_geo(a, b6);
    let ga7 = spec_geo(a, b7);
    let s7 = ga7;
    let s6 = spec_add(ga6, s7);
    let s5 = spec_add(ga5, s6);
    let s4 = spec_add(ga4, s5);
    let s3 = spec_add(ga3, s4);
    let s2 = spec_add(ga2, s3);
    let s1 = spec_add(ga1, s2);
    let s0 = spec_add(ga0, s1);
    assert(spec_geo(a, b) == s0);
    lemma_geo_add_left(ga0, s1, c);
    lemma_geo_add_left(ga1, s2, c);
    lemma_geo_add_left(ga2, s3, c);
    lemma_geo_add_left(ga3, s4, c);
    lemma_geo_add_left(ga4, s5, c);
    lemma_geo_add_left(ga5, s6, c);
    lemma_geo_add_left(ga6, s7, c);

    // the right-hand side, pushed through the decomposition
    lemma_geo_add_left(b0, r1, c);
    lemma_geo_add_left(b1, r2, c);
    lemma_geo_add_left(b2, r3, c);
    lemma_geo_add_left(b3, r4, c);
    lemma_geo_add_left(b4, r5, c);
    lemma_geo_add_left(b5, r6, c);
    lemma_geo_add_left(b6, r7, c);
    let u0 = spec_geo(b0, c);
    let u1 = spec_geo(b1, c);
    let u2 = spec_geo(b2, c);
    let u3 = spec_geo(b3, c);
    let u4 = spec_geo(b4, c);
    let u5 = spec_geo(b5, c);
    let u6 = spec_geo(b6, c);
    let u7 = spec_geo(b7, c);
    let t7 = u7;
    let t6 = spec_add(u6, t7);
    let t5 = spec_add(u5, t6);
    let t4 = spec_add(u4, t5);
    let t3 = spec_add(u3, t4);
    let t2 = spec_add(u2, t3);
    let t1 = spec_add(u1, t2);
    let t0 = spec_add(u0, t1);
    assert(spec_geo(b, c) == t0);
    lemma_geo_add_right(a, u0, t1);
    lemma_geo_add_right(a, u1, t2);
    lemma_geo_add_right(a, u2, t3);
    lemma_geo_add_right(a, u3, t4);
    lemma_geo_add_right(a, u4, t5);
    lemma_geo_add_right(a, u5, t6);
    lemma_geo_add_right(a, u6, t7);

    // the two sides agree blade component by blade component
    lemma_geo_assoc_single_scalar(a, b.s, c);
    lemma_geo_assoc_single_e0(a, b.e0, c);
    lemma_geo_assoc_single_e1(a, b.e1, c);
    lemma_geo_assoc_single_e2(a, b.e2, c);
    lemma_geo_assoc_single_e01(a, b.e01, c);
    lemma_geo_assoc_single_e20(a, b.e20, c);
    lemma_geo_assoc_single_e12(a, b.e12, c);
    lemma_geo_assoc_single_e012(a, b.e012, c);
}


/// The geometric product of `a` with its own conjugation has only scalar and
/// pseudoscalar parts: the signed norm square and twice the pseudoscalar
/// pairing. In particular the scalar part of `a * conjugation(a)` is
/// `spec_norm_signed_square(a)`, the quantity whose square root (in absolute
/// value) is the norm.
pub proof fn lemma_geo_conjugation_structure(a: Coeffs)
    ensures
        spec_geo(a, spec_conjugation(a)) == spec_add(
            spec_scalar_mv(spec_norm_signed_square(a)),
            spec_pseudoscalar_mv(2 * spec_half_pseudo_pairing(a)),
        ),
{
    broadcast use group_mul_basics, lemma_mul_is_commutative, lemma_mul_unary_negation;

}

/// The geometric product of `a` with its polar companion is purely
/// pseudoscalar, with the signed norm square as its coefficient.
proof fn lemma_geo_inverse_aux_structure(a: Coeffs)
    ensures
        spec_geo(a, spec_inverse_aux(a)) == spec_pseudoscalar_mv(spec_norm_signed_square(a)),
{
    broadcast use group_mul_basics, lemma_mul_is_commutative, lemma_mul_unary_negation;

}

/// The geometric product distributes over differences on the right.
pub proof fn lemma_geo_sub_right(a: Coeffs, b: Coeffs, c: Coeffs)
    ensures
        spec_geo(a, spec_sub(b, c)) == spec_sub(spec_geo(a, b), spec_geo(a, c)),
{
    broadcast use lemma_mul_is_commutative, group_mul_is_distributive;

}

/// Scaling a multivector by `t` scales its signed norm square by `t * t`:
/// after dividing by the norm, the norm of any non-null multivector is 1.
pub proof fn lemma_norm_signed_square_scale(a: Coeffs, t: int)
    ensures
        spec_norm_signed_square(spec_scale(a, t)) == spec_norm_signed_square(a) * (t * t),
{
    broadcast use lemma_mul_is_commutative, lemma_mul_is_associative, group_mul_is_distributive;

}

} // verus!
