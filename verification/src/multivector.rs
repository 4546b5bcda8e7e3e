//! The multivector type of 2D PGA and its operators.
//!
//! A multivector is a weighted sum of the 8 basis blades
//! `{1, e0, e1, e2, e01, e20, e12, e012}`, stored as 8 integer coefficients in
//! exactly this order. The metric is degenerate: `e0*e0 = 0`,
//! `e1*e1 = e2*e2 = 1`, and distinct generators anticommute.
//!
//! [`Coeffs`] is the mathematical model: one unbounded integer per blade. Each
//! executable operator carries an `ensures` that pins its result, coefficient
//! by coefficient, to a spec function over this model, and bounds in
//! `requires` keep the 64-bit arithmetic exact.

use vstd::prelude::*;

verus! {

/// The number of basis blades of 2D PGA (i.e. the size of the algebra).
pub const BASIS_COUNT: usize = 8;

/// Mathematical model of a multivector: the coefficient of each basis blade,
/// as an unbounded integer. The field names follow the basis order
/// `1, e0, e1, e2, e01, e20, e12, e012`; `s` is the scalar part.
pub struct Coeffs {
    pub s: int,
    pub e0: int,
    pub e1: int,
    pub e2: int,
    pub e01: int,
    pub e20: int,
    pub e12: int,
    pub e012: int,
}

/// The zero multivector.
pub open spec fn spec_zero() -> Coeffs {
    Coeffs { s: 0, e0: 0, e1: 0, e2: 0, e01: 0, e20: 0, e12: 0, e012: 0 }
}

/// A purely scalar multivector.
pub open spec fn spec_scalar_mv(t: int) -> Coeffs {
    Coeffs { s: t, e0: 0, e1: 0, e2: 0, e01: 0, e20: 0, e12: 0, e012: 0 }
}

/// A purely pseudoscalar multivector.
pub open spec fn spec_pseudoscalar_mv(t: int) -> Coeffs {
    Coeffs { s: 0, e0: 0, e1: 0, e2: 0, e01: 0, e20: 0, e12: 0, e012: t }
}


/// A multivector whose only nonzero coefficient is `t`, at blade `j`.
pub open spec fn spec_single(j: int, t: int) -> Coeffs {
    if j == 0 {
        Coeffs { s: t, ..spec_zero() }
    } else if j == 1 {
        Coeffs { e0: t, ..spec_zero() }
    } else if j == 2 {
        Coeffs { e1: t, ..spec_zero() }
    } else if j == 3 {
        Coeffs { e2: t, ..spec_zero() }
    } else if j == 4 {
        Coeffs { e01: t, ..spec_zero() }
    } else if j == 5 {
        Coeffs { e20: t, ..spec_zero() }
    } else if j == 6 {
        Coeffs { e12: t, ..spec_zero() }
    } else {
        Coeffs { e012: t, ..spec_zero() }
    }
}

/// Componentwise sum.
pub open spec fn spec_add(a: Coeffs, b: Coeffs) -> Coeffs {
    Coeffs {
        s: a.s + b.s,
        e0: a.e0 + b.e0,
        e1: a.e1 + b.e1,
        e2: a.e2 + b.e2,
        e01: a.e01 + b.e01,
        e20: a.e20 + b.e20,
        e12: a.e12 + b.e12,
        e012: a.e012 + b.e012,
    }
}

/// Componentwise difference.
pub open spec fn spec_sub(a: Coeffs, b: Coeffs) -> Coeffs {
    Coeffs {
        s: a.s - b.s,
        e0: a.e0 - b.e0,
        e1: a.e1 - b.e1,
        e2: a.e2 - b.e2,
        e01: a.e01 - b.e01,
        e20: a.e20 - b.e20,
        e12: a.e12 - b.e12,
        e012: a.e012 - b.e012,
    }
}

/// Componentwise scale by `t`.
pub open spec fn spec_scale(a: Coeffs, t: int) -> Coeffs {
    Coeffs {
        s: a.s * t,
        e0: a.e0 * t,
        e1: a.e1 * t,
        e2: a.e2 * t,
        e01: a.e01 * t,
        e20: a.e20 * t,
        e12: a.e12 * t,
        e012: a.e012 * t,
    }
}

/// Componentwise negation.
pub open spec fn spec_neg(a: Coeffs) -> Coeffs {
    Coeffs {
        s: -a.s,
        e0: -a.e0,
        e1: -a.e1,
        e2: -a.e2,
        e01: -a.e01,
        e20: -a.e20,
        e12: -a.e12,
        e012: -a.e012,
    }
}

/// The geometric product `a * b`: the bilinear extension of the basis
/// multiplication table of the metric `(+, +, 0)`.
pub open spec fn spec_geo(a: Coeffs, b: Coeffs) -> Coeffs {
    Coeffs {
        s: a.s * b.s + a.e1 * b.e1 + a.e2 * b.e2 - a.e12 * b.e12,
        e0: a.s * b.e0 + a.e0 * b.s - a.e1 * b.e01 + a.e2 * b.e20 - a.e12 * b.e012 - a.e20 * b.e2
            + a.e01 * b.e1 - a.e012 * b.e12,
        e1: a.s * b.e1 + a.e1 * b.s - a.e2 * b.e12 + a.e12 * b.e2,
        e2: a.s * b.e2 + a.e1 * b.e12 - a.e12 * b.e1 + a.e2 * b.s,
        e01: a.s * b.e01 + a.e0 * b.e1 - a.e1 * b.e0 + a.e2 * b.e012 - a.e12 * b.e20 + a.e20
            * b.e12 + a.e01 * b.s + a.e012 * b.e2,
        e20: a.s * b.e20 - a.e0 * b.e2 + a.e1 * b.e012 + a.e2 * b.e0 + a.e12 * b.e01 + a.e20 * b.s
            - a.e01 * b.e12 + a.e012 * b.e1,
        e12: a.s * b.e12 + a.e1 * b.e2 - a.e2 * b.e1 + a.e12 * b.s,
        e012: a.s * b.e012 + a.e0 * b.e12 + a.e1 * b.e20 + a.e2 * b.e01 + a.e12 * b.e0 + a.e20
            * b.e1 + a.e01 * b.e2 + a.e012 * b.s,
    }
}

/// The outer ("wedge", "meet") product `a ^ b`.
pub open spec fn spec_wedge(a: Coeffs, b: Coeffs) -> Coeffs {
    Coeffs {
        s: a.s * b.s,
        e0: a.e0 * b.s + a.s * b.e0,
        e1: a.e1 * b.s + a.s * b.e1,
        e2: a.e2 * b.s + a.s * b.e2,
        e01: a.e01 * b.s + a.e0 * b.e1 - a.e1 * b.e0 + a.s * b.e01,
        e20: a.e20 * b.s + a.e2 * b.e0 - a.e0 * b.e2 + a.s * b.e20,
        e12: a.e12 * b.s + a.e1 * b.e2 - a.e2 * b.e1 + a.s * b.e12,
        e012: a.e012 * b.s + a.e01 * b.e2 + a.e20 * b.e1 + a.e12 * b.e0 + a.e0 * b.e12 + a.e1
            * b.e20 + a.e2 * b.e01 + a.s * b.e012,
    }
}

/// The symmetric inner product `a | b`.
pub open spec fn spec_inner(a: Coeffs, b: Coeffs) -> Coeffs {
    Coeffs {
        s: a.s * b.s + a.e1 * b.e1 + a.e2 * b.e2 - a.e12 * b.e12,
        e0: a.e0 * b.s + a.s * b.e0 + a.e01 * b.e1 - a.e20 * b.e2 + a.e2 * b.e20 - a.e1 * b.e01
            - a.e012 * b.e12 - a.e12 * b.e012,
        e1: a.e1 * b.s + a.s * b.e1 + a.e12 * b.e2 - a.e2 * b.e12,
        e2: a.e2 * b.s + a.s * b.e2 - a.e12 * b.e1 + a.e1 * b.e12,
        e01: a.e01 * b.s + a.e012 * b.e2 + a.s * b.e01 + a.e2 * b.e012,
        e20: a.e20 * b.s + a.e012 * b.e1 + a.s * b.e20 + a.e1 * b.e012,
        e12: a.e12 * b.s + a.s * b.e12,
        e012: a.e012 * b.s + a.s * b.e012,
    }
}

/// The Poincare dual: reverses the coefficient order, blade `i` to `7 - i`.
pub open spec fn spec_dual(a: Coeffs) -> Coeffs {
    Coeffs {
        s: a.e012,
        e0: a.e12,
        e1: a.e20,
        e2: a.e01,
        e01: a.e2,
        e20: a.e1,
        e12: a.e0,
        e012: a.s,
    }
}

/// Clifford conjugation: negates the grade-1 and grade-2 parts.
pub open spec fn spec_conjugation(a: Coeffs) -> Coeffs {
    Coeffs {
        s: a.s,
        e0: -a.e0,
        e1: -a.e1,
        e2: -a.e2,
        e01: -a.e01,
        e20: -a.e20,
        e12: -a.e12,
        e012: a.e012,
    }
}

/// Grade involution: negates the odd (grade-1 and grade-3) parts.
pub open spec fn spec_grade_involution(a: Coeffs) -> Coeffs {
    Coeffs {
        s: a.s,
        e0: -a.e0,
        e1: -a.e1,
        e2: -a.e2,
        e01: a.e01,
        e20: a.e20,
        e12: a.e12,
        e012: -a.e012,
    }
}

/// Reversion: negates the grade-2 and grade-3 parts.
pub open spec fn spec_reversion(a: Coeffs) -> Coeffs {
    Coeffs {
        s: a.s,
        e0: a.e0,
        e1: a.e1,
        e2: a.e2,
        e01: -a.e01,
        e20: -a.e20,
        e12: -a.e12,
        e012: -a.e012,
    }
}

/// The regressive product ("join") `a & b`, in its explicit bilinear form.
/// [`crate::laws::lemma_join_is_dual_of_wedge_of_duals`] proves that it equals
/// `dual(dual(b) ^ dual(a))`.
pub open spec fn spec_join(a: Coeffs, b: Coeffs) -> Coeffs {
    Coeffs {
        s: a.s * b.e012 + a.e0 * b.e12 + a.e1 * b.e20 + a.e2 * b.e01 + a.e01 * b.e2 + a.e20 * b.e1
            + a.e12 * b.e0 + a.e012 * b.s,
        e0: a.e0 * b.e012 + a.e01 * b.e20 - a.e20 * b.e01 + a.e012 * b.e0,
        e1: a.e1 * b.e012 - a.e01 * b.e12 + a.e12 * b.e01 + a.e012 * b.e1,
        e2: a.e2 * b.e012 + a.e20 * b.e12 - a.e12 * b.e20 + a.e012 * b.e2,
        e01: a.e01 * b.e012 + a.e012 * b.e01,
        e20: a.e20 * b.e012 + a.e012 * b.e20,
        e12: a.e12 * b.e012 + a.e012 * b.e12,
        e012: a.e012 * b.e012,
    }
}

/// The signed square of the norm: the scalar part of `a * conjugation(a)`.
/// Its absolute value is the square of the norm `sqrt(|<a * conj(a)>_0|)`.
pub open spec fn spec_norm_signed_square(a: Coeffs) -> int {
    a.s * a.s - a.e1 * a.e1 - a.e2 * a.e2 + a.e12 * a.e12
}

/// The pseudoscalar part of `a * conjugation(a)`, halved; together with
/// [`spec_norm_signed_square`] it determines that whole product.
pub open spec fn spec_half_pseudo_pairing(a: Coeffs) -> int {
    a.s * a.e012 - a.e0 * a.e12 - a.e1 * a.e20 - a.e2 * a.e01
}

/// All coefficients of `a` lie in `[-b, b]`.
pub open spec fn spec_bounded(a: Coeffs, b: int) -> bool {
    &&& -b <= a.s <= b
    &&& -b <= a.e0 <= b
    &&& -b <= a.e1 <= b
    &&& -b <= a.e2 <= b
    &&& -b <= a.e01 <= b
    &&& -b <= a.e20 <= b
    &&& -b <= a.e12 <= b
    &&& -b <= a.e012 <= b
}


/// `|x * y| <= b1 * b2` when `|x| <= b1` and `|y| <= b2`.
pub proof fn lemma_mul_bound(b1: int, b2: int, x: int, y: int)
    by (nonlinear_arith)
    requires
        0 <= b1,
        0 <= b2,
        -b1 <= x <= b1,
        -b2 <= y <= b2,
    ensures
        -(b1 * b2) <= x * y <= b1 * b2,
{
}
/// Bounds every pairwise product of the coefficients of `a` and `b`.
pub proof fn lemma_bounded_products(a: Coeffs, b: Coeffs, b1: int, b2: int)
    requires
        0 <= b1,
        0 <= b2,
        spec_bounded(a, b1),
        spec_bounded(b, b2),
    ensures
        -(b1 * b2) <= a.s * b.s <= b1 * b2,
        -(b1 * b2) <= a.s * b.e0 <= b1 * b2,
        -(b1 * b2) <= a.s * b.e1 <= b1 * b2,
        -(b1 * b2) <= a.s * b.e2 <= b1 * b2,
        -(b1 * b2) <= a.s * b.e01 <= b1 * b2,
        -(b1 * b2) <= a.s * b.e20 <= b1 * b2,
        -(b1 * b2) <= a.s * b.e12 <= b1 * b2,
        -(b1 * b2) <= a.s * b.e012 <= b1 * b2,
        -(b1 * b2) <= a.e0 * b.s <= b1 * b2,
        -(b1 * b2) <= a.e0 * b.e0 <= b1 * b2,
        -(b1 * b2) <= a.e0 * b.e1 <= b1 * b2,
        -(b1 * b2) <= a.e0 * b.e2 <= b1 * b2,
        -(b1 * b2) <= a.e0 * b.e01 <= b1 * b2,
        -(b1 * b2) <= a.e0 * b.e20 <= b1 * b2,
        -(b1 * b2) <= a.e0 * b.e12 <= b1 * b2,
        -(b1 * b2) <= a.e0 * b.e012 <= b1 * b2,
        -(b1 * b2) <= a.e1 * b.s <= b1 * b2,
        -(b1 * b2) <= a.e1 * b.e0 <= b1 * b2,
        -(b1 * b2) <= a.e1 * b.e1 <= b1 * b2,
        -(b1 * b2) <= a.e1 * b.e2 <= b1 * b2,
        -(b1 * b2) <= a.e1 * b.e01 <= b1 * b2,
        -(b1 * b2) <= a.e1 * b.e20 <= b1 * b2,
        -(b1 * b2) <= a.e1 * b.e12 <= b1 * b2,
        -(b1 * b2) <= a.e1 * b.e012 <= b1 * b2,
        -(b1 * b2) <= a.e2 * b.s <= b1 * b2,
        -(b1 * b2) <= a.e2 * b.e0 <= b1 * b2,
        -(b1 * b2) <= a.e2 * b.e1 <= b1 * b2,
        -(b1 * b2) <= a.e2 * b.e2 <= b1 * b2,
        -(b1 * b2) <= a.e2 * b.e01 <= b1 * b2,
        -(b1 * b2) <= a.e2 * b.e20 <= b1 * b2,
        -(b1 * b2) <= a.e2 * b.e12 <= b1 * b2,
        -(b1 * b2) <= a.e2 * b.e012 <= b1 * b2,
        -(b1 * b2) <= a.e01 * b.s <= b1 * b2,
        -(b1 * b2) <= a.e01 * b.e0 <= b1 * b2,
        -(b1 * b2) <= a.e01 * b.e1 <= b1 * b2,
        -(b1 * b2) <= a.e01 * b.e2 <= b1 * b2,
        -(b1 * b2) <= a.e01 * b.e01 <= b1 * b2,
        -(b1 * b2) <= a.e01 * b.e20 <= b1 * b2,
        -(b1 * b2) <= a.e01 * b.e12 <= b1 * b2,
        -(b1 * b2) <= a.e01 * b.e012 <= b1 * b2,
        -(b1 * b2) <= a.e20 * b.s <= b1 * b2,
        -(b1 * b2) <= a.e20 * b.e0 <= b1 * b2,
        -(b1 * b2) <= a.e20 * b.e1 <= b1 * b2,
        -(b1 * b2) <= a.e20 * b.e2 <= b1 * b2,
        -(b1 * b2) <= a.e20 * b.e01 <= b1 * b2,
        -(b1 * b2) <= a.e20 * b.e20 <= b1 * b2,
        -(b1 * b2) <= a.e20 * b.e12 <= b1 * b2,
        -(b1 * b2) <= a.e20 * b.e012 <= b1 * b2,
        -(b1 * b2) <= a.e12 * b.s <= b1 * b2,
        -(b1 * b2) <= a.e12 * b.e0 <= b1 * b2,
        -(b1 * b2) <= a.e12 * b.e1 <= b1 * b2,
        -(b1 * b2) <= a.e12 * b.e2 <= b1 * b2,
        -(b1 * b2) <= a.e12 * b.e01 <= b1 * b2,
        -(b1 * b2) <= a.e12 * b.e20 <= b1 * b2,
        -(b1 * b2) <= a.e12 * b.e12 <= b1 * b2,
        -(b1 * b2) <= a.e12 * b.e012 <= b1 * b2,
        -(b1 * b2) <= a.e012 * b.s <= b1 * b2,
        -(b1 * b2) <= a.e012 * b.e0 <= b1 * b2,
        -(b1 * b2) <= a.e012 * b.e1 <= b1 * b2,
        -(b1 * b2) <= a.e012 * b.e2 <= b1 * b2,
        -(b1 * b2) <= a.e012 * b.e01 <= b1 * b2,
        -(b1 * b2) <= a.e012 * b.e20 <= b1 * b2,
        -(b1 * b2) <= a.e012 * b.e12 <= b1 * b2,
        -(b1 * b2) <= a.e012 * b.e012 <= b1 * b2,
{
    lemma_mul_bound(b1, b2, a.s, b.s);
    lemma_mul_bound(b1, b2, a.s, b.e0);
    lemma_mul_bound(b1, b2, a.s, b.e1);
    lemma_mul_bound(b1, b2, a.s, b.e2);
    lemma_mul_bound(b1, b2, a.s, b.e01);
    lemma_mul_bound(b1, b2, a.s, b.e20);
    lemma_mul_bound(b1, b2, a.s, b.e12);
    lemma_mul_bound(b1, b2, a.s, b.e012);
    lemma_mul_bound(b1, b2, a.e0, b.s);
    lemma_mul_bound(b1, b2, a.e0, b.e0);
    lemma_mul_bound(b1, b2, a.e0, b.e1);
    lemma_mul_bound(b1, b2, a.e0, b.e2);
    lemma_mul_bound(b1, b2, a.e0, b.e01);
    lemma_mul_bound(b1, b2, a.e0, b.e20);
    lemma_mul_bound(b1, b2, a.e0, b.e12);
    lemma_mul_bound(b1, b2, a.e0, b.e012);
    lemma_mul_bound(b1, b2, a.e1, b.s);
    lemma_mul_bound(b1, b2, a.e1, b.e0);
    lemma_mul_bound(b1, b2, a.e1, b.e1);
    lemma_mul_bound(b1, b2, a.e1, b.e2);
    lemma_mul_bound(b1, b2, a.e1, b.e01);
    lemma_mul_bound(b1, b2, a.e1, b.e20);
    lemma_mul_bound(b1, b2, a.e1, b.e12);
    lemma_mul_bound(b1, b2, a.e1, b.e012);
    lemma_mul_bound(b1, b2, a.e2, b.s);
    lemma_mul_bound(b1, b2, a.e2, b.e0);
    lemma_mul_bound(b1, b2, a.e2, b.e1);
    lemma_mul_bound(b1, b2, a.e2, b.e2);
    lemma_mul_bound(b1, b2, a.e2, b.e01);
    lemma_mul_bound(b1, b2, a.e2, b.e20);
    lemma_mul_bound(b1, b2, a.e2, b.e12);
    lemma_mul_bound(b1, b2, a.e2, b.e012);
    lemma_mul_bound(b1, b2, a.e01, b.s);
    lemma_mul_bound(b1, b2, a.e01, b.e0);
    lemma_mul_bound(b1, b2, a.e01, b.e1);
    lemma_mul_bound(b1, b2, a.e01, b.e2);
    lemma_mul_bound(b1, b2, a.e01, b.e01);
    lemma_mul_bound(b1, b2, a.e01, b.e20);
    lemma_mul_bound(b1, b2, a.e01, b.e12);
    lemma_mul_bound(b1, b2, a.e01, b.e012);
    lemma_mul_bound(b1, b2, a.e20, b.s);
    lemma_mul_bound(b1, b2, a.e20, b.e0);
    lemma_mul_bound(b1, b2, a.e20, b.e1);
    lemma_mul_bound(b1, b2, a.e20, b.e2);
    lemma_mul_bound(b1, b2, a.e20, b.e01);
    lemma_mul_bound(b1, b2, a.e20, b.e20);
    lemma_mul_bound(b1, b2, a.e20, b.e12);
    lemma_mul_bound(b1, b2, a.e20, b.e012);
    lemma_mul_bound(b1, b2, a.e12, b.s);
    lemma_mul_bound(b1, b2, a.e12, b.e0);
    lemma_mul_bound(b1, b2, a.e12, b.e1);
    lemma_mul_bound(b1, b2, a.e12, b.e2);
    lemma_mul_bound(b1, b2, a.e12, b.e01);
    lemma_mul_bound(b1, b2, a.e12, b.e20);
    lemma_mul_bound(b1, b2, a.e12, b.e12);
    lemma_mul_bound(b1, b2, a.e12, b.e012);
    lemma_mul_bound(b1, b2, a.e012, b.s);
    lemma_mul_bound(b1, b2, a.e012, b.e0);
    lemma_mul_bound(b1, b2, a.e012, b.e1);
    lemma_mul_bound(b1, b2, a.e012, b.e2);
    lemma_mul_bound(b1, b2, a.e012, b.e01);
    lemma_mul_bound(b1, b2, a.e012, b.e20);
    lemma_mul_bound(b1, b2, a.e012, b.e12);
    lemma_mul_bound(b1, b2, a.e012, b.e012);
}


/// Scaling a multivector bounded by `b1` by a factor bounded by `b2` gives
/// a multivector bounded by `b1 * b2`.
pub proof fn lemma_scale_bounded(a: Coeffs, t: int, b1: int, b2: int)
    requires
        0 <= b1,
        0 <= b2,
        spec_bounded(a, b1),
        -b2 <= t <= b2,
    ensures
        spec_bounded(spec_scale(a, t), b1 * b2),
{
    lemma_mul_bound(b1, b2, a.s, t);
    lemma_mul_bound(b1, b2, a.e0, t);
    lemma_mul_bound(b1, b2, a.e1, t);
    lemma_mul_bound(b1, b2, a.e2, t);
    lemma_mul_bound(b1, b2, a.e01, t);
    lemma_mul_bound(b1, b2, a.e20, t);
    lemma_mul_bound(b1, b2, a.e12, t);
    lemma_mul_bound(b1, b2, a.e012, t);
}

/// Each coefficient of a bilinear product is a sum of at most 8 pairwise
/// products, so inputs bounded by `b1` and `b2` give outputs bounded by
/// `8 * b1 * b2`.
pub proof fn lemma_product_ops_bounded_asym(a: Coeffs, b: Coeffs, b1: int, b2: int)
    requires
        0 <= b1,
        0 <= b2,
        spec_bounded(a, b1),
        spec_bounded(b, b2),
    ensures
        spec_bounded(spec_geo(a, b), 8 * b1 * b2),
        spec_bounded(spec_wedge(a, b), 8 * b1 * b2),
        spec_bounded(spec_inner(a, b), 8 * b1 * b2),
        spec_bounded(spec_join(a, b), 8 * b1 * b2),
{
    lemma_bounded_products(a, b, b1, b2);
    vstd::arithmetic::mul::lemma_mul_is_associative(8, b1, b2);
}

/// [`lemma_product_ops_bounded_asym`] with one bound for both inputs.
pub proof fn lemma_product_ops_bounded(a: Coeffs, b: Coeffs, bound: int)
    requires
        0 <= bound,
        spec_bounded(a, bound),
        spec_bounded(b, bound),
    ensures
        spec_bounded(spec_geo(a, b), 8 * bound * bound),
        spec_bounded(spec_wedge(a, b), 8 * bound * bound),
        spec_bounded(spec_inner(a, b), 8 * bound * bound),
        spec_bounded(spec_join(a, b), 8 * bound * bound),
{
    lemma_product_ops_bounded_asym(a, b, bound, bound);
}

/// Coefficients this large are accepted by the bilinear products
/// ([`Multivector::geometric_product`] and its siblings): each output
/// coefficient is a sum of at most 8 pairwise products, which then still
/// fits in an `i64`.
pub const PRODUCT_ARG_BOUND: i64 = 1_000_000_000;

/// Coefficients this large are accepted by [`Multivector::inverse`], whose
/// intermediate triple product is cubic in the inputs.
pub const INVERSE_ARG_BOUND: i64 = 10_000;

/// Coefficients this large are accepted by the componentwise sum and
/// difference.
pub const LINEAR_ARG_BOUND: i64 = 0x3fff_ffff_ffff_ffff;

/// The numerator of the inverse of `a`: the triple product
/// `conjugation(a) * grade_involution(a) * reversion(a)`. The inverse itself
/// is this multivector divided by the scalar `<a * numerator>_0`, which is
/// zero exactly on null multivectors.
pub open spec fn spec_inverse_num(a: Coeffs) -> Coeffs {
    spec_geo(spec_geo(spec_conjugation(a), spec_grade_involution(a)), spec_reversion(a))
}


/// The polar companion of `a`: the geometric product `a * inverse_aux(a)` is
/// purely pseudoscalar, with the signed norm square as its coefficient (see
/// [`crate::laws::lemma_geo_conjugation_structure`] for the companion fact
/// about `a * conjugation(a)`).
pub open spec fn spec_inverse_aux(a: Coeffs) -> Coeffs {
    Coeffs { s: 0, e0: a.e12, e1: 0, e2: 0, e01: -a.e2, e20: -a.e1, e12: 0, e012: a.s }
}

/// The model of a Euclidean point `<x, y>`: homogeneous coordinates
/// `x = e20, y = e01, w = e12 = 1`.
pub open spec fn spec_point(x: int, y: int) -> Coeffs {
    Coeffs { s: 0, e0: 0, e1: 0, e2: 0, e01: y, e20: x, e12: 1, e012: 0 }
}

/// The model of an ideal point (direction) `<x, y>`: as [`spec_point`] but
/// with homogeneous coordinate `w = 0`.
pub open spec fn spec_ideal_point(x: int, y: int) -> Coeffs {
    Coeffs { s: 0, e0: 0, e1: 0, e2: 0, e01: y, e20: x, e12: 0, e012: 0 }
}

/// The model of the line `a*x + b*y + c = 0`: `c = e0, a = e1, b = e2`.
pub open spec fn spec_line(a: int, b: int, c: int) -> Coeffs {
    Coeffs { s: 0, e0: c, e1: a, e2: b, e01: 0, e20: 0, e12: 0, e012: 0 }
}

/// `a` is purely grade 2: only the bivector blades `e01, e20, e12` are set.
/// Points (Euclidean and ideal) are such multivectors.
pub open spec fn spec_is_point(a: Coeffs) -> bool {
    a.s == 0 && a.e0 == 0 && a.e1 == 0 && a.e2 == 0 && a.e012 == 0
}

/// `a` is purely grade 1: only the vector blades `e0, e1, e2` are set.
/// Lines are such multivectors.
pub open spec fn spec_is_line(a: Coeffs) -> bool {
    a.s == 0 && a.e01 == 0 && a.e20 == 0 && a.e12 == 0 && a.e012 == 0
}

/// The coefficient of blade `i` of `a`, in the basis order
/// `1, e0, e1, e2, e01, e20, e12, e012`.
pub open spec fn spec_coefficient(a: Coeffs, i: int) -> int {
    if i == 0 {
        a.s
    } else if i == 1 {
        a.e0
    } else if i == 2 {
        a.e1
    } else if i == 3 {
        a.e2
    } else if i == 4 {
        a.e01
    } else if i == 5 {
        a.e20
    } else if i == 6 {
        a.e12
    } else {
        a.e012
    }
}

/// An enum representing the grade of a part of a multivector in 2D PGA.
#[derive(Copy, Clone, Debug, Eq, PartialEq, Structural)]
pub enum Grade {
    Scalar,
    Vector,
    Bivector,
    Trivector,
}

/// The blade indices whose coefficients make up the grade-`g` part.
pub open spec fn spec_blade_indices(g: Grade) -> Seq<usize> {
    match g {
        Grade::Scalar => seq![0usize],
        Grade::Vector => seq![1usize, 2usize, 3usize],
        Grade::Bivector => seq![4usize, 5usize, 6usize],
        Grade::Trivector => seq![7usize],
    }
}

/// The grade-`g` part of `a`: all other coefficients set to zero.
pub open spec fn spec_grade_part(a: Coeffs, g: Grade) -> Coeffs {
    match g {
        Grade::Scalar => Coeffs { s: a.s, ..spec_zero() },
        Grade::Vector => Coeffs { e0: a.e0, e1: a.e1, e2: a.e2, ..spec_zero() },
        Grade::Bivector => Coeffs { e01: a.e01, e20: a.e20, e12: a.e12, ..spec_zero() },
        Grade::Trivector => Coeffs { e012: a.e012, ..spec_zero() },
    }
}

impl Grade {
    /// The indices of the coefficients that belong to this grade. For
    /// example, `Vector` yields `[1, 2, 3]`, the indices of `e0, e1, e2`.
    pub fn relevant_blade_indices(&self) -> (r: Vec<usize>)
        ensures
            r@ == spec_blade_indices(*self),
    {
        match *self {
            Grade::Scalar => vec![0],
            Grade::Vector => vec![1, 2, 3],
            Grade::Bivector => vec![4, 5, 6],
            Grade::Trivector => vec![7],
        }
    }

    /// Given the index of a particular basis blade, return the grade of that
    /// element. For example, indices 1, 2, and 3 would all return `Vector`,
    /// since these correspond to the grade-1 elements e0, e1, and e2,
    /// respectively. Indices past 7 are rejected.
    pub fn from_blade_index(index: usize) -> (r: Result<Self, &'static str>)
        ensures
            index == 0 ==> r == Ok::<Grade, &'static str>(Grade::Scalar),
            1 <= index <= 3 ==> r == Ok::<Grade, &'static str>(Grade::Vector),
            4 <= index <= 6 ==> r == Ok::<Grade, &'static str>(Grade::Bivector),
            index == 7 ==> r == Ok::<Grade, &'static str>(Grade::Trivector),
            index > 7 ==> r is Err,
    {
        match index {
            0 => Ok(Grade::Scalar),
            1..=3 => Ok(Grade::Vector),
            4..=6 => Ok(Grade::Bivector),
            7 => Ok(Grade::Trivector),
            _ => Err("Invalid index: should be between 0-7 (inclusive)"),
        }
    }
}

/// A multivector: a general element of the algebra R(2, 0, 1), i.e. 2D
/// projective geometric algebra (PGA). It is an 8-element vector of
/// coefficients over the 8 basis blades. For coefficients denoted
/// `[A, B, C, D, E, F, G, H]`, the multivector is
///
///     `A + B*e0 + C*e1 + D*e2 + E*e01 + F*e20 + G*e12 + H*e012`
///
/// Coefficients are integers, and every operation is exact; fields `c0`
/// through `c7` follow the basis order above.
#[derive(Copy, Clone, Debug, PartialEq, Eq, Structural)]
pub struct Multivector {
    pub c0: i64,
    pub c1: i64,
    pub c2: i64,
    pub c3: i64,
    pub c4: i64,
    pub c5: i64,
    pub c6: i64,
    pub c7: i64,
}

impl View for Multivector {
    type V = Coeffs;

    open spec fn view(&self) -> Coeffs {
        Coeffs {
            s: self.c0 as int,
            e0: self.c1 as int,
            e1: self.c2 as int,
            e2: self.c3 as int,
            e01: self.c4 as int,
            e20: self.c5 as int,
            e12: self.c6 as int,
            e012: self.c7 as int,
        }
    }
}

impl Multivector {
    /// Constructs a new multivector with the specified coefficients, in the
    /// basis order `1, e0, e1, e2, e01, e20, e12, e012`.
    pub fn with_coefficients(coeff: &[i64; 8]) -> (r: Self)
        ensures
            forall|i: int| 0 <= i < 8 ==> spec_coefficient(r@, i) == coeff[i],
    {
        Multivector {
            c0: coeff[0],
            c1: coeff[1],
            c2: coeff[2],
            c3: coeff[3],
            c4: coeff[4],
            c5: coeff[5],
            c6: coeff[6],
            c7: coeff[7],
        }
    }

    /// Constructs the zero multivector.
    pub fn zeros() -> (r: Self)
        ensures
            r@ == spec_zero(),
    {
        Multivector { c0: 0, c1: 0, c2: 0, c3: 0, c4: 0, c5: 0, c6: 0, c7: 0 }
    }

    /// Constructs a multivector with every coefficient set to 1.
    pub fn ones() -> (r: Self)
        ensures
            r@ == (Coeffs { s: 1, e0: 1, e1: 1, e2: 1, e01: 1, e20: 1, e12: 1, e012: 1 }),
    {
        Multivector { c0: 1, c1: 1, c2: 1, c3: 1, c4: 1, c5: 1, c6: 1, c7: 1 }
    }

    /// Equivalent to [`Multivector::zeros`].
    pub fn new() -> (r: Self)
        ensures
            r@ == spec_zero(),
    {
        Multivector::zeros()
    }

    /// In PGA, the origin is represented by the e12 bivector.
    pub fn origin() -> (r: Self)
        ensures
            r@ == spec_point(0, 0),
    {
        Multivector::point(0, 0)
    }

    /// Constructs a multivector representing a basis blade of 2D PGA:
    /// coefficient `coeff` at blade `index`, zero elsewhere.
    pub fn basis(index: usize, coeff: i64) -> (r: Self)
        requires
            index < 8,
        ensures
            spec_coefficient(r@, index as int) == coeff,
            forall|i: int| 0 <= i < 8 && i != index ==> spec_coefficient(r@, i) == 0,
    {
        let mut r = Multivector::zeros();
        match index {
            0 => r.c0 = coeff,
            1 => r.c1 = coeff,
            2 => r.c2 = coeff,
            3 => r.c3 = coeff,
            4 => r.c4 = coeff,
            5 => r.c5 = coeff,
            6 => r.c6 = coeff,
            _ => r.c7 = coeff,
        }
        r
    }

    /// Constructs a multivector that represents a Euclidean point (grade-2
    /// element) with coordinates `<x, y>`.
    pub fn point(x: i64, y: i64) -> (r: Self)
        ensures
            r@ == spec_point(x as int, y as int),
    {
        Multivector { c0: 0, c1: 0, c2: 0, c3: 0, c4: y, c5: x, c6: 1, c7: 0 }
    }

    /// Constructs a multivector that represents an ideal point (a point at
    /// infinity, grade-2 element) with ideal coordinates `<x, y>`: a
    /// direction, in the sense of a traditional 2D vector.
    pub fn ideal_point(x: i64, y: i64) -> (r: Self)
        ensures
            r@ == spec_ideal_point(x as int, y as int),
    {
        Multivector { c0: 0, c1: 0, c2: 0, c3: 0, c4: y, c5: x, c6: 0, c7: 0 }
    }

    /// Constructs a multivector that represents the line (grade-1 element)
    /// with the equation `a*x + b*y + c = 0`.
    pub fn line(a: i64, b: i64, c: i64) -> (r: Self)
        ensures
            r@ == spec_line(a as int, b as int, c as int),
    {
        Multivector { c0: 0, c1: c, c2: a, c3: b, c4: 0, c5: 0, c6: 0, c7: 0 }
    }

    /// Returns the scalar part of the multivector.
    pub fn scalar(&self) -> (r: i64)
        ensures
            r == self@.s,
    {
        self.c0
    }

    /// Returns the e0 part of the multivector.
    pub fn e0(&self) -> (r: i64)
        ensures
            r == self@.e0,
    {
        self.c1
    }

    /// Returns the e1 part of the multivector.
    pub fn e1(&self) -> (r: i64)
        ensures
            r == self@.e1,
    {
        self.c2
    }

    /// Returns the e2 part of the multivector.
    pub fn e2(&self) -> (r: i64)
        ensures
            r == self@.e2,
    {
        self.c3
    }

    /// Returns the e01 part of the multivector.
    pub fn e01(&self) -> (r: i64)
        ensures
            r == self@.e01,
    {
        self.c4
    }

    /// Returns the e20 part of the multivector.
    pub fn e20(&self) -> (r: i64)
        ensures
            r == self@.e20,
    {
        self.c5
    }

    /// Returns the e12 part of the multivector.
    pub fn e12(&self) -> (r: i64)
        ensures
            r == self@.e12,
    {
        self.c6
    }

    /// Returns the e012 part of the multivector.
    pub fn e012(&self) -> (r: i64)
        ensures
            r == self@.e012,
    {
        self.c7
    }

    /// Returns the coefficient at blade `index`. For example, `a.get(2)`
    /// is the e1 component and `a.get(7)` the e012 component.
    pub fn get(&self, index: usize) -> (r: i64)
        requires
            index < 8,
        ensures
            r == spec_coefficient(self@, index as int),
    {
        match index {
            0 => self.c0,
            1 => self.c1,
            2 => self.c2,
            3 => self.c3,
            4 => self.c4,
            5 => self.c5,
            6 => self.c6,
            _ => self.c7,
        }
    }

    /// Returns the grade-`grade` part of the multivector: a copy with every
    /// coefficient outside that grade set to zero.
    pub fn grade_selection(&self, grade: Grade) -> (r: Self)
        ensures
            r@ == spec_grade_part(self@, grade),
    {
        let z = Multivector::zeros();
        match grade {
            Grade::Scalar => Multivector { c0: self.c0, ..z },
            Grade::Vector => Multivector { c1: self.c1, c2: self.c2, c3: self.c3, ..z },
            Grade::Bivector => Multivector { c4: self.c4, c5: self.c5, c6: self.c6, ..z },
            Grade::Trivector => Multivector { c7: self.c7, ..z },
        }
    }

    /// Adds two multivectors componentwise.
    pub fn add(&self, rhs: &Multivector) -> (r: Self)
        requires
            spec_bounded(self@, LINEAR_ARG_BOUND as int),
            spec_bounded(rhs@, LINEAR_ARG_BOUND as int),
        ensures
            r@ == spec_add(self@, rhs@),
    {
        Multivector {
            c0: self.c0 + rhs.c0,
            c1: self.c1 + rhs.c1,
            c2: self.c2 + rhs.c2,
            c3: self.c3 + rhs.c3,
            c4: self.c4 + rhs.c4,
            c5: self.c5 + rhs.c5,
            c6: self.c6 + rhs.c6,
            c7: self.c7 + rhs.c7,
        }
    }

    /// Subtracts two multivectors componentwise.
    pub fn sub(&self, rhs: &Multivector) -> (r: Self)
        requires
            spec_bounded(self@, LINEAR_ARG_BOUND as int),
            spec_bounded(rhs@, LINEAR_ARG_BOUND as int),
        ensures
            r@ == spec_sub(self@, rhs@),
    {
        Multivector {
            c0: self.c0 - rhs.c0,
            c1: self.c1 - rhs.c1,
            c2: self.c2 - rhs.c2,
            c3: self.c3 - rhs.c3,
            c4: self.c4 - rhs.c4,
            c5: self.c5 - rhs.c5,
            c6: self.c6 - rhs.c6,
            c7: self.c7 - rhs.c7,
        }
    }

    /// Negates every coefficient.
    pub fn neg(&self) -> (r: Self)
        requires
            spec_bounded(self@, i64::MAX as int),
        ensures
            r@ == spec_neg(self@),
    {
        Multivector {
            c0: -self.c0,
            c1: -self.c1,
            c2: -self.c2,
            c3: -self.c3,
            c4: -self.c4,
            c5: -self.c5,
            c6: -self.c6,
            c7: -self.c7,
        }
    }

    /// Scales every coefficient by `t`.
    pub fn scaled(&self, t: i64) -> (r: Self)
        requires
            spec_bounded(self@, PRODUCT_ARG_BOUND as int),
            -PRODUCT_ARG_BOUND <= t <= PRODUCT_ARG_BOUND,
        ensures
            r@ == spec_scale(self@, t as int),
    {
        proof {
            let b: int = PRODUCT_ARG_BOUND as int;
            lemma_mul_bound(b, b, self@.s, t as int);
            lemma_mul_bound(b, b, self@.e0, t as int);
            lemma_mul_bound(b, b, self@.e1, t as int);
            lemma_mul_bound(b, b, self@.e2, t as int);
            lemma_mul_bound(b, b, self@.e01, t as int);
            lemma_mul_bound(b, b, self@.e20, t as int);
            lemma_mul_bound(b, b, self@.e12, t as int);
            lemma_mul_bound(b, b, self@.e012, t as int);
        }
        Multivector {
            c0: self.c0 * t,
            c1: self.c1 * t,
            c2: self.c2 * t,
            c3: self.c3 * t,
            c4: self.c4 * t,
            c5: self.c5 * t,
            c6: self.c6 * t,
            c7: self.c7 * t,
        }
    }

    /// Computes the Clifford conjugate of the multivector: the grade-1 and
    /// grade-2 parts are negated, following `(-1)^(k * (k + 1) / 2) * a_k`.
    pub fn conjugation(&self) -> (r: Self)
        requires
            spec_bounded(self@, i64::MAX as int),
        ensures
            r@ == spec_conjugation(self@),
    {
        Multivector {
            c0: self.c0,
            c1: -self.c1,
            c2: -self.c2,
            c3: -self.c3,
            c4: -self.c4,
            c5: -self.c5,
            c6: -self.c6,
            c7: self.c7,
        }
    }

    /// Computes the grade involution (the "main involution") of the
    /// multivector, `(-1)^k * a_k`: the odd (vector and trivector) parts are
    /// negated, the even parts are kept.
    pub fn grade_involution(&self) -> (r: Self)
        requires
            spec_bounded(self@, i64::MAX as int),
        ensures
            r@ == spec_grade_involution(self@),
    {
        Multivector {
            c0: self.c0,
            c1: -self.c1,
            c2: -self.c2,
            c3: -self.c3,
            c4: self.c4,
            c5: self.c5,
            c6: self.c6,
            c7: -self.c7,
        }
    }

    /// Reverses each basis blade (for example `e20 = e2 * e0` becomes
    /// `e02 = e0 * e2`), following `(-1)^(k * (k - 1) / 2) * a_k`: the
    /// grade-2 and grade-3 parts are negated.
    pub fn reversion(&self) -> (r: Self)
        requires
            spec_bounded(self@, i64::MAX as int),
        ensures
            r@ == spec_reversion(self@),
    {
        Multivector {
            c0: self.c0,
            c1: self.c1,
            c2: self.c2,
            c3: self.c3,
            c4: -self.c4,
            c5: -self.c5,
            c6: -self.c6,
            c7: -self.c7,
        }
    }

    /// Computes the Poincare dual of this multivector, reversing the
    /// coefficient order: blade `i` maps to blade `7 - i`. Points and lines
    /// are dual to one another in 2D PGA, and the dual is its own inverse:
    /// see [`crate::laws::lemma_dual_involution`].
    pub fn dual(&self) -> (r: Self)
        ensures
            r@ == spec_dual(self@),
    {
        Multivector {
            c0: self.c7,
            c1: self.c6,
            c2: self.c5,
            c3: self.c4,
            c4: self.c3,
            c5: self.c2,
            c6: self.c1,
            c7: self.c0,
        }
    }

    /// Returns the signed square of the norm: the scalar part of
    /// `self * conjugation(self)`. The norm of the multivector is the square
    /// root of the absolute value of this quantity, so it is zero exactly on
    /// null elements (for example unnormalized ideal points).
    pub fn norm_signed_square(&self) -> (r: i64)
        requires
            spec_bounded(self@, PRODUCT_ARG_BOUND as int),
        ensures
            r == spec_norm_signed_square(self@),
    {
        proof {
            let b: int = PRODUCT_ARG_BOUND as int;
            lemma_mul_bound(b, b, self@.s, self@.s);
            lemma_mul_bound(b, b, self@.e1, self@.e1);
            lemma_mul_bound(b, b, self@.e2, self@.e2);
            lemma_mul_bound(b, b, self@.e12, self@.e12);
        }
        self.c0 * self.c0 - self.c2 * self.c2 - self.c3 * self.c3 + self.c6 * self.c6
    }

    /// Returns the signed square of the ideal norm, which is the norm of the
    /// dual.
    pub fn ideal_norm_signed_square(&self) -> (r: i64)
        requires
            spec_bounded(self@, PRODUCT_ARG_BOUND as int),
        ensures
            r == spec_norm_signed_square(spec_dual(self@)),
    {
        self.dual().norm_signed_square()
    }

    /// Computes the inverse `A^-1` of this multivector under the geometric
    /// product, as an exact fraction: a numerator multivector and a scalar
    /// denominator, the scalar part of `A * numerator`, so that
    /// `A * (numerator / denominator) == 1`. The numerator is the triple
    /// involution product `conjugation(A) * grade_involution(A) *
    /// reversion(A)`. Returns `None` exactly when the denominator is zero,
    /// that is, when `A` is not invertible (a null element); the caller must
    /// not divide in that case.
    pub fn inverse(&self) -> (r: Option<(Multivector, i64)>)
        requires
            spec_bounded(self@, INVERSE_ARG_BOUND as int),
        ensures
            r matches Some((num, den)) ==> {
                &&& num@ == spec_inverse_num(self@)
                &&& den == spec_geo(self@, num@).s
                &&& den != 0
            },
            r is None <==> spec_geo(self@, spec_inverse_num(self@)).s == 0,
    {
        let conj = self.conjugation();
        let invol = self.grade_involution();
        let rev = self.reversion();
        proof {
            lemma_product_ops_bounded(conj@, invol@, INVERSE_ARG_BOUND as int);
        }
        let m1 = conj.geometric_product(&invol);
        proof {
            lemma_product_ops_bounded_asym(
                m1@,
                rev@,
                8 * (INVERSE_ARG_BOUND as int) * (INVERSE_ARG_BOUND as int),
                INVERSE_ARG_BOUND as int,
            );
        }
        let num = m1.geometric_product(&rev);
        proof {
            let nb: int = 8 * (8 * (INVERSE_ARG_BOUND as int) * (INVERSE_ARG_BOUND as int)) * (
            INVERSE_ARG_BOUND as int);
            lemma_mul_bound(INVERSE_ARG_BOUND as int, nb, self@.s, num@.s);
            lemma_mul_bound(INVERSE_ARG_BOUND as int, nb, self@.e1, num@.e1);
            lemma_mul_bound(INVERSE_ARG_BOUND as int, nb, self@.e2, num@.e2);
            lemma_mul_bound(INVERSE_ARG_BOUND as int, nb, self@.e12, num@.e12);
        }
        let den: i64 = self.c0 * num.c0 + self.c2 * num.c2 + self.c3 * num.c3 - self.c6 * num.c6;
        if den == 0 {
            None
        } else {
            Some((num, den))
        }
    }
}

impl Multivector {
    /// Computes the full geometric product `self * rhs`: the bilinear
    /// extension of the basis multiplication table across all 8 blades.
    pub fn geometric_product(&self, rhs: &Multivector) -> (r: Multivector)
        requires
            spec_bounded(self@, PRODUCT_ARG_BOUND as int),
            spec_bounded(rhs@, PRODUCT_ARG_BOUND as int),
        ensures
            r@ == spec_geo(self@, rhs@),
    {
        proof {
            lemma_bounded_products(self@, rhs@, PRODUCT_ARG_BOUND as int, PRODUCT_ARG_BOUND as int);
        }
        let c0: i64 = self.c0 * rhs.c0 + self.c2 * rhs.c2 + self.c3 * rhs.c3 - self.c6 * rhs.c6;
        let c1: i64 = self.c0 * rhs.c1 + self.c1 * rhs.c0 - self.c2 * rhs.c4 + self.c3 * rhs.c5 - self.c6 * rhs.c7 - self.c5 * rhs.c3 + self.c4 * rhs.c2 - self.c7 * rhs.c6;
        let c2: i64 = self.c0 * rhs.c2 + self.c2 * rhs.c0 - self.c3 * rhs.c6 + self.c6 * rhs.c3;
        let c3: i64 = self.c0 * rhs.c3 + self.c2 * rhs.c6 - self.c6 * rhs.c2 + self.c3 * rhs.c0;
        let c4: i64 = self.c0 * rhs.c4 + self.c1 * rhs.c2 - self.c2 * rhs.c1 + self.c3 * rhs.c7 - self.c6 * rhs.c5 + self.c5 * rhs.c6 + self.c4 * rhs.c0 + self.c7 * rhs.c3;
        let c5: i64 = self.c0 * rhs.c5 - self.c1 * rhs.c3 + self.c2 * rhs.c7 + self.c3 * rhs.c1 + self.c6 * rhs.c4 + self.c5 * rhs.c0 - self.c4 * rhs.c6 + self.c7 * rhs.c2;
        let c6: i64 = self.c0 * rhs.c6 + self.c2 * rhs.c3 - self.c3 * rhs.c2 + self.c6 * rhs.c0;
        let c7: i64 = self.c0 * rhs.c7 + self.c1 * rhs.c6 + self.c2 * rhs.c5 + self.c3 * rhs.c4 + self.c6 * rhs.c1 + self.c5 * rhs.c2 + self.c4 * rhs.c3 + self.c7 * rhs.c0;
        Multivector { c0, c1, c2, c3, c4, c5, c6, c7 }
    }

    /// Computes the outer (wedge, "meet") product `self ^ rhs`: the
    /// grade-raising part of the geometric product. The meet of two lines is
    /// their point of intersection, an ideal point when they are parallel.
    pub fn outer_product(&self, rhs: &Multivector) -> (r: Multivector)
        requires
            spec_bounded(self@, PRODUCT_ARG_BOUND as int),
            spec_bounded(rhs@, PRODUCT_ARG_BOUND as int),
        ensures
            r@ == spec_wedge(self@, rhs@),
    {
        proof {
            lemma_bounded_products(self@, rhs@, PRODUCT_ARG_BOUND as int, PRODUCT_ARG_BOUND as int);
        }
        let c0: i64 = self.c0 * rhs.c0;
        let c1: i64 = self.c1 * rhs.c0 + self.c0 * rhs.c1;
        let c2: i64 = self.c2 * rhs.c0 + self.c0 * rhs.c2;
        let c3: i64 = self.c3 * rhs.c0 + self.c0 * rhs.c3;
        let c4: i64 = self.c4 * rhs.c0 + self.c1 * rhs.c2 - self.c2 * rhs.c1 + self.c0 * rhs.c4;
        let c5: i64 = self.c5 * rhs.c0 + self.c3 * rhs.c1 - self.c1 * rhs.c3 + self.c0 * rhs.c5;
        let c6: i64 = self.c6 * rhs.c0 + self.c2 * rhs.c3 - self.c3 * rhs.c2 + self.c0 * rhs.c6;
        let c7: i64 = self.c7 * rhs.c0 + self.c4 * rhs.c3 + self.c5 * rhs.c2 + self.c6 * rhs.c1 + self.c1 * rhs.c6 + self.c2 * rhs.c5 + self.c3 * rhs.c4 + self.c0 * rhs.c7;
        Multivector { c0, c1, c2, c3, c4, c5, c6, c7 }
    }

    /// Computes the symmetric inner product `self | rhs`: the grade-lowering
    /// `|k - s|` projection of the geometric product of the grade-`k` and
    /// grade-`s` parts.
    pub fn inner_product(&self, rhs: &Multivector) -> (r: Multivector)
        requires
            spec_bounded(self@, PRODUCT_ARG_BOUND as int),
            spec_bounded(rhs@, PRODUCT_ARG_BOUND as int),
        ensures
            r@ == spec_inner(self@, rhs@),
    {
        proof {
            lemma_bounded_products(self@, rhs@, PRODUCT_ARG_BOUND as int, PRODUCT_ARG_BOUND as int);
        }
        let c0: i64 = self.c0 * rhs.c0 + self.c2 * rhs.c2 + self.c3 * rhs.c3 - self.c6 * rhs.c6;
        let c1: i64 = self.c1 * rhs.c0 + self.c0 * rhs.c1 + self.c4 * rhs.c2 - self.c5 * rhs.c3 + self.c3 * rhs.c5 - self.c2 * rhs.c4 - self.c7 * rhs.c6 - self.c6 * rhs.c7;
        let c2: i64 = self.c2 * rhs.c0 + self.c0 * rhs.c2 + self.c6 * rhs.c3 - self.c3 * rhs.c6;
        let c3: i64 = self.c3 * rhs.c0 + self.c0 * rhs.c3 - self.c6 * rhs.c2 + self.c2 * rhs.c6;
        let c4: i64 = self.c4 * rhs.c0 + self.c7 * rhs.c3 + self.c0 * rhs.c4 + self.c3 * rhs.c7;
        let c5: i64 = self.c5 * rhs.c0 + self.c7 * rhs.c2 + self.c0 * rhs.c5 + self.c2 * rhs.c7;
        let c6: i64 = self.c6 * rhs.c0 + self.c0 * rhs.c6;
        let c7: i64 = self.c7 * rhs.c0 + self.c0 * rhs.c7;
        Multivector { c0, c1, c2, c3, c4, c5, c6, c7 }
    }

    /// Computes the join (regressive product) `self & rhs`: the line through
    /// two points, oriented from `self` to `rhs`. It equals
    /// `dual(dual(rhs) ^ dual(self))`, as
    /// [`crate::laws::lemma_join_is_dual_of_wedge_of_duals`] proves.
    pub fn join(&self, rhs: &Multivector) -> (r: Multivector)
        requires
            spec_bounded(self@, PRODUCT_ARG_BOUND as int),
            spec_bounded(rhs@, PRODUCT_ARG_BOUND as int),
        ensures
            r@ == spec_join(self@, rhs@),
    {
        proof {
            lemma_bounded_products(self@, rhs@, PRODUCT_ARG_BOUND as int, PRODUCT_ARG_BOUND as int);
        }
        let c0: i64 = self.c0 * rhs.c7 + self.c1 * rhs.c6 + self.c2 * rhs.c5 + self.c3 * rhs.c4 + self.c4 * rhs.c3 + self.c5 * rhs.c2 + self.c6 * rhs.c1 + self.c7 * rhs.c0;
        let c1: i64 = self.c1 * rhs.c7 + self.c4 * rhs.c5 - self.c5 * rhs.c4 + self.c7 * rhs.c1;
        let c2: i64 = self.c2 * rhs.c7 - self.c4 * rhs.c6 + self.c6 * rhs.c4 + self.c7 * rhs.c2;
        let c3: i64 = self.c3 * rhs.c7 + self.c5 * rhs.c6 - self.c6 * rhs.c5 + self.c7 * rhs.c3;
        let c4: i64 = self.c4 * rhs.c7 + self.c7 * rhs.c4;
        let c5: i64 = self.c5 * rhs.c7 + self.c7 * rhs.c5;
        let c6: i64 = self.c6 * rhs.c7 + self.c7 * rhs.c6;
        let c7: i64 = self.c7 * rhs.c7;
        Multivector { c0, c1, c2, c3, c4, c5, c6, c7 }
    }

    /// Computes the meet of two multivectors: an alias for the outer product,
    /// named for its use on lines, where it yields their intersection point.
    pub fn meet(&self, rhs: &Multivector) -> (r: Multivector)
        requires
            spec_bounded(self@, PRODUCT_ARG_BOUND as int),
            spec_bounded(rhs@, PRODUCT_ARG_BOUND as int),
        ensures
            r@ == spec_wedge(self@, rhs@),
    {
        self.outer_product(rhs)
    }
}

} // verus!
