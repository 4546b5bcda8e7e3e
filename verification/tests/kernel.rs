use origami_pga::multivector::{Grade, Multivector};

fn mv(c: [i64; 8]) -> Multivector {
    Multivector::with_coefficients(&c)
}

#[test]
fn test_constructors() {
    let a = Multivector::with_coefficients(&[0, 1, 2, 3, 4, 5, 6, 7]);
    let b = Multivector::zeros();
    let c = Multivector::ones();
    let d = Multivector::basis(1, 1);
    assert_eq!(a.e012(), 7);
    assert_eq!(b, Multivector::new());
    assert_eq!(c.scalar(), 1);
    assert_eq!(d.e0(), 1);
}

#[test]
fn test_basis_elements() {
    let e0 = Multivector::basis(1, 1);
    let e1 = Multivector::basis(2, 1);
    let e2 = Multivector::basis(3, 1);
    let e01 = Multivector::basis(4, 1);
    let e20 = Multivector::basis(5, 1);
    let e12 = Multivector::basis(6, 1);

    // Should be 0
    let result = e0.geometric_product(&e0);
    println!("e0 * e0 = {:?}", result);
    assert_eq!(result, Multivector::zeros());

    // Should be 1
    let result = e1.geometric_product(&e1);
    println!("e1 * e1 = {:?}", result);
    assert_eq!(result, Multivector::basis(0, 1));

    // Should be 1
    let result = e2.geometric_product(&e2);
    println!("e2 * e2 = {:?}", result);
    assert_eq!(result, Multivector::basis(0, 1));

    // Should be -1
    let result = e12.geometric_product(&e12);
    println!("e12 * e12 = {:?}", result);
    assert_eq!(result, Multivector::basis(0, -1));

    // Should be 0
    let result = e20.geometric_product(&e20);
    println!("e20 * e20 = {:?}", result);
    assert_eq!(result, Multivector::zeros());

    // Should be 0
    let result = e01.geometric_product(&e01);
    println!("e01 * e01 = {:?}", result);
    assert_eq!(result, Multivector::zeros());
}

#[test]
fn test_geometric_product() {
    // Should be: 23 + 108e0 + -6e1 + -8e2 + -74e01 + -60e20 + -14e12 + -120e012
    let a = mv([1, 2, 3, 4, 5, 6, 7, 8]);
    let b = mv([-1, -2, -3, -4, -5, -6, -7, -8]);
    let result = a.geometric_product(&b);
    println!("a * b = {:?}", result);
    assert_eq!(result, mv([23, 108, -6, -8, -74, -60, -14, -120]));
}

#[test]
fn multivector_test_inner_product() {
    // Should be: 23 + 108e0 + -6e1 + -8e2 + -74e01 + -60e20 + -14e12 + -16e012
    let a = mv([1, 2, 3, 4, 5, 6, 7, 8]);
    let b = mv([-1, -2, -3, -4, -5, -6, -7, -8]);
    let result = a.inner_product(&b);
    println!("a | b = {:?}", result);
    assert_eq!(result, mv([23, 108, -6, -8, -74, -60, -14, -16]));
}

#[test]
fn test_outer_product() {
    // Should be: -1 + -4e0 + -6e1 + -8e2 + -10e01 + -12e20 + -14e12 + -120e012
    let a = mv([1, 2, 3, 4, 5, 6, 7, 8]);
    let b = mv([-1, -2, -3, -4, -5, -6, -7, -8]);
    let result = a.outer_product(&b);
    println!("a ^ b = {:?}", result);
    assert_eq!(result, mv([-1, -4, -6, -8, -10, -12, -14, -120]));
}

#[test]
fn test_join_and_meet() {
    // Should be the Euclidean point <1, -2> once divided by its weight
    let l1 = Multivector::line(1, 2, 3);
    let l2 = Multivector::line(4, 5, 6);
    let result = l1.outer_product(&l2);
    let x = result.e20();
    let y = result.e01();
    let w = result.e12();
    println!("l1 ^ l2 = {:?} or the point <{}, {}> (x {}, y {})", result, 1, -2, x, y);
    assert!(w != 0);
    assert_eq!(x, 1 * w);
    assert_eq!(y, -2 * w);

    // Should be the line x - y + 1 = 0, up to scale
    let p1 = Multivector::point(1, 2);
    let p2 = Multivector::point(3, 4);
    let result = p1.join(&p2);
    let a = result.e1();
    let b = result.e2();
    let c = result.e0();
    println!("p1 & p2 = {:?} or the line {}x + {}y + {} = 0", result, a, b, c);
    assert_eq!((c, a, b), (2, 2, -2));
}

#[test]
fn test_inverse() {
    // First, try with a simple point (grade-2 element)
    let p = Multivector::point(1, 2);
    let (p_inv_num, p_den) = p.inverse().unwrap();
    let result = p.geometric_product(&p_inv_num);
    println!("p * p_inv_num = {:?}, denominator {}", result, p_den);
    assert_eq!(result, Multivector::basis(0, p_den));

    // Then, try with a full multivector
    let a = mv([0, 1, 2, 3, 4, 5, 6, 7]);
    let (a_inv_num, a_den) = a.inverse().unwrap();
    let result = a.geometric_product(&a_inv_num);
    println!("a * a_inv_num = {:?}, denominator {}", result, a_den);
    // signed norm square is 0 - 4 - 9 + 36 = 23, and the denominator its square
    assert_eq!(a_den, 529);
    assert_eq!(result, Multivector::basis(0, 529));

    // A null element (an ideal point) has no inverse
    let ideal = Multivector::ideal_point(1, 2);
    assert!(ideal.inverse().is_none());
}

#[test]
fn test_norm() {
    // The signed norm square of A is 1 - 9 - 16 + 49 = 25: the norm is ~5
    let a = mv([1, 2, 3, 4, 5, 6, 7, 8]);
    let b = mv([-1, -2, -3, -4, -5, -6, -7, -8]);
    println!("Signed norm square of A: {}", a.norm_signed_square());
    println!("Signed norm square of B: {}", b.norm_signed_square());
    assert_eq!(a.norm_signed_square(), 25);
    assert_eq!(b.norm_signed_square(), 25);

    // Scaling by t scales the signed norm square by t * t, so dividing by
    // the norm drives it to +/- 1
    assert_eq!(a.scaled(3).norm_signed_square(), 9 * 25);
}

#[test]
fn test_rotors_and_translators() {
    // Should be the Euclidean point <3, 4>: the translator built from
    // <2, 2> moves a point by <2, 2>
    let p = Multivector::point(1, 2);
    let result = origami_pga::geometry::translate(&p, 2, 2);
    let w = result.e12();
    let x = result.e20();
    let y = result.e01();
    println!("T * p * ~T = {:?} or the translated point <{}, {}>", result, x, y);
    assert_eq!(w, 1);
    assert_eq!((x, y), (3, 4));
}

#[test]
fn test_pga_cheatsheet_formulas() {
    // The line: x = 0
    let l = Multivector::line(1, 0, 0);
    let p = Multivector::point(-3, 2);

    // Should be the Euclidean point <3, 2> once divided by its weight
    let result = origami_pga::geometry::reflect(&p, &l);
    let w = result.e12();
    let x = result.e20();
    let y = result.e01();
    println!("l * p * l = {:?} or the reflected point (x {}, y {})", result, x, y);
    assert!(w != 0);
    assert_eq!(x, 3 * w);
    assert_eq!(y, 2 * w);
}

#[test]
fn test_projections() {
    let mut coeff: [i64; 8] = [0, 0, 0, 0, 2, 1, 0, 0];
    coeff[6] = 3;
    let p = mv(coeff);
    let l = Multivector::line(4, 5, 6);
    let result = origami_pga::geometry::project(&p, &l);
    println!("Projection of p onto l, (p | l) * l = {:?}", result);
    // Should be: [0, 0, 0, 0, -78, -87, 123, 0]
    assert_eq!(result, mv([0, 0, 0, 0, -78, -87, 123, 0]));

    let result = origami_pga::geometry::project(&l, &p);
    println!("Projection of l onto p, (p | l) * p = {:?}", result);
    // Should be: [0, 42, -36, -45, 0, 0, 0, 0]
    assert_eq!(result, mv([0, 42, -36, -45, 0, 0, 0, 0]));
}

#[test]
fn test_dual_involution_concrete() {
    let a = mv([1, -2, 3, -4, 5, -6, 7, -8]);
    assert_eq!(a.dual().dual(), a);
    assert_eq!(a.dual(), mv([-8, 7, -6, 5, -4, 3, -2, 1]));
}

#[test]
fn test_geometric_product_associative_concrete() {
    let a = mv([1, 2, 3, 4, 5, 6, 7, 8]);
    let b = mv([-3, 1, 4, -1, 5, 9, -2, 6]);
    let c = mv([2, 7, -1, 8, -2, 8, 1, -8]);
    let ab_c = a.geometric_product(&b).geometric_product(&c);
    let a_bc = a.geometric_product(&b.geometric_product(&c));
    assert_eq!(ab_c, a_bc);
}

#[test]
fn test_join_is_dual_of_wedge_of_duals_concrete() {
    let a = mv([1, 2, 3, 4, 5, 6, 7, 8]);
    let b = mv([-3, 1, 4, -1, 5, 9, -2, 6]);
    let via_duals = b.dual().outer_product(&a.dual()).dual();
    assert_eq!(a.join(&b), via_duals);
}

#[test]
fn test_grade_functions() {
    assert_eq!(Grade::from_blade_index(0), Ok(Grade::Scalar));
    assert_eq!(Grade::from_blade_index(2), Ok(Grade::Vector));
    assert_eq!(Grade::from_blade_index(5), Ok(Grade::Bivector));
    assert_eq!(Grade::from_blade_index(7), Ok(Grade::Trivector));
    assert!(Grade::from_blade_index(8).is_err());
    assert_eq!(Grade::Vector.relevant_blade_indices(), vec![1, 2, 3]);
    assert_eq!(Grade::Trivector.relevant_blade_indices(), vec![7]);

    let a = mv([1, 2, 3, 4, 5, 6, 7, 8]);
    assert_eq!(a.grade_selection(Grade::Bivector), mv([0, 0, 0, 0, 5, 6, 7, 0]));
    assert_eq!(a.grade_selection(Grade::Scalar), mv([1, 0, 0, 0, 0, 0, 0, 0]));
}

#[test]
fn test_involutions() {
    let a = mv([1, 2, 3, 4, 5, 6, 7, 8]);
    assert_eq!(a.conjugation(), mv([1, -2, -3, -4, -5, -6, -7, 8]));
    assert_eq!(a.grade_involution(), mv([1, -2, -3, -4, 5, 6, 7, -8]));
    assert_eq!(a.reversion(), mv([1, 2, 3, 4, -5, -6, -7, -8]));
    assert_eq!(a.neg(), mv([-1, -2, -3, -4, -5, -6, -7, -8]));
    assert_eq!(a.add(&a), a.scaled(2));
    assert_eq!(a.sub(&a), Multivector::zeros());
}
