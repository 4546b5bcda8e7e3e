use origami_pga::axioms::{
    axiom_1, axiom_2, axiom_3, axiom_4, axiom_5_crease, axiom_5_feasible, axiom_5_foot, axiom_6,
    axiom_7, AxiomError,
};
use origami_pga::geometry::{dist_point_to_line, intersect_lines, midpoint, orthogonal};
use origami_pga::multivector::Multivector;

#[test]
fn axiom_1_horizontal_crease() {
    // Folding through (0,0) and (2,0) creases along y = 0, up to scale/sign.
    let crease = axiom_1(&Multivector::point(0, 0), &Multivector::point(2, 0));
    assert_eq!(crease.e1(), 0); // a == 0
    assert_eq!(crease.e0(), 0); // c == 0
    assert_eq!(crease.e2(), -2); // b != 0: the line y = 0
    // Both points are incident to the crease: the exact distance numerator
    // vanishes.
    assert_eq!(dist_point_to_line(&Multivector::point(0, 0), &crease), 0);
    assert_eq!(dist_point_to_line(&Multivector::point(2, 0), &crease), 0);
}

#[test]
fn axiom_2_perpendicular_bisector() {
    // Folding (0,0) onto (2,0) creases along x = 1.
    let p0 = Multivector::point(0, 0);
    let p1 = Multivector::point(2, 0);
    let crease = axiom_2(&p0, &p1);
    assert_eq!((crease.e0(), crease.e1(), crease.e2()), (4, -4, 0));
    // Both endpoints are at the same exact (squared) offset from the crease.
    let d0 = dist_point_to_line(&p0, &crease);
    let d1 = dist_point_to_line(&p1, &crease);
    assert_eq!(d0, -d1);
    assert!(d0 != 0);
    // The crease passes through the midpoint.
    assert_eq!(dist_point_to_line(&midpoint(&p0, &p1), &crease), 0);
}

#[test]
fn axiom_3_parallel_cooriented_bisector() {
    // x = 0 and x = 1, equally oriented: the bisector is x = 1/2, scaled.
    let l0 = Multivector::line(1, 0, 0);
    let l1 = Multivector::line(1, 0, -1);
    let crease = axiom_3(&l0, &l1);
    assert_eq!((crease.e0(), crease.e1(), crease.e2()), (-1, 2, 0));
    assert!(crease.norm_signed_square() != 0);
}

#[test]
fn axiom_3_opposite_orientation_degenerates() {
    // The same line with opposite orientations: the bisector is the zero
    // multivector, whose norm vanishes; the caller must detect it.
    let l0 = Multivector::line(1, 0, 0);
    let l1 = Multivector::line(-1, 0, 0);
    let crease = axiom_3(&l0, &l1);
    assert_eq!(crease, Multivector::zeros());
    assert_eq!(crease.norm_signed_square(), 0);
}

#[test]
fn axiom_4_perpendicular_through_point() {
    // Folding perpendicular to x = 0 through (1,1) creases along y = 1:
    // (a, b, c) == (0, 1, -1) up to scale and sign.
    let p = Multivector::point(1, 1);
    let l = Multivector::line(1, 0, 0);
    let crease = axiom_4(&p, &l);
    assert_eq!((crease.e0(), crease.e1(), crease.e2()), (1, 0, -1));
    // Perpendicularity: the scalar of crease | l (the cosine numerator) is 0.
    assert_eq!(crease.inner_product(&l).scalar(), 0);
    // Incidence: p lies on the crease.
    assert_eq!(dist_point_to_line(&p, &crease), 0);
}

#[test]
fn axiom_5_feasible_and_foot() {
    // p0 = (0,0), p1 = (4,0), l: x = 2. Radius r = 4, distance h = 2 <= r,
    // so a solution exists.
    let p0 = Multivector::point(0, 0);
    let p1 = Multivector::point(4, 0);
    let l = Multivector::line(1, 0, -2);
    assert!(axiom_5_feasible(&p0, &p1, &l));

    // The foot of the perpendicular from p1 onto l is (2, 0), up to scale.
    let foot = axiom_5_foot(&p1, &l);
    let w = foot.e12();
    assert!(w != 0);
    assert_eq!(foot.e20(), 2 * w);
    assert_eq!(foot.e01(), 0);

    // The intersection points on l at distance 4 from p1 are (2, +/-2*sqrt(3));
    // handing the crease builder a point on l, for instance the foot itself
    // (a fold flattening the circle onto the line's nearest point), gives a
    // crease through p1 perpendicular to the join with p0. With the exact
    // integer point (2, 0) on l:
    let target = Multivector::point(2, 0);
    let crease = axiom_5_crease(&p1, &target, &p0);
    // join(target, p0) is the x-axis, so the crease is vertical through p1.
    assert_eq!(crease.inner_product(&target.join(&p0)).scalar(), 0);
    assert_eq!(dist_point_to_line(&p1, &crease), 0);
}

#[test]
fn axiom_5_returns_none_when_line_is_too_far() {
    // p0 = (0,0), p1 = (4,0), l: x = 10: h = 6 > r = 4, no solution.
    let p0 = Multivector::point(0, 0);
    let p1 = Multivector::point(4, 0);
    let l = Multivector::line(1, 0, -10);
    assert!(!axiom_5_feasible(&p0, &p1, &l));
    // The boundary case h == r is still feasible (tangency).
    let tangent = Multivector::line(1, 0, -8);
    assert!(axiom_5_feasible(&p0, &p1, &tangent));
}

#[test]
fn axiom_6_is_unsupported() {
    let p = Multivector::point(0, 0);
    let l = Multivector::line(1, 0, 0);
    assert_eq!(axiom_6(&p, &p, &l, &l), Err(AxiomError::Unsupported));
}

#[test]
fn axiom_7_perpendicular_lines() {
    // p = (1,1), l0: x = 0, l1: y = 0. The lines are perpendicular, so a
    // crease exists; it is perpendicular to l1 (vertical).
    let p = Multivector::point(1, 1);
    let l0 = Multivector::line(1, 0, 0);
    let l1 = Multivector::line(0, 1, 0);
    let crease = axiom_7(&p, &l0, &l1).unwrap();
    assert!(crease.e1() != 0);
    assert_eq!(crease.e2(), 0);
    // Perpendicular to l1: the cosine numerator vanishes.
    assert_eq!(crease.inner_product(&l1).scalar(), 0);
    // The crease passes through the midpoint of p and the intersection
    // (0, 1): that midpoint is (1/2, 1), and the crease is x = 1/2.
    let mid = midpoint(&p, &Multivector::point(0, 1));
    assert_eq!(dist_point_to_line(&mid, &crease), 0);
}

#[test]
fn axiom_7_returns_none_for_parallel_lines() {
    let p = Multivector::point(1, 1);
    // Parallel, same orientation.
    assert!(axiom_7(&p, &Multivector::line(1, 0, 0), &Multivector::line(1, 0, -1)).is_none());
    // Parallel, opposite orientation (angle within tolerance of pi in the
    // floating-point reading).
    assert!(axiom_7(&p, &Multivector::line(1, 0, 0), &Multivector::line(-1, 0, 1)).is_none());
    // Not parallel: a solution exists.
    assert!(axiom_7(&p, &Multivector::line(1, 0, 0), &Multivector::line(1, 1, 0)).is_some());
}

#[test]
fn meet_of_parallel_lines_is_ideal() {
    let l0 = Multivector::line(1, 0, 0);
    let l1 = Multivector::line(1, 0, -1);
    let meet = intersect_lines(&l0, &l1);
    assert_eq!(meet.e12(), 0);
    assert!(meet.e20() != 0 || meet.e01() != 0);
}

#[test]
fn orthogonal_line_orientation() {
    // The perpendicular from (0,0) to x = 0 is the x-axis, oriented from the
    // point towards the line.
    let p = Multivector::point(0, 0);
    let l = Multivector::line(1, 0, 0);
    let o = orthogonal(&p, &l);
    assert_eq!((o.e0(), o.e1(), o.e2()), (0, 0, -1));
}
