use rustracer::coord::{point, tuple, vector, Point, Tuple4, Vector};
use rustracer::rat::{nums_equal, Rat};

fn q(n: i128, d: i128) -> Rat {
    Rat::new(n, d)
}

fn qi(n: i128) -> Rat {
    Rat::from_int(n)
}

fn tup4(x: Rat, y: Rat, z: Rat, w: Rat) -> Tuple4 {
    tuple(x, y, z, w)
}

fn p3(x: i128, y: i128, z: i128) -> Point {
    point(qi(x), qi(y), qi(z))
}

fn v3(x: i128, y: i128, z: i128) -> Vector {
    vector(qi(x), qi(y), qi(z))
}

#[test]
fn test_tuples() {
    let t = tup4(q(43, 10), q(-42, 10), q(31, 10), qi(1));
    assert!(nums_equal(&t.x(), &q(43, 10)));
    assert!(nums_equal(&t.y(), &q(-42, 10)));
    assert!(nums_equal(&t.z(), &q(31, 10)));
    assert!(nums_equal(&t.w(), &qi(1)));
    assert!(t.is_point());
    assert!(!t.is_vector());

    let t = tup4(q(43, 10), q(-42, 10), q(31, 10), qi(0));
    assert!(nums_equal(&t.w(), &qi(0)));
    assert!(!t.is_point());
    assert!(t.is_vector());
}

#[test]
fn test_tuple_convenience() {
    let p = p3(4, -4, 3);
    assert!(p.tup.approx_eq(&tup4(qi(4), qi(-4), qi(3), qi(1))));

    let v = v3(4, -4, 3);
    assert!(v.tup.approx_eq(&tup4(qi(4), qi(-4), qi(3), qi(0))));
}

#[test]
fn test_add_tuples() {
    let a1 = tup4(qi(3), qi(-2), qi(5), qi(1));
    let a2 = tup4(qi(-2), qi(3), qi(1), qi(0));
    let sum = a1.add_tuple(&a2);
    assert!(sum.approx_eq(&tup4(qi(1), qi(1), qi(6), qi(1))));
}

#[test]
fn test_subtract_points() {
    let p1 = p3(3, 2, 1);
    let p2 = p3(5, 6, 7);
    assert!(p1.sub_point(p2).approx_eq(&v3(-2, -4, -6)));
}

#[test]
fn test_subtract_vector_from_point() {
    let p1 = p3(3, 2, 1);
    let v1 = v3(5, 6, 7);
    assert!(p1.sub_vector(v1).approx_eq(&p3(-2, -4, -6)));
}

#[test]
fn test_subtract_vector_from_vector() {
    let v1 = v3(3, 2, 1);
    let v2 = v3(5, 6, 7);
    assert!(v1.sub_vector(v2).approx_eq(&v3(-2, -4, -6)));
}

#[test]
fn test_subtract_vector_from_zero_vector() {
    let z = v3(0, 0, 0);
    let v = v3(1, -2, 3);
    assert!(v.sub_vector(z).approx_eq(&v3(1, -2, 3)));
}

#[test]
fn test_negate_tuple() {
    let a = tup4(qi(1), qi(-2), qi(3), qi(-4));
    assert!(a.neg().approx_eq(&tup4(qi(-1), qi(2), qi(-3), qi(4))));
}

#[test]
fn test_multiply_tuple_by_scalar() {
    let t = tup4(qi(1), qi(-2), qi(3), qi(-4));
    let r = t.mul_scalar(q(35, 10));
    assert!(r.approx_eq(&tup4(q(35, 10), qi(-7), q(105, 10), qi(-14))));
}

#[test]
fn test_multiply_tuple_by_fraction() {
    let t = tup4(qi(1), qi(-2), qi(3), qi(-4));
    let r = t.mul_scalar(q(1, 2));
    assert!(r.approx_eq(&tup4(q(1, 2), qi(-1), q(3, 2), qi(-2))));
}

#[test]
fn test_divide_tuple_by_scalar() {
    let t = tup4(qi(1), qi(-2), qi(3), qi(-4));
    let r = t.div_scalar(qi(2));
    assert!(r.approx_eq(&tup4(q(1, 2), qi(-1), q(3, 2), qi(-2))));
}

#[test]
fn test_compute_magnitude_of_vectors() {
    let sqrt14 = q(3741657, 1000000);
    let cases = [
        (v3(0, 1, 0), qi(1)),
        (v3(0, 0, 1), qi(1)),
        (v3(1, 2, 3), sqrt14),
        (v3(-1, -2, -3), sqrt14),
    ];
    for (v, ex) in cases {
        let mag = v.magnitude();
        assert!(
            nums_equal(&mag, &ex),
            "expected {v:?}.magnitude() == {ex:?} but was {mag:?}"
        );
    }
}

#[test]
fn test_normalize_vector() {
    let cases = [
        (v3(4, 0, 0), (q(1, 1), q(0, 1), q(0, 1))),
        (v3(1, 2, 3), (q(26726, 100000), q(53452, 100000), q(80178, 100000))),
    ];
    for (v, ex) in cases {
        let norm = v.normalize();
        let exv = vector(ex.0, ex.1, ex.2);
        assert!(
            norm.approx_eq(&exv),
            "expected {v:?}.normalize() == {exv:?} but was {norm:?}"
        );
    }
}

#[test]
fn test_magnitude_of_normalized_vector() {
    let v = v3(1, 2, 3);
    let n = v.normalize();
    let m = n.magnitude();
    assert!(nums_equal(&m, &qi(1)));
}

#[test]
fn test_dot_product_of_two_tuples() {
    let a = v3(1, 2, 3);
    let b = v3(2, 3, 4);
    assert!(nums_equal(&a.dot(b), &qi(20)));
}

#[test]
fn test_cross_product_of_two_vectors() {
    let a = v3(1, 2, 3);
    let b = v3(2, 3, 4);
    assert!(a.cross(b).approx_eq(&v3(-1, 2, -1)));
    assert!(b.cross(a).approx_eq(&v3(1, -2, 1)));
}

#[test]
fn tuple_setters_rescale_components() {
    let mut t = tup4(qi(1), qi(2), qi(3), qi(4));
    t.set_x(q(1, 2));
    t.set_y(qi(-2));
    t.set_z(q(7, 4));
    t.set_w(qi(0));
    assert!(t.approx_eq(&tup4(q(1, 2), qi(-2), q(7, 4), qi(0))));
    let mut u = tup4(qi(1), qi(2), qi(3), qi(4));
    u.set(2, qi(9));
    assert!(nums_equal(&u.get(2), &qi(9)));
    assert!(nums_equal(&u.get(0), &qi(1)));
}
