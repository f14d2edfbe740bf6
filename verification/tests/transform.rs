use rustracer::coord::{point, vector, Point, Vector};
use rustracer::matrix::Matrix;
use rustracer::rat::Rat;
use rustracer::transform::{chain, rotation_x, rotation_y, rotation_z, scaling, shearing, translation};

fn q(n: i128, d: i128) -> Rat {
    Rat::new(n, d)
}

fn qi(n: i128) -> Rat {
    Rat::from_int(n)
}

fn p3(x: i128, y: i128, z: i128) -> Point {
    point(qi(x), qi(y), qi(z))
}

fn v3(x: i128, y: i128, z: i128) -> Vector {
    vector(qi(x), qi(y), qi(z))
}

// sine and cosine of a quarter-turn half (45 degrees), to five decimals
fn half_quarter_sin() -> Rat {
    q(70711, 100000)
}

fn half_quarter_cos() -> Rat {
    q(70711, 100000)
}

#[test]
fn multiplying_by_a_translation_matrix() {
    let transform = translation(qi(5), qi(-3), qi(2));
    let p = p3(-3, 4, 5);
    assert!(transform.mul_point(&p).approx_eq(&p3(2, 1, 7)));
}

#[test]
fn test_multiplying_by_the_inverse_of_a_translation_matrix() {
    let transform = translation(qi(5), qi(-3), qi(2));
    let inv = transform.inverse();
    let p = p3(-3, 4, 5);
    assert!(inv.mul_point(&p).approx_eq(&p3(-8, 7, 3)));
}

#[test]
fn test_translation_does_not_affect_vectors() {
    let transform = translation(qi(5), qi(-3), qi(2));
    let v = v3(-3, 4, 5);
    assert!(transform.mul_vector(&v).approx_eq(&v));
}

#[test]
fn test_scaling_matrix_applied_to_a_point() {
    let transform = scaling(qi(2), qi(3), qi(4));
    let p = p3(-4, 6, 8);
    assert!(transform.mul_point(&p).approx_eq(&p3(-8, 18, 32)));
}

#[test]
fn test_scaling_matrix_applied_to_a_vector() {
    let transform = scaling(qi(2), qi(3), qi(4));
    let v = v3(-4, 6, 8);
    assert!(transform.mul_vector(&v).approx_eq(&v3(-8, 18, 32)));
}

#[test]
fn test_multiplying_by_the_inverse_of_a_scaling_matrix() {
    let transform = scaling(qi(2), qi(3), qi(4));
    let inv = transform.inverse();
    let v = v3(-4, 6, 8);
    assert!(inv.mul_vector(&v).approx_eq(&v3(-2, 2, 2)));
}

#[test]
fn test_reflection_is_scaling_by_a_negative_value() {
    let transform = scaling(qi(-1), qi(1), qi(1));
    let p = p3(2, 3, 4);
    assert!(transform.mul_point(&p).approx_eq(&p3(-2, 3, 4)));
}

#[test]
fn test_rotate_point_around_the_x_axis() {
    let p = p3(0, 1, 0);
    let half_quarter = rotation_x(half_quarter_sin(), half_quarter_cos());
    let full_quarter = rotation_x(qi(1), qi(0));
    let sq2_half = q(70711, 100000);
    assert!(half_quarter.mul_point(&p).approx_eq(&point(qi(0), sq2_half, sq2_half)));
    assert!(full_quarter.mul_point(&p).approx_eq(&p3(0, 0, 1)));
}

#[test]
fn test_rotate_point_around_the_x_axis_inverted() {
    let p = p3(0, 1, 0);
    let half_quarter = rotation_x(half_quarter_sin(), half_quarter_cos());
    let inv = half_quarter.inverse();
    let sq2_half = q(70711, 100000);
    assert!(inv.mul_point(&p).approx_eq(&point(qi(0), sq2_half, sq2_half.neg())));
}

#[test]
fn test_rotate_point_around_the_y_axis() {
    let p = p3(0, 0, 1);
    let half_quarter = rotation_y(half_quarter_sin(), half_quarter_cos());
    let full_quarter = rotation_y(qi(1), qi(0));
    let sq2_half = q(70711, 100000);
    assert!(half_quarter.mul_point(&p).approx_eq(&point(sq2_half, qi(0), sq2_half)));
    assert!(full_quarter.mul_point(&p).approx_eq(&p3(1, 0, 0)));
}

#[test]
fn test_rotate_point_around_the_z_axis() {
    let p = p3(0, 1, 0);
    let half_quarter = rotation_z(half_quarter_sin(), half_quarter_cos());
    let full_quarter = rotation_z(qi(1), qi(0));
    let sq2_half = q(70711, 100000);
    assert!(half_quarter.mul_point(&p).approx_eq(&point(sq2_half.neg(), sq2_half, qi(0))));
    assert!(full_quarter.mul_point(&p).approx_eq(&p3(-1, 0, 0)));
}

#[test]
fn test_shearing_xy() {
    let transform = shearing(qi(1), qi(0), qi(0), qi(0), qi(0), qi(0));
    let p = p3(2, 3, 4);
    assert!(transform.mul_point(&p).approx_eq(&p3(5, 3, 4)));
}

#[test]
fn test_shearing_xz() {
    let transform = shearing(qi(0), qi(1), qi(0), qi(0), qi(0), qi(0));
    let p = p3(2, 3, 4);
    assert!(transform.mul_point(&p).approx_eq(&p3(6, 3, 4)));
}

#[test]
fn test_shearing_yx() {
    let transform = shearing(qi(0), qi(0), qi(1), qi(0), qi(0), qi(0));
    let p = p3(2, 3, 4);
    assert!(transform.mul_point(&p).approx_eq(&p3(2, 5, 4)));
}

#[test]
fn test_shearing_yz() {
    let transform = shearing(qi(0), qi(0), qi(0), qi(1), qi(0), qi(0));
    let p = p3(2, 3, 4);
    assert!(transform.mul_point(&p).approx_eq(&p3(2, 7, 4)));
}

#[test]
fn test_shearing_zx() {
    let transform = shearing(qi(0), qi(0), qi(0), qi(0), qi(1), qi(0));
    let p = p3(2, 3, 4);
    assert!(transform.mul_point(&p).approx_eq(&p3(2, 3, 6)));
}

#[test]
fn test_shearing_zy() {
    let transform = shearing(qi(0), qi(0), qi(0), qi(0), qi(0), qi(1));
    let p = p3(2, 3, 4);
    assert!(transform.mul_point(&p).approx_eq(&p3(2, 3, 7)));
}

#[test]
fn test_transforms_applied_in_sequence() {
    let p = p3(1, 0, 1);
    let a = rotation_x(qi(1), qi(0));
    let b = scaling(qi(5), qi(5), qi(5));
    let c = translation(qi(10), qi(5), qi(7));

    let p2 = a.mul_point(&p);
    assert!(p2.approx_eq(&p3(1, -1, 0)));
    let p3_ = b.mul_point(&p2);
    assert!(p3_.approx_eq(&p3(5, -5, 0)));
    let p4 = c.mul_point(&p3_);
    assert!(p4.approx_eq(&p3(15, 0, 7)));
}

#[test]
fn test_chained_transforms() {
    let p = p3(1, 0, 1);
    let a = rotation_x(qi(1), qi(0));
    let b = scaling(qi(5), qi(5), qi(5));
    let c = translation(qi(10), qi(5), qi(7));

    let xf = c.mul_matrix(&b).mul_matrix(&a);
    assert!(xf.mul_point(&p).approx_eq(&p3(15, 0, 7)));

    let list: Vec<Matrix> = vec![a, b, c];
    let xf2 = chain(&list);
    assert!(xf2.mul_point(&p).approx_eq(&p3(15, 0, 7)));
}
