use rustracer::coord::{point, vector, Point, Vector};
use rustracer::matrix::identity_matrix;
use rustracer::rat::{nums_equal, Rat};
use rustracer::rays::ray;
use rustracer::sphere::sphere;
use rustracer::transform::{scaling, translation};

fn q(n: i128, d: i128) -> Rat {
    Rat::new(n, d)
}

fn qi(n: i128) -> Rat {
    Rat::from_int(n)
}

fn p3(x: i128, y: i128, z: i128) -> Point {
    point(qi(x), qi(y), qi(z))
}

fn v3(x: i128, y: i128, z: i128) -> Vector {
    vector(qi(x), qi(y), qi(z))
}

#[test]
fn ray_intersects_sphere_at_two_points() {
    let r = ray(p3(0, 0, -5), v3(0, 0, 1));
    let s = sphere();
    let xs = s.intersect(r);
    assert_eq!(xs.len(), 2);
    assert!(nums_equal(&xs.get(0).t(), &qi(4)));
    assert!(nums_equal(&xs.get(1).t(), &qi(6)));
    assert!(xs.get(0).object().as_sphere().approx_eq(&s));
    assert!(xs.get(1).object().as_sphere().approx_eq(&s));
}

#[test]
fn ray_intersects_sphere_at_tangent() {
    let r = ray(p3(0, 1, -5), v3(0, 0, 1));
    let s = sphere();
    let xs = s.intersect(r);
    assert_eq!(xs.len(), 2);
    assert!(nums_equal(&xs.get(0).t(), &qi(5)));
    assert!(nums_equal(&xs.get(1).t(), &qi(5)));
}

#[test]
fn ray_misses_sphere() {
    let r = ray(p3(0, 2, -5), v3(0, 0, 1));
    let s = sphere();
    let xs = s.intersect(r);
    assert!(xs.is_empty());
}

#[test]
fn ray_originates_inside_sphere() {
    let r = ray(p3(0, 0, 0), v3(0, 0, 1));
    let s = sphere();
    let xs = s.intersect(r);
    assert_eq!(xs.len(), 2);
    assert!(nums_equal(&xs.get(0).t(), &qi(-1)));
    assert!(nums_equal(&xs.get(1).t(), &qi(1)));
}

#[test]
fn sphere_is_behind_ray() {
    let r = ray(p3(0, 0, 5), v3(0, 0, 1));
    let s = sphere();
    let xs = s.intersect(r);
    assert_eq!(xs.len(), 2);
    assert!(nums_equal(&xs.get(0).t(), &qi(-6)));
    assert!(nums_equal(&xs.get(1).t(), &qi(-4)));
}

#[test]
fn sphere_default_transformation() {
    let s = sphere();
    assert!(s.tf.approx_eq(&identity_matrix()));
}

#[test]
fn change_a_sphere_transformation() {
    let mut s = sphere();
    let t = translation(qi(2), qi(3), qi(4));
    s.set_transform(t.clone());
    assert!(s.tf.approx_eq(&t));
}

#[test]
fn intersect_scaled_sphere_with_ray() {
    let r = ray(p3(0, 0, -5), v3(0, 0, 1));
    let s = sphere().with_transform(scaling(qi(2), qi(2), qi(2)));
    let xs = s.intersect(r);
    assert_eq!(xs.len(), 2);
    assert!(nums_equal(&xs.get(0).t(), &qi(3)));
    assert!(nums_equal(&xs.get(1).t(), &qi(7)));
}

#[test]
fn intersection_translated_sphere_with_ray() {
    let r = ray(p3(0, 0, -5), v3(0, 0, 1));
    let s = sphere().with_transform(translation(qi(5), qi(0), qi(0)));
    let xs = s.intersect(r);
    assert!(xs.is_empty());
}

#[test]
fn normal_on_a_sphere_at_a_point_on_the_x_axis() {
    let s = sphere();
    let n = s.normal_at(p3(1, 0, 0));
    assert!(n.approx_eq(&v3(1, 0, 0)));
}

#[test]
fn normal_on_a_sphere_at_a_point_on_the_y_axis() {
    let s = sphere();
    let n = s.normal_at(p3(0, 1, 0));
    assert!(n.approx_eq(&v3(0, 1, 0)));
}

#[test]
fn normal_on_a_sphere_at_a_point_on_the_z_axis() {
    let s = sphere();
    let n = s.normal_at(p3(0, 0, 1));
    assert!(n.approx_eq(&v3(0, 0, 1)));
}

#[test]
fn normal_on_a_sphere_at_a_nonaxial_point() {
    // sqrt(3)/3, to five decimal places
    let c = q(57735, 100000);
    let s = sphere();
    let n = s.normal_at(point(c, c, c));
    assert!(n.approx_eq(&vector(c, c, c)));
}

#[test]
fn the_normal_is_a_normalized_vector() {
    // the expected vector is the unit vector in the same direction, so the
    // normal coincides with its own normalized form up to the grid
    let c = q(57735, 100000);
    let s = sphere();
    let n = s.normal_at(point(c, c, c));
    assert!(n.approx_eq(&vector(c, c, c)));
    assert!(nums_equal(&n.w(), &qi(0)));
}
