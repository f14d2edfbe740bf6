use rustracer::coord::{point, vector, Point, Vector};
use rustracer::rat::Rat;
use rustracer::rays::ray;
use rustracer::transform::{scaling, translation};

fn q(n: i128, d: i128) -> Rat {
    Rat::new(n, d)
}

fn qi(n: i128) -> Rat {
    Rat::from_int(n)
}

fn p3(x: i128, y: i128, z: i128) -> Point {
    point(qi(x), qi(y), qi(z))
}

fn v3(x: i128, y: i128, z: i128) -> Vector {
    vector(qi(x), qi(y), qi(z))
}

#[test]
fn create_and_query_array() {
    let origin = p3(1, 2, 3);
    let dir = v3(4, 5, 6);
    let r = ray(origin, dir);
    assert!(r.origin().approx_eq(&origin));
    assert!(r.dir().approx_eq(&dir));
}

#[test]
fn computing_point_from_a_distance() {
    let r = ray(p3(2, 3, 4), v3(1, 0, 0));
    assert!(r.position(qi(0)).approx_eq(&p3(2, 3, 4)));
    assert!(r.position(qi(1)).approx_eq(&p3(3, 3, 4)));
    assert!(r.position(qi(-1)).approx_eq(&p3(1, 3, 4)));
    assert!(r.position(q(25, 10)).approx_eq(&point(q(45, 10), qi(3), qi(4))));
}

#[test]
fn translating_a_ray() {
    let r = ray(p3(1, 2, 3), v3(0, 1, 0));
    let m = translation(qi(3), qi(4), qi(5));
    let r2 = r.transform(&m);
    assert!(r2.origin().approx_eq(&p3(4, 6, 8)));
    assert!(r2.dir().approx_eq(&v3(0, 1, 0)));
}

#[test]
fn scaling_a_ray() {
    let r = ray(p3(1, 2, 3), v3(0, 1, 0));
    let m = scaling(qi(2), qi(3), qi(4));
    let r2 = r.transform(&m);
    assert!(r2.origin().approx_eq(&p3(2, 6, 12)));
    assert!(r2.dir().approx_eq(&v3(0, 3, 0)));
}
