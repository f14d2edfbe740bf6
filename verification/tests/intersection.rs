use rustracer::intersection::{intersection, intersections, Intersection};
use rustracer::rat::{nums_equal, Rat};
use rustracer::sphere::sphere;

fn qi(n: i128) -> Rat {
    Rat::from_int(n)
}

#[test]
fn an_intersection_encapsulates_t_and_object() {
    let s = sphere();
    let i = intersection(Rat::new(35, 10), s.clone());
    assert!(nums_equal(&i.t(), &Rat::new(35, 10)));
    assert!(i.object().as_sphere().approx_eq(&s));
}

#[test]
fn aggregating_intersections() {
    let s = sphere();
    let i1 = intersection(qi(1), s.clone());
    let i2 = intersection(qi(2), s);
    let xs = intersections(vec![i1, i2]);
    assert_eq!(xs.len(), 2);
    assert!(nums_equal(&xs.get(0).t(), &qi(1)));
    assert!(nums_equal(&xs.get(1).t(), &qi(2)));
}

#[test]
fn the_hit_all_xs_have_positive_t() {
    let s = sphere();
    let i1 = intersection(qi(1), s.clone());
    let i2 = intersection(qi(2), s);
    let xs = intersections(vec![i2, i1]);
    let h: Option<Intersection> = xs.hit();
    assert!(nums_equal(&h.unwrap().t(), &qi(1)));
}

#[test]
fn the_hit_all_some_xs_have_negative_t() {
    let s = sphere();
    let i1 = intersection(qi(-1), s.clone());
    let i2 = intersection(qi(2), s);
    let xs = intersections(vec![i2, i1]);
    let h = xs.hit();
    assert!(nums_equal(&h.unwrap().t(), &qi(2)));
}

#[test]
fn the_hit_all_xs_negative_t() {
    let s = sphere();
    let i1 = intersection(qi(-2), s.clone());
    let i2 = intersection(qi(-1), s);
    let xs = intersections(vec![i2, i1]);
    assert!(xs.hit().is_none());
}

#[test]
fn the_hit_is_always_the_lowest_nonneg_intersection() {
    let s = sphere();
    let i1 = intersection(qi(5), s.clone());
    let i2 = intersection(qi(7), s.clone());
    let i3 = intersection(qi(-3), s.clone());
    let i4 = intersection(qi(2), s);
    let xs = intersections(vec![i1, i2, i3, i4]);
    let h = xs.hit();
    assert!(nums_equal(&h.unwrap().t(), &qi(2)));
}

#[test]
fn the_hit_keeps_the_earliest_of_equal_ts() {
    let s = sphere();
    let i1 = intersection(qi(3), s.clone());
    let i2 = intersection(qi(3), s.clone());
    let xs = intersections(vec![i1, i2]);
    let h = xs.hit().unwrap();
    assert!(nums_equal(&h.t(), &qi(3)));
}

#[test]
fn the_hit_excludes_t_exactly_zero() {
    let s = sphere();
    let i1 = intersection(qi(0), s.clone());
    let i2 = intersection(qi(4), s);
    let xs = intersections(vec![i1, i2]);
    let h = xs.hit();
    assert!(nums_equal(&h.unwrap().t(), &qi(4)));
}
