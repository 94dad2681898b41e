//! Collision detection: the strict-distance test, its symmetry, and the
//! disabled-collider rules.

use ironsky::collider::Collider;
use ironsky::point::Point;

#[test]
fn it_should_detect_collision() {
    let collider_1 = Collider::new(Point::new(0, 0), 1000);
    let collider_2 = Collider::new(Point::new(1200, 1200), 1000);
    assert_eq!(collider_1.collides_with(&collider_2), true);
}

#[test]
fn it_should_not_detect_collision() {
    let collider_1 = Collider::new(Point::new(0, 0), 1000);
    let collider_2 = Collider::new(Point::new(-2000, -2000), 1000);
    assert_eq!(collider_1.collides_with(&collider_2), false);
}

#[test]
fn tangent_circles_do_not_collide() {
    // Centres exactly two radii apart: distance equals the radius sum.
    let a = Collider::new(Point::new(0, 0), 1000);
    let b = Collider::new(Point::new(2000, 0), 1000);
    assert_eq!(a.collides_with(&b), false);
    // One unit closer and they collide.
    let c = Collider::new(Point::new(1999, 0), 1000);
    assert_eq!(a.collides_with(&c), true);
}

#[test]
fn collision_is_symmetric() {
    let a = Collider::new(Point::new(0, 0), 5000);
    let b = Collider::new(Point::new(3000, 4000), 1000);
    assert_eq!(a.collides_with(&b), b.collides_with(&a));
    let far = Collider::new(Point::new(900000, 0), 1000);
    assert_eq!(a.collides_with(&far), far.collides_with(&a));
}

#[test]
fn disabled_colliders_never_collide() {
    let mut a = Collider::new(Point::new(0, 0), 1000);
    let b = Collider::new(Point::new(100, 100), 1000);
    assert!(a.collides_with(&b));
    a.disable();
    assert_eq!(a.collides_with(&b), false);
    assert_eq!(b.collides_with(&a), false);
    a.enable();
    assert!(a.collides_with(&b));
}
