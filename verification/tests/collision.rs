use minecraft::collision::{CollisionBox, CollisionPoint};
use minecraft::utils::Position;

#[test]
fn block_box_is_the_unit_cube_at_the_block() {
    let b = CollisionBox::from_block_position(3, 4, -2);
    assert_eq!((b.min_x, b.max_x), (3, 4));
    assert_eq!((b.min_y, b.max_y), (4, 5));
    assert_eq!((b.min_z, b.max_z), (-2, -1));
    assert_eq!(b.to_block_position(), Position::new(3, 4, -2));
}

#[test]
fn boxes_report_point_containment_with_boundaries() {
    let b = CollisionBox::new(0, 0, 0, 2, 2, 2);
    assert!(b.intersects_point(&CollisionPoint::new(1, 1, 1)));
    assert!(b.intersects_point(&CollisionPoint::new(0, 0, 0)));
    assert!(b.intersects_point(&CollisionPoint::new(2, 2, 2)));
    assert!(!b.intersects_point(&CollisionPoint::new(3, 1, 1)));
    assert!(!b.intersects_point(&CollisionPoint::new(1, -1, 1)));
}

#[test]
fn boxes_intersect_when_overlapping_on_every_axis() {
    let a = CollisionBox::new(0, 0, 0, 2, 2, 2);
    let b = CollisionBox::new(1, 1, 1, 2, 2, 2);
    let c = CollisionBox::new(5, 0, 0, 1, 1, 1);
    assert!(a.intersects(&b));
    assert!(b.intersects(&a));
    assert!(!a.intersects(&c));
    // Touching boxes count as intersecting.
    let d = CollisionBox::new(2, 0, 0, 1, 2, 2);
    assert!(a.intersects(&d));
}
