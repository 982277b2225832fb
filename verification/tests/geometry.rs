use glass_scene::geometry::{round_to_pixel, Vec2, AABB, SUBPIXEL};

const PX: i64 = SUBPIXEL;

fn square(min_x: i64, min_y: i64, max_x: i64, max_y: i64) -> AABB {
    AABB {
        min: Vec2 { x: min_x * PX, y: min_y * PX },
        max: Vec2 { x: max_x * PX, y: max_y * PX },
    }
}

#[test]
fn hit_test_strictly_inside() {
    let b = square(10, 20, 30, 40);
    assert!(b.hit_test(15 * PX, 25 * PX));
    assert!(b.hit_test(29 * PX, 39 * PX));
}

#[test]
fn hit_test_min_edge_is_inside() {
    let b = square(10, 20, 30, 40);
    assert!(b.hit_test(10 * PX, 20 * PX));
    assert!(b.hit_test(10 * PX, 39 * PX));
}

#[test]
fn hit_test_max_edge_is_outside() {
    let b = square(10, 20, 30, 40);
    assert!(!b.hit_test(30 * PX, 25 * PX));
    assert!(!b.hit_test(15 * PX, 40 * PX));
    assert!(!b.hit_test(30 * PX, 40 * PX));
}

#[test]
fn hit_test_outside() {
    let b = square(10, 20, 30, 40);
    assert!(!b.hit_test(9 * PX, 25 * PX));
    assert!(!b.hit_test(15 * PX, 19 * PX));
    assert!(!b.hit_test(100 * PX, 100 * PX));
}

#[test]
fn adjacent_boxes_share_no_point() {
    // The shared edge x = 30 belongs to the right box only.
    let left = square(10, 0, 30, 10);
    let right = square(30, 0, 50, 10);
    assert!(!left.hit_test(30 * PX, 5 * PX));
    assert!(right.hit_test(30 * PX, 5 * PX));
}

#[test]
fn local_point_is_relative_to_min_corner() {
    let b = square(10, 20, 30, 40);
    let p = b.local_point(15 * PX, 25 * PX);
    assert_eq!(p, Vec2 { x: 5 * PX, y: 5 * PX });
    let q = b.local_point(10 * PX, 20 * PX);
    assert_eq!(q, Vec2 { x: 0, y: 0 });
}

#[test]
fn with_center_translates_both_corners() {
    let local = square(-4, -4, 4, 4);
    let world = local.with_center(Vec2 { x: 100 * PX, y: 50 * PX });
    assert_eq!(world.min, Vec2 { x: 96 * PX, y: 46 * PX });
    assert_eq!(world.max, Vec2 { x: 104 * PX, y: 54 * PX });
}

#[test]
fn rounding_keeps_whole_pixels() {
    assert_eq!(round_to_pixel(0), 0);
    assert_eq!(round_to_pixel(7 * PX), 7 * PX);
    assert_eq!(round_to_pixel(-7 * PX), -7 * PX);
}

#[test]
fn rounding_goes_to_nearest_pixel() {
    // 100/256 of a pixel rounds down, 200/256 rounds up.
    assert_eq!(round_to_pixel(7 * PX + 100), 7 * PX);
    assert_eq!(round_to_pixel(7 * PX + 200), 8 * PX);
    assert_eq!(round_to_pixel(-7 * PX - 100), -7 * PX);
    assert_eq!(round_to_pixel(-7 * PX - 200), -8 * PX);
}

#[test]
fn rounding_ties_away_from_zero() {
    assert_eq!(round_to_pixel(PX / 2), PX);
    assert_eq!(round_to_pixel(-PX / 2), -PX);
    assert_eq!(round_to_pixel(3 * PX + PX / 2), 4 * PX);
    assert_eq!(round_to_pixel(-3 * PX - PX / 2), -4 * PX);
}
