use glass_scene::column::Column;
use glass_scene::component::{Circle, ShapeId, ShapeKind, ShapeKindIndex, RGBA};
use glass_scene::geometry::{Vec2, SUBPIXEL};
use glass_scene::store::{ShapesStorage, StoreError};

const PX: i64 = SUBPIXEL;

fn px(p: i64) -> i64 {
    p * PX
}

fn tint(word: u32) -> RGBA {
    RGBA::from(word)
}

#[test]
fn column_insert_returns_sequential_indices() {
    let mut c: Column<u64> = Column::new();
    assert_eq!(c.len(), 0);
    assert_eq!(c.insert(10), 0);
    assert_eq!(c.insert(20), 1);
    assert_eq!(c.insert(30), 2);
    assert_eq!(c.len(), 3);
    assert_eq!(*c.get(0), 10);
    assert_eq!(*c.get(2), 30);
}

#[test]
fn column_set_overwrites_in_place() {
    let mut c: Column<u64> = Column::new();
    c.insert(1);
    c.insert(2);
    c.set(0, 9);
    assert_eq!(*c.get(0), 9);
    assert_eq!(*c.get(1), 2);
    assert_eq!(c.len(), 2);
}

#[test]
fn insert_circle_fills_all_columns() {
    let mut s = ShapesStorage::new();
    let id = s.insert_circle(Vec2 { x: px(128), y: px(128) }, px(64), tint(0x3399FFFF));
    assert_eq!(id.0, 0);
    assert_eq!(s.len(), 1);

    let entry = s.entry(0).unwrap();
    assert!(matches!(entry.kind, ShapeKind::Circle));
    assert_eq!(entry.kind_index, ShapeKindIndex(0));

    let pos = s.position(0).unwrap();
    assert_eq!(pos.center, Vec2 { x: px(128), y: px(128) });

    let geo = s.geometry(ShapeKind::Circle, ShapeKindIndex(0)).unwrap();
    assert_eq!(geo, Circle { radius: px(64) });
}

#[test]
fn accessors_reject_out_of_range_indices() {
    let mut s = ShapesStorage::new();
    s.insert_circle(Vec2 { x: 0, y: 0 }, px(8), tint(0xFFFFFFFF));
    assert_eq!(s.entry(1), Err(StoreError::IndexOutOfRange));
    assert_eq!(s.position(7), Err(StoreError::IndexOutOfRange));
    assert_eq!(
        s.geometry(ShapeKind::Circle, ShapeKindIndex(1)),
        Err(StoreError::IndexOutOfRange)
    );
}

#[test]
fn circle_bounding_box_is_center_plus_minus_radius() {
    let mut s = ShapesStorage::new();
    let id = s.insert_circle(Vec2 { x: px(100), y: px(40) }, px(25), tint(0xFF4444FF));
    let b = s.bounding_box(id.0);
    assert_eq!(b.min, Vec2 { x: px(75), y: px(15) });
    assert_eq!(b.max, Vec2 { x: px(125), y: px(65) });
}

#[test]
fn find_hovered_misses_empty_scene() {
    let s = ShapesStorage::new();
    assert!(s.find_hovered(px(10), px(10)).is_none());
}

#[test]
fn find_hovered_returns_first_hit_and_local_point() {
    let mut s = ShapesStorage::new();
    s.insert_circle(Vec2 { x: px(128), y: px(128) }, px(64), tint(0x3399FFFF));
    s.insert_circle(Vec2 { x: px(256), y: px(128) }, px(64), tint(0xFF4444FF));

    let hit = s.find_hovered(px(250), px(128)).unwrap();
    assert_eq!(hit.index, 1);
    assert_eq!(hit.local_position, Vec2 { x: px(58), y: px(64) });

    assert!(s.find_hovered(px(10), px(10)).is_none());
}

#[test]
fn find_hovered_prefers_lowest_index_on_overlap() {
    let mut s = ShapesStorage::new();
    // Three overlapping circles; the query point is inside all of them.
    s.insert_circle(Vec2 { x: px(100), y: px(100) }, px(50), tint(0x11111111));
    s.insert_circle(Vec2 { x: px(110), y: px(100) }, px(50), tint(0x22222222));
    s.insert_circle(Vec2 { x: px(90), y: px(100) }, px(50), tint(0x33333333));

    let hit = s.find_hovered(px(100), px(100)).unwrap();
    assert_eq!(hit.index, 0);
}

#[test]
fn find_hovered_misses_on_max_edge() {
    let mut s = ShapesStorage::new();
    s.insert_circle(Vec2 { x: px(100), y: px(100) }, px(50), tint(0x11111111));
    // The bounding box spans [50, 150) on both axes.
    assert!(s.find_hovered(px(150), px(100)).is_none());
    assert!(s.find_hovered(px(100), px(150)).is_none());
    assert!(s.find_hovered(px(50), px(50)).is_some());
}

#[test]
fn check_hovered_tests_one_shape_only() {
    let mut s = ShapesStorage::new();
    s.insert_circle(Vec2 { x: px(100), y: px(100) }, px(10), tint(0x11111111));
    s.insert_circle(Vec2 { x: px(200), y: px(100) }, px(10), tint(0x22222222));
    // The point is inside shape 1, not shape 0.
    assert!(s.check_hovered(0, px(200), px(100)).is_none());
    let p = s.check_hovered(1, px(200), px(100)).unwrap();
    assert_eq!(p, Vec2 { x: px(10), y: px(10) });
}

#[test]
fn init_buffers_mirrors_every_column() {
    let mut s = ShapesStorage::new();
    s.insert_circle(Vec2 { x: px(1), y: px(2) }, px(3), tint(0x01020304));
    s.insert_circle(Vec2 { x: px(4), y: px(5) }, px(6), tint(0x05060708));

    assert!(s.entries_buffer().is_none());
    s.init_buffers();

    let entries = s.entries_buffer().as_ref().unwrap();
    assert_eq!(entries.len(), 2);
    let positions = s.positions_buffer().as_ref().unwrap();
    assert_eq!(positions[1].center, Vec2 { x: px(4), y: px(5) });
    let appearances = s.appearances_buffer().as_ref().unwrap();
    assert_eq!(appearances[0].tint_color, RGBA { r: 1, g: 2, b: 3, a: 4 });
    let circles = s.circles_buffer().as_ref().unwrap();
    assert_eq!(circles[1].radius, px(6));
}

#[test]
fn set_position_pushes_only_the_placement_column() {
    let mut s = ShapesStorage::new();
    s.insert_circle(Vec2 { x: px(10), y: px(10) }, px(5), tint(0x01020304));
    s.init_buffers();

    s.set_position(0, Vec2 { x: px(42), y: px(24) });

    // The live column and its mirror both hold the new center.
    assert_eq!(s.position(0).unwrap().center, Vec2 { x: px(42), y: px(24) });
    let positions = s.positions_buffer().as_ref().unwrap();
    assert_eq!(positions[0].center, Vec2 { x: px(42), y: px(24) });
    // The other columns' mirrors are untouched.
    assert_eq!(s.entries_buffer().as_ref().unwrap().len(), 1);
    assert_eq!(s.circles_buffer().as_ref().unwrap()[0].radius, px(5));
}

#[test]
fn drag_move_rounds_to_whole_pixels() {
    let mut s = ShapesStorage::new();
    s.insert_circle(Vec2 { x: px(100), y: px(100) }, px(20), tint(0x01020304));
    s.init_buffers();

    // Press offset (20, 20) px; fractional cursor lands on a fractional
    // corner, which is rounded to the nearest whole pixel.
    let press = Vec2 { x: px(20), y: px(20) };
    let cursor = Vec2 { x: px(125) + 100, y: px(125) + 200 };
    s.drag_move(0, press, cursor);

    // min corner: (105 + 100/256, 105 + 200/256) -> (105, 106) px.
    // center: min + radius = (125, 126) px.
    assert_eq!(
        s.position(0).unwrap().center,
        Vec2 { x: px(125), y: px(126) }
    );
    // The placement mirror was pushed too.
    assert_eq!(
        s.positions_buffer().as_ref().unwrap()[0].center,
        Vec2 { x: px(125), y: px(126) }
    );
}

#[test]
fn conversions_from_u32() {
    assert_eq!(ShapeId::from(7), ShapeId(7));
    assert_eq!(ShapeKindIndex::from(9), ShapeKindIndex(9));
}

#[test]
fn default_column_is_empty() {
    let c: Column<u8> = Column::default();
    assert_eq!(c.len(), 0);
}

#[test]
fn zero_radius_circle_is_never_hit() {
    let mut s = ShapesStorage::new();
    s.insert_circle(Vec2 { x: px(100), y: px(100) }, 0, tint(0x01020304));
    // Its bounding box is empty under the half-open convention.
    assert!(s.find_hovered(px(100), px(100)).is_none());
    assert!(s.check_hovered(0, px(100), px(100)).is_none());
}

#[test]
fn drag_move_can_cross_into_negative_coordinates() {
    let mut s = ShapesStorage::new();
    s.insert_circle(Vec2 { x: px(10), y: px(10) }, px(4), tint(0x01020304));
    s.init_buffers();

    // Cursor near the origin with a large press offset: the rounded
    // corner lands at negative pixels, ties rounding away from zero.
    let press = Vec2 { x: px(8), y: px(8) };
    let cursor = Vec2 { x: px(2), y: px(5) - PX / 2 };
    s.drag_move(0, press, cursor);

    // min corner: (2 - 8, 5 - 0.5 - 8) = (-6, -3.5) -> (-6, -4) px.
    // center: min + radius = (-2, 0) px.
    assert_eq!(s.position(0).unwrap().center, Vec2 { x: px(-2), y: 0 });
}
