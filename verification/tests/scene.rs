use glass_scene::component::{ShapeKind, RGBA};
use glass_scene::geometry::{Vec2, SUBPIXEL};
use glass_scene::pointer::{GlassPointerState, PointerState};
use glass_scene::shapes::Shapes;

const PX: i64 = SUBPIXEL;

fn px(p: i64) -> i64 {
    p * PX
}

fn demo_scene() -> Shapes {
    let mut scene = Shapes::new(800, 600);
    scene.insert_circle(Vec2 { x: px(128), y: px(128) }, px(64), RGBA::from(0x3399FFFF));
    scene.insert_circle(Vec2 { x: px(256), y: px(128) }, px(64), RGBA::from(0xFF4444FF));
    scene.init_gpu();
    scene
}

#[test]
fn rgba_from_word_splits_channels() {
    assert_eq!(
        RGBA::from(0x3399FFFF),
        RGBA { r: 0x33, g: 0x99, b: 0xFF, a: 0xFF }
    );
    assert_eq!(RGBA::from(0), RGBA { r: 0, g: 0, b: 0, a: 0 });
}

#[test]
fn shader_constants() {
    assert_eq!(ShapeKind::Circle.shader_constant(), 1);
    assert_eq!(GlassPointerState::Idle.shader_constant(), 0);
    assert_eq!(GlassPointerState::Hovered.shader_constant(), 1);
    assert_eq!(GlassPointerState::Pressed.shader_constant(), 2);
    assert_eq!(GlassPointerState::Dragging.shader_constant(), 3);
    assert!(matches!(GlassPointerState::default(), GlassPointerState::Idle));
}

#[test]
fn pointer_state_take_leaves_idle() {
    let mut st = PointerState::Hovered {
        index: 3,
        hover_position: Vec2 { x: 1, y: 2 },
    };
    let taken = st.take();
    assert!(matches!(taken, PointerState::Hovered { index: 3, .. }));
    assert!(matches!(st, PointerState::Idle));
    assert!(matches!(PointerState::default(), PointerState::Idle));
}

#[test]
fn new_scene_is_idle_and_ungenerated() {
    let scene = Shapes::new(640, 480);
    assert!(matches!(scene.state(), PointerState::Idle));
    assert_eq!(scene.silhouette().width(), 640);
    assert_eq!(scene.silhouette().height(), 480);
    assert_eq!(scene.silhouette().generations(), 0);
    assert_eq!(scene.light().generations(), 0);
}

#[test]
fn init_gpu_runs_both_passes_once() {
    let scene = demo_scene();
    assert_eq!(scene.silhouette().generations(), 1);
    assert_eq!(scene.light().generations(), 1);
}

#[test]
fn cursor_move_hovers_the_shape_under_the_cursor() {
    let mut scene = demo_scene();
    let regenerated = scene.cursor_move(px(128), px(128));
    assert!(!regenerated);
    assert_eq!(
        *scene.state(),
        PointerState::Hovered {
            index: 0,
            hover_position: Vec2 { x: px(64), y: px(64) },
        }
    );
}

#[test]
fn cursor_move_over_nothing_stays_idle() {
    let mut scene = demo_scene();
    let regenerated = scene.cursor_move(px(10), px(10));
    assert!(!regenerated);
    assert!(matches!(scene.state(), PointerState::Idle));
}

#[test]
fn hover_prefers_lowest_index_on_overlap() {
    let mut scene = Shapes::new(800, 600);
    scene.insert_circle(Vec2 { x: px(100), y: px(100) }, px(50), RGBA::from(0x11111111));
    scene.insert_circle(Vec2 { x: px(110), y: px(100) }, px(50), RGBA::from(0x22222222));
    scene.init_gpu();
    scene.cursor_move(px(105), px(100));
    assert!(matches!(
        scene.state(),
        PointerState::Hovered { index: 0, .. }
    ));
}

#[test]
fn hover_moves_to_the_next_shape_after_leaving_one() {
    let mut scene = demo_scene();
    scene.cursor_move(px(128), px(128));
    assert!(matches!(scene.state(), PointerState::Hovered { index: 0, .. }));
    // Still inside shape 0: the hover offset follows the cursor.
    scene.cursor_move(px(130), px(128));
    assert_eq!(
        *scene.state(),
        PointerState::Hovered {
            index: 0,
            hover_position: Vec2 { x: px(66), y: px(64) },
        }
    );
    // Off shape 0, onto shape 1.
    scene.cursor_move(px(250), px(128));
    assert!(matches!(scene.state(), PointerState::Hovered { index: 1, .. }));
    // Off every shape.
    scene.cursor_move(px(10), px(10));
    assert!(matches!(scene.state(), PointerState::Idle));
}

#[test]
fn press_drag_release_round_trip() {
    let mut scene = demo_scene();
    scene.cursor_move(px(128), px(128));
    scene.mouse_press();
    assert_eq!(
        *scene.state(),
        PointerState::Pressed {
            index: 0,
            press_position: Vec2 { x: px(64), y: px(64) },
        }
    );
    // The first move after a press starts the drag without moving anything.
    let regenerated = scene.cursor_move(px(129), px(128));
    assert!(!regenerated);
    assert_eq!(
        *scene.state(),
        PointerState::Dragging {
            index: 0,
            press_position: Vec2 { x: px(64), y: px(64) },
        }
    );
    let before = scene.silhouette().generations();
    // Now the shape follows the cursor.
    let regenerated = scene.cursor_move(px(129), px(128));
    assert!(regenerated);
    assert_eq!(scene.silhouette().generations(), before + 1);
    assert_eq!(
        scene.storage().position(0).unwrap().center,
        Vec2 { x: px(129), y: px(128) }
    );
    // Release restores the hover with the offset captured at press time.
    scene.mouse_release();
    assert_eq!(
        *scene.state(),
        PointerState::Hovered {
            index: 0,
            hover_position: Vec2 { x: px(64), y: px(64) },
        }
    );
}

#[test]
fn press_on_nothing_is_a_no_op() {
    let mut scene = demo_scene();
    scene.cursor_move(px(10), px(10));
    scene.mouse_press();
    assert!(matches!(scene.state(), PointerState::Idle));
    scene.mouse_release();
    assert!(matches!(scene.state(), PointerState::Idle));
}

#[test]
fn release_from_pressed_restores_hover() {
    let mut scene = demo_scene();
    scene.cursor_move(px(128), px(128));
    scene.mouse_press();
    scene.mouse_release();
    assert_eq!(
        *scene.state(),
        PointerState::Hovered {
            index: 0,
            hover_position: Vec2 { x: px(64), y: px(64) },
        }
    );
}

#[test]
fn end_to_end_insert_hover_drag() {
    let mut scene = Shapes::new(800, 600);
    let id = scene.insert_circle(Vec2 { x: px(128), y: px(128) }, px(64), RGBA::from(0x3399FFFF));
    assert_eq!(id.0, 0);
    scene.init_gpu();

    // Hit at the center: local point (64, 64); miss at (10, 10).
    let hit = scene.storage().find_hovered(px(128), px(128)).unwrap();
    assert_eq!(hit.index, 0);
    assert_eq!(hit.local_position, Vec2 { x: px(64), y: px(64) });
    assert!(scene.storage().find_hovered(px(10), px(10)).is_none());

    // Drag by (5, -3): hover at the center, press, start the drag, then
    // one dragging move to the displaced cursor.
    scene.cursor_move(px(128), px(128));
    scene.mouse_press();
    scene.cursor_move(px(133), px(125));
    let sil_before = scene.silhouette().generations();
    let light_before = scene.light().generations();
    let regenerated = scene.cursor_move(px(133), px(125));
    assert!(regenerated);

    // New center is (133, 125), and both stages were regenerated before
    // the next draw reads them.
    assert_eq!(
        scene.storage().position(0).unwrap().center,
        Vec2 { x: px(133), y: px(125) }
    );
    assert_eq!(scene.silhouette().generations(), sil_before + 1);
    assert_eq!(scene.light().generations(), light_before + 1);
}

#[test]
fn every_drag_move_regenerates_both_stages() {
    let mut scene = demo_scene();
    scene.cursor_move(px(128), px(128));
    scene.mouse_press();
    scene.cursor_move(px(128), px(128));
    assert!(matches!(scene.state(), PointerState::Dragging { .. }));

    let sil_before = scene.silhouette().generations();
    let light_before = scene.light().generations();
    let moves = [(129, 128), (130, 127), (131, 126), (140, 120), (140, 120)];
    for (mx, my) in moves {
        let regenerated = scene.cursor_move(px(mx), px(my));
        assert!(regenerated);
    }
    assert_eq!(scene.silhouette().generations(), sil_before + 5);
    assert_eq!(scene.light().generations(), light_before + 5);
}

#[test]
fn resize_recreates_and_regenerates_both_stages() {
    let mut scene = demo_scene();
    let sil_before = scene.silhouette().generations();
    scene.resize(1024, 768);
    assert_eq!(scene.silhouette().width(), 1024);
    assert_eq!(scene.silhouette().height(), 768);
    assert_eq!(scene.light().width(), 1024);
    assert_eq!(scene.light().height(), 768);
    assert_eq!(scene.silhouette().generations(), sil_before + 1);
}

#[test]
fn resize_twice_with_same_size_is_observably_identical() {
    // Two scenes with the same shapes: one resized once, one twice.
    let mut once = demo_scene();
    let mut twice = demo_scene();
    once.resize(1024, 768);
    twice.resize(1024, 768);
    twice.resize(1024, 768);
    assert_eq!(once.silhouette().width(), twice.silhouette().width());
    assert_eq!(once.silhouette().height(), twice.silhouette().height());
    assert_eq!(once.light().width(), twice.light().width());
    assert_eq!(once.light().height(), twice.light().height());
    // The shape data both pipelines read is untouched by resizing.
    assert_eq!(
        once.storage().position(0).unwrap().center,
        twice.storage().position(0).unwrap().center
    );
    assert_eq!(
        once.storage().position(1).unwrap().center,
        twice.storage().position(1).unwrap().center
    );
}

#[test]
fn dragging_one_shape_leaves_the_others_in_place() {
    let mut scene = demo_scene();
    // Hover and grab the second circle.
    scene.cursor_move(px(256), px(128));
    assert!(matches!(scene.state(), PointerState::Hovered { index: 1, .. }));
    scene.mouse_press();
    scene.cursor_move(px(256), px(128));
    scene.cursor_move(px(300), px(150));
    assert_eq!(
        scene.storage().position(1).unwrap().center,
        Vec2 { x: px(300), y: px(150) }
    );
    assert_eq!(
        scene.storage().position(0).unwrap().center,
        Vec2 { x: px(128), y: px(128) }
    );
}
