use viewport_nav::camera::CameraState;
use viewport_nav::drag::{DragController, DragSession, PointerSample};
use viewport_nav::fixed::Fixed;
use viewport_nav::zoom::{zoom, ScrollSample};

fn at(x: i32, y: i32) -> Option<(Fixed, Fixed)> {
    Some((Fixed::from_int(x), Fixed::from_int(y)))
}

fn at_raw(x: i64, y: i64) -> Option<(Fixed, Fixed)> {
    Some((Fixed::from_raw(x), Fixed::from_raw(y)))
}

fn translation(x: i32, y: i32, z: i32) -> (Fixed, Fixed, Fixed) {
    (Fixed::from_int(x), Fixed::from_int(y), Fixed::from_int(z))
}

fn press(position: Option<(Fixed, Fixed)>) -> PointerSample {
    PointerSample { position, just_pressed: true, held: true, just_released: false }
}

fn hold(position: Option<(Fixed, Fixed)>) -> PointerSample {
    PointerSample { position, just_pressed: false, held: true, just_released: false }
}

fn release(position: Option<(Fixed, Fixed)>) -> PointerSample {
    PointerSample { position, just_pressed: false, held: false, just_released: true }
}

fn hover(position: Option<(Fixed, Fixed)>) -> PointerSample {
    PointerSample { position, just_pressed: false, held: false, just_released: false }
}

#[test]
fn controller_starts_idle() {
    let controller = DragController::new();
    assert!(!controller.is_dragging());
    assert_eq!(controller.session(), None);
}

#[test]
fn press_starts_a_session_at_the_cursor() {
    let mut controller = DragController::new();
    controller.start_drag(at(100, 100));
    assert!(controller.is_dragging());
    assert_eq!(
        controller.session(),
        Some(DragSession { last_cursor_pos: (Fixed::from_int(100), Fixed::from_int(100)) })
    );
}

#[test]
fn press_without_cursor_starts_nothing() {
    let mut controller = DragController::new();
    let mut camera = CameraState::new();
    controller.start_drag(None);
    assert!(!controller.is_dragging());
    // the button stays down and the cursor comes into view: still no drag
    controller.tick(&mut camera, &hold(at(10, 10)));
    controller.tick(&mut camera, &hold(at(90, 40)));
    assert!(!controller.is_dragging());
    assert_eq!(camera, CameraState::new());
}

#[test]
fn press_without_cursor_keeps_a_session_that_exists() {
    let mut controller = DragController::new();
    controller.start_drag(at(3, 4));
    controller.start_drag(None);
    assert_eq!(
        controller.session(),
        Some(DragSession { last_cursor_pos: (Fixed::from_int(3), Fixed::from_int(4)) })
    );
    controller.start_drag(at(8, 9));
    assert_eq!(
        controller.session(),
        Some(DragSession { last_cursor_pos: (Fixed::from_int(8), Fixed::from_int(9)) })
    );
}

#[test]
fn drag_moves_camera_against_x_and_with_y() {
    // scale 1.0, press at (100, 100), then the cursor is at (150, 120)
    let mut controller = DragController::new();
    let mut camera = CameraState::new();
    controller.tick(&mut camera, &press(at(100, 100)));
    assert_eq!(camera.translation, translation(0, 0, 0));
    controller.tick(&mut camera, &hold(at(150, 120)));
    assert_eq!(camera.translation, translation(-50, 20, 0));
    assert_eq!(camera.scale, Fixed::from_int(1));
    assert_eq!(
        controller.session(),
        Some(DragSession { last_cursor_pos: (Fixed::from_int(150), Fixed::from_int(120)) })
    );
}

#[test]
fn drag_is_measured_from_the_last_tick() {
    let mut controller = DragController::new();
    let mut camera = CameraState::new();
    controller.start_drag(at(0, 0));
    controller.drag(&mut camera, at(10, 0));
    controller.drag(&mut camera, at(10, 5));
    controller.drag(&mut camera, at(10, 5));
    controller.drag(&mut camera, at(-2, 5));
    assert_eq!(camera.translation, translation(2, 5, 0));
}

#[test]
fn drag_scales_with_the_zoom_factor() {
    let mut controller = DragController::new();
    let mut camera = CameraState::new();
    camera.scale = Fixed::from_int(2);
    camera.translation = translation(7, 7, 3);
    controller.start_drag(at(100, 100));
    controller.drag(&mut camera, at(150, 120));
    assert_eq!(camera.translation, translation(-93, 47, 3));
    camera.scale = Fixed::from_raw(500_000);
    controller.drag(&mut camera, at(150, 100));
    assert_eq!(camera.translation, translation(-93, 37, 3));
}

#[test]
fn drag_round_trip_restores_translation() {
    let mut controller = DragController::new();
    let mut camera = CameraState::new();
    camera.translation = translation(12, -34, 5);
    let start = camera;
    controller.tick(&mut camera, &press(at(100, 100)));
    controller.tick(&mut camera, &hold(at(150, 120)));
    assert_ne!(camera, start);
    controller.tick(&mut camera, &hold(at(100, 100)));
    controller.tick(&mut camera, &release(at(100, 100)));
    assert_eq!(camera, start);
    assert!(!controller.is_dragging());
}

#[test]
fn drag_round_trip_is_exact_where_the_products_round() {
    let mut controller = DragController::new();
    let mut camera = CameraState::new();
    zoom(&mut camera, Some(ScrollSample { delta_y: Fixed::from_int(1) }));
    assert_eq!(camera.scale, Fixed::from_raw(980_000));
    let start = camera;
    controller.tick(&mut camera, &press(at_raw(100_250_000, 100_750_000)));
    controller.tick(&mut camera, &hold(at_raw(163_333_333, 87_654_321)));
    assert_eq!(
        camera.translation,
        (Fixed::from_raw(-61_821_667), Fixed::from_raw(-12_833_766), Fixed::from_raw(0))
    );
    controller.tick(&mut camera, &hold(at_raw(100_250_000, 100_750_000)));
    controller.tick(&mut camera, &release(None));
    assert_eq!(camera, start);
    assert!(!controller.is_dragging());
}

#[test]
fn idle_cursor_motion_does_not_move_camera() {
    let mut controller = DragController::new();
    let mut camera = CameraState::new();
    camera.translation = translation(1, 2, 3);
    let start = camera;
    controller.tick(&mut camera, &hover(at(10, 10)));
    controller.tick(&mut camera, &hover(at(500, 300)));
    controller.tick(&mut camera, &hover(None));
    controller.tick(&mut camera, &hover(at(-40, 7)));
    assert_eq!(camera, start);
    assert!(!controller.is_dragging());
    // the level alone, with no press before it, starts nothing either
    controller.drag(&mut camera, at(900, 900));
    controller.tick(&mut camera, &hold(at(20, 20)));
    assert_eq!(camera, start);
    assert!(!controller.is_dragging());
}

#[test]
fn missing_cursor_pauses_the_drag() {
    let mut controller = DragController::new();
    let mut camera = CameraState::new();
    controller.tick(&mut camera, &press(at(100, 100)));
    controller.tick(&mut camera, &hold(at(110, 100)));
    let paused_camera = camera;
    let paused_session = controller.session();
    controller.tick(&mut camera, &hold(None));
    controller.drag(&mut camera, None);
    assert!(controller.is_dragging());
    assert_eq!(controller.session(), paused_session);
    assert_eq!(
        controller.session(),
        Some(DragSession { last_cursor_pos: (Fixed::from_int(110), Fixed::from_int(100)) })
    );
    assert_eq!(camera, paused_camera);
    // the cursor comes back: the drag goes on from where it was last seen
    controller.tick(&mut camera, &hold(at(130, 90)));
    assert_eq!(camera.translation, translation(-30, -10, 0));
}

#[test]
fn release_ends_the_session() {
    let mut controller = DragController::new();
    let mut camera = CameraState::new();
    controller.tick(&mut camera, &press(at(0, 0)));
    controller.tick(&mut camera, &release(at(40, 40)));
    assert!(!controller.is_dragging());
    assert_eq!(camera, CameraState::new());
    controller.tick(&mut camera, &hover(at(80, 80)));
    assert_eq!(camera, CameraState::new());
    controller.end_drag();
    assert!(!controller.is_dragging());
}

#[test]
fn press_and_release_in_one_tick_leave_the_controller_idle() {
    let mut controller = DragController::new();
    let mut camera = CameraState::new();
    let click = PointerSample {
        position: at(5, 5),
        just_pressed: true,
        held: false,
        just_released: true,
    };
    controller.tick(&mut camera, &click);
    assert!(!controller.is_dragging());
    assert_eq!(camera, CameraState::new());
}

#[test]
fn drag_saturates_at_the_end_of_the_range() {
    let mut controller = DragController::new();
    let mut camera = CameraState::new();
    camera.translation = (Fixed::from_raw(i64::MIN + 5), Fixed::from_raw(i64::MAX - 5), Fixed::from_int(0));
    controller.start_drag(at(0, 0));
    controller.drag(&mut camera, at(1, 1));
    assert_eq!(
        camera.translation,
        (Fixed::from_raw(i64::MIN), Fixed::from_raw(i64::MAX), Fixed::from_int(0))
    );
    // the way back does not undo a saturated step
    controller.drag(&mut camera, at(0, 0));
    assert_eq!(
        camera.translation,
        (Fixed::from_raw(i64::MIN + 1_000_000), Fixed::from_raw(i64::MAX - 1_000_000), Fixed::from_int(0))
    );
}
