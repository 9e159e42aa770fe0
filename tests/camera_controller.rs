use lib_wgpu_learn::camera_controller::{CameraController, Movement};
use lib_wgpu_learn::input::{Event, Key};

fn key(key: Key, pressed: bool) -> Event {
    Event::Key { key, pressed }
}

#[test]
fn new_controller_is_at_rest() {
    let c = CameraController::new((400, 300));
    assert!(!c.is_forward_pressed && !c.is_backward_pressed);
    assert!(!c.is_left_pressed && !c.is_right_pressed);
    assert!(!c.is_up_pressed && !c.is_down_pressed);
    assert_eq!(c.screen_center, (400, 300));
    assert_eq!(c.mouse_delta, (0, 0));
}

#[test]
fn movement_keys_set_and_clear_intents() {
    let mut c = CameraController::new((0, 0));
    assert!(c.process_events(&key(Key::W, true)));
    assert!(c.is_forward_pressed);
    assert!(c.process_events(&key(Key::S, true)));
    assert!(c.is_backward_pressed);
    assert!(c.process_events(&key(Key::A, true)));
    assert!(c.is_left_pressed);
    assert!(c.process_events(&key(Key::D, true)));
    assert!(c.is_right_pressed);
    assert!(c.process_events(&key(Key::E, true)));
    assert!(c.is_up_pressed);
    assert!(c.process_events(&key(Key::Q, true)));
    assert!(c.is_down_pressed);
    assert!(c.process_events(&key(Key::W, false)));
    assert!(!c.is_forward_pressed);
    assert!(c.is_backward_pressed);
}

#[test]
fn other_events_are_not_consumed() {
    let mut c = CameraController::new((10, 10));
    assert!(!c.process_events(&key(Key::Escape, true)));
    assert!(!c.process_events(&key(Key::F1, true)));
    assert!(!c.process_events(&key(Key::Other, true)));
    assert!(!c.process_events(&Event::RedrawRequested));
    assert!(!c.process_events(&Event::Focused(true)));
    assert!(!c.is_forward_pressed && !c.is_up_pressed);
    assert_eq!(c.mouse_delta, (0, 0));
}

#[test]
fn cursor_move_records_offset_from_center() {
    let mut c = CameraController::new((400, 300));
    assert!(!c.process_events(&Event::CursorMoved { x: 410, y: 290 }));
    assert_eq!(c.mouse_delta, (10, -10));
    assert!(!c.process_events(&Event::CursorMoved { x: -5, y: 1000 }));
    assert_eq!(c.mouse_delta, (-405, 700));
}

#[test]
fn look_offset_is_consumed_once() {
    let mut c = CameraController::new((400, 300));
    c.process_events(&Event::CursorMoved { x: 403, y: 296 });
    let first = c.update_camera();
    assert_eq!(first.look, (3, -4));
    assert_eq!(c.mouse_delta, (0, 0));
    let second = c.update_camera();
    assert_eq!(second.look, (0, 0));
    assert!(second.moves.is_empty());
}

#[test]
fn key_events_between_updates_add_no_look() {
    let mut c = CameraController::new((100, 100));
    c.process_events(&Event::CursorMoved { x: 150, y: 100 });
    assert_eq!(c.update_camera().look, (50, 0));
    c.process_events(&key(Key::W, true));
    c.process_events(&key(Key::Escape, true));
    let step = c.update_camera();
    assert_eq!(step.look, (0, 0));
    assert_eq!(step.moves, vec![Movement::Forward]);
}

#[test]
fn forward_key_held_for_one_tick() {
    let mut c = CameraController::new((0, 0));
    c.process_events(&key(Key::W, true));
    let step = c.update_camera();
    assert_eq!(step.moves, vec![Movement::Forward]);
    assert_eq!(step.look, (0, 0));
    assert!(c.is_forward_pressed);
}

#[test]
fn moves_come_in_fixed_order() {
    let mut c = CameraController::new((0, 0));
    for k in [Key::A, Key::D, Key::S, Key::W, Key::Q, Key::E] {
        c.process_events(&key(k, true));
    }
    let step = c.update_camera();
    assert_eq!(
        step.moves,
        vec![
            Movement::Up,
            Movement::Down,
            Movement::Forward,
            Movement::Backward,
            Movement::Right,
            Movement::Left
        ]
    );
}

#[test]
fn screen_center_moves_the_reference_point() {
    let mut c = CameraController::new((400, 300));
    c.update_screen_center((640, 360));
    assert_eq!(c.get_camera_state().screen_center, (640, 360));
    c.process_events(&Event::CursorMoved { x: 640, y: 360 });
    assert_eq!(c.mouse_delta, (0, 0));
}
