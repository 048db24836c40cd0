use pony_renderer::camera_controller::{movement_for_key, KeyCode, Movement, MovementInput};

#[test]
fn keys_map_to_movements() {
    assert_eq!(movement_for_key(KeyCode::KeyW), Some(Movement::Forward));
    assert_eq!(movement_for_key(KeyCode::ArrowDown), Some(Movement::Backward));
    assert_eq!(movement_for_key(KeyCode::ArrowLeft), Some(Movement::Left));
    assert_eq!(movement_for_key(KeyCode::KeyD), Some(Movement::Right));
    assert_eq!(movement_for_key(KeyCode::Space), Some(Movement::Up));
    assert_eq!(movement_for_key(KeyCode::ShiftLeft), Some(Movement::Down));
    assert_eq!(movement_for_key(KeyCode::Other), None);
}

#[test]
fn held_keys_give_axes() {
    let mut input = MovementInput::new();
    assert!(input.process_keyboard(KeyCode::KeyW, true));
    assert_eq!(input.forward_axis(), 1);
    assert!(input.process_keyboard(KeyCode::ArrowDown, true));
    assert_eq!(input.forward_axis(), 0);
    assert!(input.process_keyboard(KeyCode::KeyW, false));
    assert_eq!(input.forward_axis(), -1);
    assert!(input.process_keyboard(KeyCode::KeyA, true));
    assert_eq!(input.right_axis(), -1);
    assert!(input.process_keyboard(KeyCode::Space, true));
    assert_eq!(input.up_axis(), 1);
    let before = input;
    assert!(!input.process_keyboard(KeyCode::Other, true));
    assert_eq!(input, before);
}

#[test]
fn a_release_after_a_press_leaves_the_direction_released() {
    let mut input = MovementInput::new();
    input.process_keyboard(KeyCode::KeyA, true);
    input.process_keyboard(KeyCode::ArrowLeft, false);
    assert_eq!(input, MovementInput::new());
}

#[test]
fn directions_do_not_touch_each_other() {
    let mut one = MovementInput::new();
    one.process_keyboard(KeyCode::KeyW, true);
    one.process_keyboard(KeyCode::Space, true);
    let mut other = MovementInput::new();
    other.process_keyboard(KeyCode::Space, true);
    other.process_keyboard(KeyCode::KeyW, true);
    assert_eq!(one, other);
    assert_eq!((one.forward_axis(), one.right_axis(), one.up_axis()), (1, 0, 1));
}
