use good_web_game::input::InputHandler;
use good_web_game::input::KeyCode;
use good_web_game::input::MouseButton;

#[test]
fn new_handler_is_empty() {
    let h = InputHandler::new();
    assert!(!h.is_key_pressed(KeyCode(1)));
    assert!(!h.is_key_down(KeyCode(1)));
    assert!(!h.is_mouse_key_down(&MouseButton::Left));
    assert_eq!(h.mouse_x, 0);
    assert_eq!(h.mouse_y, 0);
    assert_eq!(h.wheel, 0);
}

#[test]
fn key_down_sets_both_sets() {
    let mut h = InputHandler::new();
    h.handle_key_down(KeyCode(65));
    assert!(h.is_key_pressed(KeyCode(65)));
    assert!(h.is_key_down(KeyCode(65)));
    assert!(!h.is_key_pressed(KeyCode(66)));
    assert!(!h.is_key_down(KeyCode(66)));
}

#[test]
fn end_frame_hides_key_down_but_keeps_key_pressed() {
    let mut h = InputHandler::new();
    h.handle_key_down(KeyCode(65));
    h.handle_end_frame();
    assert!(!h.is_key_down(KeyCode(65)));
    assert!(h.is_key_pressed(KeyCode(65)));
    // Other events do not release the key.
    h.handle_key_down(KeyCode(66));
    h.handle_mouse_down(MouseButton::Right);
    h.handle_end_frame();
    assert!(h.is_key_pressed(KeyCode(65)));
    // Releasing it does.
    h.handle_key_up(KeyCode(65));
    assert!(!h.is_key_pressed(KeyCode(65)));
}

#[test]
fn key_up_leaves_frame_keys_until_end_frame() {
    let mut h = InputHandler::new();
    h.handle_key_down(KeyCode(7));
    h.handle_key_up(KeyCode(7));
    assert!(!h.is_key_pressed(KeyCode(7)));
    assert!(h.is_key_down(KeyCode(7)));
    h.handle_end_frame();
    assert!(!h.is_key_down(KeyCode(7)));
}

#[test]
fn repeated_key_down_is_idempotent() {
    let mut h = InputHandler::new();
    h.handle_key_down(KeyCode(9));
    h.handle_key_down(KeyCode(9));
    assert_eq!(h.keys.len(), 1);
    assert_eq!(h.frame_keys.len(), 1);
    h.handle_key_up(KeyCode(9));
    assert!(!h.is_key_pressed(KeyCode(9)));
}

#[test]
fn wheel_last_write_wins_and_resets() {
    let mut h = InputHandler::new();
    h.handle_mouse_wheel(5.0f32.to_bits());
    h.handle_mouse_wheel(3.0f32.to_bits());
    assert_eq!(h.wheel, 3.0f32.to_bits());
    assert_eq!(f32::from_bits(h.wheel), 3.0);
    h.handle_end_frame();
    assert_eq!(h.wheel, 0);
    assert_eq!(f32::from_bits(h.wheel), 0.0);
}

#[test]
fn mouse_down_until_up() {
    let mut h = InputHandler::new();
    h.handle_mouse_down(MouseButton::Left);
    assert!(h.is_mouse_key_down(&MouseButton::Left));
    assert!(!h.is_mouse_key_down(&MouseButton::Middle));
    h.handle_mouse_up(MouseButton::Left);
    assert!(!h.is_mouse_key_down(&MouseButton::Left));
}

#[test]
fn mouse_buttons_are_independent() {
    let mut h = InputHandler::new();
    h.handle_mouse_down(MouseButton::Left);
    h.handle_mouse_down(MouseButton::Button4);
    h.handle_mouse_up(MouseButton::Left);
    assert!(h.is_mouse_key_down(&MouseButton::Button4));
    h.handle_end_frame();
    // The frame boundary does not release held buttons.
    assert!(h.is_mouse_key_down(&MouseButton::Button4));
}

#[test]
fn mouse_move_overwrites_position() {
    let mut h = InputHandler::new();
    h.handle_mouse_move(10, -20);
    h.handle_mouse_move(3, 4);
    assert_eq!(h.mouse_x, 3);
    assert_eq!(h.mouse_y, 4);
}
