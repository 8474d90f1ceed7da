use voxel_frame::input::{button_code, ElementState, Input, KeyCode, MouseButton};

const KEY_W: KeyCode = KeyCode(17);
const KEY_S: KeyCode = KeyCode(31);

#[test]
fn nothing_is_down_at_first() {
    let input = Input::new();
    assert!(!input.is_key_down(KEY_W));
    assert!(!input.is_key_pressed(KEY_W));
    assert!(!input.is_key_released(KEY_W));
    assert!(!input.is_mouse_button_down(MouseButton::Left));
    assert!(!input.is_mouse_button_pressed(MouseButton::Left));
    assert!(!input.is_mouse_button_released(MouseButton::Left));
}

#[test]
fn press_edge_lasts_one_frame() {
    let mut input = Input::new();
    input.handle_key_input(KEY_W, ElementState::Pressed);
    assert!(input.is_key_pressed(KEY_W));
    assert!(input.is_key_down(KEY_W));
    assert!(!input.is_key_released(KEY_W));
    assert!(!input.is_key_down(KEY_S));
    input.update();
    assert!(!input.is_key_pressed(KEY_W));
    assert!(input.is_key_down(KEY_W));
    input.handle_key_input(KEY_W, ElementState::Pressed);
    assert!(!input.is_key_pressed(KEY_W));
}

#[test]
fn release_edge_needs_a_press_in_the_frame_before() {
    let mut input = Input::new();
    input.handle_key_input(KEY_W, ElementState::Released);
    assert!(!input.is_key_released(KEY_W));
    input.handle_key_input(KEY_W, ElementState::Pressed);
    input.update();
    input.handle_key_input(KEY_W, ElementState::Released);
    assert!(input.is_key_released(KEY_W));
    assert!(!input.is_key_down(KEY_W));
    assert!(!input.is_key_pressed(KEY_W));
    input.update();
    assert!(!input.is_key_released(KEY_W));
}

#[test]
fn press_and_release_within_one_frame_is_neither() {
    let mut input = Input::new();
    input.handle_key_input(KEY_W, ElementState::Pressed);
    input.handle_key_input(KEY_W, ElementState::Released);
    assert!(!input.is_key_pressed(KEY_W));
    assert!(!input.is_key_released(KEY_W));
    assert!(!input.is_key_down(KEY_W));
}

#[test]
fn mouse_buttons_have_edges_too() {
    let mut input = Input::new();
    input.handle_mouse_button(MouseButton::Left, ElementState::Pressed);
    assert!(input.is_mouse_button_pressed(MouseButton::Left));
    assert!(input.is_mouse_button_down(MouseButton::Left));
    assert!(!input.is_mouse_button_down(MouseButton::Right));
    assert!(!input.is_mouse_button_down(MouseButton::Other(0)));
    input.update();
    assert!(!input.is_mouse_button_pressed(MouseButton::Left));
    assert!(input.is_mouse_button_down(MouseButton::Left));
    input.handle_mouse_button(MouseButton::Left, ElementState::Released);
    assert!(input.is_mouse_button_released(MouseButton::Left));
    assert!(!input.is_mouse_button_down(MouseButton::Left));
    input.update();
    assert!(!input.is_mouse_button_released(MouseButton::Left));
}

#[test]
fn keys_and_buttons_do_not_mix() {
    let mut input = Input::new();
    input.handle_key_input(KeyCode(0), ElementState::Pressed);
    assert!(!input.is_mouse_button_down(MouseButton::Left));
    input.handle_mouse_button(MouseButton::Right, ElementState::Pressed);
    assert!(!input.is_key_down(KeyCode(1)));
}

#[test]
fn buttons_are_filed_under_different_numbers() {
    let buttons = [
        MouseButton::Left,
        MouseButton::Right,
        MouseButton::Middle,
        MouseButton::Back,
        MouseButton::Forward,
        MouseButton::Other(0),
        MouseButton::Other(1),
        MouseButton::Other(u16::MAX),
    ];
    let codes: Vec<u64> = buttons.iter().map(|b| button_code(*b)).collect();
    assert_eq!(codes, vec![0, 1, 2, 3, 4, 5, 6, 65540]);
}
