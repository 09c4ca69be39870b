use rustarok::components::char_state::CharEntityId;
use rustarok::components::controller::{ControllerComponent, MouseButton, ScreenCoords};
use rustarok::components::events::InputEvent;
use rustarok::components::keys::{SCANCODE_ESCAPE, SCANCODE_Q, SCANCODE_W};

fn controller() -> ControllerComponent<(i32, i32)> {
    ControllerComponent::new(CharEntityId(1), (0, 0))
}

#[test]
fn every_key_goes_through_its_own_events() {
    let mut input = controller();
    input.handle_events(&vec![
        InputEvent::KeyDown(SCANCODE_Q),
        InputEvent::KeyDown(SCANCODE_W),
        InputEvent::MouseMotion(10, 20),
        InputEvent::KeyUp(SCANCODE_Q),
        InputEvent::MouseButtonDown(MouseButton::Right),
        InputEvent::MouseMotion(30, 40),
    ]);
    assert!(!input.is_key_down(SCANCODE_Q));
    assert!(input.is_key_just_released(SCANCODE_Q));
    // the press of the same tick is still seen
    assert!(input.is_key_just_pressed(SCANCODE_Q));
    assert!(input.is_key_down(SCANCODE_W));
    assert!(input.is_key_just_pressed(SCANCODE_W));
    assert!(input.is_key_up(SCANCODE_ESCAPE));
    assert!(input.right_mouse_down && input.right_mouse_pressed);
    assert!(!input.left_mouse_down && !input.left_mouse_pressed);
    assert_eq!(input.mouse_pos(), ScreenCoords { x: 30, y: 40 });
}

#[test]
fn no_events_change_nothing() {
    let mut input = controller();
    input.handle_event(InputEvent::KeyDown(SCANCODE_Q));
    input.handle_events(&Vec::new());
    assert!(input.is_key_just_pressed(SCANCODE_Q));
    assert_eq!(input.mouse_pos(), ScreenCoords { x: 400, y: 300 });
}

#[test]
fn a_repeated_key_down_ends_the_edge_within_the_tick() {
    let mut input = controller();
    input.handle_events(&vec![InputEvent::KeyDown(SCANCODE_Q), InputEvent::KeyDown(SCANCODE_Q)]);
    assert!(input.is_key_down(SCANCODE_Q));
    assert!(!input.is_key_just_pressed(SCANCODE_Q));
}

#[test]
fn edges_of_one_tick_are_gone_in_the_next() {
    let mut input = controller();
    input.handle_events(&vec![
        InputEvent::KeyDown(SCANCODE_Q),
        InputEvent::MouseButtonDown(MouseButton::Left),
    ]);
    input.cleanup_released_keys();
    input.cleanup_mouse_buttons();
    input.handle_events(&vec![InputEvent::MouseButtonUp(MouseButton::Left)]);
    assert!(input.is_key_down(SCANCODE_Q));
    assert!(!input.is_key_just_pressed(SCANCODE_Q));
    assert!(input.left_mouse_released && !input.left_mouse_down && !input.left_mouse_pressed);
}

#[test]
fn a_click_within_one_tick_shows_both_edges_until_the_tick_ends() {
    let mut input = controller();
    input.handle_events(&vec![
        InputEvent::MouseButtonDown(MouseButton::Left),
        InputEvent::MouseButtonUp(MouseButton::Left),
    ]);
    assert!(!input.left_mouse_down);
    assert!(input.left_mouse_pressed && input.left_mouse_released);
    input.cleanup_mouse_buttons();
    assert!(!input.left_mouse_down && !input.left_mouse_pressed && !input.left_mouse_released);
}
