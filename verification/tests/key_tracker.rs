use rustarok::components::keys::{
    key_slot, KeyState, KeyTracker, KEY_COUNT, SCANCODE_ESCAPE, SCANCODE_Q, SCANCODE_W,
};

#[test]
fn press_then_release_shows_both_edges_in_turn() {
    let mut keys = KeyTracker::new();
    assert!(keys.press(SCANCODE_Q));
    assert!(keys.is_down(SCANCODE_Q));
    assert!(keys.is_just_pressed(SCANCODE_Q));
    assert!(!keys.is_just_released(SCANCODE_Q));
    keys.cleanup();
    assert!(keys.is_down(SCANCODE_Q));
    assert!(!keys.is_just_pressed(SCANCODE_Q));
    assert!(keys.release(SCANCODE_Q));
    assert!(keys.is_just_released(SCANCODE_Q));
    assert!(!keys.is_down(SCANCODE_Q));
    keys.cleanup();
    assert!(!keys.is_just_released(SCANCODE_Q));
}

#[test]
fn key_state_pressed_twice_is_no_second_edge() {
    let mut state = KeyState::default();
    assert!(state.pressed());
    assert!(!state.pressed());
    assert!(state.down);
    assert!(!state.just_pressed);
}

#[test]
fn key_state_released_while_up_is_no_edge() {
    let mut state = KeyState::default();
    assert!(!state.released());
    assert_eq!(state, KeyState { down: false, just_pressed: false, just_released: false });
}

#[test]
fn key_state_keeps_the_rising_edge_when_released_in_the_same_tick() {
    let mut state = KeyState::default();
    assert!(state.pressed());
    assert_eq!(state, KeyState { down: true, just_pressed: true, just_released: false });
    assert!(state.released());
    assert_eq!(state, KeyState { down: false, just_pressed: true, just_released: true });
}

#[test]
fn key_state_keeps_the_falling_edge_when_pressed_in_the_same_tick() {
    let mut state = KeyState { down: true, just_pressed: false, just_released: false };
    assert!(state.released());
    assert_eq!(state, KeyState { down: false, just_pressed: false, just_released: true });
    assert!(state.pressed());
    assert_eq!(state, KeyState { down: true, just_pressed: true, just_released: true });
}

#[test]
fn an_edge_lasts_for_the_tick_of_the_transition_only() {
    let mut keys = KeyTracker::new();
    keys.press(SCANCODE_W);
    // every query of the tick sees the edge
    assert!(keys.is_just_pressed(SCANCODE_W));
    assert!(keys.is_just_pressed(SCANCODE_W));
    keys.cleanup();
    // a tick without events
    assert!(!keys.is_just_pressed(SCANCODE_W));
    keys.cleanup();
    assert!(!keys.is_just_pressed(SCANCODE_W));
    assert!(keys.is_down(SCANCODE_W));
}

#[test]
fn release_and_press_in_one_tick_clear_at_its_end() {
    let mut keys = KeyTracker::new();
    keys.press(SCANCODE_Q);
    keys.cleanup();
    assert!(keys.release(SCANCODE_Q));
    assert!(keys.press(SCANCODE_Q));
    // both edges of the tick are seen until its end
    assert!(keys.is_just_pressed(SCANCODE_Q));
    assert!(keys.is_just_released(SCANCODE_Q));
    keys.cleanup();
    assert!(!keys.is_just_pressed(SCANCODE_Q));
    assert!(!keys.is_just_released(SCANCODE_Q));
    assert!(keys.is_down(SCANCODE_Q));
}

#[test]
fn keys_do_not_disturb_each_other() {
    let mut keys = KeyTracker::new();
    keys.press(SCANCODE_Q);
    keys.press(SCANCODE_ESCAPE);
    keys.release(SCANCODE_Q);
    assert!(keys.is_down(SCANCODE_ESCAPE));
    assert!(keys.is_just_pressed(SCANCODE_ESCAPE));
    assert!(!keys.is_down(SCANCODE_W));
    keys.cleanup();
    assert!(keys.is_down(SCANCODE_ESCAPE));
    assert!(!keys.is_just_pressed(SCANCODE_ESCAPE));
    assert!(!keys.is_just_released(SCANCODE_Q));
}

#[test]
fn the_registered_keys_fill_the_table_without_gaps() {
    let mut slots = Vec::new();
    for key in -5..600 {
        if let Some(slot) = key_slot(key) {
            slots.push(slot);
        }
    }
    assert_eq!(slots.len(), KEY_COUNT);
    assert_eq!(KEY_COUNT, 241);
    for (i, slot) in slots.iter().enumerate() {
        assert_eq!(*slot, i);
    }
    assert_eq!(key_slot(3), None);
    assert_eq!(key_slot(4), Some(0));
    assert_eq!(key_slot(129), Some(125));
    assert_eq!(key_slot(130), None);
    assert_eq!(key_slot(133), Some(126));
    assert_eq!(key_slot(165), None);
    assert_eq!(key_slot(176), Some(158));
    assert_eq!(key_slot(222), None);
    assert_eq!(key_slot(224), Some(204));
    assert_eq!(key_slot(232), None);
    assert_eq!(key_slot(257), Some(212));
    assert_eq!(key_slot(284), Some(239));
    assert_eq!(key_slot(285), None);
    assert_eq!(key_slot(512), Some(240));
    assert_eq!(key_slot(513), None);
}

#[test]
fn every_registered_key_starts_idle_and_tracks_its_own_state() {
    let mut keys = KeyTracker::new();
    for key in 0..600 {
        if key_slot(key).is_some() {
            assert!(!keys.is_down(key));
            assert!(!keys.is_just_pressed(key));
            assert!(!keys.is_just_released(key));
        }
    }
    for key in 0..600 {
        if key_slot(key).is_some() && key % 2 == 0 {
            assert!(keys.press(key));
        }
    }
    for key in 0..600 {
        if key_slot(key).is_some() {
            assert_eq!(keys.is_down(key), key % 2 == 0);
        }
    }
}

#[test]
fn a_tap_within_one_tick_shows_both_edges_until_the_tick_ends() {
    let mut keys = KeyTracker::new();
    assert!(keys.press(SCANCODE_Q));
    assert!(keys.release(SCANCODE_Q));
    assert!(!keys.is_down(SCANCODE_Q));
    assert!(keys.is_just_pressed(SCANCODE_Q));
    assert!(keys.is_just_released(SCANCODE_Q));
    // every system of the tick sees them
    assert!(keys.is_just_pressed(SCANCODE_Q));
    keys.cleanup();
    assert!(!keys.is_down(SCANCODE_Q));
    assert!(!keys.is_just_pressed(SCANCODE_Q));
    assert!(!keys.is_just_released(SCANCODE_Q));
}
