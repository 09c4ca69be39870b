use rustarok::components::char_state::{CharEntityId, Team};
use rustarok::components::controller::{
    CastMode, ControllerAction, ControllerComponent, MouseButton, ScreenCoords, SkillKey,
    SpriteBoundingRect, SKILL_KEY_COUNT,
};
use rustarok::components::keys::{
    SCANCODE_D, SCANCODE_E, SCANCODE_NUM1, SCANCODE_NUM2, SCANCODE_NUM3, SCANCODE_Q, SCANCODE_R,
    SCANCODE_W, SCANCODE_Y,
};
use rustarok::components::local_player::{EntitiesBelowCursor, LocalPlayerController};
use rustarok::components::skills::Skills;

const ALL_KEYS: [SkillKey; 9] = [
    SkillKey::Q,
    SkillKey::W,
    SkillKey::E,
    SkillKey::R,
    SkillKey::D,
    SkillKey::Y,
    SkillKey::Num1,
    SkillKey::Num2,
    SkillKey::Num3,
];

fn rect(left: i32, right: i32, top: i32, bottom: i32) -> SpriteBoundingRect {
    SpriteBoundingRect { bottom_left: [left, bottom], top_right: [right, top] }
}

#[test]
fn a_new_controller_is_at_rest() {
    let controller: ControllerComponent<(i32, i32)> = ControllerComponent::new(CharEntityId(5), (0, 0));
    assert_eq!(controller.char_entity_id, CharEntityId(5));
    assert_eq!(controller.cast_mode, CastMode::Normal);
    assert_eq!(controller.mouse_pos(), ScreenCoords { x: 400, y: 300 });
    assert!(controller.camera_follows_char);
    assert!(!controller.cell_below_cursor_walkable);
    assert_eq!(controller.next_action, None);
    assert_eq!(controller.entity_below_cursor, None);
    for key in ALL_KEYS {
        assert_eq!(controller.get_skill_for_key(key), None);
        assert!(controller.is_key_up(key.scancode()));
    }
    assert_eq!(controller.find_skill_key_with_edge(true), None);
    assert_eq!(controller.find_skill_key_with_edge(false), None);
}

#[test]
fn skill_keys_have_their_physical_keys_and_slots() {
    let codes = [
        SCANCODE_Q, SCANCODE_W, SCANCODE_E, SCANCODE_R, SCANCODE_D, SCANCODE_Y, SCANCODE_NUM1,
        SCANCODE_NUM2, SCANCODE_NUM3,
    ];
    assert_eq!(codes, [20, 26, 8, 21, 7, 28, 30, 31, 32]);
    for (slot, key) in ALL_KEYS.iter().enumerate() {
        assert_eq!(key.scancode(), codes[slot]);
        assert_eq!(key.index(), slot);
        assert_eq!(SkillKey::from_index(slot), Some(*key));
        assert!(key.same_as(*key));
    }
    assert_eq!(SKILL_KEY_COUNT, 9);
    assert_eq!(SkillKey::from_index(9), None);
    assert!(!SkillKey::Q.same_as(SkillKey::W));
}

#[test]
fn every_skill_key_has_a_slot_of_its_own_in_the_binding_table() {
    let mut controller: ControllerComponent<(i32, i32)> = ControllerComponent::new(CharEntityId(5), (0, 0));
    controller.assign_skill(SkillKey::Num3, Skills::Heal);
    controller.assign_skill(SkillKey::Q, Skills::FireWall);
    assert_eq!(controller.get_skill_for_key(SkillKey::Num3), Some(Skills::Heal));
    assert_eq!(controller.get_skill_for_key(SkillKey::Q), Some(Skills::FireWall));
    assert_eq!(controller.get_skill_for_key(SkillKey::Num2), None);
    controller.assign_skill(SkillKey::Q, Skills::Lightning);
    assert_eq!(controller.get_skill_for_key(SkillKey::Q), Some(Skills::Lightning));
    assert_eq!(controller.get_skill_for_key(SkillKey::Num3), Some(Skills::Heal));
}

#[test]
fn the_first_skill_key_with_an_edge_is_found() {
    let mut controller: ControllerComponent<(i32, i32)> = ControllerComponent::new(CharEntityId(5), (0, 0));
    controller.key_pressed(SCANCODE_R);
    controller.key_pressed(SCANCODE_W);
    assert_eq!(controller.find_skill_key_with_edge(true), Some(SkillKey::W));
    assert_eq!(controller.find_skill_key_with_edge(false), None);
    assert!(controller.is_key_down(SCANCODE_R));
    assert!(controller.is_key_just_pressed(SCANCODE_R));
    controller.cleanup_released_keys();
    assert_eq!(controller.find_skill_key_with_edge(true), None);
    controller.key_released(SCANCODE_R);
    assert!(controller.is_key_just_released(SCANCODE_R));
    assert!(controller.is_key_up(SCANCODE_R));
    assert_eq!(controller.find_skill_key_with_edge(false), Some(SkillKey::R));
}

#[test]
fn mouse_buttons_have_edges_like_keys() {
    let mut controller: ControllerComponent<(i32, i32)> = ControllerComponent::new(CharEntityId(5), (0, 0));
    assert!(controller.mouse_button_pressed(MouseButton::Right));
    assert!(controller.right_mouse_down && controller.right_mouse_pressed);
    assert!(!controller.left_mouse_down && !controller.left_mouse_pressed);
    assert!(!controller.mouse_button_pressed(MouseButton::Right));
    assert!(controller.right_mouse_down && !controller.right_mouse_pressed);
    controller.cleanup_mouse_buttons();
    assert!(controller.right_mouse_down);
    assert!(controller.mouse_button_released(MouseButton::Right));
    assert!(controller.right_mouse_released && !controller.right_mouse_down);
    assert!(!controller.mouse_button_released(MouseButton::Left));
    assert!(!controller.left_mouse_released);
    controller.cleanup_mouse_buttons();
    assert!(!controller.right_mouse_released);
    assert!(controller.mouse_button_pressed(MouseButton::Left));
    assert!(controller.left_mouse_down && controller.left_mouse_pressed);
}

#[test]
fn the_first_rectangle_that_covers_the_cursor_wins() {
    let mut controller: ControllerComponent<(i32, i32)> = ControllerComponent::new(CharEntityId(5), (0, 0));
    controller.last_mouse_x = 100;
    controller.last_mouse_y = 50;
    controller.bounding_rect_2d.push((CharEntityId(1), rect(0, 99, 0, 100)));
    controller.bounding_rect_2d.push((CharEntityId(2), rect(100, 120, 50, 60)));
    controller.bounding_rect_2d.push((CharEntityId(3), rect(0, 200, 0, 200)));
    controller.calc_entity_below_cursor();
    assert_eq!(controller.entity_below_cursor, Some(CharEntityId(2)));
    assert!(controller.bounding_rect_2d.is_empty());
    // without fresh rectangles nothing is under the cursor
    controller.calc_entity_below_cursor();
    assert_eq!(controller.entity_below_cursor, None);
}

#[test]
fn the_edges_of_a_rectangle_belong_to_it() {
    let r = rect(10, 20, 30, 40);
    assert!(r.contains(10, 30));
    assert!(r.contains(20, 40));
    assert!(r.contains(10, 40));
    assert!(r.contains(15, 35));
    assert!(!r.contains(9, 35));
    assert!(!r.contains(21, 35));
    assert!(!r.contains(15, 29));
    assert!(!r.contains(15, 41));
}

#[test]
fn entities_below_the_cursor_are_sorted_by_side() {
    let mut player: LocalPlayerController<(i32, i32)> = LocalPlayerController::new();
    player.bounding_rect_2d.push((CharEntityId(1), rect(0, 10, 0, 10), Team::Right));
    player.bounding_rect_2d.push((CharEntityId(2), rect(40, 60, 40, 60), Team::Right));
    player.bounding_rect_2d.push((CharEntityId(3), rect(45, 55, 45, 55), Team::Left));
    player.bounding_rect_2d.push((CharEntityId(4), rect(50, 50, 50, 50), Team::Right));
    player.bounding_rect_2d.push((CharEntityId(5), rect(0, 100, 0, 100), Team::Left));
    player.calc_entities_below_cursor(Team::Left, 50, 50);
    assert_eq!(
        player.entities_below_cursor,
        EntitiesBelowCursor { friendly: Some(CharEntityId(3)), enemy: Some(CharEntityId(2)) }
    );
    assert_eq!(player.entities_below_cursor.get_enemy(), Some(CharEntityId(2)));
    assert_eq!(player.entities_below_cursor.get_friend(), Some(CharEntityId(3)));
    assert!(player.bounding_rect_2d.is_empty());
    player.calc_entities_below_cursor(Team::Left, 50, 50);
    assert_eq!(player.entities_below_cursor, EntitiesBelowCursor { friendly: None, enemy: None });
}

#[test]
fn entities_are_noted_first_come_first_kept() {
    let mut found = EntitiesBelowCursor::new();
    found.add_enemy(CharEntityId(1));
    found.add_enemy(CharEntityId(2));
    found.add_friend(CharEntityId(3));
    found.add_friend(CharEntityId(4));
    assert_eq!(found.get_enemy(), Some(CharEntityId(1)));
    assert_eq!(found.get_friend(), Some(CharEntityId(3)));
    assert_eq!(found.get_enemy_or_friend(), Some(CharEntityId(1)));
    found.clear();
    assert_eq!(found.get_enemy_or_friend(), None);
    found.add_friend(CharEntityId(4));
    assert_eq!(found.get_enemy_or_friend(), Some(CharEntityId(4)));
}

#[test]
fn target_selection_is_read_from_this_action_or_the_last() {
    let mut controller: ControllerComponent<(i32, i32)> = ControllerComponent::new(CharEntityId(5), (0, 0));
    assert_eq!(controller.is_selecting_target(), None);
    controller.last_action = Some(ControllerAction::CastingSelectTarget(SkillKey::Q, Skills::Heal));
    assert_eq!(controller.is_selecting_target(), Some((SkillKey::Q, Skills::Heal)));
    controller.next_action = Some(ControllerAction::LeftClick);
    assert_eq!(controller.is_selecting_target(), None);
    controller.next_action = Some(ControllerAction::CastingSelectTarget(SkillKey::W, Skills::FireWall));
    assert_eq!(controller.is_selecting_target(), Some((SkillKey::W, Skills::FireWall)));
    controller.next_action = Some(ControllerAction::CancelCastingSelectTarget);
    assert_eq!(controller.is_selecting_target(), None);
}
