use rustarok::components::char_state::{
    CharEntityId, CharState, CharacterStateComponent, CharacterStore, Team,
};
use rustarok::components::controller::{
    CastMode, ControllerComponent, MouseButton, SkillKey, SpriteBoundingRect,
};
use rustarok::components::keys::{SCANCODE_ESCAPE, SCANCODE_Q, SCANCODE_W};

const SCANCODE_T: i32 = 23;
use rustarok::components::local_player::{CastRequest, LocalPlayerController, PlayerIntention};
use rustarok::components::skills::Skills;
use rustarok::map::Gat;
use rustarok::systems::input_to_next_action::InputToNextActionSystem;
use rustarok::time::{ElapsedTime, EngineTime, Tick};

type Pos = (f32, f32);

const HERO: CharEntityId = CharEntityId(1);
const FOE: CharEntityId = CharEntityId(2);

fn commit_tick(frame: u64) -> EngineTime {
    EngineTime {
        time: ElapsedTime(1000),
        tick: Tick(frame),
        simulation_frame: frame,
        run_simulation_in_this_frame: true,
    }
}

fn world(foe_alive: bool) -> CharacterStore<Pos> {
    let mut characters = CharacterStore::new();
    characters.insert(HERO, CharacterStateComponent::new(Team::Left, (10.0, 10.0)));
    let mut foe = CharacterStateComponent::new(Team::Right, (12.0, 10.0));
    if !foe_alive {
        foe.state = CharState::Dead;
    }
    characters.insert(FOE, foe);
    characters
}

fn player() -> LocalPlayerController<Pos> {
    let mut player = LocalPlayerController::new();
    player.controlled_entity = Some(HERO);
    player
}

fn foe_under_cursor(player: &mut LocalPlayerController<Pos>) {
    player.bounding_rect_2d.push((
        FOE,
        SpriteBoundingRect { bottom_left: [390, 320], top_right: [410, 280] },
        Team::Right,
    ));
}

#[test]
fn right_release_over_living_enemy_attacks_it() {
    let mut system = InputToNextActionSystem::new();
    let characters = world(true);
    let mut input = ControllerComponent::new(HERO, (3.5, -7.25));
    let mut player = player();
    foe_under_cursor(&mut player);
    input.mouse_button_pressed(MouseButton::Right);
    input.cleanup_mouse_buttons();
    input.mouse_button_released(MouseButton::Right);
    system.run(&input, &characters, &mut player, &commit_tick(3), &Gat::open_field(4, 4), (1, 1));
    assert_eq!(player.intention, Some(PlayerIntention::Attack(FOE)));
    assert_eq!(player.last_intention, Some(PlayerIntention::Attack(FOE)));
    assert_eq!(player.entities_below_cursor.enemy, Some(FOE));
    assert!(player.bounding_rect_2d.is_empty());
}

#[test]
fn right_release_over_dead_enemy_walks_to_the_cursor() {
    let mut system = InputToNextActionSystem::new();
    let characters = world(false);
    let mut input = ControllerComponent::new(HERO, (3.5, -7.25));
    let mut player = player();
    foe_under_cursor(&mut player);
    input.mouse_button_pressed(MouseButton::Right);
    input.cleanup_mouse_buttons();
    input.mouse_button_released(MouseButton::Right);
    system.run(&input, &characters, &mut player, &commit_tick(3), &Gat::open_field(4, 4), (1, 1));
    assert_eq!(player.intention, Some(PlayerIntention::MoveTo((3.5, -7.25))));
}

#[test]
fn right_release_over_nothing_walks_to_the_cursor() {
    let mut system = InputToNextActionSystem::new();
    let characters = world(true);
    let mut input = ControllerComponent::new(HERO, (1.0, 2.0));
    let mut player = player();
    input.right_mouse_released = true;
    system.run(&input, &characters, &mut player, &commit_tick(0), &Gat::open_field(4, 4), (1, 1));
    assert_eq!(player.intention, Some(PlayerIntention::MoveTo((1.0, 2.0))));
}

#[test]
fn key_release_mode_confirms_on_release_of_the_arming_key() {
    let mut system = InputToNextActionSystem::new();
    let characters = world(true);
    let mut input = ControllerComponent::new(HERO, (4.0, 4.0));
    input.cast_mode = CastMode::OnKeyRelease;
    input.assign_skill(SkillKey::Q, Skills::FireWall);
    let mut player = player();

    input.key_pressed(SCANCODE_Q);
    system.run(&input, &characters, &mut player, &commit_tick(1), &Gat::open_field(4, 4), (1, 1));
    assert_eq!(player.select_skill_target, Some((SkillKey::Q, Skills::FireWall)));
    assert_eq!(player.cast_request, None);
    assert_eq!(player.intention, None);
    input.cleanup_released_keys();

    // another key, bound to nothing and no skill key at all, neither cancels nor confirms
    input.key_pressed(SCANCODE_T);
    system.run(&input, &characters, &mut player, &commit_tick(2), &Gat::open_field(4, 4), (1, 1));
    assert_eq!(player.select_skill_target, Some((SkillKey::Q, Skills::FireWall)));
    assert_eq!(player.cast_request, None);
    input.cleanup_released_keys();

    // nor does another skill key
    input.key_pressed(SCANCODE_W);
    system.run(&input, &characters, &mut player, &commit_tick(3), &Gat::open_field(4, 4), (1, 1));
    assert_eq!(player.select_skill_target, Some((SkillKey::Q, Skills::FireWall)));
    assert_eq!(player.cast_request, None);
    input.cleanup_released_keys();

    input.mouse_world_pos = (5.0, 6.0);
    input.key_released(SCANCODE_Q);
    system.run(&input, &characters, &mut player, &commit_tick(4), &Gat::open_field(4, 4), (1, 1));
    assert_eq!(player.select_skill_target, None);
    assert_eq!(
        player.cast_request,
        Some(CastRequest { skill: Skills::FireWall, is_self_cast: false, mouse_world_pos: (5.0, 6.0) })
    );
    assert_eq!(player.intention, None);
}

#[test]
fn escape_beats_the_confirming_release() {
    let mut system = InputToNextActionSystem::new();
    let characters = world(true);
    let mut input = ControllerComponent::new(HERO, (4.0, 4.0));
    input.cast_mode = CastMode::OnKeyRelease;
    input.assign_skill(SkillKey::Q, Skills::FireWall);
    let mut player = player();
    input.key_pressed(SCANCODE_Q);
    system.run(&input, &characters, &mut player, &commit_tick(1), &Gat::open_field(4, 4), (1, 1));
    input.cleanup_released_keys();

    input.key_released(SCANCODE_Q);
    input.key_pressed(SCANCODE_ESCAPE);
    system.run(&input, &characters, &mut player, &commit_tick(3), &Gat::open_field(4, 4), (1, 1));
    assert_eq!(player.select_skill_target, None);
    assert_eq!(player.cast_request, None);
    assert_eq!(player.intention, None);
}

#[test]
fn escape_beats_the_confirming_click_in_normal_mode() {
    let mut system = InputToNextActionSystem::new();
    let characters = world(true);
    let mut input = ControllerComponent::new(HERO, (4.0, 4.0));
    input.assign_skill(SkillKey::Q, Skills::Heal);
    let mut player = player();
    player.select_skill_target = Some((SkillKey::Q, Skills::Heal));
    input.left_mouse_released = true;
    input.key_pressed(SCANCODE_ESCAPE);
    system.run(&input, &characters, &mut player, &commit_tick(3), &Gat::open_field(4, 4), (1, 1));
    assert_eq!(player.select_skill_target, None);
    assert_eq!(player.cast_request, None);
    assert_eq!(player.intention, None);
}

#[test]
fn right_click_beats_the_attack_move_click() {
    let mut system = InputToNextActionSystem::new();
    let characters = world(true);
    let mut input = ControllerComponent::new(HERO, (4.0, 4.0));
    let mut player = player();
    player.select_skill_target = Some((SkillKey::D, Skills::AttackMove));
    input.left_mouse_pressed = true;
    input.right_mouse_pressed = true;
    system.run(&input, &characters, &mut player, &commit_tick(3), &Gat::open_field(4, 4), (1, 1));
    assert_eq!(player.select_skill_target, None);
    assert_eq!(player.intention, None);
}

#[test]
fn attack_move_click_attacks_towards_the_cursor() {
    let mut system = InputToNextActionSystem::new();
    let characters = world(true);
    let mut input = ControllerComponent::new(HERO, (8.0, 9.0));
    let mut player = player();
    player.select_skill_target = Some((SkillKey::D, Skills::AttackMove));
    input.left_mouse_pressed = true;
    system.run(&input, &characters, &mut player, &commit_tick(3), &Gat::open_field(4, 4), (1, 1));
    assert_eq!(player.select_skill_target, None);
    assert_eq!(player.intention, Some(PlayerIntention::AttackTowards((8.0, 9.0))));
}

#[test]
fn normal_mode_confirms_on_left_release() {
    let mut system = InputToNextActionSystem::new();
    let characters = world(true);
    let mut input = ControllerComponent::new(HERO, (8.0, 9.0));
    input.assign_skill(SkillKey::Q, Skills::FireWall);
    let mut player = player();
    input.key_pressed(SCANCODE_Q);
    system.run(&input, &characters, &mut player, &commit_tick(0), &Gat::open_field(4, 4), (1, 1));
    assert_eq!(player.select_skill_target, Some((SkillKey::Q, Skills::FireWall)));
    input.cleanup_released_keys();
    input.left_mouse_released = true;
    system.run(&input, &characters, &mut player, &commit_tick(1), &Gat::open_field(4, 4), (1, 1));
    assert_eq!(player.select_skill_target, None);
    assert_eq!(
        player.cast_request,
        Some(CastRequest { skill: Skills::FireWall, is_self_cast: false, mouse_world_pos: (8.0, 9.0) })
    );
}

#[test]
fn normal_mode_rearms_on_another_bound_key() {
    let mut system = InputToNextActionSystem::new();
    let characters = world(true);
    let mut input = ControllerComponent::new(HERO, (8.0, 9.0));
    input.assign_skill(SkillKey::Q, Skills::FireWall);
    input.assign_skill(SkillKey::W, Skills::Heal);
    let mut player = player();
    player.select_skill_target = Some((SkillKey::Q, Skills::FireWall));
    input.key_pressed(SCANCODE_W);
    system.run(&input, &characters, &mut player, &commit_tick(0), &Gat::open_field(4, 4), (1, 1));
    assert_eq!(player.select_skill_target, Some((SkillKey::W, Skills::Heal)));
    assert_eq!(player.cast_request, None);
}

#[test]
fn console_keeps_a_skill_from_being_armed() {
    let mut system = InputToNextActionSystem::new();
    let characters = world(true);
    let mut input = ControllerComponent::new(HERO, (8.0, 9.0));
    input.assign_skill(SkillKey::Q, Skills::FireWall);
    input.is_console_open = true;
    let mut player = player();
    input.key_pressed(SCANCODE_Q);
    system.run(&input, &characters, &mut player, &commit_tick(0), &Gat::open_field(4, 4), (1, 1));
    assert_eq!(player.select_skill_target, None);
    assert_eq!(player.cast_request, None);
}

#[test]
fn console_lets_moves_through_and_holds_casts_back() {
    let mut system = InputToNextActionSystem::new();
    let characters = world(true);
    let mut input = ControllerComponent::new(HERO, (8.0, 9.0));
    input.assign_skill(SkillKey::Q, Skills::Mounting);
    input.is_console_open = true;
    let mut player = player();
    input.key_pressed(SCANCODE_Q);
    system.run(&input, &characters, &mut player, &commit_tick(0), &Gat::open_field(4, 4), (1, 1));
    assert_eq!(player.cast_request, None);
    input.cleanup_released_keys();
    input.right_mouse_down = true;
    system.run(&input, &characters, &mut player, &commit_tick(3), &Gat::open_field(4, 4), (1, 1));
    assert_eq!(player.intention, Some(PlayerIntention::MoveTowardsMouse((8.0, 9.0))));
}

#[test]
fn skill_for_the_caster_alone_is_cast_at_once() {
    let mut system = InputToNextActionSystem::new();
    let characters = world(true);
    let mut input = ControllerComponent::new(HERO, (8.0, 9.0));
    input.assign_skill(SkillKey::Y, Skills::Mounting);
    let mut player = player();
    input.key_pressed(rustarok::components::keys::SCANCODE_Y);
    system.run(&input, &characters, &mut player, &commit_tick(0), &Gat::open_field(4, 4), (1, 1));
    assert_eq!(player.select_skill_target, None);
    assert_eq!(
        player.cast_request,
        Some(CastRequest { skill: Skills::Mounting, is_self_cast: true, mouse_world_pos: (8.0, 9.0) })
    );
}

#[test]
fn key_press_mode_casts_at_once_and_arms_nothing() {
    let mut system = InputToNextActionSystem::new();
    let characters = world(true);
    let mut input = ControllerComponent::new(HERO, (8.0, 9.0));
    input.cast_mode = CastMode::OnKeyPress;
    input.assign_skill(SkillKey::Q, Skills::FireWall);
    let mut player = player();
    input.key_pressed(SCANCODE_Q);
    system.run(&input, &characters, &mut player, &commit_tick(0), &Gat::open_field(4, 4), (1, 1));
    assert_eq!(player.select_skill_target, None);
    assert_eq!(
        player.cast_request,
        Some(CastRequest { skill: Skills::FireWall, is_self_cast: false, mouse_world_pos: (8.0, 9.0) })
    );
}

#[test]
fn alt_release_casts_on_the_caster() {
    let mut system = InputToNextActionSystem::new();
    let characters = world(true);
    let mut input = ControllerComponent::new(HERO, (8.0, 9.0));
    input.cast_mode = CastMode::OnKeyRelease;
    input.assign_skill(SkillKey::Q, Skills::Heal);
    input.alt_down = true;
    let mut player = player();
    input.key_pressed(SCANCODE_Q);
    system.run(&input, &characters, &mut player, &commit_tick(0), &Gat::open_field(4, 4), (1, 1));
    assert_eq!(player.select_skill_target, None);
    assert_eq!(player.cast_request, None);
    input.cleanup_released_keys();
    input.key_released(SCANCODE_Q);
    system.run(&input, &characters, &mut player, &commit_tick(1), &Gat::open_field(4, 4), (1, 1));
    assert_eq!(
        player.cast_request,
        Some(CastRequest { skill: Skills::Heal, is_self_cast: true, mouse_world_pos: (8.0, 9.0) })
    );
}

#[test]
fn only_every_third_tick_commits() {
    let mut system = InputToNextActionSystem::new();
    let characters = world(true);
    let mut input = ControllerComponent::new(HERO, (0.0, 0.0));
    let mut player = player();
    input.right_mouse_down = true;
    let mut commits = 0;
    for frame in 1..=9u64 {
        input.mouse_world_pos = (frame as f32, 0.0);
        system.run(&input, &characters, &mut player, &commit_tick(frame), &Gat::open_field(4, 4), (1, 1));
        if frame % 3 == 0 {
            // the cursor of the commit tick itself, no mean of the last three
            assert_eq!(player.intention, Some(PlayerIntention::MoveTowardsMouse((frame as f32, 0.0))));
            commits += 1;
        } else {
            assert_eq!(player.intention, None);
        }
    }
    assert_eq!(commits, 3);
    assert_eq!(player.last_intention, Some(PlayerIntention::MoveTowardsMouse((9.0, 0.0))));
}

#[test]
fn a_stalled_simulation_commits_nothing() {
    let mut system = InputToNextActionSystem::new();
    let characters = world(true);
    let mut input = ControllerComponent::new(HERO, (0.0, 0.0));
    let mut player = player();
    input.right_mouse_down = true;
    let mut time = commit_tick(3);
    time.run_simulation_in_this_frame = false;
    system.run(&input, &characters, &mut player, &time, &Gat::open_field(4, 4), (1, 1));
    assert_eq!(player.intention, None);
    assert_eq!(system.prev_intention, Some(PlayerIntention::MoveTowardsMouse((0.0, 0.0))));
}

#[test]
fn a_tick_without_intention_is_bridged_by_the_one_before() {
    let mut system = InputToNextActionSystem::new();
    let characters = world(true);
    let mut input = ControllerComponent::new(HERO, (2.0, 2.0));
    let mut player = player();
    input.right_mouse_released = true;
    system.run(&input, &characters, &mut player, &commit_tick(1), &Gat::open_field(4, 4), (1, 1));
    assert_eq!(player.intention, None);
    input.right_mouse_released = false;
    system.run(&input, &characters, &mut player, &commit_tick(2), &Gat::open_field(4, 4), (1, 1));
    assert_eq!(player.intention, None);
    system.run(&input, &characters, &mut player, &commit_tick(3), &Gat::open_field(4, 4), (1, 1));
    assert_eq!(player.intention, Some(PlayerIntention::MoveTo((2.0, 2.0))));
    system.run(&input, &characters, &mut player, &commit_tick(6), &Gat::open_field(4, 4), (1, 1));
    assert_eq!(player.intention, None);
    assert_eq!(player.last_intention, Some(PlayerIntention::MoveTo((2.0, 2.0))));
}

#[test]
fn a_player_without_a_character_does_nothing() {
    let mut system = InputToNextActionSystem::new();
    let characters = world(true);
    let mut input = ControllerComponent::new(HERO, (2.0, 2.0));
    let mut player: LocalPlayerController<Pos> = LocalPlayerController::new();
    foe_under_cursor(&mut player);
    input.right_mouse_down = true;
    system.run(&input, &characters, &mut player, &commit_tick(3), &Gat::open_field(4, 4), (1, 1));
    assert_eq!(player.intention, None);
    assert_eq!(system.prev_intention, None);
    assert_eq!(player.bounding_rect_2d.len(), 1);

    player.controlled_entity = Some(CharEntityId(77));
    system.run(&input, &characters, &mut player, &commit_tick(3), &Gat::open_field(4, 4), (1, 1));
    assert_eq!(player.intention, None);
    assert_eq!(player.bounding_rect_2d.len(), 1);
}

#[test]
fn the_cell_below_the_cursor_is_looked_up_on_the_map() {
    let mut system = InputToNextActionSystem::new();
    let characters = world(true);
    let input = ControllerComponent::new(HERO, (2.0, 2.0));
    let mut player = player();
    let mut map = Gat::open_field(3, 2);
    map.cells[4] = 0;
    system.run(&input, &characters, &mut player, &commit_tick(1), &map, (0, 1));
    assert!(player.cell_below_cursor_walkable);
    assert_eq!(player.cursor_frame, rustarok::cursor::CursorFrame::Normal);
    system.run(&input, &characters, &mut player, &commit_tick(2), &map, (1, 1));
    assert!(!player.cell_below_cursor_walkable);
    assert_eq!(player.cursor_frame, rustarok::cursor::CursorFrame::Stop);
    assert_eq!(player.cursor_color, [255, 255, 255]);
    // off the map nothing can be walked on
    system.run(&input, &characters, &mut player, &commit_tick(3), &map, (3, 0));
    assert!(!player.cell_below_cursor_walkable);
}

#[test]
fn a_tap_of_a_skill_key_within_one_tick_arms_the_skill() {
    let mut system = InputToNextActionSystem::new();
    let characters = world(true);
    let mut input = ControllerComponent::new(HERO, (4.0, 4.0));
    input.cast_mode = CastMode::OnKeyRelease;
    input.assign_skill(SkillKey::Q, Skills::FireWall);
    let mut player = player();
    input.key_pressed(SCANCODE_Q);
    input.key_released(SCANCODE_Q);
    // the press is still seen, and a press comes before a release
    system.run(&input, &characters, &mut player, &commit_tick(1), &Gat::open_field(4, 4), (1, 1));
    assert_eq!(player.select_skill_target, Some((SkillKey::Q, Skills::FireWall)));
    assert_eq!(player.cast_request, None);
}

#[test]
fn a_right_click_within_one_tick_moves_towards_the_cursor() {
    let mut system = InputToNextActionSystem::new();
    let characters = world(true);
    let mut input = ControllerComponent::new(HERO, (6.0, 7.0));
    let mut player = player();
    foe_under_cursor(&mut player);
    input.mouse_button_pressed(MouseButton::Right);
    input.mouse_button_released(MouseButton::Right);
    assert!(input.right_mouse_pressed && input.right_mouse_released && !input.right_mouse_down);
    system.run(&input, &characters, &mut player, &commit_tick(3), &Gat::open_field(4, 4), (1, 1));
    assert_eq!(player.intention, Some(PlayerIntention::MoveTowardsMouse((6.0, 7.0))));
}
