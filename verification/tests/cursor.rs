use rustarok::components::char_state::{
    CharEntityId, CharState, CharacterStateComponent, CharacterStore, Team,
};
use rustarok::components::controller::SkillKey;
use rustarok::components::local_player::LocalPlayerController;
use rustarok::components::skills::Skills;
use rustarok::cursor::{
    CursorFrame, CURSOR_CLICK, CURSOR_COLOR_BLUE, CURSOR_COLOR_RED, CURSOR_COLOR_WHITE,
    CURSOR_NORMAL, CURSOR_STOP, CURSOR_TARGET,
};
use rustarok::systems::input_to_next_action::InputToNextActionSystem;
use rustarok::time::ElapsedTime;

type Pos = (i32, i32);

const HERO: CharEntityId = CharEntityId(1);
const FOE: CharEntityId = CharEntityId(2);
const FRIEND: CharEntityId = CharEntityId(3);
const STRANGER: CharEntityId = CharEntityId(9);

fn world() -> CharacterStore<Pos> {
    let mut characters = CharacterStore::new();
    characters.insert(HERO, CharacterStateComponent::new(Team::Left, (0, 0)));
    characters.insert(FOE, CharacterStateComponent::new(Team::Right, (1, 0)));
    characters.insert(FRIEND, CharacterStateComponent::new(Team::Left, (2, 0)));
    characters
}

fn cursor(player: &LocalPlayerController<Pos>, characters: &CharacterStore<Pos>, now: u64) -> (CursorFrame, [u8; 3]) {
    InputToNextActionSystem::determine_cursor(ElapsedTime(now), player, HERO, characters, Team::Left)
}

#[test]
fn armed_area_skill_on_cooldown_is_blocked_whatever_the_ground() {
    let mut characters = world();
    let mut hero = CharacterStateComponent::new(Team::Left, (0, 0));
    hero.skill_cast_allowed_at[Skills::FireWall.index()] = ElapsedTime(5000);
    characters.insert(HERO, hero);
    let mut player: LocalPlayerController<Pos> = LocalPlayerController::new();
    player.select_skill_target = Some((SkillKey::Q, Skills::FireWall));
    player.cell_below_cursor_walkable = true;
    assert_eq!(cursor(&player, &characters, 4999), (CURSOR_STOP, [255, 255, 255]));
    player.cell_below_cursor_walkable = false;
    assert_eq!(cursor(&player, &characters, 4999), (CURSOR_STOP, CURSOR_COLOR_WHITE));
    // the cooldown ends at the very millisecond it names
    assert_eq!(cursor(&player, &characters, 5000), (CURSOR_CLICK, CURSOR_COLOR_WHITE));
}

#[test]
fn armed_skill_shows_how_it_is_aimed() {
    let characters = world();
    let mut player: LocalPlayerController<Pos> = LocalPlayerController::new();
    player.select_skill_target = Some((SkillKey::Q, Skills::FireWall));
    assert_eq!(cursor(&player, &characters, 0), (CURSOR_CLICK, [255, 255, 255]));
    player.select_skill_target = Some((SkillKey::W, Skills::Heal));
    assert_eq!(cursor(&player, &characters, 0), (CURSOR_TARGET, [255, 255, 255]));
    // an entity under the cursor does not change the cursor of an armed skill
    player.entities_below_cursor.enemy = Some(FOE);
    assert_eq!(cursor(&player, &characters, 0), (CURSOR_TARGET, [255, 255, 255]));
}

#[test]
fn living_enemy_is_red_dead_or_allied_is_blue() {
    let mut characters = world();
    let mut player: LocalPlayerController<Pos> = LocalPlayerController::new();
    player.entities_below_cursor.enemy = Some(FOE);
    assert_eq!(cursor(&player, &characters, 0), (CURSOR_NORMAL, [255, 0, 0]));
    assert_eq!(CURSOR_COLOR_RED, [255, 0, 0]);

    let mut foe = CharacterStateComponent::new(Team::Right, (1, 0));
    foe.state = CharState::Dead;
    characters.insert(FOE, foe);
    assert_eq!(cursor(&player, &characters, 0), (CURSOR_NORMAL, [51, 117, 230]));
    assert_eq!(CURSOR_COLOR_BLUE, [51, 117, 230]);

    player.entities_below_cursor.enemy = None;
    player.entities_below_cursor.friendly = Some(FRIEND);
    assert_eq!(cursor(&player, &characters, 0), (CURSOR_NORMAL, [51, 117, 230]));
}

#[test]
fn own_character_is_blue_and_an_unknown_entity_red() {
    let characters = world();
    let mut player: LocalPlayerController<Pos> = LocalPlayerController::new();
    player.entities_below_cursor.friendly = Some(HERO);
    assert_eq!(cursor(&player, &characters, 0), (CURSOR_NORMAL, [51, 117, 230]));
    player.entities_below_cursor.friendly = Some(STRANGER);
    assert_eq!(cursor(&player, &characters, 0), (CURSOR_NORMAL, [255, 0, 0]));
}

#[test]
fn enemy_counts_before_friend() {
    let characters = world();
    let mut player: LocalPlayerController<Pos> = LocalPlayerController::new();
    player.entities_below_cursor.friendly = Some(FRIEND);
    player.entities_below_cursor.enemy = Some(FOE);
    assert_eq!(player.entities_below_cursor.get_enemy_or_friend(), Some(FOE));
    assert_eq!(cursor(&player, &characters, 0), (CURSOR_NORMAL, [255, 0, 0]));
}

#[test]
fn bare_ground_is_blocked_unless_walkable() {
    let characters = world();
    let mut player: LocalPlayerController<Pos> = LocalPlayerController::new();
    assert_eq!(cursor(&player, &characters, 0), (CURSOR_STOP, [255, 255, 255]));
    player.cell_below_cursor_walkable = true;
    assert_eq!(cursor(&player, &characters, 0), (CURSOR_NORMAL, [255, 255, 255]));
}

#[test]
fn glyphs_have_their_sprite_actions() {
    assert_eq!(CursorFrame::Normal.action_index(), 0);
    assert_eq!(CursorFrame::Click.action_index(), 2);
    assert_eq!(CursorFrame::Stop.action_index(), 8);
    assert_eq!(CursorFrame::Target.action_index(), 10);
}
