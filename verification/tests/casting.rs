use rustarok::components::char_state::CharEntityId;
use rustarok::components::controller::{CastMode, SkillKey};
use rustarok::components::local_player::{CastRequest, PlayerIntention};
use rustarok::components::skills::Skills;
use rustarok::systems::casting::{decide, target_selection_or_casting, Decision, TickInput};

type Pos = (i32, i32);

const POS: Pos = (3, -4);

fn quiet(cast_mode: CastMode) -> TickInput<Pos> {
    TickInput {
        cast_mode,
        left_mouse_pressed: false,
        left_mouse_released: false,
        right_mouse_pressed: false,
        right_mouse_down: false,
        right_mouse_released: false,
        escape_just_pressed: false,
        armed_key_just_released: false,
        pressed_binding: None,
        released_binding: None,
        alt_down: false,
        is_console_open: false,
        mouse_world_pos: POS,
        living_enemy_below_cursor: None,
    }
}

fn nothing() -> Decision<Pos> {
    Decision { selection: None, intention: None, cast: None }
}

fn cast(skill: Skills, is_self_cast: bool) -> Option<CastRequest<Pos>> {
    Some(CastRequest { skill, is_self_cast, mouse_world_pos: POS })
}

const ARMED: Option<(SkillKey, Skills)> = Some((SkillKey::Q, Skills::FireWall));

#[test]
fn a_quiet_tick_decides_nothing() {
    for mode in [CastMode::Normal, CastMode::OnKeyRelease, CastMode::OnKeyPress] {
        assert_eq!(decide(None, &quiet(mode)), nothing());
        assert_eq!(
            decide(ARMED, &quiet(mode)),
            Decision { selection: ARMED, intention: None, cast: None }
        );
    }
}

#[test]
fn cancel_wins_over_every_confirmation() {
    for mode in [CastMode::Normal, CastMode::OnKeyRelease] {
        for (right, escape) in [(true, false), (false, true), (true, true)] {
            let mut input = quiet(mode);
            input.right_mouse_pressed = right;
            input.escape_just_pressed = escape;
            input.left_mouse_released = true;
            input.left_mouse_pressed = true;
            input.armed_key_just_released = true;
            input.pressed_binding = Some((SkillKey::W, Skills::Heal));
            assert_eq!(decide(ARMED, &input), nothing());
            assert_eq!(decide(Some((SkillKey::D, Skills::AttackMove)), &input), nothing());
        }
    }
}

#[test]
fn key_press_mode_lets_an_armed_skill_be() {
    let mut input = quiet(CastMode::OnKeyPress);
    input.escape_just_pressed = true;
    input.left_mouse_released = true;
    input.armed_key_just_released = true;
    assert_eq!(decide(ARMED, &input), Decision { selection: ARMED, intention: None, cast: None });
}

#[test]
fn the_release_of_the_left_button_confirms_in_normal_mode_only() {
    let mut input = quiet(CastMode::Normal);
    input.left_mouse_released = true;
    assert_eq!(
        decide(ARMED, &input),
        Decision { selection: None, intention: None, cast: cast(Skills::FireWall, false) }
    );
    input.cast_mode = CastMode::OnKeyRelease;
    assert_eq!(decide(ARMED, &input), Decision { selection: ARMED, intention: None, cast: None });
}

#[test]
fn the_release_of_the_arming_key_confirms_in_key_release_mode_only() {
    let mut input = quiet(CastMode::OnKeyRelease);
    input.armed_key_just_released = true;
    assert_eq!(
        decide(ARMED, &input),
        Decision { selection: None, intention: None, cast: cast(Skills::FireWall, false) }
    );
    input.cast_mode = CastMode::Normal;
    assert_eq!(decide(ARMED, &input), Decision { selection: ARMED, intention: None, cast: None });
}

#[test]
fn the_same_key_pressed_again_changes_nothing() {
    let mut input = quiet(CastMode::Normal);
    input.pressed_binding = Some((SkillKey::Q, Skills::Heal));
    assert_eq!(decide(ARMED, &input), Decision { selection: ARMED, intention: None, cast: None });
}

#[test]
fn another_key_rearms_or_casts_at_once() {
    let mut input = quiet(CastMode::Normal);
    input.pressed_binding = Some((SkillKey::W, Skills::Heal));
    assert_eq!(
        decide(ARMED, &input),
        Decision { selection: Some((SkillKey::W, Skills::Heal)), intention: None, cast: None }
    );
    input.pressed_binding = Some((SkillKey::W, Skills::Lightning));
    assert_eq!(
        decide(ARMED, &input),
        Decision { selection: ARMED, intention: None, cast: cast(Skills::Lightning, false) }
    );
    input.pressed_binding = Some((SkillKey::W, Skills::Heal));
    input.is_console_open = true;
    assert_eq!(decide(ARMED, &input), Decision { selection: ARMED, intention: None, cast: None });
}

#[test]
fn a_skill_key_comes_before_the_mouse() {
    let mut input = quiet(CastMode::Normal);
    input.right_mouse_down = true;
    input.pressed_binding = Some((SkillKey::W, Skills::Heal));
    assert_eq!(
        decide(None, &input),
        Decision { selection: Some((SkillKey::W, Skills::Heal)), intention: None, cast: None }
    );
    input.alt_down = true;
    assert_eq!(decide(None, &input), nothing());
    input.pressed_binding = None;
    input.released_binding = Some((SkillKey::W, Skills::Heal));
    assert_eq!(
        decide(None, &input),
        Decision { selection: None, intention: None, cast: cast(Skills::Heal, true) }
    );
    input.alt_down = false;
    assert_eq!(decide(None, &input), nothing());
}

#[test]
fn key_press_mode_casts_with_alt_on_the_caster() {
    let mut input = quiet(CastMode::OnKeyPress);
    input.pressed_binding = Some((SkillKey::W, Skills::Heal));
    assert_eq!(
        decide(None, &input),
        Decision { selection: None, intention: None, cast: cast(Skills::Heal, false) }
    );
    input.alt_down = true;
    assert_eq!(
        decide(None, &input),
        Decision { selection: None, intention: None, cast: cast(Skills::Heal, true) }
    );
}

#[test]
fn the_right_button_moves_and_attacks() {
    let mut input = quiet(CastMode::Normal);
    input.right_mouse_pressed = true;
    input.right_mouse_released = true;
    assert_eq!(decide(None, &input).intention, Some(PlayerIntention::MoveTowardsMouse(POS)));
    input.right_mouse_pressed = false;
    assert_eq!(decide(None, &input).intention, Some(PlayerIntention::MoveTo(POS)));
    input.living_enemy_below_cursor = Some(CharEntityId(8));
    assert_eq!(decide(None, &input).intention, Some(PlayerIntention::Attack(CharEntityId(8))));
    input.right_mouse_down = true;
    assert_eq!(decide(None, &input).intention, Some(PlayerIntention::MoveTowardsMouse(POS)));
}

#[test]
fn only_skills_that_need_no_target_are_cast_on_the_key_press() {
    assert_eq!(target_selection_or_casting(Skills::Mounting, POS), cast(Skills::Mounting, true));
    assert_eq!(target_selection_or_casting(Skills::Lightning, POS), cast(Skills::Lightning, false));
    for skill in [
        Skills::FireWall,
        Skills::BrutalTestSkill,
        Skills::Heal,
        Skills::AbsorbShield,
        Skills::AttackMove,
    ] {
        assert_eq!(target_selection_or_casting(skill, POS), None);
    }
}
