use rustarok::components::char_state::{
    CastingSkillData, CharEntityId, CharState, CharacterStateComponent, CharacterStore,
    EntityTarget, Team,
};
use rustarok::components::controller::{ControllerAction, ControllerComponent, ScreenCoords};
use rustarok::components::skills::{SkillTargetType, Skills};
use rustarok::systems::control_sys::{CastAim, CharacterControlSystem};
use rustarok::time::ElapsedTime;

type Pos = (f32, f32);

const HERO: CharEntityId = CharEntityId(1);
const FOE: CharEntityId = CharEntityId(2);
const SPOT: ScreenCoords = ScreenCoords { x: 10, y: 20 };

fn aim(distance: u32) -> CastAim<Pos> {
    CastAim { distance, direction: (0.0, 1.0), facing: 4 }
}

fn world() -> CharacterStore<Pos> {
    let mut characters = CharacterStore::new();
    characters.insert(HERO, CharacterStateComponent::new(Team::Left, (1.0, 1.0)));
    characters.insert(FOE, CharacterStateComponent::new(Team::Right, (2.0, 2.0)));
    characters
}

fn after(controller: &ControllerComponent<Pos>, now: u64, aim: CastAim<Pos>) -> CharacterStateComponent<Pos> {
    let mut characters = world();
    CharacterControlSystem {}.run(controller, &mut characters, ElapsedTime(now), &aim);
    assert_eq!(characters.get(FOE), world().get(FOE));
    *characters.get(HERO).unwrap()
}

#[test]
fn move_or_attack_goes_for_the_entity_under_the_cursor() {
    let mut controller = ControllerComponent::new(HERO, (5.0, 6.0));
    controller.next_action = Some(ControllerAction::MoveOrAttackTo(SPOT));
    assert_eq!(after(&controller, 0, aim(0)).target, Some(EntityTarget::Pos((5.0, 6.0))));
    controller.entity_below_cursor = Some(FOE);
    assert_eq!(after(&controller, 0, aim(0)).target, Some(EntityTarget::OtherEntity(FOE)));
    controller.entity_below_cursor = Some(HERO);
    assert_eq!(after(&controller, 0, aim(0)).target, None);
}

#[test]
fn move_towards_mouse_walks_to_the_cursor() {
    let mut controller = ControllerComponent::new(HERO, (5.0, 6.0));
    controller.next_action = Some(ControllerAction::MoveTowardsMouse(SPOT));
    controller.entity_below_cursor = Some(FOE);
    assert_eq!(after(&controller, 0, aim(0)).target, Some(EntityTarget::Pos((5.0, 6.0))));
}

#[test]
fn other_actions_leave_the_character_alone() {
    let mut controller = ControllerComponent::new(HERO, (5.0, 6.0));
    let untouched = *world().get(HERO).unwrap();
    for action in [
        None,
        Some(ControllerAction::AttackTo(SPOT)),
        Some(ControllerAction::CastingSelectTarget(
            rustarok::components::controller::SkillKey::Q,
            Skills::FireWall,
        )),
        Some(ControllerAction::CancelCastingSelectTarget),
        Some(ControllerAction::LeftClick),
    ] {
        controller.next_action = action;
        assert_eq!(after(&controller, 0, aim(0)), untouched);
    }
}

#[test]
fn a_granted_cast_starts() {
    let mut controller = ControllerComponent::new(HERO, (5.0, 6.0));
    controller.next_action = Some(ControllerAction::Casting(Skills::FireWall, false));
    let hero = after(&controller, 1000, aim(10_000));
    assert_eq!(
        hero.state,
        CharState::CastingSkill(CastingSkillData {
            target_entity: None,
            cast_started: ElapsedTime(1000),
            cast_ends: ElapsedTime(1300),
            can_move: false,
            skill: Skills::FireWall,
            target_area_pos: Some((5.0, 6.0)),
            char_to_skill_dir_when_casted: (0.0, 1.0),
        })
    );
    assert_eq!(hero.dir, 4);
    assert_eq!(hero.target, None);
}

#[test]
fn a_cast_out_of_range_is_refused() {
    let mut controller = ControllerComponent::new(HERO, (5.0, 6.0));
    controller.next_action = Some(ControllerAction::Casting(Skills::FireWall, false));
    assert_eq!(after(&controller, 1000, aim(10_001)), *world().get(HERO).unwrap());
}

#[test]
fn a_cast_at_an_entity_needs_one() {
    let mut controller = ControllerComponent::new(HERO, (5.0, 6.0));
    controller.next_action = Some(ControllerAction::Casting(Skills::Heal, false));
    assert_eq!(after(&controller, 1000, aim(0)).state, CharState::Idle);
    controller.entity_below_cursor = Some(FOE);
    let hero = after(&controller, 1000, aim(500));
    match hero.state {
        CharState::CastingSkill(cast) => {
            assert_eq!(cast.target_entity, Some(FOE));
            assert_eq!(cast.target_area_pos, None);
            assert_eq!(cast.cast_ends, ElapsedTime(1300));
        }
        other => panic!("cast did not start: {:?}", other),
    }
}

#[test]
fn a_cast_on_the_caster_keeps_its_heading_over_an_entity() {
    let mut controller = ControllerComponent::new(HERO, (5.0, 6.0));
    controller.next_action = Some(ControllerAction::Casting(Skills::Heal, true));
    let hero = after(&controller, 0, aim(0));
    match hero.state {
        CharState::CastingSkill(cast) => assert_eq!(cast.target_entity, Some(HERO)),
        other => panic!("cast did not start: {:?}", other),
    }
    assert_eq!(hero.dir, 4);
    controller.entity_below_cursor = Some(FOE);
    assert_eq!(after(&controller, 0, aim(0)).dir, 0);
}

#[test]
fn a_character_that_cannot_move_cannot_cast() {
    let controller = ControllerComponent::new(HERO, (5.0, 6.0));
    let mut hero = CharacterStateComponent::new(Team::Left, (1.0, 1.0));
    hero.cannot_control_until = ElapsedTime(2000);
    let before = hero;
    CharacterControlSystem::try_cast_skill(Skills::FireWall, ElapsedTime(1999), &mut hero, &controller, false, &aim(0));
    assert_eq!(hero, before);
    CharacterControlSystem::try_cast_skill(Skills::FireWall, ElapsedTime(2000), &mut hero, &controller, false, &aim(0));
    assert_ne!(hero, before);
    // while it casts it cannot start another cast
    let casting = hero;
    CharacterControlSystem::try_cast_skill(Skills::Heal, ElapsedTime(2100), &mut hero, &controller, true, &aim(0));
    assert_eq!(hero, casting);
    let mut dead = CharacterStateComponent::new(Team::Left, (1.0, 1.0));
    dead.state = CharState::Dead;
    CharacterControlSystem::try_cast_skill(Skills::FireWall, ElapsedTime(0), &mut dead, &controller, false, &aim(0));
    assert_eq!(dead.state, CharState::Dead);
}

#[test]
fn a_controller_without_a_character_changes_nothing() {
    let mut controller = ControllerComponent::new(CharEntityId(50), (5.0, 6.0));
    controller.next_action = Some(ControllerAction::MoveTowardsMouse(SPOT));
    let mut characters = world();
    CharacterControlSystem {}.run(&controller, &mut characters, ElapsedTime(0), &aim(0));
    assert_eq!(characters.get(HERO), world().get(HERO));
    assert!(!characters.contains(CharEntityId(50)));
}

#[test]
fn skills_have_their_tables() {
    let expected = [
        (Skills::FireWall, SkillTargetType::Area, 10_000, 300),
        (Skills::BrutalTestSkill, SkillTargetType::Area, 20_000, 1000),
        (Skills::Lightning, SkillTargetType::Directional, 7_000, 700),
        (Skills::Heal, SkillTargetType::AnyEntity, 10_000, 300),
        (Skills::Mounting, SkillTargetType::OnlySelf, 0, 2000),
        (Skills::AbsorbShield, SkillTargetType::AnyEntity, 10_000, 500),
        (Skills::AttackMove, SkillTargetType::Area, u32::MAX, 0),
    ];
    for (slot, (skill, target_type, range, time)) in expected.iter().enumerate() {
        assert_eq!(skill.index(), slot);
        assert_eq!(skill.get_skill_target_type(), *target_type);
        assert_eq!(skill.get_casting_range(), *range);
        assert_eq!(skill.get_casting_time(), ElapsedTime(*time));
    }
    assert!(Skills::Mounting.is_casting_allowed(HERO, None, 0));
    assert!(Skills::Mounting.is_casting_allowed(HERO, Some(HERO), 0));
    assert!(!Skills::Mounting.is_casting_allowed(HERO, Some(FOE), 0));
    assert!(!Skills::Mounting.is_casting_allowed(HERO, None, 1));
    assert!(Skills::Lightning.is_casting_allowed(HERO, None, 7_000));
    assert!(!Skills::Lightning.is_casting_allowed(HERO, None, 7_001));
}

#[test]
fn teams_and_states() {
    assert!(Team::Left.is_ally_to(Team::Left));
    assert!(Team::Right.is_ally_to(Team::Right));
    assert!(Team::Left.is_enemy_to(Team::Right));
    assert!(!Team::Right.is_ally_to(Team::Left));
    let idle: CharState<Pos> = CharState::Idle;
    assert!(idle.is_alive() && !idle.is_dead());
    let dead: CharState<Pos> = CharState::Dead;
    assert!(dead.is_dead() && !dead.is_alive());
    let mut hero: CharacterStateComponent<Pos> = CharacterStateComponent::new(Team::Left, (0.0, 0.0));
    assert!(hero.can_move(ElapsedTime(0)));
    assert!(hero.is_skill_ready(Skills::Heal, ElapsedTime(0)));
    hero.skill_cast_allowed_at[Skills::Heal.index()] = ElapsedTime(10);
    assert!(!hero.is_skill_ready(Skills::Heal, ElapsedTime(9)));
    assert!(hero.is_skill_ready(Skills::FireWall, ElapsedTime(9)));
    hero.set_state(CharState::Walking((1.0, 1.0)), 3);
    assert_eq!(hero.dir, 3);
    assert_eq!(hero.state, CharState::Walking((1.0, 1.0)));
}

#[test]
fn the_store_keeps_one_record_per_entity() {
    let mut characters: CharacterStore<Pos> = CharacterStore::new();
    assert_eq!(characters.get(HERO), None);
    characters.insert(HERO, CharacterStateComponent::new(Team::Left, (1.0, 1.0)));
    characters.insert(FOE, CharacterStateComponent::new(Team::Right, (2.0, 2.0)));
    characters.insert(HERO, CharacterStateComponent::new(Team::Right, (3.0, 3.0)));
    assert_eq!(characters.get(HERO).unwrap().pos, (3.0, 3.0));
    assert_eq!(characters.get(HERO).unwrap().team, Team::Right);
    assert_eq!(characters.get(FOE).unwrap().pos, (2.0, 2.0));
    assert!(characters.contains(FOE));
    assert!(!characters.contains(CharEntityId(3)));
}
