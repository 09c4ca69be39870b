//! The controller's action becomes the target of its character, or the
//! start of a cast.

use vstd::prelude::*;
use crate::components::char_state::{
    CastingSkillData, CharEntityId, CharState, CharacterStateComponent, CharacterStore,
    EntityTarget,
};
use crate::components::controller::{ControllerAction, ControllerComponent};
use crate::components::skills::{SkillTargetType, Skills};
use crate::time::{saturating_sum, ElapsedTime};

verus! {

/// Where a cast is aimed, measured from the caster to the target spot: the
/// caster's own spot for a cast on itself, else the spot under the cursor.
#[derive(Clone, Copy, Debug, PartialEq)]
pub struct CastAim<P> {
    /// The distance, in thousandths of a cell.
    pub distance: u32,
    /// The direction, as a vector of length one.
    pub direction: P,
    /// The direction, as the one of the eight headings that is nearest.
    pub facing: usize,
}

/// What the cast is aimed at: the caster and its spot for a cast on itself,
/// else the entity and the spot under the cursor.
pub open spec fn cast_target<P>(
    character: CharacterStateComponent<P>,
    controller: ControllerComponent<P>,
    is_self_cast: bool,
) -> (P, Option<CharEntityId>) {
    if is_self_cast {
        (character.pos, Some(controller.char_entity_id))
    } else {
        (controller.mouse_world_pos, controller.entity_below_cursor)
    }
}

/// Whether a request to cast `skill` is granted: the skill allows the cast
/// at this target and distance, and the character can move.
pub open spec fn cast_granted<P>(
    skill: Skills,
    now: ElapsedTime,
    character: CharacterStateComponent<P>,
    controller: ControllerComponent<P>,
    is_self_cast: bool,
    aim: CastAim<P>,
) -> bool {
    skill.casting_allowed(
        controller.char_entity_id,
        cast_target(character, controller, is_self_cast).1,
        aim.distance,
    ) && character.movable(now)
}

/// The character once the cast of `skill` has started at `now`. It cannot
/// move while it casts, and it turns towards the target unless it casts on
/// itself with an entity under the cursor.
pub open spec fn casting<P>(
    skill: Skills,
    now: ElapsedTime,
    character: CharacterStateComponent<P>,
    controller: ControllerComponent<P>,
    is_self_cast: bool,
    aim: CastAim<P>,
) -> CharacterStateComponent<P> {
    let (target_pos, target_entity) = cast_target(character, controller, is_self_cast);
    CharacterStateComponent {
        state: CharState::CastingSkill(
            CastingSkillData {
                target_entity,
                cast_started: now,
                cast_ends: ElapsedTime(saturating_sum(now.0, skill.casting_time().0)),
                can_move: false,
                skill,
                target_area_pos: if skill.target_type() == SkillTargetType::Area {
                    Some(target_pos)
                } else {
                    None
                },
                char_to_skill_dir_when_casted: aim.direction,
            },
        ),
        dir: if is_self_cast && controller.entity_below_cursor is Some {
            character.dir
        } else {
            aim.facing
        },
        ..character
    }
}

/// The character after its controller's action of this frame: a move
/// changes the target, a cast that is granted starts, and every other action
/// leaves the character as it is.
pub open spec fn controlled<P>(
    now: ElapsedTime,
    character: CharacterStateComponent<P>,
    controller: ControllerComponent<P>,
    aim: CastAim<P>,
) -> CharacterStateComponent<P> {
    match controller.next_action {
        Some(ControllerAction::MoveOrAttackTo(_)) => CharacterStateComponent {
            target: match controller.entity_below_cursor {
                Some(target_entity) => if target_entity != controller.char_entity_id {
                    Some(EntityTarget::OtherEntity(target_entity))
                } else {
                    None
                },
                None => Some(EntityTarget::Pos(controller.mouse_world_pos)),
            },
            ..character
        },
        Some(ControllerAction::MoveTowardsMouse(_)) => CharacterStateComponent {
            target: Some(EntityTarget::Pos(controller.mouse_world_pos)),
            ..character
        },
        Some(ControllerAction::Casting(skill, is_self_cast)) => if cast_granted(
            skill,
            now,
            character,
            controller,
            is_self_cast,
            aim,
        ) {
            casting(skill, now, character, controller, is_self_cast, aim)
        } else {
            character
        },
        _ => character,
    }
}

pub struct CharacterControlSystem {}

impl CharacterControlSystem {
    /// Applies the action of `controller` to the record of its character. A
    /// controller whose character the store has no record of changes nothing.
    pub fn run<P: Copy>(
        &mut self,
        controller: &ControllerComponent<P>,
        characters: &mut CharacterStore<P>,
        now: ElapsedTime,
        aim: &CastAim<P>,
    )
        requires
            old(characters).wf(),
        ensures
            final(characters).wf(),
            final(characters)@ == if old(characters)@.contains_key(controller.char_entity_id) {
                old(characters)@.insert(
                    controller.char_entity_id,
                    controlled(now, old(characters)@[controller.char_entity_id], *controller, *aim),
                )
            } else {
                old(characters)@
            },
    {
        let found = match characters.get(controller.char_entity_id) {
            Some(character) => Some(*character),
            None => None,
        };
        if let Some(character) = found {
            let mut char_state = character;
            match controller.next_action {
                Some(ControllerAction::MoveOrAttackTo(_)) => {
                    char_state.target = if let Some(target_entity) =
                        controller.entity_below_cursor {
                        if target_entity.0 != controller.char_entity_id.0 {
                            Some(EntityTarget::OtherEntity(target_entity))
                        } else {
                            None
                        }
                    } else {
                        Some(EntityTarget::Pos(controller.mouse_world_pos))
                    };
                },
                Some(ControllerAction::MoveTowardsMouse(_)) => {
                    char_state.target = Some(EntityTarget::Pos(controller.mouse_world_pos));
                },
                Some(ControllerAction::AttackTo(_)) => {},
                Some(ControllerAction::CastingSelectTarget(_, _)) => {},
                Some(ControllerAction::CancelCastingSelectTarget) => {},
                Some(ControllerAction::Casting(skill, is_self_cast)) => {
                    Self::try_cast_skill(skill, now, &mut char_state, controller, is_self_cast, aim);
                },
                Some(ControllerAction::LeftClick) => {},
                None => {},
            }
            characters.insert(controller.char_entity_id, char_state);
        }
    }

    /// Starts the cast of `skill` if the request is granted. A request that
    /// is refused, because the target is out of range or of the wrong kind or
    /// because the character cannot move, changes nothing.
    pub fn try_cast_skill<P: Copy>(
        skill: Skills,
        now: ElapsedTime,
        char_state: &mut CharacterStateComponent<P>,
        controller: &ControllerComponent<P>,
        is_self_cast: bool,
        aim: &CastAim<P>,
    )
        ensures
            *final(char_state) == if cast_granted(
                skill,
                now,
                *old(char_state),
                *controller,
                is_self_cast,
                *aim,
            ) {
                casting(skill, now, *old(char_state), *controller, is_self_cast, *aim)
            } else {
                *old(char_state)
            },
    {
        let (target_pos, target_entity) = if is_self_cast {
            (char_state.pos, Some(controller.char_entity_id))
        } else {
            (controller.mouse_world_pos, controller.entity_below_cursor)
        };
        let allowed = skill.is_casting_allowed(
            controller.char_entity_id,
            target_entity,
            aim.distance,
        );
        let can_move = char_state.can_move(now);
        if allowed && can_move {
            let casting_time = skill.get_casting_time();
            let new_state = CharState::CastingSkill(
                CastingSkillData {
                    target_entity,
                    cast_started: now,
                    cast_ends: now.add(casting_time),
                    can_move: false,
                    skill,
                    target_area_pos: match skill.get_skill_target_type() {
                        SkillTargetType::Area => Some(target_pos),
                        _ => None,
                    },
                    char_to_skill_dir_when_casted: aim.direction,
                },
            );
            let dir = if is_self_cast && controller.entity_below_cursor.is_some() {
                // skill on self, don't change direction
                char_state.dir
            } else {
                aim.facing
            };
            char_state.set_state(new_state, dir);
        }
    }
}

} // verus!
