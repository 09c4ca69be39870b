//! The resolver of one tick: from the raw input and the armed skill to the
//! cursor, the armed skill of the next tick and the committed intention.

use vstd::prelude::*;
use crate::components::char_state::{CharEntityId, CharacterStateComponent, CharacterStore, Team};
use crate::components::controller::{ControllerComponent, SkillKey, SpriteBoundingRect};
use crate::components::keys::SCANCODE_ESCAPE;
use crate::components::local_player::{
    first_covering_of_side, EntitiesBelowCursor, LocalPlayerController, PlayerIntention,
};
use crate::components::skills::{SkillTargetType, Skills};
use crate::cursor::CursorFrame;
use crate::map::Gat;
use crate::systems::casting::{decide, Decision, TickInput};
use crate::systems::intention_applier::{store_with_intention, ControllerIntentionToCharTarget};
use crate::time::{ElapsedTime, EngineTime};

verus! {

/// The glyph of the cursor. First match wins:
///
/// 1. A skill is armed: "blocked" while its cooldown runs, else "targeting"
///    unless the skill is aimed at the ground, else "click to confirm".
/// 2. An entity is under the cursor: the plain arrow.
/// 3. The ground under the cursor is not walkable: "blocked".
/// 4. The plain arrow.
///
/// A controlled character without a record has no cooldown running.
pub open spec fn cursor_frame_of<P>(
    now: ElapsedTime,
    local_player: LocalPlayerController<P>,
    controlled_entity: CharEntityId,
    characters: Map<CharEntityId, CharacterStateComponent<P>>,
) -> CursorFrame {
    match local_player.select_skill_target {
        Some((_, skill)) => {
            if characters.contains_key(controlled_entity) && !characters[controlled_entity].skill_ready(
                skill,
                now,
            ) {
                CursorFrame::Stop
            } else if skill.target_type() != SkillTargetType::Area {
                CursorFrame::Target
            } else {
                CursorFrame::Click
            }
        },
        None => {
            if local_player.entities_below_cursor.enemy_or_friend() is Some {
                CursorFrame::Normal
            } else if !local_player.cell_below_cursor_walkable {
                CursorFrame::Stop
            } else {
                CursorFrame::Normal
            }
        },
    }
}

/// The entity under the cursor cannot be attacked: it is the player's own
/// character, or it is known to be dead or on the player's side.
pub open spec fn is_no_attack_target<P>(
    entity: CharEntityId,
    controlled_entity: CharEntityId,
    characters: Map<CharEntityId, CharacterStateComponent<P>>,
    self_team: Team,
) -> bool {
    entity == controlled_entity || (characters.contains_key(entity) && (
    !characters[entity].state.alive() || characters[entity].team.allied_with(self_team)))
}

/// The tint of the cursor, as red, green and blue: white, but over an entity
/// with no skill armed blue where the entity cannot be attacked and red where
/// it can.
pub open spec fn cursor_color_of<P>(
    local_player: LocalPlayerController<P>,
    controlled_entity: CharEntityId,
    characters: Map<CharEntityId, CharacterStateComponent<P>>,
    self_team: Team,
) -> Seq<u8> {
    match (local_player.select_skill_target, local_player.entities_below_cursor.enemy_or_friend()) {
        (None, Some(entity)) => {
            if is_no_attack_target(entity, controlled_entity, characters, self_team) {
                seq![51u8, 117u8, 230u8]
            } else {
                seq![255u8, 0u8, 0u8]
            }
        },
        _ => seq![255u8, 255u8, 255u8],
    }
}

/// The enemy under the cursor, if the store knows it and it is alive.
pub open spec fn living_enemy_below_cursor<P>(
    local_player: LocalPlayerController<P>,
    characters: Map<CharEntityId, CharacterStateComponent<P>>,
) -> Option<CharEntityId> {
    match local_player.entities_below_cursor.enemy {
        Some(enemy) if characters.contains_key(enemy) && characters[enemy].state.alive() => Some(
            enemy,
        ),
        _ => None,
    }
}

/// A skill key together with the skill bound to it, if there is a key and a
/// skill is bound to it.
pub open spec fn binding_of<P>(input: ControllerComponent<P>, key: Option<SkillKey>) -> Option<
    (SkillKey, Skills),
> {
    match key {
        Some(key) => match input.binding(key) {
            Some(skill) => Some((key, skill)),
            None => None,
        },
        None => None,
    }
}

/// What the decision of the tick reads, taken off the controller and the
/// player's state.
pub open spec fn tick_input_of<P>(
    input: ControllerComponent<P>,
    local_player: LocalPlayerController<P>,
    characters: Map<CharEntityId, CharacterStateComponent<P>>,
    just_pressed_skill_key: Option<SkillKey>,
    just_released_skill_key: Option<SkillKey>,
    alt_down: bool,
) -> TickInput<P> {
    TickInput {
        cast_mode: input.cast_mode,
        left_mouse_pressed: input.left_mouse_pressed,
        left_mouse_released: input.left_mouse_released,
        right_mouse_pressed: input.right_mouse_pressed,
        right_mouse_down: input.right_mouse_down,
        right_mouse_released: input.right_mouse_released,
        escape_just_pressed: input.keys.key(SCANCODE_ESCAPE).just_pressed,
        armed_key_just_released: match local_player.select_skill_target {
            Some((key, _)) => input.keys.key(key.code()).just_released,
            None => false,
        },
        pressed_binding: binding_of(input, just_pressed_skill_key),
        released_binding: binding_of(input, just_released_skill_key),
        alt_down,
        is_console_open: input.is_console_open,
        mouse_world_pos: input.mouse_world_pos,
        living_enemy_below_cursor: living_enemy_below_cursor(local_player, characters),
    }
}

/// The freshest intention at hand: that of this tick, else that of the tick
/// before, else that of the tick before that.
pub open spec fn freshest<P>(
    prev_prev_intention: Option<PlayerIntention<P>>,
    prev_intention: Option<PlayerIntention<P>>,
    current: Option<PlayerIntention<P>>,
) -> Option<PlayerIntention<P>> {
    if current is Some {
        current
    } else if prev_intention is Some {
        prev_intention
    } else {
        prev_prev_intention
    }
}

/// The intention that a tick commits: the freshest one at hand on a commit
/// tick, none on any other tick.
pub open spec fn committed<P>(
    time: EngineTime,
    prev_prev_intention: Option<PlayerIntention<P>>,
    prev_intention: Option<PlayerIntention<P>>,
    current: Option<PlayerIntention<P>>,
) -> Option<PlayerIntention<P>> {
    if time.is_commit_tick() {
        freshest(prev_prev_intention, prev_intention, current)
    } else {
        None
    }
}

/// The resolver, with the intentions of the two ticks before this one.
pub struct InputToNextActionSystem<P> {
    pub prev_intention: Option<PlayerIntention<P>>,
    pub prev_prev_intention: Option<PlayerIntention<P>>,
}

impl<P: Copy> InputToNextActionSystem<P> {
    /// A resolver that has seen no tick yet.
    pub fn new() -> (system: InputToNextActionSystem<P>)
        ensures
            system.prev_intention is None,
            system.prev_prev_intention is None,
    {
        InputToNextActionSystem { prev_intention: None, prev_prev_intention: None }
    }

    /// The cursor to show: its glyph and its tint.
    pub fn determine_cursor(
        now: ElapsedTime,
        local_player: &LocalPlayerController<P>,
        controlled_entity: CharEntityId,
        characters: &CharacterStore<P>,
        self_team: Team,
    ) -> (cursor: (CursorFrame, [u8; 3]))
        requires
            characters.wf(),
        ensures
            cursor.0 == cursor_frame_of(now, *local_player, controlled_entity, characters@),
            cursor.1@ == cursor_color_of(*local_player, controlled_entity, characters@, self_team),
    {
        if let Some((_skill_key, skill)) = local_player.select_skill_target {
            let is_castable = match characters.get(controlled_entity) {
                Some(character) => character.is_skill_ready(skill, now),
                None => true,
            };
            if !is_castable {
                (CursorFrame::Stop, [255, 255, 255])
            } else {
                match skill.get_skill_target_type() {
                    SkillTargetType::Area => (CursorFrame::Click, [255, 255, 255]),
                    _ => (CursorFrame::Target, [255, 255, 255]),
                }
            }
        } else if let Some(entity_below_cursor) =
            local_player.entities_below_cursor.get_enemy_or_friend() {
            let ent_is_dead_or_friend = match characters.get(entity_below_cursor) {
                Some(character) => !character.state.is_alive() || character.team.is_ally_to(
                    self_team,
                ),
                None => false,
            };
            if entity_below_cursor.0 == controlled_entity.0 || ent_is_dead_or_friend {
                // self or dead
                (CursorFrame::Normal, [51, 117, 230])
            } else {
                (CursorFrame::Normal, [255, 0, 0])
            }
        } else if !local_player.cell_below_cursor_walkable {
            (CursorFrame::Stop, [255, 255, 255])
        } else {
            (CursorFrame::Normal, [255, 255, 255])
        }
    }

    /// Decides the tick and arms or disarms the player accordingly. Returns
    /// the intention of the tick; the confirmed cast is left in
    /// `cast_request`.
    pub fn determine_intention(
        characters: &CharacterStore<P>,
        input: &ControllerComponent<P>,
        local_player: &mut LocalPlayerController<P>,
        just_pressed_skill_key: Option<SkillKey>,
        just_released_skill_key: Option<SkillKey>,
        alt_down: bool,
    ) -> (intention: Option<PlayerIntention<P>>)
        requires
            characters.wf(),
            input.wf(),
        ensures
            ({
                let decision = tick_input_of(
                    *input,
                    *old(local_player),
                    characters@,
                    just_pressed_skill_key,
                    just_released_skill_key,
                    alt_down,
                ).decision(old(local_player).select_skill_target);
                &&& intention == decision.intention
                &&& *final(local_player) == (LocalPlayerController {
                    select_skill_target: decision.selection,
                    cast_request: decision.cast,
                    ..*old(local_player)
                })
            }),
    {
        let living_enemy = match local_player.entities_below_cursor.get_enemy() {
            Some(enemy) => match characters.get(enemy) {
                Some(character) => if character.state.is_alive() {
                    Some(enemy)
                } else {
                    None
                },
                None => None,
            },
            None => None,
        };
        let armed_key_just_released = match local_player.select_skill_target {
            Some((key, _)) => input.is_key_just_released(key.scancode()),
            None => false,
        };
        let tick = TickInput {
            cast_mode: input.cast_mode,
            left_mouse_pressed: input.left_mouse_pressed,
            left_mouse_released: input.left_mouse_released,
            right_mouse_pressed: input.right_mouse_pressed,
            right_mouse_down: input.right_mouse_down,
            right_mouse_released: input.right_mouse_released,
            escape_just_pressed: input.is_key_just_pressed(SCANCODE_ESCAPE),
            armed_key_just_released,
            pressed_binding: Self::binding(input, just_pressed_skill_key),
            released_binding: Self::binding(input, just_released_skill_key),
            alt_down,
            is_console_open: input.is_console_open,
            mouse_world_pos: input.mouse_world_pos,
            living_enemy_below_cursor: living_enemy,
        };
        let decision = decide(local_player.select_skill_target, &tick);
        local_player.select_skill_target = decision.selection;
        local_player.cast_request = decision.cast;
        decision.intention
    }

    fn binding(input: &ControllerComponent<P>, key: Option<SkillKey>) -> (bound: Option<
        (SkillKey, Skills),
    >)
        ensures
            bound == binding_of(*input, key),
    {
        match key {
            Some(key) => match input.get_skill_for_key(key) {
                Some(skill) => Some((key, skill)),
                None => None,
            },
            None => None,
        }
    }

    /// Runs the resolver for one tick.
    ///
    /// A player without a character, or with one that the store has no
    /// record of, has nothing to do: nothing changes. Otherwise, in this
    /// order:
    ///
    /// * what is under the cursor is found, and the rectangles are dropped;
    /// * whether the map cell below the cursor, `cell_below_cursor` by column
    ///   and row, can be walked on is noted, and the cursor is chosen;
    /// * the tick is decided from the first skill key that was just pressed
    ///   and the first that was just released, which arms or disarms the
    ///   player;
    /// * the intention is committed: on a commit tick the freshest one of
    ///   this tick and the two before, on any other tick none; a committed
    ///   intention also becomes the last intention;
    /// * the confirmed cast is kept unless the console is open;
    /// * the intention of this tick enters the history.
    pub fn run(
        &mut self,
        input: &ControllerComponent<P>,
        characters: &CharacterStore<P>,
        local_player: &mut LocalPlayerController<P>,
        time: &EngineTime,
        map: &Gat,
        cell_below_cursor: (usize, usize),
    )
        requires
            characters.wf(),
            input.wf(),
        ensures
            !has_controlled_character(*old(local_player), characters@) ==> {
                &&& *final(self) == *old(self)
                &&& *final(local_player) == *old(local_player)
            },
            has_controlled_character(*old(local_player), characters@) ==> {
                let controlled = old(local_player).controlled_entity->0;
                let team = characters@[controlled].team;
                let seen = after_looking(
                    *old(local_player),
                    *input,
                    team,
                    map.walkable_at(cell_below_cursor.0, cell_below_cursor.1),
                    final(local_player).bounding_rect_2d,
                );
                let decision = tick_input_of(
                    *input,
                    seen,
                    characters@,
                    input.just_pressed_skill_key(),
                    input.just_released_skill_key(),
                    input.alt_down,
                ).decision(seen.select_skill_target);
                let intention = committed(
                    *time,
                    old(self).prev_prev_intention,
                    old(self).prev_intention,
                    decision.intention,
                );
                &&& final(self).prev_prev_intention == old(self).prev_intention
                &&& final(self).prev_intention == decision.intention
                &&& final(local_player).bounding_rect_2d@.len() == 0
                &&& final(local_player).cursor_frame == cursor_frame_of(
                    time.time,
                    seen,
                    controlled,
                    characters@,
                )
                &&& final(local_player).cursor_color@ == cursor_color_of(
                    seen,
                    controlled,
                    characters@,
                    team,
                )
                &&& *final(local_player) == (LocalPlayerController {
                    cursor_frame: final(local_player).cursor_frame,
                    cursor_color: final(local_player).cursor_color,
                    select_skill_target: decision.selection,
                    intention,
                    last_intention: if intention is Some {
                        intention
                    } else {
                        old(local_player).last_intention
                    },
                    cast_request: if input.is_console_open {
                        None
                    } else {
                        decision.cast
                    },
                    ..seen
                })
            },
    {
        let controlled_entity_id = match local_player.controlled_entity {
            Some(id) => id,
            None => {
                return ;
            },
        };
        let self_char_team = match characters.get(controlled_entity_id) {
            Some(character) => character.team,
            None => {
                return ;
            },
        };
        let just_pressed_skill_key = input.find_skill_key_with_edge(true);
        let just_released_skill_key = input.find_skill_key_with_edge(false);

        local_player.calc_entities_below_cursor(
            self_char_team,
            input.last_mouse_x,
            input.last_mouse_y,
        );
        local_player.cell_below_cursor_walkable = map.is_walkable(
            cell_below_cursor.0,
            cell_below_cursor.1,
        );

        let (cursor_frame, cursor_color) = Self::determine_cursor(
            time.now(),
            local_player,
            controlled_entity_id,
            characters,
            self_char_team,
        );
        local_player.cursor_frame = cursor_frame;
        local_player.cursor_color = cursor_color;

        let alt_down = input.alt_down;
        let current_frame_intention = Self::determine_intention(
            characters,
            input,
            local_player,
            just_pressed_skill_key,
            just_released_skill_key,
            alt_down,
        );

        if time.can_simulation_run() && time.simulation_frame % 3 == 0 {
            local_player.intention = match (
                &self.prev_prev_intention,
                &self.prev_intention,
                &current_frame_intention,
            ) {
                (_, _, Some(current)) => Some(*current),
                (_, Some(prev), None) => Some(*prev),
                (Some(prev_prev), None, None) => Some(*prev_prev),
                (None, None, None) => None,
            };
        } else {
            local_player.intention = None;
        }
        if local_player.intention.is_some() {
            local_player.last_intention = local_player.intention;
        }
        self.prev_prev_intention = self.prev_intention;
        self.prev_intention = current_frame_intention;

        // in console mode, only moving around is allowed
        if input.is_console_open {
            local_player.cast_request = None;
        }
    }
}

/// Whether the player controls a character that the store has a record of.
pub open spec fn has_controlled_character<P>(
    local_player: LocalPlayerController<P>,
    characters: Map<CharEntityId, CharacterStateComponent<P>>,
) -> bool {
    local_player.controlled_entity matches Some(id) && characters.contains_key(id)
}

/// The player's state after the look at the screen: what is under the
/// cursor is known, the list of rectangles is replaced by the emptied one,
/// and whether the ground under the cursor is walkable is noted.
pub open spec fn after_looking<P>(
    local_player: LocalPlayerController<P>,
    input: ControllerComponent<P>,
    team: Team,
    cell_below_cursor_walkable: bool,
    emptied: Vec<(CharEntityId, SpriteBoundingRect, Team)>,
) -> LocalPlayerController<P> {
    LocalPlayerController {
        entities_below_cursor: EntitiesBelowCursor {
            friendly: first_covering_of_side(
                local_player.bounding_rect_2d@,
                input.last_mouse_x,
                input.last_mouse_y,
                team,
                true,
            ),
            enemy: first_covering_of_side(
                local_player.bounding_rect_2d@,
                input.last_mouse_x,
                input.last_mouse_y,
                team,
                false,
            ),
        },
        bounding_rect_2d: emptied,
        cell_below_cursor_walkable,
        ..local_player
    }
}

/// The write of the player's intention into the character store, as a
/// system of its own: it runs after the resolver in every tick.
pub struct ClientIntentionToCharTargetSystem {}

impl ClientIntentionToCharTargetSystem {
    /// Writes the intention of the player into the record of the character
    /// that the player controls.
    pub fn run<P: Copy>(
        &mut self,
        characters: &mut CharacterStore<P>,
        local_player: &LocalPlayerController<P>,
    )
        requires
            old(characters).wf(),
        ensures
            final(characters).wf(),
            final(characters)@ == store_with_intention(
                old(characters)@,
                local_player.controlled_entity,
                local_player.intention,
            ),
    {
        ControllerIntentionToCharTarget::controller_intention_to_char_target(
            local_player,
            characters,
        )
    }
}

/// A tick that is no commit tick commits nothing, whatever was resolved in
/// it or before it.
pub proof fn lemma_off_tick_commits_nothing<P>(
    time: EngineTime,
    prev_prev_intention: Option<PlayerIntention<P>>,
    prev_intention: Option<PlayerIntention<P>>,
    current: Option<PlayerIntention<P>>,
)
    requires
        !time.is_commit_tick(),
    ensures
        committed(time, prev_prev_intention, prev_intention, current) is None,
{
}

/// Of three consecutive simulation steps at most one commits an intention:
/// the other two are forced to none.
pub proof fn lemma_at_most_one_commit_in_three<P>(
    first: EngineTime,
    second: EngineTime,
    third: EngineTime,
    history: Seq<Option<PlayerIntention<P>>>,
)
    requires
        history.len() == 5,
        first.simulation_frame + 2 <= u64::MAX,
        second.simulation_frame == first.simulation_frame + 1,
        third.simulation_frame == first.simulation_frame + 2,
    ensures
        ({
            let a = committed(first, history[0], history[1], history[2]);
            let b = committed(second, history[1], history[2], history[3]);
            let c = committed(third, history[2], history[3], history[4]);
            (a is None && b is None) || (a is None && c is None) || (b is None && c is None)
        }),
{
}

/// After two ticks of moving towards the cursor, a commit tick that again
/// moves towards the cursor commits the cursor position of this very tick,
/// not one of the two before and no mean of them.
pub proof fn lemma_sustained_move_commits_current_cursor<P>(
    time: EngineTime,
    before_that: P,
    before: P,
    now: P,
)
    requires
        time.is_commit_tick(),
    ensures
        committed(
            time,
            Some(PlayerIntention::MoveTowardsMouse(before_that)),
            Some(PlayerIntention::MoveTowardsMouse(before)),
            Some(PlayerIntention::MoveTowardsMouse(now)),
        ) == Some(PlayerIntention::MoveTowardsMouse(now)),
{
}

/// A commit tick commits nothing only when this tick and the two before it
/// resolved nothing: a single tick without an intention is bridged.
pub proof fn lemma_commit_bridges_gaps<P>(
    time: EngineTime,
    prev_prev_intention: Option<PlayerIntention<P>>,
    prev_intention: Option<PlayerIntention<P>>,
    current: Option<PlayerIntention<P>>,
)
    requires
        time.is_commit_tick(),
    ensures
        committed(time, prev_prev_intention, prev_intention, current) is None <==> (current is None
            && prev_intention is None && prev_prev_intention is None),
        current is Some ==> committed(time, prev_prev_intention, prev_intention, current)
            == current,
{
}

} // verus!
