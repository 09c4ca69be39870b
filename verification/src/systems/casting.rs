//! The decision of one tick: from the armed skill and the input edges of the
//! tick to the armed skill of the next tick, the player's intention and the
//! confirmed cast.
//!
//! The rules, in the order in which they are tried:
//!
//! * While attack-move is armed: the right mouse button or Escape disarms;
//!   else a left click sends the character attacking towards the cursor and
//!   disarms.
//! * While another skill is armed, in mode `Normal`: the right mouse button
//!   or Escape disarms; else releasing the left mouse button confirms the cast
//!   and disarms; else pressing another bound skill key is handled as a key
//!   press is.
//! * While a skill is armed, in mode `OnKeyRelease`: the right mouse button
//!   or Escape disarms; else releasing the key that armed the skill confirms
//!   the cast and disarms.
//! * While a skill is armed, in mode `OnKeyPress`: nothing happens.
//! * While nothing is armed and a bound skill key is pressed: in mode
//!   `OnKeyPress` the cast is confirmed at once; in the other modes, unless alt
//!   is held, the key press is handled.
//! * While nothing is armed and a bound skill key is released: with alt held,
//!   a cast on the caster is confirmed.
//! * Else the right mouse button, pressed or held, moves the character
//!   towards the cursor; released, it attacks the living enemy under the
//!   cursor or, without one, walks to the cursor.
//!
//! A key press is handled so: a skill that needs no target picked is
//! confirmed at once; any other skill is armed, unless the console is open.

use vstd::prelude::*;
use crate::components::char_state::CharEntityId;
use crate::components::controller::{CastMode, SkillKey};
use crate::components::local_player::{CastRequest, PlayerIntention};
use crate::components::skills::{SkillTargetType, Skills};

verus! {

/// What the decision reads of one tick. `P` is a position in the world.
#[derive(Clone, Copy, Debug, PartialEq)]
pub struct TickInput<P> {
    pub cast_mode: CastMode,
    pub left_mouse_pressed: bool,
    pub left_mouse_released: bool,
    pub right_mouse_pressed: bool,
    pub right_mouse_down: bool,
    pub right_mouse_released: bool,
    /// Whether Escape went down in this tick.
    pub escape_just_pressed: bool,
    /// Whether the key that armed the skill went up in this tick.
    pub armed_key_just_released: bool,
    /// The skill key that went down in this tick, with the skill bound to it.
    pub pressed_binding: Option<(SkillKey, Skills)>,
    /// The skill key that went up in this tick, with the skill bound to it.
    pub released_binding: Option<(SkillKey, Skills)>,
    pub alt_down: bool,
    pub is_console_open: bool,
    pub mouse_world_pos: P,
    /// The enemy under the cursor, if it is alive.
    pub living_enemy_below_cursor: Option<CharEntityId>,
}

/// What one tick decides.
#[derive(Clone, Copy, Debug, PartialEq)]
pub struct Decision<P> {
    /// The armed skill after the tick.
    pub selection: Option<(SkillKey, Skills)>,
    /// The intention of the tick.
    pub intention: Option<PlayerIntention<P>>,
    /// The cast confirmed in the tick.
    pub cast: Option<CastRequest<P>>,
}

impl<P> TickInput<P> {
    /// Whether the player cancels: right mouse button or Escape.
    pub open spec fn cancels(self) -> bool {
        self.right_mouse_pressed || self.escape_just_pressed
    }

    /// The confirmation of `skill`, aimed at the cursor.
    pub open spec fn cast_of(self, skill: Skills, is_self_cast: bool) -> CastRequest<P> {
        CastRequest { skill, is_self_cast, mouse_world_pos: self.mouse_world_pos }
    }

    /// Nothing happens: the armed skill stays as it is.
    pub open spec fn stay(self, selection: Option<(SkillKey, Skills)>) -> Decision<P> {
        Decision { selection, intention: None, cast: None }
    }

    /// The cast of `skill` is confirmed and nothing is armed any more.
    pub open spec fn confirm(self, skill: Skills, is_self_cast: bool) -> Decision<P> {
        Decision { selection: None, intention: None, cast: Some(self.cast_of(skill, is_self_cast)) }
    }

    /// A fresh press of the key `key`, to which `skill` is bound, while
    /// `selection` is armed.
    pub open spec fn on_skill_key(
        self,
        selection: Option<(SkillKey, Skills)>,
        key: SkillKey,
        skill: Skills,
    ) -> Decision<P> {
        if skill.resolves_without_target() {
            Decision {
                selection,
                intention: None,
                cast: Some(self.cast_of(skill, skill.target_type() == SkillTargetType::OnlySelf)),
            }
        } else if self.is_console_open {
            self.stay(selection)
        } else {
            self.stay(Some((key, skill)))
        }
    }

    /// The decision while `skill` is armed by `key`.
    pub open spec fn while_selecting(self, key: SkillKey, skill: Skills) -> Decision<P> {
        let armed = Some((key, skill));
        if skill == Skills::AttackMove {
            if self.cancels() {
                self.stay(None)
            } else if self.left_mouse_pressed {
                Decision {
                    selection: None,
                    intention: Some(PlayerIntention::AttackTowards(self.mouse_world_pos)),
                    cast: None,
                }
            } else {
                self.stay(armed)
            }
        } else {
            match self.cast_mode {
                CastMode::Normal => {
                    if self.cancels() {
                        self.stay(None)
                    } else if self.left_mouse_released {
                        self.confirm(skill, false)
                    } else {
                        match self.pressed_binding {
                            Some((other_key, other_skill)) if other_key != key => self.on_skill_key(
                                armed,
                                other_key,
                                other_skill,
                            ),
                            _ => self.stay(armed),
                        }
                    }
                },
                CastMode::OnKeyRelease => {
                    if self.cancels() {
                        self.stay(None)
                    } else if self.armed_key_just_released {
                        self.confirm(skill, false)
                    } else {
                        self.stay(armed)
                    }
                },
                CastMode::OnKeyPress => self.stay(armed),
            }
        }
    }

    /// The decision while nothing is armed.
    pub open spec fn while_idle(self) -> Decision<P> {
        match self.pressed_binding {
            Some((key, skill)) => match self.cast_mode {
                CastMode::OnKeyPress => self.confirm(skill, self.alt_down),
                _ => if self.alt_down {
                    self.stay(None)
                } else {
                    self.on_skill_key(None, key, skill)
                },
            },
            None => match self.released_binding {
                Some((_, skill)) => if self.alt_down {
                    self.confirm(skill, true)
                } else {
                    self.stay(None)
                },
                None => Decision {
                    selection: None,
                    intention: self.mouse_intention(),
                    cast: None,
                },
            },
        }
    }

    /// What the right mouse button asks for.
    pub open spec fn mouse_intention(self) -> Option<PlayerIntention<P>> {
        if self.right_mouse_pressed || self.right_mouse_down {
            Some(PlayerIntention::MoveTowardsMouse(self.mouse_world_pos))
        } else if self.right_mouse_released {
            match self.living_enemy_below_cursor {
                Some(enemy) => Some(PlayerIntention::Attack(enemy)),
                None => Some(PlayerIntention::MoveTo(self.mouse_world_pos)),
            }
        } else {
            None
        }
    }

    /// The decision of the tick.
    pub open spec fn decision(self, selection: Option<(SkillKey, Skills)>) -> Decision<P> {
        match selection {
            Some((key, skill)) => self.while_selecting(key, skill),
            None => self.while_idle(),
        }
    }
}

/// Decides a fresh press of a skill key: a skill that needs no target
/// picked is cast at once, aimed at the cursor, and on the caster where the
/// skill is for the caster alone; for any other skill there is nothing to
/// cast yet.
pub fn target_selection_or_casting<P: Copy>(skill: Skills, mouse_pos: P) -> (cast: Option<
    CastRequest<P>,
>)
    ensures
        cast == if skill.resolves_without_target() {
            Some(
                CastRequest {
                    skill,
                    is_self_cast: skill.target_type() == SkillTargetType::OnlySelf,
                    mouse_world_pos: mouse_pos,
                },
            )
        } else {
            None
        },
{
    match skill.get_skill_target_type() {
        SkillTargetType::OnlySelf => Some(
            CastRequest { skill, is_self_cast: true, mouse_world_pos: mouse_pos },
        ),
        SkillTargetType::Directional => Some(
            CastRequest { skill, is_self_cast: false, mouse_world_pos: mouse_pos },
        ),
        SkillTargetType::AnyEntity => None,
        SkillTargetType::Area => None,
    }
}

fn on_skill_key<P: Copy>(
    input: &TickInput<P>,
    selection: Option<(SkillKey, Skills)>,
    key: SkillKey,
    skill: Skills,
) -> (decision: Decision<P>)
    ensures
        decision == input.on_skill_key(selection, key, skill),
{
    match target_selection_or_casting(skill, input.mouse_world_pos) {
        Some(cast) => Decision { selection, intention: None, cast: Some(cast) },
        None => if input.is_console_open {
            Decision { selection, intention: None, cast: None }
        } else {
            Decision { selection: Some((key, skill)), intention: None, cast: None }
        },
    }
}

fn is_attack_move(skill: Skills) -> (yes: bool)
    ensures
        yes == (skill == Skills::AttackMove),
{
    match skill {
        Skills::AttackMove => true,
        _ => false,
    }
}

/// Decides one tick: see the rules at the head of this file.
pub fn decide<P: Copy>(selection: Option<(SkillKey, Skills)>, input: &TickInput<P>) -> (decision:
    Decision<P>)
    ensures
        decision == input.decision(selection),
{
    let pos = input.mouse_world_pos;
    let cancels = input.right_mouse_pressed || input.escape_just_pressed;
    let nothing = Decision { selection: None, intention: None, cast: None };
    let unchanged = Decision { selection, intention: None, cast: None };
    match selection {
        Some((key, skill)) => {
            if is_attack_move(skill) {
                if cancels {
                    nothing
                } else if input.left_mouse_pressed {
                    Decision {
                        selection: None,
                        intention: Some(PlayerIntention::AttackTowards(pos)),
                        cast: None,
                    }
                } else {
                    unchanged
                }
            } else {
                match input.cast_mode {
                    CastMode::Normal => {
                        if cancels {
                            nothing
                        } else if input.left_mouse_released {
                            Decision {
                                selection: None,
                                intention: None,
                                cast: Some(
                                    CastRequest { skill, is_self_cast: false, mouse_world_pos: pos },
                                ),
                            }
                        } else {
                            match input.pressed_binding {
                                Some((other_key, other_skill)) => {
                                    if other_key.same_as(key) {
                                        unchanged
                                    } else {
                                        on_skill_key(input, selection, other_key, other_skill)
                                    }
                                },
                                None => unchanged,
                            }
                        }
                    },
                    CastMode::OnKeyRelease => {
                        if cancels {
                            nothing
                        } else if input.armed_key_just_released {
                            Decision {
                                selection: None,
                                intention: None,
                                cast: Some(
                                    CastRequest { skill, is_self_cast: false, mouse_world_pos: pos },
                                ),
                            }
                        } else {
                            unchanged
                        }
                    },
                    CastMode::OnKeyPress => unchanged,
                }
            }
        },
        None => match input.pressed_binding {
            Some((key, skill)) => match input.cast_mode {
                CastMode::OnKeyPress => Decision {
                    selection: None,
                    intention: None,
                    cast: Some(
                        CastRequest { skill, is_self_cast: input.alt_down, mouse_world_pos: pos },
                    ),
                },
                _ => if input.alt_down {
                    nothing
                } else {
                    on_skill_key(input, None, key, skill)
                },
            },
            None => match input.released_binding {
                Some((_, skill)) => if input.alt_down {
                    Decision {
                        selection: None,
                        intention: None,
                        cast: Some(CastRequest { skill, is_self_cast: true, mouse_world_pos: pos }),
                    }
                } else {
                    nothing
                },
                None => {
                    let intention = if input.right_mouse_pressed || input.right_mouse_down {
                        Some(PlayerIntention::MoveTowardsMouse(pos))
                    } else if input.right_mouse_released {
                        match input.living_enemy_below_cursor {
                            Some(enemy) => Some(PlayerIntention::Attack(enemy)),
                            None => Some(PlayerIntention::MoveTo(pos)),
                        }
                    } else {
                        None
                    };
                    Decision { selection: None, intention, cast: None }
                },
            },
        },
    }
}

/// Cancelling wins: when the right mouse button or Escape is pressed while
/// a skill is armed, and the cast mode lets an armed skill react at all, the
/// tick ends with nothing armed, no intention and no cast, whatever else was
/// pressed or released in it.
pub proof fn lemma_cancel_wins<P>(input: TickInput<P>, key: SkillKey, skill: Skills)
    requires
        input.cancels(),
        skill == Skills::AttackMove || input.cast_mode != CastMode::OnKeyPress,
    ensures
        input.decision(Some((key, skill))) == (Decision::<P> {
            selection: None,
            intention: None,
            cast: None,
        }),
{
}

/// An armed skill never yields an intention, but for attack-move, and a tick
/// never yields both an intention and a cast.
pub proof fn lemma_intention_or_cast<P>(input: TickInput<P>, selection: Option<(SkillKey, Skills)>)
    ensures
        !(input.decision(selection).intention is Some && input.decision(selection).cast is Some),
        selection matches Some((_, skill)) && skill != Skills::AttackMove ==> input.decision(
            selection,
        ).intention is None,
{
}

/// While the right mouse button is held, with nothing armed and no skill key
/// touched, the intention is to move towards the cursor of this very tick.
pub proof fn lemma_held_button_follows_cursor<P>(input: TickInput<P>)
    requires
        input.right_mouse_pressed || input.right_mouse_down,
        input.pressed_binding is None,
        input.released_binding is None,
    ensures
        input.decision(None).intention == Some(
            PlayerIntention::MoveTowardsMouse(input.mouse_world_pos),
        ),
        input.decision(None).selection is None,
        input.decision(None).cast is None,
{
}

/// A skill gets armed only by a fresh press of a bound key, only while the
/// console is closed, and never in mode `OnKeyPress` from rest.
pub proof fn lemma_arming_needs_key_press<P>(
    input: TickInput<P>,
    selection: Option<(SkillKey, Skills)>,
)
    requires
        input.decision(selection).selection is Some,
        input.decision(selection).selection != selection,
    ensures
        input.pressed_binding == input.decision(selection).selection,
        !input.is_console_open,
        selection is None ==> input.cast_mode != CastMode::OnKeyPress && !input.alt_down,
{
}

} // verus!
