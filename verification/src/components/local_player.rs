//! The state of the local player between ticks: the armed skill, what is
//! under the cursor, the cursor itself, and the intention of the tick.

use vstd::prelude::*;
use crate::components::char_state::{CharEntityId, EntityTarget, Team};
use crate::components::controller::{SkillKey, SpriteBoundingRect};
use crate::components::skills::Skills;
use crate::cursor::CursorFrame;

verus! {

/// A single resolved command of the player. `P` is a position in the world.
#[derive(Clone, Copy, Debug, PartialEq)]
pub enum PlayerIntention<P> {
    /// Walk to the spot.
    MoveTo(P),
    /// Attack the entity.
    Attack(CharEntityId),
    /// Walk towards the cursor for as long as the button is held.
    MoveTowardsMouse(P),
    /// Move to the spot, attack any enemy on the way.
    AttackTowards(P),
}

impl<P> PlayerIntention<P> {
    /// The target that a character gets from the intention.
    pub open spec fn target(self) -> EntityTarget<P> {
        match self {
            PlayerIntention::MoveTo(pos) => EntityTarget::Pos(pos),
            PlayerIntention::Attack(entity) => EntityTarget::OtherEntity(entity),
            PlayerIntention::MoveTowardsMouse(pos) => EntityTarget::Pos(pos),
            PlayerIntention::AttackTowards(pos) => EntityTarget::PosWhileAttacking(pos, None),
        }
    }
}

/// The confirmation that the player wants a skill cast now.
///
/// It is reported beside the intention of the tick. It is no intention: it
/// takes no part in the intention history and never reaches a character's
/// target.
#[derive(Clone, Copy, Debug, PartialEq)]
pub struct CastRequest<P> {
    pub skill: Skills,
    /// Whether the caster is the target.
    pub is_self_cast: bool,
    /// Where the cursor was in the world.
    pub mouse_world_pos: P,
}

/// The entities under the cursor, by side. Of several entities of one side
/// the one drawn first counts. The player's own character is a friend.
#[derive(Clone, Copy, Debug, PartialEq, Eq, Structural)]
pub struct EntitiesBelowCursor {
    pub friendly: Option<CharEntityId>,
    pub enemy: Option<CharEntityId>,
}

impl EntitiesBelowCursor {
    /// The enemy under the cursor or, where there is none, the friend.
    pub open spec fn enemy_or_friend(self) -> Option<CharEntityId> {
        if self.enemy is Some {
            self.enemy
        } else {
            self.friendly
        }
    }

    /// Nothing under the cursor.
    pub fn new() -> (entities: EntitiesBelowCursor)
        ensures
            entities.friendly is None,
            entities.enemy is None,
    {
        EntitiesBelowCursor { friendly: None, enemy: None }
    }

    pub fn clear(&mut self)
        ensures
            final(self).friendly is None,
            final(self).enemy is None,
    {
        self.friendly = None;
        self.enemy = None;
    }

    /// Notes a friend under the cursor; an earlier friend stays.
    pub fn add_friend(&mut self, entity_id: CharEntityId)
        ensures
            final(self).enemy == old(self).enemy,
            final(self).friendly == if old(self).friendly is Some {
                old(self).friendly
            } else {
                Some(entity_id)
            },
    {
        if self.friendly.is_none() {
            self.friendly = Some(entity_id);
        }
    }

    /// Notes an enemy under the cursor; an earlier enemy stays.
    pub fn add_enemy(&mut self, entity_id: CharEntityId)
        ensures
            final(self).friendly == old(self).friendly,
            final(self).enemy == if old(self).enemy is Some {
                old(self).enemy
            } else {
                Some(entity_id)
            },
    {
        if self.enemy.is_none() {
            self.enemy = Some(entity_id);
        }
    }

    pub fn get_enemy_or_friend(&self) -> (entity: Option<CharEntityId>)
        ensures
            entity == self.enemy_or_friend(),
    {
        if self.enemy.is_some() {
            self.enemy
        } else {
            self.friendly
        }
    }

    pub fn get_friend(&self) -> (entity: Option<CharEntityId>)
        ensures
            entity == self.friendly,
    {
        self.friendly
    }

    pub fn get_enemy(&self) -> (entity: Option<CharEntityId>)
        ensures
            entity == self.enemy,
    {
        self.enemy
    }
}

/// The entity of the first rectangle in `rects` that covers the point and
/// belongs to a friend of `team` (`friendly` set) or to an enemy of it
/// (`friendly` not set).
pub open spec fn first_covering_of_side(
    rects: Seq<(CharEntityId, SpriteBoundingRect, Team)>,
    x: u16,
    y: u16,
    team: Team,
    friendly: bool,
) -> Option<CharEntityId>
    decreases rects.len(),
{
    if rects.len() == 0 {
        None
    } else {
        let earlier = first_covering_of_side(rects.drop_last(), x, y, team, friendly);
        if earlier is Some {
            earlier
        } else if rects.last().1.covers(x, y) && rects.last().2.allied_with(team) == friendly {
            Some(rects.last().0)
        } else {
            None
        }
    }
}

/// `first_covering_of_side` names an entity iff some rectangle of that side
/// covers the point, and then it is that of the earliest such rectangle.
pub proof fn lemma_first_covering_of_side(
    rects: Seq<(CharEntityId, SpriteBoundingRect, Team)>,
    x: u16,
    y: u16,
    team: Team,
    friendly: bool,
)
    ensures
        match first_covering_of_side(rects, x, y, team, friendly) {
            Some(entity) => exists|i: int|
                0 <= i < rects.len() && #[trigger] rects[i].1.covers(x, y)
                    && rects[i].2.allied_with(team) == friendly && rects[i].0 == entity
                    && forall|j: int|
                    0 <= j < i ==> !((#[trigger] rects[j]).1.covers(x, y)
                        && rects[j].2.allied_with(team) == friendly),
            None => forall|i: int|
                0 <= i < rects.len() ==> !((#[trigger] rects[i]).1.covers(x, y)
                    && rects[i].2.allied_with(team) == friendly),
        },
    decreases rects.len(),
{
    if rects.len() > 0 {
        let earlier = rects.drop_last();
        lemma_first_covering_of_side(earlier, x, y, team, friendly);
        match first_covering_of_side(earlier, x, y, team, friendly) {
            Some(entity) => {
                let i = choose|i: int|
                    0 <= i < earlier.len() && #[trigger] earlier[i].1.covers(x, y)
                        && earlier[i].2.allied_with(team) == friendly && earlier[i].0 == entity
                        && forall|j: int|
                        0 <= j < i ==> !((#[trigger] earlier[j]).1.covers(x, y)
                            && earlier[j].2.allied_with(team) == friendly);
                assert(rects[i] == earlier[i]);
                assert forall|j: int| 0 <= j < i implies !((#[trigger] rects[j]).1.covers(x, y)
                    && rects[j].2.allied_with(team) == friendly) by {
                    assert(rects[j] == earlier[j]);
                }
                assert(rects[i].1.covers(x, y) && rects[i].0 == entity);
            },
            None => {
                let n = rects.len() - 1;
                assert forall|j: int| 0 <= j < n implies !((#[trigger] rects[j]).1.covers(x, y)
                    && rects[j].2.allied_with(team) == friendly) by {
                    assert(rects[j] == earlier[j]);
                }
                if rects.last().1.covers(x, y) && rects.last().2.allied_with(team) == friendly {
                    assert(rects[n].1.covers(x, y) && rects[n].0 == rects.last().0);
                }
            },
        }
    }
}

/// The local player between ticks.
pub struct LocalPlayerController<P> {
    /// The character that the player controls, once there is one.
    pub controlled_entity: Option<CharEntityId>,
    /// The intention committed in this tick, if any.
    pub intention: Option<PlayerIntention<P>>,
    /// The intention committed last; for display only.
    pub last_intention: Option<PlayerIntention<P>>,
    /// The cast that the player confirmed in this tick, if any.
    pub cast_request: Option<CastRequest<P>>,
    /// The armed skill that waits for its target, with the key that armed it.
    pub select_skill_target: Option<(SkillKey, Skills)>,
    pub entities_below_cursor: EntitiesBelowCursor,
    pub cell_below_cursor_walkable: bool,
    pub cursor_frame: CursorFrame,
    pub cursor_color: [u8; 3],
    /// The rectangles of the entities drawn in this frame with their teams,
    /// in drawing order.
    pub bounding_rect_2d: Vec<(CharEntityId, SpriteBoundingRect, Team)>,
}

impl<P> LocalPlayerController<P> {
    /// A player without a character: nothing armed, nothing under the
    /// cursor, the plain white cursor.
    pub fn new() -> (player: LocalPlayerController<P>)
        ensures
            player.controlled_entity is None,
            player.intention is None,
            player.last_intention is None,
            player.cast_request is None,
            player.select_skill_target is None,
            player.entities_below_cursor == (EntitiesBelowCursor { friendly: None, enemy: None }),
            !player.cell_below_cursor_walkable,
            player.cursor_frame == CursorFrame::Normal,
            player.cursor_color@ == seq![255u8, 255u8, 255u8],
            player.bounding_rect_2d@.len() == 0,
    {
        LocalPlayerController {
            controlled_entity: None,
            intention: None,
            last_intention: None,
            cast_request: None,
            select_skill_target: None,
            entities_below_cursor: EntitiesBelowCursor::new(),
            cell_below_cursor_walkable: false,
            cursor_frame: CursorFrame::Normal,
            cursor_color: [255, 255, 255],
            bounding_rect_2d: Vec::new(),
        }
    }

    /// Finds what is under the cursor at `(mouse_x, mouse_y)`: for each side
    /// the entity of the first rectangle that covers the point. The
    /// rectangles are dropped: the next frame has to bring its own.
    pub fn calc_entities_below_cursor(&mut self, self_team: Team, mouse_x: u16, mouse_y: u16)
        ensures
            final(self).entities_below_cursor.friendly == first_covering_of_side(
                old(self).bounding_rect_2d@,
                mouse_x,
                mouse_y,
                self_team,
                true,
            ),
            final(self).entities_below_cursor.enemy == first_covering_of_side(
                old(self).bounding_rect_2d@,
                mouse_x,
                mouse_y,
                self_team,
                false,
            ),
            final(self).bounding_rect_2d@.len() == 0,
            *final(self) == (LocalPlayerController {
                entities_below_cursor: final(self).entities_below_cursor,
                bounding_rect_2d: final(self).bounding_rect_2d,
                ..*old(self)
            }),
    {
        let mut found = EntitiesBelowCursor::new();
        let ghost rects = self.bounding_rect_2d@;
        let mut i: usize = 0;
        while i < self.bounding_rect_2d.len()
            invariant
                *self == *old(self),
                rects == self.bounding_rect_2d@,
                i <= rects.len(),
                found.friendly == first_covering_of_side(
                    rects.take(i as int),
                    mouse_x,
                    mouse_y,
                    self_team,
                    true,
                ),
                found.enemy == first_covering_of_side(
                    rects.take(i as int),
                    mouse_x,
                    mouse_y,
                    self_team,
                    false,
                ),
            decreases rects.len() - i,
        {
            let entry = &self.bounding_rect_2d[i];
            proof {
                assert(rects.take(i + 1).drop_last() == rects.take(i as int));
                assert(rects.take(i + 1).last() == rects[i as int]);
            }
            if entry.1.contains(mouse_x, mouse_y) {
                if entry.2.is_ally_to(self_team) {
                    found.add_friend(entry.0);
                } else {
                    found.add_enemy(entry.0);
                }
            }
            i += 1;
        }
        proof {
            assert(rects.take(rects.len() as int) == rects);
        }
        self.entities_below_cursor = found;
        self.bounding_rect_2d.clear();
    }
}

} // verus!
