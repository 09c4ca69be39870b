//! Authoritative character state, as far as the controller reads it, and the
//! store that holds one record per character.

use vstd::prelude::*;
use crate::components::skills::{Skills, SKILL_COUNT};
use crate::time::ElapsedTime;

verus! {

/// Identity of a character entity.
#[derive(Clone, Copy, Debug, PartialEq, Eq, Hash, Structural)]
pub struct CharEntityId(pub u64);

/// The side a character fights on.
#[derive(Clone, Copy, Debug, PartialEq, Eq, Hash, Structural)]
pub enum Team {
    Left,
    Right,
}

impl Team {
    pub open spec fn allied_with(self, other: Team) -> bool {
        self == other
    }

    /// Whether the two teams fight on the same side.
    pub fn is_ally_to(&self, other: Team) -> (ally: bool)
        ensures
            ally == self.allied_with(other),
    {
        match (self, other) {
            (Team::Left, Team::Left) => true,
            (Team::Right, Team::Right) => true,
            _ => false,
        }
    }

    /// Whether the two teams fight each other.
    pub fn is_enemy_to(&self, other: Team) -> (enemy: bool)
        ensures
            enemy == !self.allied_with(other),
    {
        !self.is_ally_to(other)
    }
}

/// What a character moves towards or attacks. `P` is a position in the world.
#[derive(Clone, Copy, Debug, PartialEq)]
pub enum EntityTarget<P> {
    /// Follow and attack this entity.
    OtherEntity(CharEntityId),
    /// Walk to this spot.
    Pos(P),
    /// Walk to this spot, attacking the entity that came in reach on the way.
    PosWhileAttacking(P, Option<CharEntityId>),
}

/// A cast in progress.
#[derive(Clone, Copy, Debug, PartialEq)]
pub struct CastingSkillData<P> {
    pub target_entity: Option<CharEntityId>,
    pub cast_started: ElapsedTime,
    pub cast_ends: ElapsedTime,
    pub can_move: bool,
    pub skill: Skills,
    pub target_area_pos: Option<P>,
    pub char_to_skill_dir_when_casted: P,
}

/// What a character is doing.
#[derive(Clone, Copy, Debug, PartialEq)]
pub enum CharState<P> {
    Idle,
    Walking(P),
    StandBy,
    ReceivingDamage,
    Dead,
    CastingSkill(CastingSkillData<P>),
}

impl<P> CharState<P> {
    pub open spec fn alive(self) -> bool {
        !(self is Dead)
    }

    /// Whether a character in this state can start to move.
    pub open spec fn allows_move(self) -> bool {
        match self {
            CharState::Idle => true,
            CharState::Walking(_) => true,
            CharState::StandBy => true,
            CharState::ReceivingDamage => true,
            CharState::Dead => false,
            CharState::CastingSkill(cast) => cast.can_move,
        }
    }

    pub fn is_alive(&self) -> (alive: bool)
        ensures
            alive == self.alive(),
    {
        match self {
            CharState::Dead => false,
            _ => true,
        }
    }

    pub fn is_dead(&self) -> (dead: bool)
        ensures
            dead == !self.alive(),
    {
        match self {
            CharState::Dead => true,
            _ => false,
        }
    }
}

/// The record of one character.
#[derive(Clone, Copy, Debug, PartialEq)]
pub struct CharacterStateComponent<P> {
    pub team: Team,
    pub state: CharState<P>,
    /// Heading, as one of the eight compass directions, `0..8`.
    pub dir: usize,
    pub pos: P,
    pub target: Option<EntityTarget<P>>,
    /// Until this moment the character does not obey its controller.
    pub cannot_control_until: ElapsedTime,
    /// For each skill, by its slot, the moment from which it may be cast
    /// again.
    pub skill_cast_allowed_at: [ElapsedTime; SKILL_COUNT],
}

impl<P: Copy> CharacterStateComponent<P> {
    /// A living character that stands at `pos`, has no target, and may cast
    /// every skill at once.
    pub fn new(team: Team, pos: P) -> (character: CharacterStateComponent<P>)
        ensures
            character.team == team,
            character.pos == pos,
            character.state == CharState::<P>::Idle,
            character.dir == 0,
            character.target is None,
            character.cannot_control_until.0 == 0,
            forall|i: int| 0 <= i < SKILL_COUNT ==> character.skill_cast_allowed_at[i].0 == 0,
    {
        CharacterStateComponent {
            team,
            state: CharState::Idle,
            dir: 0,
            pos,
            target: None,
            cannot_control_until: ElapsedTime(0),
            skill_cast_allowed_at: [ElapsedTime(0); SKILL_COUNT],
        }
    }
}

impl<P> CharacterStateComponent<P> {
    /// Whether the cooldown of `skill` is over at `now`.
    pub open spec fn skill_ready(self, skill: Skills, now: ElapsedTime) -> bool {
        self.skill_cast_allowed_at[skill.slot()].0 <= now.0
    }

    /// Whether the character can start to move at `now`.
    pub open spec fn movable(self, now: ElapsedTime) -> bool {
        self.state.allows_move() && self.cannot_control_until.0 <= now.0
    }

    pub fn is_skill_ready(&self, skill: Skills, now: ElapsedTime) -> (ready: bool)
        ensures
            ready == self.skill_ready(skill, now),
    {
        self.skill_cast_allowed_at[skill.index()].has_already_passed(now)
    }

    pub fn can_move(&self, now: ElapsedTime) -> (can: bool)
        ensures
            can == self.movable(now),
    {
        let by_state = match &self.state {
            CharState::Idle => true,
            CharState::Walking(_) => true,
            CharState::StandBy => true,
            CharState::ReceivingDamage => true,
            CharState::Dead => false,
            CharState::CastingSkill(cast) => cast.can_move,
        };
        by_state && self.cannot_control_until.has_passed(now)
    }

    /// Puts the character into `state`, heading `dir`.
    pub fn set_state(&mut self, state: CharState<P>, dir: usize)
        ensures
            final(self).state == state,
            final(self).dir == dir,
            final(self).team == old(self).team,
            final(self).pos == old(self).pos,
            final(self).target == old(self).target,
            final(self).cannot_control_until == old(self).cannot_control_until,
            final(self).skill_cast_allowed_at == old(self).skill_cast_allowed_at,
    {
        self.state = state;
        self.dir = dir;
    }
}


/// The characters of the world, one record per entity.
pub struct CharacterStore<P> {
    entries: Vec<(CharEntityId, CharacterStateComponent<P>)>,
}

impl<P> CharacterStore<P> {
    /// No entity has two records. Every store that this module hands out is
    /// well formed, and its methods keep it so.
    pub closed spec fn wf(self) -> bool {
        forall|i: int, j: int|
            0 <= i < j < self.entries.len() ==> (#[trigger] self.entries[i]).0 != (
            #[trigger] self.entries[j]).0
    }

    spec fn holds_at(self, id: CharEntityId, i: int) -> bool {
        0 <= i < self.entries.len() && self.entries[i].0 == id
    }

    /// The records, by entity.
    pub closed spec fn view(self) -> Map<CharEntityId, CharacterStateComponent<P>> {
        Map::new(
            |id: CharEntityId| exists|i: int| self.holds_at(id, i),
            |id: CharEntityId| self.entries[choose|i: int| self.holds_at(id, i)].1,
        )
    }

    /// A store without characters.
    pub fn new() -> (store: CharacterStore<P>)
        ensures
            store.wf(),
            store@ == Map::<CharEntityId, CharacterStateComponent<P>>::empty(),
    {
        let store = CharacterStore { entries: Vec::new() };
        assert(store@ =~= Map::<CharEntityId, CharacterStateComponent<P>>::empty());
        store
    }

    fn position(&self, id: CharEntityId) -> (found: Option<usize>)
        ensures
            match found {
                Some(i) => self.holds_at(id, i as int),
                None => forall|i: int| !self.holds_at(id, i),
            },
    {
        let mut i: usize = 0;
        while i < self.entries.len()
            invariant
                i <= self.entries.len(),
                forall|k: int| 0 <= k < i ==> !self.holds_at(id, k),
            decreases self.entries.len() - i,
        {
            if self.entries[i].0.0 == id.0 {
                return Some(i);
            }
            i += 1;
        }
        None
    }

    /// The record of `id`, if the store has one.
    pub fn get(&self, id: CharEntityId) -> (record: Option<&CharacterStateComponent<P>>)
        requires
            self.wf(),
        ensures
            match record {
                Some(character) => self@.contains_key(id) && *character == self@[id],
                None => !self@.contains_key(id),
            },
    {
        match self.position(id) {
            Some(i) => {
                proof {
                    let chosen = choose|k: int| self.holds_at(id, k);
                    assert(self.holds_at(id, i as int));
                    assert(self.holds_at(id, chosen));
                    assert(chosen == i) by {
                        if chosen < i {
                            assert(self.entries[chosen].0 != self.entries[i as int].0);
                        } else if chosen > i {
                            assert(self.entries[i as int].0 != self.entries[chosen].0);
                        }
                    }
                }
                Some(&self.entries[i].1)
            },
            None => None,
        }
    }

    /// Whether the store has a record of `id`.
    pub fn contains(&self, id: CharEntityId) -> (found: bool)
        requires
            self.wf(),
        ensures
            found == self@.contains_key(id),
    {
        self.get(id).is_some()
    }

    /// Stores `character` as the record of `id`, in place of an earlier one.
    pub fn insert(&mut self, id: CharEntityId, character: CharacterStateComponent<P>)
        requires
            old(self).wf(),
        ensures
            final(self).wf(),
            final(self)@ == old(self)@.insert(id, character),
    {
        let ghost before = *self;
        match self.position(id) {
            Some(i) => {
                self.entries[i] = (id, character);
                proof {
                    let after = *self;
                    assert(after.entries@ == before.entries@.update(i as int, (id, character)));
                    assert(after.wf()) by {
                        assert forall|a: int, b: int| 0 <= a < b < after.entries.len() implies (
                        #[trigger] after.entries[a]).0 != (#[trigger] after.entries[b]).0 by {
                            assert(before.entries[a].0 != before.entries[b].0);
                        }
                    }
                    assert forall|other: CharEntityId, k: int|
                        after.holds_at(other, k) == before.holds_at(other, k) by {}
                    assert forall|other: CharEntityId| #[trigger]
                        after@.contains_key(other) == before@.insert(id, character).contains_key(
                            other,
                        ) by {
                        if other == id {
                            assert(after.holds_at(id, i as int));
                        }
                    }
                    assert forall|other: CharEntityId| after@.contains_key(other) implies #[trigger]
                        after@[other] == before@.insert(id, character)[other] by {
                        let chosen = choose|k: int| after.holds_at(other, k);
                        assert(after.holds_at(other, chosen));
                        if other == id {
                            assert(after.holds_at(id, i as int));
                            if chosen < i {
                                assert(before.entries[chosen].0 != before.entries[i as int].0);
                            } else if chosen > i {
                                assert(before.entries[i as int].0 != before.entries[chosen].0);
                            }
                        } else {
                            assert(chosen != i);
                            assert(before.holds_at(other, chosen));
                        }
                    }
                    assert(after@ =~= before@.insert(id, character));
                }
            },
            None => {
                self.entries.push((id, character));
                proof {
                    let after = *self;
                    let n = before.entries.len() as int;
                    assert(after.entries@ == before.entries@.push((id, character)));
                    assert(after.wf()) by {
                        assert forall|a: int, b: int| 0 <= a < b < after.entries.len() implies (
                        #[trigger] after.entries[a]).0 != (#[trigger] after.entries[b]).0 by {
                            if b < n {
                                assert(before.entries[a].0 != before.entries[b].0);
                            } else {
                                assert(!before.holds_at(id, a));
                            }
                        }
                    }
                    assert forall|other: CharEntityId, k: int|
                        after.holds_at(other, k) == (before.holds_at(other, k) || (k == n && other
                            == id)) by {}
                    assert forall|other: CharEntityId| #[trigger]
                        after@.contains_key(other) == before@.insert(id, character).contains_key(
                            other,
                        ) by {
                        if other == id {
                            assert(after.holds_at(id, n));
                        }
                    }
                    assert forall|other: CharEntityId| after@.contains_key(other) implies #[trigger]
                        after@[other] == before@.insert(id, character)[other] by {
                        let chosen = choose|k: int| after.holds_at(other, k);
                        assert(after.holds_at(other, chosen));
                        if other == id {
                            assert(!before.holds_at(id, chosen));
                        } else {
                            assert(before.holds_at(other, chosen));
                        }
                    }
                    assert(after@ =~= before@.insert(id, character));
                }
            },
        }
    }
}

} // verus!
