//! The skills a player can bind to a key, and what each one aims at.

use vstd::prelude::*;
use crate::components::char_state::CharEntityId;
use crate::time::ElapsedTime;

verus! {

/// Number of skills, and so of slots in a per-skill table.
pub const SKILL_COUNT: usize = 7;

/// What a skill needs to be aimed at.
#[derive(Clone, Copy, Debug, PartialEq, Eq, Hash, Structural)]
pub enum SkillTargetType {
    /// The caster itself; needs no aiming.
    OnlySelf,
    /// A single entity under the cursor.
    AnyEntity,
    /// A spot on the ground.
    Area,
    /// A direction away from the caster; resolved from the cursor at once.
    Directional,
}

/// Identity of a skill.
#[derive(Clone, Copy, Debug, PartialEq, Eq, Hash, Structural)]
pub enum Skills {
    FireWall,
    BrutalTestSkill,
    Lightning,
    Heal,
    Mounting,
    AbsorbShield,
    /// Not a spell: walk to a spot and attack whatever comes in reach.
    AttackMove,
}

impl Skills {
    /// What the skill is aimed at.
    pub open spec fn target_type(self) -> SkillTargetType {
        match self {
            Skills::FireWall => SkillTargetType::Area,
            Skills::BrutalTestSkill => SkillTargetType::Area,
            Skills::Lightning => SkillTargetType::Directional,
            Skills::Heal => SkillTargetType::AnyEntity,
            Skills::Mounting => SkillTargetType::OnlySelf,
            Skills::AbsorbShield => SkillTargetType::AnyEntity,
            Skills::AttackMove => SkillTargetType::Area,
        }
    }

    /// Whether the skill can be cast the moment its key goes down, without
    /// the player picking a target first.
    pub open spec fn resolves_without_target(self) -> bool {
        self.target_type() == SkillTargetType::OnlySelf || self.target_type()
            == SkillTargetType::Directional
    }

    /// The slot of the skill in a per-skill table.
    pub open spec fn slot(self) -> int {
        match self {
            Skills::FireWall => 0,
            Skills::BrutalTestSkill => 1,
            Skills::Lightning => 2,
            Skills::Heal => 3,
            Skills::Mounting => 4,
            Skills::AbsorbShield => 5,
            Skills::AttackMove => 6,
        }
    }

    /// How far from the caster the target may be, in thousandths of a cell.
    pub open spec fn casting_range(self) -> u32 {
        match self {
            Skills::FireWall => 10_000,
            Skills::BrutalTestSkill => 20_000,
            Skills::Lightning => 7_000,
            Skills::Heal => 10_000,
            Skills::Mounting => 0,
            Skills::AbsorbShield => 10_000,
            Skills::AttackMove => u32::MAX,
        }
    }

    /// How long the cast takes.
    pub open spec fn casting_time(self) -> ElapsedTime {
        match self {
            Skills::FireWall => ElapsedTime(300),
            Skills::BrutalTestSkill => ElapsedTime(1000),
            Skills::Lightning => ElapsedTime(700),
            Skills::Heal => ElapsedTime(300),
            Skills::Mounting => ElapsedTime(2000),
            Skills::AbsorbShield => ElapsedTime(500),
            Skills::AttackMove => ElapsedTime(0),
        }
    }

    /// Whether the skill may be cast by `caster` at `target`, which is
    /// `distance` thousandths of a cell away.
    ///
    /// The target must be in range. A skill aimed at an entity needs one
    /// under the cursor; a skill for the caster alone accepts the caster or
    /// no entity at all.
    pub open spec fn casting_allowed(
        self,
        caster: CharEntityId,
        target: Option<CharEntityId>,
        distance: u32,
    ) -> bool {
        &&& distance <= self.casting_range()
        &&& match self.target_type() {
            SkillTargetType::AnyEntity => target is Some,
            SkillTargetType::OnlySelf => target is None || target == Some(caster),
            SkillTargetType::Area => true,
            SkillTargetType::Directional => true,
        }
    }

    pub fn get_skill_target_type(&self) -> (target_type: SkillTargetType)
        ensures
            target_type == self.target_type(),
    {
        match self {
            Skills::FireWall => SkillTargetType::Area,
            Skills::BrutalTestSkill => SkillTargetType::Area,
            Skills::Lightning => SkillTargetType::Directional,
            Skills::Heal => SkillTargetType::AnyEntity,
            Skills::Mounting => SkillTargetType::OnlySelf,
            Skills::AbsorbShield => SkillTargetType::AnyEntity,
            Skills::AttackMove => SkillTargetType::Area,
        }
    }

    pub fn index(&self) -> (slot: usize)
        ensures
            slot == self.slot(),
            slot < SKILL_COUNT,
    {
        match self {
            Skills::FireWall => 0,
            Skills::BrutalTestSkill => 1,
            Skills::Lightning => 2,
            Skills::Heal => 3,
            Skills::Mounting => 4,
            Skills::AbsorbShield => 5,
            Skills::AttackMove => 6,
        }
    }

    pub fn get_casting_range(&self) -> (range: u32)
        ensures
            range == self.casting_range(),
    {
        match self {
            Skills::FireWall => 10_000,
            Skills::BrutalTestSkill => 20_000,
            Skills::Lightning => 7_000,
            Skills::Heal => 10_000,
            Skills::Mounting => 0,
            Skills::AbsorbShield => 10_000,
            Skills::AttackMove => u32::MAX,
        }
    }

    pub fn get_casting_time(&self) -> (time: ElapsedTime)
        ensures
            time == self.casting_time(),
    {
        match self {
            Skills::FireWall => ElapsedTime(300),
            Skills::BrutalTestSkill => ElapsedTime(1000),
            Skills::Lightning => ElapsedTime(700),
            Skills::Heal => ElapsedTime(300),
            Skills::Mounting => ElapsedTime(2000),
            Skills::AbsorbShield => ElapsedTime(500),
            Skills::AttackMove => ElapsedTime(0),
        }
    }

    pub fn is_casting_allowed(
        &self,
        caster: CharEntityId,
        target: Option<CharEntityId>,
        distance: u32,
    ) -> (allowed: bool)
        ensures
            allowed == self.casting_allowed(caster, target, distance),
    {
        let close_enough = distance <= self.get_casting_range();
        close_enough && match self.get_skill_target_type() {
            SkillTargetType::AnyEntity => target.is_some(),
            SkillTargetType::OnlySelf => match target {
                None => true,
                Some(entity) => entity.0 == caster.0,
            },
            SkillTargetType::Area => true,
            SkillTargetType::Directional => true,
        }
    }
}

} // verus!
