//! The actions of the sprites, by the place of each in a sprite's action
//! file, and the names of effects and models.

use vstd::prelude::*;

verus! {

/// The actions of a character's sprite.
#[derive(Clone, Copy, Debug, PartialEq, Eq, Structural)]
pub enum CharActionIndex {
    Idle,
    Walking,
    Sitting,
    PickingItem,
    StandBy,
    Attacking1,
    ReceivingDamage,
    Freeze1,
    Dead,
    Freeze2,
    Attacking2,
    Attacking3,
    CastingSpell,
}

impl CharActionIndex {
    /// Where the action starts in the action file. Each action fills eight
    /// places, one for each heading.
    pub open spec fn place(self) -> usize {
        match self {
            CharActionIndex::Idle => 0,
            CharActionIndex::Walking => 8,
            CharActionIndex::Sitting => 16,
            CharActionIndex::PickingItem => 24,
            CharActionIndex::StandBy => 32,
            CharActionIndex::Attacking1 => 40,
            CharActionIndex::ReceivingDamage => 48,
            CharActionIndex::Freeze1 => 56,
            CharActionIndex::Dead => 65,
            CharActionIndex::Freeze2 => 72,
            CharActionIndex::Attacking2 => 80,
            CharActionIndex::Attacking3 => 88,
            CharActionIndex::CastingSpell => 96,
        }
    }

    pub fn index(&self) -> (place: usize)
        ensures
            place == self.place(),
    {
        match self {
            CharActionIndex::Idle => 0,
            CharActionIndex::Walking => 8,
            CharActionIndex::Sitting => 16,
            CharActionIndex::PickingItem => 24,
            CharActionIndex::StandBy => 32,
            CharActionIndex::Attacking1 => 40,
            CharActionIndex::ReceivingDamage => 48,
            CharActionIndex::Freeze1 => 56,
            CharActionIndex::Dead => 65,
            CharActionIndex::Freeze2 => 72,
            CharActionIndex::Attacking2 => 80,
            CharActionIndex::Attacking3 => 88,
            CharActionIndex::CastingSpell => 96,
        }
    }
}

/// The actions of a monster's sprite.
#[derive(Clone, Copy, Debug, PartialEq, Eq, Structural)]
pub enum MonsterActionIndex {
    Idle,
    Walking,
    Attack,
    ReceivingDamage,
    Die,
}

impl MonsterActionIndex {
    /// Where the action starts in the action file.
    pub open spec fn place(self) -> usize {
        match self {
            MonsterActionIndex::Idle => 0,
            MonsterActionIndex::Walking => 8,
            MonsterActionIndex::Attack => 16,
            MonsterActionIndex::ReceivingDamage => 24,
            MonsterActionIndex::Die => 32,
        }
    }

    pub fn index(&self) -> (place: usize)
        ensures
            place == self.place(),
    {
        match self {
            MonsterActionIndex::Idle => 0,
            MonsterActionIndex::Walking => 8,
            MonsterActionIndex::Attack => 16,
            MonsterActionIndex::ReceivingDamage => 24,
            MonsterActionIndex::Die => 32,
        }
    }
}

/// The effects that a map keeps loaded.
#[derive(Clone, Copy, Debug, PartialEq, Eq, Hash, Structural)]
pub enum StrEffect {
    FireWall,
    StormGust,
}

/// The file name of a model.
#[derive(Debug, Clone, Eq, PartialEq, Hash)]
pub struct ModelName(pub String);

} // verus!
