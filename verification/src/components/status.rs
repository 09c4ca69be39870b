//! Effects that lie on a character for a while: changes of its attributes,
//! and the stun.

use vstd::prelude::*;
use crate::components::char_state::{CharEntityId, CharState, CharacterStateComponent};
use crate::time::{saturating_sum, ElapsedTime};

verus! {

/// A share, in hundredths.
#[derive(Clone, Copy, Debug, PartialEq, Eq, Structural)]
pub struct Percentage(pub i32);

/// How an attribute is changed.
#[derive(Clone, Copy, Debug, PartialEq, Eq, Structural)]
pub enum CharAttributeModifier {
    AddPercentage(Percentage),
}

/// A change of an attribute together with the time it holds for.
#[derive(Clone, Copy, Debug, PartialEq, Eq, Structural)]
pub struct CharAttributeModifierBonus {
    pub modifier: CharAttributeModifier,
    pub started_at: ElapsedTime,
    pub ends_at: ElapsedTime,
}

/// The changes that the effects on a character make to its attributes, in
/// the order in which the effects were asked.
pub struct CharAttributeModifierCollector {
    pub armor: Vec<CharAttributeModifierBonus>,
    pub walking_speed: Vec<CharAttributeModifierBonus>,
}

impl CharAttributeModifierCollector {
    pub fn new() -> (collector: CharAttributeModifierCollector)
        ensures
            collector.armor@.len() == 0,
            collector.walking_speed@.len() == 0,
    {
        CharAttributeModifierCollector { armor: Vec::new(), walking_speed: Vec::new() }
    }

    pub fn change_armor(
        &mut self,
        modifier: CharAttributeModifier,
        started: ElapsedTime,
        until: ElapsedTime,
    )
        ensures
            final(self).armor@ == old(self).armor@.push(
                CharAttributeModifierBonus { modifier, started_at: started, ends_at: until },
            ),
            final(self).walking_speed@ == old(self).walking_speed@,
    {
        self.armor.push(
            CharAttributeModifierBonus { modifier, started_at: started, ends_at: until },
        );
    }

    pub fn change_walking_speed(
        &mut self,
        modifier: CharAttributeModifier,
        started: ElapsedTime,
        until: ElapsedTime,
    )
        ensures
            final(self).walking_speed@ == old(self).walking_speed@.push(
                CharAttributeModifierBonus { modifier, started_at: started, ends_at: until },
            ),
            final(self).armor@ == old(self).armor@,
    {
        self.walking_speed.push(
            CharAttributeModifierBonus { modifier, started_at: started, ends_at: until },
        );
    }
}

/// What becomes of an effect after an update.
#[derive(Clone, Copy, Debug, PartialEq, Eq, Structural)]
pub enum StatusUpdateResult {
    RemoveIt,
    KeepIt,
}

/// Whether an effect helps or harms the character it lies on.
#[derive(Clone, Copy, Debug, PartialEq, Eq, Structural)]
pub enum StatusNature {
    Supportive,
    Harmful,
    Neutral,
}

/// What happens when an effect meets one of its own kind.
#[derive(Clone, Copy, Debug, PartialEq, Eq, Structural)]
pub enum StatusStackingResult {
    DontAddTheNewStatus,
    AddTheNewStatus,
    Replace,
}

/// An effect that ends at `until` is removed once that moment is reached.
pub open spec fn update_result(until: ElapsedTime, now: ElapsedTime) -> StatusUpdateResult {
    if until.0 <= now.0 {
        StatusUpdateResult::RemoveIt
    } else {
        StatusUpdateResult::KeepIt
    }
}

/// How long an armor modifier lasts, in milliseconds.
pub const ARMOR_MODIFIER_MILLIS: u64 = 10_000;

/// Changes the armor of a character for ten seconds.
#[derive(Clone, Copy, Debug, PartialEq, Eq, Structural)]
pub struct ArmorModifierStatus {
    pub started: ElapsedTime,
    pub until: ElapsedTime,
    pub modifier: Percentage,
}

impl ArmorModifierStatus {
    pub fn new(now: ElapsedTime, modifier: Percentage) -> (status: ArmorModifierStatus)
        ensures
            status.started == now,
            status.until.0 == saturating_sum(now.0, ARMOR_MODIFIER_MILLIS),
            status.modifier == modifier,
    {
        ArmorModifierStatus { started: now, until: now.add_seconds(10), modifier }
    }

    pub fn calc_attribs(&self, modifiers: &mut CharAttributeModifierCollector)
        ensures
            final(modifiers).armor@ == old(modifiers).armor@.push(
                CharAttributeModifierBonus {
                    modifier: CharAttributeModifier::AddPercentage(self.modifier),
                    started_at: self.started,
                    ends_at: self.until,
                },
            ),
            final(modifiers).walking_speed@ == old(modifiers).walking_speed@,
    {
        modifiers.change_armor(
            CharAttributeModifier::AddPercentage(self.modifier),
            self.started,
            self.until,
        );
    }

    pub fn update(&mut self, now: ElapsedTime) -> (result: StatusUpdateResult)
        ensures
            result == update_result(old(self).until, now),
            *final(self) == *old(self),
    {
        if self.until.has_already_passed(now) {
            StatusUpdateResult::RemoveIt
        } else {
            StatusUpdateResult::KeepIt
        }
    }

    pub fn typ(&self) -> (nature: StatusNature)
        ensures
            nature == StatusNature::Supportive,
    {
        StatusNature::Supportive
    }
}

/// Changes the walking speed of a character for a while.
#[derive(Clone, Copy, Debug, PartialEq, Eq, Structural)]
pub struct WalkingSpeedModifierStatus {
    pub started: ElapsedTime,
    pub until: ElapsedTime,
    pub modifier: Percentage,
}

impl WalkingSpeedModifierStatus {
    pub fn new(now: ElapsedTime, modifier: Percentage, duration: ElapsedTime) -> (status:
        WalkingSpeedModifierStatus)
        ensures
            status.started == now,
            status.until.0 == saturating_sum(now.0, duration.0),
            status.modifier == modifier,
    {
        WalkingSpeedModifierStatus { started: now, until: now.add(duration), modifier }
    }

    pub fn calc_attribs(&self, modifiers: &mut CharAttributeModifierCollector)
        ensures
            final(modifiers).walking_speed@ == old(modifiers).walking_speed@.push(
                CharAttributeModifierBonus {
                    modifier: CharAttributeModifier::AddPercentage(self.modifier),
                    started_at: self.started,
                    ends_at: self.until,
                },
            ),
            final(modifiers).armor@ == old(modifiers).armor@,
    {
        modifiers.change_walking_speed(
            CharAttributeModifier::AddPercentage(self.modifier),
            self.started,
            self.until,
        );
    }

    pub fn update(&mut self, now: ElapsedTime) -> (result: StatusUpdateResult)
        ensures
            result == update_result(old(self).until, now),
            *final(self) == *old(self),
    {
        if self.until.has_already_passed(now) {
            StatusUpdateResult::RemoveIt
        } else {
            StatusUpdateResult::KeepIt
        }
    }

    pub fn typ(&self) -> (nature: StatusNature)
        ensures
            nature == StatusNature::Supportive,
    {
        StatusNature::Supportive
    }
}

/// Keeps a character from moving and casting for a while.
#[derive(Clone, Copy, Debug, PartialEq, Eq, Structural)]
pub struct StunStatus {
    pub caster_entity_id: CharEntityId,
    pub started: ElapsedTime,
    pub until: ElapsedTime,
}

impl StunStatus {
    pub fn new(caster_entity_id: CharEntityId, now: ElapsedTime, duration: ElapsedTime) -> (status:
        StunStatus)
        ensures
            status.caster_entity_id == caster_entity_id,
            status.started == now,
            status.until.0 == saturating_sum(now.0, duration.0),
    {
        StunStatus { caster_entity_id, started: now, until: now.add(duration) }
    }

    /// The stun takes hold: the character stands by, heading where it
    /// headed.
    pub fn on_apply<P>(&mut self, target_char: &mut CharacterStateComponent<P>)
        ensures
            *final(self) == *old(self),
            *final(target_char) == (CharacterStateComponent {
                state: CharState::StandBy,
                ..*old(target_char)
            }),
    {
        let dir = target_char.dir;
        target_char.set_state(CharState::StandBy, dir);
    }

    pub fn can_target_move(&self) -> (can: bool)
        ensures
            !can,
    {
        false
    }

    pub fn can_target_be_controlled(&self) -> (can: bool)
        ensures
            can,
    {
        true
    }

    pub fn can_target_cast(&self) -> (can: bool)
        ensures
            !can,
    {
        false
    }

    pub fn update(&mut self, now: ElapsedTime) -> (result: StatusUpdateResult)
        ensures
            result == update_result(old(self).until, now),
            *final(self) == *old(self),
    {
        if self.until.has_already_passed(now) {
            StatusUpdateResult::RemoveIt
        } else {
            StatusUpdateResult::KeepIt
        }
    }

    /// A second stun takes the place of the first.
    pub fn stack(&self, _other: &StunStatus) -> (stacking: StatusStackingResult)
        ensures
            stacking == StatusStackingResult::Replace,
    {
        StatusStackingResult::Replace
    }

    pub fn typ(&self) -> (nature: StatusNature)
        ensures
            nature == StatusNature::Harmful,
    {
        StatusNature::Harmful
    }
}

/// An effect is kept until its end is reached, and removed from then on:
/// once removed at some moment, it is removed at every later one.
pub proof fn lemma_removal_is_final(until: ElapsedTime, now: ElapsedTime, later: ElapsedTime)
    requires
        now.0 <= later.0,
        update_result(until, now) == StatusUpdateResult::RemoveIt,
    ensures
        update_result(until, later) == StatusUpdateResult::RemoveIt,
{
}

} // verus!
