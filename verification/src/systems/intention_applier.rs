//! The write side: the committed intention becomes the target of the
//! controlled character.

use vstd::prelude::*;
use crate::components::char_state::{
    CharEntityId, CharacterStateComponent, CharacterStore, EntityTarget,
};
use crate::components::local_player::{LocalPlayerController, PlayerIntention};

verus! {

/// The target that an intention, or the lack of one, gives a character.
pub open spec fn target_of<P>(intention: Option<PlayerIntention<P>>) -> Option<EntityTarget<P>> {
    match intention {
        Some(intention) => Some(intention.target()),
        None => None,
    }
}

/// The character after the intention is applied to it: its target is that
/// of the intention and nothing else changes.
pub open spec fn with_intention<P>(
    character: CharacterStateComponent<P>,
    intention: Option<PlayerIntention<P>>,
) -> CharacterStateComponent<P> {
    CharacterStateComponent { target: target_of(intention), ..character }
}

/// The store after the intention of `controlled` is applied: the record of
/// the controlled character, where the store has one, gets the target of the
/// intention; the store stays as it is where there is no such record.
pub open spec fn store_with_intention<P>(
    characters: Map<CharEntityId, CharacterStateComponent<P>>,
    controlled: Option<CharEntityId>,
    intention: Option<PlayerIntention<P>>,
) -> Map<CharEntityId, CharacterStateComponent<P>> {
    match controlled {
        Some(id) if characters.contains_key(id) => characters.insert(
            id,
            with_intention(characters[id], intention),
        ),
        _ => characters,
    }
}

pub struct ControllerIntentionToCharTarget {}

impl ControllerIntentionToCharTarget {
    /// Sets the target of `character` from the intention: a spot to walk to,
    /// an entity to attack, a spot to attack towards, or no target where there
    /// is no intention.
    pub fn apply<P: Copy>(
        intention: &Option<PlayerIntention<P>>,
        character: &mut CharacterStateComponent<P>,
    )
        ensures
            *final(character) == with_intention(*old(character), *intention),
    {
        character.target = match intention {
            Some(PlayerIntention::MoveTo(pos)) => Some(EntityTarget::Pos(*pos)),
            Some(PlayerIntention::Attack(entity)) => Some(EntityTarget::OtherEntity(*entity)),
            Some(PlayerIntention::MoveTowardsMouse(pos)) => Some(EntityTarget::Pos(*pos)),
            Some(PlayerIntention::AttackTowards(pos)) => Some(
                EntityTarget::PosWhileAttacking(*pos, None),
            ),
            None => None,
        };
    }

    /// Writes the intention of the player into the record of the character
    /// that the player controls. A player without a character, or with one
    /// that the store has no record of, changes nothing.
    pub fn controller_intention_to_char_target<P: Copy>(
        controller: &LocalPlayerController<P>,
        characters: &mut CharacterStore<P>,
    )
        requires
            old(characters).wf(),
        ensures
            final(characters).wf(),
            final(characters)@ == store_with_intention(
                old(characters)@,
                controller.controlled_entity,
                controller.intention,
            ),
    {
        if let Some(id) = controller.controlled_entity {
            // the controlled character might have been removed due to death etc
            let found = match characters.get(id) {
                Some(character) => Some(*character),
                None => None,
            };
            if let Some(character) = found {
                let mut character = character;
                Self::apply(&controller.intention, &mut character);
                characters.insert(id, character);
            }
        }
    }
}

/// Applying an intention twice gives what applying it once gives.
pub proof fn lemma_apply_is_idempotent<P>(
    character: CharacterStateComponent<P>,
    intention: Option<PlayerIntention<P>>,
)
    ensures
        with_intention(with_intention(character, intention), intention) == with_intention(
            character,
            intention,
        ),
{
}

/// Writing the intention into the store twice in a tick gives what writing
/// it once gives.
pub proof fn lemma_store_write_is_idempotent<P>(
    characters: Map<CharEntityId, CharacterStateComponent<P>>,
    controlled: Option<CharEntityId>,
    intention: Option<PlayerIntention<P>>,
)
    ensures
        store_with_intention(
            store_with_intention(characters, controlled, intention),
            controlled,
            intention,
        ) == store_with_intention(characters, controlled, intention),
{
    let once = store_with_intention(characters, controlled, intention);
    let twice = store_with_intention(once, controlled, intention);
    assert(twice =~= once);
}

/// The write touches the target of the controlled character alone: every
/// other record, and every other field of that record, stays.
pub proof fn lemma_write_touches_target_only<P>(
    characters: Map<CharEntityId, CharacterStateComponent<P>>,
    controlled: Option<CharEntityId>,
    intention: Option<PlayerIntention<P>>,
    other: CharEntityId,
)
    ensures
        ({
            let after = store_with_intention(characters, controlled, intention);
            &&& after.dom() == characters.dom()
            &&& Some(other) != controlled ==> after[other] == characters[other]
            &&& characters.contains_key(other) ==> (CharacterStateComponent {
                target: characters[other].target,
                ..after[other]
            }) == characters[other]
        }),
{
    let after = store_with_intention(characters, controlled, intention);
    assert(after.dom() =~= characters.dom());
}

} // verus!
