//! What the debug overlay decides: which names pass a filter, how numbers
//! are worded, and how many characters to spawn or to remove.

use vstd::prelude::*;
use sublime_fuzzy::Match;
use crate::components::char_state::CharEntityId;
use crate::components::controller::CastMode;
use crate::systems::Sex;

verus! {

#[verifier::external_type_specification]
#[verifier::external_body]
pub struct ExMatch(Match);

/// Whether the fuzzy search of the crate `sublime_fuzzy` finds the whole of
/// `query` in `target`.
pub uninterp spec fn fuzzy_match_exists(query: Seq<char>, target: Seq<char>) -> bool;

/// `sublime_fuzzy::best_match`: the best match of the whole of `query` in
/// `target`. Whether there is one depends on the two strings alone, and there
/// is none where either is empty; nothing is claimed of the match itself.
#[verifier::external_body]
fn best_fuzzy_match(query: &str, target: &str) -> (best: Option<Match>)
    ensures
        best is Some <==> fuzzy_match_exists(query@, target@),
        query@.len() == 0 || target@.len() == 0 ==> best is None,
{
    sublime_fuzzy::best_match(query, target)
}

/// The characters of each name.
pub open spec fn names_of(names: Seq<String>) -> Seq<Seq<char>> {
    names.map_values(|name: String| name@)
}

/// The names that the fuzzy search finds `query` in, in their order.
pub open spec fn matching_names(names: Seq<Seq<char>>, query: Seq<char>) -> Seq<Seq<char>>
    decreases names.len(),
{
    if names.len() == 0 {
        Seq::empty()
    } else {
        let earlier = matching_names(names.drop_last(), query);
        if fuzzy_match_exists(query, names.last()) {
            earlier.push(names.last())
        } else {
            earlier
        }
    }
}

/// The filter keeps matching names only, and no name passes an empty query.
pub proof fn lemma_matching_names(names: Seq<Seq<char>>, query: Seq<char>)
    ensures
        matching_names(names, query).len() <= names.len(),
        forall|i: int|
            0 <= i < matching_names(names, query).len() ==> fuzzy_match_exists(
                query,
                #[trigger] matching_names(names, query)[i],
            ) && names.contains(matching_names(names, query)[i]),
    decreases names.len(),
{
    if names.len() > 0 {
        let earlier = names.drop_last();
        lemma_matching_names(earlier, query);
        assert forall|i: int| 0 <= i < matching_names(names, query).len() implies names.contains(
            #[trigger] matching_names(names, query)[i],
        ) by {
            if i < matching_names(earlier, query).len() {
                let name = matching_names(earlier, query)[i];
                let k = choose|k: int| 0 <= k < earlier.len() && earlier[k] == name;
                assert(names[k] == name);
            } else {
                assert(names[names.len() - 1] == names.last());
            }
        }
    }
}

/// Replaces `filtered` by the names of `all_names` that the fuzzy search
/// finds `filter` in, in their order.
pub fn filter_names(all_names: &Vec<String>, filter: &str, filtered: &mut Vec<String>)
    ensures
        names_of(final(filtered)@) == matching_names(names_of(all_names@), filter@),
{
    filtered.clear();
    let ghost names = names_of(all_names@);
    let mut i: usize = 0;
    while i < all_names.len()
        invariant
            i <= all_names.len(),
            names == names_of(all_names@),
            names_of(filtered@) == matching_names(names.take(i as int), filter@),
        decreases all_names.len() - i,
    {
        proof {
            assert(names.take(i + 1).drop_last() == names.take(i as int));
            assert(names.take(i + 1).last() == all_names[i as int]@);
        }
        let ghost before = filtered@;
        if best_fuzzy_match(filter, all_names[i].as_str()).is_some() {
            filtered.push(all_names[i].clone());
            proof {
                assert(names_of(filtered@) == names_of(before).push(all_names[i as int]@));
            }
        }
        i += 1;
    }
    proof {
        assert(names.take(all_names.len() as int) == names);
    }
}

/// A number of bytes per second in the unit that suits it: whole megabytes
/// above a megabyte, whole kilobytes above a kilobyte, else bytes.
pub fn traffic_with_unit(sent_bytes_per_second: usize) -> (worded: (usize, &'static str))
    ensures
        sent_bytes_per_second > 1024 * 1024 ==> worded.0 == sent_bytes_per_second / 1024 / 1024
            && worded.1@ == "Mb"@,
        1024 < sent_bytes_per_second <= 1024 * 1024 ==> worded.0 == sent_bytes_per_second / 1024
            && worded.1@ == "Kb"@,
        sent_bytes_per_second <= 1024 ==> worded.0 == sent_bytes_per_second && worded.1@
            == "bytes"@,
{
    if sent_bytes_per_second > 1024 * 1024 {
        (sent_bytes_per_second / 1024 / 1024, "Mb")
    } else if sent_bytes_per_second > 1024 {
        (sent_bytes_per_second / 1024, "Kb")
    } else {
        (sent_bytes_per_second, "bytes")
    }
}

/// How the time that a system took is rated, from best to worst.
#[derive(Clone, Copy, Debug, PartialEq, Eq, Structural)]
pub enum DurationRating {
    /// Below 5 ms.
    Good,
    /// From 5 ms, below 10 ms.
    Fair,
    /// From 10 ms, below 15 ms.
    Slow,
    /// From 15 ms, below 20 ms.
    VerySlow,
    /// 20 ms and above.
    Bad,
}

/// Rates the time, in milliseconds, that a system took.
pub fn rate_duration(duration: u32) -> (rating: DurationRating)
    ensures
        rating == if duration < 5 {
            DurationRating::Good
        } else if duration < 10 {
            DurationRating::Fair
        } else if duration < 15 {
            DurationRating::Slow
        } else if duration < 20 {
            DurationRating::VerySlow
        } else {
            DurationRating::Bad
        },
{
    if duration < 5 {
        DurationRating::Good
    } else if duration < 10 {
        DurationRating::Fair
    } else if duration < 15 {
        DurationRating::Slow
    } else if duration < 20 {
        DurationRating::VerySlow
    } else {
        DurationRating::Bad
    }
}

/// The place of a cast mode in the list that the overlay offers: "Off",
/// "On", "On Release".
pub open spec fn cast_mode_place(mode: CastMode) -> i32 {
    match mode {
        CastMode::Normal => 0,
        CastMode::OnKeyPress => 1,
        CastMode::OnKeyRelease => 2,
    }
}

pub fn cast_mode_index(mode: CastMode) -> (index: i32)
    ensures
        index == cast_mode_place(mode),
{
    match mode {
        CastMode::Normal => 0,
        CastMode::OnKeyPress => 1,
        CastMode::OnKeyRelease => 2,
    }
}

/// The cast mode at a place of the list; any place past the second stands
/// for the last entry.
pub fn cast_mode_from_index(index: i32) -> (mode: CastMode)
    ensures
        mode == if index == 0 {
            CastMode::Normal
        } else if index == 1 {
            CastMode::OnKeyPress
        } else {
            CastMode::OnKeyRelease
        },
{
    match index {
        0 => CastMode::Normal,
        1 => CastMode::OnKeyPress,
        _ => CastMode::OnKeyRelease,
    }
}

/// Choosing a cast mode from the list and reading it back gives the mode.
pub proof fn lemma_cast_mode_round_trip(mode: CastMode)
    ensures
        0 <= cast_mode_place(mode) <= 2,
        mode == if cast_mode_place(mode) == 0 {
            CastMode::Normal
        } else if cast_mode_place(mode) == 1 {
            CastMode::OnKeyPress
        } else {
            CastMode::OnKeyRelease
        },
{
}

/// What to do to bring a population to the number asked for.
#[derive(Clone, Copy, Debug, PartialEq, Eq, Structural)]
pub enum PopulationChange {
    /// Spawn this many.
    Add(usize),
    /// Remove this many of those spawned, the oldest first.
    Remove(usize),
    Keep,
}

/// The smaller of a count that may be negative and a length.
pub open spec fn at_most(count: int, len: usize) -> usize {
    if count <= 0 {
        0
    } else if count > len {
        len
    } else {
        count as usize
    }
}

/// How to bring the players to the number `wanted`. `current` players are
/// in the world, `users` of them are people, and `spawned` of them were
/// spawned here and can be removed.
///
/// Too few players are filled up. Players are removed only while more than
/// `wanted` remain beside the people, and no more than were spawned.
pub fn player_population_change(current: i32, users: i32, wanted: i32, spawned: usize) -> (change:
    PopulationChange)
    ensures
        change == if current < wanted {
            PopulationChange::Add((wanted - current) as usize)
        } else if current - users > wanted {
            PopulationChange::Remove(at_most(current - wanted - users, spawned))
        } else {
            PopulationChange::Keep
        },
{
    let current = current as i64;
    let users = users as i64;
    let wanted = wanted as i64;
    if current < wanted {
        PopulationChange::Add((wanted - current) as usize)
    } else if current - users > wanted {
        let to_remove = current - wanted - users;
        if to_remove as u64 > spawned as u64 {
            PopulationChange::Remove(spawned)
        } else {
            PopulationChange::Remove(to_remove as usize)
        }
    } else {
        PopulationChange::Keep
    }
}

/// How to bring the monsters to the number `wanted`, of which `current` are
/// in the world and `spawned` can be removed.
pub fn monster_population_change(current: i32, wanted: i32, spawned: usize) -> (change:
    PopulationChange)
    ensures
        change == if current < wanted {
            PopulationChange::Add((wanted - current) as usize)
        } else if current > wanted {
            PopulationChange::Remove(at_most(current - wanted, spawned))
        } else {
            PopulationChange::Keep
        },
{
    let current = current as i64;
    let wanted = wanted as i64;
    if current < wanted {
        PopulationChange::Add((wanted - current) as usize)
    } else if current > wanted {
        let to_remove = current - wanted;
        if to_remove as u64 > spawned as u64 {
            PopulationChange::Remove(spawned)
        } else {
            PopulationChange::Remove(to_remove as usize)
        }
    } else {
        PopulationChange::Keep
    }
}

/// Takes the `count` oldest entities out of `spawned` and returns them, in
/// their order; the younger ones stay, in their order.
pub fn take_oldest(spawned: &mut Vec<CharEntityId>, count: usize) -> (taken: Vec<CharEntityId>)
    requires
        count <= old(spawned).len(),
    ensures
        taken@ == old(spawned)@.take(count as int),
        final(spawned)@ == old(spawned)@.skip(count as int),
{
    let mut taken: Vec<CharEntityId> = Vec::new();
    let mut rest: Vec<CharEntityId> = Vec::new();
    let mut i: usize = 0;
    while i < spawned.len()
        invariant
            *spawned == *old(spawned),
            count <= spawned.len(),
            i <= spawned.len(),
            taken@ == spawned@.take(if i < count {
                i as int
            } else {
                count as int
            }),
            rest@ == if i < count {
                Seq::<CharEntityId>::empty()
            } else {
                spawned@.subrange(count as int, i as int)
            },
        decreases spawned.len() - i,
    {
        if i < count {
            taken.push(spawned[i]);
        } else {
            rest.push(spawned[i]);
        }
        i += 1;
    }
    *spawned = rest;
    taken
}

/// `rand::random`: a number drawn by chance. Nothing is known of it.
#[verifier::external_body]
fn random_number() -> (roll: u64) {
    rand::random::<u64>()
}

/// The sex that a roll stands for: male for an even roll, female for an odd
/// one.
pub fn sex_of_roll(roll: u64) -> (sex: Sex)
    ensures
        sex == if roll % 2 == 0 {
            Sex::Male
        } else {
            Sex::Female
        },
{
    if roll % 2 == 0 {
        Sex::Male
    } else {
        Sex::Female
    }
}

/// The head that a roll stands for among `head_count` heads.
pub fn head_of_roll(roll: u64, head_count: usize) -> (head: usize)
    requires
        head_count > 0,
    ensures
        head == roll % (head_count as u64),
        head < head_count,
{
    (roll % (head_count as u64)) as usize
}

/// The looks of a character spawned by chance: its sex, and its head among
/// `head_count` heads. Without any head to choose from there are no looks.
pub fn random_looks(head_count: usize) -> (looks: Option<(Sex, usize)>)
    ensures
        looks is Some <==> head_count > 0,
        looks matches Some((_, head)) ==> head < head_count,
{
    if head_count == 0 {
        None
    } else {
        let sex = sex_of_roll(random_number());
        let head = head_of_roll(random_number(), head_count);
        Some((sex, head))
    }
}


/// How the ground is lit. Light maps are drawn only where lighting is on.
#[derive(Clone, Copy, Debug, PartialEq, Eq, Structural)]
pub struct LightingOptions {
    pub use_tile_colors: bool,
    pub use_lightmaps: bool,
    pub use_lighting: bool,
}

impl LightingOptions {
    /// Light maps are on only where lighting is on.
    pub open spec fn consistent(self) -> bool {
        self.use_lightmaps ==> self.use_lighting
    }

    /// Everything on.
    pub fn new() -> (options: LightingOptions)
        ensures
            options.use_tile_colors,
            options.use_lightmaps,
            options.use_lighting,
    {
        LightingOptions { use_tile_colors: true, use_lightmaps: true, use_lighting: true }
    }

    /// Switches lighting; switching it off switches the light maps off too.
    pub fn set_lighting(&mut self, on: bool)
        ensures
            final(self).use_lighting == on,
            final(self).use_lightmaps == (on && old(self).use_lightmaps),
            final(self).use_tile_colors == old(self).use_tile_colors,
            final(self).consistent(),
    {
        self.use_lighting = on;
        self.use_lightmaps = self.use_lighting && self.use_lightmaps;
    }

    /// Switches the light maps; switching them on switches lighting on too.
    pub fn set_lightmaps(&mut self, on: bool)
        ensures
            final(self).use_lightmaps == on,
            final(self).use_lighting == (on || old(self).use_lighting),
            final(self).use_tile_colors == old(self).use_tile_colors,
            final(self).consistent(),
    {
        self.use_lightmaps = on;
        self.use_lighting = self.use_lighting || self.use_lightmaps;
    }
}

} // verus!
