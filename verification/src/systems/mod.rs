//! The per-tick systems, in the order in which a tick runs them: cursor and
//! intention resolution, then the write of the intention into the character.

pub mod casting;
pub mod control_sys;
pub mod intention_applier;
pub mod input_to_next_action;

use vstd::prelude::*;
use std::time::Instant;
use vstd::string::StrSliceExecFns;
use crate::asset_names::str_ends_with;
use crate::clock::{duration_as_millis, instant_duration_since, instant_now};

verus! {

#[derive(Clone, Copy, Debug, PartialEq, Eq, Structural)]
pub enum Sex {
    Male,
    Female,
}

/// Whether two names hold the same characters.
fn same_name(a: &str, b: &str) -> (same: bool)
    ensures
        same == (a@ == b@),
{
    proof {
        assert(a@.subrange(0, a@.len() as int) =~= a@);
    }
    a.unicode_len() == b.unicode_len() && str_ends_with(a, b)
}

/// How long each system took when it last ran, in milliseconds, by the
/// system's name.
pub struct SystemFrameDurations {
    entries: Vec<(&'static str, u32)>,
}

/// The low 32 bits of a number of milliseconds.
pub open spec fn low_32_bits(millis: u128) -> u32 {
    (millis % 0x1_0000_0000) as u32
}

impl SystemFrameDurations {
    /// No name occurs twice. Every value that this module hands out is well
    /// formed, and its methods keep it so.
    pub closed spec fn wf(self) -> bool {
        forall|i: int, j: int|
            0 <= i < j < self.entries.len() ==> (#[trigger] self.entries[i]).0@ != (
            #[trigger] self.entries[j]).0@
    }

    spec fn holds_at(self, name: Seq<char>, i: int) -> bool {
        0 <= i < self.entries.len() && self.entries[i].0@ == name
    }

    /// The durations, by name.
    pub closed spec fn view(self) -> Map<Seq<char>, u32> {
        Map::new(
            |name: Seq<char>| exists|i: int| self.holds_at(name, i),
            |name: Seq<char>| self.entries[choose|i: int| self.holds_at(name, i)].1,
        )
    }

    /// No system has run yet.
    pub fn new() -> (times: SystemFrameDurations)
        ensures
            times.wf(),
            times@ == Map::<Seq<char>, u32>::empty(),
    {
        let times = SystemFrameDurations { entries: Vec::new() };
        assert(times@ =~= Map::<Seq<char>, u32>::empty());
        times
    }

    fn position(&self, name: &str) -> (found: Option<usize>)
        ensures
            match found {
                Some(i) => self.holds_at(name@, i as int),
                None => forall|i: int| !self.holds_at(name@, i),
            },
    {
        let mut i: usize = 0;
        while i < self.entries.len()
            invariant
                i <= self.entries.len(),
                forall|k: int| 0 <= k < i ==> !self.holds_at(name@, k),
            decreases self.entries.len() - i,
        {
            if same_name(self.entries[i].0, name) {
                return Some(i);
            }
            i += 1;
        }
        None
    }

    proof fn lemma_found_is_chosen(self, name: Seq<char>, i: int)
        requires
            self.wf(),
            self.holds_at(name, i),
        ensures
            self@.contains_key(name),
            self@[name] == self.entries[i].1,
    {
        let chosen = choose|k: int| self.holds_at(name, k);
        assert(self.holds_at(name, chosen));
        if chosen < i {
            assert(self.entries[chosen].0@ != self.entries[i].0@);
        } else if chosen > i {
            assert(self.entries[i].0@ != self.entries[chosen].0@);
        }
    }

    /// How long the system `name` took when it last ran, if it ever ran.
    pub fn get(&self, name: &str) -> (millis: Option<u32>)
        requires
            self.wf(),
        ensures
            millis == if self@.contains_key(name@) {
                Some(self@[name@])
            } else {
                None
            },
    {
        match self.position(name) {
            Some(i) => {
                proof {
                    self.lemma_found_is_chosen(name@, i as int);
                }
                Some(self.entries[i].1)
            },
            None => None,
        }
    }

    /// Notes that the system `name` took `millis` milliseconds, of which the
    /// low 32 bits are kept, in place of what was noted for it before.
    pub fn record(&mut self, name: &'static str, millis: u128)
        requires
            old(self).wf(),
        ensures
            final(self).wf(),
            final(self)@ == old(self)@.insert(name@, low_32_bits(millis)),
    {
        let duration = (millis % 0x1_0000_0000) as u32;
        let ghost before = *self;
        let ghost n = before.entries.len() as int;
        let found = self.position(name);
        match found {
            Some(i) => {
                self.entries[i] = (name, duration);
            },
            None => {
                self.entries.push((name, duration));
            },
        }
        proof {
            let after = *self;
            let at: int = match found {
                Some(i) => i as int,
                None => n,
            };
            assert(after.holds_at(name@, at));
            assert forall|other: Seq<char>, k: int| other != name@ implies after.holds_at(other, k)
                == before.holds_at(other, k) by {}
            assert forall|k: int| after.holds_at(name@, k) implies k == at by {
                if k != at {
                    assert(before.holds_at(name@, k));
                    if found is Some {
                        if k < at {
                            assert(before.entries[k].0@ != before.entries[at].0@);
                        } else {
                            assert(before.entries[at].0@ != before.entries[k].0@);
                        }
                    }
                }
            }
            assert(after.wf()) by {
                assert forall|a: int, b: int| 0 <= a < b < after.entries.len() implies (
                #[trigger] after.entries[a]).0@ != (#[trigger] after.entries[b]).0@ by {
                    if after.entries[a].0@ == after.entries[b].0@ {
                        let shared = after.entries[a].0@;
                        assert(after.holds_at(shared, a) && after.holds_at(shared, b));
                        if shared != name@ {
                            assert(before.holds_at(shared, a) && before.holds_at(shared, b));
                            assert(before.entries[a].0@ != before.entries[b].0@);
                        }
                    }
                }
            }
            assert forall|other: Seq<char>| #[trigger]
                after@.contains_key(other) == before@.insert(name@, duration).contains_key(
                    other,
                ) by {
                if other != name@ {
                    if after@.contains_key(other) {
                        let k = choose|k: int| after.holds_at(other, k);
                        assert(before.holds_at(other, k));
                    }
                    if before@.contains_key(other) {
                        let k = choose|k: int| before.holds_at(other, k);
                        assert(after.holds_at(other, k));
                    }
                }
            }
            assert forall|other: Seq<char>| after@.contains_key(other) implies #[trigger]
                after@[other] == before@.insert(name@, duration)[other] by {
                let chosen = choose|k: int| after.holds_at(other, k);
                assert(after.holds_at(other, chosen));
                if other == name@ {
                    assert(chosen == at);
                } else {
                    assert(before.holds_at(other, chosen));
                    assert(chosen != at);
                    before.lemma_found_is_chosen(other, chosen);
                }
            }
            assert(after@ =~= before@.insert(name@, duration));
        }
    }

    /// Notes that the system `name`, which started at `started`, has
    /// finished now: the time it took, by the machine's clock, replaces what
    /// was noted for it before. The other systems keep their times.
    pub fn system_finished(&mut self, started: Instant, name: &'static str)
        requires
            old(self).wf(),
        ensures
            final(self).wf(),
            final(self)@.dom() == old(self)@.dom().insert(name@),
            forall|other: Seq<char>|
                other != name@ && old(self)@.contains_key(other) ==> final(self)@[other]
                    == old(self)@[other],
    {
        let now = instant_now();
        let elapsed = instant_duration_since(&now, started);
        let duration = duration_as_millis(&elapsed);
        self.record(name, duration);
    }

    /// Starts the clock for the system `name`, at the present moment by the
    /// machine's clock. Nothing is noted yet: the time is noted when the
    /// stopwatch is told to `finish`.
    pub fn start_measurement<'a>(&'a mut self, name: &'static str) -> (watch: SystemStopwatch<'a>)
        requires
            old(self).wf(),
        ensures
            watch.name()@ == name@,
            *watch.times() == *old(self),
            *final(self) == *final(watch.times()),
    {
        SystemStopwatch::new(name, self)
    }

    /// Starts the clock for the system `name` at the moment `started`.
    /// Nothing is noted yet.
    pub fn start_measurement_at<'a>(&'a mut self, name: &'static str, started: Instant) -> (watch:
        SystemStopwatch<'a>)
        requires
            old(self).wf(),
        ensures
            watch.name()@ == name@,
            watch.started() == started,
            *watch.times() == *old(self),
            *final(self) == *final(watch.times()),
    {
        SystemStopwatch::started_at(name, self, started)
    }
}

/// A running measurement of one system.
pub struct SystemStopwatch<'a> {
    started: Instant,
    name: &'static str,
    times: &'a mut SystemFrameDurations,
}

impl<'a> SystemStopwatch<'a> {
    /// The name of the system that is measured.
    pub closed spec fn name(self) -> &'static str {
        self.name
    }

    /// Where the time will be noted.
    pub closed spec fn times(self) -> &'a mut SystemFrameDurations {
        self.times
    }

    /// The moment at which the measurement started.
    pub closed spec fn started(self) -> Instant {
        self.started
    }

    /// A stopwatch for the system `name` that started at the moment
    /// `started`. It holds the durations as they are and notes nothing yet.
    pub fn started_at(
        name: &'static str,
        times: &'a mut SystemFrameDurations,
        started: Instant,
    ) -> (watch: SystemStopwatch<'a>)
        requires
            old(times).wf(),
        ensures
            watch.name()@ == name@,
            watch.started() == started,
            *watch.times() == *old(times),
            *final(times) == *final(watch.times()),
    {
        SystemStopwatch { started, name, times }
    }

    /// Starts the clock for the system `name`, at the present moment by the
    /// machine's clock. It holds the durations as they are and notes nothing
    /// yet.
    pub fn new(name: &'static str, times: &'a mut SystemFrameDurations) -> (watch: SystemStopwatch<
        'a,
    >)
        requires
            old(times).wf(),
        ensures
            watch.name()@ == name@,
            *watch.times() == *old(times),
            *final(times) == *final(watch.times()),
    {
        Self::started_at(name, times, instant_now())
    }

    /// Stops the clock and notes the time that the system took, in place of
    /// what was noted for it before. The other systems keep their times.
    pub fn finish(self)
        requires
            self.times().wf(),
        ensures
            final(self.times()).wf(),
            final(self.times())@.dom() == self.times()@.dom().insert(self.name()@),
            forall|other: Seq<char>|
                other != self.name()@ && self.times()@.contains_key(other) ==> self.times()@[other]
                    == final(self.times())@[other],
    {
        let SystemStopwatch { started, name, times } = self;
        times.system_finished(started, name);
    }
}

} // verus!
