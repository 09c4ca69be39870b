//! Simulation time: elapsed time in whole milliseconds, the tick counter, and
//! the clock that one frame advances.

use vstd::prelude::*;

verus! {

/// Simulation steps per second.
pub const SIMULATION_FREQ: u64 = 30;

/// The longest stretch of simulated time, in milliseconds, that a single
/// frame may add to the clock, however long the frame really took.
pub const MAX_MILLIS_ALLOWED_FOR_SINGLE_FRAME: u64 = 1000 / SIMULATION_FREQ;

/// Number of frames since the start.
#[derive(Clone, Copy, Debug, PartialEq, Eq, Hash, Structural)]
pub struct Tick(pub u64);

/// A point on the simulation clock, or a span of it, in milliseconds.
///
/// Sums that would leave the range of `u64` stop at its end, and differences
/// stop at zero.
#[derive(Clone, Copy, Debug, PartialEq, Eq, Structural)]
pub struct ElapsedTime(pub u64);

/// `a + b`, stopping at the largest `u64`.
pub open spec fn saturating_sum(a: u64, b: u64) -> u64 {
    if a + b > u64::MAX {
        u64::MAX
    } else {
        (a + b) as u64
    }
}

/// `a - b`, stopping at zero.
pub open spec fn saturating_difference(a: u64, b: u64) -> u64 {
    if a < b {
        0
    } else {
        (a - b) as u64
    }
}

impl ElapsedTime {
    /// The time `seconds` whole seconds after `self`.
    pub fn add_seconds(&self, seconds: u32) -> (later: ElapsedTime)
        ensures
            later.0 == saturating_sum(self.0, (seconds * 1000) as u64),
    {
        let millis: u64 = (seconds as u64) * 1000;
        ElapsedTime(self.0.saturating_add(millis))
    }

    /// The time `millis` milliseconds after `self`.
    pub fn add_millis(&self, millis: u64) -> (later: ElapsedTime)
        ensures
            later.0 == saturating_sum(self.0, millis),
    {
        ElapsedTime(self.0.saturating_add(millis))
    }

    /// The span from `other` to `self`; zero when `other` is the later one.
    pub fn minus(&self, other: ElapsedTime) -> (span: ElapsedTime)
        ensures
            span.0 == saturating_difference(self.0, other.0),
    {
        ElapsedTime(self.0.saturating_sub(other.0))
    }

    /// The sum of two spans.
    pub fn add(&self, other: ElapsedTime) -> (sum: ElapsedTime)
        ensures
            sum.0 == saturating_sum(self.0, other.0),
    {
        ElapsedTime(self.0.saturating_add(other.0))
    }

    /// The span that has passed at `self` since `other`.
    pub fn elapsed_since(&self, other: ElapsedTime) -> (span: ElapsedTime)
        ensures
            span.0 == saturating_difference(self.0, other.0),
    {
        ElapsedTime(self.0.saturating_sub(other.0))
    }

    /// Moves `self` forward so that it is not before `seconds` whole seconds
    /// after `system_time`; a later `self` stays.
    pub fn run_at_least_until_seconds(&mut self, system_time: ElapsedTime, seconds: u32)
        ensures
            final(self).0 == if old(self).0 >= saturating_sum(
                system_time.0,
                (seconds * 1000) as u64,
            ) {
                old(self).0
            } else {
                saturating_sum(system_time.0, (seconds * 1000) as u64)
            },
    {
        let until = system_time.add_seconds(seconds);
        if self.0 < until.0 {
            self.0 = until.0;
        }
    }

    /// Whether the moment `self` is reached at `system_time`.
    pub fn has_passed(&self, system_time: ElapsedTime) -> (passed: bool)
        ensures
            passed == (self.0 <= system_time.0),
    {
        self.0 <= system_time.0
    }

    /// Whether the moment `self` is reached at `system_time`.
    pub fn has_already_passed(&self, system_time: ElapsedTime) -> (passed: bool)
        ensures
            passed == (self.0 <= system_time.0),
    {
        self.0 <= system_time.0
    }

    /// Whether the moment `self` still lies ahead at `system_time`.
    pub fn has_not_passed(&self, system_time: ElapsedTime) -> (ahead: bool)
        ensures
            ahead == (self.0 > system_time.0),
    {
        self.0 > system_time.0
    }

    /// The later of two moments.
    pub fn max(&self, other: ElapsedTime) -> (later: ElapsedTime)
        ensures
            later.0 == if self.0 >= other.0 {
                self.0
            } else {
                other.0
            },
    {
        if self.0 >= other.0 {
            *self
        } else {
            other
        }
    }

    /// The number of whole milliseconds.
    pub fn as_millis(&self) -> (millis: u64)
        ensures
            millis == self.0,
    {
        self.0
    }
}

/// The clock that the per-tick systems read.
#[derive(Clone, Copy, Debug, PartialEq, Eq, Structural)]
pub struct EngineTime {
    /// Simulated time since the start.
    pub time: ElapsedTime,
    /// Number of frames since the start.
    pub tick: Tick,
    /// Number of simulation steps made so far.
    pub simulation_frame: u64,
    /// Whether the simulation makes a step in the current frame.
    pub run_simulation_in_this_frame: bool,
}

impl EngineTime {
    /// A clock at its start, before the first frame.
    pub fn new() -> (clock: EngineTime)
        ensures
            clock.time.0 == 0,
            clock.tick.0 == 0,
            clock.simulation_frame == 0,
            !clock.run_simulation_in_this_frame,
    {
        EngineTime {
            time: ElapsedTime(0),
            tick: Tick(0),
            simulation_frame: 0,
            run_simulation_in_this_frame: false,
        }
    }

    /// The current simulated time.
    pub fn now(&self) -> (now: ElapsedTime)
        ensures
            now == self.time,
    {
        self.time
    }

    /// Whether the simulation makes a step in the current frame.
    pub fn can_simulation_run(&self) -> (can: bool)
        ensures
            can == self.run_simulation_in_this_frame,
    {
        self.run_simulation_in_this_frame
    }

    /// Whether a freshly resolved intention may be committed in the current
    /// frame: the simulation steps, and its step counter is a multiple of 3.
    pub open spec fn is_commit_tick(self) -> bool {
        self.run_simulation_in_this_frame && self.simulation_frame % 3 == 0
    }

    /// Starts the next frame, `dt_millis` of real time after the last one.
    ///
    /// The frame counter grows by one. Simulated time grows by `dt_millis`,
    /// but by no more than `MAX_MILLIS_ALLOWED_FOR_SINGLE_FRAME`, so that a
    /// stall is not caught up. When `simulate` is set the simulation makes a
    /// step in this frame and its step counter grows by one.
    pub fn advance(&mut self, dt_millis: u64, simulate: bool)
        ensures
            final(self).tick.0 == saturating_sum(old(self).tick.0, 1),
            final(self).time.0 == saturating_sum(
                old(self).time.0,
                if dt_millis < MAX_MILLIS_ALLOWED_FOR_SINGLE_FRAME {
                    dt_millis
                } else {
                    MAX_MILLIS_ALLOWED_FOR_SINGLE_FRAME
                },
            ),
            final(self).run_simulation_in_this_frame == simulate,
            final(self).simulation_frame == if simulate {
                saturating_sum(old(self).simulation_frame, 1)
            } else {
                old(self).simulation_frame
            },
    {
        let step: u64 = if dt_millis < MAX_MILLIS_ALLOWED_FOR_SINGLE_FRAME {
            dt_millis
        } else {
            MAX_MILLIS_ALLOWED_FOR_SINGLE_FRAME
        };
        self.tick = Tick(self.tick.0.saturating_add(1));
        self.time = ElapsedTime(self.time.0.saturating_add(step));
        self.run_simulation_in_this_frame = simulate;
        if simulate {
            self.simulation_frame = self.simulation_frame.saturating_add(1);
        }
    }
}

/// Counts the frames of each second.
#[derive(Clone, Copy, Debug, PartialEq, Eq, Structural)]
pub struct FrameCounter {
    /// The frames of the last full second.
    pub fps: u64,
    /// The frames since the last full second.
    pub fps_counter: u64,
}

impl FrameCounter {
    pub fn new() -> (counter: FrameCounter)
        ensures
            counter.fps == 0,
            counter.fps_counter == 0,
    {
        FrameCounter { fps: 0, fps_counter: 0 }
    }

    /// Counts a frame. When a second has passed since the count was last
    /// read off, the frames counted before this one become the rate of the
    /// second and the count starts again with this frame.
    pub fn frame(&mut self, second_has_passed: bool)
        ensures
            final(self).fps == if second_has_passed {
                old(self).fps_counter
            } else {
                old(self).fps
            },
            final(self).fps_counter == if second_has_passed {
                1
            } else {
                saturating_sum(old(self).fps_counter, 1)
            },
    {
        if second_has_passed {
            self.fps = self.fps_counter;
            self.fps_counter = 0;
        }
        self.fps_counter = self.fps_counter.saturating_add(1);
    }
}

/// Of any three consecutive simulation steps exactly one is a multiple of 3,
/// so at most one of three consecutive ticks can commit an intention.
pub proof fn lemma_one_commit_in_three(frame: u64)
    requires
        frame + 2 <= u64::MAX,
    ensures
        ({
            let a = (frame % 3 == 0);
            let b = ((frame + 1) % 3 == 0);
            let c = ((frame + 2) % 3 == 0);
            (a && !b && !c) || (!a && b && !c) || (!a && !b && c)
        }),
{
}

} // verus!
