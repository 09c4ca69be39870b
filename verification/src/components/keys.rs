//! Key codes, the edge-triggered state of a single key, and the dense table
//! that holds one such state per registered key.

use vstd::prelude::*;

verus! {

/// A physical key, identified by its USB HID usage number as SDL reports it.
pub type Scancode = i32;

pub const SCANCODE_D: Scancode = 7;
pub const SCANCODE_E: Scancode = 8;
pub const SCANCODE_Q: Scancode = 20;
pub const SCANCODE_R: Scancode = 21;
pub const SCANCODE_W: Scancode = 26;
pub const SCANCODE_Y: Scancode = 28;
pub const SCANCODE_NUM1: Scancode = 30;
pub const SCANCODE_NUM2: Scancode = 31;
pub const SCANCODE_NUM3: Scancode = 32;
pub const SCANCODE_ESCAPE: Scancode = 41;

/// Number of registered keys, and so of slots in a key table.
pub const KEY_COUNT: usize = 241;

/// Whether `key` is one of the keys a tracker keeps state for.
///
/// The registered keys are the letters, digits, punctuation, function,
/// navigation and keypad keys (4..=129), the international and editing keys
/// (133..=164), the extended keypad (176..=221), the modifiers (224..=231),
/// the media and application keys (257..=284) and the sentinel code 512.
pub open spec fn is_registered(key: Scancode) -> bool {
    ||| 4 <= key <= 129
    ||| 133 <= key <= 164
    ||| 176 <= key <= 221
    ||| 224 <= key <= 231
    ||| 257 <= key <= 284
    ||| key == 512
}

/// The slot of a registered key in the dense table. Consecutive registered
/// keys occupy consecutive slots.
pub open spec fn slot_of(key: Scancode) -> int {
    if key <= 129 {
        key - 4
    } else if key <= 164 {
        key - 133 + 126
    } else if key <= 221 {
        key - 176 + 158
    } else if key <= 231 {
        key - 224 + 204
    } else if key <= 284 {
        key - 257 + 212
    } else {
        240
    }
}

/// The registered key that occupies `slot`.
pub open spec fn key_of_slot(slot: int) -> Scancode {
    if slot < 126 {
        (slot + 4) as Scancode
    } else if slot < 158 {
        (slot - 126 + 133) as Scancode
    } else if slot < 204 {
        (slot - 158 + 176) as Scancode
    } else if slot < 212 {
        (slot - 204 + 224) as Scancode
    } else if slot < 240 {
        (slot - 212 + 257) as Scancode
    } else {
        512
    }
}

/// `slot_of` maps the registered keys one-to-one onto the slots
/// `0..KEY_COUNT`, and `key_of_slot` is its inverse.
pub proof fn lemma_slots_are_dense(key: Scancode, slot: int)
    ensures
        is_registered(key) ==> 0 <= slot_of(key) < KEY_COUNT && key_of_slot(slot_of(key)) == key,
        0 <= slot < KEY_COUNT ==> is_registered(key_of_slot(slot)) && slot_of(key_of_slot(slot))
            == slot,
{
}

/// Two registered keys never share a slot.
pub proof fn lemma_slot_of_is_injective(a: Scancode, b: Scancode)
    requires
        is_registered(a),
        is_registered(b),
        slot_of(a) == slot_of(b),
    ensures
        a == b,
{
}

/// Looks up the slot of `key`; `None` for a key that is not registered.
pub fn key_slot(key: Scancode) -> (slot: Option<usize>)
    ensures
        slot is Some <==> is_registered(key),
        slot matches Some(s) ==> s == slot_of(key) && s < KEY_COUNT,
{
    if 4 <= key && key <= 129 {
        Some((key - 4) as usize)
    } else if 133 <= key && key <= 164 {
        Some((key - 133 + 126) as usize)
    } else if 176 <= key && key <= 221 {
        Some((key - 176 + 158) as usize)
    } else if 224 <= key && key <= 231 {
        Some((key - 224 + 204) as usize)
    } else if 257 <= key && key <= 284 {
        Some((key - 257 + 212) as usize)
    } else if key == 512 {
        Some(240)
    } else {
        None
    }
}

/// State of one key: whether it is held, and whether it went down or up
/// since the edges were last cleared.
#[derive(Clone, Copy, Debug, PartialEq, Eq, Structural)]
pub struct KeyState {
    pub down: bool,
    pub just_pressed: bool,
    pub just_released: bool,
}

impl KeyState {
    /// The state of a key that is up and has no pending edge.
    pub open spec fn idle() -> KeyState {
        KeyState { down: false, just_pressed: false, just_released: false }
    }

    /// The state after a press event arrives in state `self`: the key is
    /// held, and it shows a rising edge iff it was up. A falling edge that it
    /// shows stays.
    pub open spec fn after_press(self) -> KeyState {
        KeyState { down: true, just_pressed: !self.down, just_released: self.just_released }
    }

    /// The state after a release event arrives in state `self`: the key is
    /// up, and it shows a falling edge iff it was held. A rising edge that it
    /// shows stays.
    pub open spec fn after_release(self) -> KeyState {
        KeyState { down: false, just_pressed: self.just_pressed, just_released: self.down }
    }

    /// The state after the end-of-tick clearing of both edges. Nothing else
    /// clears an edge that a transition has set.
    pub open spec fn after_clear(self) -> KeyState {
        KeyState { down: self.down, just_pressed: false, just_released: false }
    }

    /// Whether neither edge is pending.
    pub open spec fn has_no_edge(self) -> bool {
        !self.just_pressed && !self.just_released
    }

    /// Records a press. Returns true iff this is a rising edge. The falling
    /// edge is left as it is.
    pub fn pressed(&mut self) -> (rising: bool)
        ensures
            *final(self) == old(self).after_press(),
            rising == !old(self).down,
            final(self).just_released == old(self).just_released,
    {
        self.just_pressed = !self.down;
        self.down = true;
        self.just_pressed
    }

    /// Records a release. Returns true iff this is a falling edge. The
    /// rising edge is left as it is.
    pub fn released(&mut self) -> (falling: bool)
        ensures
            *final(self) == old(self).after_release(),
            falling == old(self).down,
            final(self).just_pressed == old(self).just_pressed,
    {
        self.just_released = self.down;
        self.down = false;
        self.just_released
    }
}

impl Default for KeyState {
    fn default() -> (state: KeyState)
        ensures
            state == KeyState::idle(),
    {
        KeyState { down: false, just_pressed: false, just_released: false }
    }
}

/// One event on a key, as the operating system reports it.
#[derive(Clone, Copy, Debug, PartialEq, Eq, Structural)]
pub enum KeyEvent {
    Press,
    Release,
}

/// The state of a key after one event.
pub open spec fn after_event(state: KeyState, event: KeyEvent) -> KeyState {
    match event {
        KeyEvent::Press => state.after_press(),
        KeyEvent::Release => state.after_release(),
    }
}

/// The state of a key after the events of one tick, in the order they came.
pub open spec fn after_events(state: KeyState, events: Seq<KeyEvent>) -> KeyState
    decreases events.len(),
{
    if events.len() == 0 {
        state
    } else {
        after_event(after_events(state, events.drop_last()), events.last())
    }
}

/// The state of a key at the start of the next tick: the events are applied,
/// then both edges are cleared.
pub open spec fn after_tick(state: KeyState, events: Seq<KeyEvent>) -> KeyState {
    after_events(state, events).after_clear()
}

/// An event sets its own edge from whether the key was held, and leaves
/// the other edge as it was.
pub proof fn lemma_event_sets_its_own_edge(state: KeyState, events: Seq<KeyEvent>)
    requires
        events.len() > 0,
    ensures
        ({
            let before = after_events(state, events.drop_last());
            let now = after_events(state, events);
            &&& now.just_pressed == if events.last() == KeyEvent::Press {
                !before.down
            } else {
                before.just_pressed
            }
            &&& now.just_released == if events.last() == KeyEvent::Release {
                before.down
            } else {
                before.just_released
            }
            &&& now.down == (events.last() == KeyEvent::Press)
        }),
{
}

/// Whether a key is held after a tick depends on the latest event alone, or
/// on the state before the tick when there was none.
pub proof fn lemma_down_after_events(state: KeyState, events: Seq<KeyEvent>)
    ensures
        after_events(state, events).down == if events.len() == 0 {
            state.down
        } else {
            events.last() == KeyEvent::Press
        },
{
}

/// An edge stays until the end of the tick: releases do not take a rising
/// edge away, and presses do not take a falling edge away.
pub proof fn lemma_edge_stays_until_clear(state: KeyState, events: Seq<KeyEvent>)
    ensures
        state.just_pressed && (forall|i: int|
            0 <= i < events.len() ==> events[i] == KeyEvent::Release) ==> after_events(
            state,
            events,
        ).just_pressed,
        state.just_released && (forall|i: int|
            0 <= i < events.len() ==> events[i] == KeyEvent::Press) ==> after_events(
            state,
            events,
        ).just_released,
    decreases events.len(),
{
    if events.len() > 0 {
        let earlier = events.drop_last();
        lemma_edge_stays_until_clear(state, earlier);
        assert(forall|i: int| 0 <= i < earlier.len() ==> earlier[i] == events[i]);
        assert(events.last() == events[events.len() - 1]);
    }
}

/// A press of a key that is up is seen for the rest of the tick, whatever
/// releases follow it, and is gone once the tick has ended.
pub proof fn lemma_press_is_seen_for_the_rest_of_the_tick(state: KeyState, later: Seq<KeyEvent>)
    requires
        !state.down,
        forall|i: int| 0 <= i < later.len() ==> later[i] == KeyEvent::Release,
    ensures
        after_events(state.after_press(), later).just_pressed,
        !after_tick(state.after_press(), later).just_pressed,
{
    lemma_edge_stays_until_clear(state.after_press(), later);
}

/// A release of a key that is held is seen for the rest of the tick,
/// whatever presses follow it, and is gone once the tick has ended.
pub proof fn lemma_release_is_seen_for_the_rest_of_the_tick(state: KeyState, later: Seq<KeyEvent>)
    requires
        state.down,
        forall|i: int| 0 <= i < later.len() ==> later[i] == KeyEvent::Press,
    ensures
        after_events(state.after_release(), later).just_released,
        !after_tick(state.after_release(), later).just_released,
{
    lemma_edge_stays_until_clear(state.after_release(), later);
}

/// A tick in which a key gets no event leaves it without an edge, provided
/// the tick before ended with the clearing: an edge lives for one tick only.
pub proof fn lemma_edge_lives_one_tick(state: KeyState, events: Seq<KeyEvent>)
    ensures
        after_tick(state, events).has_no_edge(),
        after_tick(state, events).down == after_events(state, events).down,
        after_events(after_tick(state, events), Seq::empty()) == after_tick(state, events),
{
}

/// A tick without a press event never shows `just_pressed`, and a tick
/// without a release event never shows `just_released`, when it starts from a
/// cleared state.
pub proof fn lemma_no_event_no_edge(state: KeyState, events: Seq<KeyEvent>)
    requires
        state.has_no_edge(),
    ensures
        (forall|i: int| 0 <= i < events.len() ==> events[i] != KeyEvent::Press) ==> !after_events(
            state,
            events,
        ).just_pressed,
        (forall|i: int| 0 <= i < events.len() ==> events[i] != KeyEvent::Release)
            ==> !after_events(state, events).just_released,
    decreases events.len(),
{
    if events.len() > 0 {
        let earlier = events.drop_last();
        lemma_no_event_no_edge(state, earlier);
        assert(forall|i: int| 0 <= i < earlier.len() ==> earlier[i] == events[i]);
        assert(events.last() == events[events.len() - 1]);
    }
}

/// Whether presses and releases alternate from the state on: no press finds
/// the key held and no release finds it up.
pub open spec fn alternates(state: KeyState, events: Seq<KeyEvent>) -> bool {
    &&& events.len() > 0 ==> (events[0] == KeyEvent::Press) == !state.down
    &&& forall|i: int| 0 < i < events.len() ==> #[trigger] events[i] != events[i - 1]
}

/// When presses and releases alternate in a tick that starts from a cleared
/// state, the key shows `just_pressed` from its first press to the end of the
/// tick, and `just_released` from its first release to the end of the tick.
pub proof fn lemma_alternating_events_show_every_edge(state: KeyState, events: Seq<KeyEvent>)
    requires
        state.has_no_edge(),
        alternates(state, events),
    ensures
        after_events(state, events).just_pressed == events.contains(KeyEvent::Press),
        after_events(state, events).just_released == events.contains(KeyEvent::Release),
    decreases events.len(),
{
    if events.len() > 0 {
        let n = events.len() - 1;
        let earlier = events.drop_last();
        assert(forall|i: int| 0 <= i < earlier.len() ==> earlier[i] == events[i]);
        assert(alternates(state, earlier)) by {
            assert forall|i: int| 0 < i < earlier.len() implies #[trigger] earlier[i] != earlier[i
                - 1] by {
                assert(events[i] != events[i - 1]);
            }
        }
        lemma_alternating_events_show_every_edge(state, earlier);
        lemma_event_sets_its_own_edge(state, events);
        lemma_down_after_events(state, earlier);
        assert(events.last() == events[n]);
        if earlier.len() > 0 {
            assert(events[n] != events[n - 1]);
            assert(earlier.last() == events[n - 1]);
        }
        assert forall|event: KeyEvent| #[trigger]
            events.contains(event) == (earlier.contains(event) || events[n] == event) by {
            if events.contains(event) {
                let i = choose|i: int| 0 <= i < events.len() && events[i] == event;
                if i < n {
                    assert(earlier[i] == event);
                }
            }
            if earlier.contains(event) {
                let i = choose|i: int| 0 <= i < earlier.len() && earlier[i] == event;
                assert(events[i] == event);
            }
        }
    }
}

/// The keys of one keyboard: a state per registered key, and the keys whose
/// edges wait for the end-of-tick clearing.
pub struct KeyTracker {
    keys: Vec<KeyState>,
    keys_released_in_prev_frame: Vec<Scancode>,
    keys_pressed_in_prev_frame: Vec<Scancode>,
}

impl KeyTracker {
    /// The table has one slot per registered key, the two lists of edges
    /// hold registered keys only, and every key that shows an edge is in the
    /// list of that edge. `new` establishes this and every method keeps it.
    pub closed spec fn wf(self) -> bool {
        &&& self.keys.len() == KEY_COUNT
        &&& forall|i: int|
            0 <= i < self.keys_pressed_in_prev_frame.len() ==> is_registered(
                #[trigger] self.keys_pressed_in_prev_frame[i],
            )
        &&& forall|i: int|
            0 <= i < self.keys_released_in_prev_frame.len() ==> is_registered(
                #[trigger] self.keys_released_in_prev_frame[i],
            )
        &&& forall|slot: int|
            0 <= slot < KEY_COUNT && (#[trigger] self.keys[slot]).just_pressed
                ==> self.keys_pressed_in_prev_frame@.contains(key_of_slot(slot))
        &&& forall|slot: int|
            0 <= slot < KEY_COUNT && (#[trigger] self.keys[slot]).just_released
                ==> self.keys_released_in_prev_frame@.contains(key_of_slot(slot))
    }

    /// The state of a registered key.
    pub closed spec fn key(self, key: Scancode) -> KeyState {
        self.keys[slot_of(key)]
    }

    /// Whether `self` and `other` agree in the state of every registered key
    /// but `key`.
    pub open spec fn same_but(self, other: KeyTracker, key: Scancode) -> bool {
        forall|k: Scancode| is_registered(k) && k != key ==> self.key(k) == other.key(k)
    }

    /// A tracker on which no key was ever touched.
    pub fn new() -> (tracker: KeyTracker)
        ensures
            tracker.wf(),
            forall|key: Scancode| is_registered(key) ==> tracker.key(key) == KeyState::idle(),
    {
        let tracker = KeyTracker {
            keys: Self::init_keystates(),
            keys_released_in_prev_frame: Vec::new(),
            keys_pressed_in_prev_frame: Vec::new(),
        };
        proof {
            assert forall|key: Scancode| is_registered(key) implies tracker.key(key)
                == KeyState::idle() by {
                lemma_slots_are_dense(key, 0);
            }
        }
        tracker
    }

    /// The table of a tracker on which no key was ever touched: one idle
    /// state for each registered key.
    fn init_keystates() -> (keys: Vec<KeyState>)
        ensures
            keys.len() == KEY_COUNT,
            forall|slot: int| 0 <= slot < KEY_COUNT ==> keys[slot] == KeyState::idle(),
    {
        let mut keys: Vec<KeyState> = Vec::new();
        let mut slot: usize = 0;
        while slot < KEY_COUNT
            invariant
                slot <= KEY_COUNT,
                keys.len() == slot,
                forall|i: int| 0 <= i < slot ==> keys[i] == KeyState::idle(),
            decreases KEY_COUNT - slot,
        {
            keys.push(KeyState::default());
            slot += 1;
        }
        keys
    }

    /// Records that `key` went down. Returns true iff this is a rising edge:
    /// the key was up.
    pub fn press(&mut self, key: Scancode) -> (rising: bool)
        requires
            old(self).wf(),
            is_registered(key),
        ensures
            final(self).wf(),
            final(self).key(key) == old(self).key(key).after_press(),
            final(self).same_but(*old(self), key),
            rising == !old(self).key(key).down,
    {
        let slot = key_slot(key).unwrap();
        let ghost before = *self;
        let mut state = self.keys[slot];
        let rising = state.pressed();
        if rising {
            self.keys_pressed_in_prev_frame.push(key);
        }
        self.keys[slot] = state;
        proof {
            before.lemma_after_update(*self, key, rising, false);
        }
        rising
    }

    /// Records that `key` went up. Returns true iff this is a falling edge:
    /// the key was down.
    pub fn release(&mut self, key: Scancode) -> (falling: bool)
        requires
            old(self).wf(),
            is_registered(key),
        ensures
            final(self).wf(),
            final(self).key(key) == old(self).key(key).after_release(),
            final(self).same_but(*old(self), key),
            falling == old(self).key(key).down,
    {
        let slot = key_slot(key).unwrap();
        let ghost before = *self;
        let mut state = self.keys[slot];
        let falling = state.released();
        if falling {
            self.keys_released_in_prev_frame.push(key);
        }
        self.keys[slot] = state;
        proof {
            before.lemma_after_update(*self, key, false, falling);
        }
        falling
    }

    /// A tracker stays well formed, and its other keys stay as they are,
    /// when one key gets a new state and is entered in the list of each edge
    /// that the new state shows and the old one did not.
    proof fn lemma_after_update(self, after: KeyTracker, key: Scancode, rising: bool, falling: bool)
        requires
            self.wf(),
            is_registered(key),
            after.keys@ == self.keys@.update(slot_of(key), after.keys[slot_of(key)]),
            after.keys[slot_of(key)].just_pressed ==> rising || self.keys[slot_of(
                key,
            )].just_pressed,
            after.keys[slot_of(key)].just_released ==> falling || self.keys[slot_of(
                key,
            )].just_released,
            after.keys_pressed_in_prev_frame@ == if rising {
                self.keys_pressed_in_prev_frame@.push(key)
            } else {
                self.keys_pressed_in_prev_frame@
            },
            after.keys_released_in_prev_frame@ == if falling {
                self.keys_released_in_prev_frame@.push(key)
            } else {
                self.keys_released_in_prev_frame@
            },
        ensures
            after.wf(),
            after.same_but(self, key),
    {
        lemma_slots_are_dense(key, 0);
        let pressed = self.keys_pressed_in_prev_frame@;
        let released = self.keys_released_in_prev_frame@;
        assert forall|slot: int|
            0 <= slot < KEY_COUNT && (#[trigger] after.keys[slot]).just_pressed
                implies after.keys_pressed_in_prev_frame@.contains(key_of_slot(slot)) by {
            if slot == slot_of(key) && rising {
                assert(pressed.push(key)[pressed.len() as int] == key);
            } else {
                assert(self.keys[slot].just_pressed);
                let i = choose|i: int| 0 <= i < pressed.len() && pressed[i] == key_of_slot(slot);
                assert(after.keys_pressed_in_prev_frame@[i] == key_of_slot(slot));
            }
        }
        assert forall|slot: int|
            0 <= slot < KEY_COUNT && (#[trigger] after.keys[slot]).just_released
                implies after.keys_released_in_prev_frame@.contains(key_of_slot(slot)) by {
            if slot == slot_of(key) && falling {
                assert(released.push(key)[released.len() as int] == key);
            } else {
                assert(self.keys[slot].just_released);
                let i = choose|i: int| 0 <= i < released.len() && released[i] == key_of_slot(slot);
                assert(after.keys_released_in_prev_frame@[i] == key_of_slot(slot));
            }
        }
        assert forall|k: Scancode| is_registered(k) && k != key implies after.key(k) == self.key(
            k,
        ) by {
            lemma_slots_are_dense(k, 0);
        }
    }

    /// Whether `key` is held.
    pub fn is_down(&self, key: Scancode) -> (down: bool)
        requires
            self.wf(),
            is_registered(key),
        ensures
            down == self.key(key).down,
    {
        self.keys[key_slot(key).unwrap()].down
    }

    /// Whether `key` shows a rising edge: its latest press since the edges
    /// were last cleared found it up.
    pub fn is_just_pressed(&self, key: Scancode) -> (pressed: bool)
        requires
            self.wf(),
            is_registered(key),
        ensures
            pressed == self.key(key).just_pressed,
    {
        self.keys[key_slot(key).unwrap()].just_pressed
    }

    /// Whether `key` shows a falling edge: its latest release since the
    /// edges were last cleared found it held.
    pub fn is_just_released(&self, key: Scancode) -> (released: bool)
        requires
            self.wf(),
            is_registered(key),
        ensures
            released == self.key(key).just_released,
    {
        self.keys[key_slot(key).unwrap()].just_released
    }

    /// Ends the tick: clears the edges of every key and keeps whether it is
    /// held.
    pub fn cleanup(&mut self)
        requires
            old(self).wf(),
        ensures
            final(self).wf(),
            forall|key: Scancode|
                is_registered(key) ==> final(self).key(key) == old(self).key(key).after_clear(),
    {
        let ghost before = *self;
        let mut i: usize = 0;
        while i < self.keys_released_in_prev_frame.len()
            invariant
                before.wf(),
                self.keys.len() == KEY_COUNT,
                self.keys_released_in_prev_frame == before.keys_released_in_prev_frame,
                self.keys_pressed_in_prev_frame == before.keys_pressed_in_prev_frame,
                i <= self.keys_released_in_prev_frame.len(),
                forall|slot: int|
                    0 <= slot < KEY_COUNT ==> (#[trigger] self.keys[slot]).down
                        == before.keys[slot].down && self.keys[slot].just_pressed
                        == before.keys[slot].just_pressed && (self.keys[slot].just_released ==> (
                    before.keys[slot].just_released && forall|j: int|
                        0 <= j < i ==> self.keys_released_in_prev_frame[j] != key_of_slot(slot))),
            decreases self.keys_released_in_prev_frame.len() - i,
        {
            let key = self.keys_released_in_prev_frame[i];
            let slot = key_slot(key).unwrap();
            let mut state = self.keys[slot];
            state.just_released = false;
            self.keys[slot] = state;
            proof {
                lemma_slots_are_dense(key, 0);
            }
            i += 1;
        }
        let mut i: usize = 0;
        while i < self.keys_pressed_in_prev_frame.len()
            invariant
                before.wf(),
                self.keys.len() == KEY_COUNT,
                self.keys_pressed_in_prev_frame == before.keys_pressed_in_prev_frame,
                i <= self.keys_pressed_in_prev_frame.len(),
                forall|slot: int|
                    0 <= slot < KEY_COUNT ==> (#[trigger] self.keys[slot]).down
                        == before.keys[slot].down && !self.keys[slot].just_released && (
                    self.keys[slot].just_pressed ==> (before.keys[slot].just_pressed && forall|
                        j: int,
                    |
                        0 <= j < i ==> self.keys_pressed_in_prev_frame[j] != key_of_slot(slot))),
            decreases self.keys_pressed_in_prev_frame.len() - i,
        {
            let key = self.keys_pressed_in_prev_frame[i];
            let slot = key_slot(key).unwrap();
            let mut state = self.keys[slot];
            state.just_pressed = false;
            self.keys[slot] = state;
            proof {
                lemma_slots_are_dense(key, 0);
            }
            i += 1;
        }
        self.keys_released_in_prev_frame.clear();
        self.keys_pressed_in_prev_frame.clear();
        proof {
            assert forall|slot: int| 0 <= slot < KEY_COUNT implies !(
            #[trigger] self.keys[slot]).just_pressed by {}
            assert forall|key: Scancode| is_registered(key) implies self.key(key) == before.key(
                key,
            ).after_clear() by {
                lemma_slots_are_dense(key, 0);
            }
        }
    }
}

/// Once the tick has ended no key shows an edge, whatever was pressed or
/// released before, and every key is held iff it was held.
pub proof fn lemma_cleared_keys_have_no_edge(before: KeyTracker, after: KeyTracker, key: Scancode)
    requires
        is_registered(key),
        after.key(key) == before.key(key).after_clear(),
    ensures
        !after.key(key).just_pressed,
        !after.key(key).just_released,
        after.key(key).down == before.key(key).down,
{
}

} // verus!

