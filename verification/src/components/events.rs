//! The input events of a tick, and what they make of the controller.

use vstd::prelude::*;
use crate::components::controller::{ControllerComponent, MouseButton};
use crate::components::keys::{
    after_event, after_events, is_registered, KeyEvent, KeyState, Scancode,
};

verus! {

/// One event of the window, as far as the controller cares.
#[derive(Clone, Copy, Debug, PartialEq, Eq, Structural)]
pub enum InputEvent {
    KeyDown(Scancode),
    KeyUp(Scancode),
    MouseButtonDown(MouseButton),
    MouseButtonUp(MouseButton),
    /// The cursor moved to this pixel of the window.
    MouseMotion(u16, u16),
}

impl InputEvent {
    /// Whether the event can be handled: an event of a key is of a
    /// registered key.
    pub open spec fn is_known(self) -> bool {
        match self {
            InputEvent::KeyDown(key) => is_registered(key),
            InputEvent::KeyUp(key) => is_registered(key),
            _ => true,
        }
    }

    /// What the event means to `key`, if anything.
    pub open spec fn for_key(self, key: Scancode) -> Option<KeyEvent> {
        match self {
            InputEvent::KeyDown(k) if k == key => Some(KeyEvent::Press),
            InputEvent::KeyUp(k) if k == key => Some(KeyEvent::Release),
            _ => None,
        }
    }

    /// What the event means to the mouse button `button`, if anything.
    pub open spec fn for_button(self, button: MouseButton) -> Option<KeyEvent> {
        match self {
            InputEvent::MouseButtonDown(b) if b == button => Some(KeyEvent::Press),
            InputEvent::MouseButtonUp(b) if b == button => Some(KeyEvent::Release),
            _ => None,
        }
    }
}

/// The presses and releases of `key` among the events, in their order.
pub open spec fn key_events(events: Seq<InputEvent>, key: Scancode) -> Seq<KeyEvent>
    decreases events.len(),
{
    if events.len() == 0 {
        Seq::empty()
    } else {
        let earlier = key_events(events.drop_last(), key);
        match events.last().for_key(key) {
            Some(event) => earlier.push(event),
            None => earlier,
        }
    }
}

/// The presses and releases of `button` among the events, in their order.
pub open spec fn button_events(events: Seq<InputEvent>, button: MouseButton) -> Seq<KeyEvent>
    decreases events.len(),
{
    if events.len() == 0 {
        Seq::empty()
    } else {
        let earlier = button_events(events.drop_last(), button);
        match events.last().for_button(button) {
            Some(event) => earlier.push(event),
            None => earlier,
        }
    }
}

/// Where the cursor is after the events: where the last motion took it, or
/// at `start` if it did not move.
pub open spec fn cursor_after(events: Seq<InputEvent>, start: (u16, u16)) -> (u16, u16)
    decreases events.len(),
{
    if events.len() == 0 {
        start
    } else {
        match events.last() {
            InputEvent::MouseMotion(x, y) => (x, y),
            _ => cursor_after(events.drop_last(), start),
        }
    }
}

/// Whether `after` is what the events make of `before`: every key and both
/// mouse buttons went through their own presses and releases, in their order,
/// the cursor is where the last motion took it, and nothing else changed.
pub open spec fn is_after_events<P>(
    before: ControllerComponent<P>,
    events: Seq<InputEvent>,
    after: ControllerComponent<P>,
) -> bool {
    &&& forall|key: Scancode|
        is_registered(key) ==> #[trigger] after.keys.key(key) == after_events(
            before.keys.key(key),
            key_events(events, key),
        )
    &&& forall|button: MouseButton| #[trigger]
        after.mouse_button(button) == after_events(
            before.mouse_button(button),
            button_events(events, button),
        )
    &&& (after.last_mouse_x, after.last_mouse_y) == cursor_after(
        events,
        (before.last_mouse_x, before.last_mouse_y),
    )
    &&& after == (ControllerComponent {
        keys: after.keys,
        left_mouse_down: after.left_mouse_down,
        left_mouse_pressed: after.left_mouse_pressed,
        left_mouse_released: after.left_mouse_released,
        right_mouse_down: after.right_mouse_down,
        right_mouse_pressed: after.right_mouse_pressed,
        right_mouse_released: after.right_mouse_released,
        last_mouse_x: after.last_mouse_x,
        last_mouse_y: after.last_mouse_y,
        ..before
    })
}

impl<P> ControllerComponent<P> {
    fn handle_key(&mut self, key: Scancode, down: bool)
        requires
            old(self).wf(),
            is_registered(key),
        ensures
            final(self).wf(),
            is_after_events(
                *old(self),
                seq![
                    if down {
                        InputEvent::KeyDown(key)
                    } else {
                        InputEvent::KeyUp(key)
                    },
                ],
                *final(self),
            ),
    {
        let ghost before = *self;
        let ghost event = if down {
            InputEvent::KeyDown(key)
        } else {
            InputEvent::KeyUp(key)
        };
        if down {
            self.key_pressed(key);
        } else {
            self.key_released(key);
        }
        proof {
            assert forall|k: Scancode| is_registered(k) implies #[trigger] self.keys.key(k)
                == match event.for_key(k) {
                Some(e) => after_event(before.keys.key(k), e),
                None => before.keys.key(k),
            } by {}
            assert forall|button: MouseButton| #[trigger]
                self.mouse_button(button) == before.mouse_button(button) by {}
            lemma_after_one_event(before, event, *self);
        }
    }

    fn handle_button(&mut self, button: MouseButton, down: bool)
        ensures
            final(self).keys == old(self).keys,
            is_after_events(
                *old(self),
                seq![
                    if down {
                        InputEvent::MouseButtonDown(button)
                    } else {
                        InputEvent::MouseButtonUp(button)
                    },
                ],
                *final(self),
            ),
    {
        let ghost before = *self;
        let ghost event = if down {
            InputEvent::MouseButtonDown(button)
        } else {
            InputEvent::MouseButtonUp(button)
        };
        if down {
            self.mouse_button_pressed(button);
        } else {
            self.mouse_button_released(button);
        }
        proof {
            assert forall|b: MouseButton| #[trigger]
                self.mouse_button(b) == match event.for_button(b) {
                    Some(e) => after_event(before.mouse_button(b), e),
                    None => before.mouse_button(b),
                } by {}
            lemma_after_one_event(before, event, *self);
        }
    }

    fn handle_motion(&mut self, x: u16, y: u16)
        ensures
            final(self).keys == old(self).keys,
            is_after_events(*old(self), seq![InputEvent::MouseMotion(x, y)], *final(self)),
    {
        let ghost before = *self;
        self.last_mouse_x = x;
        self.last_mouse_y = y;
        proof {
            assert forall|b: MouseButton| #[trigger]
                self.mouse_button(b) == before.mouse_button(b) by {}
            lemma_after_one_event(before, InputEvent::MouseMotion(x, y), *self);
        }
    }

    /// Handles one event.
    pub fn handle_event(&mut self, event: InputEvent)
        requires
            old(self).wf(),
            event.is_known(),
        ensures
            final(self).wf(),
            is_after_events(*old(self), seq![event], *final(self)),
    {
        match event {
            InputEvent::KeyDown(key) => self.handle_key(key, true),
            InputEvent::KeyUp(key) => self.handle_key(key, false),
            InputEvent::MouseButtonDown(button) => self.handle_button(button, true),
            InputEvent::MouseButtonUp(button) => self.handle_button(button, false),
            InputEvent::MouseMotion(x, y) => self.handle_motion(x, y),
        }
    }

    /// Handles the events of a tick, in their order.
    pub fn handle_events(&mut self, events: &Vec<InputEvent>)
        requires
            old(self).wf(),
            forall|i: int| 0 <= i < events.len() ==> (#[trigger] events[i]).is_known(),
        ensures
            final(self).wf(),
            is_after_events(*old(self), events@, *final(self)),
    {
        let mut i: usize = 0;
        proof {
            lemma_no_events_change_nothing(*self);
            assert(events@.take(0) == Seq::<InputEvent>::empty());
        }
        while i < events.len()
            invariant
                self.wf(),
                i <= events.len(),
                forall|k: int| 0 <= k < events.len() ==> (#[trigger] events[k]).is_known(),
                is_after_events(*old(self), events@.take(i as int), *self),
            decreases events.len() - i,
        {
            let ghost middle = *self;
            self.handle_event(events[i]);
            proof {
                assert(events@.take(i + 1) == events@.take(i as int).push(events[i as int]));
                lemma_one_more_event(
                    *old(self),
                    events@.take(i as int),
                    middle,
                    events[i as int],
                    *self,
                );
            }
            i += 1;
        }
        proof {
            assert(events@.take(events.len() as int) == events@);
        }
    }
}

/// No events change nothing.
pub proof fn lemma_no_events_change_nothing<P>(controller: ControllerComponent<P>)
    ensures
        is_after_events(controller, Seq::empty(), controller),
{
}

/// What a single event means to a key.
pub proof fn lemma_key_events_of_one(event: InputEvent, key: Scancode)
    ensures
        key_events(seq![event], key) == match event.for_key(key) {
            Some(e) => seq![e],
            None => Seq::empty(),
        },
{
    let one = seq![event];
    assert(one.drop_last() == Seq::<InputEvent>::empty());
    assert(one.last() == event);
    assert(key_events(Seq::empty(), key) == Seq::<KeyEvent>::empty());
    match event.for_key(key) {
        Some(e) => {
            assert(Seq::<KeyEvent>::empty().push(e) == seq![e]);
        },
        None => {},
    }
}

/// What a single event means to a mouse button.
pub proof fn lemma_button_events_of_one(event: InputEvent, button: MouseButton)
    ensures
        button_events(seq![event], button) == match event.for_button(button) {
            Some(e) => seq![e],
            None => Seq::empty(),
        },
{
    let one = seq![event];
    assert(one.drop_last() == Seq::<InputEvent>::empty());
    assert(one.last() == event);
    assert(button_events(Seq::empty(), button) == Seq::<KeyEvent>::empty());
    match event.for_button(button) {
        Some(e) => {
            assert(Seq::<KeyEvent>::empty().push(e) == seq![e]);
        },
        None => {},
    }
}

/// Where a single event leaves the cursor.
pub proof fn lemma_cursor_after_one(event: InputEvent, start: (u16, u16))
    ensures
        cursor_after(seq![event], start) == match event {
            InputEvent::MouseMotion(x, y) => (x, y),
            _ => start,
        },
{
    let one = seq![event];
    assert(one.drop_last() == Seq::<InputEvent>::empty());
    assert(one.last() == event);
    assert(cursor_after(Seq::empty(), start) == start);
}

/// What a single event makes of a controller: the key or button of the
/// event takes a press or a release, a motion moves the cursor, and all else
/// stays.
pub proof fn lemma_after_one_event<P>(
    before: ControllerComponent<P>,
    event: InputEvent,
    after: ControllerComponent<P>,
)
    requires
        forall|key: Scancode|
            is_registered(key) ==> #[trigger] after.keys.key(key) == match event.for_key(key) {
                Some(e) => after_event(before.keys.key(key), e),
                None => before.keys.key(key),
            },
        forall|button: MouseButton| #[trigger]
            after.mouse_button(button) == match event.for_button(button) {
                Some(e) => after_event(before.mouse_button(button), e),
                None => before.mouse_button(button),
            },
        (after.last_mouse_x, after.last_mouse_y) == match event {
            InputEvent::MouseMotion(x, y) => (x, y),
            _ => (before.last_mouse_x, before.last_mouse_y),
        },
        after == (ControllerComponent {
            keys: after.keys,
            left_mouse_down: after.left_mouse_down,
            left_mouse_pressed: after.left_mouse_pressed,
            left_mouse_released: after.left_mouse_released,
            right_mouse_down: after.right_mouse_down,
            right_mouse_pressed: after.right_mouse_pressed,
            right_mouse_released: after.right_mouse_released,
            last_mouse_x: after.last_mouse_x,
            last_mouse_y: after.last_mouse_y,
            ..before
        }),
    ensures
        is_after_events(before, seq![event], after),
{
    assert forall|key: Scancode| is_registered(key) implies #[trigger] after.keys.key(key)
        == after_events(before.keys.key(key), key_events(seq![event], key)) by {
        lemma_key_events_of_one(event, key);
        lemma_events_unfold(before.keys.key(key), key_events(seq![event], key));
    }
    assert forall|button: MouseButton| #[trigger]
        after.mouse_button(button) == after_events(
            before.mouse_button(button),
            button_events(seq![event], button),
        ) by {
        lemma_button_events_of_one(event, button);
        lemma_events_unfold(before.mouse_button(button), button_events(seq![event], button));
    }
    lemma_cursor_after_one(event, (before.last_mouse_x, before.last_mouse_y));
}

/// The state after no event is the state before, and the state after one
/// event is that event applied.
pub proof fn lemma_events_unfold(state: KeyState, events: Seq<KeyEvent>)
    ensures
        events.len() == 0 ==> after_events(state, events) == state,
        events.len() == 1 ==> after_events(state, events) == after_event(state, events[0]),
{
    if events.len() == 1 {
        assert(events.drop_last().len() == 0);
        assert(after_events(state, events.drop_last()) == state);
    }
}

/// The state after events followed by more events is the state that the
/// later events make of what the earlier ones made.
pub proof fn lemma_events_in_turn(state: KeyState, earlier: Seq<KeyEvent>, later: Seq<KeyEvent>)
    ensures
        after_events(state, earlier + later) == after_events(after_events(state, earlier), later),
    decreases later.len(),
{
    if later.len() == 0 {
        assert(earlier + later == earlier);
    } else {
        lemma_events_in_turn(state, earlier, later.drop_last());
        assert((earlier + later).drop_last() == earlier + later.drop_last());
        assert((earlier + later).last() == later.last());
    }
}

/// Handling events one after the other is handling them all: what one more
/// event makes of what the earlier events made is what all of them make.
pub proof fn lemma_one_more_event<P>(
    before: ControllerComponent<P>,
    events: Seq<InputEvent>,
    middle: ControllerComponent<P>,
    event: InputEvent,
    after: ControllerComponent<P>,
)
    requires
        is_after_events(before, events, middle),
        is_after_events(middle, seq![event], after),
    ensures
        is_after_events(before, events.push(event), after),
{
    let all = events.push(event);
    assert(all.drop_last() == events);
    assert(all.last() == event);
    lemma_cursor_after_one(event, (middle.last_mouse_x, middle.last_mouse_y));
    assert forall|key: Scancode| is_registered(key) implies #[trigger] after.keys.key(key)
        == after_events(before.keys.key(key), key_events(all, key)) by {
        let earlier = key_events(events, key);
        let own = key_events(seq![event], key);
        lemma_key_events_of_one(event, key);
        assert(middle.keys.key(key) == after_events(before.keys.key(key), earlier));
        assert(after.keys.key(key) == after_events(middle.keys.key(key), own));
        lemma_events_in_turn(before.keys.key(key), earlier, own);
        match event.for_key(key) {
            Some(e) => {
                assert(earlier + own == earlier.push(e));
            },
            None => {
                assert(earlier + own == earlier);
            },
        }
    }
    assert forall|button: MouseButton| #[trigger]
        after.mouse_button(button) == after_events(
            before.mouse_button(button),
            button_events(all, button),
        ) by {
        let earlier = button_events(events, button);
        let own = button_events(seq![event], button);
        lemma_button_events_of_one(event, button);
        assert(middle.mouse_button(button) == after_events(before.mouse_button(button), earlier));
        assert(after.mouse_button(button) == after_events(middle.mouse_button(button), own));
        lemma_events_in_turn(before.mouse_button(button), earlier, own);
        match event.for_button(button) {
            Some(e) => {
                assert(earlier + own == earlier.push(e));
            },
            None => {
                assert(earlier + own == earlier);
            },
        }
    }
}

} // verus!
