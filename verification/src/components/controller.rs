//! What the player holds in hand: the keys and mouse buttons with their
//! edges, the skills bound to the skill keys, and the action chosen last.

use vstd::prelude::*;
use crate::components::char_state::CharEntityId;
use crate::components::keys::{
    is_registered, KeyState, KeyTracker, Scancode, SCANCODE_D, SCANCODE_E, SCANCODE_NUM1,
    SCANCODE_NUM2, SCANCODE_NUM3, SCANCODE_Q, SCANCODE_R, SCANCODE_W, SCANCODE_Y,
};
use crate::components::skills::Skills;

verus! {

/// A point of the window, in pixels from its top left corner.
#[derive(Clone, Copy, Debug, PartialEq, Eq, Structural)]
pub struct ScreenCoords {
    pub x: u16,
    pub y: u16,
}

/// The rectangle that an entity's sprite covers on screen. The y axis of the
/// window points down, so the bottom edge has the larger y.
#[derive(Clone, Copy, Debug, PartialEq, Eq)]
pub struct SpriteBoundingRect {
    pub bottom_left: [i32; 2],
    pub top_right: [i32; 2],
}

impl SpriteBoundingRect {
    /// Whether the point lies in the rectangle; the edges belong to it.
    pub open spec fn covers(self, x: u16, y: u16) -> bool {
        &&& self.bottom_left[0] <= x <= self.top_right[0]
        &&& self.top_right[1] <= y <= self.bottom_left[1]
    }

    pub fn contains(&self, x: u16, y: u16) -> (inside: bool)
        ensures
            inside == self.covers(x, y),
    {
        let mx = x as i32;
        let my = y as i32;
        mx >= self.bottom_left[0] && mx <= self.top_right[0] && my <= self.bottom_left[1] && my
            >= self.top_right[1]
    }
}

/// Number of skill keys, and so of slots in a binding table.
pub const SKILL_KEY_COUNT: usize = 9;

/// The keys a skill can be bound to: four letter slots, the ultimate, the
/// mount key and three digit slots.
#[derive(Clone, Copy, Debug, PartialEq, Eq, Hash, Structural)]
pub enum SkillKey {
    Q,
    W,
    E,
    R,
    D,
    Y,
    Num1,
    Num2,
    Num3,
}

impl SkillKey {
    /// The physical key of the skill key.
    pub open spec fn code(self) -> Scancode {
        match self {
            SkillKey::Q => SCANCODE_Q,
            SkillKey::W => SCANCODE_W,
            SkillKey::E => SCANCODE_E,
            SkillKey::R => SCANCODE_R,
            SkillKey::D => SCANCODE_D,
            SkillKey::Y => SCANCODE_Y,
            SkillKey::Num1 => SCANCODE_NUM1,
            SkillKey::Num2 => SCANCODE_NUM2,
            SkillKey::Num3 => SCANCODE_NUM3,
        }
    }

    /// The place of the skill key in the order `Q, W, E, R, D, Y, Num1, Num2,
    /// Num3`, which is also its slot in a binding table.
    pub open spec fn slot(self) -> int {
        match self {
            SkillKey::Q => 0,
            SkillKey::W => 1,
            SkillKey::E => 2,
            SkillKey::R => 3,
            SkillKey::D => 4,
            SkillKey::Y => 5,
            SkillKey::Num1 => 6,
            SkillKey::Num2 => 7,
            SkillKey::Num3 => 8,
        }
    }

    /// The skill key of a slot.
    pub open spec fn of_slot(slot: int) -> SkillKey {
        if slot == 0 {
            SkillKey::Q
        } else if slot == 1 {
            SkillKey::W
        } else if slot == 2 {
            SkillKey::E
        } else if slot == 3 {
            SkillKey::R
        } else if slot == 4 {
            SkillKey::D
        } else if slot == 5 {
            SkillKey::Y
        } else if slot == 6 {
            SkillKey::Num1
        } else if slot == 7 {
            SkillKey::Num2
        } else {
            SkillKey::Num3
        }
    }

    pub fn scancode(&self) -> (code: Scancode)
        ensures
            code == self.code(),
            is_registered(code),
    {
        match self {
            SkillKey::Q => SCANCODE_Q,
            SkillKey::W => SCANCODE_W,
            SkillKey::E => SCANCODE_E,
            SkillKey::R => SCANCODE_R,
            SkillKey::D => SCANCODE_D,
            SkillKey::Y => SCANCODE_Y,
            SkillKey::Num1 => SCANCODE_NUM1,
            SkillKey::Num2 => SCANCODE_NUM2,
            SkillKey::Num3 => SCANCODE_NUM3,
        }
    }

    pub fn index(&self) -> (slot: usize)
        ensures
            slot == self.slot(),
            slot < SKILL_KEY_COUNT,
    {
        match self {
            SkillKey::Q => 0,
            SkillKey::W => 1,
            SkillKey::E => 2,
            SkillKey::R => 3,
            SkillKey::D => 4,
            SkillKey::Y => 5,
            SkillKey::Num1 => 6,
            SkillKey::Num2 => 7,
            SkillKey::Num3 => 8,
        }
    }

    /// The skill key of `slot`; `None` where `slot` is not below
    /// `SKILL_KEY_COUNT`.
    pub fn from_index(slot: usize) -> (key: Option<SkillKey>)
        ensures
            key is Some <==> slot < SKILL_KEY_COUNT,
            key matches Some(k) ==> k == SkillKey::of_slot(slot as int) && k.slot() == slot,
    {
        match slot {
            0 => Some(SkillKey::Q),
            1 => Some(SkillKey::W),
            2 => Some(SkillKey::E),
            3 => Some(SkillKey::R),
            4 => Some(SkillKey::D),
            5 => Some(SkillKey::Y),
            6 => Some(SkillKey::Num1),
            7 => Some(SkillKey::Num2),
            8 => Some(SkillKey::Num3),
            _ => None,
        }
    }

    /// Whether two skill keys are the same key.
    pub fn same_as(&self, other: SkillKey) -> (same: bool)
        ensures
            same == (*self == other),
    {
        self.index() == other.index()
    }
}

/// Slots and skill keys correspond one to one.
pub proof fn lemma_skill_key_slots(key: SkillKey, slot: int)
    ensures
        0 <= key.slot() < SKILL_KEY_COUNT,
        SkillKey::of_slot(key.slot()) == key,
        0 <= slot < SKILL_KEY_COUNT ==> SkillKey::of_slot(slot).slot() == slot,
        is_registered(key.code()),
{
}

/// What the player asked for, read off the raw input of one frame.
#[derive(Clone, Copy, Debug, PartialEq, Eq, Structural)]
pub enum ControllerAction {
    MoveTowardsMouse(ScreenCoords),
    /// Move to the spot, or if an enemy stands there, attack her.
    MoveOrAttackTo(ScreenCoords),
    /// Move to the spot, attack any enemy on the way.
    AttackTo(ScreenCoords),
    CastingSelectTarget(SkillKey, Skills),
    CancelCastingSelectTarget,
    /// The flag says whether the caster is the target.
    Casting(Skills, bool),
    LeftClick,
}

/// How a skill key turns into a cast.
#[derive(Clone, Copy, Debug, PartialEq, Eq, Structural)]
pub enum CastMode {
    /// Pressing the skill key moves you into target selection mode, then
    /// releasing the left mouse button will cast the skill.
    Normal,
    /// Pressing the skill key moves you into target selection mode, then
    /// releasing the key will cast the skill.
    OnKeyRelease,
    /// Pressing the skill key casts the skill immediately.
    OnKeyPress,
}

/// A mouse button that the controller tracks.
#[derive(Clone, Copy, Debug, PartialEq, Eq, Structural)]
pub enum MouseButton {
    Left,
    Right,
}

/// The entity whose rectangle is the first in `rects` to cover the point.
pub open spec fn first_covering(
    rects: Seq<(CharEntityId, SpriteBoundingRect)>,
    x: u16,
    y: u16,
) -> Option<CharEntityId>
    decreases rects.len(),
{
    if rects.len() == 0 {
        None
    } else if rects[0].1.covers(x, y) {
        Some(rects[0].0)
    } else {
        first_covering(rects.skip(1), x, y)
    }
}

/// `first_covering` names an entity iff some rectangle covers the point, and
/// then it is that of the earliest such rectangle.
pub proof fn lemma_first_covering(rects: Seq<(CharEntityId, SpriteBoundingRect)>, x: u16, y: u16)
    ensures
        match first_covering(rects, x, y) {
            Some(entity) => exists|i: int|
                0 <= i < rects.len() && #[trigger] rects[i].1.covers(x, y) && rects[i].0 == entity
                    && forall|j: int| 0 <= j < i ==> !(#[trigger] rects[j]).1.covers(x, y),
            None => forall|i: int| 0 <= i < rects.len() ==> !(#[trigger] rects[i]).1.covers(x, y),
        },
    decreases rects.len(),
{
    if rects.len() == 0 {
    } else if rects[0].1.covers(x, y) {
        assert(rects[0].1.covers(x, y) && rects[0].0 == rects[0].0);
    } else {
        let rest = rects.skip(1);
        lemma_first_covering(rest, x, y);
        match first_covering(rest, x, y) {
            Some(entity) => {
                let i = choose|i: int|
                    0 <= i < rest.len() && #[trigger] rest[i].1.covers(x, y) && rest[i].0 == entity
                        && forall|j: int| 0 <= j < i ==> !(#[trigger] rest[j]).1.covers(x, y);
                assert(rects[i + 1] == rest[i]);
                assert forall|j: int| 0 <= j < i + 1 implies !(#[trigger] rects[j]).1.covers(
                    x,
                    y,
                ) by {
                    if j > 0 {
                        assert(rects[j] == rest[j - 1]);
                    }
                }
                assert(rects[i + 1].1.covers(x, y) && rects[i + 1].0 == entity);
            },
            None => {
                assert forall|i: int| 0 <= i < rects.len() implies !(#[trigger] rects[i]).1.covers(
                    x,
                    y,
                ) by {
                    if i > 0 {
                        assert(rects[i] == rest[i - 1]);
                    }
                }
            },
        }
    }
}


/// The input side of a player: keys, mouse, bindings and the chosen action.
/// `P` is a position in the world.
pub struct ControllerComponent<P> {
    pub char_entity_id: CharEntityId,
    pub next_action: Option<ControllerAction>,
    pub last_action: Option<ControllerAction>,
    /// The skill bound to each skill key, by the key's slot.
    pub skills_for_keys: [Option<Skills>; SKILL_KEY_COUNT],
    pub cast_mode: CastMode,
    pub keys: KeyTracker,
    pub camera_follows_char: bool,
    pub left_mouse_down: bool,
    pub right_mouse_down: bool,
    pub left_mouse_pressed: bool,
    pub right_mouse_pressed: bool,
    pub left_mouse_released: bool,
    pub right_mouse_released: bool,
    pub last_mouse_x: u16,
    pub last_mouse_y: u16,
    pub mouse_world_pos: P,
    pub entity_below_cursor: Option<CharEntityId>,
    pub cell_below_cursor_walkable: bool,
    /// Whether an alt key is held.
    pub alt_down: bool,
    /// Whether the text console is open and takes the keyboard.
    pub is_console_open: bool,
    /// The rectangles of the entities drawn in this frame, in drawing order.
    pub bounding_rect_2d: Vec<(CharEntityId, SpriteBoundingRect)>,
}

impl<P> ControllerComponent<P> {
    /// The key tracker is well formed. `new` establishes this and every
    /// method keeps it.
    pub open spec fn wf(self) -> bool {
        self.keys.wf()
    }

    /// The skill bound to a skill key, if any.
    pub open spec fn binding(self, key: SkillKey) -> Option<Skills> {
        self.skills_for_keys[key.slot()]
    }

    /// The skill key that was just pressed: the first one in the order of
    /// the slots.
    pub open spec fn just_pressed_skill_key(self) -> Option<SkillKey> {
        self.first_skill_key_from(0, true)
    }

    /// The skill key that was just released: the first one in the order of
    /// the slots.
    pub open spec fn just_released_skill_key(self) -> Option<SkillKey> {
        self.first_skill_key_from(0, false)
    }

    /// The first skill key from `slot` on that shows the edge asked for.
    pub open spec fn first_skill_key_from(self, slot: int, pressed: bool) -> Option<SkillKey>
        decreases SKILL_KEY_COUNT - slot,
    {
        if slot < 0 || slot >= SKILL_KEY_COUNT {
            None
        } else {
            let key = SkillKey::of_slot(slot);
            let state = self.keys.key(key.code());
            if (pressed && state.just_pressed) || (!pressed && state.just_released) {
                Some(key)
            } else {
                self.first_skill_key_from(slot + 1, pressed)
            }
        }
    }

    /// The state of a mouse button, in the shape of a key's.
    pub open spec fn mouse_button(self, button: MouseButton) -> KeyState {
        match button {
            MouseButton::Left => KeyState {
                down: self.left_mouse_down,
                just_pressed: self.left_mouse_pressed,
                just_released: self.left_mouse_released,
            },
            MouseButton::Right => KeyState {
                down: self.right_mouse_down,
                just_pressed: self.right_mouse_pressed,
                just_released: self.right_mouse_released,
            },
        }
    }

    /// `self` with the state of one mouse button replaced.
    pub open spec fn with_mouse_button(self, button: MouseButton, state: KeyState) -> Self {
        match button {
            MouseButton::Left => ControllerComponent {
                left_mouse_down: state.down,
                left_mouse_pressed: state.just_pressed,
                left_mouse_released: state.just_released,
                ..self
            },
            MouseButton::Right => ControllerComponent {
                right_mouse_down: state.down,
                right_mouse_pressed: state.just_pressed,
                right_mouse_released: state.just_released,
                ..self
            },
        }
    }

    /// The controller of the character `char`, with the cursor in the middle
    /// of the window and over the spot `mouse_world_pos`: every key and
    /// button up, no skill bound, cast mode `Normal`.
    pub fn new(char: CharEntityId, mouse_world_pos: P) -> (controller: ControllerComponent<P>)
        ensures
            controller.wf(),
            controller.char_entity_id == char,
            controller.mouse_world_pos == mouse_world_pos,
            controller.cast_mode == CastMode::Normal,
            controller.next_action is None,
            controller.last_action is None,
            controller.camera_follows_char,
            controller.last_mouse_x == 400,
            controller.last_mouse_y == 300,
            controller.entity_below_cursor is None,
            !controller.cell_below_cursor_walkable,
            !controller.alt_down,
            !controller.is_console_open,
            controller.bounding_rect_2d@.len() == 0,
            forall|button: MouseButton| controller.mouse_button(button) == KeyState::idle(),
            forall|key: Scancode|
                is_registered(key) ==> controller.keys.key(key) == KeyState::idle(),
            forall|key: SkillKey| controller.binding(key) is None,
    {
        let controller = ControllerComponent {
            char_entity_id: char,
            cast_mode: CastMode::Normal,
            skills_for_keys: [None; SKILL_KEY_COUNT],
            camera_follows_char: true,
            keys: KeyTracker::new(),
            left_mouse_down: false,
            right_mouse_down: false,
            left_mouse_released: false,
            left_mouse_pressed: false,
            right_mouse_pressed: false,
            right_mouse_released: false,
            last_mouse_x: 400,
            last_mouse_y: 300,
            next_action: None,
            last_action: None,
            entity_below_cursor: None,
            cell_below_cursor_walkable: false,
            alt_down: false,
            is_console_open: false,
            mouse_world_pos,
            bounding_rect_2d: Vec::new(),
        };
        proof {
            assert forall|key: SkillKey| controller.binding(key) is None by {
                lemma_skill_key_slots(key, 0);
            }
        }
        controller
    }

    /// The entity whose rectangle is the first to cover the cursor becomes
    /// the entity below the cursor, and the rectangles are dropped: the next
    /// frame has to bring its own.
    pub fn calc_entity_below_cursor(&mut self)
        ensures
            final(self).entity_below_cursor == first_covering(
                old(self).bounding_rect_2d@,
                old(self).last_mouse_x,
                old(self).last_mouse_y,
            ),
            final(self).bounding_rect_2d@.len() == 0,
            *final(self) == (ControllerComponent {
                entity_below_cursor: final(self).entity_below_cursor,
                bounding_rect_2d: final(self).bounding_rect_2d,
                ..*old(self)
            }),
    {
        let mut entity_below_cursor: Option<CharEntityId> = None;
        let mut i: usize = 0;
        let ghost rects = self.bounding_rect_2d@;
        let ghost x = self.last_mouse_x;
        let ghost y = self.last_mouse_y;
        assert(rects.skip(0) == rects);
        while i < self.bounding_rect_2d.len()
            invariant_except_break
                entity_below_cursor is None,
                first_covering(rects, x, y) == first_covering(rects.skip(i as int), x, y),
            invariant
                *self == *old(self),
                rects == self.bounding_rect_2d@,
                x == self.last_mouse_x,
                y == self.last_mouse_y,
                i <= rects.len(),
            ensures
                entity_below_cursor == first_covering(rects, x, y),
            decreases rects.len() - i,
        {
            let entry = &self.bounding_rect_2d[i];
            proof {
                assert(rects.skip(i as int)[0] == rects[i as int]);
                assert(rects.skip(i as int).skip(1) == rects.skip(i + 1));
            }
            if entry.1.contains(self.last_mouse_x, self.last_mouse_y) {
                entity_below_cursor = Some(entry.0);
                break ;
            }
            i += 1;
        }
        self.entity_below_cursor = entity_below_cursor;
        self.bounding_rect_2d.clear();
    }

    /// The skill key and skill that wait for a target: those of the action
    /// chosen in this frame or, when this frame chose none, of the last one.
    pub fn is_selecting_target(&self) -> (selecting: Option<(SkillKey, Skills)>)
        ensures
            selecting == match self.next_action {
                Some(ControllerAction::CastingSelectTarget(skill_key, skill)) => Some(
                    (skill_key, skill),
                ),
                None => match self.last_action {
                    Some(ControllerAction::CastingSelectTarget(skill_key, skill)) => Some(
                        (skill_key, skill),
                    ),
                    _ => None,
                },
                _ => None,
            },
    {
        match self.next_action {
            Some(ControllerAction::CastingSelectTarget(skill_key, skill)) => Some(
                (skill_key, skill),
            ),
            None => match self.last_action {
                Some(ControllerAction::CastingSelectTarget(skill_key, skill)) => Some(
                    (skill_key, skill),
                ),
                _ => None,
            },
            _ => None,
        }
    }

    /// The skill bound to `skill_key`, if any.
    pub fn get_skill_for_key(&self, skill_key: SkillKey) -> (skill: Option<Skills>)
        ensures
            skill == self.binding(skill_key),
    {
        self.skills_for_keys[skill_key.index()]
    }

    /// Binds `skill` to `skill_key`, in place of what was bound to it.
    pub fn assign_skill(&mut self, skill_key: SkillKey, skill: Skills)
        ensures
            final(self).binding(skill_key) == Some(skill),
            forall|other: SkillKey|
                other != skill_key ==> final(self).binding(other) == old(self).binding(other),
            *final(self) == (ControllerComponent {
                skills_for_keys: final(self).skills_for_keys,
                ..*old(self)
            }),
    {
        self.skills_for_keys[skill_key.index()] = Some(skill);
    }

    /// Where the cursor is in the window.
    pub fn mouse_pos(&self) -> (pos: ScreenCoords)
        ensures
            pos == (ScreenCoords { x: self.last_mouse_x, y: self.last_mouse_y }),
    {
        ScreenCoords { x: self.last_mouse_x, y: self.last_mouse_y }
    }

    /// Ends the tick for the keyboard: clears the edges of every key and
    /// keeps whether it is held.
    pub fn cleanup_released_keys(&mut self)
        requires
            old(self).wf(),
        ensures
            final(self).wf(),
            forall|key: Scancode|
                is_registered(key) ==> final(self).keys.key(key) == old(self).keys.key(
                    key,
                ).after_clear(),
            *final(self) == (ControllerComponent { keys: final(self).keys, ..*old(self) }),
    {
        self.keys.cleanup();
    }

    /// Ends the tick for the mouse: clears the edges of both buttons and
    /// keeps whether they are held.
    pub fn cleanup_mouse_buttons(&mut self)
        ensures
            forall|button: MouseButton|
                final(self).mouse_button(button) == old(self).mouse_button(button).after_clear(),
            *final(self) == old(self).with_mouse_button(
                MouseButton::Left,
                old(self).mouse_button(MouseButton::Left).after_clear(),
            ).with_mouse_button(
                MouseButton::Right,
                old(self).mouse_button(MouseButton::Right).after_clear(),
            ),
    {
        self.left_mouse_pressed = false;
        self.left_mouse_released = false;
        self.right_mouse_pressed = false;
        self.right_mouse_released = false;
    }

    /// Records that `key` went down. A falling edge that the key shows
    /// stays until `cleanup_released_keys`.
    pub fn key_pressed(&mut self, key: Scancode)
        requires
            old(self).wf(),
            is_registered(key),
        ensures
            final(self).wf(),
            final(self).keys.key(key) == old(self).keys.key(key).after_press(),
            final(self).keys.same_but(old(self).keys, key),
            *final(self) == (ControllerComponent { keys: final(self).keys, ..*old(self) }),
    {
        self.keys.press(key);
    }

    /// Records that `key` went up. A rising edge that the key shows stays
    /// until `cleanup_released_keys`.
    pub fn key_released(&mut self, key: Scancode)
        requires
            old(self).wf(),
            is_registered(key),
        ensures
            final(self).wf(),
            final(self).keys.key(key) == old(self).keys.key(key).after_release(),
            final(self).keys.same_but(old(self).keys, key),
            *final(self) == (ControllerComponent { keys: final(self).keys, ..*old(self) }),
    {
        self.keys.release(key);
    }

    /// Records that a mouse button went down. Returns true iff this is a
    /// rising edge. A falling edge that the button shows stays until
    /// `cleanup_mouse_buttons`.
    pub fn mouse_button_pressed(&mut self, button: MouseButton) -> (rising: bool)
        ensures
            rising == !old(self).mouse_button(button).down,
            *final(self) == old(self).with_mouse_button(
                button,
                old(self).mouse_button(button).after_press(),
            ),
    {
        match button {
            MouseButton::Left => {
                let rising = !self.left_mouse_down;
                self.left_mouse_pressed = rising;
                self.left_mouse_down = true;
                rising
            },
            MouseButton::Right => {
                let rising = !self.right_mouse_down;
                self.right_mouse_pressed = rising;
                self.right_mouse_down = true;
                rising
            },
        }
    }

    /// Records that a mouse button went up. Returns true iff this is a
    /// falling edge. A rising edge that the button shows stays until
    /// `cleanup_mouse_buttons`.
    pub fn mouse_button_released(&mut self, button: MouseButton) -> (falling: bool)
        ensures
            falling == old(self).mouse_button(button).down,
            *final(self) == old(self).with_mouse_button(
                button,
                old(self).mouse_button(button).after_release(),
            ),
    {
        match button {
            MouseButton::Left => {
                let falling = self.left_mouse_down;
                self.left_mouse_released = falling;
                self.left_mouse_down = false;
                falling
            },
            MouseButton::Right => {
                let falling = self.right_mouse_down;
                self.right_mouse_released = falling;
                self.right_mouse_down = false;
                falling
            },
        }
    }

    pub fn is_key_down(&self, key: Scancode) -> (down: bool)
        requires
            self.wf(),
            is_registered(key),
        ensures
            down == self.keys.key(key).down,
    {
        self.keys.is_down(key)
    }

    pub fn is_key_up(&self, key: Scancode) -> (up: bool)
        requires
            self.wf(),
            is_registered(key),
        ensures
            up == !self.keys.key(key).down,
    {
        !self.keys.is_down(key)
    }

    pub fn is_key_just_released(&self, key: Scancode) -> (released: bool)
        requires
            self.wf(),
            is_registered(key),
        ensures
            released == self.keys.key(key).just_released,
    {
        self.keys.is_just_released(key)
    }

    pub fn is_key_just_pressed(&self, key: Scancode) -> (pressed: bool)
        requires
            self.wf(),
            is_registered(key),
        ensures
            pressed == self.keys.key(key).just_pressed,
    {
        self.keys.is_just_pressed(key)
    }

    /// The first skill key, in the order of the slots, that was just
    /// pressed (`pressed` set) or just released (`pressed` not set).
    pub fn find_skill_key_with_edge(&self, pressed: bool) -> (found: Option<SkillKey>)
        requires
            self.wf(),
        ensures
            found == self.first_skill_key_from(0, pressed),
    {
        let mut slot: usize = 0;
        while slot < SKILL_KEY_COUNT
            invariant
                self.wf(),
                slot <= SKILL_KEY_COUNT,
                self.first_skill_key_from(0, pressed) == self.first_skill_key_from(
                    slot as int,
                    pressed,
                ),
            decreases SKILL_KEY_COUNT - slot,
        {
            let key = SkillKey::from_index(slot).unwrap();
            let code = key.scancode();
            let hit = if pressed {
                self.keys.is_just_pressed(code)
            } else {
                self.keys.is_just_released(code)
            };
            if hit {
                return Some(key);
            }
            slot += 1;
        }
        None
    }
}

} // verus!
