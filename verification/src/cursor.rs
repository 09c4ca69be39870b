//! The cursor glyphs and tints.

use vstd::prelude::*;

verus! {

/// The glyph that the cursor is drawn with.
#[derive(Clone, Copy, Debug, PartialEq, Eq, Hash, Structural)]
pub enum CursorFrame {
    /// The plain arrow.
    Normal,
    /// "Click to confirm": an armed skill waits for a spot on the ground.
    Click,
    /// "Blocked": nothing can be done here now.
    Stop,
    /// "Targeting": an armed skill waits for its target.
    Target,
}

pub const CURSOR_NORMAL: CursorFrame = CursorFrame::Normal;

pub const CURSOR_CLICK: CursorFrame = CursorFrame::Click;

pub const CURSOR_STOP: CursorFrame = CursorFrame::Stop;

pub const CURSOR_TARGET: CursorFrame = CursorFrame::Target;

pub const CURSOR_COLOR_WHITE: [u8; 3] = [255, 255, 255];

pub const CURSOR_COLOR_BLUE: [u8; 3] = [51, 117, 230];

pub const CURSOR_COLOR_RED: [u8; 3] = [255, 0, 0];

impl CursorFrame {
    /// The action of the cursor sprite that shows the glyph.
    pub open spec fn action(self) -> usize {
        match self {
            CursorFrame::Normal => 0,
            CursorFrame::Click => 2,
            CursorFrame::Stop => 8,
            CursorFrame::Target => 10,
        }
    }

    pub fn action_index(&self) -> (index: usize)
        ensures
            index == self.action(),
    {
        match self {
            CursorFrame::Normal => 0,
            CursorFrame::Click => 2,
            CursorFrame::Stop => 8,
            CursorFrame::Target => 10,
        }
    }
}

} // verus!
