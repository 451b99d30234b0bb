//! Mouse buttons and cursors.

use vstd::prelude::*;

verus! {

/// Total count of `MouseButton` variants.
pub const MOUSE_BUTTON_COUNT: usize = 5;

/// Represents one of the supported mouse buttons.
#[derive(Copy, Clone, Eq, PartialEq, Structural, Debug)]
pub enum MouseButton {
    Left,
    Right,
    Middle,
    Extra1,
    Extra2,
}

impl MouseButton {
    /// All `MouseButton` variants, in the order of their backend
    /// indices.
    pub fn variants() -> (r: [MouseButton; 5])
        ensures
            r@ =~= seq![
                MouseButton::Left,
                MouseButton::Right,
                MouseButton::Middle,
                MouseButton::Extra1,
                MouseButton::Extra2,
            ],
    {
        [
            MouseButton::Left,
            MouseButton::Right,
            MouseButton::Middle,
            MouseButton::Extra1,
            MouseButton::Extra2,
        ]
    }

    /// The backend index of the button.
    pub fn index(self) -> (r: usize)
        ensures
            self is Left ==> r == 0,
            self is Right ==> r == 1,
            self is Middle ==> r == 2,
            self is Extra1 ==> r == 3,
            self is Extra2 ==> r == 4,
    {
        match self {
            MouseButton::Left => 0,
            MouseButton::Right => 1,
            MouseButton::Middle => 2,
            MouseButton::Extra1 => 3,
            MouseButton::Extra2 => 4,
        }
    }
}

/// Total count of `MouseCursor` variants.
pub const MOUSE_CURSOR_COUNT: usize = 9;

/// Mouse cursor type identifier.
#[derive(Copy, Clone, Eq, PartialEq, Structural, Debug)]
pub enum MouseCursor {
    Arrow,
    /// Automatically used when hovering over text inputs, etc.
    TextInput,
    /// Not used automatically.
    ResizeAll,
    /// Automatically used when hovering over a horizontal border.
    ResizeNS,
    /// Automatically used when hovering over a vertical border or a column.
    ResizeEW,
    /// Automatically used when hovering over the bottom-left corner of a window.
    ResizeNESW,
    /// Automatically used when hovering over the bottom-right corner of a window.
    ResizeNWSE,
    /// Not used automatically, use for e.g. hyperlinks.
    Hand,
    /// When hovering something with disallowed interactions.
    NotAllowed,
}

impl MouseCursor {
    /// All `MouseCursor` variants, in the order of their backend
    /// indices.
    pub fn variants() -> (r: [MouseCursor; 9])
        ensures
            r@ =~= seq![
                MouseCursor::Arrow,
                MouseCursor::TextInput,
                MouseCursor::ResizeAll,
                MouseCursor::ResizeNS,
                MouseCursor::ResizeEW,
                MouseCursor::ResizeNESW,
                MouseCursor::ResizeNWSE,
                MouseCursor::Hand,
                MouseCursor::NotAllowed,
            ],
    {
        [
            MouseCursor::Arrow,
            MouseCursor::TextInput,
            MouseCursor::ResizeAll,
            MouseCursor::ResizeNS,
            MouseCursor::ResizeEW,
            MouseCursor::ResizeNESW,
            MouseCursor::ResizeNWSE,
            MouseCursor::Hand,
            MouseCursor::NotAllowed,
        ]
    }
}

} // verus!
