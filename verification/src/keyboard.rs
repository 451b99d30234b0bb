//! Keyboard keys and focus targets.

use vstd::prelude::*;

verus! {

/// Total count of `Key` variants.
pub const KEY_COUNT: usize = 22;

/// A key identifier.
#[derive(Copy, Clone, Eq, PartialEq, Structural, Debug)]
pub enum Key {
    Tab,
    LeftArrow,
    RightArrow,
    UpArrow,
    DownArrow,
    PageUp,
    PageDown,
    Home,
    End,
    Insert,
    Delete,
    Backspace,
    Space,
    Enter,
    Escape,
    KeyPadEnter,
    A,
    C,
    V,
    X,
    Y,
    Z,
}

impl Key {
    /// All `Key` variants, in the order of their backend indices.
    pub fn variants() -> (r: [Key; 22])
        ensures
            r@ =~= seq![
                Key::Tab,
                Key::LeftArrow,
                Key::RightArrow,
                Key::UpArrow,
                Key::DownArrow,
                Key::PageUp,
                Key::PageDown,
                Key::Home,
                Key::End,
                Key::Insert,
                Key::Delete,
                Key::Backspace,
                Key::Space,
                Key::Enter,
                Key::Escape,
                Key::KeyPadEnter,
                Key::A,
                Key::C,
                Key::V,
                Key::X,
                Key::Y,
                Key::Z,
            ],
    {
        [
            Key::Tab,
            Key::LeftArrow,
            Key::RightArrow,
            Key::UpArrow,
            Key::DownArrow,
            Key::PageUp,
            Key::PageDown,
            Key::Home,
            Key::End,
            Key::Insert,
            Key::Delete,
            Key::Backspace,
            Key::Space,
            Key::Enter,
            Key::Escape,
            Key::KeyPadEnter,
            Key::A,
            Key::C,
            Key::V,
            Key::X,
            Key::Y,
            Key::Z,
        ]
    }
}

/// Target widget selection for keyboard focus.
#[derive(Copy, Clone, Eq, PartialEq, Structural, Debug)]
pub enum FocusedWidget {
    /// The previous widget.
    Previous,
    /// The next widget.
    Next,
    /// A widget at a relative positive offset (0 is the next widget).
    ///
    /// Use this to access sub-components of a multi-component widget.
    Offset(u32),
}

} // verus!
