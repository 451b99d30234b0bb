//! A safe, verified session and handle layer over a single-instance,
//! globally mutable, immediate-mode UI backend.
//!
//! The backend itself (widget rendering, platform glue) is an external
//! collaborator; this crate models the state that layer must keep
//! consistent — which context is active, which scopes and parameter
//! stacks are open, which draw surfaces are handed out, and the scratch
//! text arena that feeds C-string parameters to the backend — and
//! proves the invariants that make the layer safe to use:
//!
//! - at most one context is active process-wide, across any sequence
//!   of create / suspend / activate / destroy operations;
//! - every paired begin/end and push/pop operation is released exactly
//!   once, in reverse order of creation, and a release out of order is
//!   rejected before it can execute;
//! - at most one live handle exists per draw-surface kind;
//! - the scratch text arena hands out NUL-terminated records that read
//!   back exactly as C strings.

pub mod clipboard;
pub mod color;
pub mod color_editors;
pub mod combo_box;
pub mod context;
pub mod drag_drop;
pub mod draw_list;
pub mod fonts;
pub mod glyph_ranges;
pub mod imhex_api;
pub mod input_widget;
pub mod keyboard;
pub mod layout;
pub mod list_box;
pub mod menu;
pub mod misc;
pub mod mouse;
pub mod popups;
pub mod renderer;
pub mod session;
pub mod slider;
pub mod stacks;
pub mod string;
pub mod style;
pub mod tab;
pub mod tables;
pub mod tree;
pub mod window;

pub use color::{ImColor32, ImColor32Fields};
pub use context::{
    AlreadyActiveError, Context, ContextHub, ContextRef, SharedFontAtlas, SuspendedContext,
};
pub use draw_list::{DrawListMut, SurfaceInUseError, SurfaceKind};
pub use fonts::{FontAtlas, FontId};
pub use glyph_ranges::{FontGlyphRanges, GlyphRangeError};
pub use session::{
    ColorStackToken, DrawData, FontStackToken, FrameLeakError, Id, IdStackToken,
    ItemFlagsStackToken, ItemWidthStackToken, MultiColorStackToken, MultiStyleStackToken,
    ScopeToken, StyleStackToken, TextWrapPosStackToken, Ui,
};
pub use renderer::{TextureId, Textures};
pub use stacks::{ItemFlag, ScopeKind, StackOrderError};
pub use string::{ImString, UiBuffer};
pub use style::{StyleColor, StyleVar};

use vstd::prelude::*;

verus! {

/// The version of the wrapped UI backend this layer targets.
pub fn dear_imgui_version() -> &'static str {
    "1.81"
}

/// Condition for applying a setting.
#[derive(Copy, Clone, Eq, PartialEq, Structural, Debug)]
pub enum Condition {
    /// Never apply the setting.
    Never,
    /// Always apply the setting.
    Always,
    /// Apply the setting once per runtime session (only the first call
    /// will succeed).
    Once,
    /// Apply the setting if the object/window has no persistently
    /// saved data.
    FirstUseEver,
    /// Apply the setting if the object/window is appearing after being
    /// hidden or inactive.
    Appearing,
}

impl Condition {
    /// The numeric value the backend uses for the condition.
    pub fn value(self) -> (r: i8)
        ensures
            self is Never ==> r == -1,
            self is Always ==> r == 1,
            self is Once ==> r == 2,
            self is FirstUseEver ==> r == 4,
            self is Appearing ==> r == 8,
    {
        match self {
            Condition::Never => -1,
            Condition::Always => 1,
            Condition::Once => 2,
            Condition::FirstUseEver => 4,
            Condition::Appearing => 8,
        }
    }
}

/// A cardinal direction.
#[derive(Copy, Clone, Eq, PartialEq, Structural, Debug)]
pub enum Direction {
    /// No direction.
    NoDirection,
    Left,
    Right,
    Up,
    Down,
}

impl Direction {
    /// The numeric value the backend uses for the direction.
    pub fn value(self) -> (r: i32)
        ensures
            self is NoDirection ==> r == -1,
            self is Left ==> r == 0,
            self is Right ==> r == 1,
            self is Up ==> r == 2,
            self is Down ==> r == 3,
    {
        match self {
            Direction::NoDirection => -1,
            Direction::Left => 0,
            Direction::Right => 1,
            Direction::Up => 2,
            Direction::Down => 3,
        }
    }
}

} // verus!
