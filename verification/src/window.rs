//! Window flags and the window scope.

use crate::session::{ScopeToken, Ui};
use crate::stacks::{scope_can_end, ScopeKind, StackOrderError};
use vstd::prelude::*;

verus! {

/// Show no title bar.
pub const WINDOW_FLAGS_NO_TITLE_BAR: u32 = 0x1;

/// Disable resizing with the lower-right grip.
pub const WINDOW_FLAGS_NO_RESIZE: u32 = 0x2;

/// Disable moving the window.
pub const WINDOW_FLAGS_NO_MOVE: u32 = 0x4;

/// Show no scrollbars.
pub const WINDOW_FLAGS_NO_SCROLLBAR: u32 = 0x8;

/// Disable vertical scrolling with the mouse wheel.
pub const WINDOW_FLAGS_NO_SCROLL_WITH_MOUSE: u32 = 0x10;

/// Disable collapsing by double-clicking the title bar.
pub const WINDOW_FLAGS_NO_COLLAPSE: u32 = 0x20;

/// Resize the window to its content every frame.
pub const WINDOW_FLAGS_ALWAYS_AUTO_RESIZE: u32 = 0x40;

/// Draw no background color or outside border.
pub const WINDOW_FLAGS_NO_BACKGROUND: u32 = 0x80;

/// Never load or save settings in the ini file.
pub const WINDOW_FLAGS_NO_SAVED_SETTINGS: u32 = 0x100;

/// Disable catching mouse input.
pub const WINDOW_FLAGS_NO_MOUSE_INPUTS: u32 = 0x200;

/// The window has a menu bar.
pub const WINDOW_FLAGS_MENU_BAR: u32 = 0x400;

/// Allow a horizontal scrollbar to appear.
pub const WINDOW_FLAGS_HORIZONTAL_SCROLLBAR: u32 = 0x800;

/// Disable taking focus when transitioning from hidden to visible.
pub const WINDOW_FLAGS_NO_FOCUS_ON_APPEARING: u32 = 0x1000;

/// Disable bringing the window to the front on focus.
pub const WINDOW_FLAGS_NO_BRING_TO_FRONT_ON_FOCUS: u32 = 0x2000;

/// Always show the vertical scrollbar.
pub const WINDOW_FLAGS_ALWAYS_VERTICAL_SCROLLBAR: u32 = 0x4000;

/// Always show the horizontal scrollbar.
pub const WINDOW_FLAGS_ALWAYS_HORIZONTAL_SCROLLBAR: u32 = 0x8000;

/// Always use the window padding style even for borderless children.
pub const WINDOW_FLAGS_ALWAYS_USE_WINDOW_PADDING: u32 = 0x10000;

/// Disable gamepad/keyboard navigation within the window.
pub const WINDOW_FLAGS_NO_NAV_INPUTS: u32 = 0x40000;

/// Disable focusing the window with gamepad/keyboard navigation.
pub const WINDOW_FLAGS_NO_NAV_FOCUS: u32 = 0x80000;

/// Disable gamepad/keyboard navigation and focusing.
pub const WINDOW_FLAGS_NO_NAV: u32 = 0xC0000;

/// Disable all mouse, gamepad and keyboard input.
pub const WINDOW_FLAGS_NO_INPUTS: u32 = 0xC0200;

/// A set of window flags, as handed to the backend when a window-like
/// scope begins.
#[derive(Copy, Clone, Eq, PartialEq, Structural, Debug)]
pub struct WindowFlags {
    /// The raw flag bits.
    pub bits: u32,
}

impl WindowFlags {
    /// No flag set.
    pub fn empty() -> (f: WindowFlags)
        ensures
            f.bits == 0,
    {
        WindowFlags { bits: 0 }
    }

    /// The flags with exactly the given bits.
    pub fn from_bits(bits: u32) -> (f: WindowFlags)
        ensures
            f.bits == bits,
    {
        WindowFlags { bits }
    }

    /// Sets or clears the bits of `mask`.
    pub fn set(&mut self, mask: u32, value: bool)
        ensures
            final(self).bits == if value {
                old(self).bits | mask
            } else {
                old(self).bits & !mask
            },
    {
        if value {
            self.bits = self.bits | mask;
        } else {
            self.bits = self.bits & !mask;
        }
    }

    /// Returns whether all bits of `mask` are set.
    pub fn contains(&self, mask: u32) -> (r: bool)
        ensures
            r == (self.bits & mask == mask),
    {
        self.bits & mask == mask
    }
}

impl Default for WindowFlags {
    /// No flag set.
    fn default() -> (f: WindowFlags)
        ensures
            f.bits == 0,
    {
        WindowFlags { bits: 0 }
    }
}

/// Tracks an open window scope; must be ended, in reverse order of
/// creation relative to every other open scope, by calling `end`.
#[must_use]
pub struct WindowToken {
    token: ScopeToken,
}

impl WindowToken {
    /// The number of scopes that were open when the window began.
    pub closed spec fn depth(&self) -> int {
        self.token.depth()
    }

    /// The token closes a window scope.
    pub closed spec fn wf(&self) -> bool {
        self.token.kind() == ScopeKind::Window
    }

    /// Ends the window scope; rejected, changing nothing, unless the
    /// window is the most recently opened scope still open.
    pub fn end(self, ui: &mut Ui) -> (r: Result<(), StackOrderError>)
        requires
            self.wf(),
        ensures
            r is Ok <==> scope_can_end(old(ui).scopes_view(), ScopeKind::Window, self.depth()),
            r is Ok ==> final(ui).scopes_view() =~= old(ui).scopes_view().drop_last(),
            r is Err ==> *final(ui) == *old(ui),
            crate::session::same_identity(old(ui), final(ui)),
            crate::session::same_arena(old(ui), final(ui)),
            crate::session::same_depths(old(ui), final(ui)),
            crate::session::same_surfaces(old(ui), final(ui)),
    {
        ui.end_scope(self.token)
    }
}

/// Builder for a window.
///
/// Position, size and similar floating-point parameters cross to the
/// backend directly; the builder carries the name and flags and opens
/// the window scope.
#[must_use]
pub struct Window {
    name: String,
    flags: WindowFlags,
}

impl Window {
    /// The window's name.
    pub closed spec fn name_view(&self) -> Seq<char> {
        self.name@
    }

    /// The window's flags.
    pub closed spec fn flags_spec(&self) -> WindowFlags {
        self.flags
    }

    /// Constructs a new window builder.
    pub fn new(name: String) -> (w: Window)
        ensures
            w.name_view() == name@,
            w.flags_spec().bits == 0,
    {
        Window { name, flags: WindowFlags { bits: 0 } }
    }

    /// Replaces all current settings with the given flags.
    pub fn flags(self, flags: WindowFlags) -> (w: Window)
        ensures
            w.name_view() == self.name_view(),
            w.flags_spec() == flags,
    {
        Window { name: self.name, flags }
    }

    /// Opens the window scope and returns the token that must end it.
    pub fn begin(self, ui: &mut Ui) -> (t: WindowToken)
        ensures
            t.wf(),
            t.depth() == old(ui).scopes_view().len(),
            final(ui).scopes_view() =~= old(ui).scopes_view().push(ScopeKind::Window),
            crate::session::same_identity(old(ui), final(ui)),
            crate::session::same_arena(old(ui), final(ui)),
            crate::session::same_depths(old(ui), final(ui)),
            crate::session::same_surfaces(old(ui), final(ui)),
    {
        WindowToken { token: ui.begin_scope(ScopeKind::Window) }
    }
}


/// Tracks an open child window scope; must be ended, in reverse order of
/// creation relative to every other open scope, by calling `end`.
#[must_use]
pub struct ChildWindowToken {
    token: ScopeToken,
}

impl ChildWindowToken {
    /// The number of scopes that were open when the scope began.
    pub closed spec fn depth(&self) -> int {
        self.token.depth()
    }

    /// The token closes a child window scope.
    pub closed spec fn wf(&self) -> bool {
        self.token.kind() == ScopeKind::ChildWindow
    }

    /// Ends the child window scope; rejected, changing nothing, unless it is
    /// the most recently opened scope still open.
    pub fn end(self, ui: &mut Ui) -> (r: Result<(), StackOrderError>)
        requires
            self.wf(),
        ensures
            r is Ok <==> scope_can_end(old(ui).scopes_view(), ScopeKind::ChildWindow, self.depth()),
            r is Ok ==> final(ui).scopes_view() =~= old(ui).scopes_view().drop_last(),
            r is Err ==> *final(ui) == *old(ui),
            crate::session::same_identity(old(ui), final(ui)),
            crate::session::same_arena(old(ui), final(ui)),
            crate::session::same_depths(old(ui), final(ui)),
            crate::session::same_surfaces(old(ui), final(ui)),
    {
        ui.end_scope(self.token)
    }
}

impl Ui {

    /// Begins a child window scope and returns the token that must end it.
    pub fn begin_child_window(&mut self, id: &str) -> (t: ChildWindowToken)
        ensures
            t.wf(),
            t.depth() == old(self).scopes_view().len(),
            final(self).scopes_view() =~= old(self).scopes_view().push(ScopeKind::ChildWindow),
            crate::session::same_identity(old(self), final(self)),
            crate::session::same_arena(old(self), final(self)),
            crate::session::same_depths(old(self), final(self)),
            crate::session::same_surfaces(old(self), final(self)),
    {
        let _ = id;
        ChildWindowToken { token: self.begin_scope(ScopeKind::ChildWindow) }
    }
}

} // verus!
