//! Modal popup windows.
//!
//! A modal popup blocks interaction with everything behind it; its
//! builder collects window flags, and beginning it opens a popup
//! scope that must be ended like every other scope.

use crate::session::{ScopeToken, Ui};
use crate::stacks::{scope_can_end, ScopeKind, StackOrderError};
use crate::window::{WindowFlags, WINDOW_FLAGS_ALWAYS_AUTO_RESIZE, WINDOW_FLAGS_ALWAYS_HORIZONTAL_SCROLLBAR, WINDOW_FLAGS_ALWAYS_USE_WINDOW_PADDING, WINDOW_FLAGS_ALWAYS_VERTICAL_SCROLLBAR, WINDOW_FLAGS_HORIZONTAL_SCROLLBAR, WINDOW_FLAGS_MENU_BAR, WINDOW_FLAGS_NO_BRING_TO_FRONT_ON_FOCUS, WINDOW_FLAGS_NO_COLLAPSE, WINDOW_FLAGS_NO_FOCUS_ON_APPEARING, WINDOW_FLAGS_NO_INPUTS, WINDOW_FLAGS_NO_MOVE, WINDOW_FLAGS_NO_RESIZE, WINDOW_FLAGS_NO_SAVED_SETTINGS, WINDOW_FLAGS_NO_SCROLLBAR, WINDOW_FLAGS_NO_SCROLL_WITH_MOUSE, WINDOW_FLAGS_NO_TITLE_BAR};
use vstd::prelude::*;

verus! {

/// Tracks an open popup scope; must be ended, in reverse order of
/// creation relative to every other open scope, by calling `end`.
#[must_use]
pub struct PopupToken {
    token: ScopeToken,
}

impl PopupToken {
    /// The number of scopes that were open when the scope began.
    pub closed spec fn depth(&self) -> int {
        self.token.depth()
    }

    /// The token closes a popup scope.
    pub closed spec fn wf(&self) -> bool {
        self.token.kind() == ScopeKind::Popup
    }

    /// Ends the popup scope; rejected, changing nothing, unless it is
    /// the most recently opened scope still open.
    pub fn end(self, ui: &mut Ui) -> (r: Result<(), StackOrderError>)
        requires
            self.wf(),
        ensures
            r is Ok <==> scope_can_end(old(ui).scopes_view(), ScopeKind::Popup, self.depth()),
            r is Ok ==> final(ui).scopes_view() =~= old(ui).scopes_view().drop_last(),
            r is Err ==> *final(ui) == *old(ui),
            crate::session::same_identity(old(ui), final(ui)),
            crate::session::same_arena(old(ui), final(ui)),
            crate::session::same_depths(old(ui), final(ui)),
            crate::session::same_surfaces(old(ui), final(ui)),
    {
        ui.end_scope(self.token)
    }
}

/// Builder for a modal popup.
#[must_use]
pub struct PopupModal {
    label: String,
    opened: bool,
    flags: WindowFlags,
}

impl PopupModal {
    /// The popup's label.
    pub closed spec fn label_view(&self) -> Seq<char> {
        self.label@
    }

    /// Whether a close button that writes back the open state was
    /// requested.
    pub closed spec fn opened_spec(&self) -> bool {
        self.opened
    }

    /// The window flags the popup begins with.
    pub closed spec fn flags_spec(&self) -> WindowFlags {
        self.flags
    }

    /// The flags as currently set on the builder.
    pub fn current_flags(&self) -> (f: WindowFlags)
        ensures
            f == self.flags_spec(),
    {
        self.flags
    }

    /// Constructs a new modal popup builder.
    pub fn new(label: String) -> (p: PopupModal)
        ensures
            p.label_view() == label@,
            !p.opened_spec(),
            p.flags_spec().bits == 0,
    {
        PopupModal { label, opened: false, flags: WindowFlags { bits: 0 } }
    }

    /// Requests a close button; the backend writes the popup's open
    /// state back through it.
    pub fn opened(self, opened: bool) -> (p: PopupModal)
        ensures
            p.label_view() == self.label_view(),
            p.opened_spec() == opened,
            p.flags_spec() == self.flags_spec(),
    {
        PopupModal { opened, ..self }
    }

    /// Replaces all current settings with the given flags.
    pub fn flags(self, flags: WindowFlags) -> (p: PopupModal)
        ensures
            p.label_view() == self.label_view(),
            p.opened_spec() == self.opened_spec(),
            p.flags_spec() == flags,
    {
        PopupModal { flags, ..self }
    }

    /// Enables or disables the title bar.
    pub fn title_bar(self, value: bool) -> (p: PopupModal)
        ensures
            p.label_view() == self.label_view(),
            p.opened_spec() == self.opened_spec(),
            p.flags_spec().bits == (if value {
                self.flags_spec().bits & !WINDOW_FLAGS_NO_TITLE_BAR
            } else {
                self.flags_spec().bits | WINDOW_FLAGS_NO_TITLE_BAR
            }),
    {
        let mut p = self;
        p.flags.set(WINDOW_FLAGS_NO_TITLE_BAR, !value);
        p
    }

    /// Enables or disables resizing.
    pub fn resizable(self, value: bool) -> (p: PopupModal)
        ensures
            p.label_view() == self.label_view(),
            p.opened_spec() == self.opened_spec(),
            p.flags_spec().bits == (if value {
                self.flags_spec().bits & !WINDOW_FLAGS_NO_RESIZE
            } else {
                self.flags_spec().bits | WINDOW_FLAGS_NO_RESIZE
            }),
    {
        let mut p = self;
        p.flags.set(WINDOW_FLAGS_NO_RESIZE, !value);
        p
    }

    /// Enables or disables moving the popup.
    pub fn movable(self, value: bool) -> (p: PopupModal)
        ensures
            p.label_view() == self.label_view(),
            p.opened_spec() == self.opened_spec(),
            p.flags_spec().bits == (if value {
                self.flags_spec().bits & !WINDOW_FLAGS_NO_MOVE
            } else {
                self.flags_spec().bits | WINDOW_FLAGS_NO_MOVE
            }),
    {
        let mut p = self;
        p.flags.set(WINDOW_FLAGS_NO_MOVE, !value);
        p
    }

    /// Enables or disables scrollbars.
    pub fn scroll_bar(self, value: bool) -> (p: PopupModal)
        ensures
            p.label_view() == self.label_view(),
            p.opened_spec() == self.opened_spec(),
            p.flags_spec().bits == (if value {
                self.flags_spec().bits & !WINDOW_FLAGS_NO_SCROLLBAR
            } else {
                self.flags_spec().bits | WINDOW_FLAGS_NO_SCROLLBAR
            }),
    {
        let mut p = self;
        p.flags.set(WINDOW_FLAGS_NO_SCROLLBAR, !value);
        p
    }

    /// Enables or disables vertical scrolling with the mouse wheel.
    pub fn scrollable(self, value: bool) -> (p: PopupModal)
        ensures
            p.label_view() == self.label_view(),
            p.opened_spec() == self.opened_spec(),
            p.flags_spec().bits == (if value {
                self.flags_spec().bits & !WINDOW_FLAGS_NO_SCROLL_WITH_MOUSE
            } else {
                self.flags_spec().bits | WINDOW_FLAGS_NO_SCROLL_WITH_MOUSE
            }),
    {
        let mut p = self;
        p.flags.set(WINDOW_FLAGS_NO_SCROLL_WITH_MOUSE, !value);
        p
    }

    /// Enables or disables collapsing the popup.
    pub fn collapsible(self, value: bool) -> (p: PopupModal)
        ensures
            p.label_view() == self.label_view(),
            p.opened_spec() == self.opened_spec(),
            p.flags_spec().bits == (if value {
                self.flags_spec().bits & !WINDOW_FLAGS_NO_COLLAPSE
            } else {
                self.flags_spec().bits | WINDOW_FLAGS_NO_COLLAPSE
            }),
    {
        let mut p = self;
        p.flags.set(WINDOW_FLAGS_NO_COLLAPSE, !value);
        p
    }

    /// Enables or disables resizing the popup to its content every frame.
    pub fn always_auto_resize(self, value: bool) -> (p: PopupModal)
        ensures
            p.label_view() == self.label_view(),
            p.opened_spec() == self.opened_spec(),
            p.flags_spec().bits == (if value {
                self.flags_spec().bits | WINDOW_FLAGS_ALWAYS_AUTO_RESIZE
            } else {
                self.flags_spec().bits & !WINDOW_FLAGS_ALWAYS_AUTO_RESIZE
            }),
    {
        let mut p = self;
        p.flags.set(WINDOW_FLAGS_ALWAYS_AUTO_RESIZE, value);
        p
    }

    /// Enables or disables loading and saving of settings.
    pub fn save_settings(self, value: bool) -> (p: PopupModal)
        ensures
            p.label_view() == self.label_view(),
            p.opened_spec() == self.opened_spec(),
            p.flags_spec().bits == (if value {
                self.flags_spec().bits & !WINDOW_FLAGS_NO_SAVED_SETTINGS
            } else {
                self.flags_spec().bits | WINDOW_FLAGS_NO_SAVED_SETTINGS
            }),
    {
        let mut p = self;
        p.flags.set(WINDOW_FLAGS_NO_SAVED_SETTINGS, !value);
        p
    }

    /// Enables or disables catching of mouse, keyboard and gamepad input.
    pub fn inputs(self, value: bool) -> (p: PopupModal)
        ensures
            p.label_view() == self.label_view(),
            p.opened_spec() == self.opened_spec(),
            p.flags_spec().bits == (if value {
                self.flags_spec().bits & !WINDOW_FLAGS_NO_INPUTS
            } else {
                self.flags_spec().bits | WINDOW_FLAGS_NO_INPUTS
            }),
    {
        let mut p = self;
        p.flags.set(WINDOW_FLAGS_NO_INPUTS, !value);
        p
    }

    /// Enables or disables the menu bar.
    pub fn menu_bar(self, value: bool) -> (p: PopupModal)
        ensures
            p.label_view() == self.label_view(),
            p.opened_spec() == self.opened_spec(),
            p.flags_spec().bits == (if value {
                self.flags_spec().bits | WINDOW_FLAGS_MENU_BAR
            } else {
                self.flags_spec().bits & !WINDOW_FLAGS_MENU_BAR
            }),
    {
        let mut p = self;
        p.flags.set(WINDOW_FLAGS_MENU_BAR, value);
        p
    }

    /// Enables or disables the horizontal scrollbar.
    pub fn horizontal_scrollbar(self, value: bool) -> (p: PopupModal)
        ensures
            p.label_view() == self.label_view(),
            p.opened_spec() == self.opened_spec(),
            p.flags_spec().bits == (if value {
                self.flags_spec().bits | WINDOW_FLAGS_HORIZONTAL_SCROLLBAR
            } else {
                self.flags_spec().bits & !WINDOW_FLAGS_HORIZONTAL_SCROLLBAR
            }),
    {
        let mut p = self;
        p.flags.set(WINDOW_FLAGS_HORIZONTAL_SCROLLBAR, value);
        p
    }

    /// Stops the popup from taking focus when transitioning from hidden to visible.
    pub fn no_focus_on_appearing(self, value: bool) -> (p: PopupModal)
        ensures
            p.label_view() == self.label_view(),
            p.opened_spec() == self.opened_spec(),
            p.flags_spec().bits == (if value {
                self.flags_spec().bits | WINDOW_FLAGS_NO_FOCUS_ON_APPEARING
            } else {
                self.flags_spec().bits & !WINDOW_FLAGS_NO_FOCUS_ON_APPEARING
            }),
    {
        let mut p = self;
        p.flags.set(WINDOW_FLAGS_NO_FOCUS_ON_APPEARING, value);
        p
    }

    /// Stops the popup from being brought to the front on focus.
    pub fn no_bring_to_front_on_focus(self, value: bool) -> (p: PopupModal)
        ensures
            p.label_view() == self.label_view(),
            p.opened_spec() == self.opened_spec(),
            p.flags_spec().bits == (if value {
                self.flags_spec().bits | WINDOW_FLAGS_NO_BRING_TO_FRONT_ON_FOCUS
            } else {
                self.flags_spec().bits & !WINDOW_FLAGS_NO_BRING_TO_FRONT_ON_FOCUS
            }),
    {
        let mut p = self;
        p.flags.set(WINDOW_FLAGS_NO_BRING_TO_FRONT_ON_FOCUS, value);
        p
    }

    /// Always shows the vertical scrollbar.
    pub fn always_vertical_scrollbar(self, value: bool) -> (p: PopupModal)
        ensures
            p.label_view() == self.label_view(),
            p.opened_spec() == self.opened_spec(),
            p.flags_spec().bits == (if value {
                self.flags_spec().bits | WINDOW_FLAGS_ALWAYS_VERTICAL_SCROLLBAR
            } else {
                self.flags_spec().bits & !WINDOW_FLAGS_ALWAYS_VERTICAL_SCROLLBAR
            }),
    {
        let mut p = self;
        p.flags.set(WINDOW_FLAGS_ALWAYS_VERTICAL_SCROLLBAR, value);
        p
    }

    /// Always shows the horizontal scrollbar.
    pub fn always_horizontal_scrollbar(self, value: bool) -> (p: PopupModal)
        ensures
            p.label_view() == self.label_view(),
            p.opened_spec() == self.opened_spec(),
            p.flags_spec().bits == (if value {
                self.flags_spec().bits | WINDOW_FLAGS_ALWAYS_HORIZONTAL_SCROLLBAR
            } else {
                self.flags_spec().bits & !WINDOW_FLAGS_ALWAYS_HORIZONTAL_SCROLLBAR
            }),
    {
        let mut p = self;
        p.flags.set(WINDOW_FLAGS_ALWAYS_HORIZONTAL_SCROLLBAR, value);
        p
    }

    /// Always uses the window padding style, even without a border.
    pub fn always_use_window_padding(self, value: bool) -> (p: PopupModal)
        ensures
            p.label_view() == self.label_view(),
            p.opened_spec() == self.opened_spec(),
            p.flags_spec().bits == (if value {
                self.flags_spec().bits | WINDOW_FLAGS_ALWAYS_USE_WINDOW_PADDING
            } else {
                self.flags_spec().bits & !WINDOW_FLAGS_ALWAYS_USE_WINDOW_PADDING
            }),
    {
        let mut p = self;
        p.flags.set(WINDOW_FLAGS_ALWAYS_USE_WINDOW_PADDING, value);
        p
    }

    /// Opens the popup scope and returns the token that must end it.
    /// Whether the backend shows the popup this frame is a native
    /// decision; the scope accounting is the same either way.
    pub fn begin_popup(self, ui: &mut Ui) -> (t: PopupToken)
        ensures
            t.wf(),
            t.depth() == old(ui).scopes_view().len(),
            final(ui).scopes_view() =~= old(ui).scopes_view().push(ScopeKind::Popup),
            crate::session::same_identity(old(ui), final(ui)),
            crate::session::same_arena(old(ui), final(ui)),
            crate::session::same_depths(old(ui), final(ui)),
            crate::session::same_surfaces(old(ui), final(ui)),
    {
        PopupToken { token: ui.begin_scope(ScopeKind::Popup) }
    }
}

} // verus!
