//! Tab bars and tab items.

use crate::session::{ScopeToken, Ui};
use crate::stacks::{scope_can_end, ScopeKind, StackOrderError};
use vstd::prelude::*;

verus! {
/// Allow manually dragging tabs to re-order them.
pub const TAB_BAR_FLAGS_REORDERABLE: u32 = 0x1;

/// Automatically select new tabs when they appear.
pub const TAB_BAR_FLAGS_AUTO_SELECT_NEW_TABS: u32 = 0x2;

/// Disable buttons to open the tab list popup.
pub const TAB_BAR_FLAGS_TAB_LIST_POPUP_BUTTON: u32 = 0x4;

/// Disable closing tabs with the middle mouse button.
pub const TAB_BAR_FLAGS_NO_CLOSE_WITH_MIDDLE_MOUSE_BUTTON: u32 = 0x8;

/// Disable the scrolling buttons.
pub const TAB_BAR_FLAGS_NO_TAB_LIST_SCROLLING_BUTTONS: u32 = 0x10;

/// Disable tooltips when hovering a tab.
pub const TAB_BAR_FLAGS_NO_TOOLTIP: u32 = 0x20;

/// Resize tabs down when they do not fit.
pub const TAB_BAR_FLAGS_FITTING_POLICY_RESIZE_DOWN: u32 = 0x40;

/// Add scroll buttons when tabs do not fit.
pub const TAB_BAR_FLAGS_FITTING_POLICY_SCROLL: u32 = 0x80;

/// Append the unsaved-document marker to the title.
pub const TAB_ITEM_FLAGS_UNSAVED_DOCUMENT: u32 = 0x1;

/// Select the tab when calling begin.
pub const TAB_ITEM_FLAGS_SET_SELECTED: u32 = 0x2;

/// Disable closing with the middle mouse button.
pub const TAB_ITEM_FLAGS_NO_CLOSE_WITH_MIDDLE_MOUSE_BUTTON: u32 = 0x4;

/// Do not push the tab name onto the ID stack.
pub const TAB_ITEM_FLAGS_NO_PUSH_ID: u32 = 0x8;

/// Disable the tooltip for this tab.
pub const TAB_ITEM_FLAGS_NO_TOOLTIP: u32 = 0x10;

/// Disable reordering this tab.
pub const TAB_ITEM_FLAGS_NO_REORDER: u32 = 0x20;

/// Enforce the tab position to the left of the bar.
pub const TAB_ITEM_FLAGS_LEADING: u32 = 0x40;

/// Enforce the tab position to the right of the bar.
pub const TAB_ITEM_FLAGS_TRAILING: u32 = 0x80;


/// A set of tab bar flags.
#[derive(Copy, Clone, Eq, PartialEq, Structural, Debug)]
pub struct TabBarFlags {
    /// The raw flag bits.
    pub bits: u32,
}

impl TabBarFlags {
    /// No flag set.
    pub fn empty() -> (f: TabBarFlags)
        ensures
            f.bits == 0,
    {
        TabBarFlags { bits: 0 }
    }

    /// The flags with exactly the given bits.
    pub fn from_bits(bits: u32) -> (f: TabBarFlags)
        ensures
            f.bits == bits,
    {
        TabBarFlags { bits }
    }

    /// Sets or clears the bits of `mask`.
    pub fn set(&mut self, mask: u32, value: bool)
        ensures
            final(self).bits == if value {
                old(self).bits | mask
            } else {
                old(self).bits & !mask
            },
    {
        if value {
            self.bits = self.bits | mask;
        } else {
            self.bits = self.bits & !mask;
        }
    }

    /// Returns whether all bits of `mask` are set.
    pub fn contains(&self, mask: u32) -> (r: bool)
        ensures
            r == (self.bits & mask == mask),
    {
        self.bits & mask == mask
    }
}

impl Default for TabBarFlags {
    /// No flag set.
    fn default() -> (f: TabBarFlags)
        ensures
            f.bits == 0,
    {
        TabBarFlags { bits: 0 }
    }
}

/// A set of tab item flags.
#[derive(Copy, Clone, Eq, PartialEq, Structural, Debug)]
pub struct TabItemFlags {
    /// The raw flag bits.
    pub bits: u32,
}

impl TabItemFlags {
    /// No flag set.
    pub fn empty() -> (f: TabItemFlags)
        ensures
            f.bits == 0,
    {
        TabItemFlags { bits: 0 }
    }

    /// The flags with exactly the given bits.
    pub fn from_bits(bits: u32) -> (f: TabItemFlags)
        ensures
            f.bits == bits,
    {
        TabItemFlags { bits }
    }

    /// Sets or clears the bits of `mask`.
    pub fn set(&mut self, mask: u32, value: bool)
        ensures
            final(self).bits == if value {
                old(self).bits | mask
            } else {
                old(self).bits & !mask
            },
    {
        if value {
            self.bits = self.bits | mask;
        } else {
            self.bits = self.bits & !mask;
        }
    }

    /// Returns whether all bits of `mask` are set.
    pub fn contains(&self, mask: u32) -> (r: bool)
        ensures
            r == (self.bits & mask == mask),
    {
        self.bits & mask == mask
    }
}

impl Default for TabItemFlags {
    /// No flag set.
    fn default() -> (f: TabItemFlags)
        ensures
            f.bits == 0,
    {
        TabItemFlags { bits: 0 }
    }
}

/// Tracks an open tab bar scope; must be ended, in reverse order of
/// creation relative to every other open scope, by calling `end`.
#[must_use]
pub struct TabBarToken {
    token: ScopeToken,
}

impl TabBarToken {
    /// The number of scopes that were open when the scope began.
    pub closed spec fn depth(&self) -> int {
        self.token.depth()
    }

    /// The token closes a tab bar scope.
    pub closed spec fn wf(&self) -> bool {
        self.token.kind() == ScopeKind::TabBar
    }

    /// Ends the tab bar scope; rejected, changing nothing, unless it is
    /// the most recently opened scope still open.
    pub fn end(self, ui: &mut Ui) -> (r: Result<(), StackOrderError>)
        requires
            self.wf(),
        ensures
            r is Ok <==> scope_can_end(old(ui).scopes_view(), ScopeKind::TabBar, self.depth()),
            r is Ok ==> final(ui).scopes_view() =~= old(ui).scopes_view().drop_last(),
            r is Err ==> *final(ui) == *old(ui),
            crate::session::same_identity(old(ui), final(ui)),
            crate::session::same_arena(old(ui), final(ui)),
            crate::session::same_depths(old(ui), final(ui)),
            crate::session::same_surfaces(old(ui), final(ui)),
    {
        ui.end_scope(self.token)
    }
}

/// Tracks an open tab item scope; must be ended, in reverse order of
/// creation relative to every other open scope, by calling `end`.
#[must_use]
pub struct TabItemToken {
    token: ScopeToken,
}

impl TabItemToken {
    /// The number of scopes that were open when the scope began.
    pub closed spec fn depth(&self) -> int {
        self.token.depth()
    }

    /// The token closes a tab item scope.
    pub closed spec fn wf(&self) -> bool {
        self.token.kind() == ScopeKind::TabItem
    }

    /// Ends the tab item scope; rejected, changing nothing, unless it is
    /// the most recently opened scope still open.
    pub fn end(self, ui: &mut Ui) -> (r: Result<(), StackOrderError>)
        requires
            self.wf(),
        ensures
            r is Ok <==> scope_can_end(old(ui).scopes_view(), ScopeKind::TabItem, self.depth()),
            r is Ok ==> final(ui).scopes_view() =~= old(ui).scopes_view().drop_last(),
            r is Err ==> *final(ui) == *old(ui),
            crate::session::same_identity(old(ui), final(ui)),
            crate::session::same_arena(old(ui), final(ui)),
            crate::session::same_depths(old(ui), final(ui)),
            crate::session::same_surfaces(old(ui), final(ui)),
    {
        ui.end_scope(self.token)
    }
}

/// Builder for a tab bar.
#[must_use]
pub struct TabBar {
    id: String,
    flags: TabBarFlags,
}

impl TabBar {
    /// The tab bar's identifier.
    pub closed spec fn id_view(&self) -> Seq<char> {
        self.id@
    }

    /// The tab bar's flags.
    pub closed spec fn flags_spec(&self) -> TabBarFlags {
        self.flags
    }

    /// The flags as currently set on the builder.
    pub fn current_flags(&self) -> (f: TabBarFlags)
        ensures
            f == self.flags_spec(),
    {
        self.flags
    }

    /// Constructs a new tab bar builder.
    pub fn new(id: String) -> (b: TabBar)
        ensures
            b.id_view() == id@,
            b.flags_spec().bits == 0,
    {
        TabBar { id, flags: TabBarFlags { bits: 0 } }
    }

    /// Enables or disables the reorderable property.
    pub fn reorderable(self, value: bool) -> (b: TabBar)
        ensures
            b.id_view() == self.id_view(),
            b.flags_spec().bits == (if value {
                self.flags_spec().bits | TAB_BAR_FLAGS_REORDERABLE
            } else {
                self.flags_spec().bits & !TAB_BAR_FLAGS_REORDERABLE
            }),
    {
        let mut b = self;
        b.flags.set(TAB_BAR_FLAGS_REORDERABLE, value);
        b
    }

    /// Replaces all current settings with the given flags.
    pub fn flags(self, flags: TabBarFlags) -> (b: TabBar)
        ensures
            b.id_view() == self.id_view(),
            b.flags_spec() == flags,
    {
        TabBar { flags, ..self }
    }

    /// Opens the tab bar scope and returns the token that must end it.
    pub fn begin(self, ui: &mut Ui) -> (t: TabBarToken)
        ensures
            t.wf(),
            t.depth() == old(ui).scopes_view().len(),
            final(ui).scopes_view() =~= old(ui).scopes_view().push(ScopeKind::TabBar),
            crate::session::same_identity(old(ui), final(ui)),
            crate::session::same_arena(old(ui), final(ui)),
            crate::session::same_depths(old(ui), final(ui)),
            crate::session::same_surfaces(old(ui), final(ui)),
    {
        TabBarToken { token: ui.begin_scope(ScopeKind::TabBar) }
    }
}

/// Builder for a tab item inside a tab bar.
#[must_use]
pub struct TabItem {
    label: String,
    opened: bool,
    flags: TabItemFlags,
}

impl TabItem {
    /// The tab item's label.
    pub closed spec fn label_view(&self) -> Seq<char> {
        self.label@
    }

    /// Whether a close button that writes back the open state was
    /// requested.
    pub closed spec fn opened_spec(&self) -> bool {
        self.opened
    }

    /// The tab item's flags.
    pub closed spec fn flags_spec(&self) -> TabItemFlags {
        self.flags
    }

    /// The flags as currently set on the builder.
    pub fn current_flags(&self) -> (f: TabItemFlags)
        ensures
            f == self.flags_spec(),
    {
        self.flags
    }

    /// Constructs a new tab item builder.
    pub fn new(name: String) -> (b: TabItem)
        ensures
            b.label_view() == name@,
            !b.opened_spec(),
            b.flags_spec().bits == 0,
    {
        TabItem { label: name, opened: false, flags: TabItemFlags { bits: 0 } }
    }

    /// Requests a close button; the backend writes the tab's open
    /// state back through it.
    pub fn opened(self, opened: bool) -> (b: TabItem)
        ensures
            b.label_view() == self.label_view(),
            b.opened_spec() == opened,
            b.flags_spec() == self.flags_spec(),
    {
        TabItem { opened, ..self }
    }

    /// Replaces all current settings with the given flags.
    pub fn flags(self, flags: TabItemFlags) -> (b: TabItem)
        ensures
            b.label_view() == self.label_view(),
            b.opened_spec() == self.opened_spec(),
            b.flags_spec() == flags,
    {
        TabItem { flags, ..self }
    }

    /// Opens the tab item scope and returns the token that must end
    /// it.
    pub fn begin(self, ui: &mut Ui) -> (t: TabItemToken)
        ensures
            t.wf(),
            t.depth() == old(ui).scopes_view().len(),
            final(ui).scopes_view() =~= old(ui).scopes_view().push(ScopeKind::TabItem),
            crate::session::same_identity(old(ui), final(ui)),
            crate::session::same_arena(old(ui), final(ui)),
            crate::session::same_depths(old(ui), final(ui)),
            crate::session::same_surfaces(old(ui), final(ui)),
    {
        TabItemToken { token: ui.begin_scope(ScopeKind::TabItem) }
    }
}

} // verus!
