//! Menus, menu bars and menu items.

use crate::session::{ScopeToken, Ui};
use crate::stacks::{scope_can_end, ScopeKind, StackOrderError};
use vstd::prelude::*;

verus! {

/// Builder for a menu item.
#[must_use]
pub struct MenuItem {
    label: String,
    shortcut: Option<String>,
    selected: bool,
    enabled: bool,
}

impl MenuItem {
    /// The menu item's label.
    pub closed spec fn label_view(&self) -> Seq<char> {
        self.label@
    }

    /// The shortcut displayed next to the label, if one was set.
    pub closed spec fn shortcut_view(&self) -> Option<Seq<char>> {
        match self.shortcut {
            Some(s) => Some(s@),
            None => None,
        }
    }

    /// Whether the item is drawn selected.
    pub closed spec fn selected_spec(&self) -> bool {
        self.selected
    }

    /// Whether the item is enabled.
    pub closed spec fn enabled_spec(&self) -> bool {
        self.enabled
    }

    /// Constructs a new menu item builder: not selected, enabled.
    pub fn new(label: String) -> (m: MenuItem)
        ensures
            m.label_view() == label@,
            m.shortcut_view() is None,
            !m.selected_spec(),
            m.enabled_spec(),
    {
        MenuItem { label, shortcut: None, selected: false, enabled: true }
    }

    /// Sets the menu item shortcut. Shortcuts are displayed for
    /// convenience only and are not automatically handled.
    pub fn shortcut(self, shortcut: String) -> (m: MenuItem)
        ensures
            m.label_view() == self.label_view(),
            m.shortcut_view() == Some(shortcut@),
            m.selected_spec() == self.selected_spec(),
            m.enabled_spec() == self.enabled_spec(),
    {
        MenuItem { shortcut: Some(shortcut), ..self }
    }

    /// Sets the selected state of the menu item.
    pub fn selected(self, selected: bool) -> (m: MenuItem)
        ensures
            m.label_view() == self.label_view(),
            m.shortcut_view() == self.shortcut_view(),
            m.selected_spec() == selected,
            m.enabled_spec() == self.enabled_spec(),
    {
        MenuItem { selected, ..self }
    }

    /// Enables or disables the menu item.
    pub fn enabled(self, enabled: bool) -> (m: MenuItem)
        ensures
            m.label_view() == self.label_view(),
            m.shortcut_view() == self.shortcut_view(),
            m.selected_spec() == self.selected_spec(),
            m.enabled_spec() == enabled,
    {
        MenuItem { enabled, ..self }
    }
}


/// Tracks an open menu scope; must be ended, in reverse order of
/// creation relative to every other open scope, by calling `end`.
#[must_use]
pub struct MenuToken {
    token: ScopeToken,
}

impl MenuToken {
    /// The number of scopes that were open when the scope began.
    pub closed spec fn depth(&self) -> int {
        self.token.depth()
    }

    /// The token closes a menu scope.
    pub closed spec fn wf(&self) -> bool {
        self.token.kind() == ScopeKind::Menu
    }

    /// Ends the menu scope; rejected, changing nothing, unless it is
    /// the most recently opened scope still open.
    pub fn end(self, ui: &mut Ui) -> (r: Result<(), StackOrderError>)
        requires
            self.wf(),
        ensures
            r is Ok <==> scope_can_end(old(ui).scopes_view(), ScopeKind::Menu, self.depth()),
            r is Ok ==> final(ui).scopes_view() =~= old(ui).scopes_view().drop_last(),
            r is Err ==> *final(ui) == *old(ui),
            crate::session::same_identity(old(ui), final(ui)),
            crate::session::same_arena(old(ui), final(ui)),
            crate::session::same_depths(old(ui), final(ui)),
            crate::session::same_surfaces(old(ui), final(ui)),
    {
        ui.end_scope(self.token)
    }
}

/// Tracks an open menu bar scope; must be ended, in reverse order of
/// creation relative to every other open scope, by calling `end`.
#[must_use]
pub struct MenuBarToken {
    token: ScopeToken,
}

impl MenuBarToken {
    /// The number of scopes that were open when the scope began.
    pub closed spec fn depth(&self) -> int {
        self.token.depth()
    }

    /// The token closes a menu bar scope.
    pub closed spec fn wf(&self) -> bool {
        self.token.kind() == ScopeKind::MenuBar
    }

    /// Ends the menu bar scope; rejected, changing nothing, unless it is
    /// the most recently opened scope still open.
    pub fn end(self, ui: &mut Ui) -> (r: Result<(), StackOrderError>)
        requires
            self.wf(),
        ensures
            r is Ok <==> scope_can_end(old(ui).scopes_view(), ScopeKind::MenuBar, self.depth()),
            r is Ok ==> final(ui).scopes_view() =~= old(ui).scopes_view().drop_last(),
            r is Err ==> *final(ui) == *old(ui),
            crate::session::same_identity(old(ui), final(ui)),
            crate::session::same_arena(old(ui), final(ui)),
            crate::session::same_depths(old(ui), final(ui)),
            crate::session::same_surfaces(old(ui), final(ui)),
    {
        ui.end_scope(self.token)
    }
}

/// Tracks an open main menu bar scope; must be ended, in reverse order of
/// creation relative to every other open scope, by calling `end`.
#[must_use]
pub struct MainMenuBarToken {
    token: ScopeToken,
}

impl MainMenuBarToken {
    /// The number of scopes that were open when the scope began.
    pub closed spec fn depth(&self) -> int {
        self.token.depth()
    }

    /// The token closes a main menu bar scope.
    pub closed spec fn wf(&self) -> bool {
        self.token.kind() == ScopeKind::MainMenuBar
    }

    /// Ends the main menu bar scope; rejected, changing nothing, unless it is
    /// the most recently opened scope still open.
    pub fn end(self, ui: &mut Ui) -> (r: Result<(), StackOrderError>)
        requires
            self.wf(),
        ensures
            r is Ok <==> scope_can_end(old(ui).scopes_view(), ScopeKind::MainMenuBar, self.depth()),
            r is Ok ==> final(ui).scopes_view() =~= old(ui).scopes_view().drop_last(),
            r is Err ==> *final(ui) == *old(ui),
            crate::session::same_identity(old(ui), final(ui)),
            crate::session::same_arena(old(ui), final(ui)),
            crate::session::same_depths(old(ui), final(ui)),
            crate::session::same_surfaces(old(ui), final(ui)),
    {
        ui.end_scope(self.token)
    }
}

impl Ui {

    /// Begins a menu scope and returns the token that must end it.
    pub fn begin_menu(&mut self, label: &str) -> (t: MenuToken)
        ensures
            t.wf(),
            t.depth() == old(self).scopes_view().len(),
            final(self).scopes_view() =~= old(self).scopes_view().push(ScopeKind::Menu),
            crate::session::same_identity(old(self), final(self)),
            crate::session::same_arena(old(self), final(self)),
            crate::session::same_depths(old(self), final(self)),
            crate::session::same_surfaces(old(self), final(self)),
    {
        let _ = label;
        MenuToken { token: self.begin_scope(ScopeKind::Menu) }
    }

    /// Begins a menu bar (of the current window) scope and returns the token that must end it.
    pub fn begin_menu_bar(&mut self) -> (t: MenuBarToken)
        ensures
            t.wf(),
            t.depth() == old(self).scopes_view().len(),
            final(self).scopes_view() =~= old(self).scopes_view().push(ScopeKind::MenuBar),
            crate::session::same_identity(old(self), final(self)),
            crate::session::same_arena(old(self), final(self)),
            crate::session::same_depths(old(self), final(self)),
            crate::session::same_surfaces(old(self), final(self)),
    {
        MenuBarToken { token: self.begin_scope(ScopeKind::MenuBar) }
    }

    /// Begins a main (screen-wide) menu bar scope and returns the token that must end it.
    pub fn begin_main_menu_bar(&mut self) -> (t: MainMenuBarToken)
        ensures
            t.wf(),
            t.depth() == old(self).scopes_view().len(),
            final(self).scopes_view() =~= old(self).scopes_view().push(ScopeKind::MainMenuBar),
            crate::session::same_identity(old(self), final(self)),
            crate::session::same_arena(old(self), final(self)),
            crate::session::same_depths(old(self), final(self)),
            crate::session::same_surfaces(old(self), final(self)),
    {
        MainMenuBarToken { token: self.begin_scope(ScopeKind::MainMenuBar) }
    }
}

} // verus!
