//! Tooltip and disabled-region scopes.

use crate::session::{ScopeToken, Ui};
use crate::stacks::{scope_can_end, ScopeKind, StackOrderError};
use vstd::prelude::*;

verus! {

/// Tracks an open tooltip scope; must be ended, in reverse order of
/// creation relative to every other open scope, by calling `end`.
#[must_use]
pub struct TooltipToken {
    token: ScopeToken,
}

impl TooltipToken {
    /// The number of scopes that were open when the scope began.
    pub closed spec fn depth(&self) -> int {
        self.token.depth()
    }

    /// The token closes a tooltip scope.
    pub closed spec fn wf(&self) -> bool {
        self.token.kind() == ScopeKind::Tooltip
    }

    /// Ends the tooltip scope; rejected, changing nothing, unless it is
    /// the most recently opened scope still open.
    pub fn end(self, ui: &mut Ui) -> (r: Result<(), StackOrderError>)
        requires
            self.wf(),
        ensures
            r is Ok <==> scope_can_end(old(ui).scopes_view(), ScopeKind::Tooltip, self.depth()),
            r is Ok ==> final(ui).scopes_view() =~= old(ui).scopes_view().drop_last(),
            r is Err ==> *final(ui) == *old(ui),
            crate::session::same_identity(old(ui), final(ui)),
            crate::session::same_arena(old(ui), final(ui)),
            crate::session::same_depths(old(ui), final(ui)),
            crate::session::same_surfaces(old(ui), final(ui)),
    {
        ui.end_scope(self.token)
    }
}

/// Tracks an open disabled-region scope; must be ended, in reverse order of
/// creation relative to every other open scope, by calling `end`.
#[must_use]
pub struct DisabledToken {
    token: ScopeToken,
}

impl DisabledToken {
    /// The number of scopes that were open when the scope began.
    pub closed spec fn depth(&self) -> int {
        self.token.depth()
    }

    /// The token closes a disabled-region scope.
    pub closed spec fn wf(&self) -> bool {
        self.token.kind() == ScopeKind::Disabled
    }

    /// Ends the disabled-region scope; rejected, changing nothing, unless it is
    /// the most recently opened scope still open.
    pub fn end(self, ui: &mut Ui) -> (r: Result<(), StackOrderError>)
        requires
            self.wf(),
        ensures
            r is Ok <==> scope_can_end(old(ui).scopes_view(), ScopeKind::Disabled, self.depth()),
            r is Ok ==> final(ui).scopes_view() =~= old(ui).scopes_view().drop_last(),
            r is Err ==> *final(ui) == *old(ui),
            crate::session::same_identity(old(ui), final(ui)),
            crate::session::same_arena(old(ui), final(ui)),
            crate::session::same_depths(old(ui), final(ui)),
            crate::session::same_surfaces(old(ui), final(ui)),
    {
        ui.end_scope(self.token)
    }
}

impl Ui {
    /// Begins a tooltip window that follows the mouse cursor.
    pub fn begin_tooltip(&mut self) -> (t: TooltipToken)
        ensures
            t.wf(),
            t.depth() == old(self).scopes_view().len(),
            final(self).scopes_view() =~= old(self).scopes_view().push(ScopeKind::Tooltip),
            crate::session::same_identity(old(self), final(self)),
            crate::session::same_arena(old(self), final(self)),
            crate::session::same_depths(old(self), final(self)),
            crate::session::same_surfaces(old(self), final(self)),
    {
        TooltipToken { token: self.begin_scope(ScopeKind::Tooltip) }
    }

    /// Begins a region in which interaction is disabled when
    /// `disabled` is true.
    pub fn begin_disabled(&mut self, disabled: bool) -> (t: DisabledToken)
        ensures
            t.wf(),
            t.depth() == old(self).scopes_view().len(),
            final(self).scopes_view() =~= old(self).scopes_view().push(ScopeKind::Disabled),
            crate::session::same_identity(old(self), final(self)),
            crate::session::same_arena(old(self), final(self)),
            crate::session::same_depths(old(self), final(self)),
            crate::session::same_surfaces(old(self), final(self)),
    {
        let _ = disabled;
        DisabledToken { token: self.begin_scope(ScopeKind::Disabled) }
    }

    /// Begins a region in which interaction is disabled when `enabled`
    /// is false.
    pub fn begin_enabled(&mut self, enabled: bool) -> (t: DisabledToken)
        ensures
            t.wf(),
            t.depth() == old(self).scopes_view().len(),
            final(self).scopes_view() =~= old(self).scopes_view().push(ScopeKind::Disabled),
            crate::session::same_identity(old(self), final(self)),
            crate::session::same_arena(old(self), final(self)),
            crate::session::same_depths(old(self), final(self)),
            crate::session::same_surfaces(old(self), final(self)),
    {
        self.begin_disabled(!enabled)
    }
}

} // verus!
