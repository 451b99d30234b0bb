//! Layout scopes: grouping widgets into one logical item.

use crate::session::{ScopeToken, Ui};
use crate::stacks::{scope_can_end, ScopeKind, StackOrderError};
use vstd::prelude::*;

verus! {

/// Tracks an open group scope; must be ended, in reverse order of
/// creation relative to every other open scope, by calling `end`.
#[must_use]
pub struct GroupToken {
    token: ScopeToken,
}

impl GroupToken {
    /// The number of scopes that were open when the scope began.
    pub closed spec fn depth(&self) -> int {
        self.token.depth()
    }

    /// The token closes a group scope.
    pub closed spec fn wf(&self) -> bool {
        self.token.kind() == ScopeKind::Group
    }

    /// Ends the group scope; rejected, changing nothing, unless it is
    /// the most recently opened scope still open.
    pub fn end(self, ui: &mut Ui) -> (r: Result<(), StackOrderError>)
        requires
            self.wf(),
        ensures
            r is Ok <==> scope_can_end(old(ui).scopes_view(), ScopeKind::Group, self.depth()),
            r is Ok ==> final(ui).scopes_view() =~= old(ui).scopes_view().drop_last(),
            r is Err ==> *final(ui) == *old(ui),
            crate::session::same_identity(old(ui), final(ui)),
            crate::session::same_arena(old(ui), final(ui)),
            crate::session::same_depths(old(ui), final(ui)),
            crate::session::same_surfaces(old(ui), final(ui)),
    {
        ui.end_scope(self.token)
    }
}

impl Ui {
    /// Locks the horizontal starting position and groups the following
    /// widgets into one logical item.
    pub fn begin_group(&mut self) -> (t: GroupToken)
        ensures
            t.wf(),
            t.depth() == old(self).scopes_view().len(),
            final(self).scopes_view() =~= old(self).scopes_view().push(ScopeKind::Group),
            crate::session::same_identity(old(self), final(self)),
            crate::session::same_arena(old(self), final(self)),
            crate::session::same_depths(old(self), final(self)),
            crate::session::same_surfaces(old(self), final(self)),
    {
        GroupToken { token: self.begin_scope(ScopeKind::Group) }
    }
}

} // verus!
