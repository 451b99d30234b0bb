//! List box widgets.

use crate::session::{ScopeToken, Ui};
use crate::stacks::{scope_can_end, ScopeKind, StackOrderError};
use vstd::prelude::*;

verus! {

/// Tracks an open list box scope; must be ended, in reverse order of
/// creation relative to every other open scope, by calling `end`.
#[must_use]
pub struct ListBoxToken {
    token: ScopeToken,
}

impl ListBoxToken {
    /// The number of scopes that were open when the scope began.
    pub closed spec fn depth(&self) -> int {
        self.token.depth()
    }

    /// The token closes a list box scope.
    pub closed spec fn wf(&self) -> bool {
        self.token.kind() == ScopeKind::ListBox
    }

    /// Ends the list box scope; rejected, changing nothing, unless it
    /// is the most recently opened scope still open.
    pub fn end(self, ui: &mut Ui) -> (r: Result<(), StackOrderError>)
        requires
            self.wf(),
        ensures
            r is Ok <==> scope_can_end(old(ui).scopes_view(), ScopeKind::ListBox, self.depth()),
            r is Ok ==> final(ui).scopes_view() =~= old(ui).scopes_view().drop_last(),
            r is Err ==> *final(ui) == *old(ui),
            crate::session::same_identity(old(ui), final(ui)),
            crate::session::same_arena(old(ui), final(ui)),
            crate::session::same_depths(old(ui), final(ui)),
            crate::session::same_surfaces(old(ui), final(ui)),
    {
        ui.end_scope(self.token)
    }
}

/// Builder for a list box widget. The size parameters are
/// floating-point and cross to the backend directly.
#[must_use]
pub struct ListBox {
    label: String,
}

impl ListBox {
    /// The list box's label.
    pub closed spec fn label_view(&self) -> Seq<char> {
        self.label@
    }

    /// Constructs a new list box builder.
    pub fn new(label: String) -> (b: ListBox)
        ensures
            b.label_view() == label@,
    {
        ListBox { label }
    }

    /// Opens the list box scope and returns the token that must end
    /// it.
    pub fn begin(self, ui: &mut Ui) -> (t: ListBoxToken)
        ensures
            t.wf(),
            t.depth() == old(ui).scopes_view().len(),
            final(ui).scopes_view() =~= old(ui).scopes_view().push(ScopeKind::ListBox),
            crate::session::same_identity(old(ui), final(ui)),
            crate::session::same_arena(old(ui), final(ui)),
            crate::session::same_depths(old(ui), final(ui)),
            crate::session::same_surfaces(old(ui), final(ui)),
    {
        ListBoxToken { token: ui.begin_scope(ScopeKind::ListBox) }
    }
}

} // verus!
