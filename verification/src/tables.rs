//! Tables and their sort specifications.

use crate::session::{ScopeToken, Ui};
use crate::stacks::{scope_can_end, ScopeKind, StackOrderError};
use vstd::prelude::*;

verus! {

/// The direction a table column is sorted in.
#[derive(Copy, Clone, Eq, PartialEq, Structural, Debug)]
pub enum TableSortDirection {
    Ascending,
    Descending,
}

/// The sort specification of one table column, as plain values.
#[derive(Copy, Clone, Eq, PartialEq, Structural, Debug)]
pub struct TableColumnSortSpecs {
    /// User id of the column, if one was given when the column was set
    /// up.
    pub column_user_id: u32,
    /// Index of the column.
    pub column_idx: usize,
    /// Index within the parent specs list where this entry was found.
    pub sort_order: usize,
    /// The sort direction of the column, if it is sorted.
    pub sort_direction: Option<TableSortDirection>,
}

impl TableColumnSortSpecs {
    /// User id of the column (if specified when the column was set
    /// up).
    pub fn column_user_id(&self) -> (r: u32)
        ensures
            r == self.column_user_id,
    {
        self.column_user_id
    }

    /// Index of the column.
    pub fn column_idx(&self) -> (r: usize)
        ensures
            r == self.column_idx,
    {
        self.column_idx
    }

    /// Index within the parent specs list where this entry was found;
    /// tables sorted on a single criterion always have 0 here.
    pub fn sort_order(&self) -> (r: usize)
        ensures
            r == self.sort_order,
    {
        self.sort_order
    }

    /// The sort direction for the column.
    pub fn sort_direction(&self) -> (r: Option<TableSortDirection>)
        ensures
            r == self.sort_direction,
    {
        self.sort_direction
    }
}

/// The sort specifications of a table: one entry per sorted column.
/// The list may be empty with tri-state sorting, may hold more than
/// one entry with multi-column sorting, but generally holds one.
pub struct Specs {
    specs: Vec<TableColumnSortSpecs>,
}

impl Specs {
    /// The entries, in order.
    pub closed spec fn view_spec(&self) -> Seq<TableColumnSortSpecs> {
        self.specs@
    }

    /// Wraps a list of column sort specifications.
    pub fn new(specs: Vec<TableColumnSortSpecs>) -> (r: Specs)
        ensures
            r.view_spec() == specs@,
    {
        Specs { specs }
    }

    /// The entries, in order, for iteration.
    pub fn iter(self) -> (r: Vec<TableColumnSortSpecs>)
        ensures
            r@ == self.view_spec(),
    {
        self.specs
    }
}

/// Tracks an open table scope; must be ended, in reverse order of
/// creation relative to every other open scope, by calling `end`.
#[must_use]
pub struct TableToken {
    token: ScopeToken,
}

impl TableToken {
    /// The number of scopes that were open when the scope began.
    pub closed spec fn depth(&self) -> int {
        self.token.depth()
    }

    /// The token closes a table scope.
    pub closed spec fn wf(&self) -> bool {
        self.token.kind() == ScopeKind::Table
    }

    /// Ends the table scope; rejected, changing nothing, unless it is
    /// the most recently opened scope still open.
    pub fn end(self, ui: &mut Ui) -> (r: Result<(), StackOrderError>)
        requires
            self.wf(),
        ensures
            r is Ok <==> scope_can_end(old(ui).scopes_view(), ScopeKind::Table, self.depth()),
            r is Ok ==> final(ui).scopes_view() =~= old(ui).scopes_view().drop_last(),
            r is Err ==> *final(ui) == *old(ui),
            crate::session::same_identity(old(ui), final(ui)),
            crate::session::same_arena(old(ui), final(ui)),
            crate::session::same_depths(old(ui), final(ui)),
            crate::session::same_surfaces(old(ui), final(ui)),
    {
        ui.end_scope(self.token)
    }
}

impl Ui {
    /// Begins a table with the given identifier and column count and
    /// returns the token that must end it.
    pub fn begin_table(&mut self, str_id: &str, column_count: usize) -> (t: TableToken)
        ensures
            t.wf(),
            t.depth() == old(self).scopes_view().len(),
            final(self).scopes_view() =~= old(self).scopes_view().push(ScopeKind::Table),
            crate::session::same_identity(old(self), final(self)),
            crate::session::same_arena(old(self), final(self)),
            crate::session::same_depths(old(self), final(self)),
            crate::session::same_surfaces(old(self), final(self)),
    {
        let _ = str_id;
        let _ = column_count;
        TableToken { token: self.begin_scope(ScopeKind::Table) }
    }
}

} // verus!
