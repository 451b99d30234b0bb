//! The kinds of paired begin/end scopes and push/pop stacks, the error
//! reported on an out-of-order release, and the laws of the scope
//! stack.
//!
//! Every paired backend operation must be released exactly once, in
//! reverse order of creation. The frame session keeps one combined
//! stack of open scopes; the laws below state that a matched pair is
//! state-neutral and that a release out of nesting order is rejected
//! before it can execute.

use vstd::prelude::*;

verus! {

/// One kind of paired begin/end scope of the backend. Each open scope
/// must be ended in reverse order of creation.
#[derive(Copy, Clone, Eq, PartialEq, Structural, Debug)]
pub enum ScopeKind {
    Window,
    ChildWindow,
    Group,
    Popup,
    Tooltip,
    Disabled,
    ComboBox,
    ListBox,
    Menu,
    MenuBar,
    MainMenuBar,
    TabBar,
    TabItem,
    Table,
    TreeNode,
    ChannelSplit,
}

/// A temporary change in item flags.
#[derive(Copy, Clone, Eq, PartialEq, Structural, Debug)]
pub enum ItemFlag {
    /// Allow the next widgets to take keyboard focus.
    AllowKeyboardFocus(bool),
    /// Let a held button repeat its activation.
    ButtonRepeat(bool),
}

/// The error reported when a stack token is released out of order: the
/// release is rejected before the mismatched backend pop could execute.
#[derive(Copy, Clone, Eq, PartialEq, Structural, Debug)]
pub struct StackOrderError {}

impl StackOrderError {
    /// A description of the misuse, for diagnostics.
    pub fn message(&self) -> &'static str {
        "a stack token was released out of order; the matching scope or push is not the most recent open one"
    }
}

/// Whether a parameter-stack token created at depth `index` may pop
/// now: exactly when its push is the most recent one still open on its
/// stack.
pub open spec fn stack_can_pop(depth: int, index: int) -> bool {
    index + 1 == depth
}

/// A matched push/pop pair on one parameter stack is state-neutral,
/// and with two pushes open, the outer token cannot pop before the
/// inner one: the mismatched pop is rejected.
pub proof fn lemma_stack_pair_neutral(depth: int)
    ensures
        stack_can_pop(depth + 1, depth),
        !stack_can_pop(depth + 2, depth),
        stack_can_pop(depth + 2, depth + 1),
{
}

/// Whether a token of kind `kind`, created at depth `depth`, may end
/// now: exactly when its scope is the most recently opened one still
/// open.
pub open spec fn scope_can_end(scopes: Seq<ScopeKind>, kind: ScopeKind, depth: int) -> bool {
    scopes.len() == depth + 1 && scopes.len() > 0 && scopes.last() == kind
}

/// A matched begin/end pair of any scope kind is state-neutral: after
/// the end, the open-scope stack is exactly what it was before the
/// begin.
pub proof fn lemma_scope_round_trip(scopes: Seq<ScopeKind>, kind: ScopeKind)
    ensures
        scope_can_end(scopes.push(kind), kind, scopes.len() as int),
        scopes.push(kind).drop_last() =~= scopes,
{
}

/// Any block of begins, of any kinds, ended in exact reverse order of
/// creation: every end in that order is accepted, each one undoes
/// exactly the matching begin, and after the outermost end the stack
/// is exactly what it was before the first begin.
pub proof fn lemma_nested_block_neutral(scopes: Seq<ScopeKind>, block: Seq<ScopeKind>)
    ensures
        forall|i: int|
            0 <= i < block.len() ==> scope_can_end(
                scopes + #[trigger] block.take(i + 1),
                block[i],
                scopes.len() + i,
            ),
        forall|i: int|
            0 <= i < block.len() ==> (scopes + #[trigger] block.take(i + 1)).drop_last() =~= scopes
                + block.take(i),
        (scopes + block.take(0)) =~= scopes,
{
    assert forall|i: int| 0 <= i < block.len() implies scope_can_end(
        scopes + #[trigger] block.take(i + 1),
        block[i],
        scopes.len() + i,
    ) by {
        assert((scopes + block.take(i + 1)).len() == scopes.len() + i + 1);
        assert((scopes + block.take(i + 1)).last() == block[i]);
    }
    assert forall|i: int| 0 <= i < block.len() implies (scopes + #[trigger] block.take(
        i + 1,
    )).drop_last() =~= scopes + block.take(i) by {}
}

/// Strict nesting of two scopes: after beginning an outer and an inner
/// scope, the inner one must end first — ending it restores the stack
/// to the point after the outer begin, and ending the outer one then
/// restores the original stack — while ending the outer scope before
/// the inner one is rejected.
pub proof fn lemma_scope_nesting(scopes: Seq<ScopeKind>, outer: ScopeKind, inner: ScopeKind)
    ensures
        scope_can_end(scopes.push(outer).push(inner), inner, scopes.len() as int + 1),
        scopes.push(outer).push(inner).drop_last() =~= scopes.push(outer),
        scope_can_end(scopes.push(outer), outer, scopes.len() as int),
        scopes.push(outer).drop_last() =~= scopes,
        !scope_can_end(scopes.push(outer).push(inner), outer, scopes.len() as int),
{
}

} // verus!
