//! Tree nodes and collapsing headers.

use crate::session::{ScopeToken, Ui};
use crate::stacks::{scope_can_end, ScopeKind, StackOrderError};
use vstd::prelude::*;

verus! {
/// Draw as selected.
pub const TREE_NODE_FLAGS_SELECTED: u32 = 0x1;

/// Draw with a frame.
pub const TREE_NODE_FLAGS_FRAMED: u32 = 0x2;

/// Allow the item to overlap subsequent widgets.
pub const TREE_NODE_FLAGS_ALLOW_ITEM_OVERLAP: u32 = 0x4;

/// Do not push the node onto the ID/indent stacks when open.
pub const TREE_NODE_FLAGS_NO_TREE_PUSH_ON_OPEN: u32 = 0x8;

/// Do not open the node automatically when logging.
pub const TREE_NODE_FLAGS_NO_AUTO_OPEN_ON_LOG: u32 = 0x10;

/// Open by default.
pub const TREE_NODE_FLAGS_DEFAULT_OPEN: u32 = 0x20;

/// Open only on double-click.
pub const TREE_NODE_FLAGS_OPEN_ON_DOUBLE_CLICK: u32 = 0x40;

/// Open only when clicking the arrow.
pub const TREE_NODE_FLAGS_OPEN_ON_ARROW: u32 = 0x80;

/// Leaf mode: no collapsing, no arrow.
pub const TREE_NODE_FLAGS_LEAF: u32 = 0x100;

/// Display a bullet instead of an arrow.
pub const TREE_NODE_FLAGS_BULLET: u32 = 0x200;

/// Vertically align the text baseline to the regular widget height.
pub const TREE_NODE_FLAGS_FRAME_PADDING: u32 = 0x400;

/// Extend the hit box to the right edge of the available area.
pub const TREE_NODE_FLAGS_SPAN_AVAIL_WIDTH: u32 = 0x800;

/// Extend the hit box to the left and right window edges.
pub const TREE_NODE_FLAGS_SPAN_FULL_WIDTH: u32 = 0x1000;

/// Make the left navigation direction jump back here.
pub const TREE_NODE_FLAGS_NAV_LEFT_JUMPS_BACK_HERE: u32 = 0x2000;


/// A set of tree-node flags.
#[derive(Copy, Clone, Eq, PartialEq, Structural, Debug)]
pub struct TreeNodeFlags {
    /// The raw flag bits.
    pub bits: u32,
}

impl TreeNodeFlags {
    /// No flag set.
    pub fn empty() -> (f: TreeNodeFlags)
        ensures
            f.bits == 0,
    {
        TreeNodeFlags { bits: 0 }
    }

    /// The flags with exactly the given bits.
    pub fn from_bits(bits: u32) -> (f: TreeNodeFlags)
        ensures
            f.bits == bits,
    {
        TreeNodeFlags { bits }
    }

    /// Sets or clears the bits of `mask`.
    pub fn set(&mut self, mask: u32, value: bool)
        ensures
            final(self).bits == if value {
                old(self).bits | mask
            } else {
                old(self).bits & !mask
            },
    {
        if value {
            self.bits = self.bits | mask;
        } else {
            self.bits = self.bits & !mask;
        }
    }

    /// Returns whether all bits of `mask` are set.
    pub fn contains(&self, mask: u32) -> (r: bool)
        ensures
            r == (self.bits & mask == mask),
    {
        self.bits & mask == mask
    }
}

impl Default for TreeNodeFlags {
    /// No flag set.
    fn default() -> (f: TreeNodeFlags)
        ensures
            f.bits == 0,
    {
        TreeNodeFlags { bits: 0 }
    }
}

/// Tracks a tree node that was opened with a "push on open" decision
/// recorded at creation time: ending it runs the backend pop exactly
/// when a push actually occurred, and is a true no-op otherwise.
#[must_use]
pub struct TreeNodeToken {
    scope: Option<ScopeToken>,
}

impl TreeNodeToken {
    /// Whether the node actually pushed a scope that must be popped.
    pub closed spec fn pushed(&self) -> bool {
        self.scope is Some
    }

    /// The number of scopes open when the node was begun, when it
    /// pushed one.
    pub closed spec fn depth(&self) -> int {
        self.scope->0.depth()
    }

    /// A pushed token closes a tree-node scope.
    pub closed spec fn wf(&self) -> bool {
        self.scope matches Some(t) ==> t.kind() == ScopeKind::TreeNode
    }

    /// Pops the tree node: a no-op when no push occurred, otherwise
    /// rejected unless the node is the most recently opened scope
    /// still open.
    pub fn pop(self, ui: &mut Ui) -> (r: Result<(), StackOrderError>)
        requires
            self.wf(),
        ensures
            !self.pushed() ==> r is Ok && *final(ui) == *old(ui),
            self.pushed() ==> (r is Ok <==> scope_can_end(
                old(ui).scopes_view(),
                ScopeKind::TreeNode,
                self.depth(),
            )),
            self.pushed() && r is Ok ==> final(ui).scopes_view() =~= old(ui).scopes_view().drop_last(),
            r is Err ==> *final(ui) == *old(ui),
            crate::session::same_identity(old(ui), final(ui)),
            crate::session::same_arena(old(ui), final(ui)),
            crate::session::same_depths(old(ui), final(ui)),
            crate::session::same_surfaces(old(ui), final(ui)),
    {
        match self.scope {
            Some(token) => ui.end_scope(token),
            None => Ok(()),
        }
    }

    /// Same as `pop`.
    pub fn end(self, ui: &mut Ui) -> (r: Result<(), StackOrderError>)
        requires
            self.wf(),
        ensures
            !self.pushed() ==> r is Ok && *final(ui) == *old(ui),
            self.pushed() ==> (r is Ok <==> scope_can_end(
                old(ui).scopes_view(),
                ScopeKind::TreeNode,
                self.depth(),
            )),
            self.pushed() && r is Ok ==> final(ui).scopes_view() =~= old(ui).scopes_view().drop_last(),
            r is Err ==> *final(ui) == *old(ui),
            crate::session::same_identity(old(ui), final(ui)),
            crate::session::same_arena(old(ui), final(ui)),
            crate::session::same_depths(old(ui), final(ui)),
            crate::session::same_surfaces(old(ui), final(ui)),
    {
        self.pop(ui)
    }
}

impl Ui {
    /// Begins a tree node. When `push_on_open` is false — the node was
    /// begun with the "no tree push on open" flag — the returned token
    /// records that its release must be a true no-op.
    pub fn begin_tree_node(&mut self, push_on_open: bool) -> (t: TreeNodeToken)
        ensures
            t.wf(),
            t.pushed() == push_on_open,
            push_on_open ==> t.depth() == old(self).scopes_view().len() && final(self).scopes_view() =~= old(self).scopes_view().push(ScopeKind::TreeNode),
            !push_on_open ==> *final(self) == *old(self),
            crate::session::same_identity(old(self), final(self)),
            crate::session::same_arena(old(self), final(self)),
            crate::session::same_depths(old(self), final(self)),
            crate::session::same_surfaces(old(self), final(self)),
    {
        if push_on_open {
            TreeNodeToken { scope: Some(self.begin_scope(ScopeKind::TreeNode)) }
        } else {
            TreeNodeToken { scope: None }
        }
    }
}

/// Builder for a collapsing header widget.
#[must_use]
pub struct CollapsingHeader {
    label: String,
    flags: TreeNodeFlags,
}

impl CollapsingHeader {
    /// The header's label.
    pub closed spec fn label_view(&self) -> Seq<char> {
        self.label@
    }

    /// The header's flags.
    pub closed spec fn flags_spec(&self) -> TreeNodeFlags {
        self.flags
    }

    /// The flags as currently set on the builder.
    pub fn current_flags(&self) -> (f: TreeNodeFlags)
        ensures
            f == self.flags_spec(),
    {
        self.flags
    }

    /// Constructs a new collapsing header builder.
    pub fn new(label: String) -> (h: CollapsingHeader)
        ensures
            h.label_view() == label@,
            h.flags_spec().bits == 0,
    {
        CollapsingHeader { label, flags: TreeNodeFlags { bits: 0 } }
    }

    /// Replaces all current settings with the given flags.
    pub fn flags(self, flags: TreeNodeFlags) -> (h: CollapsingHeader)
        ensures
            h.label_view() == self.label_view(),
            h.flags_spec() == flags,
    {
        CollapsingHeader { label: self.label, flags }
    }

    /// Enables or disables overlap with subsequent widgets.
    pub fn allow_item_overlap(self, value: bool) -> (h: CollapsingHeader)
        ensures
            h.label_view() == self.label_view(),
            h.flags_spec().bits == (if value {
                self.flags_spec().bits | TREE_NODE_FLAGS_ALLOW_ITEM_OVERLAP
            } else {
                self.flags_spec().bits & !TREE_NODE_FLAGS_ALLOW_ITEM_OVERLAP
            }),
    {
        let mut h = self;
        h.flags.set(TREE_NODE_FLAGS_ALLOW_ITEM_OVERLAP, value);
        h
    }

    /// Sets the default open state.
    pub fn default_open(self, value: bool) -> (h: CollapsingHeader)
        ensures
            h.label_view() == self.label_view(),
            h.flags_spec().bits == (if value {
                self.flags_spec().bits | TREE_NODE_FLAGS_DEFAULT_OPEN
            } else {
                self.flags_spec().bits & !TREE_NODE_FLAGS_DEFAULT_OPEN
            }),
    {
        let mut h = self;
        h.flags.set(TREE_NODE_FLAGS_DEFAULT_OPEN, value);
        h
    }

    /// Only open on double-click.
    pub fn open_on_double_click(self, value: bool) -> (h: CollapsingHeader)
        ensures
            h.label_view() == self.label_view(),
            h.flags_spec().bits == (if value {
                self.flags_spec().bits | TREE_NODE_FLAGS_OPEN_ON_DOUBLE_CLICK
            } else {
                self.flags_spec().bits & !TREE_NODE_FLAGS_OPEN_ON_DOUBLE_CLICK
            }),
    {
        let mut h = self;
        h.flags.set(TREE_NODE_FLAGS_OPEN_ON_DOUBLE_CLICK, value);
        h
    }

    /// Only open when clicking the arrow.
    pub fn open_on_arrow(self, value: bool) -> (h: CollapsingHeader)
        ensures
            h.label_view() == self.label_view(),
            h.flags_spec().bits == (if value {
                self.flags_spec().bits | TREE_NODE_FLAGS_OPEN_ON_ARROW
            } else {
                self.flags_spec().bits & !TREE_NODE_FLAGS_OPEN_ON_ARROW
            }),
    {
        let mut h = self;
        h.flags.set(TREE_NODE_FLAGS_OPEN_ON_ARROW, value);
        h
    }

    /// Enables or disables leaf mode (no collapsing, no arrow).
    pub fn leaf(self, value: bool) -> (h: CollapsingHeader)
        ensures
            h.label_view() == self.label_view(),
            h.flags_spec().bits == (if value {
                self.flags_spec().bits | TREE_NODE_FLAGS_LEAF
            } else {
                self.flags_spec().bits & !TREE_NODE_FLAGS_LEAF
            }),
    {
        let mut h = self;
        h.flags.set(TREE_NODE_FLAGS_LEAF, value);
        h
    }

    /// Display a bullet instead of an arrow.
    pub fn bullet(self, value: bool) -> (h: CollapsingHeader)
        ensures
            h.label_view() == self.label_view(),
            h.flags_spec().bits == (if value {
                self.flags_spec().bits | TREE_NODE_FLAGS_BULLET
            } else {
                self.flags_spec().bits & !TREE_NODE_FLAGS_BULLET
            }),
    {
        let mut h = self;
        h.flags.set(TREE_NODE_FLAGS_BULLET, value);
        h
    }

    /// Vertically align the text baseline to the regular widget height.
    pub fn frame_padding(self, value: bool) -> (h: CollapsingHeader)
        ensures
            h.label_view() == self.label_view(),
            h.flags_spec().bits == (if value {
                self.flags_spec().bits | TREE_NODE_FLAGS_FRAME_PADDING
            } else {
                self.flags_spec().bits & !TREE_NODE_FLAGS_FRAME_PADDING
            }),
    {
        let mut h = self;
        h.flags.set(TREE_NODE_FLAGS_FRAME_PADDING, value);
        h
    }
}

} // verus!
