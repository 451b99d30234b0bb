//! Drag and drop sources and payloads.

use crate::Condition;
use vstd::prelude::*;

verus! {

/// Hide the preview tooltip while dragging.
pub const DRAG_DROP_FLAGS_SOURCE_NO_PREVIEW_TOOLTIP: u32 = 0x1;

/// Keep treating the source as hovered while dragging.
pub const DRAG_DROP_FLAGS_SOURCE_NO_DISABLE_HOVER: u32 = 0x2;

/// Disable opening tree nodes and collapsing headers by holding over them.
pub const DRAG_DROP_FLAGS_SOURCE_NO_HOLD_TO_OPEN_OTHERS: u32 = 0x4;

/// Allow items without a unique identifier to be sources.
pub const DRAG_DROP_FLAGS_SOURCE_ALLOW_NULL_ID: u32 = 0x8;

/// The source is external to the library.
pub const DRAG_DROP_FLAGS_SOURCE_EXTERN: u32 = 0x10;

/// Automatically expire the payload if the source stops being submitted.
pub const DRAG_DROP_FLAGS_SOURCE_AUTO_EXPIRE_PAYLOAD: u32 = 0x20;

/// Accept the payload before the mouse button is released.
pub const DRAG_DROP_FLAGS_ACCEPT_BEFORE_DELIVERY: u32 = 0x400;

/// Do not draw the default highlight rectangle on a hovered target.
pub const DRAG_DROP_FLAGS_ACCEPT_NO_DRAW_DEFAULT_RECT: u32 = 0x800;

/// Request hidden acceptance checking without a preview tooltip.
pub const DRAG_DROP_FLAGS_ACCEPT_NO_PREVIEW_TOOLTIP: u32 = 0x1000;

/// Peek at the payload without delivery.
pub const DRAG_DROP_FLAGS_ACCEPT_PEEK_ONLY: u32 = 0xC00;

/// A set of drag-and-drop flags.
#[derive(Copy, Clone, Eq, PartialEq, Structural, Debug)]
pub struct DragDropFlags {
    /// The raw flag bits.
    pub bits: u32,
}

impl DragDropFlags {
    /// No flag set.
    pub fn empty() -> (f: DragDropFlags)
        ensures
            f.bits == 0,
    {
        DragDropFlags { bits: 0 }
    }

    /// The flags with exactly the given bits.
    pub fn from_bits(bits: u32) -> (f: DragDropFlags)
        ensures
            f.bits == bits,
    {
        DragDropFlags { bits }
    }
}

/// The source of a drag-and-drop operation. The `name` identifies the
/// payload kind; a target accepts payloads whose name matches.
#[must_use]
pub struct DragDropSource {
    name: String,
    flags: DragDropFlags,
    cond: Condition,
}

impl DragDropSource {
    /// The payload-kind name of the source.
    pub closed spec fn name_view(&self) -> Seq<char> {
        self.name@
    }

    /// The source's flags.
    pub closed spec fn flags_spec(&self) -> DragDropFlags {
        self.flags
    }

    /// The flags as currently set on the builder.
    pub fn current_flags(&self) -> (f: DragDropFlags)
        ensures
            f == self.flags_spec(),
    {
        self.flags
    }

    /// The condition the source is created with.
    pub closed spec fn condition_spec(&self) -> Condition {
        self.cond
    }

    /// Creates a new source with no flags and the `Always` condition.
    pub fn new(name: String) -> (s: DragDropSource)
        ensures
            s.name_view() == name@,
            s.flags_spec().bits == 0,
            s.condition_spec() == Condition::Always,
    {
        DragDropSource { name, flags: DragDropFlags { bits: 0 }, cond: Condition::Always }
    }

    /// Sets the flags on the source.
    pub fn flags(self, flags: DragDropFlags) -> (s: DragDropSource)
        ensures
            s.name_view() == self.name_view(),
            s.flags_spec() == flags,
            s.condition_spec() == self.condition_spec(),
    {
        DragDropSource { flags, ..self }
    }

    /// Sets the condition on the source.
    pub fn condition(self, cond: Condition) -> (s: DragDropSource)
        ensures
            s.name_view() == self.name_view(),
            s.flags_spec() == self.flags_spec(),
            s.condition_spec() == cond,
    {
        DragDropSource { cond, ..self }
    }
}

/// An empty drag-and-drop payload: no data, just status information.
#[derive(Copy, Clone, Eq, PartialEq, Structural, Debug)]
pub struct DragDropPayloadEmpty {
    /// Set when the mouse has been hovering the target item.
    pub preview: bool,
    /// Set when the mouse button was released over the target item.
    pub delivery: bool,
}

/// A drag-and-drop payload with status information and some plain old
/// data in it.
#[derive(Copy, Clone, Debug)]
pub struct DragDropPayloadPod<T: Copy> {
    /// The data which was requested.
    pub data: T,
    /// Set when the mouse has been hovering the target item.
    pub preview: bool,
    /// Set when the mouse button was released over the target item.
    pub delivery: bool,
}

/// Indicates that a payload of an unexpected type was received.
#[derive(Copy, Clone, Eq, PartialEq, Structural, Debug)]
pub struct PayloadIsWrongType {}

impl PayloadIsWrongType {
    /// A description of the mismatch, for diagnostics.
    pub fn message(&self) -> &'static str {
        "payload is not of the type the target requested"
    }
}

} // verus!
