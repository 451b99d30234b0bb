//! Combo box widgets.

use crate::session::{ScopeToken, Ui};
use crate::stacks::{scope_can_end, ScopeKind, StackOrderError};
use vstd::prelude::*;

verus! {

/// Combo box height mode.
#[derive(Copy, Clone, Eq, PartialEq, Structural, Debug)]
pub enum ComboBoxHeight {
    /// Max ~4 items visible.
    Small,
    /// Max ~8 items visible.
    Regular,
    /// Max ~20 items visible.
    Large,
    /// As many fitting items as possible visible.
    Largest,
}

/// Combo box preview mode.
#[derive(Copy, Clone, Eq, PartialEq, Structural, Debug)]
pub enum ComboBoxPreviewMode {
    /// Show only a box with the preview value.
    Label,
    /// Show only an arrow button.
    ArrowButton,
    /// Show a box with the preview value and an arrow button.
    Full,
}

/// Align the popup toward the left by default.
pub const COMBO_BOX_FLAGS_POPUP_ALIGN_LEFT: u32 = 0x1;

/// Max ~4 items visible.
pub const COMBO_BOX_FLAGS_HEIGHT_SMALL: u32 = 0x2;

/// Max ~8 items visible (default).
pub const COMBO_BOX_FLAGS_HEIGHT_REGULAR: u32 = 0x4;

/// Max ~20 items visible.
pub const COMBO_BOX_FLAGS_HEIGHT_LARGE: u32 = 0x8;

/// As many fitting items as possible.
pub const COMBO_BOX_FLAGS_HEIGHT_LARGEST: u32 = 0x10;

/// Display on the preview box without the square arrow button.
pub const COMBO_BOX_FLAGS_NO_ARROW_BUTTON: u32 = 0x20;

/// Display only a square arrow button.
pub const COMBO_BOX_FLAGS_NO_PREVIEW: u32 = 0x40;

/// The mask of the four height bits.
pub const COMBO_BOX_FLAGS_HEIGHT_MASK: u32 = 0x1E;

/// The mask of the two preview bits.
pub const COMBO_BOX_FLAGS_PREVIEW_MASK: u32 = 0x60;

/// A set of combo box flags.
#[derive(Copy, Clone, Eq, PartialEq, Structural, Debug)]
pub struct ComboBoxFlags {
    /// The raw flag bits.
    pub bits: u32,
}

impl ComboBoxFlags {
    /// No flag set.
    pub fn empty() -> (f: ComboBoxFlags)
        ensures
            f.bits == 0,
    {
        ComboBoxFlags { bits: 0 }
    }

    /// The flags with exactly the given bits.
    pub fn from_bits(bits: u32) -> (f: ComboBoxFlags)
        ensures
            f.bits == bits,
    {
        ComboBoxFlags { bits }
    }

    /// Sets or clears the bits of `mask`.
    pub fn set(&mut self, mask: u32, value: bool)
        ensures
            final(self).bits == if value {
                old(self).bits | mask
            } else {
                old(self).bits & !mask
            },
    {
        if value {
            self.bits = self.bits | mask;
        } else {
            self.bits = self.bits & !mask;
        }
    }

    /// Returns whether all bits of `mask` are set.
    pub fn contains(&self, mask: u32) -> (r: bool)
        ensures
            r == (self.bits & mask == mask),
    {
        self.bits & mask == mask
    }
}

impl Default for ComboBoxFlags {
    /// No flag set.
    fn default() -> (f: ComboBoxFlags)
        ensures
            f.bits == 0,
    {
        ComboBoxFlags { bits: 0 }
    }
}

/// The height bit selected by a height mode.
pub open spec fn height_bit(height: ComboBoxHeight) -> u32 {
    match height {
        ComboBoxHeight::Small => COMBO_BOX_FLAGS_HEIGHT_SMALL,
        ComboBoxHeight::Regular => COMBO_BOX_FLAGS_HEIGHT_REGULAR,
        ComboBoxHeight::Large => COMBO_BOX_FLAGS_HEIGHT_LARGE,
        ComboBoxHeight::Largest => COMBO_BOX_FLAGS_HEIGHT_LARGEST,
    }
}

/// The preview bit selected by a preview mode.
pub open spec fn preview_bit(mode: ComboBoxPreviewMode) -> u32 {
    match mode {
        ComboBoxPreviewMode::Label => COMBO_BOX_FLAGS_NO_ARROW_BUTTON,
        ComboBoxPreviewMode::ArrowButton => COMBO_BOX_FLAGS_NO_PREVIEW,
        ComboBoxPreviewMode::Full => 0,
    }
}

/// Tracks an open combo box scope; must be ended, in reverse order of
/// creation relative to every other open scope, by calling `end`.
#[must_use]
pub struct ComboBoxToken {
    token: ScopeToken,
}

impl ComboBoxToken {
    /// The number of scopes that were open when the scope began.
    pub closed spec fn depth(&self) -> int {
        self.token.depth()
    }

    /// The token closes a combo box scope.
    pub closed spec fn wf(&self) -> bool {
        self.token.kind() == ScopeKind::ComboBox
    }

    /// Ends the combo box scope; rejected, changing nothing, unless it is
    /// the most recently opened scope still open.
    pub fn end(self, ui: &mut Ui) -> (r: Result<(), StackOrderError>)
        requires
            self.wf(),
        ensures
            r is Ok <==> scope_can_end(old(ui).scopes_view(), ScopeKind::ComboBox, self.depth()),
            r is Ok ==> final(ui).scopes_view() =~= old(ui).scopes_view().drop_last(),
            r is Err ==> *final(ui) == *old(ui),
            crate::session::same_identity(old(ui), final(ui)),
            crate::session::same_arena(old(ui), final(ui)),
            crate::session::same_depths(old(ui), final(ui)),
            crate::session::same_surfaces(old(ui), final(ui)),
    {
        ui.end_scope(self.token)
    }
}

/// Builder for a combo box widget.
#[must_use]
pub struct ComboBox {
    label: String,
    preview_value: Option<String>,
    flags: ComboBoxFlags,
}

impl ComboBox {
    /// The combo box's label.
    pub closed spec fn label_view(&self) -> Seq<char> {
        self.label@
    }

    /// The preview value, if one was set.
    pub closed spec fn preview_value_view(&self) -> Option<Seq<char>> {
        match self.preview_value {
            Some(s) => Some(s@),
            None => None,
        }
    }

    /// The combo box's flags.
    pub closed spec fn flags_spec(&self) -> ComboBoxFlags {
        self.flags
    }

    /// The flags as currently set on the builder.
    pub fn current_flags(&self) -> (f: ComboBoxFlags)
        ensures
            f == self.flags_spec(),
    {
        self.flags
    }

    /// Constructs a new combo box builder.
    pub fn new(label: String) -> (c: ComboBox)
        ensures
            c.label_view() == label@,
            c.preview_value_view() is None,
            c.flags_spec().bits == 0,
    {
        ComboBox { label, preview_value: None, flags: ComboBoxFlags { bits: 0 } }
    }

    /// Sets the preview value displayed in the preview box.
    pub fn preview_value(self, preview_value: String) -> (c: ComboBox)
        ensures
            c.label_view() == self.label_view(),
            c.preview_value_view() == Some(preview_value@),
            c.flags_spec() == self.flags_spec(),
    {
        ComboBox { preview_value: Some(preview_value), ..self }
    }

    /// Replaces all current settings with the given flags.
    pub fn flags(self, flags: ComboBoxFlags) -> (c: ComboBox)
        ensures
            c.label_view() == self.label_view(),
            c.preview_value_view() == self.preview_value_view(),
            c.flags_spec() == flags,
    {
        ComboBox { flags, ..self }
    }

    /// Enables or disables aligning the popup toward the left.
    pub fn popup_align_left(self, popup_align_left: bool) -> (c: ComboBox)
        ensures
            c.label_view() == self.label_view(),
            c.preview_value_view() == self.preview_value_view(),
            c.flags_spec().bits == (if popup_align_left {
                self.flags_spec().bits | COMBO_BOX_FLAGS_POPUP_ALIGN_LEFT
            } else {
                self.flags_spec().bits & !COMBO_BOX_FLAGS_POPUP_ALIGN_LEFT
            }),
    {
        let mut c = self;
        c.flags.set(COMBO_BOX_FLAGS_POPUP_ALIGN_LEFT, popup_align_left);
        c
    }

    /// Sets the combo box height: exactly the height bit of the given
    /// mode is set, the other three are cleared.
    pub fn height(self, height: ComboBoxHeight) -> (c: ComboBox)
        ensures
            c.label_view() == self.label_view(),
            c.preview_value_view() == self.preview_value_view(),
            c.flags_spec().bits == (self.flags_spec().bits & !COMBO_BOX_FLAGS_HEIGHT_MASK)
                | height_bit(height),
    {
        let mut c = self;
        let bit: u32 = match height {
            ComboBoxHeight::Small => COMBO_BOX_FLAGS_HEIGHT_SMALL,
            ComboBoxHeight::Regular => COMBO_BOX_FLAGS_HEIGHT_REGULAR,
            ComboBoxHeight::Large => COMBO_BOX_FLAGS_HEIGHT_LARGE,
            ComboBoxHeight::Largest => COMBO_BOX_FLAGS_HEIGHT_LARGEST,
        };
        c.flags.bits = (c.flags.bits & !COMBO_BOX_FLAGS_HEIGHT_MASK) | bit;
        c
    }

    /// Sets the combo box preview mode: exactly the preview bit of the
    /// given mode is set, the other is cleared.
    pub fn preview_mode(self, preview_mode: ComboBoxPreviewMode) -> (c: ComboBox)
        ensures
            c.label_view() == self.label_view(),
            c.preview_value_view() == self.preview_value_view(),
            c.flags_spec().bits == (self.flags_spec().bits & !COMBO_BOX_FLAGS_PREVIEW_MASK)
                | preview_bit(preview_mode),
    {
        let mut c = self;
        let bit: u32 = match preview_mode {
            ComboBoxPreviewMode::Label => COMBO_BOX_FLAGS_NO_ARROW_BUTTON,
            ComboBoxPreviewMode::ArrowButton => COMBO_BOX_FLAGS_NO_PREVIEW,
            ComboBoxPreviewMode::Full => 0,
        };
        c.flags.bits = (c.flags.bits & !COMBO_BOX_FLAGS_PREVIEW_MASK) | bit;
        c
    }

    /// Opens the combo box scope and returns the token that must end
    /// it.
    pub fn begin(self, ui: &mut Ui) -> (t: ComboBoxToken)
        ensures
            t.wf(),
            t.depth() == old(ui).scopes_view().len(),
            final(ui).scopes_view() =~= old(ui).scopes_view().push(ScopeKind::ComboBox),
            crate::session::same_identity(old(ui), final(ui)),
            crate::session::same_arena(old(ui), final(ui)),
            crate::session::same_depths(old(ui), final(ui)),
            crate::session::same_surfaces(old(ui), final(ui)),
    {
        ComboBoxToken { token: ui.begin_scope(ScopeKind::ComboBox) }
    }
}

} // verus!
