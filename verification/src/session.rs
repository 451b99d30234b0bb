//! The frame session: the per-frame capability token every widget and
//! stack operation hangs off.
//!
//! A [`Ui`] is created by [`Context::frame`], bundles the context
//! identifier, an exclusive borrow of a shared font atlas (when the
//! context uses one), and a scratch text arena, and tracks every open
//! scope, parameter-stack push and draw-surface handle of the frame.
//! Ending the frame reports anything left open as a leak.

use crate::context::{Context, ContextHub};
use crate::draw_list::SurfaceKind;
use crate::fonts::{FontAtlas, FontId};
use crate::stacks::{scope_can_end, ItemFlag, ScopeKind, StackOrderError};
use crate::string::{record_at, spec_refresh, UiBuffer};
use crate::style::{StyleColor, StyleVar};
use crate::color::ImColor32;
use crate::context::SharedFontAtlas;
use vstd::prelude::*;
use vstd::string::StringSliceAdditionalSpecFns;

verus! {

/// The default watermark of a frame's scratch text arena, in bytes.
pub const FRAME_ARENA_WATERMARK: usize = 1024;

/// The depths of the seven parameter stacks of one frame.
pub struct ParamDepths {
    /// Open font pushes.
    pub font: int,
    /// Open style-color pushes.
    pub color: int,
    /// Open style-variable pushes.
    pub style: int,
    /// Open ID pushes.
    pub id: int,
    /// Open item-width pushes.
    pub item_width: int,
    /// Open text-wrap-position pushes.
    pub text_wrap: int,
    /// Open item-flag pushes.
    pub item_flags: int,
}

/// Unique ID used by widgets, pushed onto the ID stack.
#[derive(Clone, Eq, PartialEq, Debug)]
pub enum Id {
    /// An integer identifier.
    Int(i32),
    /// A string identifier.
    Str(String),
}

/// The read-only result of rendering a frame. The draw lists
/// themselves live on the backend side; this value witnesses that the
/// frame was finalized with every scope and stack balanced.
#[derive(Copy, Clone, Eq, PartialEq, Structural, Debug)]
pub struct DrawData {}

/// The error reported when a frame ends while scopes, parameter-stack
/// pushes or draw-surface handles are still open: silently leaking a
/// push would corrupt all subsequent rendering of the context.
#[derive(Copy, Clone, Eq, PartialEq, Structural, Debug)]
pub struct FrameLeakError {
    /// Number of scopes still open.
    pub open_scopes: usize,
    /// Whether any parameter stack still holds an open push.
    pub has_open_pushes: bool,
    /// Number of draw-surface handles still held.
    pub held_surfaces: usize,
}

impl FrameLeakError {
    /// A description of the leak, for diagnostics.
    pub fn message(&self) -> &'static str {
        if self.open_scopes > 0 {
            "a scope token was leaked: a begin was never matched by its end"
        } else if self.has_open_pushes {
            "a stack token was leaked: a push was never popped"
        } else {
            "a draw-surface handle was leaked: it was never released"
        }
    }
}

/// Tracks one open scope. Produced by a begin operation; must be
/// handed back to the matching end operation, which checks that it is
/// the most recently opened scope still open.
#[must_use]
pub struct ScopeToken {
    kind: ScopeKind,
    depth: usize,
}

impl ScopeToken {
    /// The scope kind this token closes.
    pub closed spec fn kind(&self) -> ScopeKind {
        self.kind
    }

    /// The number of scopes that were open when this one was begun.
    pub closed spec fn depth(&self) -> int {
        self.depth as int
    }
}

/// Tracks a font pushed to the font stack.
#[must_use]
pub struct FontStackToken {
    index: usize,
}

impl FontStackToken {
    /// The font-stack depth when this push was made.
    pub closed spec fn index(&self) -> int {
        self.index as int
    }
}

/// Tracks a color pushed to the color stack.
#[must_use]
pub struct ColorStackToken {
    index: usize,
}

impl ColorStackToken {
    /// The color-stack depth when this push was made.
    pub closed spec fn index(&self) -> int {
        self.index as int
    }
}

/// Tracks one or more colors pushed to the color stack as a batch;
/// must be explicitly closed with `pop`, and is reported as a leak by
/// `end_frame` otherwise.
#[must_use]
pub struct MultiColorStackToken {
    count: usize,
    base: usize,
}

impl MultiColorStackToken {
    /// How many pushes this token covers.
    pub closed spec fn count(&self) -> int {
        self.count as int
    }

    /// The color-stack depth before the batch was pushed.
    pub closed spec fn base(&self) -> int {
        self.base as int
    }
}

/// Tracks a style variable pushed to the style stack.
#[must_use]
pub struct StyleStackToken {
    index: usize,
}

impl StyleStackToken {
    /// The style-stack depth when this push was made.
    pub closed spec fn index(&self) -> int {
        self.index as int
    }
}

/// Tracks one or more style variables pushed as a batch; must be
/// explicitly closed with `pop`.
#[must_use]
pub struct MultiStyleStackToken {
    count: usize,
    base: usize,
}

impl MultiStyleStackToken {
    /// How many pushes this token covers.
    pub closed spec fn count(&self) -> int {
        self.count as int
    }

    /// The style-stack depth before the batch was pushed.
    pub closed spec fn base(&self) -> int {
        self.base as int
    }
}

/// Tracks an identifier pushed to the ID stack.
#[must_use]
pub struct IdStackToken {
    index: usize,
}

impl IdStackToken {
    /// The ID-stack depth when this push was made.
    pub closed spec fn index(&self) -> int {
        self.index as int
    }
}

/// Tracks a change pushed to the item-width stack.
#[must_use]
pub struct ItemWidthStackToken {
    index: usize,
}

impl ItemWidthStackToken {
    /// The item-width-stack depth when this push was made.
    pub closed spec fn index(&self) -> int {
        self.index as int
    }
}

/// Tracks a change pushed to the text-wrap-position stack.
#[must_use]
pub struct TextWrapPosStackToken {
    index: usize,
}

impl TextWrapPosStackToken {
    /// The text-wrap-stack depth when this push was made.
    pub closed spec fn index(&self) -> int {
        self.index as int
    }
}

/// Tracks a change pushed to the item-flags stack. The flag recorded
/// at creation selects which backend pop runs on release.
#[must_use]
pub struct ItemFlagsStackToken {
    flag: ItemFlag,
    index: usize,
}

impl ItemFlagsStackToken {
    /// The flag pushed.
    pub closed spec fn flag(&self) -> ItemFlag {
        self.flag
    }

    /// The item-flags-stack depth when this push was made.
    pub closed spec fn index(&self) -> int {
        self.index as int
    }
}

/// A temporary capability for building the user interface for one
/// frame.
pub struct Ui {
    ctx_id: u64,
    shared_atlas: Option<SharedFontAtlas>,
    fonts: FontAtlas,
    buffer: UiBuffer,
    scopes: Vec<ScopeKind>,
    font_depth: usize,
    color_depth: usize,
    style_depth: usize,
    id_depth: usize,
    item_width_depth: usize,
    text_wrap_depth: usize,
    item_flags_depth: usize,
    window_surface: bool,
    background_surface: bool,
    foreground_surface: bool,
}

impl Ui {
    /// The identifier of the context this frame belongs to.
    pub closed spec fn ctx_id(&self) -> u64 {
        self.ctx_id
    }

    /// The shared atlas borrowed for this frame, if the context uses
    /// one.
    pub closed spec fn shared_atlas_spec(&self) -> Option<SharedFontAtlas> {
        self.shared_atlas
    }

    /// The fonts of the context's atlas, as of the start of the frame.
    pub closed spec fn atlas_view(&self) -> FontAtlas {
        self.fonts
    }

    /// The bytes of the frame's scratch text arena.
    pub closed spec fn arena_bytes(&self) -> Seq<u8> {
        self.buffer.bytes()
    }

    /// The watermark of the frame's scratch text arena.
    pub closed spec fn arena_watermark(&self) -> usize {
        self.buffer.watermark()
    }

    /// The stack of open scopes, outermost first.
    pub closed spec fn scopes_view(&self) -> Seq<ScopeKind> {
        self.scopes@
    }

    /// The depths of the seven parameter stacks.
    pub closed spec fn depths(&self) -> ParamDepths {
        ParamDepths {
            font: self.font_depth as int,
            color: self.color_depth as int,
            style: self.style_depth as int,
            id: self.id_depth as int,
            item_width: self.item_width_depth as int,
            text_wrap: self.text_wrap_depth as int,
            item_flags: self.item_flags_depth as int,
        }
    }

    /// Whether the draw-surface handle of the given kind is currently
    /// held.
    pub closed spec fn surface_held(&self, kind: SurfaceKind) -> bool {
        match kind {
            SurfaceKind::Window => self.window_surface,
            SurfaceKind::Background => self.background_surface,
            SurfaceKind::Foreground => self.foreground_surface,
        }
    }

    /// No scope, push or surface handle is open.
    pub open spec fn balanced(&self) -> bool {
        &&& self.scopes_view().len() == 0
        &&& self.depths() == zero_depths()
        &&& !self.surface_held(SurfaceKind::Window)
        &&& !self.surface_held(SurfaceKind::Background)
        &&& !self.surface_held(SurfaceKind::Foreground)
    }
}

impl FontStackToken {
    /// Pops the change from the font stack; rejected, changing
    /// nothing, unless this push is the most recent open one.
    pub fn pop(self, ui: &mut Ui) -> (r: Result<(), StackOrderError>)
        ensures
            r is Ok <==> crate::stacks::stack_can_pop(old(ui).depths().font, self.index()),
            r is Ok ==> final(ui).depths() == (ParamDepths { font: self.index(), ..old(ui).depths() }),
            r is Err ==> *final(ui) == *old(ui),
            stacks_unchanged_but_depths(old(ui), final(ui)),
    {
        if ui.font_depth > 0 && ui.font_depth - 1 == self.index {
            ui.font_depth = self.index;
            Ok(())
        } else {
            Err(StackOrderError {})
        }
    }

    /// Same as `pop`.
    pub fn end(self, ui: &mut Ui) -> (r: Result<(), StackOrderError>)
        ensures
            r is Ok <==> crate::stacks::stack_can_pop(old(ui).depths().font, self.index()),
            r is Ok ==> final(ui).depths() == (ParamDepths { font: self.index(), ..old(ui).depths() }),
            r is Err ==> *final(ui) == *old(ui),
            stacks_unchanged_but_depths(old(ui), final(ui)),
    {
        self.pop(ui)
    }
}

impl ColorStackToken {
    /// Pops the change from the color stack; rejected, changing
    /// nothing, unless this push is the most recent open one.
    pub fn pop(self, ui: &mut Ui) -> (r: Result<(), StackOrderError>)
        ensures
            r is Ok <==> crate::stacks::stack_can_pop(old(ui).depths().color, self.index()),
            r is Ok ==> final(ui).depths() == (ParamDepths { color: self.index(), ..old(ui).depths() }),
            r is Err ==> *final(ui) == *old(ui),
            stacks_unchanged_but_depths(old(ui), final(ui)),
    {
        if ui.color_depth > 0 && ui.color_depth - 1 == self.index {
            ui.color_depth = self.index;
            Ok(())
        } else {
            Err(StackOrderError {})
        }
    }

    /// Same as `pop`.
    pub fn end(self, ui: &mut Ui) -> (r: Result<(), StackOrderError>)
        ensures
            r is Ok <==> crate::stacks::stack_can_pop(old(ui).depths().color, self.index()),
            r is Ok ==> final(ui).depths() == (ParamDepths { color: self.index(), ..old(ui).depths() }),
            r is Err ==> *final(ui) == *old(ui),
            stacks_unchanged_but_depths(old(ui), final(ui)),
    {
        self.pop(ui)
    }
}

impl MultiColorStackToken {
    /// Pops the whole batch from the color stack at once; rejected,
    /// changing nothing, unless exactly the batch is open above its
    /// base depth.
    pub fn pop(self, ui: &mut Ui) -> (r: Result<(), StackOrderError>)
        ensures
            r is Ok <==> old(ui).depths().color == self.base() + self.count(),
            r is Ok ==> final(ui).depths() == (ParamDepths { color: self.base(), ..old(ui).depths() }),
            r is Err ==> *final(ui) == *old(ui),
            stacks_unchanged_but_depths(old(ui), final(ui)),
    {
        if self.base <= usize::MAX - self.count && ui.color_depth == self.base + self.count {
            ui.color_depth = self.base;
            Ok(())
        } else {
            Err(StackOrderError {})
        }
    }
}

impl StyleStackToken {
    /// Pops the change from the style stack; rejected, changing
    /// nothing, unless this push is the most recent open one.
    pub fn pop(self, ui: &mut Ui) -> (r: Result<(), StackOrderError>)
        ensures
            r is Ok <==> crate::stacks::stack_can_pop(old(ui).depths().style, self.index()),
            r is Ok ==> final(ui).depths() == (ParamDepths { style: self.index(), ..old(ui).depths() }),
            r is Err ==> *final(ui) == *old(ui),
            stacks_unchanged_but_depths(old(ui), final(ui)),
    {
        if ui.style_depth > 0 && ui.style_depth - 1 == self.index {
            ui.style_depth = self.index;
            Ok(())
        } else {
            Err(StackOrderError {})
        }
    }

    /// Same as `pop`.
    pub fn end(self, ui: &mut Ui) -> (r: Result<(), StackOrderError>)
        ensures
            r is Ok <==> crate::stacks::stack_can_pop(old(ui).depths().style, self.index()),
            r is Ok ==> final(ui).depths() == (ParamDepths { style: self.index(), ..old(ui).depths() }),
            r is Err ==> *final(ui) == *old(ui),
            stacks_unchanged_but_depths(old(ui), final(ui)),
    {
        self.pop(ui)
    }
}

impl MultiStyleStackToken {
    /// Pops the whole batch from the style stack at once; rejected,
    /// changing nothing, unless exactly the batch is open above its
    /// base depth.
    pub fn pop(self, ui: &mut Ui) -> (r: Result<(), StackOrderError>)
        ensures
            r is Ok <==> old(ui).depths().style == self.base() + self.count(),
            r is Ok ==> final(ui).depths() == (ParamDepths { style: self.base(), ..old(ui).depths() }),
            r is Err ==> *final(ui) == *old(ui),
            stacks_unchanged_but_depths(old(ui), final(ui)),
    {
        if self.base <= usize::MAX - self.count && ui.style_depth == self.base + self.count {
            ui.style_depth = self.base;
            Ok(())
        } else {
            Err(StackOrderError {})
        }
    }
}

impl IdStackToken {
    /// Pops the identifier from the ID stack; rejected, changing
    /// nothing, unless this push is the most recent open one.
    pub fn pop(self, ui: &mut Ui) -> (r: Result<(), StackOrderError>)
        ensures
            r is Ok <==> crate::stacks::stack_can_pop(old(ui).depths().id, self.index()),
            r is Ok ==> final(ui).depths() == (ParamDepths { id: self.index(), ..old(ui).depths() }),
            r is Err ==> *final(ui) == *old(ui),
            stacks_unchanged_but_depths(old(ui), final(ui)),
    {
        if ui.id_depth > 0 && ui.id_depth - 1 == self.index {
            ui.id_depth = self.index;
            Ok(())
        } else {
            Err(StackOrderError {})
        }
    }

    /// Same as `pop`.
    pub fn end(self, ui: &mut Ui) -> (r: Result<(), StackOrderError>)
        ensures
            r is Ok <==> crate::stacks::stack_can_pop(old(ui).depths().id, self.index()),
            r is Ok ==> final(ui).depths() == (ParamDepths { id: self.index(), ..old(ui).depths() }),
            r is Err ==> *final(ui) == *old(ui),
            stacks_unchanged_but_depths(old(ui), final(ui)),
    {
        self.pop(ui)
    }
}

impl ItemWidthStackToken {
    /// Pops the change from the item-width stack; rejected, changing
    /// nothing, unless this push is the most recent open one.
    pub fn pop(self, ui: &mut Ui) -> (r: Result<(), StackOrderError>)
        ensures
            r is Ok <==> crate::stacks::stack_can_pop(old(ui).depths().item_width, self.index()),
            r is Ok ==> final(ui).depths() == (ParamDepths { item_width: self.index(), ..old(ui).depths() }),
            r is Err ==> *final(ui) == *old(ui),
            stacks_unchanged_but_depths(old(ui), final(ui)),
    {
        if ui.item_width_depth > 0 && ui.item_width_depth - 1 == self.index {
            ui.item_width_depth = self.index;
            Ok(())
        } else {
            Err(StackOrderError {})
        }
    }
}

impl TextWrapPosStackToken {
    /// Pops the change from the text-wrap stack; rejected, changing
    /// nothing, unless this push is the most recent open one.
    pub fn pop(self, ui: &mut Ui) -> (r: Result<(), StackOrderError>)
        ensures
            r is Ok <==> crate::stacks::stack_can_pop(old(ui).depths().text_wrap, self.index()),
            r is Ok ==> final(ui).depths() == (ParamDepths { text_wrap: self.index(), ..old(ui).depths() }),
            r is Err ==> *final(ui) == *old(ui),
            stacks_unchanged_but_depths(old(ui), final(ui)),
    {
        if ui.text_wrap_depth > 0 && ui.text_wrap_depth - 1 == self.index {
            ui.text_wrap_depth = self.index;
            Ok(())
        } else {
            Err(StackOrderError {})
        }
    }
}

impl ItemFlagsStackToken {
    /// Pops the change from the item-flags stack; the flag recorded at
    /// creation selects which backend pop runs. Rejected, changing
    /// nothing, unless this push is the most recent open one.
    pub fn pop(self, ui: &mut Ui) -> (r: Result<(), StackOrderError>)
        ensures
            r is Ok <==> crate::stacks::stack_can_pop(old(ui).depths().item_flags, self.index()),
            r is Ok ==> final(ui).depths() == (ParamDepths { item_flags: self.index(), ..old(ui).depths() }),
            r is Err ==> *final(ui) == *old(ui),
            stacks_unchanged_but_depths(old(ui), final(ui)),
    {
        if ui.item_flags_depth > 0 && ui.item_flags_depth - 1 == self.index {
            ui.item_flags_depth = self.index;
            Ok(())
        } else {
            Err(StackOrderError {})
        }
    }
}

/// Everything of the frame other than the parameter-stack depths —
/// identity, arena, scopes, surfaces — is unchanged.
pub open spec fn stacks_unchanged_but_depths(before: &Ui, after: &Ui) -> bool {
    &&& same_identity(before, after)
    &&& same_arena(before, after)
    &&& same_scopes(before, after)
    &&& same_surfaces(before, after)
}

/// All seven parameter stacks empty.
pub open spec fn zero_depths() -> ParamDepths {
    ParamDepths { font: 0, color: 0, style: 0, id: 0, item_width: 0, text_wrap: 0, item_flags: 0 }
}

/// The identity of the frame — context, borrowed atlas, font snapshot
/// — is unchanged.
pub open spec fn same_identity(before: &Ui, after: &Ui) -> bool {
    &&& after.ctx_id() == before.ctx_id()
    &&& after.shared_atlas_spec() == before.shared_atlas_spec()
    &&& after.atlas_view() == before.atlas_view()
}

/// The scratch arena is unchanged.
pub open spec fn same_arena(before: &Ui, after: &Ui) -> bool {
    &&& after.arena_bytes() == before.arena_bytes()
    &&& after.arena_watermark() == before.arena_watermark()
}

/// The open-scope stack is unchanged.
pub open spec fn same_scopes(before: &Ui, after: &Ui) -> bool {
    after.scopes_view() == before.scopes_view()
}

/// All seven parameter-stack depths are unchanged.
pub open spec fn same_depths(before: &Ui, after: &Ui) -> bool {
    after.depths() == before.depths()
}

/// All three draw-surface flags are unchanged.
pub open spec fn same_surfaces(before: &Ui, after: &Ui) -> bool {
    forall|k: SurfaceKind| after.surface_held(k) == before.surface_held(k)
}

impl Context {
    /// Starts a new frame and returns a [`Ui`] for constructing the
    /// interface.
    ///
    /// If the context uses a shared font atlas, the frame takes the
    /// exclusive borrow of that atlas, which must not already be
    /// borrowed. A previously selected default font that no longer
    /// exists in the atlas is cleared.
    pub fn frame(&mut self, hub: &mut ContextHub) -> (ui: Ui)
        requires
            old(self).wf(old(hub)),
            old(hub).wf(),
            old(self).is_active(old(hub)),
            old(self).shared_atlas() matches Some(a) ==> !old(hub).atlas_borrowed(a.slot()),
        ensures
            final(self).wf(final(hub)),
            final(hub).wf(),
            final(self).is_active(final(hub)),
            ui.ctx_id() == old(self).id(),
            ui.shared_atlas_spec() == old(self).shared_atlas(),
            ui.atlas_view().font_ids() =~= old(self).atlas_of(old(hub)).font_ids(),
            ui.arena_bytes() =~= Seq::<u8>::empty(),
            ui.arena_watermark() == FRAME_ARENA_WATERMARK,
            ui.scopes_view() =~= Seq::<ScopeKind>::empty(),
            ui.depths() == zero_depths(),
            ui.balanced(),
            !ui.surface_held(SurfaceKind::Window),
            !ui.surface_held(SurfaceKind::Background),
            !ui.surface_held(SurfaceKind::Foreground),
            // A default font that vanished from the atlas is cleared.
            final(self).default_font_spec() == (match old(self).default_font_spec() {
                Some(f) => if old(self).atlas_of(old(hub)).has_font(f) {
                    Some(f)
                } else {
                    Option::<FontId>::None
                },
                None => Option::<FontId>::None,
            }),
            final(self).id() == old(self).id(),
            final(self).shared_atlas() == old(self).shared_atlas(),
            final(hub).active_id() == old(hub).active_id(),
            final(hub).id_bound() == old(hub).id_bound(),
            final(hub).atlas_count() == old(hub).atlas_count(),
            old(self).shared_atlas() matches Some(a) ==> final(hub).atlas_borrowed(a.slot()),
    {
        // Clear the default font if it no longer exists in the atlas.
        match self.default_font() {
            Some(f) => {
                let fonts = self.snapshot_atlas(hub);
                if fonts.get_font(f).is_none() {
                    self.set_default_font(None);
                }
            },
            None => {},
        }
        // Starting a frame mutates the font atlas on the backend side,
        // so a shared atlas is borrowed exclusively for the session.
        match self.shared_font_atlas() {
            Some(a) => hub.borrow_atlas(a),
            None => {},
        }
        let fonts = self.snapshot_atlas(hub);
        Ui {
            ctx_id: self.context_id(),
            shared_atlas: self.shared_font_atlas(),
            fonts,
            buffer: UiBuffer::new(FRAME_ARENA_WATERMARK),
            scopes: Vec::new(),
            font_depth: 0,
            color_depth: 0,
            style_depth: 0,
            id_depth: 0,
            item_width_depth: 0,
            text_wrap_depth: 0,
            item_flags_depth: 0,
            window_surface: false,
            background_surface: false,
            foreground_surface: false,
        }
    }
}

impl Ui {
    /// Ends the frame without rendering, returning the shared atlas
    /// borrow.
    ///
    /// Any scope, parameter-stack push or draw-surface handle still
    /// open is a leak and is reported as an error; the backend's
    /// stacks would otherwise stay corrupted for the rest of the
    /// context's life.
    pub fn end_frame(self, hub: &mut ContextHub) -> (r: Result<(), FrameLeakError>)
        requires
            old(hub).wf(),
            self.shared_atlas_spec() matches Some(a) ==> a.wf(old(hub)),
        ensures
            final(hub).wf(),
            r is Ok <==> self.balanced(),
            final(hub).active_id() == old(hub).active_id(),
            final(hub).id_bound() == old(hub).id_bound(),
            final(hub).atlas_count() == old(hub).atlas_count(),
            self.shared_atlas_spec() matches Some(a) ==> !final(hub).atlas_borrowed(a.slot()),
            self.shared_atlas_spec() is None ==> *final(hub) == *old(hub),
    {
        match self.shared_atlas {
            Some(a) => hub.release_atlas(a),
            None => {},
        }
        let open_scopes = self.scopes.len();
        let has_open_pushes = self.has_open_pushes();
        let held_surfaces = self.count_held_surfaces();
        if open_scopes == 0 && !has_open_pushes && held_surfaces == 0 {
            Ok(())
        } else {
            Err(FrameLeakError { open_scopes, has_open_pushes, held_surfaces })
        }
    }

    /// Renders the frame: finalizes it on the backend and yields the
    /// frame's draw data, provided every scope and stack was balanced;
    /// an imbalance is reported as a leak instead.
    pub fn render(self, hub: &mut ContextHub) -> (r: Result<DrawData, FrameLeakError>)
        requires
            old(hub).wf(),
            self.shared_atlas_spec() matches Some(a) ==> a.wf(old(hub)),
        ensures
            final(hub).wf(),
            r is Ok <==> self.balanced(),
            final(hub).active_id() == old(hub).active_id(),
            final(hub).id_bound() == old(hub).id_bound(),
            final(hub).atlas_count() == old(hub).atlas_count(),
            self.shared_atlas_spec() matches Some(a) ==> !final(hub).atlas_borrowed(a.slot()),
            self.shared_atlas_spec() is None ==> *final(hub) == *old(hub),
    {
        match self.end_frame(hub) {
            Ok(()) => Ok(DrawData {}),
            Err(e) => Err(e),
        }
    }

    /// Whether any parameter stack still holds an open push.
    fn has_open_pushes(&self) -> (r: bool)
        ensures
            !r <==> self.depths() == zero_depths(),
    {
        self.font_depth > 0 || self.color_depth > 0 || self.style_depth > 0 || self.id_depth > 0
            || self.item_width_depth > 0 || self.text_wrap_depth > 0 || self.item_flags_depth > 0
    }

    /// The number of scopes currently open.
    pub fn open_scope_count(&self) -> (n: usize)
        ensures
            n == self.scopes_view().len(),
    {
        self.scopes.len()
    }

    /// The current depth of the font stack.
    pub fn font_stack_depth(&self) -> (n: usize)
        ensures
            n == self.depths().font,
    {
        self.font_depth
    }

    /// The current depth of the color stack.
    pub fn color_stack_depth(&self) -> (n: usize)
        ensures
            n == self.depths().color,
    {
        self.color_depth
    }

    /// The current depth of the style stack.
    pub fn style_stack_depth(&self) -> (n: usize)
        ensures
            n == self.depths().style,
    {
        self.style_depth
    }

    /// The current depth of the ID stack.
    pub fn id_stack_depth(&self) -> (n: usize)
        ensures
            n == self.depths().id,
    {
        self.id_depth
    }

    /// Returns whether the draw-surface handle of the given kind is
    /// currently held.
    pub fn is_surface_held(&self, kind: SurfaceKind) -> (r: bool)
        ensures
            r == self.surface_held(kind),
    {
        match kind {
            SurfaceKind::Window => self.window_surface,
            SurfaceKind::Background => self.background_surface,
            SurfaceKind::Foreground => self.foreground_surface,
        }
    }

    /// The fonts of the context's atlas, as of the start of the frame.
    pub fn fonts(&self) -> (r: &FontAtlas)
        ensures
            *r == self.atlas_view(),
    {
        &self.fonts
    }

    /// Pushes one NUL-terminated text record to the scratch arena,
    /// refreshing the arena first, and returns the record's offset.
    pub fn scratch_txt(&mut self, txt: &str) -> (start: usize)
        ensures
            ({
                let base = spec_refresh(old(self).arena_bytes(), old(self).arena_watermark());
                start == base.len() && final(self).arena_bytes() =~= base + txt.spec_bytes()
                    + seq![0u8]
            }),
            final(self).arena_watermark() == old(self).arena_watermark(),
            same_identity(old(self), final(self)),
            same_scopes(old(self), final(self)),
            same_depths(old(self), final(self)),
            same_surfaces(old(self), final(self)),
    {
        self.buffer.scratch_txt(txt)
    }

    /// Pushes an optional text record; `None` stands for the null
    /// string parameter and leaves the arena untouched.
    pub fn scratch_txt_opt(&mut self, txt: Option<&str>) -> (start: Option<usize>)
        ensures
            ({
                let base = spec_refresh(old(self).arena_bytes(), old(self).arena_watermark());
                match txt {
                    Some(t) => start == Some(base.len() as usize) && final(self).arena_bytes() =~=
                        base + t.spec_bytes() + seq![0u8],
                    None => start is None && final(self).arena_bytes() =~= old(self).arena_bytes(),
                }
            }),
            final(self).arena_watermark() == old(self).arena_watermark(),
            same_identity(old(self), final(self)),
            same_scopes(old(self), final(self)),
            same_depths(old(self), final(self)),
            same_surfaces(old(self), final(self)),
    {
        self.buffer.scratch_txt_opt(txt)
    }

    /// Pushes two text records with one shared refresh decision, so
    /// the first offset stays valid while the second record is pushed.
    pub fn scratch_txt_two(&mut self, txt_0: &str, txt_1: &str) -> (starts: (usize, usize))
        ensures
            ({
                let base = spec_refresh(old(self).arena_bytes(), old(self).arena_watermark());
                &&& starts.0 == base.len()
                &&& starts.1 == base.len() + txt_0.spec_bytes().len() + 1
                &&& final(self).arena_bytes() =~= base + txt_0.spec_bytes() + seq![0u8]
                    + txt_1.spec_bytes() + seq![0u8]
            }),
            final(self).arena_watermark() == old(self).arena_watermark(),
            same_identity(old(self), final(self)),
            same_scopes(old(self), final(self)),
            same_depths(old(self), final(self)),
            same_surfaces(old(self), final(self)),
    {
        self.buffer.scratch_txt_two(txt_0, txt_1)
    }

    /// Pushes one mandatory and one optional record with a single
    /// refresh decision.
    pub fn scratch_txt_with_opt(&mut self, txt_0: &str, txt_1: Option<&str>) -> (starts: (
        usize,
        Option<usize>,
    ))
        ensures
            ({
                let base = spec_refresh(old(self).arena_bytes(), old(self).arena_watermark());
                match txt_1 {
                    Some(t) => starts.0 == base.len() && starts.1 == Some(
                        (base.len() + txt_0.spec_bytes().len() + 1) as usize,
                    ) && final(self).arena_bytes() =~= base + txt_0.spec_bytes() + seq![0u8]
                        + t.spec_bytes() + seq![0u8],
                    None => starts.0 == base.len() && starts.1 is None && final(self).arena_bytes()
                        =~= base + txt_0.spec_bytes() + seq![0u8],
                }
            }),
            final(self).arena_watermark() == old(self).arena_watermark(),
            same_identity(old(self), final(self)),
            same_scopes(old(self), final(self)),
            same_depths(old(self), final(self)),
            same_surfaces(old(self), final(self)),
    {
        self.buffer.scratch_txt_with_opt(txt_0, txt_1)
    }

    /// Reads the arena record that starts at `start`, exactly as the
    /// backend's C-string reader would; reading changes nothing, so
    /// repeated reads before the next refresh yield the same record.
    pub fn read_record(&self, start: usize) -> (record: Vec<u8>)
        requires
            start <= self.arena_bytes().len(),
        ensures
            record@ =~= record_at(self.arena_bytes(), start as int),
    {
        self.buffer.read_record(start)
    }

    /// Opens one scope of the given kind and returns the token that
    /// must close it.
    pub fn begin_scope(&mut self, kind: ScopeKind) -> (t: ScopeToken)
        ensures
            t.kind() == kind,
            t.depth() == old(self).scopes_view().len(),
            final(self).scopes_view() =~= old(self).scopes_view().push(kind),
            same_identity(old(self), final(self)),
            same_arena(old(self), final(self)),
            same_depths(old(self), final(self)),
            same_surfaces(old(self), final(self)),
    {
        let depth = self.scopes.len();
        self.scopes.push(kind);
        ScopeToken { kind, depth }
    }

    /// Closes the scope the token was created for.
    ///
    /// The close succeeds exactly when that scope is the most recently
    /// opened one still open; a close out of nesting order is rejected
    /// before the mismatched backend call could execute, and changes
    /// nothing.
    pub fn end_scope(&mut self, token: ScopeToken) -> (r: Result<(), StackOrderError>)
        ensures
            r is Ok <==> scope_can_end(old(self).scopes_view(), token.kind(), token.depth()),
            r is Ok ==> final(self).scopes_view() =~= old(self).scopes_view().drop_last(),
            r is Err ==> *final(self) == *old(self),
            same_identity(old(self), final(self)),
            same_arena(old(self), final(self)),
            same_depths(old(self), final(self)),
            same_surfaces(old(self), final(self)),
    {
        let n = self.scopes.len();
        if n > 0 && n - 1 == token.depth && self.scopes[n - 1] == token.kind {
            self.scopes.pop();
            Ok(())
        } else {
            Err(StackOrderError {})
        }
    }

    /// Switches to the given font by pushing it onto the font stack.
    /// The font must exist in the frame's atlas; use
    /// [`Ui::fonts`] to check first.
    pub fn push_font(&mut self, id: FontId) -> (t: FontStackToken)
        requires
            old(self).atlas_view().has_font(id),
            old(self).depths().font < usize::MAX,
        ensures
            t.index() == old(self).depths().font,
            final(self).depths() == (ParamDepths { font: old(self).depths().font + 1, ..old(self).depths() }),
            stacks_unchanged_but_depths(old(self), final(self)),
    {
        self.font_depth = self.font_depth + 1;
        FontStackToken { index: self.font_depth - 1 }
    }

    /// Changes a style color by pushing a change onto the color stack.
    pub fn push_style_color(&mut self, style_color: StyleColor, color: ImColor32) -> (t:
        ColorStackToken)
        requires
            old(self).depths().color < usize::MAX,
        ensures
            t.index() == old(self).depths().color,
            final(self).depths() == (ParamDepths { color: old(self).depths().color + 1, ..old(self).depths() }),
            stacks_unchanged_but_depths(old(self), final(self)),
    {
        let _ = style_color;
        let _ = color;
        self.color_depth = self.color_depth + 1;
        ColorStackToken { index: self.color_depth - 1 }
    }

    /// Pushes several style-color changes as one batch. The returned
    /// token must be closed explicitly with its `pop`; a frame that
    /// ends while it is open reports the batch as a leak.
    pub fn push_style_colors(&mut self, style_colors: &Vec<(StyleColor, ImColor32)>) -> (t:
        MultiColorStackToken)
        requires
            old(self).depths().color + style_colors@.len() <= usize::MAX,
        ensures
            t.base() == old(self).depths().color,
            t.count() == style_colors@.len(),
            final(self).depths() == (ParamDepths {
                color: old(self).depths().color + style_colors@.len(),
                ..old(self).depths()
            }),
            stacks_unchanged_but_depths(old(self), final(self)),
    {
        let base = self.color_depth;
        let count = style_colors.len();
        self.color_depth = self.color_depth + count;
        MultiColorStackToken { count, base }
    }

    /// Changes a style variable by pushing a change onto the style
    /// stack.
    pub fn push_style_var(&mut self, style_var: StyleVar) -> (t: StyleStackToken)
        requires
            old(self).depths().style < usize::MAX,
        ensures
            t.index() == old(self).depths().style,
            final(self).depths() == (ParamDepths { style: old(self).depths().style + 1, ..old(self).depths() }),
            stacks_unchanged_but_depths(old(self), final(self)),
    {
        let _ = style_var;
        self.style_depth = self.style_depth + 1;
        StyleStackToken { index: self.style_depth - 1 }
    }

    /// Pushes several style-variable changes as one batch; the token
    /// must be closed explicitly with its `pop`.
    pub fn push_style_vars(&mut self, style_vars: &Vec<StyleVar>) -> (t: MultiStyleStackToken)
        requires
            old(self).depths().style + style_vars@.len() <= usize::MAX,
        ensures
            t.base() == old(self).depths().style,
            t.count() == style_vars@.len(),
            final(self).depths() == (ParamDepths {
                style: old(self).depths().style + style_vars@.len(),
                ..old(self).depths()
            }),
            stacks_unchanged_but_depths(old(self), final(self)),
    {
        let base = self.style_depth;
        let count = style_vars.len();
        self.style_depth = self.style_depth + count;
        MultiStyleStackToken { count, base }
    }

    /// Pushes an identifier onto the ID stack.
    pub fn push_id(&mut self, id: Id) -> (t: IdStackToken)
        requires
            old(self).depths().id < usize::MAX,
        ensures
            t.index() == old(self).depths().id,
            final(self).depths() == (ParamDepths { id: old(self).depths().id + 1, ..old(self).depths() }),
            stacks_unchanged_but_depths(old(self), final(self)),
    {
        let _ = id;
        self.id_depth = self.id_depth + 1;
        IdStackToken { index: self.id_depth - 1 }
    }

    /// Changes the item width by pushing a change onto the item-width
    /// stack. The width value itself crosses to the backend directly.
    pub fn push_item_width(&mut self) -> (t: ItemWidthStackToken)
        requires
            old(self).depths().item_width < usize::MAX,
        ensures
            t.index() == old(self).depths().item_width,
            final(self).depths() == (ParamDepths {
                item_width: old(self).depths().item_width + 1,
                ..old(self).depths()
            }),
            stacks_unchanged_but_depths(old(self), final(self)),
    {
        self.item_width_depth = self.item_width_depth + 1;
        ItemWidthStackToken { index: self.item_width_depth - 1 }
    }

    /// Changes the text wrapping position by pushing a change onto the
    /// text-wrap stack. The position value itself crosses to the
    /// backend directly.
    pub fn push_text_wrap_pos(&mut self) -> (t: TextWrapPosStackToken)
        requires
            old(self).depths().text_wrap < usize::MAX,
        ensures
            t.index() == old(self).depths().text_wrap,
            final(self).depths() == (ParamDepths {
                text_wrap: old(self).depths().text_wrap + 1,
                ..old(self).depths()
            }),
            stacks_unchanged_but_depths(old(self), final(self)),
    {
        self.text_wrap_depth = self.text_wrap_depth + 1;
        TextWrapPosStackToken { index: self.text_wrap_depth - 1 }
    }

    /// Changes an item flag by pushing a change onto the item-flags
    /// stack.
    pub fn push_item_flag(&mut self, item_flag: ItemFlag) -> (t: ItemFlagsStackToken)
        requires
            old(self).depths().item_flags < usize::MAX,
        ensures
            t.flag() == item_flag,
            t.index() == old(self).depths().item_flags,
            final(self).depths() == (ParamDepths {
                item_flags: old(self).depths().item_flags + 1,
                ..old(self).depths()
            }),
            stacks_unchanged_but_depths(old(self), final(self)),
    {
        self.item_flags_depth = self.item_flags_depth + 1;
        ItemFlagsStackToken { flag: item_flag, index: self.item_flags_depth - 1 }
    }

    /// Takes the exclusive flag for one draw surface, failing if it is
    /// already held.
    pub fn acquire_surface(&mut self, kind: SurfaceKind) -> (r: Result<
        (),
        crate::draw_list::SurfaceInUseError,
    >)
        ensures
            r is Ok <==> !old(self).surface_held(kind),
            r is Ok ==> final(self).surface_held(kind),
            r matches Err(e) ==> e.kind == kind && *final(self) == *old(self),
            forall|k: SurfaceKind|
                k != kind ==> final(self).surface_held(k) == old(self).surface_held(k),
            same_identity(old(self), final(self)),
            same_arena(old(self), final(self)),
            same_scopes(old(self), final(self)),
            same_depths(old(self), final(self)),
    {
        let held = match kind {
            SurfaceKind::Window => self.window_surface,
            SurfaceKind::Background => self.background_surface,
            SurfaceKind::Foreground => self.foreground_surface,
        };
        if held {
            Err(crate::draw_list::SurfaceInUseError { kind })
        } else {
            match kind {
                SurfaceKind::Window => {
                    self.window_surface = true;
                },
                SurfaceKind::Background => {
                    self.background_surface = true;
                },
                SurfaceKind::Foreground => {
                    self.foreground_surface = true;
                },
            }
            Ok(())
        }
    }

    /// Returns the exclusive flag for one draw surface.
    pub fn release_surface(&mut self, kind: SurfaceKind)
        ensures
            !final(self).surface_held(kind),
            forall|k: SurfaceKind|
                k != kind ==> final(self).surface_held(k) == old(self).surface_held(k),
            same_identity(old(self), final(self)),
            same_arena(old(self), final(self)),
            same_scopes(old(self), final(self)),
            same_depths(old(self), final(self)),
    {
        match kind {
            SurfaceKind::Window => {
                self.window_surface = false;
            },
            SurfaceKind::Background => {
                self.background_surface = false;
            },
            SurfaceKind::Foreground => {
                self.foreground_surface = false;
            },
        }
    }

    /// The number of draw-surface handles still held.
    fn count_held_surfaces(&self) -> (n: usize)
        ensures
            n == 0 <==> !self.surface_held(SurfaceKind::Window) && !self.surface_held(
                SurfaceKind::Background,
            ) && !self.surface_held(SurfaceKind::Foreground),
    {
        let mut n: usize = 0;
        if self.window_surface {
            n = n + 1;
        }
        if self.background_surface {
            n = n + 1;
        }
        if self.foreground_surface {
            n = n + 1;
        }
        n
    }
}

} // verus!
