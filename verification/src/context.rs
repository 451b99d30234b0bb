//! Context lifecycle management.
//!
//! The backend keeps one process-wide "current context" pointer, and at
//! most one context may be registered with it at any time, while any
//! number of suspended contexts may exist. [`ContextHub`] is the
//! explicit model of that process-wide state; every administrative
//! operation (create, suspend, activate, destroy, current) takes the
//! hub, which corresponds to holding the process-wide lock for the
//! whole transition.

use crate::fonts::{FontAtlas, FontId};
use vstd::prelude::*;
use vstd::string::StringExecFns;

verus! {

/// One shared font atlas slot: the atlas itself plus the flag that
/// enforces the exclusive-borrow discipline while a frame uses it.
pub struct AtlasSlot {
    atlas: FontAtlas,
    borrowed: bool,
}

/// The process-wide state of the backend, as far as context
/// administration is concerned: which context (if any) is registered as
/// current, a freshness bound for context identifiers, and the shared
/// font atlases.
pub struct ContextHub {
    current: Option<u64>,
    next_id: u64,
    atlases: Vec<AtlasSlot>,
}

impl ContextHub {
    /// The identifier of the active context, if one is active.
    pub closed spec fn active_id(&self) -> Option<u64> {
        self.current
    }

    /// Context identifiers at or above this bound have never been
    /// handed out.
    pub closed spec fn id_bound(&self) -> u64 {
        self.next_id
    }

    /// How many shared font atlases have been created.
    pub closed spec fn atlas_count(&self) -> nat {
        self.atlases@.len()
    }

    /// The shared atlas in slot `i`.
    pub closed spec fn atlas_at(&self, i: int) -> FontAtlas {
        self.atlases@[i].atlas
    }

    /// Whether the shared atlas in slot `i` is currently borrowed by a
    /// frame session.
    pub closed spec fn atlas_borrowed(&self, i: int) -> bool {
        self.atlases@[i].borrowed
    }

    /// Every shared atlas is internally consistent.
    pub open spec fn wf(&self) -> bool {
        forall|i: int| 0 <= i < self.atlas_count() ==> (#[trigger] self.atlas_at(i)).wf()
    }

    /// The administrative state of a process in which the backend has
    /// never been touched: no context exists, none is active.
    pub fn new() -> (hub: ContextHub)
        ensures
            hub.active_id() is None,
            hub.id_bound() == 0,
            hub.atlas_count() == 0,
            hub.wf(),
    {
        ContextHub { current: None, next_id: 0, atlases: Vec::new() }
    }

    /// Returns whether some context is currently active.
    pub fn has_active(&self) -> (r: bool)
        ensures
            r == (self.active_id() is Some),
    {
        self.current.is_some()
    }

    /// Returns whether the given shared atlas is borrowed by a frame.
    pub fn is_atlas_borrowed(&self, atlas: SharedFontAtlas) -> (r: bool)
        requires
            atlas.wf(self),
        ensures
            r == self.atlas_borrowed(atlas.slot()),
    {
        self.atlases[atlas.index].borrowed
    }

    /// Takes the exclusive borrow of a shared atlas for one frame.
    pub fn borrow_atlas(&mut self, atlas: SharedFontAtlas)
        requires
            old(self).wf(),
            atlas.wf(old(self)),
            !old(self).atlas_borrowed(atlas.slot()),
        ensures
            final(self).wf(),
            final(self).atlas_borrowed(atlas.slot()),
            final(self).active_id() == old(self).active_id(),
            final(self).id_bound() == old(self).id_bound(),
            final(self).atlas_count() == old(self).atlas_count(),
            forall|i: int|
                0 <= i < old(self).atlas_count() ==> #[trigger] final(self).atlas_at(i) == old(self).atlas_at(i),
            forall|i: int|
                0 <= i < old(self).atlas_count() && i != atlas.slot() ==> #[trigger] final(self).atlas_borrowed(i) == old(self).atlas_borrowed(i),
    {
        let slot = &mut self.atlases[atlas.index];
        slot.borrowed = true;
        proof {
            assert forall|i: int| 0 <= i < self.atlas_count() implies (#[trigger] self.atlas_at(
                i,
            )).wf() by {
                assert(self.atlas_at(i) == old(self).atlas_at(i));
                assert(old(self).atlas_at(i).wf());
            }
        }
    }

    /// Returns the exclusive borrow of a shared atlas at the end of a
    /// frame.
    pub fn release_atlas(&mut self, atlas: SharedFontAtlas)
        requires
            old(self).wf(),
            atlas.wf(old(self)),
        ensures
            final(self).wf(),
            !final(self).atlas_borrowed(atlas.slot()),
            final(self).active_id() == old(self).active_id(),
            final(self).id_bound() == old(self).id_bound(),
            final(self).atlas_count() == old(self).atlas_count(),
            forall|i: int|
                0 <= i < old(self).atlas_count() ==> #[trigger] final(self).atlas_at(i) == old(self).atlas_at(i),
            forall|i: int|
                0 <= i < old(self).atlas_count() && i != atlas.slot() ==> #[trigger] final(self).atlas_borrowed(i) == old(self).atlas_borrowed(i),
    {
        let slot = &mut self.atlases[atlas.index];
        slot.borrowed = false;
        proof {
            assert forall|i: int| 0 <= i < self.atlas_count() implies (#[trigger] self.atlas_at(
                i,
            )).wf() by {
                assert(self.atlas_at(i) == old(self).atlas_at(i));
                assert(old(self).atlas_at(i).wf());
            }
        }
    }
}

/// A handle to a shared font atlas, which several contexts may use in
/// turn. The atlas data itself lives in the hub.
#[derive(Copy, Clone, Eq, PartialEq, Structural, Debug)]
pub struct SharedFontAtlas {
    index: usize,
}

impl SharedFontAtlas {
    /// The hub slot this handle refers to.
    pub closed spec fn slot(&self) -> int {
        self.index as int
    }

    /// Whether this handle refers to an existing slot of `hub`.
    pub open spec fn wf(&self, hub: &ContextHub) -> bool {
        0 <= self.slot() < hub.atlas_count()
    }

    /// Creates a new, empty shared font atlas.
    pub fn create(hub: &mut ContextHub) -> (atlas: SharedFontAtlas)
        requires
            old(hub).wf(),
        ensures
            final(hub).wf(),
            atlas.slot() == old(hub).atlas_count(),
            atlas.wf(final(hub)),
            final(hub).atlas_count() == old(hub).atlas_count() + 1,
            final(hub).atlas_at(atlas.slot()).font_ids() =~= Seq::<u64>::empty(),
            !final(hub).atlas_borrowed(atlas.slot()),
            final(hub).active_id() == old(hub).active_id(),
            final(hub).id_bound() == old(hub).id_bound(),
            forall|i: int|
                0 <= i < old(hub).atlas_count() ==> final(hub).atlas_at(i) == old(hub).atlas_at(i)
                    && final(hub).atlas_borrowed(i) == old(hub).atlas_borrowed(i),
    {
        let index = hub.atlases.len();
        let fresh = FontAtlas::new();
        hub.atlases.push(AtlasSlot { atlas: fresh, borrowed: false });
        proof {
            assert forall|i: int| 0 <= i < hub.atlas_count() implies (#[trigger] hub.atlas_at(
                i,
            )).wf() by {
                if i < old(hub).atlas_count() {
                    assert(hub.atlas_at(i) == old(hub).atlas_at(i));
                    assert(old(hub).atlas_at(i).wf());
                } else {
                    assert(hub.atlas_at(i) == fresh);
                }
            }
            assert forall|i: int| 0 <= i < old(hub).atlas_count() implies #[trigger] hub.atlas_at(
                i,
            ) == old(hub).atlas_at(i) && hub.atlas_borrowed(i) == old(hub).atlas_borrowed(i) by {}
        }
        SharedFontAtlas { index }
    }
}

/// The error returned when a new active context is requested while
/// another context is still active.
#[derive(Copy, Clone, Eq, PartialEq, Structural, Debug)]
pub struct AlreadyActiveError {}

impl AlreadyActiveError {
    /// A description of the misuse, for diagnostics.
    pub fn message(&self) -> &'static str {
        "a new active context cannot be created, because another one already exists"
    }
}

/// An owned, active context: the context currently registered with the
/// backend's global pointer.
///
/// The handle retains owned copies of the strings the backend only
/// stores by pointer (ini path, log path, backend names).
pub struct Context {
    id: u64,
    shared_font_atlas: Option<SharedFontAtlas>,
    own_atlas: FontAtlas,
    default_font: Option<FontId>,
    ini_filename: Option<String>,
    log_filename: Option<String>,
    platform_name: Option<String>,
    renderer_name: Option<String>,
}

impl Context {
    /// This context's identifier.
    pub closed spec fn id(&self) -> u64 {
        self.id
    }

    /// The shared atlas this context uses, if it was created with one.
    pub closed spec fn shared_atlas(&self) -> Option<SharedFontAtlas> {
        self.shared_font_atlas
    }

    /// The atlas this context's fonts live in: the shared one if the
    /// context was created with one, its own otherwise.
    pub open spec fn atlas_of(&self, hub: &ContextHub) -> FontAtlas {
        match self.shared_atlas() {
            Some(shared) => hub.atlas_at(shared.slot()),
            None => self.own_atlas_spec(),
        }
    }

    /// This context's own (non-shared) atlas.
    pub closed spec fn own_atlas_spec(&self) -> FontAtlas {
        self.own_atlas
    }

    /// The default font currently selected for this context.
    pub closed spec fn default_font_spec(&self) -> Option<FontId> {
        self.default_font
    }

    /// The ini path the backend would use, if set.
    pub closed spec fn ini_filename_view(&self) -> Option<Seq<char>> {
        match self.ini_filename {
            Some(s) => Some(s@),
            None => None,
        }
    }

    /// The log path the backend would use, if set.
    pub closed spec fn log_filename_view(&self) -> Option<Seq<char>> {
        match self.log_filename {
            Some(s) => Some(s@),
            None => None,
        }
    }

    /// The platform backend name, if set.
    pub closed spec fn platform_name_view(&self) -> Option<Seq<char>> {
        match self.platform_name {
            Some(s) => Some(s@),
            None => None,
        }
    }

    /// The renderer backend name, if set.
    pub closed spec fn renderer_name_view(&self) -> Option<Seq<char>> {
        match self.renderer_name {
            Some(s) => Some(s@),
            None => None,
        }
    }

    /// A context handle is well formed for a hub when its identifier is
    /// below the hub's freshness bound, any shared atlas handle it
    /// holds refers to an existing slot, and its own atlas is
    /// consistent.
    pub open spec fn wf(&self, hub: &ContextHub) -> bool {
        &&& self.id() < hub.id_bound()
        &&& match self.shared_atlas() {
            Some(shared) => shared.wf(hub),
            None => true,
        }
        &&& self.own_atlas_spec().wf()
    }

    /// Whether this handle is the context currently registered with the
    /// backend.
    pub open spec fn is_active(&self, hub: &ContextHub) -> bool {
        hub.active_id() == Some(self.id())
    }

    /// Creates a new active context.
    ///
    /// Succeeds and becomes the active context exactly when no context
    /// is active; fails, leaving the hub untouched, exactly when one
    /// already is.
    pub fn create(hub: &mut ContextHub) -> (r: Result<Context, AlreadyActiveError>)
        requires
            old(hub).wf(),
            old(hub).id_bound() < u64::MAX,
        ensures
            final(hub).wf(),
            r is Ok <==> old(hub).active_id() is None,
            r matches Ok(ctx) ==> {
                &&& ctx.wf(final(hub))
                &&& ctx.is_active(final(hub))
                &&& ctx.id() == old(hub).id_bound()
                &&& ctx.shared_atlas() is None
                &&& ctx.fresh_fields()
                &&& final(hub).id_bound() == old(hub).id_bound() + 1
                &&& hub_unchanged_but_admin(old(hub), final(hub))
            },
            r is Err ==> *final(hub) == *old(hub),
    {
        Self::create_internal(hub, None)
    }

    /// Creates a new active context that uses a shared font atlas.
    ///
    /// Fails exactly when a context is already active.
    pub fn create_with_shared_font_atlas(hub: &mut ContextHub, shared_font_atlas: SharedFontAtlas)
        -> (r: Result<Context, AlreadyActiveError>)
        requires
            old(hub).wf(),
            old(hub).id_bound() < u64::MAX,
            shared_font_atlas.wf(old(hub)),
        ensures
            final(hub).wf(),
            r is Ok <==> old(hub).active_id() is None,
            r matches Ok(ctx) ==> {
                &&& ctx.wf(final(hub))
                &&& ctx.is_active(final(hub))
                &&& ctx.id() == old(hub).id_bound()
                &&& ctx.shared_atlas() == Some(shared_font_atlas)
                &&& ctx.fresh_fields()
                &&& final(hub).id_bound() == old(hub).id_bound() + 1
                &&& hub_unchanged_but_admin(old(hub), final(hub))
            },
            r is Err ==> *final(hub) == *old(hub),
    {
        Self::create_internal(hub, Some(shared_font_atlas))
    }

    /// A freshly created context has the backend's default ini and log
    /// paths, no backend names and no default font set.
    pub open spec fn fresh_fields(&self) -> bool {
        &&& self.default_font_spec() is None
        &&& self.ini_filename_view() == Some("imgui.ini"@)
        &&& self.log_filename_view() == Some("imgui_log.txt"@)
        &&& self.platform_name_view() is None
        &&& self.renderer_name_view() is None
    }

    fn create_internal(hub: &mut ContextHub, shared_font_atlas: Option<SharedFontAtlas>) -> (r:
        Result<Context, AlreadyActiveError>)
        requires
            old(hub).wf(),
            old(hub).id_bound() < u64::MAX,
            shared_font_atlas matches Some(shared) ==> shared.wf(old(hub)),
        ensures
            final(hub).wf(),
            r is Ok <==> old(hub).active_id() is None,
            r matches Ok(ctx) ==> {
                &&& ctx.wf(final(hub))
                &&& ctx.is_active(final(hub))
                &&& ctx.id() == old(hub).id_bound()
                &&& ctx.shared_atlas() == shared_font_atlas
                &&& ctx.fresh_fields()
                &&& final(hub).id_bound() == old(hub).id_bound() + 1
                &&& hub_unchanged_but_admin(old(hub), final(hub))
            },
            r is Err ==> *final(hub) == *old(hub),
    {
        if hub.current.is_some() {
            return Err(AlreadyActiveError {});
        }
        let id = hub.next_id;
        hub.next_id = id + 1;
        // The backend auto-activates a newly created context when none
        // is active, which is the case here.
        hub.current = Some(id);
        proof {
            lemma_wf_same_atlases(old(hub), hub);
        }
        Ok(
            Context {
                id,
                shared_font_atlas,
                own_atlas: FontAtlas::new(),
                default_font: None,
                ini_filename: Some(String::from_str("imgui.ini")),
                log_filename: Some(String::from_str("imgui_log.txt")),
                platform_name: None,
                renderer_name: None,
            },
        )
    }

    /// Suspends this context so another context can become active.
    ///
    /// The handle must be the currently active context; its state is
    /// retained, only the backend's current-context registration is
    /// cleared.
    pub fn suspend(self, hub: &mut ContextHub) -> (suspended: SuspendedContext)
        requires
            old(hub).wf(),
            self.is_active(old(hub)),
        ensures
            final(hub).wf(),
            final(hub).active_id() is None,
            final(hub).id_bound() == old(hub).id_bound(),
            hub_unchanged_but_admin(old(hub), final(hub)),
            suspended.ctx() == self,
    {
        hub.current = None;
        proof {
            lemma_wf_same_atlases(old(hub), hub);
        }
        SuspendedContext { ctx: self }
    }

    /// Destroys this context.
    ///
    /// Destroying the active context leaves no context active;
    /// the backend deactivates it as part of destruction.
    pub fn destroy(self, hub: &mut ContextHub)
        requires
            old(hub).wf(),
        ensures
            final(hub).wf(),
            final(hub).active_id() == if old(hub).active_id() == Some(self.id()) {
                Option::<u64>::None
            } else {
                old(hub).active_id()
            },
            final(hub).id_bound() == old(hub).id_bound(),
            hub_unchanged_but_admin(old(hub), final(hub)),
    {
        let is_current = match &hub.current {
            Some(cur) => *cur == self.id,
            None => false,
        };
        if is_current {
            hub.current = None;
        }
        proof {
            lemma_wf_same_atlases(old(hub), hub);
        }
    }

    /// Returns a non-owning view of the currently active context, if
    /// any. Letting the view go out of scope never destroys the
    /// underlying context.
    pub fn current(hub: &ContextHub) -> (r: Option<ContextRef>)
        ensures
            r is Some <==> hub.active_id() is Some,
            r matches Some(cref) ==> Some(cref.id()) == hub.active_id(),
    {
        match &hub.current {
            Some(id) => Some(ContextRef { id: *id }),
            None => None,
        }
    }

    /// Returns the path to the ini file, or `None` if not set.
    pub fn ini_filename(&self) -> (r: Option<String>)
        ensures
            r.deep_view() == self.ini_filename_view(),
    {
        match &self.ini_filename {
            Some(s) => Some(s.clone()),
            None => None,
        }
    }

    /// Sets the path to the ini file. Pass `None` to disable automatic
    /// ini saving.
    pub fn set_ini_filename(&mut self, ini_filename: Option<String>)
        ensures
            final(self).ini_filename_view() == ini_filename.deep_view(),
            unchanged_but_ini(old(self), final(self)),
    {
        self.ini_filename = ini_filename;
    }

    /// Returns the path to the log file, or `None` if not set.
    pub fn log_filename(&self) -> (r: Option<String>)
        ensures
            r.deep_view() == self.log_filename_view(),
    {
        match &self.log_filename {
            Some(s) => Some(s.clone()),
            None => None,
        }
    }

    /// Sets the log filename.
    pub fn set_log_filename(&mut self, log_filename: Option<String>)
        ensures
            final(self).log_filename_view() == log_filename.deep_view(),
            unchanged_but_log(old(self), final(self)),
    {
        self.log_filename = log_filename;
    }

    /// Returns the backend platform name, or `None` if not set.
    pub fn platform_name(&self) -> (r: Option<String>)
        ensures
            r.deep_view() == self.platform_name_view(),
    {
        match &self.platform_name {
            Some(s) => Some(s.clone()),
            None => None,
        }
    }

    /// Sets the backend platform name.
    pub fn set_platform_name(&mut self, platform_name: Option<String>)
        ensures
            final(self).platform_name_view() == platform_name.deep_view(),
            unchanged_but_platform(old(self), final(self)),
    {
        self.platform_name = platform_name;
    }

    /// Returns the backend renderer name, or `None` if not set.
    pub fn renderer_name(&self) -> (r: Option<String>)
        ensures
            r.deep_view() == self.renderer_name_view(),
    {
        match &self.renderer_name {
            Some(s) => Some(s.clone()),
            None => None,
        }
    }

    /// Sets the backend renderer name.
    pub fn set_renderer_name(&mut self, renderer_name: Option<String>)
        ensures
            final(self).renderer_name_view() == renderer_name.deep_view(),
            unchanged_but_renderer(old(self), final(self)),
    {
        self.renderer_name = renderer_name;
    }

    /// Selects the default font, or clears the selection.
    pub fn set_default_font(&mut self, font: Option<FontId>)
        ensures
            final(self).default_font_spec() == font,
            unchanged_but_default_font(old(self), final(self)),
    {
        self.default_font = font;
    }

    /// The default font currently selected for this context.
    pub fn default_font(&self) -> (r: Option<FontId>)
        ensures
            r == self.default_font_spec(),
    {
        self.default_font
    }

    /// This context's identifier.
    pub fn context_id(&self) -> (r: u64)
        ensures
            r == self.id(),
    {
        self.id
    }

    /// The shared atlas handle this context was created with, if any.
    pub fn shared_font_atlas(&self) -> (r: Option<SharedFontAtlas>)
        ensures
            r == self.shared_atlas(),
    {
        self.shared_font_atlas
    }

    /// Returns a copy of the registry of the atlas this context draws
    /// from.
    pub fn snapshot_atlas(&self, hub: &ContextHub) -> (r: FontAtlas)
        requires
            self.wf(hub),
        ensures
            r.font_ids() =~= self.atlas_of(hub).font_ids(),
            r.id_bound() == self.atlas_of(hub).id_bound(),
            hub.wf() ==> r.wf(),
    {
        match &self.shared_font_atlas {
            Some(shared) => hub.atlases[shared.index].atlas.duplicate(),
            None => self.own_atlas.duplicate(),
        }
    }

    /// Registers a font with the atlas this context draws from, and
    /// returns its fresh identifier.
    pub fn add_font(&mut self, hub: &mut ContextHub) -> (id: FontId)
        requires
            old(self).wf(old(hub)),
            old(hub).wf(),
            old(self).atlas_of(old(hub)).id_bound() < u64::MAX,
            old(self).shared_atlas() matches Some(shared) ==> !old(hub).atlas_borrowed(
                shared.slot(),
            ),
        ensures
            final(self).wf(final(hub)),
            final(hub).wf(),
            final(self).atlas_of(final(hub)).font_ids() =~= old(self).atlas_of(
                old(hub),
            ).font_ids().push(id.0),
            final(self).atlas_of(final(hub)).has_font(id),
            final(hub).active_id() == old(hub).active_id(),
            final(hub).id_bound() == old(hub).id_bound(),
            final(hub).atlas_count() == old(hub).atlas_count(),
            context_unchanged_but_own_atlas(old(self), final(self)),
            old(self).shared_atlas() matches Some(shared) ==> hub_unchanged_except_atlas(
                old(hub),
                final(hub),
                shared.slot(),
            ) && final(self).own_atlas_spec() == old(self).own_atlas_spec(),
            old(self).shared_atlas() is None ==> *final(hub) == *old(hub),
    {
        match &self.shared_font_atlas {
            Some(shared) => {
                let slot = shared.index;
                let slot_ref = &mut hub.atlases[slot];
                let id = slot_ref.atlas.add_font();
                proof {
                    assert(hub.atlas_at(slot as int).font_ids() =~= old(hub).atlas_at(
                        slot as int,
                    ).font_ids().push(id.0));
                    assert forall|i: int| 0 <= i < hub.atlas_count() implies (
                    #[trigger] hub.atlas_at(i)).wf() by {
                        if i != slot as int {
                            assert(hub.atlas_at(i) == old(hub).atlas_at(i));
                            assert(old(hub).atlas_at(i).wf());
                        }
                    }
                    assert forall|i: int| 0 <= i < old(hub).atlas_count() && i != slot as int
                        implies #[trigger] hub.atlas_at(i) == old(hub).atlas_at(i) by {}
                }
                id
            },
            None => {
                let id = self.own_atlas.add_font();
                id
            },
        }
    }
}

/// A non-owning view of the active context.
#[derive(Copy, Clone, Eq, PartialEq, Structural, Debug)]
pub struct ContextRef {
    id: u64,
}

impl ContextRef {
    /// The identifier of the referenced context.
    pub closed spec fn id(&self) -> u64 {
        self.id
    }

    /// The identifier of the referenced context.
    pub fn context_id(&self) -> (r: u64)
        ensures
            r == self.id(),
    {
        self.id
    }
}

/// A suspended context: it exists and retains its state, but is not
/// registered with the backend and cannot be used for widget calls
/// until reactivated.
pub struct SuspendedContext {
    ctx: Context,
}

impl SuspendedContext {
    /// The retained context state.
    pub closed spec fn ctx(&self) -> Context {
        self.ctx
    }

    /// The identifier of the suspended context.
    pub open spec fn id(&self) -> u64 {
        self.ctx().id()
    }

    /// Well-formedness carries over from the underlying context.
    pub open spec fn wf(&self, hub: &ContextHub) -> bool {
        self.ctx().wf(hub)
    }

    /// Creates a new context without activating it, whether or not
    /// another context is active.
    pub fn create(hub: &mut ContextHub) -> (suspended: SuspendedContext)
        requires
            old(hub).wf(),
            old(hub).id_bound() < u64::MAX,
        ensures
            final(hub).wf(),
            suspended.wf(final(hub)),
            suspended.id() == old(hub).id_bound(),
            suspended.ctx().shared_atlas() is None,
            suspended.ctx().fresh_fields(),
            final(hub).active_id() == old(hub).active_id(),
            final(hub).id_bound() == old(hub).id_bound() + 1,
            hub_unchanged_but_admin(old(hub), final(hub)),
    {
        Self::create_internal(hub, None)
    }

    /// Creates a new suspended context that uses a shared font atlas.
    pub fn create_with_shared_font_atlas(hub: &mut ContextHub, shared_font_atlas: SharedFontAtlas)
        -> (suspended: SuspendedContext)
        requires
            old(hub).wf(),
            old(hub).id_bound() < u64::MAX,
            shared_font_atlas.wf(old(hub)),
        ensures
            final(hub).wf(),
            suspended.wf(final(hub)),
            suspended.id() == old(hub).id_bound(),
            suspended.ctx().shared_atlas() == Some(shared_font_atlas),
            suspended.ctx().fresh_fields(),
            final(hub).active_id() == old(hub).active_id(),
            final(hub).id_bound() == old(hub).id_bound() + 1,
            hub_unchanged_but_admin(old(hub), final(hub)),
    {
        Self::create_internal(hub, Some(shared_font_atlas))
    }

    fn create_internal(hub: &mut ContextHub, shared_font_atlas: Option<SharedFontAtlas>) -> (
        suspended: SuspendedContext)
        requires
            old(hub).wf(),
            old(hub).id_bound() < u64::MAX,
            shared_font_atlas matches Some(shared) ==> shared.wf(old(hub)),
        ensures
            final(hub).wf(),
            suspended.wf(final(hub)),
            suspended.id() == old(hub).id_bound(),
            suspended.ctx().shared_atlas() == shared_font_atlas,
            suspended.ctx().fresh_fields(),
            final(hub).active_id() == old(hub).active_id(),
            final(hub).id_bound() == old(hub).id_bound() + 1,
            hub_unchanged_but_admin(old(hub), final(hub)),
    {
        let id = hub.next_id;
        hub.next_id = id + 1;
        proof {
            lemma_wf_same_atlases(old(hub), hub);
        }
        // The backend would auto-activate the new context if none were
        // active; creation of a suspended context deactivates it again
        // right away, so the current registration is left as it was.
        SuspendedContext {
            ctx: Context {
                id,
                shared_font_atlas,
                own_atlas: FontAtlas::new(),
                default_font: None,
                ini_filename: Some(String::from_str("imgui.ini")),
                log_filename: Some(String::from_str("imgui_log.txt")),
                platform_name: None,
                renderer_name: None,
            },
        }
    }

    /// Attempts to activate this suspended context.
    ///
    /// Succeeds exactly when no context is active; on failure the
    /// original suspended handle is returned unchanged and the hub is
    /// untouched.
    pub fn activate(self, hub: &mut ContextHub) -> (r: Result<Context, SuspendedContext>)
        requires
            old(hub).wf(),
        ensures
            final(hub).wf(),
            r is Ok <==> old(hub).active_id() is None,
            r matches Ok(ctx) ==> {
                &&& ctx == self.ctx()
                &&& ctx.is_active(final(hub))
                &&& final(hub).id_bound() == old(hub).id_bound()
                &&& hub_unchanged_but_admin(old(hub), final(hub))
            },
            r matches Err(s) ==> s == self && *final(hub) == *old(hub),
    {
        if hub.current.is_none() {
            hub.current = Some(self.ctx.id);
            proof {
                lemma_wf_same_atlases(old(hub), hub);
            }
            Ok(self.ctx)
        } else {
            Err(self)
        }
    }

    /// Destroys this suspended context.
    ///
    /// Destroying a suspended context never changes which context (if
    /// any) is active: identifiers are never reused, so a suspended
    /// handle can never share its identifier with the active context.
    pub fn destroy(self, hub: &mut ContextHub)
        requires
            old(hub).wf(),
        ensures
            final(hub).wf(),
            final(hub).active_id() == if old(hub).active_id() == Some(self.id()) {
                Option::<u64>::None
            } else {
                old(hub).active_id()
            },
            final(hub).id_bound() == old(hub).id_bound(),
            hub_unchanged_but_admin(old(hub), final(hub)),
    {
        self.ctx.destroy(hub)
    }
}

/// The set of identifiers registered with the backend as current.
pub open spec fn hub_active_set(hub: &ContextHub) -> Set<u64> {
    match hub.active_id() {
        Some(id) => Set::empty().insert(id),
        None => Set::empty(),
    }
}

/// At any observed point, at most one context is registered with the
/// backend as current.
pub proof fn lemma_hub_at_most_one_active(hub: &ContextHub)
    ensures
        hub_active_set(hub).finite(),
        hub_active_set(hub).len() <= 1,
{
    match hub.active_id() {
        Some(id) => {
            assert(Set::empty().insert(id).len() == 1);
        },
        None => {
            assert(Set::<u64>::empty().len() == 0);
        },
    }
}

/// One administrative operation on the context state, as seen by the
/// process-wide lock: each variant carries the identifier of the handle
/// it is applied to where one is needed.
pub enum AdminOp {
    /// `Context::create` (and its shared-atlas variant).
    Create,
    /// `SuspendedContext::create` (and its shared-atlas variant).
    CreateSuspended,
    /// `Context::suspend` on the handle with this identifier.
    Suspend(int),
    /// `SuspendedContext::activate` on the handle with this identifier.
    Activate(int),
    /// Destruction of the handle with this identifier.
    Destroy(int),
}

/// The administrative state: the set of identifiers registered as
/// active, and the next fresh identifier.
pub struct AdminState {
    /// Identifiers of contexts registered with the backend as current.
    pub active: Set<int>,
    /// The next fresh identifier.
    pub next: int,
}

/// The state before any context has been created.
pub open spec fn admin_init() -> AdminState {
    AdminState { active: Set::empty(), next: 0 }
}

/// How one administrative operation changes the state. An operation
/// whose precondition does not hold fails and leaves the state
/// unchanged, exactly as the corresponding exec operation reports an
/// error (or, for a suspend of a non-active context, refuses the call).
pub open spec fn admin_step(s: AdminState, op: AdminOp) -> AdminState {
    match op {
        AdminOp::Create => if s.active.is_empty() {
            AdminState { active: s.active.insert(s.next), next: s.next + 1 }
        } else {
            s
        },
        AdminOp::CreateSuspended => AdminState { active: s.active, next: s.next + 1 },
        AdminOp::Suspend(id) => if s.active.contains(id) {
            AdminState { active: s.active.remove(id), next: s.next }
        } else {
            s
        },
        AdminOp::Activate(id) => if s.active.is_empty() {
            AdminState { active: s.active.insert(id), next: s.next }
        } else {
            s
        },
        AdminOp::Destroy(id) => AdminState { active: s.active.remove(id), next: s.next },
    }
}

/// The state after a whole sequence of administrative operations.
pub open spec fn admin_run(s: AdminState, ops: Seq<AdminOp>) -> AdminState
    decreases ops.len(),
{
    if ops.len() == 0 {
        s
    } else {
        admin_run(admin_step(s, ops[0]), ops.drop_first())
    }
}

/// At most one context is active.
pub open spec fn at_most_one_active(s: AdminState) -> bool {
    s.active.finite() && s.active.len() <= 1
}

/// A single administrative operation keeps at most one context active,
/// and a `Create` either succeeds on a state with no active context —
/// the new context becoming the one active context — or fails, because
/// one already is, leaving the state unchanged.
pub proof fn lemma_admin_step_at_most_one(s: AdminState, op: AdminOp)
    requires
        at_most_one_active(s),
    ensures
        at_most_one_active(admin_step(s, op)),
        op is Create && s.active.is_empty() ==> admin_step(s, op).active =~= Set::empty().insert(
            s.next,
        ),
        op is Create && !s.active.is_empty() ==> admin_step(s, op) == s,
{
    match op {
        AdminOp::Create => {
            if s.active.is_empty() {
                assert(s.active =~= Set::empty());
                assert(s.active.insert(s.next) =~= Set::empty().insert(s.next));
                assert(Set::empty().insert(s.next).len() == 1);
            }
        },
        AdminOp::CreateSuspended => {},
        AdminOp::Suspend(id) => {
            if s.active.contains(id) {
                assert(s.active.remove(id).len() == s.active.len() - 1);
            }
        },
        AdminOp::Activate(id) => {
            if s.active.is_empty() {
                assert(s.active =~= Set::empty());
                assert(Set::empty().insert(id).len() == 1);
            }
        },
        AdminOp::Destroy(id) => {
            if s.active.contains(id) {
                assert(s.active.remove(id).len() == s.active.len() - 1);
            } else {
                assert(s.active.remove(id) =~= s.active);
            }
        },
    }
}

/// For every sequence of create / suspend / activate / destroy
/// operations, started from a state with at most one active context, at
/// most one context is active at every observed point.
pub proof fn lemma_admin_run_at_most_one(s: AdminState, ops: Seq<AdminOp>)
    requires
        at_most_one_active(s),
    ensures
        at_most_one_active(admin_run(s, ops)),
    decreases ops.len(),
{
    if ops.len() > 0 {
        lemma_admin_step_at_most_one(s, ops[0]);
        lemma_admin_run_at_most_one(admin_step(s, ops[0]), ops.drop_first());
    }
}

/// Everything in the hub except the atlas in slot `slot` is unchanged.
pub open spec fn hub_unchanged_except_atlas(before: &ContextHub, after: &ContextHub, slot: int) -> bool {
    &&& after.atlas_count() == before.atlas_count()
    &&& after.active_id() == before.active_id()
    &&& after.id_bound() == before.id_bound()
    &&& forall|i: int|
        0 <= i < before.atlas_count() && i != slot ==> #[trigger] after.atlas_at(i)
            == before.atlas_at(i)
    &&& forall|i: int|
        0 <= i < before.atlas_count() ==> #[trigger] after.atlas_borrowed(i)
            == before.atlas_borrowed(i)
}

/// All fields of the context other than its own atlas are unchanged.
pub open spec fn context_unchanged_but_own_atlas(before: &Context, after: &Context) -> bool {
    &&& after.id() == before.id()
    &&& after.shared_atlas() == before.shared_atlas()
    &&& after.default_font_spec() == before.default_font_spec()
    &&& after.ini_filename_view() == before.ini_filename_view()
    &&& after.log_filename_view() == before.log_filename_view()
    &&& after.platform_name_view() == before.platform_name_view()
    &&& after.renderer_name_view() == before.renderer_name_view()
}

/// The hub stays well formed whenever its atlas slots are untouched.
proof fn lemma_wf_same_atlases(before: &ContextHub, after: &ContextHub)
    requires
        before.wf(),
        after.atlases == before.atlases,
    ensures
        after.wf(),
        hub_unchanged_but_admin(before, after),
{
    assert forall|i: int| 0 <= i < after.atlas_count() implies (#[trigger] after.atlas_at(
        i,
    )).wf() by {
        assert(after.atlas_at(i) == before.atlas_at(i));
        assert(before.atlas_at(i).wf());
    }
    assert forall|i: int| 0 <= i < before.atlas_count() implies #[trigger] after.atlas_at(i)
        == before.atlas_at(i) && after.atlas_borrowed(i) == before.atlas_borrowed(i) by {}
}

/// Everything outside the administrative part of the hub — the shared
/// atlases and their borrow flags — is unchanged.
pub open spec fn hub_unchanged_but_admin(before: &ContextHub, after: &ContextHub) -> bool {
    &&& after.atlas_count() == before.atlas_count()
    &&& forall|i: int|
        0 <= i < before.atlas_count() ==> #[trigger] after.atlas_at(i) == before.atlas_at(i)
            && after.atlas_borrowed(i) == before.atlas_borrowed(i)
}

/// All fields of the context other than the ini path are unchanged.
pub open spec fn unchanged_but_ini(before: &Context, after: &Context) -> bool {
    &&& after.id() == before.id()
    &&& after.shared_atlas() == before.shared_atlas()
    &&& after.own_atlas_spec() == before.own_atlas_spec()
    &&& after.default_font_spec() == before.default_font_spec()
    &&& after.log_filename_view() == before.log_filename_view()
    &&& after.platform_name_view() == before.platform_name_view()
    &&& after.renderer_name_view() == before.renderer_name_view()
}

/// All fields of the context other than the log path are unchanged.
pub open spec fn unchanged_but_log(before: &Context, after: &Context) -> bool {
    &&& after.id() == before.id()
    &&& after.shared_atlas() == before.shared_atlas()
    &&& after.own_atlas_spec() == before.own_atlas_spec()
    &&& after.default_font_spec() == before.default_font_spec()
    &&& after.ini_filename_view() == before.ini_filename_view()
    &&& after.platform_name_view() == before.platform_name_view()
    &&& after.renderer_name_view() == before.renderer_name_view()
}

/// All fields of the context other than the platform name are
/// unchanged.
pub open spec fn unchanged_but_platform(before: &Context, after: &Context) -> bool {
    &&& after.id() == before.id()
    &&& after.shared_atlas() == before.shared_atlas()
    &&& after.own_atlas_spec() == before.own_atlas_spec()
    &&& after.default_font_spec() == before.default_font_spec()
    &&& after.ini_filename_view() == before.ini_filename_view()
    &&& after.log_filename_view() == before.log_filename_view()
    &&& after.renderer_name_view() == before.renderer_name_view()
}

/// All fields of the context other than the renderer name are
/// unchanged.
pub open spec fn unchanged_but_renderer(before: &Context, after: &Context) -> bool {
    &&& after.id() == before.id()
    &&& after.shared_atlas() == before.shared_atlas()
    &&& after.own_atlas_spec() == before.own_atlas_spec()
    &&& after.default_font_spec() == before.default_font_spec()
    &&& after.ini_filename_view() == before.ini_filename_view()
    &&& after.log_filename_view() == before.log_filename_view()
    &&& after.platform_name_view() == before.platform_name_view()
}

/// All fields of the context other than the default font are unchanged.
pub open spec fn unchanged_but_default_font(before: &Context, after: &Context) -> bool {
    &&& after.id() == before.id()
    &&& after.shared_atlas() == before.shared_atlas()
    &&& after.own_atlas_spec() == before.own_atlas_spec()
    &&& after.ini_filename_view() == before.ini_filename_view()
    &&& after.log_filename_view() == before.log_filename_view()
    &&& after.platform_name_view() == before.platform_name_view()
    &&& after.renderer_name_view() == before.renderer_name_view()
}

} // verus!
