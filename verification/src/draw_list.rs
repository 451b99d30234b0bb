//! Draw-surface handles and their exclusivity locks.
//!
//! The backend returns a raw, mutable, aliasable pointer for each draw
//! surface; two live handles to the same surface would let two call
//! sites corrupt the same drawing buffer even in sequential code. One
//! flag per surface kind turns that into an explicit, attributable
//! failure: acquiring a handle while another one for the same kind is
//! live is rejected, with an error naming the surface kind.

use crate::session::Ui;
use vstd::prelude::*;

verus! {

/// One of the distinct drawing targets the backend exposes as a
/// mutable handle.
#[derive(Copy, Clone, Eq, PartialEq, Structural, Debug)]
pub enum SurfaceKind {
    /// The draw list of the current window.
    Window,
    /// The draw list rendered behind every window.
    Background,
    /// The draw list rendered in front of every window.
    Foreground,
}

impl SurfaceKind {
    /// The name of the surface kind, as used in diagnostics.
    pub fn name(&self) -> (r: &'static str)
        ensures
            self is Window ==> r@ == "window"@,
            self is Background ==> r@ == "background"@,
            self is Foreground ==> r@ == "foreground"@,
    {
        match self {
            SurfaceKind::Window => "window",
            SurfaceKind::Background => "background",
            SurfaceKind::Foreground => "foreground",
        }
    }
}

/// The error reported when a second handle to a draw surface is
/// requested while the first is still live. It names the surface kind
/// involved.
#[derive(Copy, Clone, Eq, PartialEq, Structural, Debug)]
pub struct SurfaceInUseError {
    /// The surface kind for which a handle is already live.
    pub kind: SurfaceKind,
}

impl SurfaceInUseError {
    /// A description of the misuse, naming the surface kind.
    pub fn message(&self) -> (r: &'static str)
        ensures
            self.kind is Window ==> r@ == "the window draw list is already loaded; only one instance of it can be live"@,
            self.kind is Background ==> r@
                == "the background draw list is already loaded; only one instance of it can be live"@,
            self.kind is Foreground ==> r@
                == "the foreground draw list is already loaded; only one instance of it can be live"@,
    {
        match self.kind {
            SurfaceKind::Window => "the window draw list is already loaded; only one instance of it can be live",
            SurfaceKind::Background => "the background draw list is already loaded; only one instance of it can be live",
            SurfaceKind::Foreground => "the foreground draw list is already loaded; only one instance of it can be live",
        }
    }
}

/// A live, exclusive handle for custom drawing on one surface.
///
/// At most one handle per surface kind can be live at a time; the
/// handle must be released so the surface can be acquired again.
#[must_use]
pub struct DrawListMut {
    kind: SurfaceKind,
}

impl DrawListMut {
    /// The surface this handle draws on.
    pub closed spec fn kind(&self) -> SurfaceKind {
        self.kind
    }

    /// Releases the handle, making its surface acquirable again.
    pub fn release(self, ui: &mut Ui)
        ensures
            !final(ui).surface_held(self.kind()),
            forall|k: SurfaceKind|
                k != self.kind() ==> final(ui).surface_held(k) == old(ui).surface_held(k),
            crate::session::same_identity(old(ui), final(ui)),
            crate::session::same_arena(old(ui), final(ui)),
            crate::session::same_scopes(old(ui), final(ui)),
            crate::session::same_depths(old(ui), final(ui)),
    {
        ui.release_surface(self.kind);
    }
}

impl Ui {
    /// Acquires the exclusive handle for drawing on the current
    /// window, failing if one is already live.
    pub fn get_window_draw_list(&mut self) -> (r: Result<DrawListMut, SurfaceInUseError>)
        ensures
            r is Ok <==> !old(self).surface_held(SurfaceKind::Window),
            r matches Ok(d) ==> d.kind() == SurfaceKind::Window && final(self).surface_held(
                SurfaceKind::Window,
            ),
            r matches Err(e) ==> e.kind == SurfaceKind::Window && *final(self) == *old(self),
            forall|k: SurfaceKind|
                k != SurfaceKind::Window ==> final(self).surface_held(k) == old(self).surface_held(
                    k,
                ),
            crate::session::same_identity(old(self), final(self)),
            crate::session::same_arena(old(self), final(self)),
            crate::session::same_scopes(old(self), final(self)),
            crate::session::same_depths(old(self), final(self)),
    {
        self.get_draw_list(SurfaceKind::Window)
    }

    /// Acquires the exclusive handle for drawing on the background,
    /// failing if one is already live.
    pub fn get_background_draw_list(&mut self) -> (r: Result<DrawListMut, SurfaceInUseError>)
        ensures
            r is Ok <==> !old(self).surface_held(SurfaceKind::Background),
            r matches Ok(d) ==> d.kind() == SurfaceKind::Background && final(self).surface_held(
                SurfaceKind::Background,
            ),
            r matches Err(e) ==> e.kind == SurfaceKind::Background && *final(self) == *old(self),
            forall|k: SurfaceKind|
                k != SurfaceKind::Background ==> final(self).surface_held(k) == old(self).surface_held(k),
            crate::session::same_identity(old(self), final(self)),
            crate::session::same_arena(old(self), final(self)),
            crate::session::same_scopes(old(self), final(self)),
            crate::session::same_depths(old(self), final(self)),
    {
        self.get_draw_list(SurfaceKind::Background)
    }

    /// Acquires the exclusive handle for drawing on the foreground,
    /// failing if one is already live.
    pub fn get_foreground_draw_list(&mut self) -> (r: Result<DrawListMut, SurfaceInUseError>)
        ensures
            r is Ok <==> !old(self).surface_held(SurfaceKind::Foreground),
            r matches Ok(d) ==> d.kind() == SurfaceKind::Foreground && final(self).surface_held(
                SurfaceKind::Foreground,
            ),
            r matches Err(e) ==> e.kind == SurfaceKind::Foreground && *final(self) == *old(self),
            forall|k: SurfaceKind|
                k != SurfaceKind::Foreground ==> final(self).surface_held(k) == old(self).surface_held(k),
            crate::session::same_identity(old(self), final(self)),
            crate::session::same_arena(old(self), final(self)),
            crate::session::same_scopes(old(self), final(self)),
            crate::session::same_depths(old(self), final(self)),
    {
        self.get_draw_list(SurfaceKind::Foreground)
    }

    fn get_draw_list(&mut self, kind: SurfaceKind) -> (r: Result<DrawListMut, SurfaceInUseError>)
        ensures
            r is Ok <==> !old(self).surface_held(kind),
            r matches Ok(d) ==> d.kind() == kind && final(self).surface_held(kind),
            r matches Err(e) ==> e.kind == kind && *final(self) == *old(self),
            forall|k: SurfaceKind|
                k != kind ==> final(self).surface_held(k) == old(self).surface_held(k),
            crate::session::same_identity(old(self), final(self)),
            crate::session::same_arena(old(self), final(self)),
            crate::session::same_scopes(old(self), final(self)),
            crate::session::same_depths(old(self), final(self)),
    {
        match self.acquire_surface(kind) {
            Ok(()) => Ok(DrawListMut { kind }),
            Err(e) => Err(e),
        }
    }
}

} // verus!
