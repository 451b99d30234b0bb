//! Font atlas bookkeeping.
//!
//! The backend owns the rasterized font data; this layer tracks which
//! font handles a given atlas has handed out, so that a stale default
//! font can be detected, and enforces the exclusive-borrow discipline
//! for atlases that are shared between several contexts.

use vstd::prelude::*;

verus! {

/// A font identifier handed out by a [`FontAtlas`].
#[derive(Copy, Clone, Eq, PartialEq, Structural, Debug)]
pub struct FontId(pub u64);

/// The set of fonts registered with one atlas.
///
/// The actual glyph data lives on the backend side; the atlas model
/// records which identifiers are valid so that lookups have an exact
/// answer.
#[derive(Debug)]
pub struct FontAtlas {
    fonts: Vec<u64>,
    next_font_id: u64,
}

impl FontAtlas {
    /// The identifiers of the fonts registered so far, in registration
    /// order.
    pub closed spec fn font_ids(&self) -> Seq<u64> {
        self.fonts@
    }

    /// Identifiers at or above this bound have never been handed out.
    pub closed spec fn id_bound(&self) -> u64 {
        self.next_font_id
    }

    /// Whether `id` names a font registered with this atlas.
    pub open spec fn has_font(&self, id: FontId) -> bool {
        self.font_ids().contains(id.0)
    }

    /// All registered identifiers are below the freshness bound.
    pub closed spec fn wf(&self) -> bool {
        forall|i: int| 0 <= i < self.fonts@.len() ==> self.fonts@[i] < self.next_font_id
    }

    /// Creates an empty atlas.
    pub fn new() -> (atlas: FontAtlas)
        ensures
            atlas.font_ids() =~= Seq::<u64>::empty(),
            atlas.wf(),
    {
        FontAtlas { fonts: Vec::new(), next_font_id: 0 }
    }

    /// Registers one font and returns its fresh identifier.
    pub fn add_font(&mut self) -> (id: FontId)
        requires
            old(self).wf(),
            old(self).id_bound() < u64::MAX,
        ensures
            final(self).wf(),
            id.0 == old(self).id_bound(),
            !old(self).has_font(id),
            final(self).font_ids() =~= old(self).font_ids().push(id.0),
            final(self).has_font(id),
    {
        let id = self.next_font_id;
        self.fonts.push(id);
        self.next_font_id = id + 1;
        proof {
            assert(self.fonts@ =~= old(self).fonts@.push(id));
            assert(self.fonts@[self.fonts@.len() - 1] == id);
            assert(self.fonts@.contains(id));
        }
        FontId(id)
    }

    /// Returns a copy of this atlas's registry.
    pub fn duplicate(&self) -> (r: FontAtlas)
        ensures
            r.font_ids() =~= self.font_ids(),
            r.id_bound() == self.id_bound(),
            self.wf() ==> r.wf(),
    {
        let mut fonts: Vec<u64> = Vec::new();
        let mut i: usize = 0;
        while i < self.fonts.len()
            invariant
                i <= self.fonts@.len(),
                fonts@ =~= self.fonts@.take(i as int),
            decreases self.fonts@.len() - i,
        {
            fonts.push(self.fonts[i]);
            proof {
                assert(fonts@ =~= self.fonts@.take(i + 1));
            }
            i += 1;
        }
        proof {
            assert(fonts@ =~= self.fonts@);
        }
        FontAtlas { fonts, next_font_id: self.next_font_id }
    }

    /// Looks a font up by identifier; absent fonts are an expected,
    /// recoverable condition, so the result is an `Option`, not an error.
    pub fn get_font(&self, id: FontId) -> (r: Option<FontId>)
        ensures
            r is Some <==> self.has_font(id),
            r is Some ==> r->0 == id,
    {
        let mut i: usize = 0;
        while i < self.fonts.len()
            invariant
                i <= self.fonts@.len(),
                forall|j: int| 0 <= j < i ==> self.fonts@[j] != id.0,
            decreases self.fonts@.len() - i,
        {
            if self.fonts[i] == id.0 {
                return Some(id);
            }
            i += 1;
        }
        None
    }
}

impl Default for FontAtlas {
    /// Same as [`FontAtlas::new`].
    fn default() -> (atlas: FontAtlas)
        ensures
            atlas.font_ids() =~= Seq::<u64>::empty(),
            atlas.wf(),
    {
        FontAtlas::new()
    }
}

} // verus!
