//! Texture identifiers and the generic texture mapping renderers use.

use std::collections::HashMap;
use vstd::prelude::*;

verus! {

broadcast use vstd::std_specs::hash::group_hash_axioms;

/// An opaque texture identifier.
#[derive(Copy, Clone, Eq, PartialEq, Structural, Debug)]
pub struct TextureId {
    id: usize,
}

impl TextureId {
    /// The numeric identifier, for use in specifications.
    pub closed spec fn spec_id(&self) -> usize {
        self.id
    }

    /// Creates a new texture id with the given identifier.
    pub fn new(id: usize) -> (t: TextureId)
        ensures
            t.spec_id() == id,
    {
        TextureId { id }
    }

    /// Returns the identifier of the texture id.
    pub fn id(self) -> (r: usize)
        ensures
            r == self.spec_id(),
    {
        self.id
    }
}

/// Generic texture mapping for use by renderers: every inserted
/// texture gets a fresh identifier.
pub struct Textures<T> {
    textures: HashMap<usize, T>,
    next: usize,
}

impl<T> Textures<T> {
    /// The mapping from identifier to texture.
    pub closed spec fn map_view(&self) -> Map<usize, T> {
        self.textures@
    }

    /// Identifiers at or above this bound have never been handed out.
    pub closed spec fn id_bound(&self) -> usize {
        self.next
    }

    /// Every stored identifier is below the freshness bound.
    pub open spec fn wf(&self) -> bool {
        forall|k: usize| self.map_view().dom().contains(k) ==> k < self.id_bound()
    }

    /// Creates an empty texture mapping.
    pub fn new() -> (t: Textures<T>)
        ensures
            t.map_view() =~= Map::<usize, T>::empty(),
            t.id_bound() == 0,
            t.wf(),
    {
        Textures { textures: HashMap::new(), next: 0 }
    }

    /// Inserts a texture under a fresh identifier and returns that
    /// identifier.
    pub fn insert(&mut self, texture: T) -> (id: TextureId)
        requires
            old(self).wf(),
            old(self).id_bound() < usize::MAX,
        ensures
            final(self).wf(),
            id.spec_id() == old(self).id_bound(),
            !old(self).map_view().dom().contains(id.spec_id()),
            final(self).map_view() =~= old(self).map_view().insert(id.spec_id(), texture),
            final(self).id_bound() == old(self).id_bound() + 1,
    {
        let id = self.next;
        self.textures.insert(id, texture);
        self.next = id + 1;
        proof {
            assert forall|k: usize| self.map_view().dom().contains(k) implies k
                < self.id_bound() by {
                if k != id {
                    assert(old(self).map_view().dom().contains(k));
                }
            }
        }
        TextureId::new(id)
    }

    /// Replaces the texture stored under `id`, returning the previous
    /// one, if any.
    pub fn replace(&mut self, id: TextureId, texture: T) -> (prev: Option<T>)
        requires
            old(self).wf(),
            id.spec_id() < old(self).id_bound(),
        ensures
            final(self).wf(),
            final(self).map_view() =~= old(self).map_view().insert(id.spec_id(), texture),
            final(self).id_bound() == old(self).id_bound(),
            prev is Some <==> old(self).map_view().dom().contains(id.spec_id()),
            prev matches Some(p) ==> p == old(self).map_view()[id.spec_id()],
    {
        let prev = self.textures.insert(id.id(), texture);
        proof {
            assert forall|k: usize| self.map_view().dom().contains(k) implies k
                < self.id_bound() by {
                if k != id.spec_id() {
                    assert(old(self).map_view().dom().contains(k));
                }
            }
        }
        prev
    }

    /// Removes and returns the texture stored under `id`, if any.
    pub fn remove(&mut self, id: TextureId) -> (prev: Option<T>)
        requires
            old(self).wf(),
        ensures
            final(self).wf(),
            final(self).map_view() =~= old(self).map_view().remove(id.spec_id()),
            final(self).id_bound() == old(self).id_bound(),
            prev is Some <==> old(self).map_view().dom().contains(id.spec_id()),
            prev matches Some(p) ==> p == old(self).map_view()[id.spec_id()],
    {
        let prev = self.textures.remove(&id.id());
        proof {
            assert forall|k: usize| self.map_view().dom().contains(k) implies k
                < self.id_bound() by {
                assert(old(self).map_view().dom().contains(k));
            }
        }
        prev
    }

    /// Returns the texture stored under `id`, if any.
    pub fn get(&self, id: TextureId) -> (r: Option<&T>)
        ensures
            r is Some <==> self.map_view().dom().contains(id.spec_id()),
            r matches Some(t) ==> *t == self.map_view()[id.spec_id()],
    {
        self.textures.get(&id.id())
    }
}

impl<T> Default for Textures<T> {
    /// Same as [`Textures::new`].
    fn default() -> (t: Textures<T>)
        ensures
            t.map_view() =~= Map::<usize, T>::empty(),
            t.id_bound() == 0,
            t.wf(),
    {
        Textures::new()
    }
}

} // verus!
