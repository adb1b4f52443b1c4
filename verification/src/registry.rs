//! The texture registry: an ordered, append-only collection of texture
//! data, plus the slot count of the bind-group layout derived from it.
//!
//! Insertion order is binding order: the index a texture gets at
//! registration is the value vertices store and the GPU program uses to
//! address it. Registration marks the registry dirty; rebuilding the bind
//! group makes the derived layout's slot count agree with the collection
//! again, and no frame may be prepared in between.

use vstd::prelude::*;
use crate::texture::TextureData;

verus! {

/// How many slots the derived bind-group layout has for `n` registered
/// textures: one placeholder slot when the registry is empty, since a GPU
/// binding array may not be empty, otherwise one slot per texture.
pub open spec fn bind_slot_count(n: int) -> int {
    if n == 0 {
        1
    } else {
        n
    }
}

/// The registry's abstract state: the stored textures in registration
/// order, the slot count of the currently built layout, and whether the
/// layout is current.
pub struct RegistryModel {
    pub textures: Seq<TextureData>,
    pub bound: int,
    pub clean: bool,
}

/// What registering a texture does to the abstract state: the texture is
/// appended, the built layout is untouched (and hence stale), and the new
/// texture's index — the previous length — is handed back.
pub open spec fn spec_register(m: RegistryModel, t: TextureData) -> (RegistryModel, int) {
    (
        RegistryModel { textures: m.textures.push(t), bound: m.bound, clean: false },
        m.textures.len() as int,
    )
}

/// What rebuilding the bind group does to the abstract state: the textures
/// are untouched and the layout's slot count now matches them.
pub open spec fn spec_rebuild(m: RegistryModel) -> RegistryModel {
    RegistryModel {
        textures: m.textures,
        bound: bind_slot_count(m.textures.len() as int),
        clean: true,
    }
}

/// Registering a texture grows the registry by exactly one and assigns it
/// the index equal to the previous length; rebuilding the bind group
/// afterwards produces a layout whose slot count equals the new length.
pub proof fn lemma_register_then_rebuild(m: RegistryModel, t: TextureData)
    ensures
        spec_register(m, t).1 == m.textures.len(),
        spec_register(m, t).0.textures.len() == m.textures.len() + 1,
        spec_rebuild(spec_register(m, t).0).bound == m.textures.len() + 1,
        spec_rebuild(spec_register(m, t).0).clean,
{
}

/// The ordered texture collection together with its derived bind-group
/// layout's slot count.
pub struct TextureRegistry {
    pub textures: Vec<TextureData>,
    pub bound_count: usize,
    pub clean: bool,
}

impl TextureRegistry {
    /// The abstract state of this registry.
    pub open spec fn model(&self) -> RegistryModel {
        RegistryModel {
            textures: self.textures@,
            bound: self.bound_count as int,
            clean: self.clean,
        }
    }

    /// The registry's invariant: every stored texture is well formed, the
    /// layout always has at least its placeholder slot, and whenever the
    /// registry is clean the slot count agrees with the collection.
    pub open spec fn wf(&self) -> bool {
        &&& forall|i: int| 0 <= i < self.textures@.len() ==> self.textures@[i].wf()
        &&& self.bound_count >= 1
        &&& self.clean ==> self.bound_count as int == bind_slot_count(self.textures@.len() as int)
    }

    /// An empty registry, presenting the single placeholder slot.
    pub fn new() -> (r: TextureRegistry)
        ensures
            r.textures@.len() == 0,
            r.bound_count == 1,
            r.clean,
            r.wf(),
    {
        TextureRegistry { textures: Vec::new(), bound_count: 1, clean: true }
    }

    /// How many textures are registered.
    pub fn len(&self) -> (n: usize)
        ensures
            n == self.textures@.len(),
    {
        self.textures.len()
    }

    /// The slot count of the currently built bind-group layout.
    pub fn bound_count(&self) -> (n: usize)
        ensures
            n == self.bound_count,
    {
        self.bound_count
    }

    /// Whether the built layout is current: no texture was registered
    /// since the last rebuild.
    pub fn is_clean(&self) -> (c: bool)
        ensures
            c == self.clean,
    {
        self.clean
    }

    /// The texture registered under `index`.
    pub fn get(&self, index: usize) -> (t: &TextureData)
        requires
            index < self.textures@.len(),
        ensures
            *t == self.textures@[index as int],
    {
        &self.textures[index]
    }

    /// Append a texture and hand back its permanent index: the previous
    /// length. The built layout is now stale until the next rebuild.
    pub fn register(&mut self, texture: TextureData) -> (index: u32)
        requires
            old(self).wf(),
            texture.wf(),
            old(self).textures@.len() < u32::MAX,
        ensures
            final(self).model() == spec_register(old(self).model(), texture).0,
            index as int == spec_register(old(self).model(), texture).1,
            final(self).wf(),
    {
        let index = self.textures.len() as u32;
        self.textures.push(texture);
        self.clean = false;
        index
    }

    /// Rebuild the derived bind-group layout: its slot count now equals
    /// the number of registered textures (or the one placeholder slot for
    /// an empty registry), and the registry is clean again.
    pub fn rebuild_bind_group(&mut self)
        requires
            old(self).wf(),
        ensures
            final(self).model() == spec_rebuild(old(self).model()),
            final(self).wf(),
    {
        if self.textures.len() == 0 {
            self.bound_count = 1;
        } else {
            self.bound_count = self.textures.len();
        }
        self.clean = true;
    }
}

} // verus!
