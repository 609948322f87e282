//! The asset registry: textures looked up by name.
//!
//! Loading a file happens in the host; the manager keeps the association
//! from names to texture handles. It is an association list where a newer
//! entry shadows an older one of the same name, so storing under a name
//! replaces what the name meant.

use vstd::prelude::*;

use crate::texture::Texture;

verus! {

/// The texture a name means in an association list: the newest entry wins.
pub open spec fn assoc(entries: Seq<(String, Texture)>, name: Seq<char>) -> Option<Texture>
    decreases entries.len(),
{
    if entries.len() == 0 {
        None
    } else if entries[0].0@ == name {
        Some(entries[0].1)
    } else {
        assoc(entries.skip(1), name)
    }
}

/// Supplies textures by name.
pub struct AssetManager {
    pub textures: Vec<(String, Texture)>,
}

impl AssetManager {
    pub fn new() -> (m: AssetManager)
        ensures
            m.textures@.len() == 0,
    {
        AssetManager { textures: Vec::new() }
    }

    /// The texture registered under `name`, if any.
    pub fn get_texture(&self, name: &String) -> (r: Option<Texture>)
        ensures
            r == assoc(self.textures@, name@),
    {
        let mut i: usize = 0;
        proof {
            assert(self.textures@.skip(0) =~= self.textures@);
        }
        while i < self.textures.len()
            invariant
                i <= self.textures@.len(),
                assoc(self.textures@, name@) == assoc(self.textures@.skip(i as int), name@),
            decreases self.textures@.len() - i,
        {
            let entry = &self.textures[i];
            proof {
                assert(self.textures@.skip(i as int)[0] == self.textures@[i as int]);
                assert(self.textures@.skip(i as int).skip(1) =~= self.textures@.skip(i as int + 1));
            }
            if entry.0 == *name {
                return Some(entry.1);
            }
            i += 1;
        }
        proof {
            assert(self.textures@.skip(self.textures@.len() as int) =~= Seq::<(
                String,
                Texture,
            )>::empty());
        }
        None
    }

    /// Registers `texture` under `name` — replacing whatever the name meant
    /// — and returns it, as a load does.
    pub fn store_texture(&mut self, name: String, texture: Texture) -> (t: Texture)
        ensures
            t == texture,
            assoc(final(self).textures@, name@) == Some(texture),
            forall|n: Seq<char>|
                n != name@ ==> #[trigger] assoc(final(self).textures@, n) == assoc(
                    old(self).textures@,
                    n,
                ),
    {
        self.textures.insert(0, (name, texture));
        proof {
            assert(self.textures@.skip(1) =~= old(self).textures@);
            assert forall|n: Seq<char>| n != self.textures@[0].0@ implies #[trigger] assoc(
                self.textures@,
                n,
            ) == assoc(old(self).textures@, n) by {
            }
        }
        texture
    }
}

} // verus!
