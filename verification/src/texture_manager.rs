//! Registry mapping one-character texture identifiers to decoded textures.
//!
//! Populated once at startup, read-only during rendering.  The registry is a
//! vector of key/texture pairs with unique keys; inserting an existing key
//! replaces its texture, as a map insertion would.

use vstd::prelude::*;
use crate::color::Color;
use crate::textures::Texture;

verus! {

pub struct TextureManager {
    pub images: Vec<(char, Texture)>,
}

/// The texture bound to `key`: the first pair holding it, if any.
pub open spec fn spec_find(s: Seq<(char, Texture)>, key: char) -> Option<Texture>
    decreases s.len(),
{
    if s.len() == 0 {
        None
    } else if s[0].0 == key {
        Some(s[0].1)
    } else {
        spec_find(s.drop_first(), key)
    }
}

/// If the first `i` pairs miss `key` and pair `i` holds it, the lookup
/// returns pair `i`'s texture.
proof fn lemma_find_at(s: Seq<(char, Texture)>, key: char, i: int)
    requires
        0 <= i < s.len(),
        s[i].0 == key,
        forall|j: int| 0 <= j < i ==> (#[trigger] s[j]).0 != key,
    ensures
        spec_find(s, key) == Some(s[i].1),
    decreases i,
{
    if i == 0 {
    } else {
        lemma_find_at(s.drop_first(), key, i - 1);
    }
}

/// If no pair holds `key`, the lookup misses.
proof fn lemma_find_none(s: Seq<(char, Texture)>, key: char)
    requires
        forall|j: int| 0 <= j < s.len() ==> (#[trigger] s[j]).0 != key,
    ensures
        spec_find(s, key) is None,
    decreases s.len(),
{
    if s.len() > 0 {
        lemma_find_none(s.drop_first(), key);
    }
}

/// Replacing pair `i` in place does not affect lookups of a key that
/// neither the old nor the new pair holds.
proof fn lemma_find_update(s: Seq<(char, Texture)>, i: int, p: (char, Texture), k: char)
    requires
        0 <= i < s.len(),
        s[i].0 != k,
        p.0 != k,
    ensures
        spec_find(s.update(i, p), k) == spec_find(s, k),
    decreases i,
{
    let t = s.update(i, p);
    assert(t.len() == s.len());
    if i == 0 {
        assert(t.drop_first() =~= s.drop_first());
    } else {
        assert(t[0] == s[0]);
        if s[0].0 != k {
            assert(t.drop_first() =~= s.drop_first().update(i - 1, p));
            lemma_find_update(s.drop_first(), i - 1, p, k);
        }
    }
}

/// Appending a pair does not change lookups of other keys, and resolves its
/// own key when that key was absent.
proof fn lemma_find_push(s: Seq<(char, Texture)>, p: (char, Texture), k: char)
    ensures
        p.0 != k ==> spec_find(s.push(p), k) == spec_find(s, k),
        p.0 == k && spec_find(s, k) is None ==> spec_find(s.push(p), k) == Some(p.1),
    decreases s.len(),
{
    if s.len() == 0 {
        assert(s.push(p).len() == 1);
        assert(s.push(p)[0] == p);
        assert(s.push(p).drop_first() =~= Seq::<(char, Texture)>::empty());
        assert(spec_find(s, k) is None);
        assert(spec_find(s.push(p).drop_first(), k) is None);
        if p.0 != k {
            assert(spec_find(s.push(p), k) == spec_find(s.push(p).drop_first(), k));
        }
    } else {
        assert(s.push(p)[0] == s[0]);
        assert(s.push(p).drop_first() =~= s.drop_first().push(p));
        lemma_find_push(s.drop_first(), p, k);
        if s[0].0 == k {
            assert(spec_find(s, k) == Some(s[0].1));
            assert(spec_find(s.push(p), k) == Some(s[0].1));
        } else {
            assert(spec_find(s, k) == spec_find(s.drop_first(), k));
            assert(spec_find(s.push(p), k) == spec_find(s.drop_first().push(p), k));
        }
    }
}

impl Default for TextureManager {
    /// An empty registry: nothing resolves yet.
    fn default() -> (r: TextureManager)
        ensures
            r.wf(),
            forall|k: char| r.spec_lookup(k) is None,
    {
        TextureManager::new()
    }
}

impl TextureManager {
    /// Every stored texture is well formed and every key appears once.
    pub open spec fn wf(self) -> bool {
        &&& forall|i: int|
            0 <= i < self.images@.len() ==> (#[trigger] self.images@[i]).1.wf()
        &&& forall|i: int, j: int|
            0 <= i < j < self.images@.len() ==> self.images@[i].0 != self.images@[j].0
    }

    /// The texture registered under `key`, if any.
    pub open spec fn spec_lookup(self, key: char) -> Option<Texture> {
        spec_find(self.images@, key)
    }

    pub fn new() -> (r: TextureManager)
        ensures
            r.wf(),
            forall|k: char| r.spec_lookup(k) is None,
    {
        let r = TextureManager { images: Vec::new() };
        proof {
            assert forall|k: char| r.spec_lookup(k) is None by {
                lemma_find_none(r.images@, k);
            }
        }
        r
    }

    /// Registers `tex` under `key`, replacing any texture already there.
    pub fn add_texture(&mut self, key: char, tex: Texture)
        requires
            old(self).wf(),
            tex.wf(),
        ensures
            final(self).wf(),
            final(self).spec_lookup(key) == Some(tex),
            forall|k: char| k != key ==> final(self).spec_lookup(k) == old(self).spec_lookup(k),
    {
        let ghost orig = self.images@;
        let n = self.images.len();
        let mut i: usize = 0;
        while i < n
            invariant
                n == self.images@.len(),
                self.images@ == orig,
                i <= n,
                forall|j: int| 0 <= j < i ==> (#[trigger] orig[j]).0 != key,
            decreases n - i,
        {
            if self.images[i].0 == key {
                self.images[i] = (key, tex);
                proof {
                    let s = self.images@;
                    assert(s == orig.update(i as int, (key, tex)));
                    assert forall|j: int| 0 <= j < s.len() implies (#[trigger] s[j]).0
                        == orig[j].0 by {
                        if j != i as int {
                            assert(s[j] == orig[j]);
                        }
                    }
                    assert forall|j: int| 0 <= j < s.len() implies (#[trigger] s[j]).1.wf() by {
                        if j != i as int {
                            assert(s[j] == orig[j]);
                        }
                    }
                    assert forall|a: int, b: int| 0 <= a < b < s.len() implies s[a].0
                        != s[b].0 by {
                        assert(s[a].0 == orig[a].0);
                        assert(s[b].0 == orig[b].0);
                    }
                    lemma_find_at(s, key, i as int);
                    assert forall|k: char| k != key implies spec_find(s, k) == spec_find(
                        orig,
                        k,
                    ) by {
                        lemma_find_update(orig, i as int, (key, tex), k);
                    }
                }
                return ;
            }
            i = i + 1;
        }
        self.images.push((key, tex));
        proof {
            let s = self.images@;
            assert(s == orig.push((key, tex)));
            assert forall|j: int| 0 <= j < s.len() implies (#[trigger] s[j]).1.wf() by {
                if j < orig.len() {
                    assert(s[j] == orig[j]);
                }
            }
            assert forall|a: int, b: int| 0 <= a < b < s.len() implies s[a].0 != s[b].0 by {
                assert(s[a] == orig[a]);
                if b < orig.len() {
                    assert(s[b] == orig[b]);
                } else {
                    assert(s[b] == (key, tex));
                }
            }
            lemma_find_none(orig, key);
            lemma_find_push(orig, (key, tex), key);
            assert forall|k: char| k != key implies spec_find(s, k) == spec_find(orig, k) by {
                lemma_find_push(orig, (key, tex), k);
            }
        }
    }

    /// Looks the key up and hands back a reference to its texture.
    pub fn get(&self, key: char) -> (r: Option<&Texture>)
        ensures
            match r {
                Some(t) => self.spec_lookup(key) == Some(*t),
                None => self.spec_lookup(key) is None,
            },
    {
        let n = self.images.len();
        let mut i: usize = 0;
        while i < n
            invariant
                n == self.images@.len(),
                i <= n,
                forall|j: int| 0 <= j < i ==> (#[trigger] self.images@[j]).0 != key,
            decreases n - i,
        {
            if self.images[i].0 == key {
                proof {
                    lemma_find_at(self.images@, key, i as int);
                }
                return Some(&self.images[i].1);
            }
            i = i + 1;
        }
        proof {
            lemma_find_none(self.images@, key);
        }
        None
    }

    /// The colour [`TextureManager::get_pixel_color`] returns: the texel at
    /// the clamped pixel coordinates, or magenta when the key is unknown, so
    /// a missing texture is visually obvious rather than fatal.
    pub open spec fn spec_get_pixel_color(self, key: char, x: u32, y: u32) -> Color {
        match self.spec_lookup(key) {
            Some(tex) => {
                let xi = if x > tex.width - 1 { tex.width - 1 } else { x as int };
                let yi = if y > tex.height - 1 { tex.height - 1 } else { y as int };
                let idx = (yi * tex.width + xi) * 4;
                Color {
                    r: tex.data@[idx],
                    g: tex.data@[idx + 1],
                    b: tex.data@[idx + 2],
                    a: tex.data@[idx + 3],
                }
            },
            None => Color { r: 255, g: 0, b: 255, a: 255 },
        }
    }

    /// Reads the texel at pixel coordinates `(x, y)` of the texture under
    /// `key`, clamping the coordinates into the texture; magenta when no
    /// texture is registered under `key`.
    pub fn get_pixel_color(&self, key: char, x: u32, y: u32) -> (c: Color)
        requires
            self.wf(),
        ensures
            c == self.spec_get_pixel_color(key, x, y),
    {
        match self.get(key) {
            Some(tex) => {
                proof {
                    lemma_wf_lookup(*self, key);
                }
                let xi: u32 = if x > tex.width - 1 { tex.width - 1 } else { x };
                let yi: u32 = if y > tex.height - 1 { tex.height - 1 } else { y };
                let len: usize = tex.data.len();
                proof {
                    assert((yi as int) * (tex.width as int) + (xi as int) < (tex.width as int) * (
                    tex.height as int)) by (nonlinear_arith)
                        requires
                            xi as int <= tex.width as int - 1,
                            yi as int <= tex.height as int - 1,
                            tex.width as int >= 1,
                            tex.height as int >= 1,
                    ;
                    assert((tex.width as int) * (tex.height as int) * 4 == len);
                }
                let idx: usize = (((yi as u64) * (tex.width as u64) + (xi as u64)) * 4) as usize;
                Color {
                    r: tex.data[idx],
                    g: tex.data[idx + 1],
                    b: tex.data[idx + 2],
                    a: tex.data[idx + 3],
                }
            },
            None => Color { r: 255, g: 0, b: 255, a: 255 },
        }
    }
}

/// In a well-formed registry every texture a lookup returns is well formed.
pub proof fn lemma_wf_lookup(tm: TextureManager, key: char)
    requires
        tm.wf(),
        tm.spec_lookup(key) is Some,
    ensures
        tm.spec_lookup(key)->Some_0.wf(),
{
    lemma_find_wf(tm.images@, key);
}

proof fn lemma_find_wf(s: Seq<(char, Texture)>, key: char)
    requires
        forall|i: int| 0 <= i < s.len() ==> (#[trigger] s[i]).1.wf(),
        spec_find(s, key) is Some,
    ensures
        spec_find(s, key)->Some_0.wf(),
    decreases s.len(),
{
    if s.len() > 0 && s[0].0 != key {
        assert(forall|i: int|
            0 <= i < s.drop_first().len() ==> (#[trigger] s.drop_first()[i]).1.wf());
        lemma_find_wf(s.drop_first(), key);
    }
}

} // verus!
