//! The texture registry: one entry of pixel size per distinct asset
//! identifier, with identifiers auto-assigned from a counter for
//! procedurally loaded images.
//!
//! The GPU handle of each texture lives with the backend; the registry
//! holds what the classifier needs, the pixel size, and hands a decoded
//! image back to the caller for upload.

use vstd::prelude::*;

verus! {

use crate::assets::AssetsId;
use crate::assets::from_u32_spec;
use crate::fx::FX_ONE;
use crate::vector::Vec2;

/// The pixel size of a registered texture.
#[derive(Debug, Copy, Clone, PartialEq, Eq, Structural)]
pub struct TextureInfo {
    pub width: u32,
    pub height: u32,
}

impl TextureInfo {
    /// The texture size as a fixed-point vector.
    pub fn size_fx(&self) -> (s: Vec2)
        ensures
            s.x == self.width * (FX_ONE as int),
            s.y == self.height * (FX_ONE as int),
    {
        Vec2 { x: (self.width as i64) * (FX_ONE as i64), y: (self.height as i64) * (FX_ONE as i64) }
    }
}

/// An image decoded to tightly packed RGBA bytes, four per pixel.
#[derive(Debug, Clone, PartialEq, Eq)]
pub struct DecodedImage {
    pub width: u32,
    pub height: u32,
    pub pixels: Vec<u8>,
}

impl DecodedImage {
    /// The pixel buffer holds exactly four bytes for every pixel.
    pub open spec fn wf(self) -> bool {
        self.pixels@.len() == 4 * self.width * self.height
    }
}

/// What decoding a byte buffer to RGBA yields: its pixel size and packed
/// pixel bytes, or nothing for bytes that are no image.  Decoding depends
/// on the bytes alone.
pub uninterp spec fn decoded_rgba_of(bytes: Seq<u8>) -> Option<(u32, u32, Seq<u8>)>;

/// Decodes image bytes to a tightly packed RGBA buffer.
///
/// Relies on `image::load_from_memory` (format guessed from the bytes,
/// deterministic in them) and `DynamicImage::to_rgba8` /
/// `ImageBuffer::into_raw`, whose buffer holds exactly
/// `width * height * 4` bytes.
#[verifier::external_body]
fn decode_image_rgba(bytes: &[u8]) -> (r: Option<DecodedImage>)
    ensures
        match r {
            Some(img) => decoded_rgba_of(bytes@) == Some((img.width, img.height, img.pixels@))
                && img.wf(),
            None => decoded_rgba_of(bytes@) is None,
        },
{
    match image::load_from_memory(bytes) {
        Ok(decoded) => {
            let rgba = decoded.to_rgba8();
            let width = rgba.width();
            let height = rgba.height();
            Some(DecodedImage { width, height, pixels: rgba.into_raw() })
        },
        Err(_) => None,
    }
}

/// The mapping an entry list denotes: later entries shadow earlier ones.
pub open spec fn entries_map(entries: Seq<(AssetsId, TextureInfo)>) -> Map<Seq<u8>, TextureInfo>
    decreases entries.len(),
{
    if entries.len() == 0 {
        Map::empty()
    } else {
        entries_map(entries.drop_last()).insert(entries.last().0@, entries.last().1)
    }
}

/// A key is in the denoted map exactly when some entry carries it.
proof fn lemma_entries_map_dom(entries: Seq<(AssetsId, TextureInfo)>, key: Seq<u8>)
    ensures
        entries_map(entries).dom().contains(key) <==> exists|i: int|
            0 <= i < entries.len() && (#[trigger] entries[i]).0@ == key,
    decreases entries.len(),
{
    if entries.len() == 0 {
    } else {
        lemma_entries_map_dom(entries.drop_last(), key);
        if entries.last().0@ == key {
            assert(entries[entries.len() - 1].0@ == key);
        } else if entries_map(entries).dom().contains(key) {
            let i = choose|i: int|
                0 <= i < entries.drop_last().len() && (#[trigger] entries.drop_last()[i]).0@
                    == key;
            assert(entries[i].0@ == key);
        } else {
            assert forall|i: int|
                0 <= i < entries.len() implies (#[trigger] entries[i]).0@ != key by {
                if i < entries.len() - 1 {
                    assert(entries.drop_last()[i] == entries[i]);
                }
            }
        }
    }
}

/// Removing the one entry that carries a key removes the key from the
/// denoted map, provided no other entry carries it.
proof fn lemma_entries_map_remove(entries: Seq<(AssetsId, TextureInfo)>, i: int)
    requires
        0 <= i < entries.len(),
        forall|j: int|
            0 <= j < entries.len() && j != i ==> (#[trigger] entries[j]).0@ != entries[i].0@,
    ensures
        entries_map(entries.remove(i)) == entries_map(entries).remove(entries[i].0@),
    decreases entries.len(),
{
    let key = entries[i].0@;
    if i == entries.len() - 1 {
        assert(entries.remove(i) =~= entries.drop_last());
        lemma_entries_map_dom(entries.drop_last(), key);
        assert forall|j: int|
            0 <= j < entries.drop_last().len() implies (#[trigger] entries.drop_last()[j]).0@
                != key by {
            assert(entries.drop_last()[j] == entries[j]);
        }
        assert(!entries_map(entries.drop_last()).dom().contains(key));
        assert(entries_map(entries.drop_last()).insert(key, entries[i].1).remove(key)
            =~= entries_map(entries.drop_last()));
    } else {
        let shorter = entries.drop_last();
        assert(entries.remove(i).drop_last() =~= shorter.remove(i));
        assert(entries.remove(i).last() == entries.last());
        assert(forall|j: int|
            0 <= j < shorter.len() && j != i ==> (#[trigger] shorter[j]).0@ != shorter[i].0@)
            by {
            assert(forall|j: int| 0 <= j < shorter.len() ==> shorter[j] == entries[j]);
        };
        lemma_entries_map_remove(shorter, i);
        assert(shorter[i] == entries[i]);
        assert(entries.last().0@ != key);
        assert(entries_map(shorter).remove(key).insert(entries.last().0@, entries.last().1)
            =~= entries_map(shorter).insert(entries.last().0@, entries.last().1).remove(key));
    }
}

/// The texture registry.
///
/// Keeps one pixel-size entry per distinct asset identifier; procedurally
/// loaded images get identifiers from a monotonically increasing counter,
/// which never collide with each other (the counter bytes differ) nor with
/// fixed identifiers (those start with a nonzero ASCII byte, counter
/// identifiers with zero).
pub struct TextureStore {
    textures: Vec<(AssetsId, TextureInfo)>,
    auto_increment_key: u32,
}

impl TextureStore {
    /// One entry per distinct identifier.
    pub closed spec fn wf(self) -> bool {
        forall|i: int, j: int|
            0 <= i < j < self.textures@.len() ==> (#[trigger] self.textures@[i]).0@ != (
            #[trigger] self.textures@[j]).0@
    }

    /// The registered textures, as a map from identifier bytes to size.
    pub closed spec fn contents(self) -> Map<Seq<u8>, TextureInfo> {
        entries_map(self.textures@)
    }

    /// The auto-assignment counter.
    pub closed spec fn auto_key_spec(self) -> u32 {
        self.auto_increment_key
    }

    /// An empty registry with the counter at zero.
    pub fn new() -> (store: TextureStore)
        ensures
            store.wf(),
            store.contents() == Map::<Seq<u8>, TextureInfo>::empty(),
            store.auto_key_spec() == 0,
    {
        TextureStore { textures: Vec::new(), auto_increment_key: 0 }
    }

    /// Looks up the pixel size registered under an identifier; absence is
    /// not an error at this layer, the caller decides how to react.
    pub fn get(&self, id: &AssetsId) -> (r: Option<TextureInfo>)
        requires
            self.wf(),
        ensures
            match r {
                Some(info) => self.contents().dom().contains(id@) && info == self.contents()[id@],
                None => !self.contents().dom().contains(id@),
            },
    {
        let n: usize = self.textures.len();
        let mut i: usize = 0;
        while i < n
            invariant
                self.wf(),
                n == self.textures@.len(),
                0 <= i <= n,
                forall|j: int| 0 <= j < i ==> (#[trigger] self.textures@[j]).0@ != id@,
            decreases n - i,
        {
            if self.textures[i].0.bytes_eq(id) {
                proof {
                    lemma_entries_map_get(self.textures@, i as int);
                }
                return Some(self.textures[i].1);
            }
            i = i + 1;
        }
        proof {
            lemma_entries_map_dom(self.textures@, id@);
        }
        None
    }

    /// Registers a decoded image under the given identifier, replacing any
    /// entry already registered under it, and hands the identifier back.
    pub fn load_texture_with_key(&mut self, image: &DecodedImage, key: Option<AssetsId>) -> (id: AssetsId)
        requires
            old(self).wf(),
            key is None ==> old(self).auto_key_spec() < u32::MAX,
        ensures
            final(self).wf(),
            match key {
                Some(k) => id == k && final(self).auto_key_spec() == old(self).auto_key_spec(),
                None => id@ == from_u32_spec((old(self).auto_key_spec() + 1) as u32)
                    && final(self).auto_key_spec() == old(self).auto_key_spec() + 1,
            },
            final(self).contents() == old(self).contents().insert(
                id@,
                TextureInfo { width: image.width, height: image.height },
            ),
    {
        let id: AssetsId = match key {
            Some(k) => k,
            None => {
                self.auto_increment_key = self.auto_increment_key + 1;
                AssetsId::from_u32(self.auto_increment_key)
            },
        };
        let info = TextureInfo { width: image.width, height: image.height };

        let ghost entries0 = self.textures@;
        let ghost auto0 = self.auto_increment_key;
        proof {
            assert(entries0 == old(self).textures@);
        }
        let n: usize = self.textures.len();
        let mut i: usize = 0;
        while i < n
            invariant
                self.wf(),
                self.textures@ == entries0,
                self.auto_increment_key == auto0,
                entries0 == old(self).textures@,
                n == self.textures@.len(),
                0 <= i <= n,
                forall|j: int| 0 <= j < i ==> (#[trigger] self.textures@[j]).0@ != id@,
                info == (TextureInfo { width: image.width, height: image.height }),
                match key {
                    Some(k) => id == k && auto0 == old(self).auto_key_spec(),
                    None => id@ == from_u32_spec((old(self).auto_key_spec() + 1) as u32) && auto0
                        == old(self).auto_key_spec() + 1 && old(self).auto_key_spec() < u32::MAX,
                },
            decreases n - i,
        {
            if self.textures[i].0.bytes_eq(&id) {
                proof {
                    let entries = self.textures@;
                    assert(forall|j: int|
                        0 <= j < entries.len() && j != i ==> (#[trigger] entries[j]).0@
                            != entries[i as int].0@);
                    lemma_entries_map_remove(entries, i as int);
                }
                let ghost before = self.textures@;
                self.textures.remove(i);
                self.textures.push((id, info));
                proof {
                    let removed = before.remove(i as int);
                    assert(self.textures@ =~= removed.push((id, info)));
                    assert(forall|a: int, b: int|
                        0 <= a < b < removed.len() ==> (#[trigger] removed[a]).0@ != (
                        #[trigger] removed[b]).0@) by {
                        assert(forall|a: int|
                            0 <= a < removed.len() ==> removed[a] == (if a < i {
                                before[a]
                            } else {
                                before[a + 1]
                            }));
                    };
                    assert(forall|a: int| 0 <= a < removed.len() ==> (#[trigger] removed[a]).0@ != id@)
                        by {
                        assert(forall|a: int|
                            0 <= a < removed.len() ==> removed[a] == (if a < i {
                                before[a]
                            } else {
                                before[a + 1]
                            }));
                    };
                    lemma_push_unique(removed, id, info);
                    assert(self.textures@.drop_last() =~= removed);
                    assert(entries_map(self.textures@) == entries_map(removed).insert(id@, info));
                    assert(entries_map(entries0) == old(self).contents());
                    assert(entries_map(removed) == old(self).contents().remove(id@));
                    assert(self.contents() =~= old(self).contents().insert(id@, info));
                }
                return id;
            }
            i = i + 1;
        }
        self.textures.push((id, info));
        proof {
            assert(self.textures@.drop_last() =~= entries0);
            lemma_push_unique(entries0, id, info);
            assert(self.contents() =~= old(self).contents().insert(id@, info));
        }
        id
    }

    /// Decodes raw image bytes and registers the pixel size under the
    /// given fixed identifier; the decoded pixels come back for the GPU
    /// upload.  Bytes that decode to no image register nothing.
    pub fn load_texture_raw(&mut self, assets_id: AssetsId, assets_bytes: &[u8]) -> (r: Option<DecodedImage>)
        requires
            old(self).wf(),
        ensures
            final(self).wf(),
            final(self).auto_key_spec() == old(self).auto_key_spec(),
            match r {
                Some(img) => {
                    &&& decoded_rgba_of(assets_bytes@) == Some((img.width, img.height, img.pixels@))
                    &&& img.wf()
                    &&& final(self).contents() == old(self).contents().insert(
                        assets_id@,
                        TextureInfo { width: img.width, height: img.height },
                    )
                },
                None => decoded_rgba_of(assets_bytes@) is None && *final(self) == *old(self),
            },
    {
        match decode_image_rgba(assets_bytes) {
            Some(img) => {
                self.load_texture_with_key(&img, Some(assets_id));
                Some(img)
            },
            None => None,
        }
    }

    /// Registers a procedurally produced image under the next identifier
    /// from the counter.
    pub fn load_texture(&mut self, image: &DecodedImage) -> (id: AssetsId)
        requires
            old(self).wf(),
            old(self).auto_key_spec() < u32::MAX,
        ensures
            final(self).wf(),
            id@ == from_u32_spec((old(self).auto_key_spec() + 1) as u32),
            final(self).auto_key_spec() == old(self).auto_key_spec() + 1,
            final(self).contents() == old(self).contents().insert(
                id@,
                TextureInfo { width: image.width, height: image.height },
            ),
    {
        self.load_texture_with_key(image, None)
    }
}

impl Default for TextureStore {
    /// An empty registry.
    fn default() -> (store: Self)
        ensures
            store.wf(),
            store.contents() == Map::<Seq<u8>, TextureInfo>::empty(),
            store.auto_key_spec() == 0,
    {
        TextureStore::new()
    }
}

/// A scan that matched nothing before position `i` and matches at `i`
/// reads exactly what the denoted map holds for that key.
proof fn lemma_entries_map_get(entries: Seq<(AssetsId, TextureInfo)>, i: int)
    requires
        0 <= i < entries.len(),
        forall|j: int, k: int|
            0 <= j < k < entries.len() ==> (#[trigger] entries[j]).0@ != (#[trigger] entries[k]).0@,
    ensures
        entries_map(entries).dom().contains(entries[i].0@),
        entries_map(entries)[entries[i].0@] == entries[i].1,
    decreases entries.len(),
{
    if i == entries.len() - 1 {
    } else {
        let shorter = entries.drop_last();
        assert(forall|j: int| 0 <= j < shorter.len() ==> shorter[j] == entries[j]);
        lemma_entries_map_get(shorter, i);
        assert(entries.last().0@ != entries[i].0@);
    }
}

/// Pushing an entry whose key no existing entry carries keeps the entries
/// distinct.
proof fn lemma_push_unique(entries: Seq<(AssetsId, TextureInfo)>, id: AssetsId, info: TextureInfo)
    requires
        forall|i: int, j: int|
            0 <= i < j < entries.len() ==> (#[trigger] entries[i]).0@ != (#[trigger] entries[j]).0@,
        forall|i: int| 0 <= i < entries.len() ==> (#[trigger] entries[i]).0@ != id@,
    ensures
        forall|i: int, j: int|
            0 <= i < j < entries.push((id, info)).len() ==> (#[trigger] entries.push(
                (id, info),
            )[i]).0@ != (#[trigger] entries.push((id, info))[j]).0@,
{
    let out = entries.push((id, info));
    assert forall|i: int, j: int| 0 <= i < j < out.len() implies (#[trigger] out[i]).0@ != (
    #[trigger] out[j]).0@ by {
        if j < entries.len() {
            assert(out[i] == entries[i] && out[j] == entries[j]);
        } else {
            assert(out[j] == (id, info));
            assert(out[i] == entries[i]);
        }
    }
}

} // verus!
