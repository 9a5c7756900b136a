//! Draw-order items: one GPU draw (or stencil mask step) with its
//! instance-buffer range, texture, and sort key.

use vstd::prelude::*;

verus! {

use core::ops::Range;
use crate::assets::AssetsId;

/// One entry of the frame's draw order.
///
/// `Sprite` is a plain alpha-blended draw; `BlendModeSprite` and
/// `BlurSprite` composite against a grab of the current frame;
/// `SpriteMaskStart` and `SpriteMaskEnd` raise and lower the stencil
/// counter over the sprite's footprint without writing color.
#[derive(Debug)]
pub enum RenderItem {
    Sprite { range: Range<u32>, texture_id: AssetsId, sort_key: i64 },
    BlendModeSprite { range: Range<u32>, texture_id: AssetsId, sort_key: i64 },
    BlurSprite { range: Range<u32>, texture_id: AssetsId, sort_key: i64 },
    SpriteMaskStart { range: Range<u32>, texture_id: AssetsId, sort_key: i64 },
    SpriteMaskEnd { range: Range<u32>, texture_id: AssetsId, sort_key: i64 },
}

impl RenderItem {
    /// The texture the item draws with.
    pub open spec fn texture_id_spec(self) -> AssetsId {
        match self {
            RenderItem::Sprite { texture_id, .. } => texture_id,
            RenderItem::BlendModeSprite { texture_id, .. } => texture_id,
            RenderItem::BlurSprite { texture_id, .. } => texture_id,
            RenderItem::SpriteMaskStart { texture_id, .. } => texture_id,
            RenderItem::SpriteMaskEnd { texture_id, .. } => texture_id,
        }
    }

    /// The instance-buffer range the item draws.
    pub open spec fn range_spec(self) -> Range<u32> {
        match self {
            RenderItem::Sprite { range, .. } => range,
            RenderItem::BlendModeSprite { range, .. } => range,
            RenderItem::BlurSprite { range, .. } => range,
            RenderItem::SpriteMaskStart { range, .. } => range,
            RenderItem::SpriteMaskEnd { range, .. } => range,
        }
    }

    /// The tie-breaking key: a mask opens before any content at its depth
    /// and closes after all of it.
    pub open spec fn type_key_spec(self) -> u8 {
        match self {
            RenderItem::Sprite { .. } => 2,
            RenderItem::BlendModeSprite { .. } => 2,
            RenderItem::BlurSprite { .. } => 2,
            RenderItem::SpriteMaskStart { .. } => 1,
            RenderItem::SpriteMaskEnd { .. } => 3,
        }
    }

    /// The primary draw-order key: the world depth.
    pub open spec fn sort_key_spec(self) -> i64 {
        match self {
            RenderItem::Sprite { sort_key, .. } => sort_key,
            RenderItem::BlendModeSprite { sort_key, .. } => sort_key,
            RenderItem::BlurSprite { sort_key, .. } => sort_key,
            RenderItem::SpriteMaskStart { sort_key, .. } => sort_key,
            RenderItem::SpriteMaskEnd { sort_key, .. } => sort_key,
        }
    }

    /// Whether the item's draw must read the current frame contents
    /// through a grab pass.
    pub open spec fn needs_grab_spec(self) -> bool {
        self is BlendModeSprite || self is BlurSprite
    }

    /// The texture the item draws with.
    pub fn texture_id(&self) -> (id: AssetsId)
        ensures
            id == self.texture_id_spec(),
    {
        match self {
            RenderItem::Sprite { texture_id, .. } => *texture_id,
            RenderItem::BlendModeSprite { texture_id, .. } => *texture_id,
            RenderItem::BlurSprite { texture_id, .. } => *texture_id,
            RenderItem::SpriteMaskStart { texture_id, .. } => *texture_id,
            RenderItem::SpriteMaskEnd { texture_id, .. } => *texture_id,
        }
    }

    /// The instance-buffer range the item draws.
    pub fn range(&self) -> (r: &Range<u32>)
        ensures
            *r == self.range_spec(),
    {
        match self {
            RenderItem::Sprite { range, .. } => range,
            RenderItem::BlendModeSprite { range, .. } => range,
            RenderItem::BlurSprite { range, .. } => range,
            RenderItem::SpriteMaskStart { range, .. } => range,
            RenderItem::SpriteMaskEnd { range, .. } => range,
        }
    }

    /// The tie-breaking key next to equal sort keys.
    pub fn type_key(&self) -> (k: u8)
        ensures
            k == self.type_key_spec(),
    {
        match self {
            RenderItem::Sprite { .. } => 2,
            RenderItem::BlendModeSprite { .. } => 2,
            RenderItem::BlurSprite { .. } => 2,
            RenderItem::SpriteMaskStart { .. } => 1,
            RenderItem::SpriteMaskEnd { .. } => 3,
        }
    }

    /// The primary draw-order key: the world depth.
    pub fn sort_key(&self) -> (k: i64)
        ensures
            k == self.sort_key_spec(),
    {
        match self {
            RenderItem::Sprite { sort_key, .. } => *sort_key,
            RenderItem::BlendModeSprite { sort_key, .. } => *sort_key,
            RenderItem::BlurSprite { sort_key, .. } => *sort_key,
            RenderItem::SpriteMaskStart { sort_key, .. } => *sort_key,
            RenderItem::SpriteMaskEnd { sort_key, .. } => *sort_key,
        }
    }
}

/// The draw order: ascending by sort key, ties broken by type key, so that
/// a mask opens before and closes after everything at its depth.
pub open spec fn item_key_le(a: RenderItem, b: RenderItem) -> bool {
    a.sort_key_spec() < b.sort_key_spec() || (a.sort_key_spec() == b.sort_key_spec()
        && a.type_key_spec() <= b.type_key_spec())
}

/// Whether an item carries exactly the given pair of keys.
pub open spec fn item_has_key(it: RenderItem, sort_key: i64, type_key: u8) -> bool {
    it.sort_key_spec() == sort_key && it.type_key_spec() == type_key
}

} // verus!
