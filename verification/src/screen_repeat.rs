//! The screen-space tiling background: a texture repeated across the
//! viewport, offset for parallax, drawn before everything else.

use vstd::prelude::*;

verus! {

use crate::assets::AssetsId;
use crate::color::Color;
use crate::vector::Vec2;

/// Description of the tiling background pass.
#[derive(Debug, Copy, Clone)]
pub struct ScreenRepeat {
    pub texture_id: AssetsId,
    /// Parallax offset of the tiling, in texture units.
    pub offset: Vec2,
    /// How many times the texture repeats across the viewport.
    pub scale: Vec2,
    /// Tint of the background.
    pub color: Color,
}

impl Default for ScreenRepeat {
    /// No offset, unit tiling, the reserved identifier and a white tint.
    fn default() -> (s: Self)
        ensures
            s.texture_id@ == Seq::new(36, |i: int| 0u8),
            s.offset == (Vec2 { x: 0i64, y: 0i64 }),
            s.scale == (Vec2 { x: 0i64, y: 0i64 }),
    {
        ScreenRepeat {
            texture_id: AssetsId::invalid(),
            offset: Vec2 { x: 0, y: 0 },
            scale: Vec2 { x: 0, y: 0 },
            color: Color::default(),
        }
    }
}

} // verus!
