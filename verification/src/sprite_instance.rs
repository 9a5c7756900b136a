//! The per-instance record one sprite contributes to the GPU instance
//! buffer: the quad's model transform, UV window, tint and blend tag.
//! A GPU backend packs these fields into its wire layout.

use vstd::prelude::*;

verus! {

use crate::blend_mode::BlendMode;
use crate::color::Color;
use crate::transform::Transform;
use crate::vector::Vec4;

/// One instance-buffer record.
#[derive(Debug, Copy, Clone)]
pub struct SpriteInstance {
    /// The quad's model transform (translation and per-axis scale).
    pub model: Transform,
    /// Where sampling starts in the texture and how far it runs.
    pub uv_offset_scale: Vec4,
    /// Tint and opacity.
    pub color: Color,
    /// The numeric blend-mode tag the fragment shader switches on.
    pub blend_mode: u32,
}

impl SpriteInstance {
    /// Assembles the record for one quad.
    pub fn from(
        transform: &Transform,
        uv_offset_scale: &Vec4,
        color: Color,
        blend_mode: BlendMode,
    ) -> (inst: SpriteInstance)
        ensures
            inst.model == *transform,
            inst.uv_offset_scale == *uv_offset_scale,
            inst.color == color,
            inst.blend_mode == blend_mode.tag_spec(),
    {
        SpriteInstance {
            model: *transform,
            uv_offset_scale: *uv_offset_scale,
            color,
            blend_mode: blend_mode.tag(),
        }
    }
}

} // verus!
