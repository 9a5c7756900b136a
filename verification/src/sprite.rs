//! The CPU-side draw descriptor of one textured quad.

use vstd::prelude::*;

verus! {

use crate::assets::AssetsId;
use crate::blend_mode::BlendMode;
use crate::color::Color;
use crate::fx::FX_ONE;
use crate::fx::FX_COORD_BOUND;
use crate::fx::FX_HALF;
use crate::fx::fx_in_bounds;
use crate::fx::fx_mul;
use crate::fx::fx_mul_spec;
use crate::fx::fx_div;
use crate::fx::fx_div_spec;
use crate::fx::lemma_fx_mul_magnitude;
use crate::rect::Rect;
use crate::transform::Transform;
use crate::vector::Vec2;
use crate::vector::Vec3;
use crate::vector::Vec4;
use vstd::arithmetic::div_mod::lemma_div_is_ordered;
use vstd::arithmetic::div_mod::lemma_div_multiples_vanish;

/// A sprite: where and how one textured quad is drawn.
///
/// `mask` turns the sprite into a stencil mask over a z-range instead of a
/// normal draw; it takes effect only with the `Normal` blend mode, which
/// the blend-mode classification invariant demands.
#[derive(Debug, Copy, Clone)]
pub struct Sprite {
    pub transform: Transform,
    pub texture_id: AssetsId,
    /// Selects an area of the texture, in texel units.
    pub rect: Option<Rect>,
    /// Overrides the on-screen size of the quad.
    pub custom_size: Option<Vec2>,
    pub flip_x: bool,
    pub flip_y: bool,
    /// Offset of the quad from its center, normalized.
    pub anchor: Vec2,
    /// Stencil mask z-range `[start, end]`.
    pub mask: Option<[i64; 2]>,
    /// Tint and opacity.
    pub color: Color,
    /// How the tint combines with the sampled texel; informational.
    pub color_blend_mode: BlendMode,
    /// How the sprite composites with the frame.
    pub blend_mode: BlendMode,
}

impl Sprite {
    /// The bounds under which the quad and instance arithmetic stays far
    /// inside the machine range: coordinates, scales and sizes bounded,
    /// the anchor within a few quad widths.
    pub open spec fn in_bounds(self, image_size: Vec2) -> bool {
        &&& fx_in_bounds(self.transform.translation.x as int)
        &&& fx_in_bounds(self.transform.translation.y as int)
        &&& fx_in_bounds(self.transform.translation.z as int)
        &&& -FX_ONE <= self.transform.scale.x <= FX_ONE
        &&& -FX_ONE <= self.transform.scale.y <= FX_ONE
        &&& -FX_ONE <= self.transform.scale.z <= FX_ONE
        &&& -16 * FX_ONE <= self.anchor.x <= 16 * FX_ONE
        &&& -16 * FX_ONE <= self.anchor.y <= 16 * FX_ONE
        &&& (self.custom_size matches Some(size) ==> {
            &&& 0 <= size.x <= FX_COORD_BOUND
            &&& 0 <= size.y <= FX_COORD_BOUND
        })
        &&& (self.rect matches Some(r) ==> {
            &&& 0 <= r.min.x <= r.max.x <= FX_COORD_BOUND
            &&& 0 <= r.min.y <= r.max.y <= FX_COORD_BOUND
        })
        &&& 0 <= image_size.x <= FX_COORD_BOUND
        &&& 0 <= image_size.y <= FX_COORD_BOUND
    }

    /// The on-screen size of the quad: the explicit override, else the
    /// texture sub-rectangle's size, else the whole texture's size.
    pub open spec fn quad_size_spec(self, image_size: Vec2) -> (int, int) {
        match self.custom_size {
            Some(size) => (size.x as int, size.y as int),
            None => match self.rect {
                Some(r) => (r.max.x - r.min.x, r.max.y - r.min.y),
                None => (image_size.x as int, image_size.y as int),
            },
        }
    }

    /// The on-screen size of the quad.
    pub fn quad_size(&self, image_size: Vec2) -> (q: Vec2)
        requires
            self.in_bounds(image_size),
        ensures
            q.x == self.quad_size_spec(image_size).0,
            q.y == self.quad_size_spec(image_size).1,
            0 <= q.x <= FX_COORD_BOUND,
            0 <= q.y <= FX_COORD_BOUND,
    {
        match self.custom_size {
            Some(size) => size,
            None => match self.rect {
                Some(r) => Vec2 { x: r.max.x - r.min.x, y: r.max.y - r.min.y },
                None => image_size,
            },
        }
    }

    /// The UV offset and scale of the quad: where sampling starts in the
    /// texture and how far it runs, each in [0, 1] of the texture, the
    /// vertical extent negative (texture rows run downward); a flip moves
    /// the offset across the covered extent and negates it.
    pub open spec fn uv_offset_scale_spec(self, image_size: Vec2) -> (int, int, int, int) {
        let base = match self.rect {
            Some(r) => (
                fx_div_spec(r.min.x as int, image_size.x as int),
                fx_div_spec(r.max.y as int, image_size.y as int),
                fx_div_spec(r.max.x - r.min.x, image_size.x as int),
                -fx_div_spec(r.max.y - r.min.y, image_size.y as int),
            ),
            None => (0int, FX_ONE as int, FX_ONE as int, -(FX_ONE as int)),
        };
        let xflipped = if self.flip_x {
            (base.0 + base.2, base.1, -base.2, base.3)
        } else {
            base
        };
        if self.flip_y {
            (xflipped.0, xflipped.1 + xflipped.3, xflipped.2, -xflipped.3)
        } else {
            xflipped
        }
    }

    /// The UV offset and scale of the quad, with flips applied.
    pub fn calculate_uv_offset_scale(&self, image_size: Vec2) -> (uv: Vec4)
        requires
            self.in_bounds(image_size),
            self.rect is Some ==> image_size.x >= FX_ONE && image_size.y >= FX_ONE,
        ensures
            uv.x == self.uv_offset_scale_spec(image_size).0,
            uv.y == self.uv_offset_scale_spec(image_size).1,
            uv.z == self.uv_offset_scale_spec(image_size).2,
            uv.w == self.uv_offset_scale_spec(image_size).3,
    {
        let mut uv_offset_scale: Vec4;
        if let Some(r) = self.rect {
            proof {
                lemma_uv_div_bounds(r.min.x as int, image_size.x as int);
                lemma_uv_div_bounds(r.max.y as int, image_size.y as int);
                lemma_uv_div_bounds(r.max.x - r.min.x, image_size.x as int);
                lemma_uv_div_bounds(r.max.y - r.min.y, image_size.y as int);
            }
            uv_offset_scale = Vec4 {
                x: fx_div(r.min.x, image_size.x),
                y: fx_div(r.max.y, image_size.y),
                z: fx_div(r.max.x - r.min.x, image_size.x),
                w: -fx_div(r.max.y - r.min.y, image_size.y),
            };
        } else {
            uv_offset_scale = Vec4 { x: 0, y: FX_ONE, z: FX_ONE, w: -FX_ONE };
        }

        if self.flip_x {
            uv_offset_scale.x = uv_offset_scale.x + uv_offset_scale.z;
            uv_offset_scale.z = -uv_offset_scale.z;
        }
        if self.flip_y {
            uv_offset_scale.y = uv_offset_scale.y + uv_offset_scale.w;
            uv_offset_scale.w = -uv_offset_scale.w;
        }

        uv_offset_scale
    }

    /// The model scale of the instance: the sprite's scale stretched by
    /// the quad size on the two quad axes, the depth scale kept.
    pub open spec fn model_scale_spec(self, image_size: Vec2) -> (int, int, int) {
        let quad = self.quad_size_spec(image_size);
        (
            fx_mul_spec(self.transform.scale.x as int, quad.0),
            fx_mul_spec(self.transform.scale.y as int, quad.1),
            self.transform.scale.z as int,
        )
    }

    /// The model translation of the instance: the sprite's position moved
    /// by the scaled anchor offset, which shifts the quad so that the
    /// anchor point lands on the position.
    pub open spec fn model_translation_spec(self, image_size: Vec2) -> (int, int, int) {
        let quad = self.quad_size_spec(image_size);
        let off_x = fx_mul_spec(quad.0, -(self.anchor.x as int) - FX_HALF);
        let off_y = fx_mul_spec(quad.1, -(self.anchor.y as int) - FX_HALF);
        (
            self.transform.translation.x + fx_mul_spec(self.transform.scale.x as int, off_x),
            self.transform.translation.y + fx_mul_spec(self.transform.scale.y as int, off_y),
            self.transform.translation.z as int,
        )
    }

    /// The transform of the instance's quad: the sprite transform composed
    /// with the quad's size and anchor offset.
    pub fn calculate_transform(&self, image_size: Vec2) -> (model: Transform)
        requires
            self.in_bounds(image_size),
        ensures
            model.scale.x == self.model_scale_spec(image_size).0,
            model.scale.y == self.model_scale_spec(image_size).1,
            model.scale.z == self.model_scale_spec(image_size).2,
            model.translation.x == self.model_translation_spec(image_size).0,
            model.translation.y == self.model_translation_spec(image_size).1,
            model.translation.z == self.model_translation_spec(image_size).2,
    {
        let quad = self.quad_size(image_size);
        proof {
            lemma_fx_mul_magnitude(quad.x as int, self.transform.scale.x as int, FX_COORD_BOUND as int);
            lemma_fx_mul_magnitude(quad.y as int, self.transform.scale.y as int, FX_COORD_BOUND as int);
            lemma_anchor_offset_bounds(quad.x as int, self.anchor.x as int);
            lemma_anchor_offset_bounds(quad.y as int, self.anchor.y as int);
        }
        let scale = Vec3 {
            x: fx_mul(self.transform.scale.x, quad.x),
            y: fx_mul(self.transform.scale.y, quad.y),
            z: self.transform.scale.z,
        };
        let off_x: i64 = fx_mul(quad.x, -self.anchor.x - FX_HALF);
        let off_y: i64 = fx_mul(quad.y, -self.anchor.y - FX_HALF);
        proof {
            lemma_fx_mul_magnitude(off_x as int, self.transform.scale.x as int, 17 * FX_COORD_BOUND as int);
            lemma_fx_mul_magnitude(off_y as int, self.transform.scale.y as int, 17 * FX_COORD_BOUND as int);
        }
        let translation = Vec3 {
            x: self.transform.translation.x + fx_mul(self.transform.scale.x, off_x),
            y: self.transform.translation.y + fx_mul(self.transform.scale.y, off_y),
            z: self.transform.translation.z,
        };
        Transform { translation, scale }
    }
}

impl Default for Sprite {
    /// A unit quad at the origin with the whole texture, no flips, a
    /// centered anchor, opaque white tint and normal blending.
    fn default() -> (s: Self)
        ensures
            s.transform == Transform::identity_spec(),
            s.texture_id@ == Seq::new(36, |i: int| 0u8),
            s.rect is None,
            s.custom_size is None,
            !s.flip_x,
            !s.flip_y,
            s.anchor == (Vec2 { x: 0i64, y: 0i64 }),
            s.mask is None,
            s.color_blend_mode is Normal,
            s.blend_mode is Normal,
    {
        Sprite {
            transform: Transform::identity(),
            texture_id: AssetsId::invalid(),
            rect: None,
            custom_size: None,
            flip_x: false,
            flip_y: false,
            anchor: Vec2 { x: 0, y: 0 },
            mask: None,
            color: Color::default(),
            color_blend_mode: BlendMode::Normal,
            blend_mode: BlendMode::Normal,
        }
    }
}

/// A texel coordinate divided by a texture extent of at least one texel
/// stays within the coordinate bound and meets the division's range
/// premises.
proof fn lemma_uv_div_bounds(a: int, b: int)
    requires
        FX_ONE <= b,
        -FX_COORD_BOUND <= a <= FX_COORD_BOUND,
    ensures
        -(i64::MAX as int) * b <= a * (FX_ONE as int) <= (i64::MAX as int) * b,
        -FX_COORD_BOUND <= fx_div_spec(a, b) <= FX_COORD_BOUND,
{
    let f = FX_ONE as int;
    assert(a * f <= (i64::MAX as int) * b && -(i64::MAX as int) * b <= a * f) by (nonlinear_arith)
        requires f <= b && -FX_COORD_BOUND <= a <= FX_COORD_BOUND && f == 65536;
    assert(a * f <= FX_COORD_BOUND * b && (-FX_COORD_BOUND) * b <= a * f) by (nonlinear_arith)
        requires f <= b && -FX_COORD_BOUND <= a <= FX_COORD_BOUND && f == 65536;
    lemma_div_is_ordered(a * f, FX_COORD_BOUND * b, b);
    assert(FX_COORD_BOUND * b == b * (FX_COORD_BOUND as int)) by (nonlinear_arith);
    lemma_div_multiples_vanish(FX_COORD_BOUND as int, b);
    lemma_div_is_ordered((-FX_COORD_BOUND) * b, a * f, b);
    assert((-FX_COORD_BOUND) * b == b * (-FX_COORD_BOUND as int)) by (nonlinear_arith);
    lemma_div_multiples_vanish(-FX_COORD_BOUND as int, b);
}

/// A quad size scaled by a bounded anchor offset meets the product's range
/// premises and stays within a few coordinate bounds.
proof fn lemma_anchor_offset_bounds(quad: int, anchor: int)
    requires
        0 <= quad <= FX_COORD_BOUND,
        -16 * FX_ONE <= anchor <= 16 * FX_ONE,
    ensures
        i64::MIN * (FX_ONE as int) <= quad * (-anchor - FX_HALF),
        quad * (-anchor - FX_HALF) <= i64::MAX * (FX_ONE as int),
        -17 * FX_COORD_BOUND <= fx_mul_spec(quad, -anchor - FX_HALF) <= 17 * FX_COORD_BOUND,
{
    let f = FX_ONE as int;
    let off = -anchor - FX_HALF;
    assert(-17 * f <= off <= 17 * f);
    assert(quad * off <= quad * (17 * f) && quad * (-17 * f) <= quad * off) by (nonlinear_arith)
        requires 0 <= quad && -17 * f <= off <= 17 * f;
    assert(quad * (17 * f) == (17 * quad) * f && quad * (-17 * f) == (-17 * quad) * f)
        by (nonlinear_arith);
    assert((17 * quad) * f <= i64::MAX * f && i64::MIN * f <= (-17 * quad) * f)
        by (nonlinear_arith)
        requires 0 <= quad <= FX_COORD_BOUND && f == 65536;
    lemma_div_is_ordered(quad * off, (17 * quad) * f, f);
    assert((17 * quad) * f == f * (17 * quad)) by (nonlinear_arith);
    lemma_div_multiples_vanish(17 * quad, f);
    lemma_div_is_ordered((-17 * quad) * f, quad * off, f);
    assert((-17 * quad) * f == f * (-17 * quad)) by (nonlinear_arith);
    lemma_div_multiples_vanish(-17 * quad, f);
}

} // verus!
