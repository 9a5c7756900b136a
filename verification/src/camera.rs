//! The 2D orthographic camera: pixel-perfect integer zoom with an eased
//! transition, viewport/world coordinate mapping, and optional clamping of
//! the camera position to a world boundary.

use vstd::prelude::*;

verus! {

use crate::easing::EasingAnimator;
use crate::easing::eased_sample_spec;
use crate::fx::FX_ONE;
use crate::fx::FX_COORD_BOUND;
use crate::fx::FX_HALF;
use crate::fx::fx_in_bounds;
use crate::fx::fx_mul;
use crate::fx::fx_mul_spec;
use crate::fx::fx_div;
use crate::fx::fx_div_spec;
use crate::fx::lemma_fx_scale_bounds;
use crate::rect::Rect;
use crate::transform::Transform;
use crate::vector::Vec2;
use crate::vector::Vec3;
use crate::vector::Vec4;
use vstd::arithmetic::div_mod::lemma_div_multiples_vanish;
use vstd::arithmetic::div_mod::lemma_div_is_ordered_by_denominator;
use vstd::arithmetic::div_mod::lemma_div_is_ordered;
use vstd::arithmetic::div_mod::lemma_div_pos_is_pos;
use vstd::arithmetic::div_mod::lemma_fundamental_div_mod_converse_div;
use vstd::arithmetic::mul::lemma_mul_nonnegative;

/// One eighth, in fixed point: the smallest camera scale, reached at the
/// largest pixel zoom.
pub const FX_EIGHTH: i64 = 8192;

/// How long a zoom transition runs, in microseconds.
pub const ZOOM_ANIMATION_US: u64 = 500000;

/// The legal pixel zoom factors: powers of two from one to eight.
pub open spec fn zoom_valid(zoom: u8) -> bool {
    zoom == 1 || zoom == 2 || zoom == 4 || zoom == 8
}

/// Where the camera position must end up so that the visible interval of
/// width `2*half` stays inside the boundary interval `[bmin, bmax]`: shifted
/// up when it hangs below, shifted down when it hangs above, and forced to
/// the boundary center when it cannot fit at all.
pub open spec fn clamp_axis_spec(t: int, half: int, bmin: int, bmax: int) -> int {
    if 2 * half < bmax - bmin {
        if t - half < bmin {
            bmin + half
        } else if t + half > bmax {
            bmax - half
        } else {
            t
        }
    } else {
        (bmin + bmax) / 2
    }
}

/// Half the world-space extent the camera shows on an axis: the viewport
/// size scaled by the camera scale, halved.
pub open spec fn visible_half_spec(size: int, scale: int) -> int {
    fx_mul_spec(size, scale) / 2
}

/// A 2D orthographic camera.
///
/// Scaling is driven by `pixel_zoom`, an integer zoom factor that keeps
/// texture texels on whole screen pixels; a zoom change animates
/// `transform.scale` toward the reciprocal of the new factor.  The third
/// scale component is never touched by zooming: it would corrupt the
/// near/far mapping of the projection.
#[derive(Debug, Copy, Clone, PartialEq, Eq, Structural)]
pub struct Camera2D {
    /// Normalized pivot of the viewport, held at (1/2, 1/2): the camera
    /// position sits at the viewport center.
    pub viewport_origin: Vec2,
    /// Viewport size in pixels (fixed point).
    pub viewport_size: Vec2,
    /// Camera placement; the third translation component is the depth the
    /// projection is built around.
    pub transform: Transform,
    /// Near plane of the orthographic projection.
    pub near: i64,
    /// Far plane of the orthographic projection.
    pub far: i64,
    /// Integer zoom factor, a power of two in [1, 8].
    pub pixel_zoom: u8,
    /// The eased transition moving the scale toward `1 / pixel_zoom`.
    pub scale_animator: EasingAnimator,
}

impl Camera2D {
    /// Every reachable camera state: the zoom is a power of two in [1, 8],
    /// the pivot is the center, all coordinates are bounded, the scale stays
    /// in [1/8, 1] with unit depth scale, and the animator is either
    /// finished with the scale equal to the zoom reciprocal, or in flight
    /// toward it.
    pub open spec fn wf(self) -> bool {
        &&& zoom_valid(self.pixel_zoom)
        &&& self.viewport_origin == (Vec2 { x: FX_HALF, y: FX_HALF })
        &&& 0 <= self.viewport_size.x <= FX_COORD_BOUND
        &&& 0 <= self.viewport_size.y <= FX_COORD_BOUND
        &&& fx_in_bounds(self.transform.translation.x as int)
        &&& fx_in_bounds(self.transform.translation.y as int)
        &&& fx_in_bounds(self.transform.translation.z as int)
        &&& FX_EIGHTH <= self.transform.scale.x <= FX_ONE
        &&& FX_EIGHTH <= self.transform.scale.y <= FX_ONE
        &&& self.transform.scale.z == FX_ONE
        &&& fx_in_bounds(self.near as int)
        &&& fx_in_bounds(self.far as int)
        &&& self.scale_animator.wf()
        &&& self.scale_animator.finished_spec() ==> {
            &&& self.transform.scale.x == (FX_ONE as int) / (self.pixel_zoom as int)
            &&& self.transform.scale.y == (FX_ONE as int) / (self.pixel_zoom as int)
        }
        &&& !self.scale_animator.finished_spec() ==> {
            &&& self.scale_animator.end_spec() == (FX_ONE as int) / (self.pixel_zoom as int)
            &&& FX_EIGHTH <= self.scale_animator.start_spec() <= FX_ONE
            &&& FX_EIGHTH <= self.scale_animator.end_spec() <= FX_ONE
        }
    }

    /// A camera over the given viewport: centered pivot, identity placement,
    /// unit zoom, a deep near plane, and no zoom transition in flight.
    pub fn new(viewport_size: Vec2) -> (cam: Camera2D)
        requires
            0 <= viewport_size.x <= FX_COORD_BOUND,
            0 <= viewport_size.y <= FX_COORD_BOUND,
        ensures
            cam.wf(),
            cam.viewport_size == viewport_size,
            cam.transform == Transform::identity_spec(),
            cam.near == -2000 * (FX_ONE as int),
            cam.far == FX_ONE,
            cam.pixel_zoom == 1,
            cam.scale_animator.finished_spec(),
    {
        Camera2D {
            viewport_origin: Vec2::splat(FX_HALF),
            viewport_size,
            transform: Transform::identity(),
            near: -2000 * FX_ONE,
            far: FX_ONE,
            pixel_zoom: 1,
            scale_animator: EasingAnimator::default(),
        }
    }

    /// The camera scale on the two viewport axes.
    pub fn get_scale(&self) -> (s: Vec2)
        ensures
            s == (Vec2 { x: self.transform.scale.x, y: self.transform.scale.y }),
    {
        self.transform.scale.truncate()
    }

    /// The camera position on the two viewport axes.
    pub fn get_translation(&self) -> (t: Vec2)
        ensures
            t == (Vec2 { x: self.transform.translation.x, y: self.transform.translation.y }),
    {
        self.transform.translation.truncate()
    }

    /// Moves the camera to the given position, leaving the depth component.
    pub fn set_translation(&mut self, translation: Vec2)
        requires
            old(self).wf(),
            fx_in_bounds(translation.x as int),
            fx_in_bounds(translation.y as int),
        ensures
            final(self).wf(),
            final(self).transform.translation.x == translation.x,
            final(self).transform.translation.y == translation.y,
            final(self).transform.translation.z == old(self).transform.translation.z,
            final(self).transform.scale == old(self).transform.scale,
            *final(self) == (Camera2D { transform: final(self).transform, ..*old(self) }),
    {
        self.transform.translation.x = translation.x;
        self.transform.translation.y = translation.y;
    }

    /// Moves the camera by the given offset, leaving the depth component.
    pub fn add_translation(&mut self, translation: Vec2)
        requires
            old(self).wf(),
            fx_in_bounds(old(self).transform.translation.x + translation.x),
            fx_in_bounds(old(self).transform.translation.y + translation.y),
        ensures
            final(self).wf(),
            final(self).transform.translation.x == old(self).transform.translation.x
                + translation.x,
            final(self).transform.translation.y == old(self).transform.translation.y
                + translation.y,
            final(self).transform.translation.z == old(self).transform.translation.z,
            final(self).transform.scale == old(self).transform.scale,
            *final(self) == (Camera2D { transform: final(self).transform, ..*old(self) }),
    {
        self.transform.translation.x = self.transform.translation.x + translation.x;
        self.transform.translation.y = self.transform.translation.y + translation.y;
    }

    /// Whether a further zoom-in step is available.
    pub fn if_can_zoom_in(&self) -> (r: bool)
        ensures
            r == (self.pixel_zoom < 8),
    {
        self.pixel_zoom < 8
    }

    /// Doubles the pixel zoom and starts the eased scale transition toward
    /// the new reciprocal.  Does nothing and reports `false` when the zoom
    /// is already at its top or a transition is still in flight.
    pub fn zoom_in(&mut self) -> (changed: bool)
        requires
            old(self).wf(),
        ensures
            final(self).wf(),
            changed == (old(self).pixel_zoom < 8 && old(self).scale_animator.finished_spec()),
            !changed ==> *final(self) == *old(self),
            changed ==> {
                &&& final(self).pixel_zoom == 2 * old(self).pixel_zoom
                &&& final(self).scale_animator.start_spec() == old(self).transform.scale.x
                &&& final(self).scale_animator.end_spec() == (FX_ONE as int) / (
                final(self).pixel_zoom as int)
                &&& final(self).scale_animator.duration_spec() == ZOOM_ANIMATION_US
                &&& final(self).scale_animator.elapsed_spec() == 0
                &&& final(self).transform == old(self).transform
                &&& final(self).viewport_size == old(self).viewport_size
            },
    {
        if self.pixel_zoom < 8 {
            if self.scale_animator.if_finished() {
                self.pixel_zoom = self.pixel_zoom * 2;
                let target: i64 = zoom_reciprocal(self.pixel_zoom);
                self.scale_animator = EasingAnimator::new(
                    self.transform.scale.x,
                    target,
                    ZOOM_ANIMATION_US,
                );
                return true;
            }
        }
        false
    }

    /// Whether a further zoom-out step is available.
    pub fn if_can_zoom_out(&self) -> (r: bool)
        ensures
            r == (self.pixel_zoom > 1),
    {
        self.pixel_zoom > 1
    }

    /// Halves the pixel zoom and starts the eased scale transition toward
    /// the new reciprocal.  Does nothing and reports `false` when the zoom
    /// is already at its bottom or a transition is still in flight.
    pub fn zoom_out(&mut self) -> (changed: bool)
        requires
            old(self).wf(),
        ensures
            final(self).wf(),
            changed == (old(self).pixel_zoom > 1 && old(self).scale_animator.finished_spec()),
            !changed ==> *final(self) == *old(self),
            changed ==> {
                &&& final(self).pixel_zoom == old(self).pixel_zoom / 2
                &&& final(self).scale_animator.start_spec() == old(self).transform.scale.x
                &&& final(self).scale_animator.end_spec() == (FX_ONE as int) / (
                final(self).pixel_zoom as int)
                &&& final(self).scale_animator.duration_spec() == ZOOM_ANIMATION_US
                &&& final(self).scale_animator.elapsed_spec() == 0
                &&& final(self).transform == old(self).transform
                &&& final(self).viewport_size == old(self).viewport_size
            },
    {
        if self.pixel_zoom > 1 {
            if self.scale_animator.if_finished() {
                self.pixel_zoom = self.pixel_zoom / 2;
                let target: i64 = zoom_reciprocal(self.pixel_zoom);
                self.scale_animator = EasingAnimator::new(
                    self.transform.scale.x,
                    target,
                    ZOOM_ANIMATION_US,
                );
                return true;
            }
        }
        false
    }

    /// Jumps straight to the given zoom factor, setting the scale to its
    /// reciprocal and cancelling any transition in flight.
    pub fn set_zoom(&mut self, zoom: u8)
        requires
            old(self).wf(),
            zoom_valid(zoom),
        ensures
            final(self).wf(),
            final(self).pixel_zoom == zoom,
            final(self).transform.scale.x == (FX_ONE as int) / (zoom as int),
            final(self).transform.scale.y == (FX_ONE as int) / (zoom as int),
            final(self).transform.scale.z == old(self).transform.scale.z,
            final(self).transform.translation == old(self).transform.translation,
            final(self).viewport_size == old(self).viewport_size,
            final(self).scale_animator.finished_spec(),
    {
        self.pixel_zoom = zoom;
        let s: i64 = zoom_reciprocal(zoom);
        self.transform.scale.x = s;
        self.transform.scale.y = s;
        self.scale_animator = EasingAnimator::new(s, s, 0);
    }

    /// Advances the zoom transition; while one is in flight the eased value
    /// lands in the scale of the two viewport axes, the depth scale
    /// untouched.
    pub fn update_anima(&mut self, delta_us: u64)
        requires
            old(self).wf(),
        ensures
            final(self).wf(),
            final(self).pixel_zoom == old(self).pixel_zoom,
            final(self).viewport_size == old(self).viewport_size,
            final(self).transform.translation == old(self).transform.translation,
            final(self).transform.scale.z == old(self).transform.scale.z,
            old(self).scale_animator.finished_spec() ==> *final(self) == *old(self),
            !old(self).scale_animator.finished_spec() ==> {
                &&& final(self).scale_animator.elapsed_spec()
                    == if old(self).scale_animator.elapsed_spec() + delta_us <= u64::MAX {
                    old(self).scale_animator.elapsed_spec() + delta_us
                } else {
                    u64::MAX as int
                }
                &&& final(self).scale_animator.start_spec()
                    == old(self).scale_animator.start_spec()
                &&& final(self).scale_animator.end_spec() == old(self).scale_animator.end_spec()
                &&& final(self).scale_animator.duration_spec()
                    == old(self).scale_animator.duration_spec()
                &&& final(self).transform.scale.x == final(self).transform.scale.y
                &&& final(self).scale_animator.finished_spec() ==> final(self).transform.scale.x
                    == final(self).scale_animator.end_spec()
                &&& !final(self).scale_animator.finished_spec()
                    ==> final(self).transform.scale.x == eased_sample_spec(
                    final(self).scale_animator.start_spec() as int,
                    final(self).scale_animator.end_spec() as int,
                    final(self).scale_animator.elapsed_spec() as int,
                    final(self).scale_animator.duration_spec() as int,
                )
            },
    {
        if !self.scale_animator.if_finished() {
            let result: i64 = self.scale_animator.update(delta_us);
            self.transform.scale.x = result;
            self.transform.scale.y = result;
        }
    }
}

impl Camera2D {
    /// The x world coordinate under the viewport point `px`: the camera
    /// position plus the scaled offset of the point from the pivot.
    pub open spec fn viewport_to_world_x_spec(self, px: int) -> int {
        self.transform.translation.x + fx_mul_spec(
            self.transform.scale.x as int,
            px - fx_mul_spec(self.viewport_size.x as int, self.viewport_origin.x as int),
        )
    }

    /// The y world coordinate under the viewport point `py`.  The viewport
    /// y axis grows downward from the top-left corner, world y upward, so
    /// the point is flipped inside the viewport height first.
    pub open spec fn viewport_to_world_y_spec(self, py: int) -> int {
        self.transform.translation.y + fx_mul_spec(
            self.transform.scale.y as int,
            (self.viewport_size.y - py) - fx_mul_spec(
                self.viewport_size.y as int,
                self.viewport_origin.y as int,
            ),
        )
    }

    /// The world depth of the far clip plane: every viewport point maps to
    /// a world point on it.
    pub open spec fn viewport_to_world_z_spec(self) -> int {
        self.transform.translation.z - fx_mul_spec(self.transform.scale.z as int, self.far as int)
    }

    /// The viewport x coordinate over the world coordinate `wx`: the
    /// offset from the camera position divided by the scale, from the pivot.
    pub open spec fn world_to_viewport_x_spec(self, wx: int) -> int {
        fx_mul_spec(self.viewport_size.x as int, self.viewport_origin.x as int) + fx_div_spec(
            wx - self.transform.translation.x,
            self.transform.scale.x as int,
        )
    }

    /// The viewport y coordinate over the world coordinate `wy`, flipped
    /// back into the downward-growing viewport axis.
    pub open spec fn world_to_viewport_y_spec(self, wy: int) -> int {
        self.viewport_size.y - (fx_mul_spec(
            self.viewport_size.y as int,
            self.viewport_origin.y as int,
        ) + fx_div_spec(wy - self.transform.translation.y, self.transform.scale.y as int))
    }

    /// Maps a viewport point (pixels, origin at the top-left corner) to the
    /// world point shown there, on the far clip plane.
    pub fn viewport_to_world(&self, viewport_position: Vec2) -> (w: Vec3)
        requires
            self.wf(),
            -4 * FX_COORD_BOUND <= viewport_position.x <= 4 * FX_COORD_BOUND,
            -4 * FX_COORD_BOUND <= viewport_position.y <= 4 * FX_COORD_BOUND,
        ensures
            w.x == self.viewport_to_world_x_spec(viewport_position.x as int),
            w.y == self.viewport_to_world_y_spec(viewport_position.y as int),
            w.z == self.viewport_to_world_z_spec(),
    {
        proof {
            lemma_fx_scale_bounds(self.viewport_size.x as int, self.viewport_origin.x as int);
            lemma_fx_scale_bounds(self.viewport_size.y as int, self.viewport_origin.y as int);
        }
        let origin_x: i64 = fx_mul(self.viewport_size.x, self.viewport_origin.x);
        let origin_y: i64 = fx_mul(self.viewport_size.y, self.viewport_origin.y);
        let local_x: i64 = viewport_position.x - origin_x;
        let flipped_y: i64 = self.viewport_size.y - viewport_position.y;
        let local_y: i64 = flipped_y - origin_y;
        proof {
            lemma_fx_scale_bounds(local_x as int, self.transform.scale.x as int);
            lemma_fx_scale_bounds(local_y as int, self.transform.scale.y as int);
            lemma_fx_scale_bounds(self.far as int, self.transform.scale.z as int);
            assert(fx_mul_spec(self.transform.scale.x as int, local_x as int) == fx_mul_spec(
                local_x as int,
                self.transform.scale.x as int,
            )) by (nonlinear_arith);
            assert(fx_mul_spec(self.transform.scale.y as int, local_y as int) == fx_mul_spec(
                local_y as int,
                self.transform.scale.y as int,
            )) by (nonlinear_arith);
            assert(fx_mul_spec(self.transform.scale.z as int, self.far as int) == fx_mul_spec(
                self.far as int,
                self.transform.scale.z as int,
            )) by (nonlinear_arith);
        }
        let world_x: i64 = self.transform.translation.x + fx_mul(self.transform.scale.x, local_x);
        let world_y: i64 = self.transform.translation.y + fx_mul(self.transform.scale.y, local_y);
        let world_z: i64 = self.transform.translation.z - fx_mul(self.transform.scale.z, self.far);
        Vec3 { x: world_x, y: world_y, z: world_z }
    }

    /// Maps a world point to the viewport point (pixels, origin at the
    /// top-left corner) that shows it: the inverse of the x and y part of
    /// [`Self::viewport_to_world`].
    pub fn world_to_viewport(&self, world_position: Vec2) -> (p: Vec2)
        requires
            self.wf(),
            fx_in_bounds(world_position.x as int),
            fx_in_bounds(world_position.y as int),
        ensures
            p.x == self.world_to_viewport_x_spec(world_position.x as int),
            p.y == self.world_to_viewport_y_spec(world_position.y as int),
    {
        proof {
            lemma_fx_scale_bounds(self.viewport_size.x as int, self.viewport_origin.x as int);
            lemma_fx_scale_bounds(self.viewport_size.y as int, self.viewport_origin.y as int);
        }
        let origin_x: i64 = fx_mul(self.viewport_size.x, self.viewport_origin.x);
        let origin_y: i64 = fx_mul(self.viewport_size.y, self.viewport_origin.y);
        let diff_x: i64 = world_position.x - self.transform.translation.x;
        let diff_y: i64 = world_position.y - self.transform.translation.y;
        proof {
            lemma_fx_div_small_bounds(diff_x as int, self.transform.scale.x as int);
            lemma_fx_div_small_bounds(diff_y as int, self.transform.scale.y as int);
        }
        let view_x: i64 = origin_x + fx_div(diff_x, self.transform.scale.x);
        let view_y: i64 = origin_y + fx_div(diff_y, self.transform.scale.y);
        Vec2 { x: view_x, y: self.viewport_size.y - view_y }
    }

    /// The viewport pivot and size, packed for the GPU view uniform.
    pub fn get_viewport(&self) -> (v: Vec4)
        ensures
            v == (Vec4 {
                x: self.viewport_origin.x,
                y: self.viewport_origin.y,
                z: self.viewport_size.x,
                w: self.viewport_size.y,
            }),
    {
        Vec4 {
            x: self.viewport_origin.x,
            y: self.viewport_origin.y,
            z: self.viewport_size.x,
            w: self.viewport_size.y,
        }
    }

    /// Clamps the camera position so that the visible world rectangle (the
    /// viewport scaled by the camera scale, centered on the camera) stays
    /// inside the boundary, each axis on its own; an axis on which the
    /// boundary cannot hold the visible extent locks to the boundary's
    /// center instead.  Without a boundary nothing changes.
    pub fn update_word_boundary(&mut self, word_boundary: Option<Rect>)
        requires
            old(self).wf(),
            word_boundary matches Some(b) ==> {
                &&& -FX_COORD_BOUND / 2 <= b.min.x <= b.max.x <= FX_COORD_BOUND / 2
                &&& -FX_COORD_BOUND / 2 <= b.min.y <= b.max.y <= FX_COORD_BOUND / 2
            },
        ensures
            final(self).wf(),
            word_boundary is None ==> *final(self) == *old(self),
            word_boundary matches Some(b) ==> {
                &&& final(self).transform.translation.x == clamp_axis_spec(
                    old(self).transform.translation.x as int,
                    visible_half_spec(
                        old(self).viewport_size.x as int,
                        old(self).transform.scale.x as int,
                    ),
                    b.min.x as int,
                    b.max.x as int,
                )
                &&& final(self).transform.translation.y == clamp_axis_spec(
                    old(self).transform.translation.y as int,
                    visible_half_spec(
                        old(self).viewport_size.y as int,
                        old(self).transform.scale.y as int,
                    ),
                    b.min.y as int,
                    b.max.y as int,
                )
                &&& final(self).transform.translation.z == old(self).transform.translation.z
                &&& final(self).transform.scale == old(self).transform.scale
                &&& final(self).viewport_size == old(self).viewport_size
                &&& final(self).pixel_zoom == old(self).pixel_zoom
                &&& final(self).scale_animator == old(self).scale_animator
            },
    {
        if let Some(boundary) = word_boundary {
            proof {
                lemma_mul_nonnegative(
                    self.viewport_size.x as int,
                    self.transform.scale.x as int,
                );
                lemma_mul_nonnegative(
                    self.viewport_size.y as int,
                    self.transform.scale.y as int,
                );
                lemma_div_pos_is_pos(
                    self.viewport_size.x as int * self.transform.scale.x as int,
                    FX_ONE as int,
                );
                lemma_div_pos_is_pos(
                    self.viewport_size.y as int * self.transform.scale.y as int,
                    FX_ONE as int,
                );
                lemma_fx_scale_bounds(self.viewport_size.x as int, self.transform.scale.x as int);
                lemma_fx_scale_bounds(self.viewport_size.y as int, self.transform.scale.y as int);
                lemma_div_pos_is_pos(
                    fx_mul_spec(self.viewport_size.x as int, self.transform.scale.x as int),
                    2,
                );
                lemma_div_pos_is_pos(
                    fx_mul_spec(self.viewport_size.y as int, self.transform.scale.y as int),
                    2,
                );
                lemma_div_is_ordered(
                    fx_mul_spec(self.viewport_size.x as int, self.transform.scale.x as int),
                    FX_COORD_BOUND as int,
                    2,
                );
                lemma_div_is_ordered(
                    fx_mul_spec(self.viewport_size.y as int, self.transform.scale.y as int),
                    FX_COORD_BOUND as int,
                    2,
                );
            }
            let size = Vec2 {
                x: fx_mul(self.viewport_size.x, self.transform.scale.x),
                y: fx_mul(self.viewport_size.y, self.transform.scale.y),
            };
            let viewport = Rect::from_center_size(self.transform.translation.truncate(), size);

            let viewport_size = viewport.size();
            let boundary_size = boundary.size();
            if viewport_size.x < boundary_size.x {
                if viewport.left() < boundary.left() {
                    self.transform.translation.x = self.transform.translation.x + (boundary.left()
                        - viewport.left());
                } else if viewport.right() > boundary.right() {
                    self.transform.translation.x = self.transform.translation.x - (viewport.right()
                        - boundary.right());
                }
            } else {
                self.transform.translation.x = boundary.center().x;
            }

            if viewport_size.y < boundary_size.y {
                if viewport.bottom() < boundary.bottom() {
                    self.transform.translation.y = self.transform.translation.y + (boundary.bottom()
                        - viewport.bottom());
                } else if viewport.top() > boundary.top() {
                    self.transform.translation.y = self.transform.translation.y - (viewport.top()
                        - boundary.top());
                }
            } else {
                self.transform.translation.y = boundary.center().y;
            }
        }
    }
}

/// A quotient by a scale in [1/8, 1] grows a bounded value by at most the
/// zoom factor eight, so the division the viewport mapping forms stays far
/// inside the machine range.
proof fn lemma_fx_div_small_bounds(a: int, s: int)
    requires
        FX_EIGHTH <= s <= FX_ONE,
        -2 * FX_COORD_BOUND <= a <= 2 * FX_COORD_BOUND,
    ensures
        -(i64::MAX as int) * s <= a * (FX_ONE as int) <= (i64::MAX as int) * s,
        -(16 * FX_COORD_BOUND) <= fx_div_spec(a, s) <= 16 * FX_COORD_BOUND,
{
    let f = FX_ONE as int;
    assert(a * f <= (i64::MAX as int) * s && -(i64::MAX as int) * s <= a * f) by (nonlinear_arith)
        requires FX_EIGHTH <= s && -2 * FX_COORD_BOUND <= a <= 2 * FX_COORD_BOUND && f == 65536;
    assert(a * f <= (16 * FX_COORD_BOUND) * s && (-(16 * FX_COORD_BOUND)) * s <= a * f)
        by (nonlinear_arith)
        requires FX_EIGHTH <= s <= 65536 && -2 * FX_COORD_BOUND <= a <= 2 * FX_COORD_BOUND
            && f == 65536;
    lemma_div_is_ordered(a * f, (16 * FX_COORD_BOUND) * s, s);
    assert((16 * FX_COORD_BOUND) * s == s * (16 * FX_COORD_BOUND)) by (nonlinear_arith);
    lemma_div_multiples_vanish(16 * FX_COORD_BOUND, s);
    lemma_div_is_ordered((-(16 * FX_COORD_BOUND)) * s, a * f, s);
    assert((-(16 * FX_COORD_BOUND)) * s == s * (-(16 * FX_COORD_BOUND))) by (nonlinear_arith);
    lemma_div_multiples_vanish(-(16 * FX_COORD_BOUND), s);
}

/// The pixel zoom of a well-formed camera is always a power of two
/// between one and eight; `zoom_in` and `zoom_out` keep it so and are
/// refused outside these bounds or while a transition is in flight.
pub proof fn lemma_zoom_power_of_two(cam: Camera2D)
    requires
        cam.wf(),
    ensures
        cam.pixel_zoom == 1 || cam.pixel_zoom == 2 || cam.pixel_zoom == 4 || cam.pixel_zoom == 8,
{
}

/// Clamping the camera position to a boundary is idempotent: a position
/// already clamped to a boundary is left where it is when clamped to the
/// same boundary again with the same visible extent.
pub proof fn lemma_boundary_clamp_idempotent(t: int, half: int, bmin: int, bmax: int)
    ensures
        clamp_axis_spec(clamp_axis_spec(t, half, bmin, bmax), half, bmin, bmax)
            == clamp_axis_spec(t, half, bmin, bmax),
{
}

/// Round trip of the coordinate mappings: on a camera whose zoom
/// transition has finished, mapping a world point to the viewport and back
/// returns exactly the same point, for the x and y axes alike.
pub proof fn lemma_viewport_round_trip(cam: Camera2D, w: Vec2)
    requires
        cam.wf(),
        cam.scale_animator.finished_spec(),
    ensures
        cam.viewport_to_world_x_spec(cam.world_to_viewport_x_spec(w.x as int)) == w.x,
        cam.viewport_to_world_y_spec(cam.world_to_viewport_y_spec(w.y as int)) == w.y,
{
    let f = FX_ONE as int;
    let z = cam.pixel_zoom as int;
    let s = cam.transform.scale.x as int;
    assert(s == f / z && cam.transform.scale.y == f / z);
    assert(s * z == f) by {
        assert(z == 1 || z == 2 || z == 4 || z == 8);
        lemma_fundamental_div_mod_converse_div(65536, 1, 65536, 0);
        lemma_fundamental_div_mod_converse_div(65536, 2, 32768, 0);
        lemma_fundamental_div_mod_converse_div(65536, 4, 16384, 0);
        lemma_fundamental_div_mod_converse_div(65536, 8, 8192, 0);
    };
    lemma_round_trip_axis(w.x as int - cam.transform.translation.x, s, z);
    lemma_round_trip_axis(
        w.y as int - cam.transform.translation.y,
        cam.transform.scale.y as int,
        z,
    );
}

/// On one axis, dividing an offset by a scale whose product with the zoom
/// factor is one and scaling it back is exact: with `s * z == 2^16`,
/// `floor(d*2^16/s) == d*z` and `floor(s*(d*z)/2^16) == d`.
proof fn lemma_round_trip_axis(d: int, s: int, z: int)
    requires
        1 <= z,
        1 <= s,
        s * z == FX_ONE as int,
    ensures
        fx_div_spec(d, s) == d * z,
        fx_mul_spec(s, d * z) == d,
{
    let f = FX_ONE as int;
    assert(d * f == s * (d * z)) by (nonlinear_arith)
        requires s * z == f;
    lemma_div_multiples_vanish(d * z, s);
    assert(fx_div_spec(d, s) == (d * f) / s);
    assert((d * f) / s == d * z);
    assert(s * (d * z) == f * d) by (nonlinear_arith)
        requires s * z == f;
    lemma_div_multiples_vanish(d, f);
    assert(fx_mul_spec(s, d * z) == (s * (d * z)) / f);
    assert((s * (d * z)) / f == (f * d) / f);
}

/// The fixed-point reciprocal of a zoom factor.
fn zoom_reciprocal(zoom: u8) -> (r: i64)
    requires
        zoom >= 1,
    ensures
        r == (FX_ONE as int) / (zoom as int),
        r <= FX_ONE,
        zoom <= 8 ==> r >= FX_EIGHTH,
{
    proof {
        lemma_div_is_ordered_by_denominator(65536, 1, zoom as int);
        if zoom <= 8 {
            lemma_div_is_ordered_by_denominator(65536, zoom as int, 8);
        }
    }
    (65536u64 / (zoom as u64)) as i64
}

} // verus!
