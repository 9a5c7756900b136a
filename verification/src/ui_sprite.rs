//! Screen-anchored UI sprites: thin consumers of the camera that place a
//! sprite a fixed distance from the viewport edges and step a frame
//! animation.

use vstd::prelude::*;

verus! {

use crate::camera::Camera2D;
use crate::fx::FX_ONE;
use crate::fx::FX_COORD_BOUND;
use crate::fx::fx_in_bounds;
use crate::fx::fx_mul;
use crate::fx::fx_mul_spec;
use crate::fx::fx_half;
use crate::fx::lemma_fx_mul_magnitude;
use crate::rect::Rect;
use crate::sprite::Sprite;
use crate::vector::Vec2;

/// How long one animation frame shows, in microseconds.
pub const UI_FRAME_US: u64 = 100000;

/// A value in layout units that scales up with the viewport resolution.
#[derive(Debug, Copy, Clone, Default)]
pub struct Val<T> {
    base: T,
}

impl<T> Val<T> {
    /// Wraps a base value.
    pub fn new(base: T) -> (v: Val<T>)
        ensures
            v.base_spec() == base,
    {
        Val { base }
    }

    /// The base value before resolution scaling.
    pub closed spec fn base_spec(self) -> T {
        self.base
    }
}

/// The resolution multiplier for scalar layout values: four from 4K
/// upward, two from 2880 by 1620 or full HD upward, one below.
pub open spec fn val_scalar_factor(viewport_size: Vec2) -> int {
    if viewport_size.x >= 3840 * FX_ONE && viewport_size.y >= 2160 * FX_ONE {
        4
    } else if viewport_size.x >= 2880 * FX_ONE && viewport_size.y >= 1620 * FX_ONE {
        2
    } else if viewport_size.x >= 1920 * FX_ONE && viewport_size.y >= 1080 * FX_ONE {
        2
    } else {
        1
    }
}

/// The resolution multiplier for vector layout values: four from 4K
/// upward, two from full HD upward, one below.
pub open spec fn val_vector_factor(viewport_size: Vec2) -> int {
    if viewport_size.x >= 3840 * FX_ONE && viewport_size.y >= 2160 * FX_ONE {
        4
    } else if viewport_size.x >= 1920 * FX_ONE && viewport_size.y >= 1080 * FX_ONE {
        2
    } else {
        1
    }
}

impl Val<i64> {
    /// The value at the camera's resolution.
    pub fn cal(&self, camera: &Camera2D) -> (r: i64)
        requires
            -FX_COORD_BOUND / 4 <= self.base_spec() <= FX_COORD_BOUND / 4,
        ensures
            r == self.base_spec() * val_scalar_factor(camera.viewport_size),
    {
        if camera.viewport_size.x >= 3840 * FX_ONE && camera.viewport_size.y >= 2160 * FX_ONE {
            self.base * 4
        } else if camera.viewport_size.x >= 2880 * FX_ONE && camera.viewport_size.y >= 1620
            * FX_ONE {
            self.base * 2
        } else if camera.viewport_size.x >= 1920 * FX_ONE && camera.viewport_size.y >= 1080
            * FX_ONE {
            self.base * 2
        } else {
            self.base
        }
    }
}

impl Val<Vec2> {
    /// The value at the camera's resolution.
    pub fn cal(&self, camera: &Camera2D) -> (r: Vec2)
        requires
            -FX_COORD_BOUND / 4 <= self.base_spec().x <= FX_COORD_BOUND / 4,
            -FX_COORD_BOUND / 4 <= self.base_spec().y <= FX_COORD_BOUND / 4,
        ensures
            r.x == self.base_spec().x * val_vector_factor(camera.viewport_size),
            r.y == self.base_spec().y * val_vector_factor(camera.viewport_size),
    {
        if camera.viewport_size.x >= 3840 * FX_ONE && camera.viewport_size.y >= 2160 * FX_ONE {
            Vec2 { x: self.base.x * 4, y: self.base.y * 4 }
        } else if camera.viewport_size.x >= 1920 * FX_ONE && camera.viewport_size.y >= 1080
            * FX_ONE {
            Vec2 { x: self.base.x * 2, y: self.base.y * 2 }
        } else {
            self.base
        }
    }
}

/// A sprite laid out in viewport space: an on-screen size in layout
/// units, optional distances from the right and top viewport edges, and
/// an optional looping frame animation over texture sub-rectangles.
#[derive(Debug, Clone, Default)]
pub struct UiSprite {
    pub sprite: Sprite,
    pub size: Val<Vec2>,
    pub left: Option<Val<i64>>,
    pub top: Option<Val<i64>>,
    /// Animation frames, the index of the current one, and the time spent
    /// on it in microseconds.
    pub loop_anima: Option<(Vec<Rect>, usize, u64)>,
}

impl UiSprite {
    /// What the layout arithmetic needs: bounded layout values and, when
    /// an animation runs, at least one frame with the index on one of
    /// them.
    pub open spec fn wf(self) -> bool {
        &&& -FX_COORD_BOUND / 4 <= self.size.base_spec().x <= FX_COORD_BOUND / 4
        &&& -FX_COORD_BOUND / 4 <= self.size.base_spec().y <= FX_COORD_BOUND / 4
        &&& (self.left matches Some(l) ==> -FX_COORD_BOUND / 4 <= l.base_spec()
            <= FX_COORD_BOUND / 4)
        &&& (self.top matches Some(t) ==> -FX_COORD_BOUND / 4 <= t.base_spec()
            <= FX_COORD_BOUND / 4)
        &&& (self.loop_anima matches Some(anima) ==> anima.0@.len() > 0 && anima.1
            < anima.0@.len())
    }

    /// Lays the sprite out for this frame: the on-screen size follows the
    /// camera scale, the position keeps the configured distance from the
    /// right and top viewport edges (through the camera's viewport
    /// mapping), and the frame animation advances one frame per elapsed
    /// interval, writing the current frame into the sprite's rectangle.
    pub fn update(&mut self, camera: &Camera2D, delta_us: u64)
        requires
            old(self).wf(),
            camera.wf(),
        ensures
            final(self).wf(),
            final(self).size == old(self).size,
            final(self).left == old(self).left,
            final(self).top == old(self).top,
            ({
                let scaled = val_vector_factor(camera.viewport_size);
                let size_x = old(self).size.base_spec().x * scaled;
                let size_y = old(self).size.base_spec().y * scaled;
                &&& final(self).sprite.custom_size matches Some(cs)
                &&& cs.x == fx_mul_spec(size_x, camera.transform.scale.x as int)
                &&& cs.y == fx_mul_spec(size_y, camera.transform.scale.y as int)
                &&& (old(self).left matches Some(l) ==> final(self).sprite.transform.translation.x
                    == camera.viewport_to_world_x_spec(
                    camera.viewport_size.x - (l.base_spec() * val_scalar_factor(
                        camera.viewport_size,
                    ) + size_x / 2),
                ))
                &&& (old(self).left is None ==> final(self).sprite.transform.translation.x == old(
                    self,
                ).sprite.transform.translation.x)
                &&& (old(self).top matches Some(t) ==> final(self).sprite.transform.translation.y
                    == camera.viewport_to_world_y_spec(
                    t.base_spec() * val_scalar_factor(camera.viewport_size) + size_y / 2,
                ))
                &&& (old(self).top is None ==> final(self).sprite.transform.translation.y == old(
                    self,
                ).sprite.transform.translation.y)
            }),
            old(self).loop_anima is None ==> final(self).loop_anima is None,
    {
        let size = self.size.cal(camera);
        let scale = camera.get_scale();
        proof {
            lemma_fx_mul_magnitude(size.x as int, scale.x as int, FX_COORD_BOUND as int);
            lemma_fx_mul_magnitude(size.y as int, scale.y as int, FX_COORD_BOUND as int);
        }
        self.sprite.custom_size = Some(
            Vec2 { x: fx_mul(size.x, scale.x), y: fx_mul(size.y, scale.y) },
        );

        if let Some(left) = self.left {
            let left_px: i64 = left.cal(camera) + fx_half(size.x);
            let world = camera.viewport_to_world(
                Vec2 { x: camera.viewport_size.x - left_px, y: 0 },
            );
            self.sprite.transform.translation.x = world.x;
        }
        if let Some(top) = self.top {
            let top_px: i64 = top.cal(camera) + fx_half(size.y);
            let world = camera.viewport_to_world(Vec2 { x: 0, y: top_px });
            self.sprite.transform.translation.y = world.y;
        }
        if let Some(anima) = &mut self.loop_anima {
            proof {
                assert(anima.0@.len() > 0);
                assert(anima.1 < anima.0@.len());
            }
            anima.2 = match anima.2.checked_add(delta_us) {
                Some(sum) => sum,
                None => u64::MAX,
            };
            if anima.2 >= UI_FRAME_US {
                anima.2 = anima.2 - UI_FRAME_US;
                let frame_count: usize = anima.0.len();
                anima.1 = (anima.1 + 1) % frame_count;
            }
            self.sprite.rect = Some(anima.0[anima.1]);
        }
    }

    /// Whether the cursor lies inside the sprite's on-screen rectangle;
    /// a sprite without an explicit size contains nothing.
    pub fn contains(&self, cursor: Vec2) -> (r: bool)
        requires
            self.sprite.custom_size matches Some(cs) ==> {
                &&& 0 <= cs.x <= FX_COORD_BOUND
                &&& 0 <= cs.y <= FX_COORD_BOUND
                &&& fx_in_bounds(self.sprite.transform.translation.x as int)
                &&& fx_in_bounds(self.sprite.transform.translation.y as int)
            },
        ensures
            r == (self.sprite.custom_size matches Some(cs) && {
                let cx = self.sprite.transform.translation.x;
                let cy = self.sprite.transform.translation.y;
                &&& cx - cs.x / 2 <= cursor.x <= cx + cs.x / 2
                &&& cy - cs.y / 2 <= cursor.y <= cy + cs.y / 2
            }),
    {
        if let Some(custom_size) = self.sprite.custom_size {
            let center = Vec2 {
                x: self.sprite.transform.translation.x,
                y: self.sprite.transform.translation.y,
            };
            let rect = Rect::from_center_size(center, custom_size);
            if rect.contains(cursor) {
                return true;
            }
        }
        false
    }

    /// Starts the frame animation over the given frames, unless one is
    /// already running.
    pub fn start_anima(&mut self, frames: Vec<Rect>)
        requires
            old(self).wf(),
            frames@.len() > 0,
        ensures
            final(self).wf(),
            old(self).loop_anima is None ==> final(self).loop_anima == Some((frames, 0usize, 0u64)),
            old(self).loop_anima is Some ==> *final(self) == *old(self),
    {
        if self.loop_anima.is_none() {
            self.loop_anima = Some((frames, 0, 0));
        }
    }

    /// Stops the frame animation, leaving the sprite on the first frame.
    pub fn stop_anima(&mut self)
        requires
            old(self).wf(),
        ensures
            final(self).wf(),
            final(self).loop_anima is None,
            old(self).loop_anima matches Some(anima) ==> final(self).sprite.rect == Some(
                anima.0@[0],
            ),
            old(self).loop_anima is None ==> final(self).sprite == old(self).sprite,
    {
        if let Some(anima) = &self.loop_anima {
            self.sprite.rect = Some(anima.0[0]);
        }
        self.loop_anima = None;
    }
}

} // verus!
