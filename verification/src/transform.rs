//! Translation and scale of an entity.
//!
//! The renderer's camera and sprites never rotate, so a transform is a
//! translation plus a per-axis scale; in two dimensions the third
//! translation component carries the z-ordering depth.

use vstd::prelude::*;

verus! {

use crate::fx::FX_ONE;
use crate::vector::Vec3;

/// Position and per-axis scale of an entity.
#[derive(Debug, Copy, Clone, PartialEq, Eq, Structural)]
pub struct Transform {
    /// Position; the third component is the z-ordering depth.
    pub translation: Vec3,
    /// Per-axis scale.
    pub scale: Vec3,
}

impl Transform {
    /// No translation and a scale of one on all axes.
    pub fn identity() -> (t: Transform)
        ensures
            t == Transform::identity_spec(),
    {
        Transform {
            translation: Vec3 { x: 0, y: 0, z: 0 },
            scale: Vec3 { x: FX_ONE, y: FX_ONE, z: FX_ONE },
        }
    }

    /// The identity transform: no translation, unit scale.
    pub open spec fn identity_spec() -> Transform {
        Transform {
            translation: Vec3 { x: 0, y: 0, z: 0 },
            scale: Vec3 { x: FX_ONE, y: FX_ONE, z: FX_ONE },
        }
    }

    /// A transform that only translates.
    pub fn from_translation(translation: Vec3) -> (t: Transform)
        ensures
            t.translation == translation,
            t.scale == (Vec3 { x: FX_ONE, y: FX_ONE, z: FX_ONE }),
    {
        Transform { translation, scale: Vec3 { x: FX_ONE, y: FX_ONE, z: FX_ONE } }
    }
}

impl Default for Transform {
    fn default() -> (t: Self)
        ensures
            t == Transform::identity_spec(),
    {
        Transform::identity()
    }
}

} // verus!
