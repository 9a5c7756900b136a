//! Blend modes a sprite can composite with.

use vstd::prelude::*;

verus! {

/// How a sprite's fragments combine with what is already on the target.
///
/// `Normal` draws with plain alpha blending; `Multiply`, `Overlay`,
/// `SoftLight` and `HardLight` need the current frame contents (a grab pass);
/// `Blur` samples the grabbed frame with a blur kernel.
#[derive(Debug, Copy, Clone, PartialEq, Eq, Structural, Hash)]
pub enum BlendMode {
    Normal,
    Multiply,
    Overlay,
    SoftLight,
    HardLight,
    Blur,
}

impl BlendMode {
    /// The numeric tag of this mode in the GPU instance record.
    pub open spec fn tag_spec(self) -> u32 {
        match self {
            BlendMode::Normal => 0,
            BlendMode::Multiply => 11,
            BlendMode::Overlay => 30,
            BlendMode::SoftLight => 31,
            BlendMode::HardLight => 32,
            BlendMode::Blur => 60,
        }
    }

    /// Numeric tag used in the packed per-instance record.
    pub fn tag(&self) -> (t: u32)
        ensures
            t == self.tag_spec(),
    {
        match self {
            BlendMode::Normal => 0,
            BlendMode::Multiply => 11,
            BlendMode::Overlay => 30,
            BlendMode::SoftLight => 31,
            BlendMode::HardLight => 32,
            BlendMode::Blur => 60,
        }
    }

    /// Whether this mode composites against the grabbed frame contents
    /// (every mode but `Normal` and `Blur`).
    pub open spec fn is_blend_family_spec(self) -> bool {
        !(self is Normal) && !(self is Blur)
    }

    /// Whether drawing with this mode must read the current frame contents.
    pub fn is_blend_family(&self) -> (r: bool)
        ensures
            r == self.is_blend_family_spec(),
    {
        match self {
            BlendMode::Normal => false,
            BlendMode::Blur => false,
            _ => true,
        }
    }
}

impl Default for BlendMode {
    fn default() -> (r: Self)
        ensures
            r is Normal,
    {
        BlendMode::Normal
    }
}

} // verus!
