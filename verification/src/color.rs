//! Sprite tint colors: plain RGBA bytes or a hue/saturation/brightness triple.

use vstd::prelude::*;

verus! {

use crate::fx::FX_ONE;

/// An 8-bit-per-channel RGBA color.
#[derive(Debug, Copy, Clone, PartialEq, Eq, Structural)]
pub struct RgbaColor {
    pub red: u8,
    pub green: u8,
    pub blue: u8,
    pub alpha: u8,
}

impl RgbaColor {
    /// Builds a color from `[red, green, blue, alpha]` bytes.
    pub fn from_array(value: [u8; 4]) -> (c: RgbaColor)
        ensures
            c.red == value[0],
            c.green == value[1],
            c.blue == value[2],
            c.alpha == value[3],
    {
        RgbaColor { red: value[0], green: value[1], blue: value[2], alpha: value[3] }
    }
}

/// A color in hue/saturation/brightness form with an opacity byte.
///
/// Well-formed values keep `hue` below 360 and `saturation`/`brightness`
/// at most 100; the constructor and every method preserve this.
#[derive(Debug, Copy, Clone, PartialEq, Eq, Structural)]
pub struct HsbColor {
    hue: u16,
    saturation: u8,
    brightness: u8,
    opacity: u8,
}

impl HsbColor {
    /// The component ranges every constructed value satisfies.
    pub closed spec fn wf(self) -> bool {
        self.hue < 360 && self.saturation <= 100 && self.brightness <= 100
    }

    pub closed spec fn hue_spec(self) -> u16 {
        self.hue
    }

    pub closed spec fn saturation_spec(self) -> u8 {
        self.saturation
    }

    pub closed spec fn brightness_spec(self) -> u8 {
        self.brightness
    }

    pub closed spec fn opacity_spec(self) -> u8 {
        self.opacity
    }

    /// Reads the hue in degrees.
    pub fn hue(&self) -> (h: u16)
        ensures
            h == self.hue_spec(),
    {
        self.hue
    }

    /// Reads the saturation percentage.
    pub fn saturation(&self) -> (v: u8)
        ensures
            v == self.saturation_spec(),
    {
        self.saturation
    }

    /// Reads the brightness percentage.
    pub fn brightness(&self) -> (v: u8)
        ensures
            v == self.brightness_spec(),
    {
        self.brightness
    }

    /// Reads the opacity byte.
    pub fn opacity(&self) -> (v: u8)
        ensures
            v == self.opacity_spec(),
    {
        self.opacity
    }

    /// Builds a color, forcing out-of-range components back into range:
    /// a hue of 360 or more becomes 0, saturation and brightness cap at 100;
    /// opacity starts fully opaque.
    pub fn new(hue: u16, saturation: u8, brightness: u8) -> (c: HsbColor)
        ensures
            c.wf(),
            c.hue_spec() == if hue >= 360 { 0u16 } else { hue },
            c.saturation_spec() == if saturation > 100 { 100u8 } else { saturation },
            c.brightness_spec() == if brightness > 100 { 100u8 } else { brightness },
            c.opacity_spec() == 255u8,
    {
        let mut result = HsbColor { hue, saturation, brightness, opacity: 255 };
        if result.hue >= 360 {
            result.hue = 0;
        }
        if result.saturation > 100 {
            result.saturation = 100;
        }
        if result.brightness > 100 {
            result.brightness = 100;
        }
        result
    }

    /// Advances the hue by `hue` steps, wrapping around the 360-degree circle.
    pub fn loop_hue(&mut self, hue: u16)
        requires
            old(self).wf(),
        ensures
            final(self).hue_spec() == (old(self).hue_spec() + hue) % 360,
            final(self).saturation_spec() == old(self).saturation_spec(),
            final(self).brightness_spec() == old(self).brightness_spec(),
            final(self).opacity_spec() == old(self).opacity_spec(),
            final(self).wf(),
    {
        let advanced: u32 = self.hue as u32 + hue as u32;
        self.hue = (advanced % 360) as u16;
    }

    /// A well-formed color keeps hue below 360 and saturation and
    /// brightness at most 100.
    pub proof fn lemma_wf_ranges(self)
        requires
            self.wf(),
        ensures
            self.hue_spec() < 360,
            self.saturation_spec() <= 100,
            self.brightness_spec() <= 100,
    {
    }

    /// Replaces the opacity byte.
    pub fn set_opacity(&mut self, opacity: u8)
        ensures
            final(self).hue_spec() == old(self).hue_spec(),
            final(self).saturation_spec() == old(self).saturation_spec(),
            final(self).brightness_spec() == old(self).brightness_spec(),
            final(self).opacity_spec() == opacity,
    {
        self.opacity = opacity;
    }
}

/// The opacity byte that a fixed-point opacity in [0, 1] maps to:
/// the value times 255, clamped into the byte range.
pub open spec fn opacity_byte_spec(opacity: int) -> int {
    if opacity <= 0 {
        0
    } else if (opacity * 255) / (FX_ONE as int) > 255 {
        255
    } else {
        (opacity * 255) / (FX_ONE as int)
    }
}

/// A sprite tint: either RGBA bytes, or hue/saturation/brightness
/// with its own opacity byte.
#[derive(Debug, Copy, Clone, PartialEq, Eq, Structural)]
pub enum Color {
    Rgba(RgbaColor),
    Hsb(HsbColor),
}

impl Color {
    /// Builds an RGBA color from `[red, green, blue, alpha]` bytes.
    pub fn new(rgba: [u8; 4]) -> (c: Self)
        ensures
            c matches Color::Rgba(inner) && inner == (RgbaColor {
                red: rgba[0],
                green: rgba[1],
                blue: rgba[2],
                alpha: rgba[3],
            }),
    {
        Color::Rgba(RgbaColor::from_array(rgba))
    }

    /// Builds a color from a hue/saturation/brightness triple.
    pub fn from_hsb(hue: u16, saturation: u8, brightness: u8) -> (c: Self)
        ensures
            c is Hsb,
            c->Hsb_0.wf(),
            c->Hsb_0.hue_spec() == if hue >= 360 { 0u16 } else { hue },
            c->Hsb_0.saturation_spec() == if saturation > 100 { 100u8 } else { saturation },
            c->Hsb_0.brightness_spec() == if brightness > 100 { 100u8 } else { brightness },
            c->Hsb_0.opacity_spec() == 255u8,
    {
        Color::Hsb(HsbColor::new(hue, saturation, brightness))
    }

    /// Sets the opacity from a fixed-point value in [0, 1]: the value is
    /// scaled to a byte and clamped, and replaces the alpha or opacity byte.
    pub fn set_opacity(&mut self, opacity: i64)
        ensures
            match (*old(self), *final(self)) {
                (Color::Rgba(was), Color::Rgba(now)) => now == (RgbaColor {
                    alpha: (opacity_byte_spec(opacity as int) as u8),
                    ..was
                }),
                (Color::Hsb(was), Color::Hsb(now)) => {
                    &&& now.hue_spec() == was.hue_spec()
                    &&& now.saturation_spec() == was.saturation_spec()
                    &&& now.brightness_spec() == was.brightness_spec()
                    &&& now.opacity_spec() == opacity_byte_spec(opacity as int)
                },
                _ => false,
            },
    {
        let byte: u8 = opacity_to_byte(opacity);
        match self {
            Color::Rgba(rgba) => {
                rgba.alpha = byte;
            },
            Color::Hsb(hsb) => {
                hsb.set_opacity(byte);
            },
        }
    }
}

impl Default for Color {
    /// The default tint: opaque white.
    fn default() -> (c: Self)
        ensures
            c == Color::Rgba(RgbaColor { red: 255u8, green: 255u8, blue: 255u8, alpha: 255u8 }),
    {
        Color::Rgba(RgbaColor { red: 255, green: 255, blue: 255, alpha: 255 })
    }
}

/// Scales a fixed-point opacity in [0, 1] to a byte, clamping outside values.
fn opacity_to_byte(opacity: i64) -> (b: u8)
    ensures
        b == opacity_byte_spec(opacity as int),
{
    if opacity <= 0 {
        0
    } else {
        let scaled: u128 = (opacity as u128) * 255 / (FX_ONE as u128);
        if scaled > 255 {
            255
        } else {
            scaled as u8
        }
    }
}

} // verus!
