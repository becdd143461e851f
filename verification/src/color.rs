//! Linear RGB colors and their conversion to and from 8-bit pixels.
//!
//! Channels are fixed-point scalars, nominally in [0, 1] but allowed to
//! exceed 1 during accumulation; `clamp` projects them back.  The 8-bit
//! conversion gamma-encodes with `encoded = linear^(1/g)` for the
//! exposed default g = 2, the square-root approximation of the sRGB
//! curve, which the integer model computes exactly; texture sampling
//! applies the inverse.

use vstd::prelude::*;
use crate::fixed::{
    ONE, add_spec, clamp01_spec, mul_spec, sqrt_spec, fx_add, fx_clamp01, fx_mul, fx_sqrt,
    lemma_sqrt_spec_le_one,
};

verus! {

/// An 8-bit RGBA pixel.
#[derive(Clone, Copy, Debug, PartialEq, Eq, Structural)]
pub struct Rgba8 {
    pub red: u8,
    pub green: u8,
    pub blue: u8,
    pub alpha: u8,
}

/// A linear RGB triple of fixed-point channels.
#[derive(Clone, Copy, Debug, PartialEq, Eq, Structural)]
pub struct Color {
    pub red: i64,
    pub green: i64,
    pub blue: i64,
}

/// Gamma encoding of one linear channel into an 8-bit value:
/// the channel is clamped into [0, 1], square-rooted, and scaled to 255.
pub open spec fn byte_of_channel(x: int) -> int {
    (sqrt_spec(clamp01_spec(x)) * 255) / (ONE as int)
}

/// Gamma decoding of one 8-bit value into a linear channel:
/// the byte is scaled into [0, 1] and squared.
pub open spec fn channel_of_byte(b: int) -> int {
    let t = (b * (ONE as int)) / 255;
    mul_spec(t, t)
}

impl Color {
    /// Componentwise sum.
    pub open spec fn spec_add(self, o: Color) -> Color {
        Color {
            red: add_spec(self.red as int, o.red as int) as i64,
            green: add_spec(self.green as int, o.green as int) as i64,
            blue: add_spec(self.blue as int, o.blue as int) as i64,
        }
    }

    /// Componentwise modulation.
    pub open spec fn spec_mul(self, o: Color) -> Color {
        Color {
            red: mul_spec(self.red as int, o.red as int) as i64,
            green: mul_spec(self.green as int, o.green as int) as i64,
            blue: mul_spec(self.blue as int, o.blue as int) as i64,
        }
    }

    /// Attenuation by a scalar.
    pub open spec fn spec_scale(self, k: int) -> Color {
        Color {
            red: mul_spec(self.red as int, k) as i64,
            green: mul_spec(self.green as int, k) as i64,
            blue: mul_spec(self.blue as int, k) as i64,
        }
    }

    /// Componentwise projection into [0, 1].
    pub open spec fn spec_clamp(self) -> Color {
        Color {
            red: clamp01_spec(self.red as int) as i64,
            green: clamp01_spec(self.green as int) as i64,
            blue: clamp01_spec(self.blue as int) as i64,
        }
    }

    /// The gamma-encoded 8-bit pixel, with alpha 0.
    pub open spec fn spec_to_rgba(self) -> Rgba8 {
        Rgba8 {
            red: byte_of_channel(self.red as int) as u8,
            green: byte_of_channel(self.green as int) as u8,
            blue: byte_of_channel(self.blue as int) as u8,
            alpha: 0,
        }
    }

    /// The linear color of a gamma-encoded 8-bit pixel.
    pub open spec fn spec_from_rgba(rgba: Rgba8) -> Color {
        Color {
            red: channel_of_byte(rgba.red as int) as i64,
            green: channel_of_byte(rgba.green as int) as i64,
            blue: channel_of_byte(rgba.blue as int) as i64,
        }
    }

    /// Pure black.
    pub open spec fn spec_black() -> Color {
        Color { red: 0, green: 0, blue: 0 }
    }

    /// The color with the given channels.
    pub fn new(red: i64, green: i64, blue: i64) -> (r: Color)
        ensures
            r == (Color { red, green, blue }),
    {
        Color { red, green, blue }
    }

    /// Pure black.
    pub fn black() -> (r: Color)
        ensures
            r == Color::spec_black(),
    {
        Color { red: 0, green: 0, blue: 0 }
    }

    /// Componentwise sum.
    pub fn add(self, o: Color) -> (r: Color)
        ensures
            r == self.spec_add(o),
    {
        Color {
            red: fx_add(self.red, o.red),
            green: fx_add(self.green, o.green),
            blue: fx_add(self.blue, o.blue),
        }
    }

    /// Componentwise modulation.
    pub fn mul(self, o: Color) -> (r: Color)
        ensures
            r == self.spec_mul(o),
    {
        Color {
            red: fx_mul(self.red, o.red),
            green: fx_mul(self.green, o.green),
            blue: fx_mul(self.blue, o.blue),
        }
    }

    /// Attenuation by a scalar.
    pub fn scale(self, k: i64) -> (r: Color)
        ensures
            r == self.spec_scale(k as int),
    {
        Color {
            red: fx_mul(self.red, k),
            green: fx_mul(self.green, k),
            blue: fx_mul(self.blue, k),
        }
    }

    /// Componentwise projection into [0, 1].
    pub fn clamp(&self) -> (r: Color)
        ensures
            r == self.spec_clamp(),
    {
        Color {
            red: fx_clamp01(self.red),
            green: fx_clamp01(self.green),
            blue: fx_clamp01(self.blue),
        }
    }

    /// The gamma-encoded 8-bit pixel, with alpha 0.
    pub fn to_rgba(self) -> (r: Rgba8)
        ensures
            r == self.spec_to_rgba(),
    {
        Rgba8 {
            red: encode_channel(self.red),
            green: encode_channel(self.green),
            blue: encode_channel(self.blue),
            alpha: 0,
        }
    }

    /// The linear color of a gamma-encoded 8-bit pixel.
    pub fn from_rgba(rgba: Rgba8) -> (r: Color)
        ensures
            r == Color::spec_from_rgba(rgba),
    {
        Color {
            red: decode_channel(rgba.red),
            green: decode_channel(rgba.green),
            blue: decode_channel(rgba.blue),
        }
    }
}

/// Gamma encoding of one channel.
fn encode_channel(x: i64) -> (r: u8)
    ensures
        r as int == byte_of_channel(x as int),
{
    let c = fx_clamp01(x);
    let e = fx_sqrt(c);
    proof {
        lemma_sqrt_spec_le_one(c as int);
    }
    (((e as u64) * 255) / 65536) as u8
}

/// Gamma decoding of one channel.
fn decode_channel(b: u8) -> (r: i64)
    ensures
        r as int == channel_of_byte(b as int),
{
    let t = (((b as u64) * 65536) / 255) as i64;
    fx_mul(t, t)
}

} // verus!
