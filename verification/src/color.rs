//! Opaque colours with eight bits per channel.

use vstd::prelude::*;
use crate::fixed::{clamp, div_toward_zero, trunc_div, ONE};

verus! {

/// A colour: red, green and blue, each in `0..=255`.
#[derive(Clone, Copy, Debug, PartialEq, Eq, Structural)]
pub struct Color {
    pub r: u8,
    pub g: u8,
    pub b: u8,
}

/// The channel value that stands for the fixed-point intensity `v`: `v`
/// limited to `0..=ONE`, then mapped linearly onto `0..=255`.
pub open spec fn channel_of_unit(v: int) -> int {
    clamp(v, 0, ONE as int) * 255 / (ONE as int)
}

/// The channel `base` scaled by the fixed-point `factor` and limited to the
/// channel range.
pub open spec fn scaled_channel(base: int, factor: int) -> int {
    clamp(trunc_div(base * factor, ONE as int), 0, 255)
}

/// The sum of two channels, limited to the channel range.
pub open spec fn added_channel(a: int, b: int) -> int {
    clamp(a + b, 0, 255)
}

impl Color {
    /// The colour with the given channels.
    pub fn new(r: u8, g: u8, b: u8) -> (c: Color)
        ensures
            c == (Color { r, g, b }),
    {
        Color { r, g, b }
    }

    /// The colour as `0xRRGGBB`.
    pub open spec fn hex(self) -> int {
        self.r * 0x1_0000 + self.g * 0x100 + self.b
    }

    /// The colour whose channels are the three bytes of `0xRRGGBB`.
    pub open spec fn of_hex(hex: int) -> Color {
        Color {
            r: ((hex / 0x1_0000) % 0x100) as u8,
            g: ((hex / 0x100) % 0x100) as u8,
            b: (hex % 0x100) as u8,
        }
    }

    /// The colour with each channel scaled by `factor`.
    pub open spec fn scaled(self, factor: int) -> Color {
        Color {
            r: scaled_channel(self.r as int, factor) as u8,
            g: scaled_channel(self.g as int, factor) as u8,
            b: scaled_channel(self.b as int, factor) as u8,
        }
    }

    /// The channel-wise saturating sum of two colours.
    pub open spec fn plus(self, other: Color) -> Color {
        Color {
            r: added_channel(self.r as int, other.r as int) as u8,
            g: added_channel(self.g as int, other.g as int) as u8,
            b: added_channel(self.b as int, other.b as int) as u8,
        }
    }

    /// Builds a colour from three fixed-point intensities in `0..=ONE`;
    /// values outside that range are limited to it.
    pub fn from_unit(r: i32, g: i32, b: i32) -> (c: Color)
        ensures
            c.r == channel_of_unit(r as int),
            c.g == channel_of_unit(g as int),
            c.b == channel_of_unit(b as int),
    {
        Color { r: unit_to_channel(r), g: unit_to_channel(g), b: unit_to_channel(b) }
    }

    /// Packs the colour as `0xRRGGBB`.
    pub fn to_hex(&self) -> (hex: u32)
        ensures
            hex == self.hex(),
            hex <= 0xff_ffff,
            Color::of_hex(hex as int) == *self,
    {
        let r: u32 = self.r as u32;
        let g: u32 = self.g as u32;
        let b: u32 = self.b as u32;
        let hex: u32 = r * 0x1_0000 + g * 0x100 + b;
        proof {
            lemma_pack_unpack(r, g, b, hex);
        }
        hex
    }

    /// Unpacks the low 24 bits of `0xRRGGBB`.
    pub fn from_hex(hex: u32) -> (c: Color)
        ensures
            c == Color::of_hex(hex as int),
            hex <= 0xff_ffff ==> c.hex() == hex,
    {
        Color {
            r: ((hex / 0x1_0000) % 0x100) as u8,
            g: ((hex / 0x100) % 0x100) as u8,
            b: (hex % 0x100) as u8,
        }
    }

    /// Scales each channel by the fixed-point `factor`, limiting the result
    /// to the channel range.
    pub fn scale(&self, factor: i32) -> (c: Color)
        ensures
            c == self.scaled(factor as int),
    {
        Color {
            r: scale_channel(self.r, factor),
            g: scale_channel(self.g, factor),
            b: scale_channel(self.b, factor),
        }
    }

    /// Adds two colours channel by channel, saturating at white.
    pub fn add(&self, other: &Color) -> (c: Color)
        ensures
            c == self.plus(*other),
    {
        Color {
            r: add_channel(self.r, other.r),
            g: add_channel(self.g, other.g),
            b: add_channel(self.b, other.b),
        }
    }
}

/// Unpacking a packed colour gives its channels back.
pub proof fn lemma_pack_unpack(r: u32, g: u32, b: u32, hex: u32)
    by (bit_vector)
    requires
        r < 0x100,
        g < 0x100,
        b < 0x100,
        hex == r * 0x1_0000 + g * 0x100 + b,
    ensures
        (hex / 0x1_0000) % 0x100 == r,
        (hex / 0x100) % 0x100 == g,
        hex % 0x100 == b,
{
}

fn unit_to_channel(v: i32) -> (c: u8)
    ensures
        c == channel_of_unit(v as int),
{
    let limited: i64 = if v < 0 {
        0
    } else if v > ONE {
        ONE as i64
    } else {
        v as i64
    };
    (limited * 255 / (ONE as i64)) as u8
}

/// Scales one channel by the fixed-point `factor`.
pub fn scale_channel(base: u8, factor: i32) -> (c: u8)
    ensures
        c == scaled_channel(base as int, factor as int),
{
    assert(-0x80_0000_0000 <= base * factor <= 0x80_0000_0000) by (nonlinear_arith)
        requires
            0 <= base <= 255,
            -0x8000_0000 <= factor <= 0x7fff_ffff,
    ;
    let wide: i128 = (base as i128) * (factor as i128);
    let q: i128 = div_toward_zero(wide, ONE as i128);
    if q < 0 {
        0
    } else if q > 255 {
        255
    } else {
        q as u8
    }
}

fn add_channel(a: u8, b: u8) -> (c: u8)
    ensures
        c == added_channel(a as int, b as int),
{
    let sum: u16 = a as u16 + b as u16;
    if sum > 255 {
        255
    } else {
        sum as u8
    }
}

} // verus!
