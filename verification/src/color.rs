//! A flat RGB color in fixed-point units.
//!
//! The demo stores each channel as thousandths of full intensity, so that
//! the state and its updates stay in integer arithmetic: a channel value
//! of `COLOR_SCALE` (1000) stands for full intensity, 400 for 0.4 of it.
//! The renderer wants one byte per channel, and `channel_to_byte` performs
//! that conversion, truncating exactly as a cast to a byte would.

use vstd::prelude::*;

verus! {

/// Fixed-point value of a channel at full intensity.
pub const COLOR_SCALE: u16 = 1000;

/// Default red channel: 0.4 of full intensity.
pub const DEFAULT_RED: u16 = 400;

/// Default green channel: 0.8 of full intensity.
pub const DEFAULT_GREEN: u16 = 800;

/// Default blue channel: full intensity.
pub const DEFAULT_BLUE: u16 = 1000;

/// An RGB color; each channel is in thousandths of full intensity.
#[derive(Clone, Copy, Debug, PartialEq, Eq, Structural)]
pub struct Rgb {
    pub red: u16,
    pub green: u16,
    pub blue: u16,
}

/// A channel clamped to full intensity.
pub open spec fn clamped(c: u16) -> u16 {
    if c > COLOR_SCALE {
        COLOR_SCALE
    } else {
        c
    }
}

/// The byte that stands for a channel, truncated as the renderer's cast
/// truncates: full intensity maps to 255.
pub open spec fn byte_of_channel(c: u16) -> int {
    c * 255 / 1000
}

impl Rgb {
    /// A color is well formed when no channel exceeds full intensity.
    pub open spec fn wf(self) -> bool {
        self.red <= COLOR_SCALE && self.green <= COLOR_SCALE && self.blue <= COLOR_SCALE
    }

    /// The demo's default color, a light sky blue.
    pub open spec fn default_spec() -> Rgb {
        Rgb { red: DEFAULT_RED, green: DEFAULT_GREEN, blue: DEFAULT_BLUE }
    }

    /// Build a color, clamping each channel to full intensity.
    pub fn new(red: u16, green: u16, blue: u16) -> (c: Rgb)
        ensures
            c == (Rgb { red: clamped(red), green: clamped(green), blue: clamped(blue) }),
            c.wf(),
    {
        Rgb { red: clamp_channel(red), green: clamp_channel(green), blue: clamp_channel(blue) }
    }

    /// The demo's default color as a value.
    pub fn default_color() -> (c: Rgb)
        ensures
            c == Rgb::default_spec(),
            c.wf(),
    {
        Rgb { red: DEFAULT_RED, green: DEFAULT_GREEN, blue: DEFAULT_BLUE }
    }

    /// The three channels as bytes, ready for the renderer.
    pub fn bytes(&self) -> (b: (u8, u8, u8))
        requires
            self.wf(),
        ensures
            b.0 == byte_of_channel(self.red),
            b.1 == byte_of_channel(self.green),
            b.2 == byte_of_channel(self.blue),
    {
        (channel_to_byte(self.red), channel_to_byte(self.green), channel_to_byte(self.blue))
    }
}

/// Clamp one channel to full intensity.
pub fn clamp_channel(c: u16) -> (r: u16)
    ensures
        r == clamped(c),
        r <= COLOR_SCALE,
{
    if c > COLOR_SCALE {
        COLOR_SCALE
    } else {
        c
    }
}

/// Convert one channel to a byte: scale by 255 and divide by the
/// fixed-point unit, so that full intensity gives exactly 255.
pub fn channel_to_byte(c: u16) -> (b: u8)
    requires
        c <= COLOR_SCALE,
    ensures
        b == byte_of_channel(c),
        b <= 255,
{
    let scaled: u32 = (c as u32) * 255;
    let quotient: u32 = scaled / 1000;
    quotient as u8
}

} // verus!
