//! Color resolution: the closed set of semantic color categories and the
//! quantization of a normalized channel to an 8-bit one. Resolving a
//! semantic category to a normalized triple is the theme's business and
//! happens outside the library; channels arrive here as fixed-point values.

use vstd::prelude::*;

verus! {

/// Denominator of the fixed-point channel encoding: a channel value `c`
/// stands for the intensity `c / CHANNEL_SCALE` of the normalized range.
pub const CHANNEL_SCALE: u32 = 1000000;

/// Quantization factor. It is 255, not 256, so that full intensity maps to
/// 255 instead of wrapping past the top of the 8-bit range.
pub const QUANT_FACTOR: u32 = 255;

/// The closed set of semantic color categories the engine reports for a
/// split, the timer or an info line.
#[derive(Clone, Copy, PartialEq, Eq, Structural, Debug)]
pub enum SemanticColor {
    Default,
    AheadGainingTime,
    AheadLosingTime,
    BehindLosingTime,
    BehindGainingTime,
    BestSegment,
    NotRunning,
    Paused,
    PersonalBest,
}

/// A normalized color, each channel a fixed-point intensity out of
/// [`CHANNEL_SCALE`].
#[derive(Clone, Copy, PartialEq, Eq, Structural, Debug)]
pub struct NormColor {
    pub red: u32,
    pub green: u32,
    pub blue: u32,
}

/// A concrete color with 8 bits per channel.
#[derive(Clone, Copy, PartialEq, Eq, Structural, Debug)]
pub struct Rgb {
    pub red: u8,
    pub green: u8,
    pub blue: u8,
}

/// The quantized value of one channel: `floor(c * 255 / CHANNEL_SCALE)`,
/// clamped to the 8-bit range.
pub open spec fn quantized(c: u32) -> int {
    let q = (c * QUANT_FACTOR) / (CHANNEL_SCALE as int);
    if q > 255 {
        255
    } else {
        q
    }
}

/// Quantizes one normalized channel to 8 bits.
pub fn quantize_channel(c: u32) -> (r: u8)
    ensures
        r as int == quantized(c),
{
    let wide: u64 = (c as u64) * (QUANT_FACTOR as u64);
    let q: u64 = wide / (CHANNEL_SCALE as u64);
    if q > 255 {
        255
    } else {
        q as u8
    }
}

/// Quantizes a normalized color to a concrete 8-bit-per-channel color.
pub fn quantize_color(c: &NormColor) -> (r: Rgb)
    ensures
        r.red as int == quantized(c.red),
        r.green as int == quantized(c.green),
        r.blue as int == quantized(c.blue),
{
    Rgb { red: quantize_channel(c.red), green: quantize_channel(c.green), blue: quantize_channel(c.blue) }
}

/// Quantization never wraps: a channel at or over full intensity lands on
/// exactly 255, and a zero channel on exactly 0.
pub proof fn lemma_quantize_endpoints(c: u32)
    ensures
        c == 0 ==> quantized(c) == 0,
        c == CHANNEL_SCALE ==> quantized(c) == 255,
        quantized(c) <= 255,
{
}

} // verus!
