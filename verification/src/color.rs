//! Channel intensities and quantized RGB colors.
//!
//! An intensity is an exact nonnegative rational `num / den`, nominally in
//! `[0, 1)`. Construction of a [`Color`] quantizes each intensity to an
//! integer channel by `floor(255.999 * intensity)`, computed exactly in
//! integer arithmetic as `(255999 * num) / (1000 * den)`. The constant
//! 255.999 guarantees that an intensity of exactly 1 still truncates to
//! 255, while values approaching 1 from below already reach 255.
//! Intensities above 1 are accepted and produce channels above 255: that
//! is the defined quantization policy, not an error.

use vstd::prelude::*;

verus! {

/// Largest numerator or denominator an intensity may carry; keeps the
/// quantization arithmetic comfortably inside `u64`.
pub const INTENSITY_BOUND: u64 = 1_000_000_000;

/// Numerator of the quantization scale 255.999 written as a fraction.
pub const QUANT_NUMER: u64 = 255_999;

/// Denominator of the quantization scale 255.999 written as a fraction.
pub const QUANT_DENOM: u64 = 1_000;

/// A channel intensity: the exact nonnegative rational `num / den`.
#[derive(Clone, Copy, Debug, PartialEq, Eq, Structural)]
pub struct Intensity {
    /// Numerator of the intensity.
    pub num: u64,
    /// Denominator of the intensity; always positive.
    pub den: u64,
}

impl Intensity {
    /// Well-formed: positive denominator, and both parts small enough
    /// that `255999 * num` and `1000 * den` fit in `u64`.
    pub open spec fn wf(self) -> bool {
        1 <= self.den <= INTENSITY_BOUND && self.num <= INTENSITY_BOUND
    }

    /// The exact rational intensity `num / den`.
    pub fn new(num: u64, den: u64) -> (r: Self)
        requires
            1 <= den <= INTENSITY_BOUND,
            num <= INTENSITY_BOUND,
        ensures
            r.wf(),
            r.num == num,
            r.den == den,
    {
        Intensity { num, den }
    }

    /// The zero intensity.
    pub fn zero() -> (r: Self)
        ensures
            r.wf(),
            r.num == 0,
            r.den == 1,
    {
        Intensity { num: 0, den: 1 }
    }
}

/// The quantized channel for the intensity `num / den`: the exact value
/// of `floor(255.999 * num / den)`.
pub open spec fn quantize_spec(num: int, den: int) -> int {
    (255999 * num) / (1000 * den)
}

/// Channels are stored as `i32`; a quantized value beyond `i32::MAX`
/// (reachable only for intensities in the millions) saturates.
pub open spec fn to_channel(q: int) -> int {
    if q > i32::MAX { i32::MAX as int } else { q }
}

/// Quantize one intensity to its integer channel value.
pub fn quantize(v: Intensity) -> (c: i32)
    requires
        v.wf(),
    ensures
        c == to_channel(quantize_spec(v.num as int, v.den as int)),
        c >= 0,
{
    let n: u64 = QUANT_NUMER * v.num;
    let d: u64 = QUANT_DENOM * v.den;
    let q: u64 = n / d;
    if q > (i32::MAX as u64) {
        i32::MAX
    } else {
        q as i32
    }
}

/// Quantizing a nominal intensity (value at most 1) yields a channel in
/// `[0, 255]`: even an intensity of exactly 1 truncates 255.999 to 255.
pub proof fn lemma_nominal_quantize_in_range(num: int, den: int)
    requires
        0 <= num <= den,
        1 <= den,
    ensures
        0 <= quantize_spec(num, den) <= 255,
{
    assert(0 <= 255999 * num) by (nonlinear_arith)
        requires 0 <= num,
    ;
    assert(255999 * num < (1000 * den) * 256) by (nonlinear_arith)
        requires num <= den && 1 <= den,
    ;
    vstd::arithmetic::div_mod::lemma_div_pos_is_pos(255999 * num, 1000 * den);
    vstd::arithmetic::div_mod::lemma_multiply_divide_lt(255999 * num, 1000 * den, 256);
}

/// An RGB color, stored as already-quantized integer channels.
#[derive(Clone, Copy, Debug, PartialEq, Eq, Structural)]
pub struct Color {
    /// Red channel.
    pub r: i32,
    /// Green channel.
    pub g: i32,
    /// Blue channel.
    pub b: i32,
}

impl Color {
    /// Every color built by `default` or `new` has nonnegative channels.
    pub open spec fn wf(self) -> bool {
        self.r >= 0 && self.g >= 0 && self.b >= 0
    }

    /// The black color `(0, 0, 0)`.
    pub fn default() -> (c: Self)
        ensures
            c == (Color { r: 0, g: 0, b: 0 }),
            c.wf(),
    {
        Color { r: 0, g: 0, b: 0 }
    }

    /// Quantize three channel intensities into a color: each channel
    /// becomes `floor(255.999 * intensity)`.
    pub fn new(red: Intensity, green: Intensity, blue: Intensity) -> (c: Self)
        requires
            red.wf(),
            green.wf(),
            blue.wf(),
        ensures
            c.r == to_channel(quantize_spec(red.num as int, red.den as int)),
            c.g == to_channel(quantize_spec(green.num as int, green.den as int)),
            c.b == to_channel(quantize_spec(blue.num as int, blue.den as int)),
            c.wf(),
    {
        Color { r: quantize(red), g: quantize(green), b: quantize(blue) }
    }

    /// Render the color as one image line: the three channels in
    /// decimal, red-green-blue order, separated by single spaces.
    pub fn to_line(&self) -> (s: String)
        requires
            self.wf(),
        ensures
            s@ == crate::decimal::line_of(self.r as int, self.g as int, self.b as int),
    {
        let mut s = crate::decimal::decimal_string(self.r as u64);
        s.append(" ");
        let g = crate::decimal::decimal_string(self.g as u64);
        s.append(g.as_str());
        s.append(" ");
        let b = crate::decimal::decimal_string(self.b as u64);
        s.append(b.as_str());
        proof {
            reveal_strlit(" ");
            assert(" "@ =~= seq![' ']);
            assert(s@ =~= crate::decimal::line_of(
                self.r as int,
                self.g as int,
                self.b as int,
            ));
        }
        s
    }
}

} // verus!
