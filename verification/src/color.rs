//! RGBA colors and conversions from hue, HSV and HSL coordinates.
//!
//! The conversions are defined over exact rational arithmetic: a hue maps to
//! three channel numerators over the denominator 60, saturation and value or
//! lightness scale them over 100, and the result is rounded to the nearest
//! 8-bit channel (halves away from zero) and clamped to `0..=255`.

use vstd::prelude::*;

verus! {

/// `v` clamped into `lo..=hi`.
pub open spec fn clamp_int(v: int, lo: int, hi: int) -> int {
    if v < lo {
        lo
    } else if v > hi {
        hi
    } else {
        v
    }
}

/// Absolute value.
pub open spec fn abs_int(v: int) -> int {
    if v < 0 {
        -v
    } else {
        v
    }
}

/// `p / q` rounded to the nearest integer, halves away from zero.
pub open spec fn round_half_away(p: int, q: int) -> int
    recommends
        q > 0,
{
    if p >= 0 {
        (2 * p + q) / (2 * q)
    } else {
        -((-2 * p + q) / (2 * q))
    }
}

/// The 8-bit channel for the rational `p / q`: rounded to the nearest
/// integer, then clamped to `0..=255`.
pub open spec fn channel_of(p: int, q: int) -> int
    recommends
        q > 0,
{
    clamp_int(round_half_away(p, q), 0, 255)
}

/// The red, green and blue numerators (over the denominator 60) for a hue
/// angle `m` in `0..360`: three triangle waves peaking at 0, 120 and 240
/// degrees, each clamped to `0..=60`.
pub open spec fn hue_nums(m: int) -> (int, int, int) {
    (
        clamp_int(abs_int(m - 180) - 60, 0, 60),
        clamp_int(120 - abs_int(m - 120), 0, 60),
        clamp_int(120 - abs_int(m - 240), 0, 60),
    )
}

/// An opacity in `0..=100` percent scaled to `0..=255`, saturating above 100
/// percent.
pub open spec fn alpha_of(a: int) -> int {
    let scaled = round_half_away(a * 255, 100);
    if scaled > 255 {
        255
    } else {
        scaled
    }
}

/// An HSV channel numerator over 600000: the hue numerator `rgb_num` (over
/// 60) pulled toward white by the saturation, then scaled by the value, both
/// in percent.
pub open spec fn hsv_num(rgb_num: int, saturation: int, value: int) -> int {
    ((rgb_num - 60) * saturation + 6000) * value
}

/// An HSL channel numerator over 600000: the hue numerator `rgb_num` (over
/// 60) spread around the lightness by the chroma `(100 - |2 l - 100|) * s`.
pub open spec fn hsl_num(rgb_num: int, saturation: int, lightness: int) -> int {
    (rgb_num - 30) * ((100 - abs_int(2 * lightness - 100)) * saturation) + 6000 * lightness
}

/// An RGBA color: four channels of equal width.
pub trait Color: Sized {
    /// The four channels (red, green, blue, alpha) as 8-bit values.
    spec fn rgba_spec(&self) -> (u8, u8, u8, u8);

    fn r(&self) -> (v: u8)
        ensures
            v == self.rgba_spec().0,
    ;

    fn g(&self) -> (v: u8)
        ensures
            v == self.rgba_spec().1,
    ;

    fn b(&self) -> (v: u8)
        ensures
            v == self.rgba_spec().2,
    ;

    fn a(&self) -> (v: u8)
        ensures
            v == self.rgba_spec().3,
    ;

    fn set_r(&mut self, v: u8)
        ensures
            final(self).rgba_spec() == (
                v,
                old(self).rgba_spec().1,
                old(self).rgba_spec().2,
                old(self).rgba_spec().3,
            ),
    ;

    fn set_g(&mut self, v: u8)
        ensures
            final(self).rgba_spec() == (
                old(self).rgba_spec().0,
                v,
                old(self).rgba_spec().2,
                old(self).rgba_spec().3,
            ),
    ;

    fn set_b(&mut self, v: u8)
        ensures
            final(self).rgba_spec() == (
                old(self).rgba_spec().0,
                old(self).rgba_spec().1,
                v,
                old(self).rgba_spec().3,
            ),
    ;

    fn set_a(&mut self, v: u8)
        ensures
            final(self).rgba_spec() == (
                old(self).rgba_spec().0,
                old(self).rgba_spec().1,
                old(self).rgba_spec().2,
                v,
            ),
    ;

    /// Copies all four channels from another color.
    fn set(&mut self, color: &Self)
        ensures
            final(self).rgba_spec() == color.rgba_spec(),
    {
        self.set_r(color.r());
        self.set_g(color.g());
        self.set_b(color.b());
        self.set_a(color.a());
    }
}

/// A color held as a (red, green, blue, alpha) quadruple.
#[derive(Debug, PartialEq, Eq, Structural, Clone, Copy)]
pub struct ColorRGBA<T> {
    pub red: T,
    pub green: T,
    pub blue: T,
    pub alpha: T,
}

/// The 8-bit RGBA color used throughout the crate.
pub type ColorU8 = ColorRGBA<u8>;

/// Truncating absolute value on `i64` (total here: the arguments stay far
/// from `i64::MIN`).
fn abs_i64(v: i64) -> (r: i64)
    requires
        v > i64::MIN,
    ensures
        r == abs_int(v as int),
{
    if v < 0 {
        -v
    } else {
        v
    }
}

/// `v` clamped into `lo..=hi`.
fn clamp_i64(v: i64, lo: i64, hi: i64) -> (r: i64)
    requires
        lo <= hi,
    ensures
        r == clamp_int(v as int, lo as int, hi as int),
{
    if v < lo {
        lo
    } else if v > hi {
        hi
    } else {
        v
    }
}

/// The 8-bit channel for the rational `p / q`.
fn channel_u8(p: i64, q: i64) -> (r: u8)
    requires
        1 <= q <= 0x10_0000_0000,
        -0x1000_0000_0000_0000 <= p <= 0x1000_0000_0000_0000,
    ensures
        r == channel_of(p as int, q as int),
{
    let rounded: i64 = if p >= 0 {
        (2 * p + q) / (2 * q)
    } else {
        let n = -p;
        -((2 * n + q) / (2 * q))
    };
    clamp_i64(rounded, 0, 255) as u8
}

/// The three hue channel numerators (over 60) for a hue angle in `0..360`.
fn hue_nums_exec(m: i64) -> (r: (i64, i64, i64))
    requires
        0 <= m < 360,
    ensures
        (r.0 as int, r.1 as int, r.2 as int) == hue_nums(m as int),
{
    (
        clamp_i64(abs_i64(m - 180) - 60, 0, 60),
        clamp_i64(120 - abs_i64(m - 120), 0, 60),
        clamp_i64(120 - abs_i64(m - 240), 0, 60),
    )
}

/// An opacity percentage scaled to an 8-bit alpha channel.
fn alpha_u8(alpha: u8) -> (r: u8)
    ensures
        r == alpha_of(alpha as int),
{
    let a = alpha as i64;
    let scaled: i64 = (510 * a + 100) / 200;
    if scaled > 255 {
        255
    } else {
        scaled as u8
    }
}


/// One HSV channel: the numerator `hsv_num` over 600000 as an 8-bit value.
fn hsv_channel(num: i64, s: i64, v: i64) -> (r: u8)
    requires
        0 <= num <= 60,
        0 <= s <= 255,
        0 <= v <= 255,
    ensures
        r == channel_of(hsv_num(num as int, s as int, v as int) * 255, 600000),
{
    proof {
        assert(-15300 <= (num - 60) * s <= 0) by (nonlinear_arith)
            requires
                0 <= num <= 60,
                0 <= s <= 255,
        ;
        assert(-2371500 <= ((num - 60) * s + 6000) * v <= 1530000) by (nonlinear_arith)
            requires
                -15300 <= (num - 60) * s <= 0,
                0 <= v <= 255,
        ;
    }
    let scaled = (num - 60) * s + 6000;
    let t = scaled * v;
    channel_u8(t * 255, 600000)
}

/// One HSL channel: the numerator `hsl_num` over 600000 as an 8-bit value.
fn hsl_channel(num: i64, s: i64, l: i64) -> (r: u8)
    requires
        0 <= num <= 60,
        0 <= s <= 255,
        0 <= l <= 255,
    ensures
        r == channel_of(hsl_num(num as int, s as int, l as int) * 255, 600000),
{
    let chroma = {
        proof {
            assert(-79050 <= (100 - abs_int(2 * l - 100)) * s <= 25500) by (nonlinear_arith)
                requires
                    -310 <= 100 - abs_int(2 * l - 100) <= 100,
                    0 <= s <= 255,
            ;
        }
        (100 - abs_i64(2 * l - 100)) * s
    };
    proof {
        assert(-2371500 <= (num - 30) * chroma <= 2371500) by (nonlinear_arith)
            requires
                -30 <= num - 30 <= 30,
                -79050 <= chroma <= 25500,
        ;
    }
    let t = (num - 30) * chroma + 6000 * l;
    channel_u8(t * 255, 600000)
}

impl ColorRGBA<u8> {
    pub fn new(r: u8, g: u8, b: u8, a: u8) -> (c: ColorU8)
        ensures
            c.rgba_spec() == (r, g, b, a),
    {
        ColorU8 { red: r, green: g, blue: b, alpha: a }
    }

    pub fn new_rgba(r: u8, g: u8, b: u8, a: u8) -> (c: ColorU8)
        ensures
            c.rgba_spec() == (r, g, b, a),
    {
        ColorU8 { red: r, green: g, blue: b, alpha: a }
    }

    /// A fully opaque color.
    pub fn new_rgb(r: u8, g: u8, b: u8) -> (c: ColorU8)
        ensures
            c.rgba_spec() == (r, g, b, 255u8),
    {
        ColorU8 { red: r, green: g, blue: b, alpha: 255 }
    }

    /// A fully opaque gray.
    pub fn new_gray(grayscale: u8) -> (c: ColorU8)
        ensures
            c.rgba_spec() == (grayscale, grayscale, grayscale, 255u8),
    {
        ColorU8 { red: grayscale, green: grayscale, blue: grayscale, alpha: 255 }
    }

    /// A gray with the given alpha channel.
    pub fn new_gray_alpha(grayscale: u8, alpha: u8) -> (c: ColorU8)
        ensures
            c.rgba_spec() == (grayscale, grayscale, grayscale, alpha),
    {
        ColorU8 { red: grayscale, green: grayscale, blue: grayscale, alpha }
    }

    /// A fully saturated, fully opaque color at the given hue angle in
    /// degrees (taken modulo 360).
    pub fn from_hue(hue: u16) -> (c: ColorU8)
        ensures
            c.rgba_spec().0 == channel_of(hue_nums(hue as int % 360).0 * 255, 60),
            c.rgba_spec().1 == channel_of(hue_nums(hue as int % 360).1 * 255, 60),
            c.rgba_spec().2 == channel_of(hue_nums(hue as int % 360).2 * 255, 60),
            c.rgba_spec().3 == 255,
    {
        let nums = hue_nums_exec((hue % 360) as i64);
        ColorU8 {
            red: channel_u8(nums.0 * 255, 60),
            green: channel_u8(nums.1 * 255, 60),
            blue: channel_u8(nums.2 * 255, 60),
            alpha: 255,
        }
    }

    /// A fully saturated color at the given hue angle, with the alpha channel
    /// given as a percentage.
    pub fn from_hue_alpha(hue: u16, alpha: u8) -> (c: ColorU8)
        ensures
            c.rgba_spec().0 == channel_of(hue_nums(hue as int % 360).0 * 255, 60),
            c.rgba_spec().1 == channel_of(hue_nums(hue as int % 360).1 * 255, 60),
            c.rgba_spec().2 == channel_of(hue_nums(hue as int % 360).2 * 255, 60),
            c.rgba_spec().3 == alpha_of(alpha as int),
    {
        let nums = hue_nums_exec((hue % 360) as i64);
        ColorU8 {
            red: channel_u8(nums.0 * 255, 60),
            green: channel_u8(nums.1 * 255, 60),
            blue: channel_u8(nums.2 * 255, 60),
            alpha: alpha_u8(alpha),
        }
    }

    /// A fully opaque color from hue (degrees), saturation and value (both in
    /// percent).
    pub fn from_hsv(hue: u16, saturation: u8, value: u8) -> (c: ColorU8)
        ensures
            c.rgba_spec().0 == channel_of(
                hsv_num(hue_nums(hue as int % 360).0, saturation as int, value as int) * 255,
                600000,
            ),
            c.rgba_spec().1 == channel_of(
                hsv_num(hue_nums(hue as int % 360).1, saturation as int, value as int) * 255,
                600000,
            ),
            c.rgba_spec().2 == channel_of(
                hsv_num(hue_nums(hue as int % 360).2, saturation as int, value as int) * 255,
                600000,
            ),
            c.rgba_spec().3 == 255,
    {
        let nums = hue_nums_exec((hue % 360) as i64);
        let s = saturation as i64;
        let v = value as i64;
        ColorU8 {
            red: hsv_channel(nums.0, s, v),
            green: hsv_channel(nums.1, s, v),
            blue: hsv_channel(nums.2, s, v),
            alpha: 255,
        }
    }

    /// As `from_hsv`, with the alpha channel given as a percentage.
    pub fn from_hsv_alpha(hue: u16, saturation: u8, value: u8, alpha: u8) -> (c: ColorU8)
        ensures
            c.rgba_spec().0 == channel_of(
                hsv_num(hue_nums(hue as int % 360).0, saturation as int, value as int) * 255,
                600000,
            ),
            c.rgba_spec().1 == channel_of(
                hsv_num(hue_nums(hue as int % 360).1, saturation as int, value as int) * 255,
                600000,
            ),
            c.rgba_spec().2 == channel_of(
                hsv_num(hue_nums(hue as int % 360).2, saturation as int, value as int) * 255,
                600000,
            ),
            c.rgba_spec().3 == alpha_of(alpha as int),
    {
        let nums = hue_nums_exec((hue % 360) as i64);
        let s = saturation as i64;
        let v = value as i64;
        ColorU8 {
            red: hsv_channel(nums.0, s, v),
            green: hsv_channel(nums.1, s, v),
            blue: hsv_channel(nums.2, s, v),
            alpha: alpha_u8(alpha),
        }
    }

    /// A fully opaque color from hue (degrees), saturation and lightness
    /// (both in percent).
    pub fn from_hsl(hue: u16, saturation: u8, lightness: u8) -> (c: ColorU8)
        ensures
            c.rgba_spec().0 == channel_of(
                hsl_num(hue_nums(hue as int % 360).0, saturation as int, lightness as int) * 255,
                600000,
            ),
            c.rgba_spec().1 == channel_of(
                hsl_num(hue_nums(hue as int % 360).1, saturation as int, lightness as int) * 255,
                600000,
            ),
            c.rgba_spec().2 == channel_of(
                hsl_num(hue_nums(hue as int % 360).2, saturation as int, lightness as int) * 255,
                600000,
            ),
            c.rgba_spec().3 == 255,
    {
        let nums = hue_nums_exec((hue % 360) as i64);
        let s = saturation as i64;
        let l = lightness as i64;
        ColorU8 {
            red: hsl_channel(nums.0, s, l),
            green: hsl_channel(nums.1, s, l),
            blue: hsl_channel(nums.2, s, l),
            alpha: 255,
        }
    }

    /// As `from_hsl`, with the alpha channel given as a percentage.
    pub fn from_hsl_alpha(hue: u16, saturation: u8, lightness: u8, alpha: u8) -> (c: ColorU8)
        ensures
            c.rgba_spec().0 == channel_of(
                hsl_num(hue_nums(hue as int % 360).0, saturation as int, lightness as int) * 255,
                600000,
            ),
            c.rgba_spec().1 == channel_of(
                hsl_num(hue_nums(hue as int % 360).1, saturation as int, lightness as int) * 255,
                600000,
            ),
            c.rgba_spec().2 == channel_of(
                hsl_num(hue_nums(hue as int % 360).2, saturation as int, lightness as int) * 255,
                600000,
            ),
            c.rgba_spec().3 == alpha_of(alpha as int),
    {
        let nums = hue_nums_exec((hue % 360) as i64);
        let s = saturation as i64;
        let l = lightness as i64;
        ColorU8 {
            red: hsl_channel(nums.0, s, l),
            green: hsl_channel(nums.1, s, l),
            blue: hsl_channel(nums.2, s, l),
            alpha: alpha_u8(alpha),
        }
    }
}

impl Color for ColorRGBA<u8> {
    open spec fn rgba_spec(&self) -> (u8, u8, u8, u8) {
        (self.red, self.green, self.blue, self.alpha)
    }

    fn r(&self) -> u8 {
        self.red
    }

    fn g(&self) -> u8 {
        self.green
    }

    fn b(&self) -> u8 {
        self.blue
    }

    fn a(&self) -> u8 {
        self.alpha
    }

    fn set_r(&mut self, v: u8) {
        self.red = v;
    }

    fn set_g(&mut self, v: u8) {
        self.green = v;
    }

    fn set_b(&mut self, v: u8) {
        self.blue = v;
    }

    fn set_a(&mut self, v: u8) {
        self.alpha = v;
    }
}

} // verus!
