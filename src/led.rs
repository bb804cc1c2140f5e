//! One RGB cell of the strip, with HSV conversion and brightness scaling.
use vstd::prelude::*;

verus! {

/// An RGB colour with three 8-bit channels.
#[derive(Clone, Copy, Debug, PartialEq, Eq, Structural)]
pub struct Led {
    pub r: u8,
    pub g: u8,
    pub b: u8,
}

/// A channel multiplied by `factor / 255`, truncated.
pub open spec fn scale8(c: u8, factor: u8) -> u8 {
    (c as int * factor as int / 255) as u8
}

/// Every channel of `c` multiplied by `factor / 255`, truncated.
pub open spec fn scaled(c: Led, factor: u8) -> Led {
    Led { r: scale8(c.r, factor), g: scale8(c.g, factor), b: scale8(c.b, factor) }
}

/// The colour with channels taken from `rgb` in the order red, green, blue.
pub open spec fn from_array(rgb: [u8; 3]) -> Led {
    Led { r: rgb@[0], g: rgb@[1], b: rgb@[2] }
}

/// The sector (0 to 5) of the colour wheel that a hue falls in; each sector
/// spans 43 hue steps, the last one the remaining 41.
pub open spec fn hue_sector(h: u8) -> int {
    h as int / 43
}

/// HSV to RGB on 8-bit values. The wheel is cut into six sectors; `p`, `q`
/// and `t` are the low, falling and rising channel levels within a sector.
pub open spec fn hsv_to_rgb(h: u8, s: u8, v: u8) -> Led {
    if s == 0 {
        Led { r: v, g: v, b: v }
    } else {
        let region = hue_sector(h);
        let rem = (h as int - region * 43) * 6;
        let p = (v as int * (255 - s as int) / 256) as u8;
        let q = (v as int * (255 - s as int * rem / 256) / 256) as u8;
        let t = (v as int * (255 - s as int * (255 - rem) / 256) / 256) as u8;
        if region == 0 {
            Led { r: v, g: t, b: p }
        } else if region == 1 {
            Led { r: q, g: v, b: p }
        } else if region == 2 {
            Led { r: p, g: v, b: t }
        } else if region == 3 {
            Led { r: p, g: q, b: v }
        } else if region == 4 {
            Led { r: t, g: p, b: v }
        } else {
            Led { r: v, g: p, b: q }
        }
    }
}

/// `c * factor / 255`, truncated.
pub fn scale_channel(c: u8, factor: u8) -> (r: u8)
    ensures
        r == scale8(c, factor),
        r <= c,
{
    proof {
        assert(c as u32 * factor as u32 <= 65025) by (nonlinear_arith)
            requires c <= 255u8, factor <= 255u8;
    }
    let prod: u32 = (c as u32) * (factor as u32);
    proof {
        assert(prod / 255 <= c) by (nonlinear_arith)
            requires prod == c as u32 * factor as u32, factor <= 255u8;
    }
    (prod / 255) as u8
}

impl Led {
    /// The colour with the given red, green and blue channels.
    pub fn new(r: u8, g: u8, b: u8) -> (l: Led)
        ensures
            l == (Led { r, g, b }),
    {
        Led { r, g, b }
    }

    /// The colour whose channels are `rgb[0]`, `rgb[1]` and `rgb[2]`.
    pub fn from_rgb(rgb: [u8; 3]) -> (l: Led)
        ensures
            l == from_array(rgb),
    {
        Led { r: rgb[0], g: rgb[1], b: rgb[2] }
    }

    /// The colour with hue `h`, saturation `s` and value `v`, all on 0..=255.
    pub fn from_hsv(h: u8, s: u8, v: u8) -> (l: Led)
        ensures
            l == hsv_to_rgb(h, s, v),
    {
        if s == 0 {
            return Led { r: v, g: v, b: v };
        }
        let region: u32 = h as u32 / 43;
        let rem: u32 = (h as u32 - region * 43) * 6;
        let v32: u32 = v as u32;
        let s32: u32 = s as u32;
        proof {
            assert(rem <= 252);
            assert(s32 * rem / 256 <= 255) by (nonlinear_arith)
                requires s32 <= 255, rem <= 252;
            assert(s32 * (255 - rem) / 256 <= 255) by (nonlinear_arith)
                requires s32 <= 255, rem <= 252;
            assert(v32 * (255 - s32) / 256 <= 255) by (nonlinear_arith)
                requires s32 <= 255, v32 <= 255;
            assert(forall|x: u32| x <= 255 ==> #[trigger] (v32 * x) / 256 <= 255) by (nonlinear_arith)
                requires v32 <= 255;
        }
        let p: u8 = (v32 * (255 - s32) / 256) as u8;
        let q: u8 = (v32 * (255 - s32 * rem / 256) / 256) as u8;
        let t: u8 = (v32 * (255 - s32 * (255 - rem) / 256) / 256) as u8;
        if region == 0 {
            Led { r: v, g: t, b: p }
        } else if region == 1 {
            Led { r: q, g: v, b: p }
        } else if region == 2 {
            Led { r: p, g: v, b: t }
        } else if region == 3 {
            Led { r: p, g: q, b: v }
        } else if region == 4 {
            Led { r: t, g: p, b: v }
        } else {
            Led { r: v, g: p, b: q }
        }
    }

    /// Overwrites the channels with `rgb`.
    pub fn set_rgb(&mut self, rgb: [u8; 3])
        ensures
            *final(self) == from_array(rgb),
    {
        *self = Led::from_rgb(rgb);
    }

    /// Overwrites the channels with the HSV colour `(h, s, v)`.
    pub fn set_hsv(&mut self, h: u8, s: u8, v: u8)
        ensures
            *final(self) == hsv_to_rgb(h, s, v),
    {
        *self = Led::from_hsv(h, s, v);
    }

    /// Scales every channel by `factor / 255`: fades the colour toward black.
    pub fn nscale8(&mut self, factor: u8)
        ensures
            *final(self) == scaled(*old(self), factor),
    {
        self.r = scale_channel(self.r, factor);
        self.g = scale_channel(self.g, factor);
        self.b = scale_channel(self.b, factor);
    }
}

/// The colour `c` after `n` successive scalings by `factor`.
pub open spec fn repeat_scaled(c: Led, factor: u8, n: nat) -> Led
    decreases n,
{
    if n == 0 {
        c
    } else {
        scaled(repeat_scaled(c, factor, (n - 1) as nat), factor)
    }
}

/// One scaling by `factor` never raises a channel, and by a factor below
/// 255 it strictly lowers every channel that is not already zero.
pub proof fn lemma_scale8_fades(c: u8, factor: u8)
    ensures
        scale8(c, factor) <= c,
        factor < 255 && c > 0 ==> scale8(c, factor) < c,
{
    assert(c as int * factor as int / 255 <= c) by (nonlinear_arith)
        requires factor <= 255u8, c >= 0u8;
    if factor < 255 && c > 0 {
        assert(c as int * factor as int / 255 < c) by (nonlinear_arith)
            requires factor < 255u8, c > 0u8;
    }
}

/// Fading is monotone: every further scaling of a cell by `factor` leaves
/// each channel no brighter than before, and below the original; with a
/// factor under 255 each channel that is still lit strictly darkens.
pub proof fn lemma_repeated_fade_never_brightens(c: Led, factor: u8, n: nat)
    ensures
        repeat_scaled(c, factor, n + 1).r <= repeat_scaled(c, factor, n).r,
        repeat_scaled(c, factor, n + 1).g <= repeat_scaled(c, factor, n).g,
        repeat_scaled(c, factor, n + 1).b <= repeat_scaled(c, factor, n).b,
        repeat_scaled(c, factor, n).r <= c.r,
        repeat_scaled(c, factor, n).g <= c.g,
        repeat_scaled(c, factor, n).b <= c.b,
        factor < 255 && repeat_scaled(c, factor, n).r > 0
            ==> repeat_scaled(c, factor, n + 1).r < repeat_scaled(c, factor, n).r,
        factor < 255 && repeat_scaled(c, factor, n).g > 0
            ==> repeat_scaled(c, factor, n + 1).g < repeat_scaled(c, factor, n).g,
        factor < 255 && repeat_scaled(c, factor, n).b > 0
            ==> repeat_scaled(c, factor, n + 1).b < repeat_scaled(c, factor, n).b,
    decreases n,
{
    let cur = repeat_scaled(c, factor, n);
    assert(repeat_scaled(c, factor, n + 1) == scaled(cur, factor));
    lemma_scale8_fades(cur.r, factor);
    lemma_scale8_fades(cur.g, factor);
    lemma_scale8_fades(cur.b, factor);
    if n > 0 {
        lemma_repeated_fade_never_brightens(c, factor, (n - 1) as nat);
    }
}

/// At full saturation and value the channel of the hue's sector is at full
/// brightness and the channel opposite it is off: sectors 0 and 5 are red,
/// 1 and 2 green, 3 and 4 blue. Hue 0 is pure red.
pub proof fn lemma_full_hsv_dominant_channel(h: u8)
    ensures
        hue_sector(h) == 0 ==> hsv_to_rgb(h, 255, 255).r == 255 && hsv_to_rgb(h, 255, 255).b == 0,
        hue_sector(h) == 1 ==> hsv_to_rgb(h, 255, 255).g == 255 && hsv_to_rgb(h, 255, 255).b == 0,
        hue_sector(h) == 2 ==> hsv_to_rgb(h, 255, 255).g == 255 && hsv_to_rgb(h, 255, 255).r == 0,
        hue_sector(h) == 3 ==> hsv_to_rgb(h, 255, 255).b == 255 && hsv_to_rgb(h, 255, 255).r == 0,
        hue_sector(h) == 4 ==> hsv_to_rgb(h, 255, 255).b == 255 && hsv_to_rgb(h, 255, 255).g == 0,
        hue_sector(h) == 5 ==> hsv_to_rgb(h, 255, 255).r == 255 && hsv_to_rgb(h, 255, 255).g == 0,
        0 <= hue_sector(h) <= 5,
        hsv_to_rgb(0, 255, 255) == (Led { r: 255, g: 0, b: 0 }),
{
}

} // verus!
