//! A fixed-length strip of LED cells with a background colour.
use vstd::prelude::*;
use crate::led::{Led, from_array, hsv_to_rgb, scaled};

verus! {

/// An ordered strip of LED cells. Its length is set at construction and
/// never changes.
pub struct LedString {
    leds: Vec<Led>,
    background: Led,
}

impl View for LedString {
    type V = Seq<Led>;

    closed spec fn view(&self) -> Seq<Led> {
        self.leds@
    }
}

impl LedString {
    /// The colour that `clear` paints every cell with.
    pub closed spec fn background_spec(&self) -> Led {
        self.background
    }

    /// A strip of `length` cells, each set to `background`.
    pub fn new(background: [u8; 3], length: u32) -> (s: LedString)
        ensures
            s@.len() == length,
            s.background_spec() == from_array(background),
            forall|i: int| 0 <= i < length ==> s@[i] == from_array(background),
    {
        let bg = Led::from_rgb(background);
        let mut leds: Vec<Led> = Vec::new();
        let mut k: u32 = 0;
        while k < length
            invariant
                k <= length,
                leds@.len() == k,
                forall|i: int| 0 <= i < k ==> leds@[i] == bg,
            decreases length - k,
        {
            leds.push(bg);
            k = k + 1;
        }
        LedString { leds, background: bg }
    }

    /// The number of cells.
    pub fn len(&self) -> (n: usize)
        ensures
            n == self@.len(),
    {
        self.leds.len()
    }

    /// The colour that `clear` paints every cell with.
    pub fn background(&self) -> (c: Led)
        ensures
            c == self.background_spec(),
    {
        self.background
    }

    /// The colour of cell `i`.
    pub fn get(&self, i: usize) -> (c: Led)
        requires
            i < self@.len(),
        ensures
            c == self@[i as int],
    {
        self.leds[i]
    }

    /// Sets cell `i` to `c`.
    pub fn set(&mut self, i: usize, c: Led)
        requires
            i < old(self)@.len(),
        ensures
            final(self)@ == old(self)@.update(i as int, c),
            final(self).background_spec() == old(self).background_spec(),
    {
        self.leds.set(i, c);
    }

    /// Sets cell `i` to the colour with channels `rgb`.
    pub fn set_rgb(&mut self, i: usize, rgb: [u8; 3])
        requires
            i < old(self)@.len(),
        ensures
            final(self)@ == old(self)@.update(i as int, from_array(rgb)),
            final(self).background_spec() == old(self).background_spec(),
    {
        self.set(i, Led::from_rgb(rgb));
    }

    /// Sets cell `i` to the HSV colour `(h, s, v)`.
    pub fn set_hsv(&mut self, i: usize, h: u8, s: u8, v: u8)
        requires
            i < old(self)@.len(),
        ensures
            final(self)@ == old(self)@.update(i as int, hsv_to_rgb(h, s, v)),
            final(self).background_spec() == old(self).background_spec(),
    {
        self.set(i, Led::from_hsv(h, s, v));
    }

    /// Scales cell `i` by `factor / 255`, fading it toward black.
    pub fn scale(&mut self, i: usize, factor: u8)
        requires
            i < old(self)@.len(),
        ensures
            final(self)@ == old(self)@.update(i as int, scaled(old(self)@[i as int], factor)),
            final(self).background_spec() == old(self).background_spec(),
    {
        let mut c = self.leds[i];
        c.nscale8(factor);
        self.set(i, c);
    }

    /// Sets every cell to the background colour.
    pub fn clear(&mut self)
        ensures
            final(self)@.len() == old(self)@.len(),
            final(self).background_spec() == old(self).background_spec(),
            forall|i: int| 0 <= i < final(self)@.len() ==> final(self)@[i] == old(self).background_spec(),
    {
        let n = self.leds.len();
        let mut k: usize = 0;
        while k < n
            invariant
                k <= n,
                n == old(self)@.len(),
                self@.len() == n,
                self.background == old(self).background,
                forall|i: int| 0 <= i < k ==> self@[i] == self.background,
            decreases n - k,
        {
            let bg = self.background;
            self.leds.set(k, bg);
            k = k + 1;
        }
    }
}

} // verus!
