//! The idle animation: a comet-trail pattern that lights every tenth cell
//! and moves one cell along every 250 ms.
use vstd::prelude::*;
use crate::led::{Led, hsv_to_rgb, scaled};
use crate::led_string::LedString;

verus! {

/// The factor every cell is faded by on each frame.
pub const FADE: u8 = 250;

/// Saturation of the lit cells.
pub const LIT_SATURATION: u8 = 255;

/// Value (brightness) of the lit cells.
pub const LIT_VALUE: u8 = 150;

/// Which cells, by index modulo 10, are lit at `time`.
pub open spec fn lit_lane(time: u32) -> int {
    (time as int / 250) % 10
}

/// Cell `i` of the frame drawn at `time` with hue `hue` over the previous
/// frame's cell `prev`: lit cells take the HSV colour, the others fade.
pub open spec fn screensaver_cell(i: int, time: u32, hue: u8, prev: Led) -> Led {
    if i % 10 == lit_lane(time) {
        hsv_to_rgb(hue, LIT_SATURATION, LIT_VALUE)
    } else {
        scaled(prev, FADE)
    }
}

/// The whole frame drawn at `time` with hue `hue` over the cells `prev`.
pub open spec fn screensaver_frame(prev: Seq<Led>, time: u32, hue: u8) -> Seq<Led> {
    Seq::new(prev.len(), |i: int| screensaver_cell(i, time, hue, prev[i]))
}

/// Draws one frame of the animation at `time` over the current cells: every
/// cell fades by `FADE / 255`, then the cells whose index modulo 10 is
/// `(time / 250) % 10` are set to the HSV colour `(hue, 255, 150)`. The hue
/// is the caller's oscillation of `time`.
pub fn tick(led_string: &mut LedString, time: u32, hue: u8)
    ensures
        final(led_string)@ == screensaver_frame(old(led_string)@, time, hue),
        final(led_string).background_spec() == old(led_string).background_spec(),
{
    let ghost prev = led_string@;
    let len = led_string.len();
    let mut i: usize = 0;
    while i < len
        invariant
            i <= len,
            len == prev.len(),
            prev == old(led_string)@,
            led_string@.len() == len,
            led_string.background_spec() == old(led_string).background_spec(),
            forall|j: int|
                0 <= j < len ==> #[trigger] led_string@[j] == if j < i {
                    scaled(prev[j], FADE)
                } else {
                    prev[j]
                },
        decreases len - i,
    {
        led_string.scale(i, FADE);
        i = i + 1;
    }
    let n: usize = ((time / 250) % 10) as usize;
    let mut i: usize = 0;
    while i < len
        invariant
            i <= len,
            len == prev.len(),
            n == lit_lane(time),
            prev == old(led_string)@,
            led_string@.len() == len,
            led_string.background_spec() == old(led_string).background_spec(),
            forall|j: int|
                0 <= j < len ==> #[trigger] led_string@[j] == if j < i {
                    screensaver_cell(j, time, hue, prev[j])
                } else {
                    scaled(prev[j], FADE)
                },
        decreases len - i,
    {
        if i % 10 == n {
            led_string.set_hsv(i, hue, LIT_SATURATION, LIT_VALUE);
        }
        i = i + 1;
    }
    assert(led_string@ =~= screensaver_frame(prev, time, hue));
}

/// The animation is a function of the previous cells, the time and the hue
/// alone: from equal strips at an equal time it draws equal frames, of the
/// same length as the strip, each cell drawn from that cell alone.
pub proof fn lemma_screensaver_deterministic(a: Seq<Led>, b: Seq<Led>, time: u32, hue: u8)
    requires
        a == b,
    ensures
        screensaver_frame(a, time, hue) == screensaver_frame(b, time, hue),
        screensaver_frame(a, time, hue).len() == a.len(),
        forall|i: int|
            0 <= i < a.len() ==> #[trigger] screensaver_frame(a, time, hue)[i] == screensaver_cell(
                i,
                time,
                hue,
                a[i],
            ),
{
}

} // verus!
