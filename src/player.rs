//! The player: moves along the strip and can attack, which holds it in
//! place and paints a fading band around it for a fixed time.
use vstd::prelude::*;
use crate::entity::{lemma_moved_position_on_strip, moved_position, step_position};
use crate::led::Led;
use crate::led_string::LedString;

verus! {

/// What a player is, as numbers.
pub ghost struct PlayerView {
    pub position: int,
    pub direction: int,
    pub speed: int,
    pub attacking: bool,
    pub attack_started: int,
    pub attack_duration: int,
    pub attack_width: int,
}

/// A player on the strip.
pub struct Player {
    position: i32,
    direction: i32,
    attack_width: i32,
    attacking: bool,
    attacking_millis: u32,
    attack_duration: u32,
    /// Cells moved per tick, in units of `direction`.
    pub speed: i32,
}

impl View for Player {
    type V = PlayerView;

    closed spec fn view(&self) -> PlayerView {
        PlayerView {
            position: self.position as int,
            direction: self.direction as int,
            speed: self.speed as int,
            attacking: self.attacking,
            attack_started: self.attacking_millis as int,
            attack_duration: self.attack_duration as int,
            attack_width: self.attack_width as int,
        }
    }
}

/// The player after one tick at `time` on a strip of `len` cells. An attack
/// ends once more than its duration has passed since it started; while it
/// lasts the player does not move. An idle player moves by
/// `speed * direction` and is clamped to the strip.
pub open spec fn tick_view(p: PlayerView, len: int, time: int) -> PlayerView {
    if p.attacking {
        PlayerView { attacking: !(p.attack_started + p.attack_duration < time), ..p }
    } else {
        PlayerView { position: moved_position(p.position, p.speed, p.direction, len), ..p }
    }
}

/// The player after starting an attack at `time`, whatever it was doing.
pub open spec fn attack_view(p: PlayerView, time: int) -> PlayerView {
    PlayerView { attacking: true, attack_started: time, ..p }
}

/// The player after a sequence of ticks on a strip of `len` cells. Each
/// step is a `(time, speed)` pair: the speed is set, then the player ticks
/// at that time.
pub open spec fn run_ticks(p: PlayerView, steps: Seq<(int, int)>, len: int) -> PlayerView
    decreases steps.len(),
{
    if steps.len() == 0 {
        p
    } else {
        let prev = run_ticks(p, steps.drop_last(), len);
        let s = steps.last();
        tick_view(PlayerView { speed: s.1, ..prev }, len, s.0)
    }
}

/// A player that starts on a strip of `len` cells stays on it through any
/// sequence of ticks, whatever speeds it is given between them; starting an
/// attack never moves it either.
pub proof fn lemma_ticks_stay_on_strip(p: PlayerView, steps: Seq<(int, int)>, len: int, time: int)
    requires
        0 < len,
        0 <= p.position < len,
    ensures
        0 <= run_ticks(p, steps, len).position < len,
        attack_view(p, time).position == p.position,
    decreases steps.len(),
{
    if steps.len() > 0 {
        let prev = run_ticks(p, steps.drop_last(), len);
        lemma_ticks_stay_on_strip(p, steps.drop_last(), len, time);
        lemma_moved_position_on_strip(prev.position, steps.last().1, prev.direction, len);
    }
}

/// An attack started at `t` holds the player in place up to and including
/// `t + duration`: a tick at `t + duration - 1` leaves it attacking at the
/// same cell. A tick at `t + duration + 1` ends it, and the tick after that
/// moves the player again by its speed.
pub proof fn lemma_attack_lifecycle(p: PlayerView, len: int, t: int, later: int)
    requires
        0 < len,
        p.attack_duration > 0,
    ensures
        tick_view(attack_view(p, t), len, t + p.attack_duration - 1).attacking,
        tick_view(attack_view(p, t), len, t + p.attack_duration - 1).position == p.position,
        !tick_view(attack_view(p, t), len, t + p.attack_duration + 1).attacking,
        tick_view(attack_view(p, t), len, t + p.attack_duration + 1).position == p.position,
        tick_view(tick_view(attack_view(p, t), len, t + p.attack_duration + 1), len, later).position
            == moved_position(p.position, p.speed, p.direction, len),
{
}

/// The blue level of an attack band `elapsed` milliseconds into an attack
/// of `duration`: from 100 at the start down to 5 at the end, linearly,
/// truncated; it stays 5 past the end.
pub open spec fn attack_intensity(elapsed: int, duration: int) -> u8 {
    let e = if elapsed < duration { elapsed } else { duration };
    (100 - 95 * e / duration) as u8
}

/// The colour of an idle player.
pub open spec fn green() -> Led {
    Led { r: 0, g: 255, b: 0 }
}

/// The flash at the centre of a fresh attack.
pub open spec fn white() -> Led {
    Led { r: 255, g: 255, b: 255 }
}

/// Cell `j` after an attack of half-width `half` around `pos` at blue level
/// `n` is painted over `prev`. Cells strictly inside the band are blue `n`;
/// past level 90 the centre flashes white and the two edge cells white-blue,
/// below it the centre is green and the edges pure blue.
pub open spec fn attack_cell(j: int, pos: int, half: int, n: u8, prev: Led) -> Led {
    let edge: u8 = if n > 90 { 255 } else { 0 };
    if j == pos - half || j == pos + half {
        Led { r: edge, g: edge, b: 255 }
    } else if j == pos {
        if n > 90 { white() } else { green() }
    } else if pos - half < j < pos + half {
        Led { r: 0, g: 0, b: n }
    } else {
        prev
    }
}

/// The blue level of the attack band; see `attack_intensity`.
fn band_intensity(elapsed: u32, duration: u32) -> (n: u8)
    requires
        duration > 0,
    ensures
        n == attack_intensity(elapsed as int, duration as int),
        5 <= n <= 100,
{
    let e: u64 = if elapsed < duration { elapsed as u64 } else { duration as u64 };
    proof {
        assert(95 * e / (duration as int) <= 95) by (nonlinear_arith)
            requires e <= duration, duration > 0;
    }
    (100 - 95 * e / (duration as u64)) as u8
}

impl Player {
    /// Holds for every player: the attack lasts some time and its band has
    /// a width that is not negative.
    pub open spec fn wf(&self) -> bool {
        self@.attack_duration > 0 && 0 <= self@.attack_width
    }

    /// An idle player at cell 0, moving in `direction`, standing still, with
    /// an attack 8 cells wide that lasts 500 ms.
    pub fn new(direction: i32) -> (p: Player)
        ensures
            p.wf(),
            p@ == (PlayerView {
                position: 0,
                direction: direction as int,
                speed: 0,
                attacking: false,
                attack_started: 0,
                attack_duration: 500,
                attack_width: 8,
            }),
    {
        Player {
            position: 0,
            direction,
            attack_width: 8,
            attacking: false,
            attacking_millis: 0,
            attack_duration: 500,
            speed: 0,
        }
    }

    /// The cell the player stands on.
    pub fn position(&self) -> (p: i32)
        ensures
            p == self@.position,
    {
        self.position
    }

    /// The direction the player moves in for a positive speed.
    pub fn direction(&self) -> (d: i32)
        ensures
            d == self@.direction,
    {
        self.direction
    }

    /// Cells moved per tick, in units of the direction.
    pub fn speed(&self) -> (v: i32)
        ensures
            v == self@.speed,
    {
        self.speed
    }

    /// Sets the speed, leaving everything else as it was.
    pub fn set_speed(&mut self, speed: i32)
        ensures
            final(self)@ == (PlayerView { speed: speed as int, ..old(self)@ }),
    {
        self.speed = speed;
    }

    /// Whether an attack is under way.
    pub fn is_attacking(&self) -> (a: bool)
        ensures
            a == self@.attacking,
    {
        self.attacking
    }

    /// The width of the attack band.
    pub fn attack_width(&self) -> (w: i32)
        ensures
            w == self@.attack_width,
    {
        self.attack_width
    }

    /// How long an attack lasts, in milliseconds.
    pub fn attack_duration(&self) -> (d: u32)
        ensures
            d == self@.attack_duration,
    {
        self.attack_duration
    }

    /// Paints the player at `time`. Idle, it paints its own cell green.
    /// Attacking, it paints the band of `attack_cell` around its cell at the
    /// level `attack_intensity` for the time since the attack started; the
    /// cells of the band that fall outside the strip are left out.
    pub fn draw(&self, led_string: &mut LedString, time: u32)
        requires
            self.wf(),
            0 <= self@.position < old(led_string)@.len(),
            self@.attacking ==> self@.attack_started <= time,
        ensures
            final(led_string)@.len() == old(led_string)@.len(),
            final(led_string).background_spec() == old(led_string).background_spec(),
            !self@.attacking ==> final(led_string)@ == old(led_string)@.update(self@.position, green()),
            self@.attacking ==> forall|j: int|
                0 <= j < final(led_string)@.len() ==> #[trigger] final(led_string)@[j] == attack_cell(
                    j,
                    self@.position,
                    self@.attack_width / 2,
                    attack_intensity(time - self@.attack_started, self@.attack_duration),
                    old(led_string)@[j],
                ),
    {
        if !self.attacking {
            led_string.set_rgb(self.position as usize, [0, 255, 0]);
        } else {
            self.draw_attack(led_string, time);
        }
    }

    fn draw_attack(&self, led_string: &mut LedString, time: u32)
        requires
            self.wf(),
            self@.attacking,
            0 <= self@.position < old(led_string)@.len(),
            self@.attack_started <= time,
        ensures
            final(led_string)@.len() == old(led_string)@.len(),
            final(led_string).background_spec() == old(led_string).background_spec(),
            forall|j: int|
                0 <= j < final(led_string)@.len() ==> #[trigger] final(led_string)@[j] == attack_cell(
                    j,
                    self@.position,
                    self@.attack_width / 2,
                    attack_intensity(time - self@.attack_started, self@.attack_duration),
                    old(led_string)@[j],
                ),
    {
        let ghost prev = led_string@;
        let n: u8 = band_intensity(time - self.attacking_millis, self.attack_duration);
        let len: usize = led_string.len();
        let pos: i64 = self.position as i64;
        let half: i64 = (self.attack_width / 2) as i64;
        let lo: i64 = if pos - half + 1 < 0 { 0 } else { pos - half + 1 };
        let hi: i64 = if (pos + half) as usize > len { len as i64 } else { pos + half };
        let mut i: i64 = lo;
        while i < hi
            invariant
                lo <= i,
                lo <= hi ==> i <= hi,
                lo > hi ==> i == lo,
                0 <= lo,
                hi <= len,
                len == prev.len(),
                led_string@.len() == len,
                led_string.background_spec() == old(led_string).background_spec(),
                prev == old(led_string)@,
                forall|j: int|
                    0 <= j < len ==> #[trigger] led_string@[j] == if lo <= j < i {
                        Led { r: 0, g: 0, b: n }
                    } else {
                        prev[j]
                    },
            decreases hi - i,
        {
            led_string.set_rgb(i as usize, [0, 0, n]);
            i = i + 1;
        }
        let ghost banded = led_string@;
        let edge: u8;
        if n > 90 {
            edge = 255;
            led_string.set_rgb(self.position as usize, [255, 255, 255]);
        } else {
            edge = 0;
            led_string.set_rgb(self.position as usize, [0, 255, 0]);
        }
        let ghost centred = led_string@;
        if pos - half >= 0 {
            led_string.set_rgb((pos - half) as usize, [edge, edge, 255]);
        }
        let ghost left = led_string@;
        if ((pos + half) as usize) < len {
            led_string.set_rgb((pos + half) as usize, [edge, edge, 255]);
        }
        assert forall|j: int| 0 <= j < len implies #[trigger] led_string@[j] == attack_cell(
            j,
            pos as int,
            half as int,
            n,
            prev[j],
        ) by {
            assert(banded[j] == if lo <= j < hi { Led { r: 0, g: 0, b: n } } else { prev[j] });
            assert(centred[j] == if j == pos { if n > 90 { white() } else { green() } } else { banded[j] });
            assert(left[j] == if j == pos - half { Led { r: edge, g: edge, b: 255 } } else { centred[j] });
        }
    }

    /// Advances the player to `time` on a strip of `led_string.len()` cells:
    /// see `tick_view`.
    pub fn tick(&mut self, led_string: &LedString, time: u32)
        requires
            old(self).wf(),
            0 < led_string@.len() <= i32::MAX,
        ensures
            final(self).wf(),
            final(self)@ == tick_view(old(self)@, led_string@.len() as int, time as int),
    {
        if self.attacking {
            if (self.attacking_millis as u64) + (self.attack_duration as u64) < time as u64 {
                self.attacking = false;
            }
            return;
        }
        self.position = step_position(self.position, self.speed, self.direction, led_string.len());
    }

    /// Starts an attack at `time`, replacing any attack under way.
    pub fn attack(&mut self, time: u32)
        requires
            old(self).wf(),
        ensures
            final(self).wf(),
            final(self)@ == attack_view(old(self)@, time as int),
    {
        self.attacking_millis = time;
        self.attacking = true;
    }
}

} // verus!
