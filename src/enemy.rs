//! The enemy: moves along the strip at its own speed and stops at either
//! end.
use vstd::prelude::*;
use crate::entity::{moved_position, step_position};
use crate::led::Led;
use crate::led_string::LedString;

verus! {

/// An enemy on the strip.
pub struct Enemy {
    position: i32,
    direction: i32,
    /// Cells moved per tick, in units of `direction`.
    pub speed: i32,
}

/// The colour an enemy is painted with.
pub open spec fn red() -> Led {
    Led { r: 255, g: 0, b: 0 }
}

impl Enemy {
    /// The cell the enemy stands on.
    pub closed spec fn position_spec(&self) -> int {
        self.position as int
    }

    /// The direction the enemy moves in for a positive speed.
    pub closed spec fn direction_spec(&self) -> int {
        self.direction as int
    }

    /// Cells moved per tick, in units of the direction.
    pub closed spec fn speed_spec(&self) -> int {
        self.speed as int
    }

    /// An enemy at `position` moving in `direction` at `speed`.
    pub fn new(position: i32, direction: i32, speed: i32) -> (e: Enemy)
        ensures
            e.position_spec() == position,
            e.direction_spec() == direction,
            e.speed_spec() == speed,
    {
        Enemy { position, direction, speed }
    }

    /// The cell the enemy stands on.
    pub fn position(&self) -> (p: i32)
        ensures
            p == self.position_spec(),
    {
        self.position
    }

    /// Cells moved per tick, in units of the direction.
    pub fn speed(&self) -> (v: i32)
        ensures
            v == self.speed_spec(),
    {
        self.speed
    }

    /// Sets the speed, leaving position and direction as they were.
    pub fn set_speed(&mut self, speed: i32)
        ensures
            final(self).speed_spec() == speed,
            final(self).position_spec() == old(self).position_spec(),
            final(self).direction_spec() == old(self).direction_spec(),
    {
        self.speed = speed;
    }

    /// Moves the enemy by `speed * direction` and clamps it to the strip.
    /// Its motion does not depend on `time`.
    pub fn tick(&mut self, led_string: &LedString, time: u32)
        requires
            0 < led_string@.len() <= i32::MAX,
        ensures
            final(self).position_spec() == moved_position(
                old(self).position_spec(),
                old(self).speed_spec(),
                old(self).direction_spec(),
                led_string@.len() as int,
            ),
            final(self).direction_spec() == old(self).direction_spec(),
            final(self).speed_spec() == old(self).speed_spec(),
    {
        self.position = step_position(self.position, self.speed, self.direction, led_string.len());
    }

    /// Paints the enemy's cell red.
    pub fn draw(&self, led_string: &mut LedString)
        requires
            0 <= self.position_spec() < old(led_string)@.len(),
        ensures
            final(led_string)@ == old(led_string)@.update(self.position_spec(), red()),
            final(led_string).background_spec() == old(led_string).background_spec(),
    {
        led_string.set_rgb(self.position as usize, [255, 0, 0]);
    }
}

} // verus!
