//! A simulated addressable LED strip: a buffer of RGB cells, an idle
//! screensaver animation and two entities that move along the strip.
pub mod led;
pub mod led_string;
pub mod entity;
pub mod player;
pub mod screensaver;
pub mod enemy;
