//! Rules of a brick-breaking arcade game: geometry, collision resolution,
//! scoring, level layout and the game's state machine, all over integer
//! world coordinates.
//!
//! World coordinates are measured in units of a thousandth of a pixel, time in
//! milliseconds, and speeds in units per millisecond (numerically equal to
//! pixels per second).
pub mod geometry;
pub mod state;
pub mod gameplay;
pub mod level;
pub mod session;
pub mod sprite_sheet;
