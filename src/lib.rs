//! A two-paddle ball game simulated on a fixed-point playfield.
//!
//! Positions and lengths are measured in millionths of the field's width or
//! height, so the field spans `0..=UNIT` on each axis with the origin at the
//! top left and `y` growing downward. Time is measured in microseconds.
pub mod geometry;
pub mod flapper;
pub mod ball;
pub mod game;
pub mod laws;
