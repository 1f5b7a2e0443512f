use vstd::prelude::*;
use crate::geometry::{clamp, UNIT};
use crate::ball::{Ball, BALL_HEIGHT};

verus! {

/// Width of a paddle.
pub const FLAPPER_WIDTH: i64 = 25_000;

/// Height of a paddle at the start of a rally.
pub const INITIAL_HEIGHT: i64 = 500_000;

/// The height below which a paddle never shrinks.
pub const MIN_HEIGHT: i64 = 2_000;

/// Top edge of a paddle at the start of a rally.
pub const INITIAL_Y: i64 = 250_000;

/// A paddle: its top edge, its height, its score and the side it guards
/// (`0` for the left one, anything else for the right one).
pub struct Flapper {
    pub y: i64,
    pub height: i64,
    pub score: u32,
    pub side: u8,
}

/// Distance of a paddle's left edge from the left wall, given its side.
pub open spec fn flapper_x(side: u8) -> int {
    if side == 0 {
        FLAPPER_WIDTH / 2
    } else {
        UNIT - FLAPPER_WIDTH * 3 / 2
    }
}

/// A paddle's height after a frame with a collision: shrunk by 1.5 %,
/// but never below `MIN_HEIGHT`.
pub open spec fn shrunk(height: int) -> int {
    if height * 985 / 1000 < MIN_HEIGHT {
        MIN_HEIGHT as int
    } else {
        height * 985 / 1000
    }
}

/// A paddle's top edge after player control over `dt` microseconds.
pub open spec fn steered_y(y: int, dt: int, up: bool, down: bool) -> int {
    let moved = y - (if up { dt } else { 0 }) + (if down { dt } else { 0 });
    clamp(moved, i64::MIN as int, i64::MAX as int)
}

impl Flapper {
    /// The height stays between the floor and the starting height.
    pub open spec fn wf(&self) -> bool {
        MIN_HEIGHT <= self.height <= INITIAL_HEIGHT
    }

    /// A paddle at its starting place with no score.
    pub fn new(side: u8) -> (f: Flapper)
        ensures
            f.y == INITIAL_Y,
            f.height == INITIAL_HEIGHT,
            f.score == 0,
            f.side == side,
            f.wf(),
    {
        Flapper { y: INITIAL_Y, height: INITIAL_HEIGHT, score: 0, side }
    }

    /// Puts the paddle back at its starting place and height; the score stays.
    pub fn reset(&mut self)
        ensures
            final(self).y == INITIAL_Y,
            final(self).height == INITIAL_HEIGHT,
            final(self).score == old(self).score,
            final(self).side == old(self).side,
            final(self).wf(),
    {
        self.y = INITIAL_Y;
        self.height = INITIAL_HEIGHT;
    }

    /// The paddle's left edge, fixed by its side: half a width from the left
    /// wall, or one and a half widths from the right one.
    pub fn x(&self) -> (r: i64)
        ensures
            r == flapper_x(self.side),
    {
        if self.side == 0 {
            FLAPPER_WIDTH / 2
        } else {
            UNIT - FLAPPER_WIDTH * 3 / 2
        }
    }

    /// Shrinks the paddle after a frame with a collision.
    pub fn shrink(&mut self)
        requires
            old(self).wf(),
        ensures
            final(self).height == shrunk(old(self).height as int),
            final(self).height <= old(self).height,
            final(self).y == old(self).y,
            final(self).score == old(self).score,
            final(self).side == old(self).side,
            final(self).wf(),
    {
        let h = self.height * 985 / 1000;
        self.height = if h < MIN_HEIGHT { MIN_HEIGHT } else { h };
    }
    /// Autoplay: centres the paddle vertically on the ball.
    pub fn update(&mut self, ball: &Ball)
        requires
            old(self).wf(),
            ball@.wf(),
        ensures
            final(self).y == ball@.y - old(self).height / 2 + BALL_HEIGHT / 2,
            final(self).height == old(self).height,
            final(self).score == old(self).score,
            final(self).side == old(self).side,
    {
        self.y = ball.y() - self.height / 2 + BALL_HEIGHT / 2;
    }

    /// Player control over `dt` microseconds: up while `up` is held, down
    /// while `down` is held, one field height per second. The paddle is not
    /// kept inside the field; only the integer's range bounds it.
    pub fn steer(&mut self, dt: u64, up: bool, down: bool)
        ensures
            final(self).y == steered_y(old(self).y as int, dt as int, up, down),
            final(self).height == old(self).height,
            final(self).score == old(self).score,
            final(self).side == old(self).side,
    {
        let mut y = self.y as i128;
        if up {
            y = y - dt as i128;
        }
        if down {
            y = y + dt as i128;
        }
        self.y = if y < i64::MIN as i128 {
            i64::MIN
        } else if y > i64::MAX as i128 {
            i64::MAX
        } else {
            y as i64
        };
    }
}

} // verus!
