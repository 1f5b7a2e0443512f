use vstd::prelude::*;
use crate::geometry::{FAR_WALL, UNIT, WALL};
use crate::ball::{
    advanced, angle_of, drawable_angle, exit_of, lemma_angle_of_drawable, sped_up, BallState, Outcome, ANGLE_MARGIN, BALL_HEIGHT, BALL_WIDTH,
    MAX_SPEED, PI_MICROS,
};
use crate::flapper::{shrunk, INITIAL_HEIGHT, MIN_HEIGHT};

verus! {

/// Whatever the paddles and the elapsed time, a frame that does not end in
/// an exit leaves the ball inside the field.
pub proof fn lemma_ball_stays_in_field(b: BallState, dt: int, hit_left: bool, hit_right: bool)
    ensures
        0 <= advanced(b, dt, hit_left, hit_right).x <= UNIT - BALL_WIDTH,
        0 <= advanced(b, dt, hit_left, hit_right).y <= UNIT - BALL_HEIGHT,
{
}

/// The speed never falls during play and never exceeds `MAX_SPEED`; a frame
/// with a collision makes a ball below the maximum strictly faster.
pub proof fn lemma_speed_rises_to_max(b: BallState, dt: int, hit_left: bool, hit_right: bool)
    requires
        b.wf(),
    ensures
        b.speed <= advanced(b, dt, hit_left, hit_right).speed <= MAX_SPEED,
        (hit_left || hit_right) && b.speed < MAX_SPEED ==> b.speed < advanced(
            b,
            dt,
            hit_left,
            hit_right,
        ).speed,
        !(hit_left || hit_right) ==> advanced(b, dt, hit_left, hit_right).speed == b.speed,
{
}

/// A paddle never grows from a collision and never shrinks below `MIN_HEIGHT`.
pub proof fn lemma_height_shrinks_to_floor(height: int)
    requires
        MIN_HEIGHT <= height <= INITIAL_HEIGHT,
    ensures
        MIN_HEIGHT <= shrunk(height) <= height,
        height * 985 / 1000 >= MIN_HEIGHT ==> shrunk(height) < height,
{
}

/// A ball that has reached the right boundary exits right, and one that has
/// reached the left boundary exits left, whatever else holds.
pub proof fn lemma_exit_by_position(x: int)
    ensures
        x >= FAR_WALL - BALL_WIDTH ==> exit_of(x) == Outcome::ExitedRight,
        x <= WALL ==> exit_of(x) == Outcome::ExitedLeft,
        WALL < x < FAR_WALL - BALL_WIDTH ==> exit_of(x) == Outcome::Continue,
{
}

/// Every starting angle heads right in `ANGLE_MARGIN..PI_MICROS - ANGLE_MARGIN`
/// or left in `PI_MICROS + ANGLE_MARGIN..2 * (PI_MICROS - ANGLE_MARGIN)`: it
/// never comes within `ANGLE_MARGIN` of straight up or straight down, nor within
/// `2 * ANGLE_MARGIN` short of a full turn.
pub proof fn lemma_drawn_angle_range(u: int, k: int)
    requires
        ANGLE_MARGIN <= u < PI_MICROS - ANGLE_MARGIN,
        1 <= k < 3,
    ensures
        drawable_angle(angle_of(u, k)),
        ANGLE_MARGIN <= angle_of(u, k) < 2 * (PI_MICROS - ANGLE_MARGIN),
        !(PI_MICROS - ANGLE_MARGIN <= angle_of(u, k) < PI_MICROS + ANGLE_MARGIN),
        k == 1 ==> angle_of(u, k) == u,
{
    lemma_angle_of_drawable(u, k);
}

/// A frame in which the ball overlaps exactly one paddle counts one hit,
/// turns the ball back horizontally and speeds it up by 1 %, up to the maximum.
pub proof fn lemma_single_hit(b: BallState, dt: int, hit_left: bool, hit_right: bool)
    requires
        hit_left != hit_right,
    ensures
        advanced(b, dt, hit_left, hit_right).hits == b.hits + 1,
        advanced(b, dt, hit_left, hit_right).dx == -b.dx,
        advanced(b, dt, hit_left, hit_right).speed == sped_up(b.speed),
{
}

} // verus!
