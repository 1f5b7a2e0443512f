use vstd::prelude::*;
use crate::ball::{
    advanced, collides, exit_of, Ball, BallState, Heading, Outcome, BALL_HEIGHT, CENTER, INITIAL_SPEED,
};
use crate::flapper::{shrunk, steered_y, Flapper, INITIAL_HEIGHT, INITIAL_Y};

verus! {

/// Who moves a paddle during a frame.
#[derive(Clone, Copy, Debug, PartialEq, Eq, Structural)]
pub enum Control {
    /// The paddle follows the ball.
    Auto,
    /// A player holds the up and down controls or not.
    Manual { up: bool, down: bool },
}

/// The paddle after its control acted for `dt` microseconds, before the ball moves.
pub open spec fn controlled(f: Flapper, c: Control, b: BallState, dt: int) -> Flapper {
    match c {
        Control::Auto => Flapper { y: (b.y - f.height / 2 + BALL_HEIGHT / 2) as i64, ..f },
        Control::Manual { up, down } => Flapper { y: steered_y(f.y as int, dt, up, down) as i64, ..f },
    }
}

/// Moves a paddle by its control.
fn apply_control(f: &mut Flapper, c: Control, ball: &Ball, dt: u64)
    requires
        old(f).wf(),
        ball@.wf(),
    ensures
        *final(f) == controlled(*old(f), c, ball@, dt as int),
        final(f).wf(),
{
    match c {
        Control::Auto => f.update(ball),
        Control::Manual { up, down } => f.steer(dt, up, down),
    }
}

/// One frame of play: the paddles move by their controls, then the ball
/// moves. When the ball leaves the field the player on the other side
/// scores, and the ball (with heading `next`) and both paddles start a new
/// rally; scores are kept.
pub fn play_frame(
    ball: &mut Ball,
    left: &mut Flapper,
    right: &mut Flapper,
    left_control: Control,
    right_control: Control,
    dt: u64,
    next: Heading,
) -> (r: Outcome)
    requires
        old(ball)@.wf(),
        old(left).wf(),
        old(right).wf(),
        old(ball)@.hits + 2 <= u32::MAX,
        old(left).score < u32::MAX,
        old(right).score < u32::MAX,
        next.wf(),
    ensures
        r == exit_of(old(ball)@.x),
        r == Outcome::Continue ==> final(ball)@ == advanced(
            old(ball)@,
            dt as int,
            collides(old(ball)@, controlled(*old(left), left_control, old(ball)@, dt as int)),
            collides(old(ball)@, controlled(*old(right), right_control, old(ball)@, dt as int)),
        ),
        r == Outcome::Continue ==> final(left).y == controlled(
            *old(left),
            left_control,
            old(ball)@,
            dt as int,
        ).y && final(right).y == controlled(*old(right), right_control, old(ball)@, dt as int).y,
        r == Outcome::Continue ==> final(left).height == (if collides(
            old(ball)@,
            controlled(*old(left), left_control, old(ball)@, dt as int),
        ) || collides(old(ball)@, controlled(*old(right), right_control, old(ball)@, dt as int)) {
            shrunk(old(left).height as int)
        } else {
            old(left).height as int
        }),
        r == Outcome::Continue ==> final(right).height == (if collides(
            old(ball)@,
            controlled(*old(left), left_control, old(ball)@, dt as int),
        ) || collides(old(ball)@, controlled(*old(right), right_control, old(ball)@, dt as int)) {
            shrunk(old(right).height as int)
        } else {
            old(right).height as int
        }),
        r == Outcome::Continue ==> final(left).score == old(left).score && final(right).score
            == old(right).score,
        r == Outcome::ExitedRight ==> final(left).score == old(left).score + 1 && final(right).score
            == old(right).score,
        r == Outcome::ExitedLeft ==> final(right).score == old(right).score + 1 && final(left).score
            == old(left).score,
        r != Outcome::Continue ==> final(ball)@ == (BallState {
            x: CENTER as int,
            y: CENTER as int,
            dx: next.dx as int,
            dy: next.dy as int,
            speed: INITIAL_SPEED as int,
            hits: 0,
        }),
        r != Outcome::Continue ==> final(left).y == INITIAL_Y && final(left).height == INITIAL_HEIGHT
            && final(right).y == INITIAL_Y && final(right).height == INITIAL_HEIGHT,
        final(left).side == old(left).side,
        final(right).side == old(right).side,
        final(ball)@.wf(),
        final(left).wf(),
        final(right).wf(),
{
    apply_control(left, left_control, ball, dt);
    apply_control(right, right_control, ball, dt);
    let r = ball.update(dt, left, right);
    match r {
        Outcome::Continue => {},
        Outcome::ExitedRight => {
            left.score = left.score + 1;
        },
        Outcome::ExitedLeft => {
            right.score = right.score + 1;
        },
    }
    if r != Outcome::Continue {
        ball.reset(next);
        left.reset();
        right.reset();
    }
    r
}

} // verus!
