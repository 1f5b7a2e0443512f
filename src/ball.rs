use vstd::prelude::*;
use rand::Rng;
use crate::geometry::{clamp, FAR_WALL, MICROS_PER_SECOND, UNIT, WALL};
use crate::flapper::{flapper_x, shrunk, Flapper, FLAPPER_WIDTH};

verus! {

/// Width of the ball.
pub const BALL_WIDTH: i64 = 40_000;

/// Height of the ball.
pub const BALL_HEIGHT: i64 = 50_000;

/// Speed at the start of a rally, in field units per second.
pub const INITIAL_SPEED: i64 = 500_000;

/// The speed the ball never exceeds.
pub const MAX_SPEED: i64 = 7_000_000;

/// Where the ball starts on either axis.
pub const CENTER: i64 = 500_000;

/// Pi in microradians, rounded.
pub const PI_MICROS: i64 = 3_141_593;

/// How far, in microradians, a drawn angle stays from `0` and from pi.
pub const ANGLE_MARGIN: i64 = 400_000;

/// A direction of travel as its two components, in millionths:
/// `dx` is the sine of the angle and `dy` its cosine. The ball moves by `dx`
/// to the right and by `dy` upward.
#[derive(Clone, Copy, Debug, PartialEq, Eq, Structural)]
pub struct Heading {
    pub dx: i64,
    pub dy: i64,
}

impl Heading {
    /// Each component lies within one unit.
    pub open spec fn wf(&self) -> bool {
        -UNIT <= self.dx <= UNIT && -UNIT <= self.dy <= UNIT
    }
}

/// What a frame ended with: play goes on, or the ball left the field on one side.
#[derive(Clone, Copy, Debug, PartialEq, Eq, Structural)]
pub enum Outcome {
    Continue,
    ExitedLeft,
    ExitedRight,
}

/// The ball as plain numbers.
pub struct BallState {
    pub x: int,
    pub y: int,
    pub dx: int,
    pub dy: int,
    pub speed: int,
    pub hits: nat,
}

impl BallState {
    /// Inside the field, a heading within one unit, and a speed between the
    /// starting speed and the maximum.
    pub open spec fn wf(self) -> bool {
        &&& 0 <= self.x <= UNIT
        &&& 0 <= self.y <= UNIT
        &&& -UNIT <= self.dx <= UNIT
        &&& -UNIT <= self.dy <= UNIT
        &&& INITIAL_SPEED <= self.speed <= MAX_SPEED
    }
}

/// The ball, with the number of paddle hits since the rally began.
pub struct Ball {
    x: i64,
    y: i64,
    heading: Heading,
    speed: i64,
    hits: u32,
}

impl View for Ball {
    type V = BallState;

    closed spec fn view(&self) -> BallState {
        BallState {
            x: self.x as int,
            y: self.y as int,
            dx: self.heading.dx as int,
            dy: self.heading.dy as int,
            speed: self.speed as int,
            hits: self.hits as nat,
        }
    }
}

/// The outcome decided before anything moves, by the ball's left edge alone.
pub open spec fn exit_of(x: int) -> Outcome {
    if x >= FAR_WALL - BALL_WIDTH {
        Outcome::ExitedRight
    } else if x <= WALL {
        Outcome::ExitedLeft
    } else {
        Outcome::Continue
    }
}

/// The ball touches the top or the bottom boundary.
pub open spec fn at_wall(y: int) -> bool {
    y >= FAR_WALL - BALL_HEIGHT || y <= WALL
}

/// The ball overlaps the paddle. The test reaches one ball width beyond the
/// paddle's left edge and one paddle width beyond it, so that a fast ball
/// does not pass through the face it comes from.
pub open spec fn collides(b: BallState, f: Flapper) -> bool {
    &&& b.x >= flapper_x(f.side) - BALL_WIDTH
    &&& b.x <= flapper_x(f.side) + FLAPPER_WIDTH
    &&& b.y >= f.y - BALL_HEIGHT
    &&& b.y <= f.y + f.height
}

/// The speed after a frame with a collision: 1 % faster, up to the maximum.
pub open spec fn sped_up(speed: int) -> int {
    if speed * 101 / 100 > MAX_SPEED {
        MAX_SPEED as int
    } else {
        speed * 101 / 100
    }
}

/// Distance covered along a component `d` at `speed` in `dt` microseconds,
/// rounded toward zero.
pub open spec fn travel(d: int, speed: int, dt: int) -> int {
    if d >= 0 {
        d * speed * dt / (UNIT * MICROS_PER_SECOND)
    } else {
        -((-d) * speed * dt / (UNIT * MICROS_PER_SECOND))
    }
}

/// The ball after a frame that did not end in an exit, given which paddles
/// it overlapped at the start of the frame.
pub open spec fn advanced(b: BallState, dt: int, hit_left: bool, hit_right: bool) -> BallState {
    let dy = if at_wall(b.y) { -b.dy } else { b.dy };
    let dx = if hit_left != hit_right { -b.dx } else { b.dx };
    let hit = hit_left || hit_right;
    let speed = if hit { sped_up(b.speed) } else { b.speed };
    BallState {
        x: clamp(b.x + travel(dx, speed, dt), 0, UNIT - BALL_WIDTH),
        y: clamp(b.y - travel(dy, speed, dt), 0, UNIT - BALL_HEIGHT),
        dx,
        dy,
        speed,
        hits: (b.hits + (if hit_left { 1int } else { 0int }) + (if hit_right { 1int } else { 0int })) as nat,
    }
}

/// The angles that a fresh rally may start with, in microradians: heading
/// right in `ANGLE_MARGIN..PI_MICROS - ANGLE_MARGIN`, or heading left in
/// `PI_MICROS + ANGLE_MARGIN..2 * (PI_MICROS - ANGLE_MARGIN)`. Angles near
/// vertical are excluded on both sides.
pub open spec fn drawable_angle(a: int) -> bool {
    ||| ANGLE_MARGIN <= a < PI_MICROS - ANGLE_MARGIN
    ||| PI_MICROS + ANGLE_MARGIN <= a < 2 * (PI_MICROS - ANGLE_MARGIN)
}

/// The starting angle made from a draw `u` of
/// `ANGLE_MARGIN..PI_MICROS - ANGLE_MARGIN` and a side `k` of `1..3`: `u`
/// itself for `k == 1`, else `u` carried linearly onto the left-heading
/// range, rounded down.
pub open spec fn angle_of(u: int, k: int) -> int {
    if k == 1 {
        u
    } else {
        PI_MICROS + ANGLE_MARGIN + (u - ANGLE_MARGIN) * (PI_MICROS - 3 * ANGLE_MARGIN) / (PI_MICROS
            - 2 * ANGLE_MARGIN)
    }
}

/// Any draw in range gives a starting angle in range.
pub proof fn lemma_angle_of_drawable(u: int, k: int)
    requires
        ANGLE_MARGIN <= u < PI_MICROS - ANGLE_MARGIN,
        1 <= k < 3,
    ensures
        drawable_angle(angle_of(u, k)),
{
    if k != 1 {
        let t = u - ANGLE_MARGIN;
        let c = PI_MICROS - 3 * ANGLE_MARGIN;
        let d = PI_MICROS - 2 * ANGLE_MARGIN;
        assert(0 <= t * c / d < c) by (nonlinear_arith)
            requires
                0 <= t < d,
                0 < c,
                0 < d,
        ;
    }
}

/// Relies on rand's `Rng::gen_range` on the thread-local generator: a value of
/// the half-open range `lo..hi`. It panics on an empty range.
#[verifier::external_body]
fn random_in(lo: i64, hi: i64) -> (r: i64)
    requires
        lo < hi,
    ensures
        lo <= r < hi,
{
    rand::thread_rng().gen_range(lo..hi)
}

proof fn lemma_product_bound(a: int, b: int, c: int, ma: int, mb: int, mc: int)
    requires
        0 <= a <= ma,
        0 <= b <= mb,
        0 <= c <= mc,
    ensures
        0 <= a * b * c <= ma * mb * mc,
{
    assert(0 <= a * b <= ma * mb) by (nonlinear_arith)
        requires
            0 <= a <= ma,
            0 <= b <= mb,
    ;
    assert(0 <= (a * b) * c <= (ma * mb) * mc) by (nonlinear_arith)
        requires
            0 <= a * b <= ma * mb,
            0 <= c <= mc,
    ;
}

/// Distance covered along `d` at `speed` in `dt` microseconds.
fn travel_of(d: i64, speed: i64, dt: u64) -> (r: i128)
    requires
        -UNIT <= d <= UNIT,
        0 <= speed <= MAX_SPEED,
    ensures
        r == travel(d as int, speed as int, dt as int),
        -(UNIT * MAX_SPEED * u64::MAX) <= r <= UNIT * MAX_SPEED * u64::MAX,
{
    let mag: u128 = if d >= 0 { d as u128 } else { (-(d as i128)) as u128 };
    proof {
        lemma_product_bound(mag as int, speed as int, dt as int, UNIT as int, MAX_SPEED as int, u64::MAX as int);
        lemma_product_bound(mag as int, speed as int, 1, UNIT as int, MAX_SPEED as int, 1);
        assert(UNIT * MAX_SPEED * u64::MAX < u128::MAX);
    }
    let p: u128 = mag * (speed as u128) * (dt as u128);
    let q: u128 = p / ((UNIT * MICROS_PER_SECOND) as u128);
    assert(q <= p);
    if d >= 0 {
        q as i128
    } else {
        -(q as i128)
    }
}

/// `v` limited to `0..=hi`.
fn clamp_to(v: i128, hi: i64) -> (r: i64)
    requires
        0 <= hi,
    ensures
        r == clamp(v as int, 0, hi as int),
{
    if v < 0 {
        0
    } else if v > hi as i128 {
        hi
    } else {
        v as i64
    }
}

impl Ball {
    /// The starting angle for a draw `u` and a side `k`.
    pub fn angle_from(u: i64, k: i64) -> (r: i64)
        requires
            ANGLE_MARGIN <= u < PI_MICROS - ANGLE_MARGIN,
            1 <= k < 3,
        ensures
            r == angle_of(u as int, k as int),
            drawable_angle(r as int),
    {
        proof {
            lemma_angle_of_drawable(u as int, k as int);
            assert(0 <= (u - ANGLE_MARGIN) * (PI_MICROS - 3 * ANGLE_MARGIN) <= (PI_MICROS - 2
                * ANGLE_MARGIN) * (PI_MICROS - 3 * ANGLE_MARGIN)) by (nonlinear_arith)
                requires
                    ANGLE_MARGIN <= u < PI_MICROS - ANGLE_MARGIN,
            ;
        }
        if k == 1 {
            u
        } else {
            let q = (u - ANGLE_MARGIN) * (PI_MICROS - 3 * ANGLE_MARGIN) / (PI_MICROS - 2
                * ANGLE_MARGIN);
            assert(q < PI_MICROS - 3 * ANGLE_MARGIN);
            PI_MICROS + ANGLE_MARGIN + q
        }
    }

    /// A drawn starting angle in microradians: a uniform draw of
    /// `ANGLE_MARGIN..PI_MICROS - ANGLE_MARGIN` and a uniform side of `1..3`,
    /// combined by `angle_from`.
    pub fn rand_angle() -> (r: i64)
        ensures
            exists|u: int, k: int|
                ANGLE_MARGIN <= u < PI_MICROS - ANGLE_MARGIN && 1 <= k < 3 && r == #[trigger] angle_of(
                    u,
                    k,
                ),
            drawable_angle(r as int),
    {
        let u = random_in(ANGLE_MARGIN, PI_MICROS - ANGLE_MARGIN);
        let k = random_in(1, 3);
        Ball::angle_from(u, k)
    }

    /// A ball at the centre with the given heading, the starting speed and no hits.
    pub fn new(heading: Heading) -> (b: Ball)
        requires
            heading.wf(),
        ensures
            b@ == (BallState {
                x: CENTER as int,
                y: CENTER as int,
                dx: heading.dx as int,
                dy: heading.dy as int,
                speed: INITIAL_SPEED as int,
                hits: 0,
            }),
            b@.wf(),
    {
        Ball { x: CENTER, y: CENTER, heading, speed: INITIAL_SPEED, hits: 0 }
    }

    /// A ball at a given place, heading and speed, with no hits.
    pub fn at(x: i64, y: i64, heading: Heading, speed: i64) -> (b: Ball)
        requires
            0 <= x <= UNIT,
            0 <= y <= UNIT,
            heading.wf(),
            INITIAL_SPEED <= speed <= MAX_SPEED,
        ensures
            b@ == (BallState {
                x: x as int,
                y: y as int,
                dx: heading.dx as int,
                dy: heading.dy as int,
                speed: speed as int,
                hits: 0,
            }),
            b@.wf(),
    {
        Ball { x, y, heading, speed, hits: 0 }
    }

    /// Starts a new rally: the centre, the given heading, the starting speed
    /// and no hits.
    pub fn reset(&mut self, heading: Heading)
        requires
            heading.wf(),
        ensures
            final(self)@ == (BallState {
                x: CENTER as int,
                y: CENTER as int,
                dx: heading.dx as int,
                dy: heading.dy as int,
                speed: INITIAL_SPEED as int,
                hits: 0,
            }),
            final(self)@.wf(),
    {
        self.x = CENTER;
        self.y = CENTER;
        self.heading = heading;
        self.speed = INITIAL_SPEED;
        self.hits = 0;
    }

    /// The ball's left edge.
    pub fn x(&self) -> (r: i64)
        ensures
            r == self@.x,
    {
        self.x
    }

    /// The ball's top edge.
    pub fn y(&self) -> (r: i64)
        ensures
            r == self@.y,
    {
        self.y
    }

    /// Paddle hits since the rally began.
    pub fn hits(&self) -> (r: u32)
        ensures
            r == self@.hits,
    {
        self.hits
    }

    /// The speed, in field units per second.
    pub fn speed(&self) -> (r: i64)
        ensures
            r == self@.speed,
    {
        self.speed
    }

    /// The direction of travel.
    pub fn heading(&self) -> (r: Heading)
        ensures
            r.dx == self@.dx,
            r.dy == self@.dy,
    {
        self.heading
    }

    /// Whether the ball overlaps the paddle `f`.
    fn collides_with(&self, f: &Flapper) -> (r: bool)
        ensures
            r == collides(self@, *f),
    {
        let fx = f.x() as i128;
        let x = self.x as i128;
        let y = self.y as i128;
        x >= fx - BALL_WIDTH as i128 && x <= fx + FLAPPER_WIDTH as i128
            && y >= f.y as i128 - BALL_HEIGHT as i128 && y <= f.y as i128 + f.height as i128
    }
    /// One frame of `dt` microseconds against the two paddles.
    ///
    /// A ball at the right or the left boundary ends the frame with an exit
    /// and nothing changes. Otherwise the ball bounces off the top or bottom
    /// boundary, turns back from each paddle it overlaps (counting a hit
    /// each), and after any hit both paddles shrink and the ball speeds up;
    /// then it moves and is kept inside the field.
    pub fn update(&mut self, dt: u64, left: &mut Flapper, right: &mut Flapper) -> (r: Outcome)
        requires
            old(self)@.wf(),
            old(left).wf(),
            old(right).wf(),
            old(self)@.hits + (if collides(old(self)@, *old(left)) { 1int } else { 0int }) + (if collides(
                old(self)@,
                *old(right),
            ) {
                1int
            } else {
                0int
            }) <= u32::MAX,
        ensures
            r == exit_of(old(self)@.x),
            old(self)@.x >= FAR_WALL - BALL_WIDTH ==> r == Outcome::ExitedRight,
            old(self)@.x <= WALL ==> r == Outcome::ExitedLeft,
            r != Outcome::Continue ==> final(self)@ == old(self)@ && *final(left) == *old(left)
                && *final(right) == *old(right),
            r == Outcome::Continue ==> final(self)@ == advanced(
                old(self)@,
                dt as int,
                collides(old(self)@, *old(left)),
                collides(old(self)@, *old(right)),
            ),
            r == Outcome::Continue ==> final(left).height == (if collides(old(self)@, *old(left))
                || collides(old(self)@, *old(right)) {
                shrunk(old(left).height as int)
            } else {
                old(left).height as int
            }),
            r == Outcome::Continue ==> final(right).height == (if collides(old(self)@, *old(left))
                || collides(old(self)@, *old(right)) {
                shrunk(old(right).height as int)
            } else {
                old(right).height as int
            }),
            final(left).y == old(left).y,
            final(left).score == old(left).score,
            final(left).side == old(left).side,
            final(right).y == old(right).y,
            final(right).score == old(right).score,
            final(right).side == old(right).side,
            final(self)@.wf(),
            final(left).wf(),
            final(right).wf(),
            r == Outcome::Continue ==> 0 <= final(self)@.x <= UNIT - BALL_WIDTH,
            r == Outcome::Continue ==> 0 <= final(self)@.y <= UNIT - BALL_HEIGHT,
            old(self)@.speed <= final(self)@.speed <= MAX_SPEED,
            final(left).height <= old(left).height,
            final(right).height <= old(right).height,
    {
        if self.x >= FAR_WALL - BALL_WIDTH {
            return Outcome::ExitedRight;
        } else if self.x <= WALL {
            return Outcome::ExitedLeft;
        }
        let mut dx = self.heading.dx;
        let mut dy = self.heading.dy;
        if self.y >= FAR_WALL - BALL_HEIGHT || self.y <= WALL {
            dy = -dy;
        }
        let hit_left = self.collides_with(left);
        let hit_right = self.collides_with(right);
        if hit_left {
            dx = -dx;
            self.hits = self.hits + 1;
        }
        if hit_right {
            dx = -dx;
            self.hits = self.hits + 1;
        }
        if hit_left || hit_right {
            left.shrink();
            right.shrink();
            let s = self.speed * 101 / 100;
            self.speed = if s > MAX_SPEED { MAX_SPEED } else { s };
        }
        self.heading = Heading { dx, dy };
        let step_x = travel_of(dx, self.speed, dt);
        let step_y = travel_of(dy, self.speed, dt);
        self.x = clamp_to(self.x as i128 + step_x, UNIT - BALL_WIDTH);
        self.y = clamp_to(self.y as i128 - step_y, UNIT - BALL_HEIGHT);
        Outcome::Continue
    }
}

} // verus!
