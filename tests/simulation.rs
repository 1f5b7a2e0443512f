use pong::ball::{
    Ball, Heading, Outcome, ANGLE_MARGIN, BALL_HEIGHT, BALL_WIDTH, CENTER, INITIAL_SPEED,
    MAX_SPEED, PI_MICROS,
};
use pong::flapper::{Flapper, FLAPPER_WIDTH, INITIAL_HEIGHT, INITIAL_Y, MIN_HEIGHT};
use pong::game::{play_frame, Control};
use pong::geometry::{transform_rect, PixelRect, UNIT};

fn paddles() -> (Flapper, Flapper) {
    (Flapper::new(0), Flapper::new(1))
}

#[test]
fn exits_right_near_right_wall() {
    let (mut l, mut r) = paddles();
    let mut b = Ball::at(970_000, 500_000, Heading { dx: 479_426, dy: 877_583 }, 1_000_000);
    assert_eq!(b.update(100_000, &mut l, &mut r), Outcome::ExitedRight);
    assert_eq!(b.x(), 970_000);
    assert_eq!(b.y(), 500_000);
}

#[test]
fn exits_right_whatever_dt_and_paddles() {
    for dt in [0u64, 1, 16_667, 1_000_000, u64::MAX] {
        let (mut l, mut r) = paddles();
        l.y = 900_000;
        r.y = -5;
        r.height = MIN_HEIGHT;
        let mut b = Ball::at(940_000, 10_000, Heading { dx: -1_000_000, dy: 0 }, MAX_SPEED);
        assert_eq!(b.update(dt, &mut l, &mut r), Outcome::ExitedRight);
        assert_eq!(r.height, MIN_HEIGHT);
        assert_eq!(l.y, 900_000);
    }
}

#[test]
fn exits_left_near_left_wall() {
    let (mut l, mut r) = paddles();
    for x in [0i64, 10_000, 20_000] {
        let mut b = Ball::at(x, 500_000, Heading { dx: 1_000_000, dy: 0 }, INITIAL_SPEED);
        assert_eq!(b.update(16_000, &mut l, &mut r), Outcome::ExitedLeft);
        assert_eq!(b.hits(), 0);
    }
    let mut b = Ball::at(20_001, 900_000, Heading { dx: 1_000_000, dy: 0 }, INITIAL_SPEED);
    assert_eq!(b.update(16_000, &mut l, &mut r), Outcome::Continue);
}

#[test]
fn collision_shrinks_paddles_and_speeds_up() {
    let (mut l, mut r) = paddles();
    let mut b = Ball::at(30_000, 400_000, Heading { dx: -600_000, dy: 800_000 }, 1_000_000);
    assert_eq!(b.update(10_000, &mut l, &mut r), Outcome::Continue);
    assert_eq!(b.hits(), 1);
    assert_eq!(b.speed(), 1_010_000);
    assert_eq!(l.height, 492_500);
    assert_eq!(r.height, 492_500);
    assert_eq!(b.heading(), Heading { dx: 600_000, dy: 800_000 });
    // 0.6 * 1.01 * 0.01 of the field to the right, 0.8 * 1.01 * 0.01 upward.
    assert_eq!(b.x(), 36_060);
    assert_eq!(b.y(), 391_920);
    assert_eq!(l.y, INITIAL_Y);
    assert_eq!(r.y, INITIAL_Y);
}

#[test]
fn free_flight_moves_without_changes() {
    let (mut l, mut r) = paddles();
    let mut b = Ball::at(500_000, 500_000, Heading { dx: 600_000, dy: -800_000 }, INITIAL_SPEED);
    assert_eq!(b.update(100_000, &mut l, &mut r), Outcome::Continue);
    assert_eq!(b.x(), 530_000);
    assert_eq!(b.y(), 540_000);
    assert_eq!(b.hits(), 0);
    assert_eq!(b.speed(), INITIAL_SPEED);
    assert_eq!(l.height, INITIAL_HEIGHT);
}

#[test]
fn bounces_off_top_wall() {
    let (mut l, mut r) = paddles();
    let mut b = Ball::at(500_000, 15_000, Heading { dx: 600_000, dy: 800_000 }, INITIAL_SPEED);
    assert_eq!(b.update(10_000, &mut l, &mut r), Outcome::Continue);
    assert_eq!(b.heading(), Heading { dx: 600_000, dy: -800_000 });
    assert_eq!(b.x(), 503_000);
    assert_eq!(b.y(), 19_000);
}

#[test]
fn negative_travel_rounds_toward_zero_and_clamps() {
    let (mut l, mut r) = paddles();
    let mut b = Ball::at(500_000, 40_000, Heading { dx: -3, dy: 1_000_000 }, INITIAL_SPEED);
    assert_eq!(b.update(1, &mut l, &mut r), Outcome::Continue);
    assert_eq!(b.x(), 500_000);
    assert_eq!(b.y(), 40_000);
    assert_eq!(b.update(1_000_000, &mut l, &mut r), Outcome::Continue);
    assert_eq!(b.y(), 0);
    assert_eq!(b.x(), 499_999);
}

#[test]
fn ball_stays_in_field_after_any_step() {
    let dts = [0u64, 1, 16_667, 250_000, 3_000_000, u64::MAX];
    let comps = [-1_000_000i64, -707_107, -1, 0, 1, 707_107, 1_000_000];
    for &dt in dts.iter() {
        for &dx in comps.iter() {
            for &dy in comps.iter() {
                for &y in [0i64, 20_000, 400_000, 930_000, UNIT].iter() {
                    let (mut l, mut r) = paddles();
                    let mut b = Ball::at(500_000, y, Heading { dx, dy }, MAX_SPEED);
                    if b.update(dt, &mut l, &mut r) == Outcome::Continue {
                        assert!(b.x() >= 0 && b.x() <= UNIT - BALL_WIDTH);
                        assert!(b.y() >= 0 && b.y() <= UNIT - BALL_HEIGHT);
                    }
                }
            }
        }
    }
}

#[test]
fn speed_and_height_over_a_long_rally() {
    let (mut l, mut r) = paddles();
    let mut b = Ball::at(30_000, 400_000, Heading { dx: -600_000, dy: 0 }, INITIAL_SPEED);
    let mut last_speed = b.speed();
    let mut last_height = l.height;
    for _ in 0..2_000 {
        b = Ball::at(30_000, 400_000, Heading { dx: -600_000, dy: 0 }, b.speed());
        l.y = 399_000;
        assert_eq!(b.update(1, &mut l, &mut r), Outcome::Continue);
        assert!(b.speed() >= last_speed);
        assert!(b.speed() <= MAX_SPEED);
        assert!(l.height <= last_height);
        assert!(l.height >= MIN_HEIGHT);
        assert_eq!(l.height, r.height);
        last_speed = b.speed();
        last_height = l.height;
    }
    assert_eq!(b.speed(), MAX_SPEED);
    assert_eq!(l.height, MIN_HEIGHT);
    l.reset();
    assert_eq!(l.height, INITIAL_HEIGHT);
    b.reset(Heading { dx: 1, dy: 0 });
    assert_eq!(b.speed(), INITIAL_SPEED);
}

#[test]
fn both_paddles_overlapping_cancel_the_turn() {
    let (mut l, mut r) = paddles();
    let mut b = Ball::at(30_000, 400_000, Heading { dx: -600_000, dy: 0 }, 1_000_000);
    r.side = 0;
    assert_eq!(b.update(0, &mut l, &mut r), Outcome::Continue);
    assert_eq!(b.hits(), 2);
    assert_eq!(b.heading().dx, -600_000);
    assert_eq!(b.speed(), 1_010_000);
    assert_eq!(l.height, 492_500);
}

#[test]
fn reset_after_exit_keeps_scores() {
    let (mut l, mut r) = paddles();
    l.score = 3;
    r.score = 4;
    l.y = -70;
    r.height = 12_345;
    let mut b = Ball::at(960_000, 100_000, Heading { dx: 1, dy: 1 }, 2_000_000);
    let next = Heading { dx: 389_418, dy: 921_061 };
    let o = play_frame(&mut b, &mut l, &mut r, Control::Auto, Control::Auto, 16_000, next);
    assert_eq!(o, Outcome::ExitedRight);
    assert_eq!((l.score, r.score), (4, 4));
    assert_eq!((b.x(), b.y(), b.hits(), b.speed()), (CENTER, CENTER, 0, INITIAL_SPEED));
    assert_eq!(b.heading(), next);
    for f in [&l, &r] {
        assert_eq!((f.y, f.height), (INITIAL_Y, INITIAL_HEIGHT));
    }

    let mut b = Ball::at(5_000, 100_000, Heading { dx: 1, dy: 1 }, 2_000_000);
    let o = play_frame(&mut b, &mut l, &mut r, Control::Auto, Control::Auto, 16_000, next);
    assert_eq!(o, Outcome::ExitedLeft);
    assert_eq!((l.score, r.score), (4, 5));
}

#[test]
fn frame_moves_paddles_before_ball() {
    let (mut l, mut r) = paddles();
    let mut b = Ball::at(500_000, 600_000, Heading { dx: 0, dy: 1_000_000 }, INITIAL_SPEED);
    let next = Heading { dx: 0, dy: 0 };
    let o = play_frame(
        &mut b,
        &mut l,
        &mut r,
        Control::Manual { up: true, down: false },
        Control::Auto,
        20_000,
        next,
    );
    assert_eq!(o, Outcome::Continue);
    assert_eq!(l.y, INITIAL_Y - 20_000);
    assert_eq!(r.y, 600_000 - 250_000 + 25_000);
    assert_eq!(b.y(), 590_000);
}

#[test]
fn paddle_positions_follow_side() {
    let (l, r) = paddles();
    assert_eq!(l.x(), 12_500);
    assert_eq!(r.x(), 962_500);
    assert_eq!(Flapper::new(7).x(), UNIT - FLAPPER_WIDTH * 3 / 2);
    assert_eq!((l.y, l.height, l.score, l.side), (250_000, 500_000, 0, 0));
}

#[test]
fn autoplay_centres_on_ball() {
    let mut f = Flapper::new(1);
    f.height = 300_001;
    let b = Ball::at(400_000, 700_000, Heading { dx: 0, dy: 0 }, INITIAL_SPEED);
    f.update(&b);
    assert_eq!(f.y, 700_000 - 150_000 + 25_000);
}

#[test]
fn steering_is_unclamped_in_field() {
    let mut f = Flapper::new(0);
    f.steer(300_000, true, false);
    assert_eq!(f.y, -50_000);
    f.steer(300_000, true, true);
    assert_eq!(f.y, -50_000);
    f.steer(2_000_000, false, true);
    assert_eq!(f.y, 1_950_000);
    f.steer(u64::MAX, false, true);
    assert_eq!(f.y, i64::MAX);
}

#[test]
fn new_ball_starts_at_centre() {
    let b = Ball::new(Heading { dx: -479_426, dy: 877_583 });
    assert_eq!((b.x(), b.y(), b.hits(), b.speed()), (CENTER, CENTER, 0, INITIAL_SPEED));
    assert_eq!(b.heading(), Heading { dx: -479_426, dy: 877_583 });
}

#[test]
fn drawn_angles_stay_in_range() {
    let mut right = 0;
    let mut left = 0;
    let mut seen = std::collections::BTreeSet::new();
    for _ in 0..10_000 {
        let a = Ball::rand_angle();
        let heads_right = a >= ANGLE_MARGIN && a < PI_MICROS - ANGLE_MARGIN;
        let heads_left = a >= PI_MICROS + ANGLE_MARGIN && a < 2 * (PI_MICROS - ANGLE_MARGIN);
        assert!(heads_right || heads_left, "angle {a} out of range");
        assert!(!(a >= PI_MICROS - ANGLE_MARGIN && a < PI_MICROS + ANGLE_MARGIN));
        if heads_right {
            right += 1;
        } else {
            left += 1;
        }
        seen.insert(a);
    }
    assert!(right > 0 && left > 0);
    assert!(seen.len() > 100);
}

#[test]
fn angle_from_draws() {
    assert_eq!(Ball::angle_from(400_000, 1), 400_000);
    assert_eq!(Ball::angle_from(2_741_592, 1), 2_741_592);
    assert_eq!(Ball::angle_from(400_000, 2), 3_541_593);
    assert_eq!(Ball::angle_from(1_570_796, 2), 4_512_389);
    assert_eq!(Ball::angle_from(2_741_592, 2), 5_483_185);
}

#[test]
fn frame_with_collision_shrinks_both_paddles() {
    let (mut l, mut r) = paddles();
    let mut b = Ball::at(30_000, 400_000, Heading { dx: -600_000, dy: 0 }, 1_000_000);
    let next = Heading { dx: 0, dy: 0 };
    let o = play_frame(&mut b, &mut l, &mut r, Control::Auto, Control::Auto, 0, next);
    assert_eq!(o, Outcome::Continue);
    assert_eq!((l.height, r.height), (492_500, 492_500));
    assert_eq!((b.hits(), b.speed()), (1, 1_010_000));
    assert_eq!(l.y, 400_000 - 250_000 + 25_000);
}

#[test]
fn rect_scales_to_window() {
    assert_eq!(
        transform_rect(800, 600, 500_000, 500_000, 40_000, 50_000),
        PixelRect { x: 400, y: 300, w: 32, h: 30 }
    );
    assert_eq!(
        transform_rect(801, 599, 12_500, 250_000, 25_000, 492_500),
        PixelRect { x: 10, y: 149, w: 20, h: 295 }
    );
    assert_eq!(
        transform_rect(800, 600, -1_500, i64::MAX, -5, i64::MIN),
        PixelRect { x: -1, y: i32::MAX, w: 0, h: 0 }
    );
}
