use air_hockey::rink;
use air_hockey::rink::{
    bounce_off_walls, contact_distance, frame_time, heading, in_contact, keep_between_walls,
    keep_in_half, settle_at_ends, start_left, start_puck, start_right, Edge, Keys, PaddleState,
    PuckState,
};

const W: f32 = 800.0;
const H: f32 = 480.0;
const PADDLE: f32 = 18.0;
const PUCK: f32 = 12.0;
const GOAL: f32 = 160.0;

fn puck(x: f32, y: f32, vx: f32, vy: f32) -> PuckState {
    PuckState { x: x.to_bits(), y: y.to_bits(), vx: vx.to_bits(), vy: vy.to_bits() }
}

fn around(n: f32) -> Vec<f32> {
    vec![f32::from_bits(n.to_bits() - 1), n, f32::from_bits(n.to_bits() + 1)]
}

fn xs() -> Vec<f32> {
    let mut v = vec![
        -1000.0,
        -0.0,
        0.0,
        1.0e-40,
        5.5,
        400.0,
        799.0,
        1011.9999,
        1.0e30,
        f32::INFINITY,
        f32::NEG_INFINITY,
        f32::NAN,
    ];
    for n in [PUCK, 24.0, 500.0, 512.0, W - PUCK, W, 1012.0, 1024.0] {
        v.extend(around(n));
    }
    v
}

fn ys() -> Vec<f32> {
    let mut v = vec![-5.0, 0.0, 240.0, 500.0, f32::INFINITY, f32::NEG_INFINITY, f32::NAN];
    for n in [PUCK, 160.0, 320.0, H - PUCK, H] {
        v.extend(around(n));
    }
    v
}

#[test]
fn measures_are_those_of_the_rink() {
    assert_eq!(f32::from_bits(rink::WIDTH), W);
    assert_eq!(f32::from_bits(rink::HEIGHT), H);
    assert_eq!(rink::WINDOW_WIDTH, W as i32);
    assert_eq!(rink::WINDOW_HEIGHT, H as i32);
    assert_eq!(f32::from_bits(rink::CENTRE_X), W / 2.0);
    assert_eq!(f32::from_bits(rink::CENTRE_Y), H / 2.0);
    assert_eq!(f32::from_bits(rink::PADDLE_RADIUS), PADDLE);
    assert_eq!(f32::from_bits(rink::PUCK_RADIUS), PUCK);
    assert_eq!(f32::from_bits(rink::PADDLE_SPEED), 300.0);
    assert_eq!(f32::from_bits(rink::CONTACT_SQUARED), (PADDLE + PUCK) * (PADDLE + PUCK));
    assert_eq!(f32::from_bits(rink::GOAL_TOP), (H - GOAL) / 2.0);
    assert_eq!(f32::from_bits(rink::GOAL_BOTTOM), (H - GOAL) / 2.0 + GOAL);
    assert_eq!(f32::from_bits(rink::PUCK_RIGHTMOST), W - PUCK);
    assert_eq!(f32::from_bits(rink::PUCK_LOWEST), H - PUCK);
    assert_eq!(f32::from_bits(rink::LEFT_HALF_END), W / 2.0 - PADDLE);
    assert_eq!(f32::from_bits(rink::RIGHT_HALF_START), W / 2.0 + PADDLE);
    assert_eq!(f32::from_bits(rink::PADDLE_RIGHTMOST), W - PADDLE);
    assert_eq!(f32::from_bits(rink::PADDLE_LOWEST), H - PADDLE);
    assert_eq!(rink::LONGEST_FRAME, 0.05f32.to_bits());
    assert_eq!(rink::SHORTEST_CONTACT, 0.001f32.to_bits());
}

#[test]
fn matches_start_where_they_should() {
    assert_eq!(start_left(), PaddleState { x: (W * 0.15).to_bits(), y: (H / 2.0).to_bits() });
    assert_eq!(start_right(), PaddleState { x: (W * 0.85).to_bits(), y: (H / 2.0).to_bits() });
    assert_eq!(start_puck(), puck(W / 2.0, H / 2.0, 140.0, 60.0));
}

#[test]
fn heading_has_length_one() {
    for n in 0..16u32 {
        let keys = Keys {
            up: n & 1 != 0,
            down: n & 2 != 0,
            left: n & 4 != 0,
            right: n & 8 != 0,
        };
        let mut dx: f32 = 0.0;
        let mut dy: f32 = 0.0;
        if keys.up {
            dy -= 1.0;
        }
        if keys.down {
            dy += 1.0;
        }
        if keys.left {
            dx -= 1.0;
        }
        if keys.right {
            dx += 1.0;
        }
        let len = (dx * dx + dy * dy).sqrt();
        if len > 0.0 {
            dx /= len;
            dy /= len;
        }
        assert_eq!(heading(keys), (dx.to_bits(), dy.to_bits()), "{keys:?}");
        if len > 0.0 {
            let (x, y) = (dx as f64, dy as f64);
            assert!(x * x + y * y <= 1.0 && x * x + y * y > 1.0 - 1.0e-7);
        }
    }
}

#[test]
fn opposite_keys_cancel() {
    let all = Keys { up: true, down: true, left: true, right: true };
    assert_eq!(heading(all), (0, 0));
    let up = Keys { up: true, down: false, left: true, right: true };
    assert_eq!(heading(up), (0, (-1.0f32).to_bits()));
}

#[test]
fn long_frames_are_cut() {
    assert_eq!(frame_time(1.0f32.to_bits()), 0.05f32.to_bits());
    assert_eq!(frame_time(0.05f32.to_bits()), 0.05f32.to_bits());
    assert_eq!(frame_time(0.016f32.to_bits()), 0.016f32.to_bits());
    assert_eq!(frame_time((-1.0f32).to_bits()), (-1.0f32).to_bits());
}

#[test]
fn contact_is_within_both_radii() {
    assert!(in_contact(899.99f32.to_bits()));
    assert!(in_contact(0.0f32.to_bits()));
    assert!(!in_contact(900.0f32.to_bits()));
    assert!(!in_contact(f32::NAN.to_bits()));
    assert_eq!(contact_distance(0.0f32.to_bits()), 0.001f32.to_bits());
    assert_eq!(contact_distance(29.0f32.to_bits()), 29.0f32.to_bits());
    assert_eq!(contact_distance(f32::NAN.to_bits()), 0.001f32.to_bits());
}

#[test]
fn paddles_keep_to_their_halves() {
    for x in xs() {
        let left = x.min(W / 2.0 - PADDLE).max(0.0 + PADDLE);
        let right = x.min(W - PADDLE).max(W / 2.0 + PADDLE);
        assert_eq!(keep_in_half(x.to_bits(), true), left.to_bits());
        assert_eq!(keep_in_half(x.to_bits(), false), right.to_bits());
        assert!(right - left >= 2.0 * PADDLE);
    }
    for y in ys() {
        assert_eq!(keep_between_walls(y.to_bits()), y.min(H - PADDLE).max(PADDLE).to_bits());
    }
}

#[test]
fn walls_turn_the_puck() {
    for y in ys() {
        let (mut ey, mut evy) = (y, -60.0f32);
        if ey < PUCK {
            ey = PUCK;
            evy = -evy;
        }
        if ey > H - PUCK {
            ey = H - PUCK;
            evy = -evy;
        }
        let got = bounce_off_walls(puck(300.0, y, 140.0, -60.0));
        assert_eq!(got, puck(300.0, ey, 140.0, evy), "{y}");
        assert_eq!(bounce_off_walls(got), got);
    }
}

#[test]
fn ends_turn_the_puck_or_count_a_goal() {
    let goal_top = (H - GOAL) / 2.0;
    let goal_bottom = goal_top + GOAL;
    for x in xs() {
        for y in ys() {
            let mut p = (x, y, -7.5f32, 3.25f32);
            let mut edge = Edge::Inside;
            if p.0 - PUCK < 0.0 {
                if p.1 >= goal_top && p.1 <= goal_bottom {
                    edge = Edge::LeftGoal;
                    p = (W / 2.0, H / 2.0, 160.0, 30.0);
                } else {
                    edge = Edge::LeftWall;
                    p.0 = PUCK;
                    p.2 = -p.2;
                }
            }
            if p.0 + PUCK > W {
                if p.1 >= goal_top && p.1 <= goal_bottom {
                    edge = Edge::RightGoal;
                    p = (W / 2.0, H / 2.0, -160.0, -30.0);
                } else {
                    edge = Edge::RightWall;
                    p.0 = W - PUCK;
                    p.2 = -p.2;
                }
            }
            let got = settle_at_ends(puck(x, y, -7.5, 3.25));
            assert_eq!(got, (puck(p.0, p.1, p.2, p.3), edge), "{x} {y}");
            assert_eq!(settle_at_ends(got.0), (got.0, Edge::Inside));
        }
    }
}
