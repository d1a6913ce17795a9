//! The rink: its measures, where a match starts, and what happens to paddles
//! and puck at its walls and goals.

use crate::scalar::{
    at_most, clamp, clamp_lands_within, clamped, greater, is_nan, le, lemma_whole_value, less,
    lt, max, neg, negated, negation_flips_the_sign, value, whole, Scalar,
};
use vstd::arithmetic::power2::{lemma2_to64, lemma_pow2_adds, lemma_pow2_pos, pow2};
use vstd::prelude::*;

verus! {

/// The window, in pixels: the rink fills it.
pub const WINDOW_WIDTH: i32 = 800;
pub const WINDOW_HEIGHT: i32 = 480;

/// The number 0.
pub const ZERO: Scalar = 0;
/// The number 1.
pub const ONE: Scalar = 0x3f80_0000;
/// The number 1 divided by the root of 2, both rounded to binary32.
pub const DIAGONAL: Scalar = 0x3f35_04f3;
/// The longest time a frame may account for, 0.05 seconds.
pub const LONGEST_FRAME: Scalar = 0x3d4c_cccd;
/// The shortest distance between centres a collision reckons with, 0.001.
pub const SHORTEST_CONTACT: Scalar = 0x3a83_126f;

/// The width of the rink, 800.
pub const WIDTH: Scalar = 0x4448_0000;
/// The height of the rink, 480.
pub const HEIGHT: Scalar = 0x43f0_0000;
/// Half the width, 400.
pub const CENTRE_X: Scalar = 0x43c8_0000;
/// Half the height, 240.
pub const CENTRE_Y: Scalar = 0x4370_0000;
/// The radius of a paddle, 18.
pub const PADDLE_RADIUS: Scalar = 0x4190_0000;
/// The radius of the puck, 12.
pub const PUCK_RADIUS: Scalar = 0x4140_0000;
/// The speed of a paddle, 300.
pub const PADDLE_SPEED: Scalar = 0x4396_0000;
/// The square of the two radii's sum, 900.
pub const CONTACT_SQUARED: Scalar = 0x4461_0000;
/// The upper end of a goal, 160.
pub const GOAL_TOP: Scalar = 0x4320_0000;
/// The lower end of a goal, 320.
pub const GOAL_BOTTOM: Scalar = 0x43a0_0000;

/// Where the puck's centre rests against the right wall, 788.
pub const PUCK_RIGHTMOST: Scalar = 0x4445_0000;
/// Where the puck's centre rests against the lower wall, 468.
pub const PUCK_LOWEST: Scalar = 0x43ea_0000;
/// How far right the paddle of the left half may go, 382.
pub const LEFT_HALF_END: Scalar = 0x43bf_0000;
/// How far left the paddle of the right half may go, 418.
pub const RIGHT_HALF_START: Scalar = 0x43d1_0000;
/// How far right the paddle of the right half may go, 782.
pub const PADDLE_RIGHTMOST: Scalar = 0x4443_8000;
/// How far down a paddle may go, 462.
pub const PADDLE_LOWEST: Scalar = 0x43e7_0000;

/// Where the left paddle starts: 800 times 0.15, both binary32, rounded.
pub const LEFT_START_X: Scalar = 0x42f0_0001;
/// Where the right paddle starts: 800 times 0.85, both binary32, rounded.
pub const RIGHT_START_X: Scalar = 0x442a_0000;

/// The puck's velocity at the start of a match, (140, 60).
pub const START_VX: Scalar = 0x430c_0000;
pub const START_VY: Scalar = 0x4270_0000;
/// The puck's velocity after a goal in the left goal, (160, 30); after one in
/// the right goal, its opposite.
pub const SERVE_VX: Scalar = 0x4320_0000;
pub const SERVE_VY: Scalar = 0x41f0_0000;

/// The centre of a paddle.
#[derive(Clone, Copy, Debug, PartialEq, Eq, Structural)]
pub struct PaddleState {
    pub x: Scalar,
    pub y: Scalar,
}

/// The centre and the velocity of the puck.
#[derive(Clone, Copy, Debug, PartialEq, Eq, Structural)]
pub struct PuckState {
    pub x: Scalar,
    pub y: Scalar,
    pub vx: Scalar,
    pub vy: Scalar,
}

/// The measures of the rink, as numbers: the whole ones as multiples of 1, the
/// others with the error of their rounding.
pub proof fn rink_measures()
    ensures
        0 < whole(1),
        value(ZERO) == 0,
        value(ONE) == whole(1),
        value(WIDTH) == WINDOW_WIDTH * whole(1),
        value(HEIGHT) == WINDOW_HEIGHT * whole(1),
        2 * value(CENTRE_X) == value(WIDTH),
        2 * value(CENTRE_Y) == value(HEIGHT),
        value(PADDLE_RADIUS) == 18 * whole(1),
        value(PUCK_RADIUS) == 12 * whole(1),
        value(PADDLE_SPEED) == 300 * whole(1),
        value(CONTACT_SQUARED) == 900 * whole(1),
        value(GOAL_BOTTOM) - value(GOAL_TOP) == 160 * whole(1),
        2 * value(GOAL_TOP) == value(HEIGHT) - 160 * whole(1),
        value(PUCK_RIGHTMOST) == value(WIDTH) - value(PUCK_RADIUS),
        value(PUCK_LOWEST) == value(HEIGHT) - value(PUCK_RADIUS),
        value(LEFT_HALF_END) == value(CENTRE_X) - value(PADDLE_RADIUS),
        value(RIGHT_HALF_START) == value(CENTRE_X) + value(PADDLE_RADIUS),
        value(PADDLE_RIGHTMOST) == value(WIDTH) - value(PADDLE_RADIUS),
        value(PADDLE_LOWEST) == value(HEIGHT) - value(PADDLE_RADIUS),
        value(RIGHT_START_X) == 680 * whole(1),
        value(LEFT_START_X) == 120 * whole(1) + pow2(132),
        value(START_VX) == 140 * whole(1),
        value(START_VY) == 60 * whole(1),
        value(SERVE_VX) == 160 * whole(1),
        value(SERVE_VY) == 30 * whole(1),
        // 1 divided by the root of 2 is between 0xb504f3 and 0xb504f4 steps of
        // which 1 is 2^24.
        value(DIAGONAL) == 0xb5_04f3 * pow2(125),
        whole(1) == 0x100_0000 * pow2(125),
        0xb5_04f3int * 0xb5_04f3 <= 0x8000_0000_0000 < 0xb5_04f4int * 0xb5_04f4,
        20 * value(LONGEST_FRAME) == whole(1) + 4 * pow2(121),
        1000 * value(SHORTEST_CONTACT) == whole(1) + 408 * pow2(116),
{
    lemma2_to64();
    lemma_pow2_pos(149);
    lemma_whole_value(ONE, 1, 23);
    lemma_whole_value(WIDTH, 800, 14);
    lemma_whole_value(HEIGHT, 480, 15);
    lemma_whole_value(CENTRE_X, 400, 15);
    lemma_whole_value(CENTRE_Y, 240, 16);
    lemma_whole_value(PADDLE_RADIUS, 18, 19);
    lemma_whole_value(PUCK_RADIUS, 12, 20);
    lemma_whole_value(PADDLE_SPEED, 300, 15);
    lemma_whole_value(CONTACT_SQUARED, 900, 14);
    lemma_whole_value(GOAL_TOP, 160, 16);
    lemma_whole_value(GOAL_BOTTOM, 320, 15);
    lemma_whole_value(PUCK_RIGHTMOST, 788, 14);
    lemma_whole_value(PUCK_LOWEST, 468, 15);
    lemma_whole_value(LEFT_HALF_END, 382, 15);
    lemma_whole_value(RIGHT_HALF_START, 418, 15);
    lemma_whole_value(PADDLE_RIGHTMOST, 782, 14);
    lemma_whole_value(PADDLE_LOWEST, 462, 15);
    lemma_whole_value(RIGHT_START_X, 680, 14);
    lemma_rounded_measures();
    lemma_pow2_adds(17, 132);
    assert(0xf0_0001 * pow2(132) == 120 * (0x2_0000 * pow2(132)) + pow2(132)) by (nonlinear_arith);
    lemma_whole_value(START_VX, 140, 16);
    lemma_whole_value(START_VY, 60, 18);
    lemma_whole_value(SERVE_VX, 160, 16);
    lemma_whole_value(SERVE_VY, 30, 19);
}

/// The measures that are no whole numbers.
proof fn lemma_rounded_measures()
    ensures
        value(DIAGONAL) == 0xb5_04f3 * pow2(125),
        whole(1) == 0x100_0000 * pow2(125),
        20 * value(LONGEST_FRAME) == whole(1) + 4 * pow2(121),
        1000 * value(SHORTEST_CONTACT) == whole(1) + 408 * pow2(116),
{
    lemma2_to64();
    lemma_pow2_adds(24, 125);
    lemma_pow2_adds(4, 24);
    lemma_pow2_adds(28, 121);
    lemma_pow2_adds(1, 32);
    lemma_pow2_adds(33, 116);
    assert(whole(1) == 0x1000_0000 * pow2(121));
    assert(value(LONGEST_FRAME) == 0xcc_cccd * pow2(121));
    assert(whole(1) == 0x2_0000_0000 * pow2(116));
    assert(value(SHORTEST_CONTACT) == 0x83_126f * pow2(116));
}

/// The steering keys that are held down.
#[derive(Clone, Copy, Debug, PartialEq, Eq, Structural)]
pub struct Keys {
    pub up: bool,
    pub down: bool,
    pub left: bool,
    pub right: bool,
}

/// The pull of two opposite keys: -1, 0 or 1.
pub open spec fn pull(back: bool, forth: bool) -> int {
    (if forth { 1int } else { 0 }) - (if back { 1int } else { 0 })
}

/// One component of a direction of length 1, of which the keys pull `along` the
/// component's axis and `across` it.
pub open spec fn component(along: int, across: int) -> Scalar {
    let length = if across == 0 { ONE } else { DIAGONAL };
    if along == 0 {
        ZERO
    } else if along > 0 {
        length
    } else {
        negated(length)
    }
}

/// The direction the keys steer to: no direction, one of the axes, or a
/// diagonal, whose length is 1 as well.
pub open spec fn direction(keys: Keys) -> (Scalar, Scalar) {
    let dx = pull(keys.left, keys.right);
    let dy = pull(keys.up, keys.down);
    (component(dx, dy), component(dy, dx))
}

fn axis_component(back: bool, forth: bool, diagonal: bool) -> (r: Scalar)
    ensures
        forall|across: int|
            diagonal == (across != 0) ==> r == #[trigger] component(pull(back, forth), across),
{
    let length: Scalar = if diagonal {
        DIAGONAL
    } else {
        ONE
    };
    if back == forth {
        ZERO
    } else if forth {
        length
    } else {
        neg(length)
    }
}

/// The direction, of length 1, that the held keys steer to.
pub fn heading(keys: Keys) -> (r: (Scalar, Scalar))
    ensures
        r == direction(keys),
{
    let sideways: bool = keys.left != keys.right;
    let upright: bool = keys.up != keys.down;
    (
        axis_component(keys.left, keys.right, upright),
        axis_component(keys.up, keys.down, sideways),
    )
}

/// The time that a frame of `elapsed` accounts for.
pub open spec fn accounted(elapsed: Scalar) -> Scalar {
    if less(LONGEST_FRAME, elapsed) {
        LONGEST_FRAME
    } else {
        elapsed
    }
}

/// Whether circles overlap whose centres are this far apart, squared.
pub open spec fn touching(distance_squared: Scalar) -> bool {
    less(distance_squared, CONTACT_SQUARED)
}

/// The distance that a collision reckons with.
pub open spec fn reckoned(distance: Scalar) -> Scalar {
    greater(distance, SHORTEST_CONTACT)
}

/// The time a frame accounts for, when `elapsed` has passed since the last.
pub fn frame_time(elapsed: Scalar) -> (r: Scalar)
    ensures
        r == accounted(elapsed),
        r == (if less(LONGEST_FRAME, elapsed) { LONGEST_FRAME } else { elapsed }),
{
    if lt(LONGEST_FRAME, elapsed) {
        LONGEST_FRAME
    } else {
        elapsed
    }
}

/// Whether puck and paddle overlap, by the square of the distance of their
/// centres.
pub fn in_contact(distance_squared: Scalar) -> (r: bool)
    ensures
        r == touching(distance_squared),
        r == less(distance_squared, CONTACT_SQUARED),
{
    lt(distance_squared, CONTACT_SQUARED)
}

/// The distance by which a collision divides, never below the shortest.
pub fn contact_distance(distance: Scalar) -> (r: Scalar)
    ensures
        r == reckoned(distance),
        r == greater(distance, SHORTEST_CONTACT),
{
    max(distance, SHORTEST_CONTACT)
}

/// A paddle's `x`, kept in the left or in the right half of the rink.
pub open spec fn kept_in_half(x: Scalar, left: bool) -> Scalar {
    if left {
        clamped(x, PADDLE_RADIUS, LEFT_HALF_END)
    } else {
        clamped(x, RIGHT_HALF_START, PADDLE_RIGHTMOST)
    }
}

/// A paddle's `y`, kept between the upper and the lower wall.
pub open spec fn kept_between_walls(y: Scalar) -> Scalar {
    clamped(y, PADDLE_RADIUS, PADDLE_LOWEST)
}

/// Keeps a paddle's `x` in its half.
pub fn keep_in_half(x: Scalar, left: bool) -> (r: Scalar)
    ensures
        r == kept_in_half(x, left),
{
    if left {
        clamp(x, PADDLE_RADIUS, LEFT_HALF_END)
    } else {
        clamp(x, RIGHT_HALF_START, PADDLE_RIGHTMOST)
    }
}

/// Keeps a paddle's `y` between the walls.
pub fn keep_between_walls(y: Scalar) -> (r: Scalar)
    ensures
        r == kept_between_walls(y),
{
    clamp(y, PADDLE_RADIUS, PADDLE_LOWEST)
}

/// Whether the puck's rim is past the upper wall.
pub open spec fn past_top(p: PuckState) -> bool {
    !is_nan(p.y) && value(p.y) - value(PUCK_RADIUS) < 0
}

/// Whether the puck's rim is past the lower wall.
pub open spec fn past_bottom(p: PuckState) -> bool {
    !is_nan(p.y) && value(p.y) + value(PUCK_RADIUS) > value(HEIGHT)
}

/// The puck after the upper and the lower wall: one that is past a wall rests
/// against it, and moves the other way.
pub open spec fn bounced(p: PuckState) -> PuckState {
    if past_top(p) {
        PuckState { y: PUCK_RADIUS, vy: negated(p.vy), ..p }
    } else if past_bottom(p) {
        PuckState { y: PUCK_LOWEST, vy: negated(p.vy), ..p }
    } else {
        p
    }
}

/// Takes the puck off the upper and the lower wall.
pub fn bounce_off_walls(p: PuckState) -> (r: PuckState)
    ensures
        r == bounced(p),
{
    proof {
        rink_measures();
    }
    let mut r: PuckState = p;
    if lt(r.y, PUCK_RADIUS) {
        r.y = PUCK_RADIUS;
        r.vy = neg(r.vy);
    }
    if lt(PUCK_LOWEST, r.y) {
        r.y = PUCK_LOWEST;
        r.vy = neg(r.vy);
    }
    r
}

/// Where the puck is, as the left and the right end of the rink see it.
#[derive(Clone, Copy, Debug, PartialEq, Eq, Structural)]
pub enum Edge {
    Inside,
    LeftWall,
    LeftGoal,
    RightWall,
    RightGoal,
}

/// Whether the puck's rim is past the left end.
pub open spec fn past_left(p: PuckState) -> bool {
    !is_nan(p.x) && value(p.x) - value(PUCK_RADIUS) < 0
}

/// Whether the puck's rim is past the right end.
pub open spec fn past_right(p: PuckState) -> bool {
    !is_nan(p.x) && value(p.x) + value(PUCK_RADIUS) > value(WIDTH)
}

/// Whether the puck's centre is as high as the goals.
pub open spec fn before_goal(p: PuckState) -> bool {
    at_most(GOAL_TOP, p.y) && at_most(p.y, GOAL_BOTTOM)
}

/// The end that the puck has reached, and whether there is a goal there.
pub open spec fn edge_of(p: PuckState) -> Edge {
    if past_left(p) {
        if before_goal(p) {
            Edge::LeftGoal
        } else {
            Edge::LeftWall
        }
    } else if past_right(p) {
        if before_goal(p) {
            Edge::RightGoal
        } else {
            Edge::RightWall
        }
    } else {
        Edge::Inside
    }
}

/// The puck after the ends of the rink: back on the rink off a wall, moving the
/// other way; served from the centre after a goal, to the side that scored.
pub open spec fn settled(p: PuckState) -> PuckState {
    match edge_of(p) {
        Edge::Inside => p,
        Edge::LeftWall => PuckState { x: PUCK_RADIUS, vx: negated(p.vx), ..p },
        Edge::RightWall => PuckState { x: PUCK_RIGHTMOST, vx: negated(p.vx), ..p },
        Edge::LeftGoal => PuckState { x: CENTRE_X, y: CENTRE_Y, vx: SERVE_VX, vy: SERVE_VY },
        Edge::RightGoal => PuckState {
            x: CENTRE_X,
            y: CENTRE_Y,
            vx: negated(SERVE_VX),
            vy: negated(SERVE_VY),
        },
    }
}

/// Takes the puck off the ends of the rink, and says what it met there.
pub fn settle_at_ends(p: PuckState) -> (r: (PuckState, Edge))
    ensures
        r.0 == settled(p),
        r.1 == edge_of(p),
{
    proof {
        rink_measures();
    }
    let goal: bool = le(GOAL_TOP, p.y) && le(p.y, GOAL_BOTTOM);
    if lt(p.x, PUCK_RADIUS) {
        if goal {
            (PuckState { x: CENTRE_X, y: CENTRE_Y, vx: SERVE_VX, vy: SERVE_VY }, Edge::LeftGoal)
        } else {
            (PuckState { x: PUCK_RADIUS, vx: neg(p.vx), ..p }, Edge::LeftWall)
        }
    } else if lt(PUCK_RIGHTMOST, p.x) {
        if goal {
            (
                PuckState { x: CENTRE_X, y: CENTRE_Y, vx: neg(SERVE_VX), vy: neg(SERVE_VY) },
                Edge::RightGoal,
            )
        } else {
            (PuckState { x: PUCK_RIGHTMOST, vx: neg(p.vx), ..p }, Edge::RightWall)
        }
    } else {
        (p, Edge::Inside)
    }
}

/// The paddle of the left player at the start of a match.
pub open spec fn left_start() -> PaddleState {
    PaddleState { x: LEFT_START_X, y: CENTRE_Y }
}

/// The paddle of the right player at the start of a match.
pub open spec fn right_start() -> PaddleState {
    PaddleState { x: RIGHT_START_X, y: CENTRE_Y }
}

/// The puck at the start of a match.
pub open spec fn puck_start() -> PuckState {
    PuckState { x: CENTRE_X, y: CENTRE_Y, vx: START_VX, vy: START_VY }
}

/// Where the left player's paddle starts.
pub fn start_left() -> (r: PaddleState)
    ensures
        r == left_start(),
{
    PaddleState { x: LEFT_START_X, y: CENTRE_Y }
}

/// Where the right player's paddle starts.
pub fn start_right() -> (r: PaddleState)
    ensures
        r == right_start(),
{
    PaddleState { x: RIGHT_START_X, y: CENTRE_Y }
}

/// Where the puck starts, and how fast.
pub fn start_puck() -> (r: PuckState)
    ensures
        r == puck_start(),
{
    PuckState { x: CENTRE_X, y: CENTRE_Y, vx: START_VX, vy: START_VY }
}

/// A puck whose `y` is a number is between the upper and the lower wall once
/// it has come off them, and its speed is what it was but for the sign of `vy`.
pub proof fn bounced_puck_is_between_walls(p: PuckState)
    ensures
        !is_nan(p.y) ==> at_most(PUCK_RADIUS, bounced(p).y) && at_most(bounced(p).y, PUCK_LOWEST),
        bounced(p).x == p.x,
        bounced(p).vx == p.vx,
        bounced(p).vy == p.vy || bounced(p).vy == negated(p.vy),
        bounced(bounced(p)) == bounced(p),
{
    rink_measures();
}

/// A puck whose `x` is a number is between the ends of the rink once it has
/// come off them, and stays there when they are looked at again.
pub proof fn settled_puck_is_between_ends(p: PuckState)
    ensures
        !is_nan(p.x) ==> at_most(PUCK_RADIUS, settled(p).x) && at_most(
            settled(p).x,
            PUCK_RIGHTMOST,
        ),
        edge_of(settled(p)) is Inside,
        settled(settled(p)) == settled(p),
{
    rink_measures();
}

/// A paddle kept in its half is between the outer wall and the centre line with
/// its whole width, so the paddles of two halves cannot overlap.
pub proof fn kept_paddle_is_in_its_half(x: Scalar, y: Scalar)
    ensures
        at_most(PADDLE_RADIUS, kept_in_half(x, true)),
        value(kept_in_half(x, true)) + value(PADDLE_RADIUS) <= value(CENTRE_X),
        value(CENTRE_X) <= value(kept_in_half(y, false)) - value(PADDLE_RADIUS),
        at_most(kept_in_half(y, false), PADDLE_RIGHTMOST),
        value(kept_in_half(y, false)) - value(kept_in_half(x, true)) >= 2 * value(PADDLE_RADIUS),
{
    rink_measures();
    clamp_lands_within(x, PADDLE_RADIUS, LEFT_HALF_END);
    clamp_lands_within(y, RIGHT_HALF_START, PADDLE_RIGHTMOST);
}

/// A paddle kept between the walls is there with its whole height.
pub proof fn kept_paddle_is_between_walls(y: Scalar)
    ensures
        at_most(PADDLE_RADIUS, kept_between_walls(y)),
        value(kept_between_walls(y)) + value(PADDLE_RADIUS) <= value(HEIGHT),
{
    rink_measures();
    clamp_lands_within(y, PADDLE_RADIUS, PADDLE_LOWEST);
}

/// How far a component of a direction reaches, in steps of which 1 is 2^24.
pub open spec fn reach(along: int, across: int) -> int {
    along * (if across == 0 {
        0x100_0000int
    } else {
        0xb5_04f3
    })
}

/// A direction has length 1: along an axis exactly, and along a diagonal as
/// nearly as its components, which are equal, allow without exceeding it. There
/// is no direction where the keys pull nowhere.
pub proof fn directions_have_length_one(keys: Keys)
    ensures
        ({
            let dx = pull(keys.left, keys.right);
            let dy = pull(keys.up, keys.down);
            let x = reach(dx, dy);
            let y = reach(dy, dx);
            let one = 0x100_0000int * 0x100_0000;
            &&& value(direction(keys).0) == x * pow2(125)
            &&& value(direction(keys).1) == y * pow2(125)
            &&& whole(1) == 0x100_0000 * pow2(125)
            &&& dx == 0 && dy == 0 ==> x == 0 && y == 0
            &&& (dx == 0) != (dy == 0) ==> x * x + y * y == one
            &&& dx != 0 && dy != 0 ==> {
                &&& x * dx == y * dy
                &&& x * x + y * y <= one
                &&& (x + dx) * (x + dx) + (y + dy) * (y + dy) > one
            }
        }),
{
    rink_measures();
    let dx = pull(keys.left, keys.right);
    let dy = pull(keys.up, keys.down);
    lemma_reach(dx, dy);
    lemma_reach(dy, dx);
}

proof fn lemma_reach(along: int, across: int)
    requires
        -1 <= along <= 1,
    ensures
        ({
            let r = reach(along, across);
            &&& value(component(along, across)) == r * pow2(125)
            &&& along == 0 ==> r == 0
            &&& along != 0 && across == 0 ==> r * r == 0x100_0000int * 0x100_0000
            &&& along != 0 && across != 0 ==> {
                &&& r * along == 0xb5_04f3
                &&& r * r == 0xb5_04f3int * 0xb5_04f3
                &&& (r + along) * (r + along) == 0xb5_04f4int * 0xb5_04f4
            }
        }),
{
    rink_measures();
    let r = reach(along, across);
    let n = if across == 0 {
        0x100_0000int
    } else {
        0xb5_04f3
    };
    if along == 0 {
        assert(r == 0);
    } else if along == 1 {
        assert(r == n);
    } else {
        assert(r == -n);
        assert((-n) * pow2(125) == -(n * pow2(125))) by (nonlinear_arith);
        assert((-n) * (-n) == n * n) by (nonlinear_arith);
        assert((-n - 1) * (-n - 1) == (n + 1) * (n + 1)) by (nonlinear_arith);
    }
}

/// Opposite keys cancel, and swapping each key for its opposite turns the
/// direction round.
pub proof fn opposite_keys_steer_the_other_way(keys: Keys)
    ensures
        keys.left == keys.right ==> direction(keys).0 == ZERO,
        keys.up == keys.down ==> direction(keys).1 == ZERO,
        ({
            let other = Keys {
                up: keys.down,
                down: keys.up,
                left: keys.right,
                right: keys.left,
            };
            &&& value(direction(other).0) == -value(direction(keys).0)
            &&& value(direction(other).1) == -value(direction(keys).1)
        }),
{
}

/// Each key steers its own way: right is more `x`, down is more `y`, the others
/// less, and a key against its opposite steers nowhere. Along one axis the
/// direction reaches 1, along both a little more than seven tenths each.
pub proof fn keys_steer_their_way(keys: Keys)
    ensures
        ({
            let (x, y) = direction(keys);
            let sideways = keys.left != keys.right;
            let upright = keys.up != keys.down;
            let full = if sideways && upright {
                0xb5_04f3int * pow2(125)
            } else {
                whole(1)
            };
            &&& !is_nan(x) && !is_nan(y)
            &&& !sideways ==> x == 0
            &&& !upright ==> y == 0
            &&& keys.right && !keys.left ==> value(x) == full
            &&& keys.left && !keys.right ==> value(x) == -full
            &&& keys.down && !keys.up ==> value(y) == full
            &&& keys.up && !keys.down ==> value(y) == -full
            &&& full > 0
        }),
{
    rink_measures();
    lemma_pow2_pos(125);
    let full = value(DIAGONAL);
    assert(full > 0);
}

/// Mirroring the keys of one axis mirrors the direction along it, and leaves
/// the other axis as it was.
pub proof fn axes_steer_on_their_own(keys: Keys)
    ensures
        ({
            let mirrored = Keys { left: keys.right, right: keys.left, ..keys };
            &&& value(direction(mirrored).0) == -value(direction(keys).0)
            &&& direction(mirrored).1 == direction(keys).1
        }),
        ({
            let turned = Keys { up: keys.down, down: keys.up, ..keys };
            &&& value(direction(turned).1) == -value(direction(keys).1)
            &&& direction(turned).0 == direction(keys).0
        }),
        ({
            let swapped = Keys {
                left: keys.up,
                up: keys.left,
                right: keys.down,
                down: keys.right,
            };
            direction(swapped) == (direction(keys).1, direction(keys).0)
        }),
{
}

/// A frame of up to a twentieth of a second, rounded, counts as it is, a longer
/// one as that long.
pub proof fn frames_are_cut(elapsed: Scalar)
    ensures
        is_nan(elapsed) ==> accounted(elapsed) == elapsed,
        !is_nan(elapsed) && 20 * value(elapsed) <= whole(1) + 4 * pow2(121) ==> accounted(elapsed)
            == elapsed,
        !is_nan(elapsed) && 20 * value(elapsed) > whole(1) + 4 * pow2(121) ==> !is_nan(
            accounted(elapsed),
        ) && 20 * value(accounted(elapsed)) == whole(1) + 4 * pow2(121),
{
    rink_measures();
}

/// Circles touch where the square of the distance is below 900, and the
/// distance counts as it is down to a thousandth, rounded.
pub proof fn contact_has_its_measures(d: Scalar)
    ensures
        touching(d) == (!is_nan(d) && value(d) < 900 * whole(1)),
        !is_nan(d) && 1000 * value(d) >= whole(1) + 408 * pow2(116) ==> reckoned(d) == d,
        is_nan(d) || 1000 * value(d) < whole(1) + 408 * pow2(116) ==> !is_nan(reckoned(d)) && 1000
            * value(reckoned(d)) == whole(1) + 408 * pow2(116),
        !is_nan(reckoned(d)) && value(reckoned(d)) > 0,
{
    rink_measures();
    lemma_pow2_pos(116);
}

/// A puck whose rim is past the upper or the lower wall rests against that wall
/// and moves the other way, whichever way it moved; any other puck is let be.
pub proof fn walls_turn_the_puck(p: PuckState)
    ensures
        ({
            let r = bounced(p);
            let above = !is_nan(p.y) && value(p.y) < 12 * whole(1);
            let below = !is_nan(p.y) && value(p.y) > 468 * whole(1);
            &&& r.x == p.x && r.vx == p.vx
            &&& above ==> !is_nan(r.y) && value(r.y) == 12 * whole(1)
            &&& below ==> !is_nan(r.y) && value(r.y) == 468 * whole(1)
            &&& above || below ==> {
                &&& value(r.vy) == -value(p.vy)
                &&& is_nan(r.vy) == is_nan(p.vy)
                &&& r.vy - p.vy == 0x8000_0000 || p.vy - r.vy == 0x8000_0000
            }
            &&& !above && !below ==> r == p
        }),
{
    rink_measures();
    negation_flips_the_sign(p.vy);
}

/// What the puck meets at the ends of the rink is a matter of where it is: past
/// the end, a goal between 160 and 320 and a wall above and below.
pub proof fn ends_go_by_position(p: PuckState)
    ensures
        ({
            let left = !is_nan(p.x) && value(p.x) < 12 * whole(1);
            let right = !is_nan(p.x) && value(p.x) > 788 * whole(1);
            let goal = !is_nan(p.y) && 160 * whole(1) <= value(p.y) <= 320 * whole(1);
            &&& (edge_of(p) == Edge::LeftGoal) == (left && goal)
            &&& (edge_of(p) == Edge::LeftWall) == (left && !goal)
            &&& (edge_of(p) == Edge::RightGoal) == (right && goal)
            &&& (edge_of(p) == Edge::RightWall) == (right && !goal)
            &&& (edge_of(p) == Edge::Inside) == (!left && !right)
        }),
{
    rink_measures();
}

/// A puck past an end where there is a wall rests against it at its height and
/// moves the other way along the rink; in a goal, it is served from the centre,
/// to the right after the left goal and to the left after the right one; any
/// other puck is let be.
pub proof fn ends_turn_or_serve_the_puck(p: PuckState)
    ensures
        ({
            let r = settled(p);
            let left = !is_nan(p.x) && value(p.x) < 12 * whole(1);
            let right = !is_nan(p.x) && value(p.x) > 788 * whole(1);
            let goal = !is_nan(p.y) && 160 * whole(1) <= value(p.y) <= 320 * whole(1);
            &&& (left || right) && !goal ==> {
                &&& !is_nan(r.x)
                &&& value(r.x) == (if left {
                    12 * whole(1)
                } else {
                    788 * whole(1)
                })
                &&& r.y == p.y && r.vy == p.vy
                &&& value(r.vx) == -value(p.vx)
                &&& is_nan(r.vx) == is_nan(p.vx)
                &&& r.vx - p.vx == 0x8000_0000 || p.vx - r.vx == 0x8000_0000
            }
            &&& (left || right) && goal ==> {
                &&& !is_nan(r.x) && value(r.x) == 400 * whole(1)
                &&& !is_nan(r.y) && value(r.y) == 240 * whole(1)
                &&& !is_nan(r.vx) && !is_nan(r.vy)
                &&& left ==> value(r.vx) == 160 * whole(1) && value(r.vy) == 30 * whole(1)
                &&& right ==> value(r.vx) == -160 * whole(1) && value(r.vy) == -30 * whole(1)
            }
            &&& !left && !right ==> r == p
        }),
{
    rink_measures();
    negation_flips_the_sign(p.vx);
    negation_flips_the_sign(SERVE_VX);
    negation_flips_the_sign(SERVE_VY);
}

/// Two pucks in one place meet the same end and come to the same place,
/// whatever their velocities; after a goal, they are served alike.
pub proof fn velocity_scores_no_goals(p: PuckState, q: PuckState)
    requires
        p.x == q.x,
        p.y == q.y,
    ensures
        edge_of(p) == edge_of(q),
        settled(p).x == settled(q).x,
        settled(p).y == settled(q).y,
        edge_of(p) == Edge::LeftGoal || edge_of(p) == Edge::RightGoal ==> settled(p) == settled(q),
{
}

/// A paddle within its bounds is let be; one outside them stops at the bound
/// it is past, and what is not a number stops at the upper one.
pub proof fn paddles_stop_at_their_bounds(v: Scalar)
    ensures
        ({
            let r = kept_in_half(v, true);
            &&& !is_nan(r)
            &&& !is_nan(v) && 18 * whole(1) <= value(v) <= 382 * whole(1) ==> r == v
            &&& !is_nan(v) && value(v) < 18 * whole(1) ==> value(r) == 18 * whole(1)
            &&& is_nan(v) || value(v) > 382 * whole(1) ==> value(r) == 382 * whole(1)
        }),
        ({
            let r = kept_in_half(v, false);
            &&& !is_nan(r)
            &&& !is_nan(v) && 418 * whole(1) <= value(v) <= 782 * whole(1) ==> r == v
            &&& !is_nan(v) && value(v) < 418 * whole(1) ==> value(r) == 418 * whole(1)
            &&& is_nan(v) || value(v) > 782 * whole(1) ==> value(r) == 782 * whole(1)
        }),
        ({
            let r = kept_between_walls(v);
            &&& !is_nan(r)
            &&& !is_nan(v) && 18 * whole(1) <= value(v) <= 462 * whole(1) ==> r == v
            &&& !is_nan(v) && value(v) < 18 * whole(1) ==> value(r) == 18 * whole(1)
            &&& is_nan(v) || value(v) > 462 * whole(1) ==> value(r) == 462 * whole(1)
        }),
{
    rink_measures();
}

/// The paddles start at mid height, 120 and 680 from the left but for a
/// rounding, and the puck in the centre at (140, 60).
pub proof fn matches_start_in_place()
    ensures
        value(left_start().x) == 120 * whole(1) + pow2(132),
        value(left_start().y) == 240 * whole(1),
        value(right_start().x) == 680 * whole(1),
        value(right_start().y) == 240 * whole(1),
        value(puck_start().x) == 400 * whole(1),
        value(puck_start().y) == 240 * whole(1),
        value(puck_start().vx) == 140 * whole(1),
        value(puck_start().vy) == 60 * whole(1),
{
    rink_measures();
}

} // verus!
