use vstd::prelude::*;

use crate::config::Config;

verus! {

/// A swipe direction.
#[derive(Debug, Clone, Copy, PartialEq, Eq, Structural)]
pub enum SwipeDirection {
    Left,
    Right,
    Up,
    Down,
}

/// The word that names a direction when it is handed to a handler script.
pub open spec fn arg_word(d: SwipeDirection) -> Seq<char> {
    match d {
        SwipeDirection::Left => "left"@,
        SwipeDirection::Right => "right"@,
        SwipeDirection::Up => "up"@,
        SwipeDirection::Down => "down"@,
    }
}

pub open spec fn abs(v: int) -> int {
    if v < 0 { -v } else { v }
}

/// Smallest magnitude on either axis that [`SwipeDirection::from_deltas`]
/// takes as movement at all.
pub const MIN_DELTA: i64 = 1_000;

/// Direction of a raw pair of deltas: the larger axis wins, ties go to the
/// horizontal axis, and a pair with both magnitudes under [`MIN_DELTA`] is no
/// movement. A positive vertical delta points down.
pub open spec fn direction_of_deltas(dx: int, dy: int) -> Option<SwipeDirection> {
    if abs(dx) < MIN_DELTA && abs(dy) < MIN_DELTA {
        None
    } else if abs(dx) >= abs(dy) {
        if dx > 0 { Some(SwipeDirection::Right) } else { Some(SwipeDirection::Left) }
    } else {
        if dy > 0 { Some(SwipeDirection::Down) } else { Some(SwipeDirection::Up) }
    }
}

fn abs_wide(v: i64) -> (r: i128)
    ensures
        r == abs(v as int),
{
    if v < 0 { -(v as i128) } else { v as i128 }
}

/// Direction of a finished gesture whose fingers moved `dx` and `dy` in total,
/// averaged over `n` fingers. The average `dx / n` is compared with each
/// threshold by multiplying the threshold by `n` instead, so no precision is
/// lost. The larger axis is examined, ties going to the horizontal one; a
/// displacement under that axis' threshold gives no direction, whatever the
/// other axis holds. A negative vertical displacement points up.
pub open spec fn direction_of(dx: int, dy: int, n: int, config: Config) -> Option<SwipeDirection> {
    if abs(dx) >= abs(dy) {
        if dx > 0 && dx >= config.right * n {
            Some(SwipeDirection::Right)
        } else if dx < 0 && -dx >= config.left * n {
            Some(SwipeDirection::Left)
        } else {
            None
        }
    } else {
        if dy < 0 && -dy >= config.up * n {
            Some(SwipeDirection::Up)
        } else if dy > 0 && dy >= config.down * n {
            Some(SwipeDirection::Down)
        } else {
            None
        }
    }
}

/// `threshold * n`, exactly.
fn scaled(threshold: i64, n: u64) -> (r: i128)
    ensures
        r == threshold as int * n as int,
{
    proof {
        let t = threshold as int;
        let m = n as int;
        assert(-0x8000_0000_0000_0000 * 0xffff_ffff_ffff_ffff <= t * m
            <= 0x7fff_ffff_ffff_ffff * 0xffff_ffff_ffff_ffff) by (nonlinear_arith)
            requires
                -0x8000_0000_0000_0000 <= t <= 0x7fff_ffff_ffff_ffff,
                0 <= m <= 0xffff_ffff_ffff_ffff,
        ;
    }
    (threshold as i128) * (n as i128)
}

/// Classifies a finished gesture: `total_dx` and `total_dy` are the summed
/// displacement of its fingers, `fingers` the count they are averaged over.
pub fn classify(total_dx: i64, total_dy: i64, fingers: u64, config: &Config) -> (r: Option<SwipeDirection>)
    ensures
        r == direction_of(total_dx as int, total_dy as int, fingers as int, *config),
{
    let ax = abs_wide(total_dx);
    let ay = abs_wide(total_dy);
    let dx = total_dx as i128;
    let dy = total_dy as i128;
    if ax >= ay {
        if dx > 0 && dx >= scaled(config.right, fingers) {
            Some(SwipeDirection::Right)
        } else if dx < 0 && -dx >= scaled(config.left, fingers) {
            Some(SwipeDirection::Left)
        } else {
            None
        }
    } else {
        if dy < 0 && -dy >= scaled(config.up, fingers) {
            Some(SwipeDirection::Up)
        } else if dy > 0 && dy >= scaled(config.down, fingers) {
            Some(SwipeDirection::Down)
        } else {
            None
        }
    }
}

impl SwipeDirection {
    /// The direction as the argument word given to a handler script.
    pub fn as_arg(&self) -> (r: &'static str)
        ensures
            r@ == arg_word(*self),
    {
        proof {
            reveal_strlit("left");
            reveal_strlit("right");
            reveal_strlit("up");
            reveal_strlit("down");
        }
        match self {
            SwipeDirection::Left => "left",
            SwipeDirection::Right => "right",
            SwipeDirection::Up => "up",
            SwipeDirection::Down => "down",
        }
    }

    /// Direction of a pair of deltas, in units of [`crate::config::SCALE`].
    pub fn from_deltas(delta_x: i64, delta_y: i64) -> (r: Option<Self>)
        ensures
            r == direction_of_deltas(delta_x as int, delta_y as int),
    {
        let ax = abs_wide(delta_x);
        let ay = abs_wide(delta_y);
        if ax < MIN_DELTA as i128 && ay < MIN_DELTA as i128 {
            return None;
        }
        if ax >= ay {
            if delta_x > 0 {
                Some(SwipeDirection::Right)
            } else {
                Some(SwipeDirection::Left)
            }
        } else {
            if delta_y > 0 {
                Some(SwipeDirection::Down)
            } else {
                Some(SwipeDirection::Up)
            }
        }
    }
}

} // verus!
