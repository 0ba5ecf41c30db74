//! Bringing the pointer to a point of the screen by relative movements.
//!
//! The emulated mouse moves by at most 127 in each direction at a time. To
//! reach a point, the caller reads where the pointer is, asks for the next
//! movement, sends it, waits a moment and asks again, until no movement is
//! left or the time is up.

use vstd::prelude::*;

verus! {

/// How long, in milliseconds, the pointer is given to reach its target.
pub const ABSOLUTE_MOVE_TIMEOUT_MS: u64 = 3000;

/// How long, in milliseconds, to wait between two movements.
pub const ABSOLUTE_MOVE_INTERVAL_MS: u64 = 8;

/// The greatest movement in one direction that one report carries.
pub const MAX_STEP: i8 = 127;

/// How far from the target, in each direction, the pointer may come to rest.
pub const TOLERANCE: i32 = 1;

/// `value`, or the bound that it lies beyond.
pub open spec fn clamped(value: int, low: int, high: int) -> int {
    if value < low {
        low
    } else if value > high {
        high
    } else {
        value
    }
}

/// Whether the pointer at `current` has arrived at `target`: it is off by
/// at most the tolerance in each direction.
pub open spec fn arrived(target: (i32, i32), current: (i32, i32)) -> bool {
    &&& -TOLERANCE <= target.0 - current.0 <= TOLERANCE
    &&& -TOLERANCE <= target.1 - current.1 <= TOLERANCE
}

/// The movement that brings the pointer from `current` towards `target`:
/// the whole way in each direction, or as far as one report carries.
pub open spec fn step(target: (i32, i32), current: (i32, i32)) -> (i8, i8) {
    (
        clamped(target.0 - current.0, -MAX_STEP, MAX_STEP as int) as i8,
        clamped(target.1 - current.1, -MAX_STEP, MAX_STEP as int) as i8,
    )
}

/// The point of a screen of `width` by `height` that is nearest to `(x, y)`.
pub fn screen_target(x: i32, y: i32, width: i32, height: i32) -> (r: (i32, i32))
    requires
        width >= 1,
        height >= 1,
    ensures
        r.0 == clamped(x as int, 0, width - 1),
        r.1 == clamped(y as int, 0, height - 1),
{
    (clamp(x, 0, width - 1), clamp(y, 0, height - 1))
}

/// `value`, or the bound that it lies beyond.
pub fn clamp(value: i32, low: i32, high: i32) -> (r: i32)
    requires
        low <= high,
    ensures
        r == clamped(value as int, low as int, high as int),
{
    if value < low {
        low
    } else if value > high {
        high
    } else {
        value
    }
}

/// The next movement of the pointer at `current` on its way to `target`;
/// `None` when it has arrived.
pub fn step_toward(target: (i32, i32), current: (i32, i32)) -> (r: Option<(i8, i8)>)
    ensures
        r == (if arrived(target, current) {
            None
        } else {
            Some(step(target, current))
        }),
{
    let dx: i64 = target.0 as i64 - current.0 as i64;
    let dy: i64 = target.1 as i64 - current.1 as i64;
    if -1 <= dx && dx <= 1 && -1 <= dy && dy <= 1 {
        None
    } else {
        Some((one_step(dx), one_step(dy)))
    }
}

/// As much of the distance `distance` as one report carries.
pub fn one_step(distance: i64) -> (r: i8)
    ensures
        r == clamped(distance as int, -MAX_STEP, MAX_STEP as int),
{
    if distance < -127 {
        -127
    } else if distance > 127 {
        127
    } else {
        distance as i8
    }
}

/// Whether the time is up after `elapsed_ms` milliseconds.
pub fn timed_out(elapsed_ms: u64) -> (r: bool)
    ensures
        r == (elapsed_ms > ABSOLUTE_MOVE_TIMEOUT_MS),
{
    elapsed_ms > ABSOLUTE_MOVE_TIMEOUT_MS
}

/// A movement never overshoots: after it the pointer is no farther from the
/// target in either direction, and where it has not arrived it has come nearer
/// in one.
pub proof fn lemma_step_approaches(target: (i32, i32), current: (i32, i32))
    requires
        !arrived(target, current),
    ensures
        ({
            let (dx, dy) = step(target, current);
            let before_x = target.0 - current.0;
            let before_y = target.1 - current.1;
            let after_x = before_x - dx;
            let after_y = before_y - dy;
            &&& (before_x >= 0 ==> 0 <= after_x <= before_x)
            &&& (before_x <= 0 ==> before_x <= after_x <= 0)
            &&& (before_y >= 0 ==> 0 <= after_y <= before_y)
            &&& (before_y <= 0 ==> before_y <= after_y <= 0)
            &&& (after_x != before_x || after_y != before_y)
        }),
{
}

} // verus!
