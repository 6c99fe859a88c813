//! The rule that tells a horizontal swipe from any other gesture, and the
//! feedback that a swipe is answered with.

use vstd::prelude::*;

verus! {

/// A swipe moves further than this many pixels along the x axis.
pub const SWIPE_MIN_DX: i64 = 60;

/// A swipe stays within fewer than this many pixels along the y axis.
pub const SWIPE_MAX_DY: i64 = 50;

/// How long the device vibrates in answer to a swipe.
pub const VIBRATION_DURATION: i64 = 250;

/// The distance of `v` from zero.
pub open spec fn magnitude(v: int) -> int {
    if v < 0 {
        -v
    } else {
        v
    }
}

/// Whether the displacement `(dx, dy)` is a horizontal swipe: more than
/// `SWIPE_MIN_DX` pixels sideways, in either direction, and fewer than
/// `SWIPE_MAX_DY` pixels up or down.
pub open spec fn horizontal_swipe(dx: int, dy: int) -> bool {
    magnitude(dx) > SWIPE_MIN_DX && magnitude(dy) < SWIPE_MAX_DY
}

/// Decides whether the displacement `(dx, dy)` is a horizontal swipe.
pub fn is_horizontal_swipe(dx: i64, dy: i64) -> (swipe: bool)
    ensures
        swipe == horizontal_swipe(dx as int, dy as int),
{
    (dx > SWIPE_MIN_DX || dx < -SWIPE_MIN_DX) && (dy < SWIPE_MAX_DY && dy > -SWIPE_MAX_DY)
}

/// The vibration that answers the displacement `(dx, dy)`: one of
/// `VIBRATION_DURATION` for a horizontal swipe, none for anything else.
pub fn vibration_for(dx: i64, dy: i64) -> (duration: Option<i64>)
    ensures
        duration == if horizontal_swipe(dx as int, dy as int) {
            Some(VIBRATION_DURATION)
        } else {
            None
        },
{
    if is_horizontal_swipe(dx, dy) {
        Some(VIBRATION_DURATION)
    } else {
        None
    }
}

} // verus!
