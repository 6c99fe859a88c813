//! Touch samples as the host delivers them, in whole pixels of the surface.

use vstd::prelude::*;

verus! {

/// The stage of one continuous contact that a sample belongs to.
#[derive(Clone, Copy, Debug, PartialEq, Eq, Structural)]
pub enum TouchPhase {
    /// A finger came down.
    Started,
    /// The finger moved while down.
    Moved,
    /// The finger was lifted.
    Ended,
    /// The host took the contact away.
    Cancelled,
}

/// A position on the surface.
#[derive(Clone, Copy, Debug, PartialEq, Eq, Structural)]
pub struct TouchPoint {
    pub x: i32,
    pub y: i32,
}

/// One touch sample: where the contact is, and at which stage.
#[derive(Clone, Copy, Debug, PartialEq, Eq, Structural)]
pub struct Touch {
    pub phase: TouchPhase,
    pub location: TouchPoint,
}

/// The displacement of a completed gesture, from where it started to where
/// it ended.
#[derive(Clone, Copy, Debug, PartialEq, Eq, Structural)]
pub struct SwipeDelta {
    pub dx: i64,
    pub dy: i64,
}

impl TouchPoint {
    /// The point that a gesture is measured from when no start was recorded.
    pub open spec fn origin() -> TouchPoint {
        TouchPoint { x: 0, y: 0 }
    }

    /// The point at `x` pixels across and `y` pixels down.
    pub fn new(x: i32, y: i32) -> (p: TouchPoint)
        ensures
            p == (TouchPoint { x, y }),
    {
        TouchPoint { x, y }
    }
}

impl SwipeDelta {
    /// The displacement from `start` to `end`, coordinate by coordinate.
    pub open spec fn spanning(start: TouchPoint, end: TouchPoint) -> SwipeDelta {
        SwipeDelta { dx: (end.x - start.x) as i64, dy: (end.y - start.y) as i64 }
    }

    /// Computes the displacement from `start` to `end`. The difference of
    /// two `i32` coordinates always fits the `i64` it is returned in.
    pub fn between(start: TouchPoint, end: TouchPoint) -> (d: SwipeDelta)
        ensures
            d == SwipeDelta::spanning(start, end),
            d.dx == end.x - start.x,
            d.dy == end.y - start.y,
    {
        SwipeDelta { dx: end.x as i64 - start.x as i64, dy: end.y as i64 - start.y as i64 }
    }
}

} // verus!
