//! Window-space points and the fixed settings of a session.
use vstd::prelude::*;

verus! {

/// A point in window space, in whole pixels, y growing downwards.
#[derive(Clone, Copy, Debug, PartialEq, Eq, Structural)]
pub struct Point {
    pub x: i32,
    pub y: i32,
}

/// The offset from the pointer to the launch point; the arrow's aim angle is
/// `atan2(dy, dx)`.
#[derive(Clone, Copy, Debug, PartialEq, Eq, Structural)]
pub struct AimDelta {
    pub dx: i64,
    pub dy: i64,
}

/// Settings that stay fixed for a whole session.
#[derive(Clone, Copy, Debug, PartialEq, Eq, Structural)]
pub struct Config {
    pub window_width: i32,
    pub window_height: i32,
    /// Where the arrow starts, and the height of the ground line.
    pub launch: Point,
}

pub const WINDOW_WIDTH: i32 = 640;

pub const WINDOW_HEIGHT: i32 = 480;

pub const LAUNCH_X: i32 = 100;

/// The launch point stands this far above the bottom of the window.
pub const LAUNCH_HEIGHT: i32 = 120;

impl Config {
    /// The pointer aims the arrow only while it is strictly left of the launch
    /// point; elsewhere the previous aim is kept.
    pub open spec fn aims_from(&self, p: Point) -> bool {
        p.x < self.launch.x
    }

    /// The offset from `p` to the launch point.
    pub open spec fn delta_from(&self, p: Point) -> AimDelta {
        AimDelta { dx: (self.launch.x - p.x) as i64, dy: (self.launch.y - p.y) as i64 }
    }

    /// A 640 by 480 window with the launch point 100 pixels from the left and
    /// 120 pixels above the bottom.
    pub fn standard() -> (c: Config)
        ensures
            c.window_width == WINDOW_WIDTH,
            c.window_height == WINDOW_HEIGHT,
            c.launch.x == LAUNCH_X,
            c.launch.y == WINDOW_HEIGHT - LAUNCH_HEIGHT,
    {
        Config {
            window_width: WINDOW_WIDTH,
            window_height: WINDOW_HEIGHT,
            launch: Point { x: LAUNCH_X, y: WINDOW_HEIGHT - LAUNCH_HEIGHT },
        }
    }

    /// Whether the pointer at `p` lies in the region that aims the arrow.
    pub fn is_aim_region(&self, p: Point) -> (r: bool)
        ensures
            r == self.aims_from(p),
    {
        p.x < self.launch.x
    }

    /// The offset from the pointer at `p` to the launch point.
    pub fn aim_delta(&self, p: Point) -> (d: AimDelta)
        ensures
            d == self.delta_from(p),
    {
        AimDelta { dx: self.launch.x as i64 - p.x as i64, dy: self.launch.y as i64 - p.y as i64 }
    }
}

} // verus!
