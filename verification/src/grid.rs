//! Grid part of the launch geometry: how many blocks run, per axis.

use vstd::prelude::*;

verus! {

/// Size of a kernel launch's grid, in blocks per axis.
///
/// Each axis must be at least 1 for a launch to be accepted; the value is not
/// checked at construction, the driver surfaces a violation as an error at
/// launch time.
#[derive(Clone, Copy, Debug, PartialEq, Eq, Structural)]
pub struct Grid {
    pub x: u32,
    pub y: u32,
    pub z: u32,
}

impl Grid {
    /// True of a geometry the driver accepts: every axis is positive.
    pub open spec fn wf(&self) -> bool {
        self.x >= 1 && self.y >= 1 && self.z >= 1
    }

    /// Grid of the given extent on every axis.
    pub fn new(x: u32, y: u32, z: u32) -> (g: Grid)
        ensures
            g == (Grid { x, y, z }),
    {
        Grid { x, y, z }
    }
}

/// Shorthand for a one-dimensional grid.
impl From<u32> for Grid {
    fn from(x: u32) -> (g: Grid) {
        Grid { x, y: 1, z: 1 }
    }
}

impl vstd::std_specs::convert::FromSpecImpl<u32> for Grid {
    open spec fn obeys_from_spec() -> bool {
        true
    }

    open spec fn from_spec(x: u32) -> Grid {
        Grid { x, y: 1, z: 1 }
    }
}

/// Shorthand for a two-dimensional grid.
impl From<(u32, u32)> for Grid {
    fn from(xy: (u32, u32)) -> (g: Grid) {
        Grid { x: xy.0, y: xy.1, z: 1 }
    }
}

impl vstd::std_specs::convert::FromSpecImpl<(u32, u32)> for Grid {
    open spec fn obeys_from_spec() -> bool {
        true
    }

    open spec fn from_spec(xy: (u32, u32)) -> Grid {
        Grid { x: xy.0, y: xy.1, z: 1 }
    }
}

/// A three-axis tuple, taken as it stands.
impl From<(u32, u32, u32)> for Grid {
    fn from(xyz: (u32, u32, u32)) -> (g: Grid) {
        Grid { x: xyz.0, y: xyz.1, z: xyz.2 }
    }
}

impl vstd::std_specs::convert::FromSpecImpl<(u32, u32, u32)> for Grid {
    open spec fn obeys_from_spec() -> bool {
        true
    }

    open spec fn from_spec(xyz: (u32, u32, u32)) -> Grid {
        Grid { x: xyz.0, y: xyz.1, z: xyz.2 }
    }
}

} // verus!
