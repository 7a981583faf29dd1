//! Block part of the launch geometry: how many threads run per block, per
//! axis.

use vstd::prelude::*;

verus! {

/// Size of one block of a kernel launch, in threads per axis.
///
/// Each axis must be at least 1 for a launch to be accepted; the value is not
/// checked at construction, the driver surfaces a violation as an error at
/// launch time.
#[derive(Clone, Copy, Debug, PartialEq, Eq, Structural)]
pub struct Block {
    pub x: u32,
    pub y: u32,
    pub z: u32,
}

impl Block {
    /// True of a geometry the driver accepts: every axis is positive.
    pub open spec fn wf(&self) -> bool {
        self.x >= 1 && self.y >= 1 && self.z >= 1
    }

    /// Block of the given extent on every axis.
    pub fn new(x: u32, y: u32, z: u32) -> (b: Block)
        ensures
            b == (Block { x, y, z }),
    {
        Block { x, y, z }
    }
}

/// Shorthand for a one-dimensional block.
impl From<u32> for Block {
    fn from(x: u32) -> (b: Block) {
        Block { x, y: 1, z: 1 }
    }
}

impl vstd::std_specs::convert::FromSpecImpl<u32> for Block {
    open spec fn obeys_from_spec() -> bool {
        true
    }

    open spec fn from_spec(x: u32) -> Block {
        Block { x, y: 1, z: 1 }
    }
}

/// Shorthand for a two-dimensional block.
impl From<(u32, u32)> for Block {
    fn from(xy: (u32, u32)) -> (b: Block) {
        Block { x: xy.0, y: xy.1, z: 1 }
    }
}

impl vstd::std_specs::convert::FromSpecImpl<(u32, u32)> for Block {
    open spec fn obeys_from_spec() -> bool {
        true
    }

    open spec fn from_spec(xy: (u32, u32)) -> Block {
        Block { x: xy.0, y: xy.1, z: 1 }
    }
}

/// A three-axis tuple, taken as it stands.
impl From<(u32, u32, u32)> for Block {
    fn from(xyz: (u32, u32, u32)) -> (b: Block) {
        Block { x: xyz.0, y: xyz.1, z: xyz.2 }
    }
}

impl vstd::std_specs::convert::FromSpecImpl<(u32, u32, u32)> for Block {
    open spec fn obeys_from_spec() -> bool {
        true
    }

    open spec fn from_spec(xyz: (u32, u32, u32)) -> Block {
        Block { x: xyz.0, y: xyz.1, z: xyz.2 }
    }
}

} // verus!
