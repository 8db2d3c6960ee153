//! The voxel world as the simulation sees it: integer coordinates, the
//! material stored at each, and the writes the simulation asks for.

use vstd::prelude::*;

verus! {

/// A block coordinate.
#[derive(Clone, Copy, Debug, PartialEq, Eq, Hash, Structural)]
pub struct VoxelPos {
    pub x: i32,
    pub y: i32,
    pub z: i32,
}

impl VoxelPos {
    /// The coordinate with these three parts.
    pub fn new(x: i32, y: i32, z: i32) -> (pos: VoxelPos)
        ensures
            pos == (VoxelPos { x, y, z }),
    {
        VoxelPos { x, y, z }
    }

    /// The coordinate one block higher.
    pub open spec fn spec_above(self) -> VoxelPos {
        VoxelPos { x: self.x, y: (self.y + 1) as i32, z: self.z }
    }

    /// The coordinate one block higher; none at the top of the coordinate
    /// range.
    pub fn above(self) -> (up: Option<VoxelPos>)
        ensures
            up == if self.y < i32::MAX {
                Some(self.spec_above())
            } else {
                None
            },
    {
        if self.y < i32::MAX {
            Some(VoxelPos { x: self.x, y: self.y + 1, z: self.z })
        } else {
            None
        }
    }
}

/// What the voxel world holds at one coordinate.
#[derive(Clone, Copy, Debug, PartialEq, Eq, Hash, Structural)]
pub enum WorldVoxel {
    /// Nothing is known of the coordinate: it lies outside the part of the
    /// world that is loaded.
    Unset,
    /// The coordinate is empty.
    Air,
    /// A block of the material with this id.
    Solid(u8),
}

/// A request to store `voxel` at `pos`.
#[derive(Clone, Copy, Debug, PartialEq, Eq, Structural)]
pub struct VoxelWrite {
    pub pos: VoxelPos,
    pub voxel: WorldVoxel,
}

/// The world after a list of writes was carried out in order: a later write
/// to a coordinate replaces an earlier one.
pub open spec fn apply_writes(world: Map<VoxelPos, WorldVoxel>, writes: Seq<VoxelWrite>) -> Map<
    VoxelPos,
    WorldVoxel,
>
    decreases writes.len(),
{
    if writes.len() == 0 {
        world
    } else {
        apply_writes(world, writes.drop_last()).insert(writes.last().pos, writes.last().voxel)
    }
}

} // verus!
