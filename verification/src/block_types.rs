//! Block kinds of the voxel world and the textures they are drawn with.

use vstd::prelude::*;

verus! {

/// A tile of the texture sheet. The tiles lie in the sheet in this order.
#[derive(Clone, Copy, Debug, PartialEq, Eq, Structural)]
pub enum VoxTexture {
    Nothing,
    Grass,
    Dirt,
    Water,
    GrassPlant,
    GrassTan,
    GrassBrown,
    WheatSide,
    WheatTop,
    WheatSprouts,
}

impl VoxTexture {
    /// Number of tiles in the texture sheet.
    pub const COUNT: usize = 10;

    /// Position of each tile in the texture sheet.
    pub open spec fn spec_index(self) -> u8 {
        match self {
            VoxTexture::Nothing => 0,
            VoxTexture::Grass => 1,
            VoxTexture::Dirt => 2,
            VoxTexture::Water => 3,
            VoxTexture::GrassPlant => 4,
            VoxTexture::GrassTan => 5,
            VoxTexture::GrassBrown => 6,
            VoxTexture::WheatSide => 7,
            VoxTexture::WheatTop => 8,
            VoxTexture::WheatSprouts => 9,
        }
    }

    /// Position of this tile in the texture sheet.
    pub fn index(self) -> (ix: u8)
        ensures
            ix == self.spec_index(),
            (ix as int) < VoxTexture::COUNT,
    {
        match self {
            VoxTexture::Nothing => 0,
            VoxTexture::Grass => 1,
            VoxTexture::Dirt => 2,
            VoxTexture::Water => 3,
            VoxTexture::GrassPlant => 4,
            VoxTexture::GrassTan => 5,
            VoxTexture::GrassBrown => 6,
            VoxTexture::WheatSide => 7,
            VoxTexture::WheatTop => 8,
            VoxTexture::WheatSprouts => 9,
        }
    }
}

/// The three tiles of one block, in the order top, side, bottom.
#[derive(Clone, Copy, Debug)]
pub struct VoxTextureArray(pub [VoxTexture; 3]);

impl VoxTextureArray {
    /// The sheet positions of the top, side and bottom tile.
    pub fn indices_u32(self) -> (out: [u32; 3])
        ensures
            out@.len() == 3,
            forall|i: int| 0 <= i < 3 ==> out@[i] == (#[trigger] self.0@[i]).spec_index(),
    {
        let top: u32 = self.0[0].index() as u32;
        let side: u32 = self.0[1].index() as u32;
        let bottom: u32 = self.0[2].index() as u32;
        [top, side, bottom]
    }
}

/// A semantic block kind. Its position in this list is the material id that
/// the voxel world stores for it.
#[derive(Clone, Copy, Debug, PartialEq, Eq, Hash, Structural)]
pub enum BlockType {
    Grass,
    Dirt,
    Water,
    SeedPlanted,
    WheatSprouts,
    Wheat,
    AppleSapling,
    AppleTree,
    DeadTree,
    Nothing,
}

impl BlockType {
    /// Number of block kinds.
    pub const COUNT: usize = 10;

    /// The material id of each block kind.
    pub open spec fn spec_index(self) -> u8 {
        match self {
            BlockType::Grass => 0,
            BlockType::Dirt => 1,
            BlockType::Water => 2,
            BlockType::SeedPlanted => 3,
            BlockType::WheatSprouts => 4,
            BlockType::Wheat => 5,
            BlockType::AppleSapling => 6,
            BlockType::AppleTree => 7,
            BlockType::DeadTree => 8,
            BlockType::Nothing => 9,
        }
    }

    /// The material id under which the voxel world stores this block kind.
    pub fn index(self) -> (ix: u8)
        ensures
            ix == self.spec_index(),
            (ix as int) < BlockType::COUNT,
    {
        match self {
            BlockType::Grass => 0,
            BlockType::Dirt => 1,
            BlockType::Water => 2,
            BlockType::SeedPlanted => 3,
            BlockType::WheatSprouts => 4,
            BlockType::Wheat => 5,
            BlockType::AppleSapling => 6,
            BlockType::AppleTree => 7,
            BlockType::DeadTree => 8,
            BlockType::Nothing => 9,
        }
    }

    /// The block kind that each material id names.
    pub open spec fn spec_from_repr(ix: u8) -> Option<BlockType> {
        match ix {
            0 => Some(BlockType::Grass),
            1 => Some(BlockType::Dirt),
            2 => Some(BlockType::Water),
            3 => Some(BlockType::SeedPlanted),
            4 => Some(BlockType::WheatSprouts),
            5 => Some(BlockType::Wheat),
            6 => Some(BlockType::AppleSapling),
            7 => Some(BlockType::AppleTree),
            8 => Some(BlockType::DeadTree),
            9 => Some(BlockType::Nothing),
            _ => None,
        }
    }

    /// The block kind stored under a material id, if the id names one.
    pub fn from_repr(ix: u8) -> (block: Option<BlockType>)
        ensures
            block == BlockType::spec_from_repr(ix),
            (ix as int) < BlockType::COUNT <==> block is Some,
            block matches Some(b) ==> b.spec_index() == ix,
    {
        match ix {
            0 => Some(BlockType::Grass),
            1 => Some(BlockType::Dirt),
            2 => Some(BlockType::Water),
            3 => Some(BlockType::SeedPlanted),
            4 => Some(BlockType::WheatSprouts),
            5 => Some(BlockType::Wheat),
            6 => Some(BlockType::AppleSapling),
            7 => Some(BlockType::AppleTree),
            8 => Some(BlockType::DeadTree),
            9 => Some(BlockType::Nothing),
            _ => None,
        }
    }

    /// The block kind stored under a material id that is known to name one.
    pub fn from_unsafe(ix: u8) -> (block: BlockType)
        requires
            (ix as int) < BlockType::COUNT,
        ensures
            Some(block) == BlockType::spec_from_repr(ix),
            block.spec_index() == ix,
    {
        match BlockType::from_repr(ix) {
            Some(block) => block,
            None => BlockType::Nothing,
        }
    }

    /// The tiles each block kind is drawn with.
    pub open spec fn spec_tiles(self) -> VoxTextureArray {
        match self {
            BlockType::Grass => VoxTextureArray(
                [VoxTexture::Grass, VoxTexture::Grass, VoxTexture::Grass],
            ),
            BlockType::Water => VoxTextureArray(
                [VoxTexture::Water, VoxTexture::Water, VoxTexture::Water],
            ),
            BlockType::SeedPlanted => VoxTextureArray(
                [VoxTexture::Nothing, VoxTexture::GrassPlant, VoxTexture::Nothing],
            ),
            BlockType::WheatSprouts => VoxTextureArray(
                [VoxTexture::WheatSprouts, VoxTexture::WheatSprouts, VoxTexture::Dirt],
            ),
            BlockType::Wheat => VoxTextureArray(
                [VoxTexture::WheatTop, VoxTexture::WheatSide, VoxTexture::Nothing],
            ),
            BlockType::Dirt
            | BlockType::AppleSapling
            | BlockType::AppleTree
            | BlockType::DeadTree
            | BlockType::Nothing => VoxTextureArray(
                [VoxTexture::Dirt, VoxTexture::Dirt, VoxTexture::Dirt],
            ),
        }
    }

    /// The tiles this block kind is drawn with.
    pub fn tiles(self) -> (tiles: VoxTextureArray)
        ensures
            tiles == self.spec_tiles(),
    {
        match self {
            BlockType::Grass => VoxTextureArray(
                [VoxTexture::Grass, VoxTexture::Grass, VoxTexture::Grass],
            ),
            BlockType::Water => VoxTextureArray(
                [VoxTexture::Water, VoxTexture::Water, VoxTexture::Water],
            ),
            BlockType::SeedPlanted => VoxTextureArray(
                [VoxTexture::Nothing, VoxTexture::GrassPlant, VoxTexture::Nothing],
            ),
            BlockType::WheatSprouts => VoxTextureArray(
                [VoxTexture::WheatSprouts, VoxTexture::WheatSprouts, VoxTexture::Dirt],
            ),
            BlockType::Wheat => VoxTextureArray(
                [VoxTexture::WheatTop, VoxTexture::WheatSide, VoxTexture::Nothing],
            ),
            BlockType::Dirt
            | BlockType::AppleSapling
            | BlockType::AppleTree
            | BlockType::DeadTree
            | BlockType::Nothing => VoxTextureArray(
                [VoxTexture::Dirt, VoxTexture::Dirt, VoxTexture::Dirt],
            ),
        }
    }
}

/// The tiles of a grass block.
pub open spec fn spec_grass_texture_array() -> VoxTextureArray {
    VoxTextureArray([VoxTexture::Grass, VoxTexture::Grass, VoxTexture::Grass])
}

/// The tiles of a grass block: what a material id that names no block kind is
/// drawn with.
pub fn grass_texture_array() -> (tiles: VoxTextureArray)
    ensures
        tiles == spec_grass_texture_array(),
{
    VoxTextureArray([VoxTexture::Grass, VoxTexture::Grass, VoxTexture::Grass])
}

/// The tiles a material id is drawn with: those of the block kind it names,
/// or those of grass where it names none.
pub open spec fn spec_block_to_tiles(vox_mat: u8) -> VoxTextureArray {
    match BlockType::spec_from_repr(vox_mat) {
        Some(block) => block.spec_tiles(),
        None => spec_grass_texture_array(),
    }
}

/// The sheet positions of the top, side and bottom tile that a material id
/// is drawn with.
pub fn texture_index_mapper(vox_mat: u8) -> (out: [u32; 3])
    ensures
        out@.len() == 3,
        forall|i: int|
            0 <= i < 3 ==> out@[i] == (#[trigger] spec_block_to_tiles(vox_mat).0@[i]).spec_index(),
{
    match BlockType::from_repr(vox_mat) {
        Some(block) => block.tiles().indices_u32(),
        None => grass_texture_array().indices_u32(),
    }
}

} // verus!
