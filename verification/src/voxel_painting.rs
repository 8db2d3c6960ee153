//! Reading the voxel world for places to plant, and painting blocks into it.
//!
//! The world itself is not held here. It is read through a function that the
//! caller hands in, of which nothing is taken for granted, and written by
//! handing back the writes asked for.

use vstd::prelude::*;
use crate::block_types::BlockType;
use crate::core_components::{LifePhase, Organism, PaintableResources, PlayerWantsToPaintVoxel};
use crate::spawner::{spawn_organism, spec_spawn_organism};
use crate::voxel_world::{VoxelPos, VoxelWrite, WorldVoxel};

verus! {

/// The place to plant on top of a block: the coordinate above it, where the
/// block is dirt and air is above it. None at the top of the coordinate
/// range.
pub open spec fn spec_growth_site(voxel: WorldVoxel, pos: VoxelPos, above_vox: WorldVoxel) -> Option<
    VoxelPos,
> {
    if pos.y < i32::MAX && voxel == WorldVoxel::Solid(BlockType::Dirt.spec_index()) && above_vox
        == WorldVoxel::Air {
        Some(pos.spec_above())
    } else {
        None
    }
}

/// Whether a block is dirt.
pub fn is_dirt(voxel: WorldVoxel) -> (dirt: bool)
    ensures
        dirt == (voxel == WorldVoxel::Solid(BlockType::Dirt.spec_index())),
{
    match voxel {
        WorldVoxel::Solid(material) => material == BlockType::Dirt.index(),
        _ => false,
    }
}

/// The place to plant on top of the block `voxel` at `pos`, given what the
/// world holds above it.
pub fn growth_site(voxel: WorldVoxel, pos: VoxelPos, above_vox: WorldVoxel) -> (site: Option<
    VoxelPos,
>)
    ensures
        site == spec_growth_site(voxel, pos, above_vox),
{
    match (pos.above(), above_vox) {
        (Some(above_pos), WorldVoxel::Air) => {
            if is_dirt(voxel) {
                Some(above_pos)
            } else {
                None
            }
        },
        _ => None,
    }
}

/// The place to plant on top of the block `voxel` at `pos`. The world is
/// read once, at the coordinate above `pos`, unless `pos` is at the top of
/// the coordinate range. Whatever is read there, the result is the growth
/// site for it.
pub fn get_growth_voxel<G: Fn(VoxelPos) -> WorldVoxel>(
    get_voxel: &G,
    voxel: WorldVoxel,
    pos: VoxelPos,
) -> (site: Option<VoxelPos>)
    requires
        forall|p: VoxelPos| call_requires(get_voxel, (p,)),
    ensures
        pos.y == i32::MAX ==> site is None,
        pos.y < i32::MAX ==> exists|above_vox: WorldVoxel|
            call_ensures(get_voxel, (pos.spec_above(),), above_vox) && site == spec_growth_site(
                voxel,
                pos,
                above_vox,
            ),
{
    match pos.above() {
        Some(above_pos) => {
            let above_vox = get_voxel(above_pos);
            growth_site(voxel, pos, above_vox)
        },
        None => None,
    }
}

/// The place to plant where a player looks: the growth site on top of the
/// block that the line of sight hits, if it hits one.
pub fn get_surface_air_voxel<G: Fn(VoxelPos) -> WorldVoxel>(
    get_voxel: &G,
    hit: Option<(VoxelPos, WorldVoxel)>,
) -> (site: Option<VoxelPos>)
    requires
        forall|p: VoxelPos| call_requires(get_voxel, (p,)),
    ensures
        match hit {
            Some((pos, voxel)) => {
                &&& pos.y == i32::MAX ==> site is None
                &&& pos.y < i32::MAX ==> exists|above_vox: WorldVoxel|
                    call_ensures(get_voxel, (pos.spec_above(),), above_vox) && site
                        == spec_growth_site(voxel, pos, above_vox)
            },
            None => site is None,
        },
{
    match hit {
        Some((pos, voxel)) => get_growth_voxel(get_voxel, voxel, pos),
        None => None,
    }
}

/// Whether the world may answer a read of `pos` with something that is not a
/// solid block.
pub open spec fn may_read_open<G: Fn(VoxelPos) -> WorldVoxel>(get_voxel: &G, pos: VoxelPos) -> bool {
    exists|voxel: WorldVoxel| call_ensures(get_voxel, (pos,), voxel) && voxel !is Solid
}

/// The first solid block along a line of sight, given as the coordinates it
/// passes through, from the eye outwards. The world is read at one
/// coordinate after the other until a solid block is read.
pub fn ray_cast_to_voxel<G: Fn(VoxelPos) -> WorldVoxel>(get_voxel: &G, path: &Vec<VoxelPos>) -> (hit:
    Option<(VoxelPos, WorldVoxel)>)
    requires
        forall|p: VoxelPos| call_requires(get_voxel, (p,)),
    ensures
        match hit {
            Some((pos, voxel)) => exists|k: int|
                {
                    &&& 0 <= k < path@.len()
                    &&& #[trigger] path@[k] == pos
                    &&& voxel is Solid
                    &&& call_ensures(get_voxel, (pos,), voxel)
                    &&& forall|j: int| 0 <= j < k ==> may_read_open(get_voxel, #[trigger] path@[j])
                },
            None => forall|j: int|
                0 <= j < path@.len() ==> may_read_open(get_voxel, #[trigger] path@[j]),
        },
{
    let mut k: usize = 0;
    while k < path.len()
        invariant
            k <= path@.len(),
            forall|p: VoxelPos| call_requires(get_voxel, (p,)),
            forall|j: int| 0 <= j < k ==> may_read_open(get_voxel, #[trigger] path@[j]),
        decreases path@.len() - k,
    {
        let pos = path[k];
        let voxel = get_voxel(pos);
        match voxel {
            WorldVoxel::Solid(_) => {
                assert(path@[k as int] == pos);
                return Some((pos, voxel));
            },
            _ => {
                assert(may_read_open(get_voxel, path@[k as int]));
            },
        }
        k += 1;
    }
    None
}

/// The write that stores a block kind at a coordinate. Whether that block
/// belongs there is not looked at.
pub open spec fn spec_paint_voxel(pos: VoxelPos, block_type: BlockType) -> VoxelWrite {
    VoxelWrite { pos, voxel: WorldVoxel::Solid(block_type.spec_index()) }
}

/// The write that stores a block kind at a coordinate.
pub fn paint_voxel_unchecked(pos: VoxelPos, block_type: BlockType) -> (write: VoxelWrite)
    ensures
        write == spec_paint_voxel(pos, block_type),
{
    VoxelWrite { pos, voxel: WorldVoxel::Solid(block_type.index()) }
}

/// The seed that a player's wish to plant brings forth.
pub open spec fn spec_planted(wish: PlayerWantsToPaintVoxel) -> Organism {
    match wish.paint_as {
        PaintableResources::SeedCrop(species) => spec_spawn_organism(
            species,
            LifePhase::Seed,
            wish.pos,
            Some(wish.player),
        ),
    }
}

/// Grants every wish to plant: a seed of the wished species, owned by the
/// player, joins the population at its end, and the block of a planted seed
/// is written where it was wished. The wishes are then gone.
pub fn paint_voxel_system(
    wishes: &mut Vec<PlayerWantsToPaintVoxel>,
    organisms: &mut Vec<Organism>,
) -> (writes: Vec<VoxelWrite>)
    ensures
        final(wishes)@.len() == 0,
        final(organisms)@ == old(organisms)@ + old(wishes)@.map_values(
            |wish: PlayerWantsToPaintVoxel| spec_planted(wish),
        ),
        writes@ == old(wishes)@.map_values(
            |wish: PlayerWantsToPaintVoxel| spec_planted(wish).spec_paint(LifePhase::Seed),
        ),
{
    let ghost before = organisms@;
    let mut writes: Vec<VoxelWrite> = Vec::new();
    let mut i: usize = 0;
    while i < wishes.len()
        invariant
            i <= wishes@.len(),
            wishes@ == old(wishes)@,
            organisms@ == before + wishes@.take(i as int).map_values(
                |wish: PlayerWantsToPaintVoxel| spec_planted(wish),
            ),
            writes@ == wishes@.take(i as int).map_values(
                |wish: PlayerWantsToPaintVoxel| spec_planted(wish).spec_paint(LifePhase::Seed),
            ),
        decreases wishes@.len() - i,
    {
        let wish = wishes[i];
        match wish.paint_as {
            PaintableResources::SeedCrop(species) => {
                let seed = spawn_organism(species, LifePhase::Seed, wish.pos, Some(wish.player));
                writes.push(paint_voxel_unchecked(wish.pos, species.block_type(&LifePhase::Seed)));
                organisms.push(seed);
            },
        }
        i += 1;
        assert(organisms@ == before + wishes@.take(i as int).map_values(
            |wish: PlayerWantsToPaintVoxel| spec_planted(wish),
        ));
        assert(writes@ == wishes@.take(i as int).map_values(
            |wish: PlayerWantsToPaintVoxel| spec_planted(wish).spec_paint(LifePhase::Seed),
        ));
    }
    assert(wishes@.take(wishes@.len() as int) == wishes@);
    wishes.clear();
    writes
}

} // verus!
