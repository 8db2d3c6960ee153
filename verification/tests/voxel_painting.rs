use voxel_vegetables::block_types::BlockType;
use voxel_vegetables::core_components::{
    LifePhase, Organism, PaintableResources, PlayerRef, PlayerWantsToPaintVoxel, Species,
};
use voxel_vegetables::spawner::spawn_organism;
use voxel_vegetables::voxel_painting::{
    get_growth_voxel, get_surface_air_voxel, growth_site, is_dirt, paint_voxel_system,
    paint_voxel_unchecked, ray_cast_to_voxel,
};
use voxel_vegetables::voxel_world::{VoxelPos, VoxelWrite, WorldVoxel};

fn dirt() -> WorldVoxel {
    WorldVoxel::Solid(BlockType::Dirt.index())
}

fn pos(x: i32, y: i32, z: i32) -> VoxelPos {
    VoxelPos::new(x, y, z)
}

#[test]
fn above_is_one_block_higher() {
    assert_eq!(pos(3, -7, 9).above(), Some(pos(3, -6, 9)));
    assert_eq!(pos(3, i32::MAX - 1, 9).above(), Some(pos(3, i32::MAX, 9)));
    assert_eq!(pos(3, i32::MAX, 9).above(), None);
}

#[test]
fn only_dirt_is_dirt() {
    assert!(is_dirt(dirt()));
    assert!(!is_dirt(WorldVoxel::Air));
    assert!(!is_dirt(WorldVoxel::Unset));
    assert!(!is_dirt(WorldVoxel::Solid(BlockType::Grass.index())));
    assert!(!is_dirt(WorldVoxel::Solid(BlockType::Water.index())));
}

#[test]
fn growth_site_needs_dirt_below_and_air_above() {
    assert_eq!(growth_site(dirt(), pos(1, 2, 3), WorldVoxel::Air), Some(pos(1, 3, 3)));
    assert_eq!(growth_site(dirt(), pos(1, 2, 3), dirt()), None);
    assert_eq!(growth_site(dirt(), pos(1, 2, 3), WorldVoxel::Unset), None);
    assert_eq!(growth_site(WorldVoxel::Unset, pos(1, 2, 3), WorldVoxel::Air), None);
    assert_eq!(growth_site(WorldVoxel::Air, pos(1, 2, 3), WorldVoxel::Air), None);
    assert_eq!(
        growth_site(WorldVoxel::Solid(BlockType::Grass.index()), pos(1, 2, 3), WorldVoxel::Air),
        None
    );
    assert_eq!(growth_site(dirt(), pos(1, i32::MAX, 3), WorldVoxel::Air), None);
}

#[test]
fn growth_voxel_reads_the_block_above() {
    let get_voxel = |at: VoxelPos| {
        if at == pos(0, 1, 0) {
            WorldVoxel::Air
        } else {
            dirt()
        }
    };
    assert_eq!(get_growth_voxel(&get_voxel, dirt(), pos(0, 0, 0)), Some(pos(0, 1, 0)));
    assert_eq!(get_growth_voxel(&get_voxel, dirt(), pos(1, 0, 0)), None);
    assert_eq!(get_growth_voxel(&get_voxel, WorldVoxel::Air, pos(0, 0, 0)), None);
    let never = |_at: VoxelPos| -> WorldVoxel { panic!("nothing lies above the top") };
    assert_eq!(get_growth_voxel(&never, dirt(), pos(0, i32::MAX, 0)), None);
}

#[test]
fn surface_air_voxel_is_the_growth_site_of_the_hit() {
    let get_voxel = |_at: VoxelPos| WorldVoxel::Air;
    assert_eq!(get_surface_air_voxel(&get_voxel, Some((pos(2, 2, 2), dirt()))), Some(pos(2, 3, 2)));
    assert_eq!(
        get_surface_air_voxel(&get_voxel, Some((pos(2, 2, 2), WorldVoxel::Solid(0)))),
        None
    );
    assert_eq!(get_surface_air_voxel(&get_voxel, None), None);
}

#[test]
fn ray_cast_finds_the_first_solid_block() {
    let get_voxel = |at: VoxelPos| {
        if at.y <= 0 {
            WorldVoxel::Solid(BlockType::Grass.index())
        } else {
            WorldVoxel::Air
        }
    };
    let path = vec![pos(0, 3, 0), pos(0, 2, 1), pos(0, 1, 2), pos(0, 0, 3), pos(0, -1, 4)];
    assert_eq!(
        ray_cast_to_voxel(&get_voxel, &path),
        Some((pos(0, 0, 3), WorldVoxel::Solid(BlockType::Grass.index())))
    );
    let unloaded = |at: VoxelPos| {
        if at.z < 2 {
            WorldVoxel::Unset
        } else {
            WorldVoxel::Solid(7)
        }
    };
    assert_eq!(ray_cast_to_voxel(&unloaded, &path), Some((pos(0, 1, 2), WorldVoxel::Solid(7))));
    let sky = vec![pos(0, 3, 0), pos(0, 4, 1)];
    assert_eq!(ray_cast_to_voxel(&get_voxel, &sky), None);
    assert_eq!(ray_cast_to_voxel(&get_voxel, &Vec::new()), None);
}

#[test]
fn paint_voxel_unchecked_writes_the_material_of_the_block() {
    assert_eq!(
        paint_voxel_unchecked(pos(1, 2, 3), BlockType::Wheat),
        VoxelWrite { pos: pos(1, 2, 3), voxel: WorldVoxel::Solid(5) }
    );
    assert_eq!(
        paint_voxel_unchecked(pos(0, 0, 0), BlockType::Grass),
        VoxelWrite { pos: pos(0, 0, 0), voxel: WorldVoxel::Solid(0) }
    );
}

#[test]
fn organism_paint_uses_its_place_and_species() {
    let tree = spawn_organism(Species::Apple, LifePhase::Mature, pos(4, 4, 4), None);
    assert_eq!(
        tree.paint(&LifePhase::Death),
        VoxelWrite { pos: pos(4, 4, 4), voxel: WorldVoxel::Solid(BlockType::DeadTree.index()) }
    );
}

#[test]
fn wishes_to_plant_are_granted_in_order() {
    let ann = PlayerRef(1);
    let bob = PlayerRef(2);
    let standing = spawn_organism(Species::Apple, LifePhase::Mature, pos(0, 0, 0), None);
    let mut organisms: Vec<Organism> = vec![standing];
    let mut wishes = vec![
        PlayerWantsToPaintVoxel {
            player: ann,
            pos: pos(1, 1, 1),
            paint_as: PaintableResources::SeedCrop(Species::Wheat),
        },
        PlayerWantsToPaintVoxel {
            player: bob,
            pos: pos(2, 2, 2),
            paint_as: PaintableResources::SeedCrop(Species::Apple),
        },
    ];
    let writes = paint_voxel_system(&mut wishes, &mut organisms);
    assert!(wishes.is_empty());
    assert_eq!(
        organisms,
        vec![
            standing,
            spawn_organism(Species::Wheat, LifePhase::Seed, pos(1, 1, 1), Some(ann)),
            spawn_organism(Species::Apple, LifePhase::Seed, pos(2, 2, 2), Some(bob)),
        ]
    );
    let planted = WorldVoxel::Solid(BlockType::SeedPlanted.index());
    assert_eq!(
        writes,
        vec![
            VoxelWrite { pos: pos(1, 1, 1), voxel: planted },
            VoxelWrite { pos: pos(2, 2, 2), voxel: planted },
        ]
    );
}
