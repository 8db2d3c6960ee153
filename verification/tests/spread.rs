use std::cell::Cell;
use std::cell::RefCell;

use voxel_vegetables::block_types::BlockType;
use voxel_vegetables::core_components::{LifePhase, Species};
use voxel_vegetables::spawner::spawn_organism;
use voxel_vegetables::spread::{
    already_found, get_random_surface_voxels, growth_sites_near, note_sample, plan_spread,
    SAMPLE_ATTEMPTS,
};
use voxel_vegetables::voxel_world::{VoxelPos, WorldVoxel};

fn dirt() -> WorldVoxel {
    WorldVoxel::Solid(BlockType::Dirt.index())
}

fn grass() -> WorldVoxel {
    WorldVoxel::Solid(BlockType::Grass.index())
}

fn pos(x: i32, y: i32, z: i32) -> VoxelPos {
    VoxelPos::new(x, y, z)
}

#[test]
fn note_sample_keeps_what_is_new() {
    let mut found = Vec::new();
    assert!(!note_sample(&mut found, Some((pos(1, 0, 0), dirt())), 2));
    assert_eq!(found, vec![(pos(1, 0, 0), dirt())]);
    assert!(!note_sample(&mut found, Some((pos(1, 0, 0), dirt())), 2));
    assert_eq!(found.len(), 1);
    assert!(!note_sample(&mut found, None, 2));
    assert_eq!(found.len(), 1);
    assert!(note_sample(&mut found, Some((pos(1, 0, 0), grass())), 2));
    assert_eq!(found, vec![(pos(1, 0, 0), dirt()), (pos(1, 0, 0), grass())]);
    assert!(note_sample(&mut found, Some((pos(5, 0, 0), dirt())), 2));
    assert_eq!(found.len(), 2);
}

#[test]
fn note_sample_with_nothing_wanted_is_done_at_once() {
    let mut found = Vec::new();
    assert!(note_sample(&mut found, Some((pos(1, 0, 0), dirt())), 0));
    assert!(found.is_empty());
}

#[test]
fn already_found_compares_position_and_material() {
    let found = vec![(pos(1, 2, 3), dirt())];
    assert!(already_found(&found, (pos(1, 2, 3), dirt())));
    assert!(!already_found(&found, (pos(1, 2, 3), grass())));
    assert!(!already_found(&found, (pos(1, 2, 4), dirt())));
    assert!(!already_found(&Vec::new(), (pos(1, 2, 3), dirt())));
}

#[test]
fn sampling_stops_when_enough_blocks_are_found() {
    let calls = Cell::new(0);
    let sample = |origin: VoxelPos, radius: u32| {
        let k = calls.get();
        calls.set(k + 1);
        assert_eq!(origin, pos(7, 8, 9));
        assert_eq!(radius, 10);
        Some((pos(k, 0, 0), dirt()))
    };
    let found = get_random_surface_voxels(&sample, pos(7, 8, 9), 10, 3, 100);
    assert_eq!(found, vec![(pos(0, 0, 0), dirt()), (pos(1, 0, 0), dirt()), (pos(2, 0, 0), dirt())]);
    assert_eq!(calls.get(), 3);
}

#[test]
fn sampling_skips_repeats_and_misses() {
    let answers = RefCell::new(vec![
        Some((pos(1, 0, 0), dirt())),
        None,
        Some((pos(1, 0, 0), dirt())),
        Some((pos(2, 0, 0), grass())),
        Some((pos(3, 0, 0), dirt())),
    ]);
    let sample = |_origin: VoxelPos, _radius: u32| {
        let mut left = answers.borrow_mut();
        if left.is_empty() {
            None
        } else {
            left.remove(0)
        }
    };
    let found = get_random_surface_voxels(&sample, pos(0, 0, 0), 5, 2, 100);
    assert_eq!(found, vec![(pos(1, 0, 0), dirt()), (pos(2, 0, 0), grass())]);
    assert_eq!(answers.borrow().len(), 1);
}

#[test]
fn sampling_gives_up_after_the_attempts_allowed() {
    let calls = Cell::new(0u32);
    let sample = |_origin: VoxelPos, _radius: u32| {
        calls.set(calls.get() + 1);
        Some((pos(1, 0, 0), dirt()))
    };
    let found = get_random_surface_voxels(&sample, pos(0, 0, 0), 5, 4, 25);
    assert_eq!(found, vec![(pos(1, 0, 0), dirt())]);
    assert_eq!(calls.get(), 25);
    let never = |_origin: VoxelPos, _radius: u32| -> Option<(VoxelPos, WorldVoxel)> { None };
    assert!(get_random_surface_voxels(&never, pos(0, 0, 0), 5, 4, 25).is_empty());
}

#[test]
fn sampling_nothing_asks_nothing() {
    let calls = Cell::new(0u32);
    let sample = |_origin: VoxelPos, _radius: u32| {
        calls.set(calls.get() + 1);
        Some((pos(1, 0, 0), dirt()))
    };
    assert!(get_random_surface_voxels(&sample, pos(0, 0, 0), 5, 0, 25).is_empty());
    assert!(get_random_surface_voxels(&sample, pos(0, 0, 0), 5, 3, 0).is_empty());
    assert_eq!(calls.get(), 0);
}

#[test]
fn growth_sites_lie_on_top_of_dirt_under_air() {
    let answers = RefCell::new(vec![
        Some((pos(1, 4, 0), dirt())),
        Some((pos(2, 4, 0), grass())),
        Some((pos(3, 4, 0), dirt())),
        Some((pos(4, 4, 0), dirt())),
    ]);
    let sample = |_origin: VoxelPos, _radius: u32| {
        let mut left = answers.borrow_mut();
        if left.is_empty() {
            None
        } else {
            left.remove(0)
        }
    };
    let get_voxel = |at: VoxelPos| {
        if at == pos(3, 5, 0) {
            grass()
        } else {
            WorldVoxel::Air
        }
    };
    let sites = growth_sites_near(&sample, &get_voxel, pos(0, 4, 0), 10, 4, 50);
    assert_eq!(sites, vec![pos(1, 5, 0), pos(4, 5, 0)]);
}

#[test]
fn only_fruiting_organisms_are_offered_sites() {
    let seed = spawn_organism(Species::Wheat, LifePhase::Seed, pos(0, 0, 0), None);
    let tree = spawn_organism(Species::Apple, LifePhase::Fruiting, pos(100, 0, 0), None);
    let wheat = spawn_organism(Species::Wheat, LifePhase::Fruiting, pos(200, 0, 0), None);
    let next = Cell::new(0);
    let asked = RefCell::new(Vec::new());
    let sample = |origin: VoxelPos, radius: u32| {
        asked.borrow_mut().push((origin, radius));
        let k = next.get();
        next.set(k + 1);
        Some((pos(origin.x + k, 0, 0), dirt()))
    };
    let get_voxel = |_at: VoxelPos| WorldVoxel::Air;
    let sites = plan_spread(&sample, &get_voxel, SAMPLE_ATTEMPTS, &vec![seed, tree, wheat]);
    assert_eq!(sites.len(), 3);
    assert!(sites[0].is_empty());
    assert_eq!(sites[1], vec![pos(100, 1, 0), pos(101, 1, 0)]);
    assert_eq!(sites[2].len(), 10);
    assert_eq!(sites[2][0], pos(202, 1, 0));
    assert_eq!(sites[2][9], pos(211, 1, 0));
    let asked = asked.borrow();
    assert_eq!(asked.len(), 12);
    assert!(asked[..2].iter().all(|call| *call == (pos(100, 0, 0), 10)));
    assert!(asked[2..].iter().all(|call| *call == (pos(200, 0, 0), 50)));
}

#[test]
fn planning_for_an_empty_population_plans_nothing() {
    let sample = |_origin: VoxelPos, _radius: u32| -> Option<(VoxelPos, WorldVoxel)> { None };
    let get_voxel = |_at: VoxelPos| WorldVoxel::Air;
    assert!(plan_spread(&sample, &get_voxel, 10, &Vec::new()).is_empty());
}

#[test]
fn no_site_is_offered_twice() {
    let answers = RefCell::new(vec![
        Some((pos(1, 4, 0), dirt())),
        Some((pos(1, 4, 0), grass())),
        Some((pos(1, 4, 0), dirt())),
        Some((pos(2, 4, 0), dirt())),
        Some((pos(1, 4, 0), dirt())),
        Some((pos(3, 4, 0), dirt())),
    ]);
    let sample = |_origin: VoxelPos, _radius: u32| {
        let mut left = answers.borrow_mut();
        if left.is_empty() {
            None
        } else {
            left.remove(0)
        }
    };
    let get_voxel = |_at: VoxelPos| WorldVoxel::Air;
    let sites = growth_sites_near(&sample, &get_voxel, pos(0, 4, 0), 10, 4, 50);
    assert_eq!(sites, vec![pos(1, 5, 0), pos(2, 5, 0), pos(3, 5, 0)]);
}
