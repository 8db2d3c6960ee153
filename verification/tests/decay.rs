use voxel_vegetables::core_components::{DecayTimer, LifePhase, Organism, Species};
use voxel_vegetables::decay::decay_system;
use voxel_vegetables::spawner::spawn_organism;
use voxel_vegetables::voxel_world::{VoxelPos, VoxelWrite, WorldVoxel};

fn dead(pos: VoxelPos, left: i64) -> Organism {
    let mut organism = spawn_organism(Species::Apple, LifePhase::Death, pos, None);
    organism.decay_timer = DecayTimer(left);
    organism
}

#[test]
fn dead_organism_is_removed_when_its_timer_runs_out() {
    let here = VoxelPos::new(4, 5, 6);
    let mut organisms = vec![dead(here, 200_000)];
    let writes = decay_system(150_000, &mut organisms);
    assert_eq!(organisms, vec![dead(here, 50_000)]);
    assert!(writes.is_empty());
    let writes = decay_system(50_000, &mut organisms);
    assert!(organisms.is_empty());
    assert_eq!(writes, vec![VoxelWrite { pos: here, voxel: WorldVoxel::Air }]);
}

#[test]
fn dead_wheat_is_removed_in_the_next_pass() {
    let here = VoxelPos::new(0, 0, 0);
    let mut wheat = spawn_organism(Species::Wheat, LifePhase::Death, here, None);
    wheat.decay_timer = DecayTimer(Species::Wheat.decay_time());
    let out = wheat.decay(0);
    assert_eq!(out.survivor, None);
    assert_eq!(out.write, Some(VoxelWrite { pos: here, voxel: WorldVoxel::Air }));
}

#[test]
fn decay_leaves_the_living_alone() {
    let alive = spawn_organism(Species::Wheat, LifePhase::Mature, VoxelPos::new(1, 1, 1), None);
    let seed = spawn_organism(Species::Apple, LifePhase::Seed, VoxelPos::new(2, 2, 2), None);
    let mut organisms = vec![alive, dead(VoxelPos::new(3, 3, 3), -1), seed, dead(VoxelPos::new(4, 4, 4), 7)];
    let writes = decay_system(5, &mut organisms);
    assert_eq!(organisms, vec![alive, seed, dead(VoxelPos::new(4, 4, 4), 2)]);
    assert_eq!(writes, vec![VoxelWrite { pos: VoxelPos::new(3, 3, 3), voxel: WorldVoxel::Air }]);
}

#[test]
fn decay_of_an_empty_population_does_nothing() {
    let mut organisms: Vec<Organism> = Vec::new();
    assert!(decay_system(1000, &mut organisms).is_empty());
    assert!(organisms.is_empty());
}
