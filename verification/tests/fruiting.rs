use voxel_vegetables::block_types::BlockType;
use voxel_vegetables::core_components::{
    DecayTimer, Generations, GerminationTimer, LifePhase, MatureAgeTimer, Organism, OwnedBy,
    PlayerRef, Soil, Species, Water,
};
use voxel_vegetables::fruiting::lifecycle_system;
use voxel_vegetables::resources::{CollectResource, FarmResource};
use voxel_vegetables::spawner::spawn_organism;
use voxel_vegetables::voxel_world::{VoxelPos, VoxelWrite, WorldVoxel};

fn pos(x: i32, y: i32, z: i32) -> VoxelPos {
    VoxelPos::new(x, y, z)
}

fn fruiting(species: Species, at: VoxelPos, owner: Option<PlayerRef>, generations: u32) -> Organism {
    let mut organism = spawn_organism(species, LifePhase::Fruiting, at, owner);
    organism.generations = Generations(generations);
    organism
}

fn holds(collect: &CollectResource, res: FarmResource) -> Option<u32> {
    collect.resource.get(res)
}

#[test]
fn old_apple_tree_dies_and_its_owner_collects() {
    let player = PlayerRef(42);
    let tree = fruiting(Species::Apple, pos(1, 2, 3), Some(player), 250);
    let mut organisms = vec![tree];
    let mut events: Vec<CollectResource> = Vec::new();
    let sites: Vec<Vec<VoxelPos>> = vec![vec![]];
    let writes = lifecycle_system(&sites, &mut organisms, &mut events);
    assert_eq!(organisms.len(), 1);
    assert_eq!(organisms[0].phase, LifePhase::Death);
    assert_eq!(organisms[0].decay_timer, DecayTimer(200_000));
    assert_eq!(organisms[0].decay_timer, DecayTimer(Species::Apple.decay_time()));
    assert_eq!(organisms[0].generations, Generations(250));
    assert_eq!(events.len(), 1);
    assert_eq!(events[0].owner, player);
    assert_eq!(holds(&events[0], FarmResource::Seeds(Species::Apple)), Some(15));
    assert_eq!(holds(&events[0], FarmResource::FoodValue(Species::Apple)), Some(10));
    assert_eq!(holds(&events[0], FarmResource::Seeds(Species::Wheat)), None);
    assert_eq!(holds(&events[0], FarmResource::FoodValue(Species::Wheat)), None);
    assert_eq!(
        writes,
        vec![VoxelWrite { pos: pos(1, 2, 3), voxel: WorldVoxel::Solid(BlockType::DeadTree.index()) }]
    );
}

#[test]
fn young_apple_tree_is_mature_again() {
    let tree = fruiting(Species::Apple, pos(1, 2, 3), None, 105);
    let out = tree.wither();
    assert_eq!(out.organism.phase, LifePhase::Mature);
    assert_eq!(out.organism.decay_timer, DecayTimer(0));
    assert_eq!(
        out.write,
        Some(VoxelWrite { pos: pos(1, 2, 3), voxel: WorldVoxel::Solid(BlockType::AppleTree.index()) })
    );
    let tree = fruiting(Species::Apple, pos(1, 2, 3), None, 106);
    assert_eq!(tree.wither().organism.phase, LifePhase::Death);
}

#[test]
fn wheat_dies_after_its_second_harvest() {
    let first = fruiting(Species::Wheat, pos(0, 0, 0), None, 1);
    assert_eq!(first.wither().organism.phase, LifePhase::Mature);
    let second = fruiting(Species::Wheat, pos(0, 0, 0), None, 2);
    let out = second.wither();
    assert_eq!(out.organism.phase, LifePhase::Death);
    assert_eq!(out.organism.decay_timer, DecayTimer(0));
    assert_eq!(
        out.write,
        Some(VoxelWrite { pos: pos(0, 0, 0), voxel: WorldVoxel::Solid(BlockType::Nothing.index()) })
    );
}

#[test]
fn wither_leaves_other_phases_alone() {
    let seed = spawn_organism(Species::Wheat, LifePhase::Seed, pos(0, 0, 0), None);
    let out = seed.wither();
    assert_eq!(out.organism, seed);
    assert_eq!(out.write, None);
}

#[test]
fn organism_without_owner_yields_no_collection() {
    let wild = fruiting(Species::Wheat, pos(0, 0, 0), None, 0);
    assert!(wild.harvest().is_none());
    let mut organisms = vec![wild];
    let mut events: Vec<CollectResource> = Vec::new();
    let sites = vec![vec![pos(4, 1, 4)]];
    lifecycle_system(&sites, &mut organisms, &mut events);
    assert!(events.is_empty());
    assert_eq!(organisms.len(), 2);
    assert_eq!(organisms[1].owner, None);
}

#[test]
fn only_fruiting_organisms_yield_a_collection() {
    let player = PlayerRef(1);
    let mature = spawn_organism(Species::Wheat, LifePhase::Mature, pos(0, 0, 0), Some(player));
    assert!(mature.harvest().is_none());
    let ripe = fruiting(Species::Wheat, pos(0, 0, 0), Some(player), 0);
    let collect = ripe.harvest().unwrap();
    assert_eq!(collect.owner, player);
    assert_eq!(holds(&collect, FarmResource::Seeds(Species::Wheat)), Some(100));
    assert_eq!(holds(&collect, FarmResource::FoodValue(Species::Wheat)), Some(2));
    assert_eq!(holds(&collect, FarmResource::Seeds(Species::Apple)), None);
}

#[test]
fn seeds_are_spread_to_the_sites_and_keep_the_owner() {
    let player = PlayerRef(9);
    let tree = fruiting(Species::Apple, pos(0, 5, 0), Some(player), 1);
    let sites = vec![pos(1, 5, 1), pos(-2, 6, 3)];
    let seeds = tree.offspring(&sites);
    assert_eq!(seeds.len(), 2);
    for (seed, site) in seeds.iter().zip(sites.iter()) {
        assert_eq!(*seed, spawn_organism(Species::Apple, LifePhase::Seed, *site, Some(player)));
        assert_eq!(seed.phase, LifePhase::Seed);
        assert_eq!(seed.owner, Some(OwnedBy { owner: player }));
        assert_eq!(seed.generations, Generations(0));
        assert_eq!(seed.germination_timer, GerminationTimer(5000));
        assert_eq!(seed.mature_age_timer, MatureAgeTimer(0));
        assert_eq!(seed.water, Water(1));
        assert_eq!(seed.soil, Soil(1));
    }
}

#[test]
fn no_more_seeds_are_spread_than_the_species_allows() {
    let tree = fruiting(Species::Apple, pos(0, 5, 0), None, 1);
    let sites = vec![pos(1, 5, 1), pos(2, 5, 2), pos(3, 5, 3)];
    let seeds = tree.offspring(&sites);
    assert_eq!(seeds.len(), 2);
    assert_eq!(seeds[0].position.pos, pos(1, 5, 1));
    assert_eq!(seeds[1].position.pos, pos(2, 5, 2));
    let wheat = fruiting(Species::Wheat, pos(0, 5, 0), None, 1);
    let many: Vec<VoxelPos> = (0..12).map(|i| pos(i, 5, 0)).collect();
    assert_eq!(wheat.offspring(&many).len(), 10);
}

#[test]
fn organisms_that_do_not_fruit_spread_nothing() {
    let sites = vec![pos(1, 5, 1)];
    let mature = spawn_organism(Species::Wheat, LifePhase::Mature, pos(0, 0, 0), None);
    assert!(mature.offspring(&sites).is_empty());
    let fruiting_tree = fruiting(Species::Apple, pos(0, 0, 0), None, 0);
    assert!(fruiting_tree.offspring(&Vec::new()).is_empty());
}

#[test]
fn resolution_handles_a_mixed_population_in_order() {
    let ann = PlayerRef(1);
    let bob = PlayerRef(2);
    let seed = spawn_organism(Species::Wheat, LifePhase::Seed, pos(0, 0, 0), Some(ann));
    let wheat = fruiting(Species::Wheat, pos(1, 0, 0), Some(bob), 2);
    let tree = fruiting(Species::Apple, pos(2, 0, 0), Some(ann), 3);
    let wild = fruiting(Species::Apple, pos(3, 0, 0), None, 300);
    let mut organisms = vec![seed, wheat, tree, wild];
    let mut events = vec![CollectResource::new(PlayerRef(77))];
    let sites = vec![vec![pos(9, 9, 9)], vec![pos(1, 1, 0)], vec![], vec![pos(3, 1, 0), pos(3, 1, 1)]];
    let writes = lifecycle_system(&sites, &mut organisms, &mut events);
    assert_eq!(organisms.len(), 7);
    assert_eq!(organisms[0], seed);
    assert_eq!(organisms[1].phase, LifePhase::Death);
    assert_eq!(organisms[2].phase, LifePhase::Mature);
    assert_eq!(organisms[3].phase, LifePhase::Death);
    assert_eq!(organisms[3].decay_timer, DecayTimer(200_000));
    assert_eq!(organisms[4], spawn_organism(Species::Wheat, LifePhase::Seed, pos(1, 1, 0), Some(bob)));
    assert_eq!(organisms[5], spawn_organism(Species::Apple, LifePhase::Seed, pos(3, 1, 0), None));
    assert_eq!(organisms[6], spawn_organism(Species::Apple, LifePhase::Seed, pos(3, 1, 1), None));
    assert_eq!(events.len(), 3);
    assert_eq!(events[0].owner, PlayerRef(77));
    assert_eq!(events[1].owner, bob);
    assert_eq!(holds(&events[1], FarmResource::Seeds(Species::Wheat)), Some(100));
    assert_eq!(events[2].owner, ann);
    assert_eq!(holds(&events[2], FarmResource::FoodValue(Species::Apple)), Some(10));
    assert_eq!(
        writes,
        vec![
            VoxelWrite { pos: pos(1, 0, 0), voxel: WorldVoxel::Solid(BlockType::Nothing.index()) },
            VoxelWrite { pos: pos(2, 0, 0), voxel: WorldVoxel::Solid(BlockType::AppleTree.index()) },
            VoxelWrite { pos: pos(3, 0, 0), voxel: WorldVoxel::Solid(BlockType::DeadTree.index()) },
        ]
    );
}

#[test]
fn a_short_list_of_sites_means_no_sites_for_the_rest() {
    let first = fruiting(Species::Apple, pos(0, 0, 0), None, 0);
    let second = fruiting(Species::Apple, pos(5, 0, 0), None, 0);
    let mut organisms = vec![first, second];
    let mut events: Vec<CollectResource> = Vec::new();
    let sites = vec![vec![pos(0, 1, 0)]];
    lifecycle_system(&sites, &mut organisms, &mut events);
    assert_eq!(organisms.len(), 3);
    assert_eq!(organisms[2].position.pos, pos(0, 1, 0));
    let mut organisms = vec![first, second];
    lifecycle_system(&Vec::new(), &mut organisms, &mut events);
    assert_eq!(organisms.len(), 2);
}
