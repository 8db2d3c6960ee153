//! Making new organisms.

use vstd::prelude::*;
use crate::core_components::{
    DecayTimer, Generations, GerminationTimer, HasPosition, LifePhase, MatureAgeTimer, OwnedBy,
    Organism, PlayerRef, Soil, Species, Water,
};
use crate::voxel_world::VoxelPos;

verus! {

/// Time that a new organism waits before it may germinate: five seconds.
pub const INITIAL_GERMINATION_TIME: i64 = 5000;

/// Water that a new organism starts with.
pub const INITIAL_WATER: u32 = 1;

/// Soil that a new organism starts with.
pub const INITIAL_SOIL: u32 = 1;

/// A new organism: it has the starting stock of water and soil and the
/// starting germination time, has borne no fruit, and its other timers stand
/// at zero.
pub open spec fn spec_spawn_organism(
    species: Species,
    phase: LifePhase,
    pos: VoxelPos,
    player_entity_opt: Option<PlayerRef>,
) -> Organism {
    Organism {
        position: HasPosition { pos },
        species,
        phase,
        generations: Generations(0),
        owner: match player_entity_opt {
            Some(owner) => Some(OwnedBy { owner }),
            None => None,
        },
        germination_timer: GerminationTimer(INITIAL_GERMINATION_TIME),
        mature_age_timer: MatureAgeTimer(0),
        decay_timer: DecayTimer(0),
        water: Water(INITIAL_WATER),
        soil: Soil(INITIAL_SOIL),
    }
}

/// Makes a new organism of a species, in a phase, at a coordinate, for an
/// owner if one is given. Whether the coordinate is free is not looked at.
pub fn spawn_organism(
    species: Species,
    phase: LifePhase,
    pos: VoxelPos,
    player_entity_opt: Option<PlayerRef>,
) -> (organism: Organism)
    ensures
        organism == spec_spawn_organism(species, phase, pos, player_entity_opt),
{
    Organism {
        position: HasPosition { pos },
        species,
        phase,
        generations: Generations(0),
        owner: match player_entity_opt {
            Some(owner) => Some(OwnedBy { owner }),
            None => None,
        },
        germination_timer: GerminationTimer(INITIAL_GERMINATION_TIME),
        mature_age_timer: MatureAgeTimer(0),
        decay_timer: DecayTimer(0),
        water: Water(INITIAL_WATER),
        soil: Soil(INITIAL_SOIL),
    }
}

/// Organisms of one species in one phase at the first `count` of the sites
/// handed in, or at all of them where they are fewer. None of them has an
/// owner.
pub open spec fn spec_life_in_chunk(
    species: Species,
    phase: LifePhase,
    count: u16,
    sites: Seq<VoxelPos>,
) -> Seq<Organism> {
    sites.take(if sites.len() <= count { sites.len() as int } else { count as int }).map_values(
        |pos: VoxelPos| spec_spawn_organism(species, phase, pos, None),
    )
}

/// Adds to the population up to `count` wild organisms of one species in
/// one phase, one at each of the first sites handed in.
pub fn spawn_life_in_chunk(
    organisms: &mut Vec<Organism>,
    species: Species,
    phase: LifePhase,
    count: u16,
    sites: &Vec<VoxelPos>,
)
    ensures
        final(organisms)@ == old(organisms)@ + spec_life_in_chunk(species, phase, count, sites@),
{
    let ghost before = organisms@;
    let wanted: usize = count as usize;
    let limit: usize = if sites.len() <= wanted {
        sites.len()
    } else {
        wanted
    };
    let mut i: usize = 0;
    while i < limit
        invariant
            i <= limit <= sites@.len(),
            organisms@ == before + sites@.take(i as int).map_values(
                |pos: VoxelPos| spec_spawn_organism(species, phase, pos, None),
            ),
        decreases limit - i,
    {
        organisms.push(spawn_organism(species, phase, sites[i], None));
        i += 1;
        assert(organisms@ == before + sites@.take(i as int).map_values(
            |pos: VoxelPos| spec_spawn_organism(species, phase, pos, None),
        ));
    }
}

/// How many wild organisms a chunk starts with: as many as all species
/// together grow wild in a chunk.
pub open spec fn spec_wild_population() -> u16 {
    (Species::Apple.spec_wild_organisms_per_chunk() + Species::Wheat.spec_wild_organisms_per_chunk())
        as u16
}

/// How many wild organisms a chunk starts with.
pub fn wild_population() -> (count: u16)
    ensures
        count == spec_wild_population(),
{
    Species::Apple.wild_organisms_per_chunk() + Species::Wheat.wild_organisms_per_chunk()
}

/// Seeds a chunk with its wild population. For each species, as many apple
/// seeds as organisms of that species grow wild in a chunk are added to the
/// population, at the sites handed in, in their order.
pub fn init_life(organisms: &mut Vec<Organism>, sites: &Vec<VoxelPos>)
    ensures
        final(organisms)@ == old(organisms)@ + spec_life_in_chunk(
            Species::Apple,
            LifePhase::Seed,
            spec_wild_population(),
            sites@,
        ),
{
    spawn_life_in_chunk(organisms, Species::Apple, LifePhase::Seed, wild_population(), sites);
}

} // verus!
