//! The data model: species and their policy, life phases, organisms, and the
//! resources that players collect.
//!
//! Time and light are fixed-point numbers with three decimal places: a value
//! of `1000` stands for one second, or for one unit of light.

use vstd::prelude::*;
use crate::block_types::BlockType;
use crate::voxel_world::VoxelPos;

pub use crate::resources::{
    add_resources, CollectResource, FarmResource, PlayerInventory, ResourceMap,
};

verus! {

/// How many steps of a fixed-point quantity make one whole unit.
pub const UNIT: i64 = 1000;

/// Where an organism stands.
#[derive(Clone, Copy, Debug, PartialEq, Eq, Structural)]
pub struct HasPosition {
    pub pos: VoxelPos,
}

/// An opaque reference to a player.
#[derive(Clone, Copy, Debug, PartialEq, Eq, Hash, Structural)]
pub struct PlayerRef(pub u64);

/// The player an organism or a pending collection belongs to.
#[derive(Clone, Copy, Debug, PartialEq, Eq, Structural)]
pub struct OwnedBy {
    pub owner: PlayerRef,
}

/// Quantity of water.
#[derive(Clone, Copy, Debug, PartialEq, Eq, Structural)]
pub struct Water(pub u32);

/// Quantity of soil.
#[derive(Clone, Copy, Debug, PartialEq, Eq, Structural)]
pub struct Soil(pub u32);

/// Time left until a seed may germinate, and then until the seedling starts
/// to grow.
#[derive(Clone, Copy, Debug, PartialEq, Eq, Structural)]
pub struct GerminationTimer(pub i64);

/// Time left until a mature organism is pollinated.
#[derive(Clone, Copy, Debug, PartialEq, Eq, Structural)]
pub struct MatureAgeTimer(pub i64);

/// Time left until a dead organism is removed.
#[derive(Clone, Copy, Debug, PartialEq, Eq, Structural)]
pub struct DecayTimer(pub i64);

/// How many times an organism has borne fruit.
#[derive(Clone, Copy, Debug, PartialEq, Eq, Structural)]
pub struct Generations(pub u32);

/// What a seed must have at hand to germinate. These are thresholds: they
/// are compared with the stock and not used up.
#[derive(Clone, Copy, Debug, PartialEq, Eq, Structural)]
pub struct GerminationNeeds {
    pub water: Water,
    pub soil: Soil,
}

/// What is still to be taken in before growth is complete. Unlike the needs
/// of germination these are pools that each tick draws from.
#[derive(Clone, Copy, Debug, PartialEq, Eq, Structural)]
pub struct GrowingNeeds {
    pub water: Water,
    pub soil: Soil,
    pub light: i64,
    pub time: i64,
}

/// What is still to be taken in before fruit is borne.
#[derive(Clone, Copy, Debug, PartialEq, Eq, Structural)]
pub struct FruitingNeeds {
    pub water: Water,
    pub soil: Soil,
    pub light: i64,
    pub time: i64,
}

/// A kind of plant. Each species has its own policy: what it needs, what it
/// yields, how far it spreads and how long it lives.
#[derive(Clone, Copy, Debug, PartialEq, Eq, Hash, Structural)]
pub enum Species {
    Apple,
    Wheat,
}

/// The stage of its life cycle that an organism is in.
#[derive(Clone, Copy, Debug, PartialEq, Eq, Structural)]
#[allow(inconsistent_fields)]
pub enum LifePhase {
    Seed,
    Germinated,
    Growing { needs: GrowingNeeds },
    Mature,
    Pollinated { needs: FruitingNeeds },
    Fruiting,
    Death,
}

impl Species {
    /// The policy table: germination thresholds of each species.
    pub open spec fn spec_germination_needs(self) -> GerminationNeeds {
        match self {
            Species::Apple => GerminationNeeds { water: Water(1), soil: Soil(1) },
            Species::Wheat => GerminationNeeds { water: Water(1), soil: Soil(1) },
        }
    }

    /// The stock of water and soil below which a seed does not germinate.
    pub fn germination_needs(&self) -> (needs: GerminationNeeds)
        ensures
            needs == self.spec_germination_needs(),
    {
        match self {
            Species::Apple => GerminationNeeds { water: Water(1), soil: Soil(1) },
            Species::Wheat => GerminationNeeds { water: Water(1), soil: Soil(1) },
        }
    }

    /// The policy table: what each species takes in to grow up. Light and time
    /// are in thousandths.
    pub open spec fn spec_growing_needs(self) -> GrowingNeeds {
        match self {
            Species::Apple => GrowingNeeds {
                water: Water(50),
                soil: Soil(50),
                light: 100_000,
                time: 100_000,
            },
            Species::Wheat => GrowingNeeds {
                water: Water(10),
                soil: Soil(10),
                light: 10_000,
                time: 10_000,
            },
        }
    }

    /// What a seedling must take in to become mature.
    pub fn growing_needs(&self) -> (needs: GrowingNeeds)
        ensures
            needs == self.spec_growing_needs(),
    {
        match self {
            Species::Apple => GrowingNeeds {
                water: Water(50),
                soil: Soil(50),
                light: 100_000,
                time: 100_000,
            },
            Species::Wheat => GrowingNeeds {
                water: Water(10),
                soil: Soil(10),
                light: 10_000,
                time: 10_000,
            },
        }
    }

    /// The policy table: what each species takes in to bear fruit. Light and
    /// time are in thousandths.
    pub open spec fn spec_fruiting_needs(self) -> FruitingNeeds {
        match self {
            Species::Apple => FruitingNeeds {
                water: Water(20),
                soil: Soil(20),
                light: 40_000,
                time: 40_000,
            },
            Species::Wheat => FruitingNeeds {
                water: Water(3),
                soil: Soil(3),
                light: 10_000,
                time: 30_000,
            },
        }
    }

    /// What a pollinated organism must take in to bear fruit.
    pub fn fruiting_needs(&self) -> (needs: FruitingNeeds)
        ensures
            needs == self.spec_fruiting_needs(),
    {
        match self {
            Species::Apple => FruitingNeeds {
                water: Water(20),
                soil: Soil(20),
                light: 40_000,
                time: 40_000,
            },
            Species::Wheat => FruitingNeeds {
                water: Water(3),
                soil: Soil(3),
                light: 10_000,
                time: 30_000,
            },
        }
    }

    /// The policy table: seeds per fruiting.
    pub open spec fn spec_seeds_per_generation(self) -> u32 {
        match self {
            Species::Apple => 15,
            Species::Wheat => 100,
        }
    }

    /// Seeds that the owner collects each time the organism bears fruit.
    pub fn seeds_per_generation(&self) -> (seeds: u32)
        ensures
            seeds == self.spec_seeds_per_generation(),
    {
        match self {
            Species::Apple => 15,
            Species::Wheat => 100,
        }
    }

    /// The policy table: places seeded per fruiting.
    pub open spec fn spec_spread_per_fruiting(self) -> u8 {
        match self {
            Species::Apple => 2,
            Species::Wheat => 10,
        }
    }

    /// How many places the organism tries to seed each time it bears fruit.
    pub fn spread_per_fruiting(&self) -> (count: u8)
        ensures
            count == self.spec_spread_per_fruiting(),
    {
        match self {
            Species::Apple => 2,
            Species::Wheat => 10,
        }
    }

    /// The policy table: reach of the seeds, in blocks.
    pub open spec fn spec_spread_distance(self) -> u8 {
        match self {
            Species::Apple => 10,
            Species::Wheat => 50,
        }
    }

    /// How far from the organism its seeds fall at most.
    pub fn spread_distance(&self) -> (distance: u8)
        ensures
            distance == self.spec_spread_distance(),
    {
        match self {
            Species::Apple => 10,
            Species::Wheat => 50,
        }
    }

    /// The policy table: food per fruiting.
    pub open spec fn spec_food_value(self) -> u32 {
        match self {
            Species::Apple => 10,
            Species::Wheat => 2,
        }
    }

    /// Food that the owner collects each time the organism bears fruit.
    pub fn food_value(&self) -> (food: u32)
        ensures
            food == self.spec_food_value(),
    {
        match self {
            Species::Apple => 10,
            Species::Wheat => 2,
        }
    }

    /// The policy table: wild organisms per chunk.
    pub open spec fn spec_wild_organisms_per_chunk(self) -> u16 {
        match self {
            Species::Apple => 1,
            Species::Wheat => 10,
        }
    }

    /// How many organisms of the species grow wild in one chunk.
    pub fn wild_organisms_per_chunk(&self) -> (count: u16)
        ensures
            count == self.spec_wild_organisms_per_chunk(),
    {
        match self {
            Species::Apple => 1,
            Species::Wheat => 10,
        }
    }

    /// The policy table: the block that shows each species in each phase.
    pub open spec fn spec_block_type(self, phase: LifePhase) -> BlockType {
        match (self, phase) {
            (_, LifePhase::Seed) => BlockType::SeedPlanted,
            (_, LifePhase::Germinated) => BlockType::SeedPlanted,
            (Species::Apple, LifePhase::Growing { .. }) => BlockType::AppleSapling,
            (Species::Apple, LifePhase::Mature) => BlockType::AppleTree,
            (Species::Apple, LifePhase::Pollinated { .. }) => BlockType::AppleTree,
            (Species::Apple, LifePhase::Fruiting) => BlockType::AppleTree,
            (Species::Apple, LifePhase::Death) => BlockType::DeadTree,
            (Species::Wheat, LifePhase::Growing { .. }) => BlockType::WheatSprouts,
            (Species::Wheat, LifePhase::Mature) => BlockType::Wheat,
            (Species::Wheat, LifePhase::Pollinated { .. }) => BlockType::Wheat,
            (Species::Wheat, LifePhase::Fruiting) => BlockType::Wheat,
            (Species::Wheat, LifePhase::Death) => BlockType::Nothing,
        }
    }

    /// The block that shows an organism of the species in a life phase.
    pub fn block_type(&self, phase: &LifePhase) -> (block: BlockType)
        ensures
            block == self.spec_block_type(*phase),
    {
        match (self, phase) {
            (Species::Apple, LifePhase::Seed) => BlockType::SeedPlanted,
            (Species::Apple, LifePhase::Germinated) => BlockType::SeedPlanted,
            (Species::Apple, LifePhase::Growing { .. }) => BlockType::AppleSapling,
            (Species::Apple, LifePhase::Mature) => BlockType::AppleTree,
            (Species::Apple, LifePhase::Pollinated { .. }) => BlockType::AppleTree,
            (Species::Apple, LifePhase::Fruiting) => BlockType::AppleTree,
            (Species::Apple, LifePhase::Death) => BlockType::DeadTree,
            (Species::Wheat, LifePhase::Seed) => BlockType::SeedPlanted,
            (Species::Wheat, LifePhase::Germinated) => BlockType::SeedPlanted,
            (Species::Wheat, LifePhase::Growing { .. }) => BlockType::WheatSprouts,
            (Species::Wheat, LifePhase::Mature) => BlockType::Wheat,
            (Species::Wheat, LifePhase::Pollinated { .. }) => BlockType::Wheat,
            (Species::Wheat, LifePhase::Fruiting) => BlockType::Wheat,
            (Species::Wheat, LifePhase::Death) => BlockType::Nothing,
        }
    }

    /// The policy table: fewest generations.
    pub open spec fn spec_min_generations(self) -> u32 {
        match self {
            Species::Apple => 10,
            Species::Wheat => 1,
        }
    }

    /// The fewest times an organism of the species bears fruit.
    pub fn min_generations(&self) -> (count: u32)
        ensures
            count == self.spec_min_generations(),
    {
        match self {
            Species::Apple => 10,
            Species::Wheat => 1,
        }
    }

    /// The policy table: most generations.
    pub open spec fn spec_max_generations(self) -> u32 {
        match self {
            Species::Apple => 200,
            Species::Wheat => 1,
        }
    }

    /// The most times an organism of the species bears fruit.
    pub fn max_generations(&self) -> (count: u32)
        ensures
            count == self.spec_max_generations(),
    {
        match self {
            Species::Apple => 200,
            Species::Wheat => 1,
        }
    }

    /// The policy table: decay time, in thousandths of a second.
    pub open spec fn spec_decay_time(self) -> i64 {
        match self {
            Species::Apple => 200_000,
            Species::Wheat => 0,
        }
    }

    /// How long a dead organism of the species stays before it is removed.
    pub fn decay_time(&self) -> (time: i64)
        ensures
            time == self.spec_decay_time(),
    {
        match self {
            Species::Apple => 200_000,
            Species::Wheat => 0,
        }
    }

    /// The generation count above which an organism dies after bearing
    /// fruit: the mean of the fewest and the most generations, rounded down.
    pub open spec fn spec_generation_lifetime(self) -> u32 {
        ((self.spec_min_generations() + self.spec_max_generations()) / 2) as u32
    }

    /// The generation count above which an organism dies after bearing fruit.
    pub fn generation_lifetime(&self) -> (lifetime: u32)
        ensures
            lifetime == self.spec_generation_lifetime(),
    {
        self.min_generations().saturating_add(self.max_generations()) / 2
    }
}

/// One plant: where it stands, what it is, how far it has come and what it
/// has at hand.
#[derive(Clone, Copy, Debug, PartialEq, Eq, Structural)]
pub struct Organism {
    pub position: HasPosition,
    pub species: Species,
    pub phase: LifePhase,
    pub generations: Generations,
    pub owner: Option<OwnedBy>,
    pub germination_timer: GerminationTimer,
    pub mature_age_timer: MatureAgeTimer,
    pub decay_timer: DecayTimer,
    pub water: Water,
    pub soil: Soil,
}

/// A resource that a player can paint into the world.
#[derive(Clone, Copy, Debug, PartialEq, Eq, Structural)]
pub enum PaintableResources {
    SeedCrop(Species),
}

/// A player's wish to plant at a coordinate.
#[derive(Clone, Copy, Debug, PartialEq, Eq, Structural)]
pub struct PlayerWantsToPaintVoxel {
    pub player: PlayerRef,
    pub pos: VoxelPos,
    pub paint_as: PaintableResources,
}

/// What the game as a whole is doing.
#[derive(Clone, Copy, Debug, Default, PartialEq, Eq, Hash, Structural)]
pub enum GameState {
    /// The assets are being loaded.
    #[default]
    Loading,
    /// The simulation runs.
    Playing,
    /// The menu is shown and the simulation stands still.
    Menu,
}

/// A request to change what the game is doing.
#[derive(Clone, Copy, Debug, PartialEq, Eq, Structural)]
pub struct ChangeState(pub GameState);

/// The phase that a planted seed starts in.
pub open spec fn spec_seed_phase() -> LifePhase {
    LifePhase::Seed
}

/// The phase that a planted seed starts in.
pub fn seed_phase() -> (phase: LifePhase)
    ensures
        phase == spec_seed_phase(),
{
    LifePhase::Seed
}

} // verus!
