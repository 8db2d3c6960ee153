//! What happens when an organism bears fruit: its owner's harvest, the seeds
//! it spreads, and whether it lives on or dies.

use vstd::prelude::*;
use crate::core_components::{DecayTimer, LifePhase, Organism, PlayerRef, Species};
use crate::lifecycles::Advance;
use crate::resources::{CollectResource, Collection, FarmResource, ResourceMap};
use crate::spawner::{spawn_organism, spec_spawn_organism};
use crate::voxel_world::{VoxelPos, VoxelWrite};

verus! {

/// What one fruiting of a species yields: its seeds and its food.
pub open spec fn spec_yield(species: Species) -> Map<FarmResource, u32> {
    Map::<FarmResource, u32>::empty().insert(
        FarmResource::Seeds(species),
        species.spec_seeds_per_generation(),
    ).insert(FarmResource::FoodValue(species), species.spec_food_value())
}

/// The player that an organism belongs to, if it belongs to one.
pub open spec fn spec_owner(organism: Organism) -> Option<PlayerRef> {
    match organism.owner {
        Some(owned) => Some(owned.owner),
        None => None,
    }
}

impl Organism {
    /// The player that this organism belongs to, if it belongs to one.
    pub fn owner_ref(&self) -> (owner: Option<PlayerRef>)
        ensures
            owner == spec_owner(*self),
    {
        match self.owner {
            Some(owned) => Some(owned.owner),
            None => None,
        }
    }

    /// A fruiting organism that has an owner yields one collection for that
    /// owner: the seeds and the food of its species. An organism without an
    /// owner, or in another phase, yields none.
    pub open spec fn spec_harvest(self) -> Option<Collection> {
        match self.owner {
            Some(owned) if self.phase == LifePhase::Fruiting => Some(
                Collection { owner: owned.owner, resource: spec_yield(self.species) },
            ),
            _ => None,
        }
    }

    /// The collection that this organism yields, if it yields one.
    pub fn harvest(&self) -> (collect: Option<CollectResource>)
        ensures
            match collect {
                Some(c) => self.spec_harvest() == Some(c@),
                None => self.spec_harvest() is None,
            },
    {
        match (self.owner, self.phase) {
            (Some(owned), LifePhase::Fruiting) => {
                let mut resource = ResourceMap::new();
                resource.insert(
                    FarmResource::Seeds(self.species),
                    self.species.seeds_per_generation(),
                );
                resource.insert(FarmResource::FoodValue(self.species), self.species.food_value());
                Some(CollectResource { owner: owned.owner, resource })
            },
            _ => None,
        }
    }

    /// A fruiting organism spreads one seed to each of the first sites
    /// handed in, as many as its species spreads at most. Each seed is a new
    /// organism of the same species with the same owner. An organism in
    /// another phase spreads none.
    pub open spec fn spec_offspring(self, sites: Seq<VoxelPos>) -> Seq<Organism> {
        if self.phase == LifePhase::Fruiting {
            let spread = self.species.spec_spread_per_fruiting() as int;
            sites.take(if sites.len() <= spread { sites.len() as int } else { spread }).map_values(
                |pos: VoxelPos|
                    spec_spawn_organism(self.species, LifePhase::Seed, pos, spec_owner(self)),
            )
        } else {
            Seq::empty()
        }
    }

    /// The seeds that this organism spreads to the sites handed in.
    pub fn offspring(&self, sites: &Vec<VoxelPos>) -> (seeds: Vec<Organism>)
        ensures
            seeds@ == self.spec_offspring(sites@),
    {
        let mut seeds: Vec<Organism> = Vec::new();
        match self.phase {
            LifePhase::Fruiting => {
                let spread: usize = self.species.spread_per_fruiting() as usize;
                let count: usize = if sites.len() <= spread {
                    sites.len()
                } else {
                    spread
                };
                let owner = self.owner_ref();
                let mut i: usize = 0;
                while i < count
                    invariant
                        i <= count <= sites.len(),
                        owner == spec_owner(*self),
                        seeds@ == sites@.take(i as int).map_values(
                            |pos: VoxelPos|
                                spec_spawn_organism(
                                    self.species,
                                    LifePhase::Seed,
                                    pos,
                                    spec_owner(*self),
                                ),
                        ),
                    decreases count - i,
                {
                    seeds.push(spawn_organism(self.species, LifePhase::Seed, sites[i], owner));
                    i += 1;
                    assert(seeds@ == sites@.take(i as int).map_values(
                        |pos: VoxelPos|
                            spec_spawn_organism(
                                self.species,
                                LifePhase::Seed,
                                pos,
                                spec_owner(*self),
                            ),
                    ));
                }
                seeds
            },
            _ => seeds,
        }
    }

    /// A fruiting organism that has borne fruit more often than the mean of
    /// the fewest and the most generations of its species dies, and its
    /// decay timer is set to the decay time of the species; otherwise it is
    /// mature again. Other phases are left alone.
    pub open spec fn spec_wither(self) -> Advance {
        if self.phase != LifePhase::Fruiting {
            Advance { organism: self, write: None }
        } else if self.generations.0 > self.species.spec_generation_lifetime() {
            Advance {
                organism: Organism {
                    phase: LifePhase::Death,
                    decay_timer: DecayTimer(self.species.spec_decay_time()),
                    ..self
                },
                write: Some(self.spec_paint(LifePhase::Death)),
            }
        } else {
            Advance {
                organism: Organism { phase: LifePhase::Mature, ..self },
                write: Some(self.spec_paint(LifePhase::Mature)),
            }
        }
    }

    /// Applies the rule of the fruiting phase to the organism itself.
    pub fn wither(self) -> (out: Advance)
        ensures
            out == self.spec_wither(),
    {
        match self.phase {
            LifePhase::Fruiting => {
                let mut organism = self;
                if self.generations.0 > self.species.generation_lifetime() {
                    let write = self.paint(&LifePhase::Death);
                    organism.phase = LifePhase::Death;
                    organism.decay_timer = DecayTimer(self.species.decay_time());
                    Advance { organism, write: Some(write) }
                } else {
                    let write = self.paint(&LifePhase::Mature);
                    organism.phase = LifePhase::Mature;
                    Advance { organism, write: Some(write) }
                }
            },
            _ => Advance { organism: self, write: None },
        }
    }
}

/// The sites handed in for the organism at one place of the population:
/// none where the list of sites is shorter than the population.
pub open spec fn sites_at(sites: Seq<Vec<VoxelPos>>, i: int) -> Seq<VoxelPos> {
    if 0 <= i < sites.len() {
        sites[i]@
    } else {
        Seq::empty()
    }
}

/// The seeds that the first `upto` organisms of a population spread, in the
/// order of the population.
pub open spec fn spec_spread(organisms: Seq<Organism>, sites: Seq<Vec<VoxelPos>>, upto: int) -> Seq<
    Organism,
> {
    Seq::new(upto as nat, |i: int| organisms[i].spec_offspring(sites_at(sites, i))).flatten()
}

/// The population after every fruiting organism was resolved, without the
/// seeds.
pub open spec fn spec_withered(organisms: Seq<Organism>) -> Seq<Organism> {
    organisms.map_values(|o: Organism| o.spec_wither().organism)
}

/// The writes that resolving every fruiting organism asks for.
pub open spec fn spec_wither_writes(organisms: Seq<Organism>) -> Seq<VoxelWrite> {
    organisms.filter_map(|o: Organism| o.spec_wither().write)
}

/// The collections that a population yields, in its order.
pub open spec fn spec_harvests(organisms: Seq<Organism>) -> Seq<Collection> {
    organisms.filter_map(|o: Organism| o.spec_harvest())
}

/// What a list of pending collections says.
pub open spec fn collections(events: Seq<CollectResource>) -> Seq<Collection> {
    events.map_values(|e: CollectResource| e@)
}

/// Resolves every fruiting organism of the population. Its owner, if it has
/// one, gets a pending collection. It spreads seeds to the sites handed in
/// for its place in the population; they join the population at its end.
/// Then it dies or is mature again. Organisms in other phases are left
/// alone.
pub fn lifecycle_system(
    sites: &Vec<Vec<VoxelPos>>,
    organisms: &mut Vec<Organism>,
    events: &mut Vec<CollectResource>,
) -> (writes: Vec<VoxelWrite>)
    ensures
        final(organisms)@ == spec_withered(old(organisms)@) + spec_spread(
            old(organisms)@,
            sites@,
            old(organisms)@.len() as int,
        ),
        collections(final(events)@) == collections(old(events)@) + spec_harvests(old(organisms)@),
        writes@ == spec_wither_writes(old(organisms)@),
{
    let ghost before = organisms@;
    let ghost pending = events@;
    let ghost paint = |o: Organism| o.spec_wither().write;
    let ghost reap = |o: Organism| o.spec_harvest();
    let ghost kids = |i: int| before[i].spec_offspring(sites_at(sites@, i));
    let mut writes: Vec<VoxelWrite> = Vec::new();
    let mut seeds: Vec<Organism> = Vec::new();
    let no_sites: Vec<VoxelPos> = Vec::new();
    let count: usize = organisms.len();
    let mut i: usize = 0;
    assert(Seq::new(0, kids).flatten() == Seq::<Organism>::empty());
    assert(collections(events@) == collections(pending) + before.take(0).filter_map(reap));
    while i < count
        invariant
            i <= count,
            organisms@.len() == count,
            before.len() == count,
            no_sites@.len() == 0,
            forall|j: int|
                0 <= j < i ==> organisms@[j] == (#[trigger] before[j]).spec_wither().organism,
            forall|j: int| i <= j < count ==> organisms@[j] == before[j],
            paint == |o: Organism| o.spec_wither().write,
            reap == |o: Organism| o.spec_harvest(),
            kids == |k: int| before[k].spec_offspring(sites_at(sites@, k)),
            writes@ == before.take(i as int).filter_map(paint),
            collections(events@) == collections(pending) + before.take(i as int).filter_map(reap),
            seeds@ == Seq::new(i as nat, kids).flatten(),
        decreases count - i,
    {
        let parent = organisms[i];
        proof {
            before.lemma_filter_map_take_succ(paint, i as int);
            before.lemma_filter_map_take_succ(reap, i as int);
        }
        let ghost events_before = events@;
        match parent.harvest() {
            Some(collect) => {
                events.push(collect);
                assert(collections(events@) == collections(events_before).push(collect@));
            },
            None => {},
        }
        let mut spread = if i < sites.len() {
            parent.offspring(&sites[i])
        } else {
            parent.offspring(&no_sites)
        };
        proof {
            assert(spread@ == kids(i as int));
            assert(Seq::new((i + 1) as nat, kids) == Seq::new(i as nat, kids).push(
                kids(i as int),
            ));
            Seq::new(i as nat, kids).lemma_flatten_push(kids(i as int));
        }
        seeds.append(&mut spread);
        let out = parent.wither();
        organisms[i] = out.organism;
        match out.write {
            Some(write) => {
                writes.push(write);
            },
            None => {},
        }
        i += 1;
    }
    proof {
        assert(before.take(count as int) == before);
        assert(organisms@ == spec_withered(before));
    }
    organisms.append(&mut seeds);
    writes
}

} // verus!
