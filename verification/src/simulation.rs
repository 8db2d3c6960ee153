//! One tick of the whole life cycle: every organism moves by the one rule of
//! the phase in which the tick finds it.

use vstd::prelude::*;
use crate::core_components::{LifePhase, Organism};
use crate::decay::Fate;
use crate::fruiting::{
    collections, lifecycle_system, sites_at, spec_harvests, spec_owner, spec_spread,
    spec_wither_writes, spec_withered,
};
use crate::spawner::spec_spawn_organism;
use crate::ledger::{
    can_collect, creditable, is_first_of_entity, resource_collection_system, spec_credit, Player,
};
use crate::resources::{CollectResource, Collection};
use crate::spread::{is_offered_site, is_spread_plan, plan_spread};
use crate::voxel_world::{VoxelPos, VoxelWrite, WorldVoxel};

verus! {

impl Organism {
    /// What one tick makes of this organism: the rule of its phase is
    /// applied, and no other.
    pub open spec fn spec_tick(self, delta: u32, light: u32) -> Fate {
        match self.phase {
            LifePhase::Seed => Fate {
                survivor: Some(self.spec_germinate(delta).organism),
                write: self.spec_germinate(delta).write,
            },
            LifePhase::Germinated => Fate {
                survivor: Some(self.spec_sprout(delta).organism),
                write: self.spec_sprout(delta).write,
            },
            LifePhase::Growing { .. } => Fate {
                survivor: Some(self.spec_mature(delta, light).organism),
                write: self.spec_mature(delta, light).write,
            },
            LifePhase::Mature => Fate {
                survivor: Some(self.spec_pollinate(delta).organism),
                write: self.spec_pollinate(delta).write,
            },
            LifePhase::Pollinated { .. } => Fate {
                survivor: Some(self.spec_bear_fruit(delta, light).organism),
                write: self.spec_bear_fruit(delta, light).write,
            },
            LifePhase::Fruiting => Fate {
                survivor: Some(self.spec_wither().organism),
                write: self.spec_wither().write,
            },
            LifePhase::Death => self.spec_decay(delta),
        }
    }

    /// Applies the rule of the phase that this organism is in.
    pub fn tick(self, delta: u32, light: u32) -> (out: Fate)
        ensures
            out == self.spec_tick(delta, light),
    {
        match self.phase {
            LifePhase::Seed => {
                let step = self.germinate(delta);
                Fate { survivor: Some(step.organism), write: step.write }
            },
            LifePhase::Germinated => {
                let step = self.sprout(delta);
                Fate { survivor: Some(step.organism), write: step.write }
            },
            LifePhase::Growing { .. } => {
                let step = self.mature(delta, light);
                Fate { survivor: Some(step.organism), write: step.write }
            },
            LifePhase::Mature => {
                let step = self.pollinate(delta);
                Fate { survivor: Some(step.organism), write: step.write }
            },
            LifePhase::Pollinated { .. } => {
                let step = self.bear_fruit(delta, light);
                Fate { survivor: Some(step.organism), write: step.write }
            },
            LifePhase::Fruiting => {
                let step = self.wither();
                Fate { survivor: Some(step.organism), write: step.write }
            },
            LifePhase::Death => self.decay(delta),
        }
    }
}

/// The organisms of a population that one tick leaves, each as the tick
/// leaves it, without the seeds that the tick adds.
pub open spec fn spec_tick_survivors(organisms: Seq<Organism>, delta: u32, light: u32) -> Seq<
    Organism,
> {
    organisms.filter_map(|o: Organism| o.spec_tick(delta, light).survivor)
}

/// The writes that one tick asks for over a population, in its order.
pub open spec fn spec_tick_writes(organisms: Seq<Organism>, delta: u32, light: u32) -> Seq<
    VoxelWrite,
> {
    organisms.filter_map(|o: Organism| o.spec_tick(delta, light).write)
}

/// Advances the whole population by one tick of length `delta` under
/// `light`. Every organism moves by the rule of the phase in which the tick
/// finds it. Fruiting organisms also yield a pending collection for their
/// owner and spread seeds to the sites handed in for their place in the
/// population; the seeds join the population at its end and do not move in
/// this tick.
pub fn lifecycle_tick(
    delta: u32,
    light: u32,
    sites: &Vec<Vec<VoxelPos>>,
    organisms: &mut Vec<Organism>,
    events: &mut Vec<CollectResource>,
) -> (writes: Vec<VoxelWrite>)
    ensures
        final(organisms)@ == spec_tick_survivors(old(organisms)@, delta, light) + spec_spread(
            old(organisms)@,
            sites@,
            old(organisms)@.len() as int,
        ),
        collections(final(events)@) == collections(old(events)@) + spec_harvests(old(organisms)@),
        writes@ == spec_tick_writes(old(organisms)@, delta, light),
{
    let ghost before = organisms@;
    let ghost pending = events@;
    let ghost keep = |o: Organism| o.spec_tick(delta, light).survivor;
    let ghost paint = |o: Organism| o.spec_tick(delta, light).write;
    let ghost reap = |o: Organism| o.spec_harvest();
    let ghost kids = |i: int| before[i].spec_offspring(sites_at(sites@, i));
    let mut writes: Vec<VoxelWrite> = Vec::new();
    let mut kept: Vec<Organism> = Vec::new();
    let mut seeds: Vec<Organism> = Vec::new();
    let no_sites: Vec<VoxelPos> = Vec::new();
    let count: usize = organisms.len();
    let mut i: usize = 0;
    assert(Seq::new(0, kids).flatten() == Seq::<Organism>::empty());
    assert(collections(events@) == collections(pending) + before.take(0).filter_map(reap));
    while i < count
        invariant
            i <= count,
            organisms@ == before,
            before.len() == count,
            no_sites@.len() == 0,
            keep == |o: Organism| o.spec_tick(delta, light).survivor,
            paint == |o: Organism| o.spec_tick(delta, light).write,
            reap == |o: Organism| o.spec_harvest(),
            kids == |k: int| before[k].spec_offspring(sites_at(sites@, k)),
            kept@ == before.take(i as int).filter_map(keep),
            writes@ == before.take(i as int).filter_map(paint),
            collections(events@) == collections(pending) + before.take(i as int).filter_map(reap),
            seeds@ == Seq::new(i as nat, kids).flatten(),
        decreases count - i,
    {
        let organism = organisms[i];
        proof {
            before.lemma_filter_map_take_succ(keep, i as int);
            before.lemma_filter_map_take_succ(paint, i as int);
            before.lemma_filter_map_take_succ(reap, i as int);
        }
        let ghost events_before = events@;
        match organism.harvest() {
            Some(collect) => {
                events.push(collect);
                assert(collections(events@) == collections(events_before).push(collect@));
            },
            None => {},
        }
        let mut spread = if i < sites.len() {
            organism.offspring(&sites[i])
        } else {
            organism.offspring(&no_sites)
        };
        proof {
            assert(spread@ == kids(i as int));
            assert(Seq::new((i + 1) as nat, kids) == Seq::new(i as nat, kids).push(
                kids(i as int),
            ));
            Seq::new(i as nat, kids).lemma_flatten_push(kids(i as int));
        }
        seeds.append(&mut spread);
        let out = organism.tick(delta, light);
        match out.survivor {
            Some(survivor) => {
                kept.push(survivor);
            },
            None => {},
        }
        match out.write {
            Some(write) => {
                writes.push(write);
            },
            None => {},
        }
        i += 1;
    }
    proof {
        assert(before.take(count as int) == before);
    }
    kept.append(&mut seeds);
    *organisms = kept;
    writes
}

/// What one tick of the simulation hands back: the voxel writes it asks for,
/// and whether the pending collections were credited.
#[derive(Clone, Debug)]
pub struct TickReport {
    pub writes: Vec<VoxelWrite>,
    pub credited: bool,
}

/// Whether every player of a list can be credited with a list of
/// collections, with every quantity in range. Of several players with the
/// same reference only the first counts.
pub open spec fn all_creditable(players: Seq<Player>, pending: Seq<Collection>) -> bool {
    forall|i: int|
        0 <= i < players.len() && is_first_of_entity(players, i) ==> creditable(
            (#[trigger] players[i]).inventory.resources@,
            players[i].entity,
            pending,
        )
}

/// One whole tick: the population is advanced as by `lifecycle_tick`, and
/// then the collections that are pending, those of this tick among them, are
/// credited to the players and discarded. Where crediting would take a
/// quantity out of range, nothing is credited and the collections stay
/// pending.
pub fn simulation_tick(
    delta: u32,
    light: u32,
    sites: &Vec<Vec<VoxelPos>>,
    organisms: &mut Vec<Organism>,
    events: &mut Vec<CollectResource>,
    players: &mut Vec<Player>,
) -> (report: TickReport)
    ensures
        final(organisms)@ == spec_tick_survivors(old(organisms)@, delta, light) + spec_spread(
            old(organisms)@,
            sites@,
            old(organisms)@.len() as int,
        ),
        report.writes@ == spec_tick_writes(old(organisms)@, delta, light),
        report.credited == all_creditable(
            old(players)@,
            collections(old(events)@) + spec_harvests(old(organisms)@),
        ),
        report.credited ==> final(events)@.len() == 0,
        !report.credited ==> collections(final(events)@) == collections(old(events)@)
            + spec_harvests(old(organisms)@),
        !report.credited ==> final(players)@ == old(players)@,
        final(players)@.len() == old(players)@.len(),
        forall|i: int|
            0 <= i < old(players)@.len() ==> (#[trigger] final(players)@[i]).entity == old(
                players,
            )@[i].entity,
        report.credited ==> forall|i: int|
            0 <= i < old(players)@.len() ==> (#[trigger] final(players)@[i]).inventory.resources@
                == if is_first_of_entity(old(players)@, i) {
                spec_credit(
                    old(players)@[i].inventory.resources@,
                    old(players)@[i].entity,
                    collections(old(events)@) + spec_harvests(old(organisms)@),
                )
            } else {
                old(players)@[i].inventory.resources@
            },
{
    let writes = lifecycle_tick(delta, light, sites, organisms, events);
    let credited = can_collect(players, events);
    if credited {
        resource_collection_system(players, events);
    }
    TickReport { writes, credited }
}

/// Advances the whole population by one tick in a world that is read
/// through `sample` and `get_voxel`. The world is asked where the fruiting
/// organisms may spread their seeds, and the population is then advanced as
/// by `lifecycle_tick` with the sites that the world has offered. Whatever
/// the world answers, the seeds that join the population lie on a plan that
/// the world offers.
pub fn lifecycle_tick_in_world<
    S: Fn(VoxelPos, u32) -> Option<(VoxelPos, WorldVoxel)>,
    G: Fn(VoxelPos) -> WorldVoxel,
>(
    sample: &S,
    get_voxel: &G,
    attempts: u32,
    delta: u32,
    light: u32,
    organisms: &mut Vec<Organism>,
    events: &mut Vec<CollectResource>,
) -> (writes: Vec<VoxelWrite>)
    requires
        forall|p: VoxelPos, r: u32| call_requires(sample, (p, r)),
        forall|p: VoxelPos| call_requires(get_voxel, (p,)),
    ensures
        exists|sites: Seq<Vec<VoxelPos>>|
            #![trigger is_spread_plan(sample, get_voxel, attempts, old(organisms)@, sites)]
            is_spread_plan(sample, get_voxel, attempts, old(organisms)@, sites) && final(organisms)@
                == spec_tick_survivors(old(organisms)@, delta, light) + spec_spread(
                old(organisms)@,
                sites,
                old(organisms)@.len() as int,
            ),
        collections(final(events)@) == collections(old(events)@) + spec_harvests(old(organisms)@),
        writes@ == spec_tick_writes(old(organisms)@, delta, light),
{
    let sites = plan_spread(sample, get_voxel, attempts, organisms);
    let writes = lifecycle_tick(delta, light, &sites, organisms, events);
    assert(is_spread_plan(sample, get_voxel, attempts, old(organisms)@, sites@));
    writes
}

/// Resolves every fruiting organism of the population in a world that is
/// read through `sample` and `get_voxel`. The world is searched for the
/// places where each fruiting organism spreads its seeds, and the fruiting
/// organisms are then resolved as by `lifecycle_system` with the plan that
/// the search has come to.
pub fn lifecycle_system_in_world<
    S: Fn(VoxelPos, u32) -> Option<(VoxelPos, WorldVoxel)>,
    G: Fn(VoxelPos) -> WorldVoxel,
>(
    sample: &S,
    get_voxel: &G,
    attempts: u32,
    organisms: &mut Vec<Organism>,
    events: &mut Vec<CollectResource>,
) -> (writes: Vec<VoxelWrite>)
    requires
        forall|p: VoxelPos, r: u32| call_requires(sample, (p, r)),
        forall|p: VoxelPos| call_requires(get_voxel, (p,)),
    ensures
        exists|sites: Seq<Vec<VoxelPos>>|
            #![trigger is_spread_plan(sample, get_voxel, attempts, old(organisms)@, sites)]
            is_spread_plan(sample, get_voxel, attempts, old(organisms)@, sites)
                && final(organisms)@ == spec_withered(old(organisms)@) + spec_spread(
                old(organisms)@,
                sites,
                old(organisms)@.len() as int,
            ),
        collections(final(events)@) == collections(old(events)@) + spec_harvests(old(organisms)@),
        writes@ == spec_wither_writes(old(organisms)@),
{
    let sites = plan_spread(sample, get_voxel, attempts, organisms);
    let writes = lifecycle_system(&sites, organisms, events);
    assert(is_spread_plan(sample, get_voxel, attempts, old(organisms)@, sites@));
    writes
}

/// The seeds that a fruiting organism spreads under a plan that the world
/// offers. They are one for each site planned for it, at most as many as
/// its species spreads. Each is a seed of the parent's species with the
/// parent's owner, and stands at a growth site that the world offers within
/// the spread distance of the species. No two of them stand at the same
/// coordinate.
pub proof fn lemma_planned_seeds<
    S: Fn(VoxelPos, u32) -> Option<(VoxelPos, WorldVoxel)>,
    G: Fn(VoxelPos) -> WorldVoxel,
>(
    sample: &S,
    get_voxel: &G,
    attempts: u32,
    organisms: Seq<Organism>,
    sites: Seq<Vec<VoxelPos>>,
    i: int,
)
    requires
        is_spread_plan(sample, get_voxel, attempts, organisms, sites),
        0 <= i < organisms.len(),
        organisms[i].phase == LifePhase::Fruiting,
    ensures
        organisms[i].spec_offspring(sites_at(sites, i)).len() == sites[i]@.len(),
        sites[i]@.len() <= organisms[i].species.spec_spread_per_fruiting(),
        forall|k: int|
            0 <= k < sites[i]@.len() ==> #[trigger] organisms[i].spec_offspring(
                sites_at(sites, i),
            )[k] == spec_spawn_organism(
                organisms[i].species,
                LifePhase::Seed,
                sites[i]@[k],
                spec_owner(organisms[i]),
            ),
        forall|k: int|
            0 <= k < sites[i]@.len() ==> is_offered_site(
                sample,
                get_voxel,
                organisms[i].position.pos,
                organisms[i].species.spec_spread_distance(),
                (#[trigger] organisms[i].spec_offspring(sites_at(sites, i))[k]).position.pos,
            ),
        forall|a: int, b: int|
            0 <= a < b < sites[i]@.len() ==> (#[trigger] organisms[i].spec_offspring(
                sites_at(sites, i),
            )[a]).position.pos != (#[trigger] organisms[i].spec_offspring(
                sites_at(sites, i),
            )[b]).position.pos,
{
    let planned = sites[i]@;
    assert(sites_at(sites, i) == planned);
    assert(planned.take(planned.len() as int) == planned);
    assert(planned.no_duplicates());
}

} // verus!
