//! The life cycle: the rule by which an organism in each phase moves on, and
//! the passes that apply one rule to a whole population.
//!
//! Every pass hands back the voxel writes it asks for, in the order of the
//! population; the caller carries them out.

use vstd::prelude::*;
use crate::core_components::{
    FruitingNeeds, Generations, GerminationTimer, GrowingNeeds, LifePhase, MatureAgeTimer,
    Organism, Soil, Water,
};
use crate::voxel_world::{VoxelWrite, WorldVoxel};

pub use crate::decay::decay_system;
pub use crate::fruiting::lifecycle_system;
pub use crate::ledger::resource_collection_system;
pub use crate::spawner::{init_life, spawn_life_in_chunk};
pub use crate::spread::get_random_surface_voxels;

verus! {

/// Light that reaches every organism where nothing else is known: one unit.
pub const AMBIENT_LIGHT: u32 = 1000;

/// Light at or below this level does not let an organism grow.
pub const MIN_GROWTH_LIGHT: u32 = 10;

/// A timer after `delta` has passed. It stops at the lowest value it can hold.
pub open spec fn spec_count_down(timer: i64, delta: u32) -> i64 {
    if timer - delta < i64::MIN {
        i64::MIN
    } else {
        (timer - delta) as i64
    }
}

/// A timer after `delta` has passed.
pub fn count_down(timer: i64, delta: u32) -> (left: i64)
    ensures
        left == spec_count_down(timer, delta),
        left <= timer,
{
    let step: i64 = delta as i64;
    if timer < i64::MIN + step {
        i64::MIN
    } else {
        timer - step
    }
}

/// A pool of light or time after one tick has drawn `by` from it: a pool
/// that is used up is left as it is.
pub open spec fn spec_drain(pool: i64, by: u32) -> i64 {
    if pool > 0 {
        (pool - by) as i64
    } else {
        pool
    }
}

/// A pool of light or time after one tick has drawn `by` from it.
pub fn drain(pool: i64, by: u32) -> (left: i64)
    ensures
        left == spec_drain(pool, by),
{
    if pool > 0 {
        pool - (by as i64)
    } else {
        pool
    }
}

/// A pool of water or soil after `by` was drawn from it: never below zero.
pub open spec fn spec_draw(pool: u32, by: u32) -> u32 {
    if pool >= by {
        (pool - by) as u32
    } else {
        0
    }
}

/// How much water and soil one tick of growth uses: the scarcest of the
/// water at hand, the soil at hand and the whole units of light.
pub open spec fn spec_growth_value(water: u32, soil: u32, light: u32) -> u32 {
    let lit: u32 = (light / 1000) as u32;
    if water <= soil && water <= lit {
        water
    } else if soil <= lit {
        soil
    } else {
        lit
    }
}

/// How much water and soil one tick of growth uses.
pub fn growth_value(water: u32, soil: u32, light: u32) -> (value: u32)
    ensures
        value == spec_growth_value(water, soil, light),
        value <= water,
        value <= soil,
        value <= light / 1000,
{
    let lit: u32 = light / 1000;
    if water <= soil && water <= lit {
        water
    } else if soil <= lit {
        soil
    } else {
        lit
    }
}

/// Whether an organism with this stock and light can grow at all.
pub open spec fn spec_can_grow(water: u32, soil: u32, light: u32) -> bool {
    water > 0 && soil > 0 && light > MIN_GROWTH_LIGHT
}

impl GrowingNeeds {
    /// Nothing is left to take in.
    pub open spec fn spec_is_depleted(self) -> bool {
        self.time <= 0 && self.light <= 0 && self.water.0 == 0 && self.soil.0 == 0
    }

    /// Whether nothing is left to take in.
    pub fn is_depleted(&self) -> (done: bool)
        ensures
            done == self.spec_is_depleted(),
    {
        self.time <= 0 && self.light <= 0 && self.water.0 == 0 && self.soil.0 == 0
    }

    /// The needs after one tick of growth.
    pub open spec fn spec_deplete(self, growth: u32, delta: u32, light: u32) -> GrowingNeeds {
        GrowingNeeds {
            water: Water(spec_draw(self.water.0, growth)),
            soil: Soil(spec_draw(self.soil.0, growth)),
            light: spec_drain(self.light, light),
            time: spec_drain(self.time, delta),
        }
    }

    /// The needs after one tick of growth that used `growth` of water and of
    /// soil, under `light`, over the time `delta`.
    pub fn deplete(&self, growth: u32, delta: u32, light: u32) -> (left: GrowingNeeds)
        ensures
            left == self.spec_deplete(growth, delta, light),
            left.water.0 <= self.water.0,
            left.soil.0 <= self.soil.0,
    {
        GrowingNeeds {
            water: Water(self.water.0.saturating_sub(growth)),
            soil: Soil(self.soil.0.saturating_sub(growth)),
            light: drain(self.light, light),
            time: drain(self.time, delta),
        }
    }
}

impl FruitingNeeds {
    /// Nothing is left to take in.
    pub open spec fn spec_is_depleted(self) -> bool {
        self.time <= 0 && self.light <= 0 && self.water.0 == 0 && self.soil.0 == 0
    }

    /// Whether nothing is left to take in.
    pub fn is_depleted(&self) -> (done: bool)
        ensures
            done == self.spec_is_depleted(),
    {
        self.time <= 0 && self.light <= 0 && self.water.0 == 0 && self.soil.0 == 0
    }

    /// The needs after one tick of fruiting.
    pub open spec fn spec_deplete(self, growth: u32, delta: u32, light: u32) -> FruitingNeeds {
        FruitingNeeds {
            water: Water(spec_draw(self.water.0, growth)),
            soil: Soil(spec_draw(self.soil.0, growth)),
            light: spec_drain(self.light, light),
            time: spec_drain(self.time, delta),
        }
    }

    /// The needs after one tick of fruiting that used `growth` of water and
    /// of soil, under `light`, over the time `delta`.
    pub fn deplete(&self, growth: u32, delta: u32, light: u32) -> (left: FruitingNeeds)
        ensures
            left == self.spec_deplete(growth, delta, light),
            left.water.0 <= self.water.0,
            left.soil.0 <= self.soil.0,
    {
        FruitingNeeds {
            water: Water(self.water.0.saturating_sub(growth)),
            soil: Soil(self.soil.0.saturating_sub(growth)),
            light: drain(self.light, light),
            time: drain(self.time, delta),
        }
    }
}

/// An organism after one rule was applied to it, and the voxel write that
/// the rule asks for.
#[derive(Clone, Copy, Debug, PartialEq, Eq, Structural)]
pub struct Advance {
    pub organism: Organism,
    pub write: Option<VoxelWrite>,
}

impl Organism {
    /// The write that shows this organism in `phase`.
    pub open spec fn spec_paint(self, phase: LifePhase) -> VoxelWrite {
        VoxelWrite {
            pos: self.position.pos,
            voxel: WorldVoxel::Solid(self.species.spec_block_type(phase).spec_index()),
        }
    }

    /// The write that shows this organism in `phase`.
    pub fn paint(&self, phase: &LifePhase) -> (write: VoxelWrite)
        ensures
            write == self.spec_paint(*phase),
    {
        VoxelWrite {
            pos: self.position.pos,
            voxel: WorldVoxel::Solid(self.species.block_type(phase).index()),
        }
    }

    /// A seed germinates once its timer has run out and its stock of water
    /// and soil reaches what the species needs; the timer then starts anew
    /// at zero. Until then only the timer runs. Other phases are left alone.
    pub open spec fn spec_germinate(self, delta: u32) -> Advance {
        let left = spec_count_down(self.germination_timer.0, delta);
        let needs = self.species.spec_germination_needs();
        if self.phase != LifePhase::Seed {
            Advance { organism: self, write: None }
        } else if left <= 0 && self.water.0 >= needs.water.0 && self.soil.0 >= needs.soil.0 {
            Advance {
                organism: Organism {
                    phase: LifePhase::Germinated,
                    germination_timer: GerminationTimer(0),
                    ..self
                },
                write: Some(self.spec_paint(LifePhase::Germinated)),
            }
        } else {
            Advance {
                organism: Organism { germination_timer: GerminationTimer(left), ..self },
                write: None,
            }
        }
    }

    /// Applies the rule of the seed phase.
    pub fn germinate(self, delta: u32) -> (out: Advance)
        ensures
            out == self.spec_germinate(delta),
    {
        match self.phase {
            LifePhase::Seed => {
                let left: i64 = count_down(self.germination_timer.0, delta);
                let needs = self.species.germination_needs();
                if left <= 0 && self.water.0 >= needs.water.0 && self.soil.0 >= needs.soil.0 {
                    let write = self.paint(&LifePhase::Germinated);
                    let mut organism = self;
                    organism.phase = LifePhase::Germinated;
                    organism.germination_timer = GerminationTimer(0);
                    Advance { organism, write: Some(write) }
                } else {
                    let mut organism = self;
                    organism.germination_timer = GerminationTimer(left);
                    Advance { organism, write: None }
                }
            },
            _ => Advance { organism: self, write: None },
        }
    }

    /// A germinated seed starts to grow once its timer has run out again: it
    /// then takes on the growing needs of its species. Other phases are left
    /// alone.
    pub open spec fn spec_sprout(self, delta: u32) -> Advance {
        let left = spec_count_down(self.germination_timer.0, delta);
        let growing = LifePhase::Growing { needs: self.species.spec_growing_needs() };
        if self.phase != LifePhase::Germinated {
            Advance { organism: self, write: None }
        } else if left <= 0 {
            Advance {
                organism: Organism {
                    phase: growing,
                    germination_timer: GerminationTimer(left),
                    ..self
                },
                write: Some(self.spec_paint(growing)),
            }
        } else {
            Advance {
                organism: Organism { germination_timer: GerminationTimer(left), ..self },
                write: None,
            }
        }
    }

    /// Applies the rule of the germinated phase.
    pub fn sprout(self, delta: u32) -> (out: Advance)
        ensures
            out == self.spec_sprout(delta),
    {
        match self.phase {
            LifePhase::Germinated => {
                let left: i64 = count_down(self.germination_timer.0, delta);
                let mut organism = self;
                organism.germination_timer = GerminationTimer(left);
                if left <= 0 {
                    let growing = LifePhase::Growing { needs: self.species.growing_needs() };
                    let write = self.paint(&growing);
                    organism.phase = growing;
                    Advance { organism, write: Some(write) }
                } else {
                    Advance { organism, write: None }
                }
            },
            _ => Advance { organism: self, write: None },
        }
    }

    /// A growing organism whose needs are used up becomes mature, and its
    /// maturity timer starts at zero. Otherwise, where it has water, soil
    /// and light, one tick is drawn from its needs. Otherwise it stalls.
    /// Other phases are left alone.
    pub open spec fn spec_mature(self, delta: u32, light: u32) -> Advance {
        match self.phase {
            LifePhase::Growing { needs } => {
                if needs.spec_is_depleted() {
                    Advance {
                        organism: Organism {
                            phase: LifePhase::Mature,
                            mature_age_timer: MatureAgeTimer(0),
                            ..self
                        },
                        write: Some(self.spec_paint(LifePhase::Mature)),
                    }
                } else if spec_can_grow(self.water.0, self.soil.0, light) {
                    Advance {
                        organism: Organism {
                            phase: LifePhase::Growing {
                                needs: needs.spec_deplete(
                                    spec_growth_value(self.water.0, self.soil.0, light),
                                    delta,
                                    light,
                                ),
                            },
                            ..self
                        },
                        write: None,
                    }
                } else {
                    Advance { organism: self, write: None }
                }
            },
            _ => Advance { organism: self, write: None },
        }
    }

    /// Applies the rule of the growing phase.
    pub fn mature(self, delta: u32, light: u32) -> (out: Advance)
        ensures
            out == self.spec_mature(delta, light),
    {
        match self.phase {
            LifePhase::Growing { needs } => {
                if needs.is_depleted() {
                    let write = self.paint(&LifePhase::Mature);
                    let mut organism = self;
                    organism.phase = LifePhase::Mature;
                    organism.mature_age_timer = MatureAgeTimer(0);
                    Advance { organism, write: Some(write) }
                } else if self.water.0 > 0 && self.soil.0 > 0 && light > MIN_GROWTH_LIGHT {
                    let growth: u32 = growth_value(self.water.0, self.soil.0, light);
                    let mut organism = self;
                    organism.phase = LifePhase::Growing {
                        needs: needs.deplete(growth, delta, light),
                    };
                    Advance { organism, write: None }
                } else {
                    Advance { organism: self, write: None }
                }
            },
            _ => Advance { organism: self, write: None },
        }
    }

    /// A mature organism is pollinated once its maturity timer has run out:
    /// it then takes on the fruiting needs of its species. Other phases are
    /// left alone.
    pub open spec fn spec_pollinate(self, delta: u32) -> Advance {
        let left = spec_count_down(self.mature_age_timer.0, delta);
        let pollinated = LifePhase::Pollinated { needs: self.species.spec_fruiting_needs() };
        if self.phase != LifePhase::Mature {
            Advance { organism: self, write: None }
        } else if left <= 0 {
            Advance {
                organism: Organism {
                    phase: pollinated,
                    mature_age_timer: MatureAgeTimer(left),
                    ..self
                },
                write: Some(self.spec_paint(pollinated)),
            }
        } else {
            Advance {
                organism: Organism { mature_age_timer: MatureAgeTimer(left), ..self },
                write: None,
            }
        }
    }

    /// Applies the rule of the mature phase.
    pub fn pollinate(self, delta: u32) -> (out: Advance)
        ensures
            out == self.spec_pollinate(delta),
    {
        match self.phase {
            LifePhase::Mature => {
                let left: i64 = count_down(self.mature_age_timer.0, delta);
                let mut organism = self;
                organism.mature_age_timer = MatureAgeTimer(left);
                if left <= 0 {
                    let pollinated = LifePhase::Pollinated {
                        needs: self.species.fruiting_needs(),
                    };
                    let write = self.paint(&pollinated);
                    organism.phase = pollinated;
                    Advance { organism, write: Some(write) }
                } else {
                    Advance { organism, write: None }
                }
            },
            _ => Advance { organism: self, write: None },
        }
    }

    /// A pollinated organism whose needs are used up bears fruit, and its
    /// generation count goes up by one (it stops at the highest count it
    /// can hold). Otherwise, where it has water, soil and light, one tick is
    /// drawn from its needs. Otherwise it stalls. Other phases are left
    /// alone.
    pub open spec fn spec_bear_fruit(self, delta: u32, light: u32) -> Advance {
        match self.phase {
            LifePhase::Pollinated { needs } => {
                if needs.spec_is_depleted() {
                    Advance {
                        organism: Organism {
                            phase: LifePhase::Fruiting,
                            generations: Generations(
                                if self.generations.0 < u32::MAX {
                                    (self.generations.0 + 1) as u32
                                } else {
                                    u32::MAX
                                },
                            ),
                            ..self
                        },
                        write: Some(self.spec_paint(LifePhase::Fruiting)),
                    }
                } else if spec_can_grow(self.water.0, self.soil.0, light) {
                    Advance {
                        organism: Organism {
                            phase: LifePhase::Pollinated {
                                needs: needs.spec_deplete(
                                    spec_growth_value(self.water.0, self.soil.0, light),
                                    delta,
                                    light,
                                ),
                            },
                            ..self
                        },
                        write: None,
                    }
                } else {
                    Advance { organism: self, write: None }
                }
            },
            _ => Advance { organism: self, write: None },
        }
    }

    /// Applies the rule of the pollinated phase.
    pub fn bear_fruit(self, delta: u32, light: u32) -> (out: Advance)
        ensures
            out == self.spec_bear_fruit(delta, light),
    {
        match self.phase {
            LifePhase::Pollinated { needs } => {
                if needs.is_depleted() {
                    let write = self.paint(&LifePhase::Fruiting);
                    let mut organism = self;
                    organism.phase = LifePhase::Fruiting;
                    organism.generations = Generations(self.generations.0.saturating_add(1));
                    Advance { organism, write: Some(write) }
                } else if self.water.0 > 0 && self.soil.0 > 0 && light > MIN_GROWTH_LIGHT {
                    let growth: u32 = growth_value(self.water.0, self.soil.0, light);
                    let mut organism = self;
                    organism.phase = LifePhase::Pollinated {
                        needs: needs.deplete(growth, delta, light),
                    };
                    Advance { organism, write: None }
                } else {
                    Advance { organism: self, write: None }
                }
            },
            _ => Advance { organism: self, write: None },
        }
    }
}

/// The rules that leave the size of the population as it is, one for each
/// phase from seed to pollinated.
#[derive(Clone, Copy, Debug, PartialEq, Eq, Structural)]
pub enum Rule {
    Germinate,
    Sprout,
    Mature,
    Pollinate,
    BearFruit,
}

impl Organism {
    /// What a rule makes of this organism.
    pub open spec fn spec_apply(self, rule: Rule, delta: u32, light: u32) -> Advance {
        match rule {
            Rule::Germinate => self.spec_germinate(delta),
            Rule::Sprout => self.spec_sprout(delta),
            Rule::Mature => self.spec_mature(delta, light),
            Rule::Pollinate => self.spec_pollinate(delta),
            Rule::BearFruit => self.spec_bear_fruit(delta, light),
        }
    }

    /// Applies one rule to this organism.
    pub fn apply(self, rule: Rule, delta: u32, light: u32) -> (out: Advance)
        ensures
            out == self.spec_apply(rule, delta, light),
    {
        match rule {
            Rule::Germinate => self.germinate(delta),
            Rule::Sprout => self.sprout(delta),
            Rule::Mature => self.mature(delta, light),
            Rule::Pollinate => self.pollinate(delta),
            Rule::BearFruit => self.bear_fruit(delta, light),
        }
    }
}

/// The population after one rule was applied to each organism.
pub open spec fn spec_pass_organisms(
    rule: Rule,
    organisms: Seq<Organism>,
    delta: u32,
    light: u32,
) -> Seq<Organism> {
    organisms.map_values(|o: Organism| o.spec_apply(rule, delta, light).organism)
}

/// The writes that one rule asks for over a population, in its order.
pub open spec fn spec_pass_writes(
    rule: Rule,
    organisms: Seq<Organism>,
    delta: u32,
    light: u32,
) -> Seq<VoxelWrite> {
    organisms.filter_map(|o: Organism| o.spec_apply(rule, delta, light).write)
}

/// Applies one rule to every organism of the population, in place, and
/// hands back the writes that it asks for.
pub fn run_rule(rule: Rule, delta: u32, light: u32, organisms: &mut Vec<Organism>) -> (writes: Vec<
    VoxelWrite,
>)
    ensures
        final(organisms)@ == spec_pass_organisms(rule, old(organisms)@, delta, light),
        writes@ == spec_pass_writes(rule, old(organisms)@, delta, light),
{
    let ghost before = organisms@;
    let ghost step = |o: Organism| o.spec_apply(rule, delta, light).write;
    let mut writes: Vec<VoxelWrite> = Vec::new();
    let count: usize = organisms.len();
    let mut i: usize = 0;
    while i < count
        invariant
            i <= count,
            organisms@.len() == count,
            before.len() == count,
            forall|j: int|
                0 <= j < i ==> organisms@[j] == (#[trigger] before[j]).spec_apply(
                    rule,
                    delta,
                    light,
                ).organism,
            forall|j: int| i <= j < count ==> organisms@[j] == before[j],
            step == |o: Organism| o.spec_apply(rule, delta, light).write,
            writes@ == before.take(i as int).filter_map(step),
        decreases count - i,
    {
        let out = organisms[i].apply(rule, delta, light);
        organisms[i] = out.organism;
        proof {
            before.lemma_filter_map_take_succ(step, i as int);
        }
        match out.write {
            Some(write) => {
                writes.push(write);
            },
            None => {},
        }
        i += 1;
    }
    proof {
        assert(before.take(count as int) == before);
        assert(organisms@ == spec_pass_organisms(rule, before, delta, light));
    }
    writes
}

/// Lets every seed of the population germinate that is ready to: the rule
/// `spec_germinate`, applied to each organism.
pub fn seed_to_germinate_system(delta: u32, organisms: &mut Vec<Organism>) -> (writes: Vec<
    VoxelWrite,
>)
    ensures
        final(organisms)@ == spec_pass_organisms(
            Rule::Germinate,
            old(organisms)@,
            delta,
            AMBIENT_LIGHT,
        ),
        writes@ == spec_pass_writes(Rule::Germinate, old(organisms)@, delta, AMBIENT_LIGHT),
{
    run_rule(Rule::Germinate, delta, AMBIENT_LIGHT, organisms)
}

/// Lets every germinated seed of the population start to grow that is ready
/// to: the rule `spec_sprout`, applied to each organism.
pub fn growth_system(delta: u32, organisms: &mut Vec<Organism>) -> (writes: Vec<VoxelWrite>)
    ensures
        final(organisms)@ == spec_pass_organisms(
            Rule::Sprout,
            old(organisms)@,
            delta,
            AMBIENT_LIGHT,
        ),
        writes@ == spec_pass_writes(Rule::Sprout, old(organisms)@, delta, AMBIENT_LIGHT),
{
    run_rule(Rule::Sprout, delta, AMBIENT_LIGHT, organisms)
}

/// Draws one tick from the needs of every growing organism of the
/// population, and lets those become mature whose needs are used up: the
/// rule `spec_mature`, applied to each organism.
pub fn maturation_system(delta: u32, light: u32, organisms: &mut Vec<Organism>) -> (writes: Vec<
    VoxelWrite,
>)
    ensures
        final(organisms)@ == spec_pass_organisms(Rule::Mature, old(organisms)@, delta, light),
        writes@ == spec_pass_writes(Rule::Mature, old(organisms)@, delta, light),
{
    run_rule(Rule::Mature, delta, light, organisms)
}

/// Lets every mature organism of the population be pollinated that is ready
/// to: the rule `spec_pollinate`, applied to each organism.
pub fn pollination_system(delta: u32, organisms: &mut Vec<Organism>) -> (writes: Vec<VoxelWrite>)
    ensures
        final(organisms)@ == spec_pass_organisms(
            Rule::Pollinate,
            old(organisms)@,
            delta,
            AMBIENT_LIGHT,
        ),
        writes@ == spec_pass_writes(Rule::Pollinate, old(organisms)@, delta, AMBIENT_LIGHT),
{
    run_rule(Rule::Pollinate, delta, AMBIENT_LIGHT, organisms)
}

/// Draws one tick from the needs of every pollinated organism of the
/// population, and lets those bear fruit whose needs are used up: the rule
/// `spec_bear_fruit`, applied to each organism.
pub fn fruiting_system(delta: u32, light: u32, organisms: &mut Vec<Organism>) -> (writes: Vec<
    VoxelWrite,
>)
    ensures
        final(organisms)@ == spec_pass_organisms(
            Rule::BearFruit,
            old(organisms)@,
            delta,
            light,
        ),
        writes@ == spec_pass_writes(Rule::BearFruit, old(organisms)@, delta, light),
{
    run_rule(Rule::BearFruit, delta, light, organisms)
}

} // verus!
