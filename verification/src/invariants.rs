//! What holds of the life cycle however it is driven: needs are drawn down
//! and never below nothing, a seed waits for its stock, the generation count
//! only grows, and what has decayed is gone.

use vstd::prelude::*;
use crate::core_components::{LifePhase, Organism};
use crate::decay::Fate;
use crate::lifecycles::{
    spec_can_grow, spec_count_down, spec_draw, spec_growth_value, Advance, Rule,
};
use crate::simulation::{spec_tick_survivors, spec_tick_writes};
use crate::voxel_world::{apply_writes, VoxelPos, WorldVoxel};

verus! {

/// The sum of a list of draws.
pub open spec fn spec_sum(draws: Seq<u32>) -> nat
    decreases draws.len(),
{
    if draws.len() == 0 {
        0
    } else {
        spec_sum(draws.drop_last()) + draws.last() as nat
    }
}

/// A pool of water or soil after a list of draws, one after the other.
pub open spec fn spec_draw_all(pool: u32, draws: Seq<u32>) -> u32
    decreases draws.len(),
{
    if draws.len() == 0 {
        pool
    } else {
        spec_draw(spec_draw_all(pool, draws.drop_last()), draws.last())
    }
}

/// Whatever is drawn from a pool of water or soil, and in however many
/// draws, the pool never falls below nothing: it holds what is left of it
/// once the sum of the draws is taken away, or nothing where the draws sum
/// to more than it held.
pub proof fn lemma_draws_saturate(pool: u32, draws: Seq<u32>)
    ensures
        spec_draw_all(pool, draws) == if pool >= spec_sum(draws) {
            pool - spec_sum(draws)
        } else {
            0
        },
        0 <= spec_draw_all(pool, draws) <= pool,
    decreases draws.len(),
{
    if draws.len() > 0 {
        lemma_draws_saturate(pool, draws.drop_last());
    }
}

/// One tick of a growing or pollinated organism that stays in its phase
/// draws the same amount from its need of water and of soil: what one tick
/// of growth uses if it can grow, else nothing. Neither need rises, and
/// neither falls below nothing.
pub proof fn lemma_needs_are_drawn_down(organism: Organism, delta: u32, light: u32)
    ensures
        match (organism.phase, organism.spec_tick(delta, light).survivor) {
            (
                LifePhase::Growing { needs },
                Some(Organism { phase: LifePhase::Growing { needs: left }, .. }),
            ) => {
                let used = if spec_can_grow(organism.water.0, organism.soil.0, light) {
                    spec_growth_value(organism.water.0, organism.soil.0, light)
                } else {
                    0
                };
                &&& left.water.0 == spec_draw(needs.water.0, used)
                &&& left.soil.0 == spec_draw(needs.soil.0, used)
                &&& 0 <= left.water.0 <= needs.water.0
                &&& 0 <= left.soil.0 <= needs.soil.0
                &&& used <= organism.water.0
                &&& used <= organism.soil.0
            },
            (
                LifePhase::Pollinated { needs },
                Some(Organism { phase: LifePhase::Pollinated { needs: left }, .. }),
            ) => {
                let used = if spec_can_grow(organism.water.0, organism.soil.0, light) {
                    spec_growth_value(organism.water.0, organism.soil.0, light)
                } else {
                    0
                };
                &&& left.water.0 == spec_draw(needs.water.0, used)
                &&& left.soil.0 == spec_draw(needs.soil.0, used)
                &&& 0 <= left.water.0 <= needs.water.0
                &&& 0 <= left.soil.0 <= needs.soil.0
                &&& used <= organism.water.0
                &&& used <= organism.soil.0
            },
            _ => true,
        },
{
}

/// The length of one tick and the light that shines during it.
pub struct TickInput {
    pub delta: u32,
    pub light: u32,
}

/// An organism after a run of ticks, or nothing where the run has removed
/// it.
pub open spec fn spec_run(organism: Organism, ticks: Seq<TickInput>) -> Option<Organism>
    decreases ticks.len(),
{
    if ticks.len() == 0 {
        Some(organism)
    } else {
        match spec_run(organism, ticks.drop_last()) {
            Some(earlier) => earlier.spec_tick(ticks.last().delta, ticks.last().light).survivor,
            None => None,
        }
    }
}

/// Whether an organism's stock of water or of soil is short of what its
/// species needs to germinate.
pub open spec fn lacks_germination_stock(organism: Organism) -> bool {
    organism.water.0 < organism.species.spec_germination_needs().water.0 || organism.soil.0
        < organism.species.spec_germination_needs().soil.0
}

/// A seed whose stock of water or of soil is short of what its species
/// needs stays a seed, whatever the length of the tick and whatever its
/// timer.
pub proof fn lemma_seed_waits_for_stock(organism: Organism, delta: u32, light: u32)
    requires
        organism.phase == LifePhase::Seed,
        lacks_germination_stock(organism),
    ensures
        organism.spec_germinate(delta).organism.phase == LifePhase::Seed,
        organism.spec_germinate(delta).write is None,
        organism.spec_tick(delta, light).survivor matches Some(after) && after.phase
            == LifePhase::Seed && lacks_germination_stock(after),
{
}

/// No run of ticks makes a seed germinate whose stock of water or of soil is
/// short: the life cycle itself never adds to the stock.
pub proof fn lemma_seed_never_germinates_without_stock(organism: Organism, ticks: Seq<TickInput>)
    requires
        organism.phase == LifePhase::Seed,
        lacks_germination_stock(organism),
    ensures
        spec_run(organism, ticks) matches Some(after) && after.phase == LifePhase::Seed
            && lacks_germination_stock(after),
    decreases ticks.len(),
{
    if ticks.len() > 0 {
        lemma_seed_never_germinates_without_stock(organism, ticks.drop_last());
        let earlier = spec_run(organism, ticks.drop_last())->Some_0;
        lemma_seed_waits_for_stock(earlier, ticks.last().delta, ticks.last().light);
    }
}

/// Whether a tick finds an organism about to bear fruit: pollinated, with
/// nothing left to take in.
pub open spec fn bears_fruit_next(organism: Organism) -> bool {
    organism.phase matches LifePhase::Pollinated { needs } && needs.spec_is_depleted()
}

/// One tick changes the generation count of an organism only when the
/// organism bears fruit, and then by exactly one, unless the count already
/// stands at the highest value it can hold.
pub proof fn lemma_generation_step(organism: Organism, delta: u32, light: u32)
    ensures
        organism.spec_tick(delta, light).survivor matches Some(after) ==> after.generations.0
            == if bears_fruit_next(organism) && organism.generations.0 < u32::MAX {
            organism.generations.0 + 1
        } else {
            organism.generations.0 as int
        },
{
}

/// Over any run of ticks the generation count of an organism never falls.
pub proof fn lemma_generations_never_decrease(organism: Organism, ticks: Seq<TickInput>)
    ensures
        spec_run(organism, ticks) matches Some(after) ==> after.generations.0
            >= organism.generations.0,
    decreases ticks.len(),
{
    if ticks.len() > 0 {
        lemma_generations_never_decrease(organism, ticks.drop_last());
        match spec_run(organism, ticks.drop_last()) {
            Some(earlier) => {
                lemma_generation_step(earlier, ticks.last().delta, ticks.last().light);
            },
            None => {},
        }
    }
}

/// Each round of fruiting counts once. An organism that is about to bear
/// fruit is fruiting after one tick, with one generation more; after the
/// next tick it is mature again or dead, with the count as it was after the
/// first.
pub proof fn lemma_fruiting_counts_once(
    organism: Organism,
    first: TickInput,
    second: TickInput,
)
    requires
        bears_fruit_next(organism),
        organism.generations.0 < u32::MAX,
    ensures
        organism.spec_tick(first.delta, first.light).survivor matches Some(fruiting) && {
            &&& fruiting.phase == LifePhase::Fruiting
            &&& fruiting.generations.0 == organism.generations.0 + 1
            &&& fruiting.spec_tick(second.delta, second.light).survivor matches Some(after)
            &&& after.phase == LifePhase::Mature || after.phase == LifePhase::Death
            &&& after.generations.0 == organism.generations.0 + 1
        },
{
}

/// The write that a tick asks for on behalf of an organism goes to the
/// coordinate where the organism stands.
pub proof fn lemma_tick_writes_in_place(organism: Organism, delta: u32, light: u32)
    ensures
        organism.spec_tick(delta, light).write matches Some(write) ==> write.pos
            == organism.position.pos,
{
}

/// A dead organism whose decay timer runs out in a tick is not in the
/// population afterwards, and once the writes of the tick are carried out
/// the coordinate where it stood holds air, provided no other organism of
/// the population stands at that coordinate.
pub proof fn lemma_tick_removes_decayed(
    organisms: Seq<Organism>,
    delta: u32,
    light: u32,
    world: Map<VoxelPos, WorldVoxel>,
    i: int,
)
    requires
        0 <= i < organisms.len(),
        organisms[i].phase == LifePhase::Death,
        spec_count_down(organisms[i].decay_timer.0, delta) <= 0,
        forall|j: int|
            0 <= j < organisms.len() && j != i ==> (#[trigger] organisms[j]).position.pos
                != organisms[i].position.pos,
    ensures
        organisms[i].spec_tick(delta, light).survivor is None,
        spec_tick_survivors(organisms, delta, light).len() < organisms.len(),
        apply_writes(world, spec_tick_writes(organisms, delta, light)).contains_key(
            organisms[i].position.pos,
        ),
        apply_writes(world, spec_tick_writes(organisms, delta, light))[organisms[i].position.pos]
            == WorldVoxel::Air,
    decreases organisms.len(),
{
    let rest = organisms.drop_last();
    let last = organisms.last();
    let pos = organisms[i].position.pos;
    let writes = spec_tick_writes(organisms, delta, light);
    let rest_writes = spec_tick_writes(rest, delta, light);
    lemma_tick_writes_in_place(last, delta, light);
    lemma_survivors_bounded(rest, delta, light);
    if i < organisms.len() - 1 {
        assert(rest[i] == organisms[i]);
        assert forall|j: int| 0 <= j < rest.len() && j != i implies (#[trigger] rest[j]).position.pos
            != rest[i].position.pos by {
            assert(rest[j] == organisms[j]);
        }
        lemma_tick_removes_decayed(rest, delta, light, world, i);
        assert(last.position.pos != pos);
    }
    match last.spec_tick(delta, light).write {
        Some(write) => {
            assert(writes == rest_writes + seq![write]);
            assert(writes.drop_last() == rest_writes);
            assert(writes.last() == write);
        },
        None => {
            assert(writes == rest_writes);
        },
    }
}

/// A tick leaves no more organisms of a population than it found.
pub proof fn lemma_survivors_bounded(organisms: Seq<Organism>, delta: u32, light: u32)
    ensures
        spec_tick_survivors(organisms, delta, light).len() <= organisms.len(),
    decreases organisms.len(),
{
    if organisms.len() > 0 {
        lemma_survivors_bounded(organisms.drop_last(), delta, light);
    }
}

/// Whether a tick may take an organism from one phase to another. Every
/// phase leads to itself or to the next one in the life cycle; fruiting
/// leads back to maturity or on to death; nothing leads out of death.
pub open spec fn may_follow(from: LifePhase, to: LifePhase) -> bool {
    match from {
        LifePhase::Seed => to == LifePhase::Seed || to == LifePhase::Germinated,
        LifePhase::Germinated => to == LifePhase::Germinated || to is Growing,
        LifePhase::Growing { .. } => to is Growing || to == LifePhase::Mature,
        LifePhase::Mature => to == LifePhase::Mature || to is Pollinated,
        LifePhase::Pollinated { .. } => to is Pollinated || to == LifePhase::Fruiting,
        LifePhase::Fruiting => to == LifePhase::Mature || to == LifePhase::Death,
        LifePhase::Death => to == LifePhase::Death,
    }
}

/// A tick moves an organism along the life cycle and never against it, and
/// removes none but the dead. A dead organism stays dead until it is
/// removed.
pub proof fn lemma_phases_follow_the_cycle(organism: Organism, delta: u32, light: u32)
    ensures
        match organism.spec_tick(delta, light).survivor {
            Some(after) => may_follow(organism.phase, after.phase),
            None => organism.phase == LifePhase::Death,
        },
{
}

/// A tick leaves an organism where it stands, of its species and with its
/// owner, and does not touch its stock of water and soil.
pub proof fn lemma_tick_keeps_identity(organism: Organism, delta: u32, light: u32)
    ensures
        organism.spec_tick(delta, light).survivor matches Some(after) ==> {
            &&& after.position == organism.position
            &&& after.species == organism.species
            &&& after.owner == organism.owner
            &&& after.water == organism.water
            &&& after.soil == organism.soil
        },
{
}

/// The rule among those from seed to pollinated that acts on a phase, if one
/// of them does.
pub open spec fn rule_of(phase: LifePhase) -> Option<Rule> {
    match phase {
        LifePhase::Seed => Some(Rule::Germinate),
        LifePhase::Germinated => Some(Rule::Sprout),
        LifePhase::Growing { .. } => Some(Rule::Mature),
        LifePhase::Mature => Some(Rule::Pollinate),
        LifePhase::Pollinated { .. } => Some(Rule::BearFruit),
        LifePhase::Fruiting => None,
        LifePhase::Death => None,
    }
}

/// Each rule acts on the organisms of one phase and leaves all others as
/// they are, and the rules of fruiting and of death leave the organisms of
/// the five earlier phases as they are. So the order in which the passes of
/// one tick run over a snapshot of the population does not matter: each
/// organism is moved by the rule of its phase alone, which is what a tick
/// does to it.
pub proof fn lemma_rules_are_disjoint(organism: Organism, rule: Rule, delta: u32, light: u32)
    ensures
        rule_of(organism.phase) != Some(rule) ==> organism.spec_apply(rule, delta, light) == (
        Advance { organism, write: None }),
        rule_of(organism.phase) == Some(rule) ==> organism.spec_tick(delta, light) == (Fate {
            survivor: Some(organism.spec_apply(rule, delta, light).organism),
            write: organism.spec_apply(rule, delta, light).write,
        }),
        organism.phase != LifePhase::Fruiting ==> organism.spec_wither() == (
        Advance { organism, write: None }),
        organism.phase != LifePhase::Fruiting ==> organism.spec_harvest() is None,
        organism.phase != LifePhase::Death ==> organism.spec_decay(delta) == (
        Fate { survivor: Some(organism), write: None }),
{
}

} // verus!
