//! The end of the life cycle: a dead organism stays for a while and is then
//! removed, and the block that showed it gives way to air.

use vstd::prelude::*;
use crate::core_components::{DecayTimer, LifePhase, Organism};
use crate::lifecycles::{count_down, spec_count_down};
use crate::voxel_world::{apply_writes, VoxelPos, VoxelWrite, WorldVoxel};

verus! {

/// What becomes of an organism under a rule that may remove it: the organism
/// as it lives on, unless it is removed, and the voxel write that the rule
/// asks for.
#[derive(Clone, Copy, Debug, PartialEq, Eq, Structural)]
pub struct Fate {
    pub survivor: Option<Organism>,
    pub write: Option<VoxelWrite>,
}

impl Organism {
    /// A dead organism is removed once its decay timer has run out, and air
    /// is written where it stood. Until then only the timer runs. Other
    /// phases are left alone.
    pub open spec fn spec_decay(self, delta: u32) -> Fate {
        let left = spec_count_down(self.decay_timer.0, delta);
        if self.phase != LifePhase::Death {
            Fate { survivor: Some(self), write: None }
        } else if left <= 0 {
            Fate {
                survivor: None,
                write: Some(VoxelWrite { pos: self.position.pos, voxel: WorldVoxel::Air }),
            }
        } else {
            Fate {
                survivor: Some(Organism { decay_timer: DecayTimer(left), ..self }),
                write: None,
            }
        }
    }

    /// Applies the rule of the death phase.
    pub fn decay(self, delta: u32) -> (out: Fate)
        ensures
            out == self.spec_decay(delta),
    {
        match self.phase {
            LifePhase::Death => {
                let left: i64 = count_down(self.decay_timer.0, delta);
                if left <= 0 {
                    Fate {
                        survivor: None,
                        write: Some(VoxelWrite { pos: self.position.pos, voxel: WorldVoxel::Air }),
                    }
                } else {
                    let mut organism = self;
                    organism.decay_timer = DecayTimer(left);
                    Fate { survivor: Some(organism), write: None }
                }
            },
            _ => Fate { survivor: Some(self), write: None },
        }
    }
}

/// The population after the rule of the death phase was applied to each
/// organism: those that are not removed, in their order.
pub open spec fn spec_decay_survivors(organisms: Seq<Organism>, delta: u32) -> Seq<Organism> {
    organisms.filter_map(|o: Organism| o.spec_decay(delta).survivor)
}

/// The writes that the rule of the death phase asks for over a population.
pub open spec fn spec_decay_writes(organisms: Seq<Organism>, delta: u32) -> Seq<VoxelWrite> {
    organisms.filter_map(|o: Organism| o.spec_decay(delta).write)
}

/// Runs the decay timer of every dead organism of the population and
/// removes those whose timer has run out.
pub fn decay_system(delta: u32, organisms: &mut Vec<Organism>) -> (writes: Vec<VoxelWrite>)
    ensures
        final(organisms)@ == spec_decay_survivors(old(organisms)@, delta),
        writes@ == spec_decay_writes(old(organisms)@, delta),
{
    let ghost before = organisms@;
    let ghost keep = |o: Organism| o.spec_decay(delta).survivor;
    let ghost clear = |o: Organism| o.spec_decay(delta).write;
    let mut writes: Vec<VoxelWrite> = Vec::new();
    let mut kept: Vec<Organism> = Vec::new();
    let count: usize = organisms.len();
    let mut i: usize = 0;
    while i < count
        invariant
            i <= count,
            organisms@ == before,
            before.len() == count,
            keep == |o: Organism| o.spec_decay(delta).survivor,
            clear == |o: Organism| o.spec_decay(delta).write,
            kept@ == before.take(i as int).filter_map(keep),
            writes@ == before.take(i as int).filter_map(clear),
        decreases count - i,
    {
        let out = organisms[i].decay(delta);
        proof {
            before.lemma_filter_map_take_succ(keep, i as int);
            before.lemma_filter_map_take_succ(clear, i as int);
        }
        match out.survivor {
            Some(organism) => {
                kept.push(organism);
            },
            None => {},
        }
        match out.write {
            Some(write) => {
                writes.push(write);
            },
            None => {},
        }
        i += 1;
    }
    proof {
        assert(before.take(count as int) == before);
    }
    *organisms = kept;
    writes
}

/// Once writes that all store air are carried out, every coordinate among
/// them holds air.
pub proof fn lemma_air_writes_leave_air(
    world: Map<VoxelPos, WorldVoxel>,
    writes: Seq<VoxelWrite>,
    i: int,
)
    requires
        0 <= i < writes.len(),
        forall|k: int| 0 <= k < writes.len() ==> (#[trigger] writes[k]).voxel == WorldVoxel::Air,
    ensures
        apply_writes(world, writes).contains_key(writes[i].pos),
        apply_writes(world, writes)[writes[i].pos] == WorldVoxel::Air,
    decreases writes.len(),
{
    if i < writes.len() - 1 {
        assert(writes.drop_last()[i] == writes[i]);
        lemma_air_writes_leave_air(world, writes.drop_last(), i);
    }
}

/// Every write of a decay pass stores air, each organism of the population
/// either lives on or leaves one write, and an organism that is removed
/// leaves a write at the coordinate where it stood.
pub proof fn lemma_decay_writes(organisms: Seq<Organism>, delta: u32)
    ensures
        forall|k: int|
            0 <= k < spec_decay_writes(organisms, delta).len() ==> (#[trigger] spec_decay_writes(
                organisms,
                delta,
            )[k]).voxel == WorldVoxel::Air,
        spec_decay_survivors(organisms, delta).len() + spec_decay_writes(organisms, delta).len()
            == organisms.len(),
        forall|i: int|
            0 <= i < organisms.len() && (#[trigger] organisms[i]).spec_decay(delta).survivor
                is None ==> exists|k: int|
                0 <= k < spec_decay_writes(organisms, delta).len() && (#[trigger] spec_decay_writes(
                    organisms,
                    delta,
                )[k]).pos == organisms[i].position.pos,
    decreases organisms.len(),
{
    if organisms.len() > 0 {
        let rest = organisms.drop_last();
        let last = organisms.last();
        lemma_decay_writes(rest, delta);
        let writes = spec_decay_writes(organisms, delta);
        let rest_writes = spec_decay_writes(rest, delta);
        assert forall|i: int|
            0 <= i < organisms.len() && (#[trigger] organisms[i]).spec_decay(delta).survivor
                is None implies exists|k: int|
            0 <= k < writes.len() && (#[trigger] writes[k]).pos == organisms[i].position.pos by {
            if i < rest.len() {
                assert(rest[i] == organisms[i]);
                let k = choose|k: int|
                    0 <= k < rest_writes.len() && (#[trigger] rest_writes[k]).pos
                        == rest[i].position.pos;
                assert(writes[k] == rest_writes[k]);
            } else {
                assert(writes[writes.len() - 1].pos == last.position.pos);
            }
        }
    }
}

/// A dead organism whose decay timer runs out in a decay pass is removed
/// from the population, and once the writes of the pass are carried out the
/// coordinate where it stood holds air.
pub proof fn lemma_decayed_organism_is_gone(
    organisms: Seq<Organism>,
    delta: u32,
    world: Map<VoxelPos, WorldVoxel>,
    i: int,
)
    requires
        0 <= i < organisms.len(),
        organisms[i].phase == LifePhase::Death,
        spec_count_down(organisms[i].decay_timer.0, delta) <= 0,
    ensures
        organisms[i].spec_decay(delta).survivor is None,
        spec_decay_survivors(organisms, delta).len() < organisms.len(),
        apply_writes(world, spec_decay_writes(organisms, delta)).contains_key(
            organisms[i].position.pos,
        ),
        apply_writes(world, spec_decay_writes(organisms, delta))[organisms[i].position.pos]
            == WorldVoxel::Air,
{
    lemma_decay_writes(organisms, delta);
    let writes = spec_decay_writes(organisms, delta);
    let k = choose|k: int|
        0 <= k < writes.len() && (#[trigger] writes[k]).pos == organisms[i].position.pos;
    lemma_air_writes_leave_air(world, writes, k);
}

} // verus!
