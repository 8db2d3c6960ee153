//! Finding the places where a fruiting organism drops its seeds: surface
//! blocks near it are drawn at random by the voxel world, kept where they
//! are new, and turned into growth sites.
//!
//! The draw is a function that the caller hands in. It may answer anything,
//! and differently each time: what is proved holds of every answer.

use vstd::prelude::*;
use crate::core_components::{LifePhase, Organism};
use crate::voxel_painting::{get_growth_voxel, spec_growth_site};
use crate::voxel_world::{VoxelPos, WorldVoxel};

verus! {

/// How often the world is asked for a surface block on behalf of one
/// fruiting organism before the search is given up, unless the caller sets
/// another limit.
pub const SAMPLE_ATTEMPTS: u32 = 256;

/// The blocks found so far, after one more draw: a block that was drawn and
/// is not among them yet joins them at the end, as long as fewer than `n`
/// are found.
pub open spec fn spec_note_sample(
    found: Seq<(VoxelPos, WorldVoxel)>,
    sample: Option<(VoxelPos, WorldVoxel)>,
    n: u8,
) -> Seq<(VoxelPos, WorldVoxel)> {
    match sample {
        Some(block) if found.len() < n && !found.contains(block) => found.push(block),
        _ => found,
    }
}

/// Whether a block is among those found so far.
pub fn already_found(found: &Vec<(VoxelPos, WorldVoxel)>, block: (VoxelPos, WorldVoxel)) -> (seen:
    bool)
    ensures
        seen == found@.contains(block),
{
    let mut k: usize = 0;
    while k < found.len()
        invariant
            k <= found@.len(),
            forall|j: int| 0 <= j < k ==> found@[j] != block,
        decreases found@.len() - k,
    {
        if found[k].0 == block.0 && found[k].1 == block.1 {
            assert(found@[k as int] == block);
            return true;
        }
        k += 1;
    }
    false
}

/// Takes note of one draw, and says whether the search is over: whether `n`
/// blocks are found.
pub fn note_sample(
    found: &mut Vec<(VoxelPos, WorldVoxel)>,
    sample: Option<(VoxelPos, WorldVoxel)>,
    n: u8,
) -> (done: bool)
    ensures
        final(found)@ == spec_note_sample(old(found)@, sample, n),
        done == (final(found)@.len() >= n),
        old(found)@.no_duplicates() ==> final(found)@.no_duplicates(),
{
    match sample {
        Some(block) => {
            if found.len() < n as usize && !already_found(found, block) {
                found.push(block);
            }
        },
        None => {},
    }
    found.len() >= n as usize
}

/// Up to `n` different surface blocks within `radius` of `position`. The
/// world is asked for one random surface block at a time, at most
/// `attempts` times, until `n` different ones are found. What is handed back
/// is what `spec_found` keeps of the world's answers, in their order: the
/// world was asked until `n` blocks were found or the attempts were used up,
/// and no longer. Every block handed back is thus one that the world has
/// answered with, none is handed back twice, and with `n` or `attempts` zero
/// none is handed back.
pub fn get_random_surface_voxels<S: Fn(VoxelPos, u32) -> Option<(VoxelPos, WorldVoxel)>>(
    sample: &S,
    position: VoxelPos,
    radius: u8,
    n: u8,
    attempts: u32,
) -> (found: Vec<(VoxelPos, WorldVoxel)>)
    requires
        forall|p: VoxelPos, r: u32| call_requires(sample, (p, r)),
    ensures
        exists|draws: Seq<Option<(VoxelPos, WorldVoxel)>>| #[trigger]
            is_search(sample, position, radius, n, attempts, draws) && found@ == spec_found(
                draws,
                n,
            ),
        found@.len() <= n,
        found@.len() <= attempts,
        found@.no_duplicates(),
        forall|k: int|
            0 <= k < found@.len() ==> call_ensures(
                sample,
                (position, radius as u32),
                Some(#[trigger] found@[k]),
            ),
{
    let mut found: Vec<(VoxelPos, WorldVoxel)> = Vec::new();
    let mut tries: u32 = 0;
    let mut done: bool = n == 0;
    let ghost mut draws: Seq<Option<(VoxelPos, WorldVoxel)>> = Seq::empty();
    while !done && tries < attempts
        invariant
            forall|p: VoxelPos, r: u32| call_requires(sample, (p, r)),
            tries <= attempts,
            found@.len() <= n,
            found@.len() <= tries,
            found@.no_duplicates(),
            done == (found@.len() >= n),
            forall|k: int|
                0 <= k < found@.len() ==> call_ensures(
                    sample,
                    (position, radius as u32),
                    Some(#[trigger] found@[k]),
                ),
            draws.len() == tries,
            found@ == spec_found(draws, n),
            forall|k: int|
                0 <= k < draws.len() ==> call_ensures(
                    sample,
                    (position, radius as u32),
                    #[trigger] draws[k],
                ),
            forall|k: int| 0 <= k < draws.len() ==> spec_found(#[trigger] draws.take(k), n).len() < n,
        decreases attempts - tries,
    {
        let drawn = sample(position, radius as u32);
        proof {
            let earlier = draws;
            draws = earlier.push(drawn);
            assert(draws.drop_last() == earlier);
            assert forall|k: int| 0 <= k < draws.len() implies spec_found(
                #[trigger] draws.take(k),
                n,
            ).len() < n by {
                if k < earlier.len() {
                    assert(draws.take(k) == earlier.take(k));
                } else {
                    assert(draws.take(k) == earlier);
                }
            }
        }
        done = note_sample(&mut found, drawn, n);
        tries += 1;
    }
    assert(is_search(sample, position, radius, n, attempts, draws));
    found
}

/// Whether `site` is a growth site that the world offers near `origin`: the
/// place on top of a surface block that the world has answered a draw
/// with, given what the world has answered for the coordinate above it.
pub open spec fn is_offered_site<
    S: Fn(VoxelPos, u32) -> Option<(VoxelPos, WorldVoxel)>,
    G: Fn(VoxelPos) -> WorldVoxel,
>(sample: &S, get_voxel: &G, origin: VoxelPos, radius: u8, site: VoxelPos) -> bool {
    exists|block: (VoxelPos, WorldVoxel), above_vox: WorldVoxel|
        {
            &&& call_ensures(sample, (origin, radius as u32), Some(block))
            &&& block.0.y < i32::MAX
            &&& call_ensures(get_voxel, (block.0.spec_above(),), above_vox)
            &&& #[trigger] spec_growth_site(block.1, block.0, above_vox) == Some(site)
        }
}

/// The growth sites on top of up to `n` different surface blocks near
/// `origin`, in the order in which the blocks were found. The blocks are
/// searched for as by `get_random_surface_voxels`; above each of them the
/// world is read once, unless the block lies at the top of the coordinate
/// range; and what is handed back are the growth sites of the blocks that
/// have one, given what was read above them.
pub fn growth_sites_near<
    S: Fn(VoxelPos, u32) -> Option<(VoxelPos, WorldVoxel)>,
    G: Fn(VoxelPos) -> WorldVoxel,
>(sample: &S, get_voxel: &G, origin: VoxelPos, radius: u8, n: u8, attempts: u32) -> (sites: Vec<
    VoxelPos,
>)
    requires
        forall|p: VoxelPos, r: u32| call_requires(sample, (p, r)),
        forall|p: VoxelPos| call_requires(get_voxel, (p,)),
    ensures
        exists|draws: Seq<Option<(VoxelPos, WorldVoxel)>>, above: Seq<WorldVoxel>|
            {
                &&& is_search(sample, origin, radius, n, attempts, draws)
                &&& #[trigger] is_read_above(get_voxel, spec_found(draws, n), above)
                &&& sites@ == spec_growth_sites(spec_found(draws, n), above)
            },
        sites@.no_duplicates(),
        sites@.len() <= n,
        sites@.len() <= attempts,
        forall|k: int|
            0 <= k < sites@.len() ==> is_offered_site(
                sample,
                get_voxel,
                origin,
                radius,
                #[trigger] sites@[k],
            ),
{
    let blocks = get_random_surface_voxels(sample, origin, radius, n, attempts);
    let ghost mut from: Seq<int> = Seq::empty();
    let ghost draws = choose|draws: Seq<Option<(VoxelPos, WorldVoxel)>>| #[trigger]
        is_search(sample, origin, radius, n, attempts, draws) && blocks@ == spec_found(draws, n);
    let ghost mut above: Seq<WorldVoxel> = Seq::empty();
    let mut sites: Vec<VoxelPos> = Vec::new();
    let mut k: usize = 0;
    assert(blocks@.take(0) == Seq::<(VoxelPos, WorldVoxel)>::empty());
    while k < blocks.len()
        invariant
            forall|p: VoxelPos| call_requires(get_voxel, (p,)),
            k <= blocks@.len(),
            sites@.len() <= k,
            forall|j: int|
                0 <= j < blocks@.len() ==> call_ensures(
                    sample,
                    (origin, radius as u32),
                    Some(#[trigger] blocks@[j]),
                ),
            forall|j: int|
                0 <= j < sites@.len() ==> is_offered_site(
                    sample,
                    get_voxel,
                    origin,
                    radius,
                    #[trigger] sites@[j],
                ),
            above.len() == k,
            is_read_above(get_voxel, blocks@.take(k as int), above),
            sites@ == spec_growth_sites(blocks@.take(k as int), above),
            blocks@.no_duplicates(),
            sites@.no_duplicates(),
            from.len() == sites@.len(),
            forall|a: int| 0 <= a < sites@.len() ==> 0 <= #[trigger] from[a] < k,
            forall|a: int|
                0 <= a < sites@.len() ==> spec_growth_site(
                    blocks@[from[a]].1,
                    blocks@[from[a]].0,
                    WorldVoxel::Air,
                ) == Some(#[trigger] sites@[a]),
        decreases blocks@.len() - k,
    {
        let block = blocks[k];
        let site = get_growth_voxel(get_voxel, block.1, block.0);
        proof {
            let read = if block.0.y < i32::MAX {
                choose|above_vox: WorldVoxel|
                    call_ensures(get_voxel, (block.0.spec_above(),), above_vox) && site
                        == spec_growth_site(block.1, block.0, above_vox)
            } else {
                WorldVoxel::Unset
            };
            let earlier = above;
            above = earlier.push(read);
            let upto = blocks@.take(k + 1);
            assert(upto.drop_last() == blocks@.take(k as int));
            assert(upto.last() == block);
            assert(above.drop_last() == earlier);
            assert(site == spec_growth_site(block.1, block.0, read));
            assert forall|j: int| 0 <= j < upto.len() && (#[trigger] upto[j]).0.y
                < i32::MAX implies call_ensures(get_voxel, (upto[j].0.spec_above(),), above[j]) by {
                if j < k {
                    assert(blocks@.take(k as int)[j] == upto[j]);
                    assert(earlier[j] == above[j]);
                }
            }
            assert(blocks@[k as int] == block);
            if site is Some {
                assert(spec_growth_site(block.1, block.0, read) == Some(site->Some_0));
                assert(is_offered_site(sample, get_voxel, origin, radius, site->Some_0));
            }
        }
        match site {
            Some(place) => {
                proof {
                    assert forall|a: int| 0 <= a < sites@.len() implies sites@[a] != place by {
                        assert(blocks@[from[a]] != blocks@[k as int]);
                    }
                    from = from.push(k as int);
                }
                sites.push(place);
            },
            None => {},
        }
        k += 1;
    }
    assert(blocks@.take(blocks@.len() as int) == blocks@);
    sites
}

/// Whether a list of sites is what a search for growth sites near `origin`
/// comes to: there is a search for `n` surface blocks, and an answer of the
/// world for the coordinate above each block found, of which the sites are
/// the growth sites, in the order of the blocks.
pub open spec fn is_growth_search<
    S: Fn(VoxelPos, u32) -> Option<(VoxelPos, WorldVoxel)>,
    G: Fn(VoxelPos) -> WorldVoxel,
>(
    sample: &S,
    get_voxel: &G,
    origin: VoxelPos,
    radius: u8,
    n: u8,
    attempts: u32,
    sites: Seq<VoxelPos>,
) -> bool {
    exists|draws: Seq<Option<(VoxelPos, WorldVoxel)>>, above: Seq<WorldVoxel>|
        {
            &&& is_search(sample, origin, radius, n, attempts, draws)
            &&& #[trigger] is_read_above(get_voxel, spec_found(draws, n), above)
            &&& sites == spec_growth_sites(spec_found(draws, n), above)
        }
}

/// Whether a list of sites is the plan that the world offers for a
/// population: one list of sites for each organism; none for an organism
/// that is not fruiting; for a fruiting one what a search for growth sites
/// comes to, within the spread distance of its species, for as many blocks
/// as its species spreads, in at most `attempts` draws. The sites of one
/// organism are thus at most as many as its species spreads, all different,
/// and each a growth site that the world offers.
pub open spec fn is_spread_plan<
    S: Fn(VoxelPos, u32) -> Option<(VoxelPos, WorldVoxel)>,
    G: Fn(VoxelPos) -> WorldVoxel,
>(
    sample: &S,
    get_voxel: &G,
    attempts: u32,
    organisms: Seq<Organism>,
    sites: Seq<Vec<VoxelPos>>,
) -> bool {
    &&& sites.len() == organisms.len()
    &&& forall|i: int|
        0 <= i < organisms.len() && organisms[i].phase != LifePhase::Fruiting ==> (
        #[trigger] sites[i])@.len() == 0
    &&& forall|i: int|
        0 <= i < organisms.len() && organisms[i].phase == LifePhase::Fruiting ==> is_growth_search(
            sample,
            get_voxel,
            organisms[i].position.pos,
            organisms[i].species.spec_spread_distance(),
            organisms[i].species.spec_spread_per_fruiting(),
            attempts,
            (#[trigger] sites[i])@,
        )
    &&& forall|i: int| 0 <= i < organisms.len() ==> (#[trigger] sites[i])@.no_duplicates()
    &&& forall|i: int|
        0 <= i < organisms.len() ==> (#[trigger] sites[i])@.len()
            <= organisms[i].species.spec_spread_per_fruiting()
    &&& forall|i: int, k: int|
        0 <= i < organisms.len() && 0 <= k < sites[i]@.len() ==> is_offered_site(
            sample,
            get_voxel,
            organisms[i].position.pos,
            organisms[i].species.spec_spread_distance(),
            #[trigger] sites[i]@[k],
        )
}

/// For each organism of a population the growth sites to which it spreads
/// seeds this tick. For each fruiting organism the world is searched for
/// growth sites as by `growth_sites_near`, within the spread distance of
/// its species and for as many blocks as its species spreads; an organism
/// in another phase gets no sites, and the world is not asked on its behalf.
pub fn plan_spread<
    S: Fn(VoxelPos, u32) -> Option<(VoxelPos, WorldVoxel)>,
    G: Fn(VoxelPos) -> WorldVoxel,
>(sample: &S, get_voxel: &G, attempts: u32, organisms: &Vec<Organism>) -> (sites: Vec<
    Vec<VoxelPos>,
>)
    requires
        forall|p: VoxelPos, r: u32| call_requires(sample, (p, r)),
        forall|p: VoxelPos| call_requires(get_voxel, (p,)),
    ensures
        is_spread_plan(sample, get_voxel, attempts, organisms@, sites@),
{
    let mut sites: Vec<Vec<VoxelPos>> = Vec::new();
    let mut i: usize = 0;
    while i < organisms.len()
        invariant
            forall|p: VoxelPos, r: u32| call_requires(sample, (p, r)),
            forall|p: VoxelPos| call_requires(get_voxel, (p,)),
            i <= organisms@.len(),
            sites@.len() == i,
            forall|j: int|
                0 <= j < i && organisms@[j].phase != LifePhase::Fruiting ==> (
                #[trigger] sites@[j])@.len() == 0,
            forall|j: int|
                0 <= j < i && organisms@[j].phase == LifePhase::Fruiting ==> is_growth_search(
                    sample,
                    get_voxel,
                    organisms@[j].position.pos,
                    organisms@[j].species.spec_spread_distance(),
                    organisms@[j].species.spec_spread_per_fruiting(),
                    attempts,
                    (#[trigger] sites@[j])@,
                ),
            forall|j: int| 0 <= j < i ==> (#[trigger] sites@[j])@.no_duplicates(),
            forall|j: int|
                0 <= j < i ==> (#[trigger] sites@[j])@.len()
                    <= organisms@[j].species.spec_spread_per_fruiting(),
            forall|j: int, k: int|
                0 <= j < i && 0 <= k < sites@[j]@.len() ==> is_offered_site(
                    sample,
                    get_voxel,
                    organisms@[j].position.pos,
                    organisms@[j].species.spec_spread_distance(),
                    #[trigger] sites@[j]@[k],
                ),
        decreases organisms@.len() - i,
    {
        let organism = organisms[i];
        let offered = match organism.phase {
            LifePhase::Fruiting => growth_sites_near(
                sample,
                get_voxel,
                organism.position.pos,
                organism.species.spread_distance(),
                organism.species.spread_per_fruiting(),
                attempts,
            ),
            _ => Vec::new(),
        };
        sites.push(offered);
        i += 1;
    }
    sites
}

/// The blocks that a search keeps of a list of draws, taken note of one
/// after the other.
pub open spec fn spec_found(draws: Seq<Option<(VoxelPos, WorldVoxel)>>, n: u8) -> Seq<
    (VoxelPos, WorldVoxel),
>
    decreases draws.len(),
{
    if draws.len() == 0 {
        Seq::empty()
    } else {
        spec_note_sample(spec_found(draws.drop_last(), n), draws.last(), n)
    }
}

/// Whether a list of draws is a search for `n` surface blocks within
/// `radius` of `position` in at most `attempts` draws: every draw is an
/// answer of the world to that question; the draws end when `n` blocks are
/// found or the attempts are used up; and none is made after `n` blocks are
/// found.
pub open spec fn is_search<S: Fn(VoxelPos, u32) -> Option<(VoxelPos, WorldVoxel)>>(
    sample: &S,
    position: VoxelPos,
    radius: u8,
    n: u8,
    attempts: u32,
    draws: Seq<Option<(VoxelPos, WorldVoxel)>>,
) -> bool {
    &&& draws.len() <= attempts
    &&& forall|k: int|
        0 <= k < draws.len() ==> call_ensures(sample, (position, radius as u32), #[trigger] draws[k])
    &&& draws.len() == attempts || spec_found(draws, n).len() >= n
    &&& forall|k: int| 0 <= k < draws.len() ==> spec_found(#[trigger] draws.take(k), n).len() < n
}

/// Whether `above` is what the world has answered for the coordinates above
/// a list of blocks, one answer for each block. Of a block at the top of the
/// coordinate range, which has nothing above it, any entry will do.
pub open spec fn is_read_above<G: Fn(VoxelPos) -> WorldVoxel>(
    get_voxel: &G,
    blocks: Seq<(VoxelPos, WorldVoxel)>,
    above: Seq<WorldVoxel>,
) -> bool {
    &&& above.len() == blocks.len()
    &&& forall|k: int|
        0 <= k < blocks.len() && (#[trigger] blocks[k]).0.y < i32::MAX ==> call_ensures(
            get_voxel,
            (blocks[k].0.spec_above(),),
            above[k],
        )
}

/// The growth sites of a list of blocks, given what lies above each: the
/// sites of the blocks that have one, in the order of the blocks.
pub open spec fn spec_growth_sites(blocks: Seq<(VoxelPos, WorldVoxel)>, above: Seq<WorldVoxel>) -> Seq<
    VoxelPos,
>
    decreases blocks.len(),
{
    if blocks.len() == 0 {
        Seq::empty()
    } else {
        let rest = spec_growth_sites(blocks.drop_last(), above.drop_last());
        match spec_growth_site(blocks.last().1, blocks.last().0, above.last()) {
            Some(site) => rest.push(site),
            None => rest,
        }
    }
}

} // verus!
