//! Resource quantities keyed by resource kind.
//!
//! The quantities are kept in a hash map of the game engine's utility
//! library, keyed by a small integer that stands for the resource kind. That
//! map is not verified. What this module believes of it is stated on the
//! functions marked `external_body`, each of which makes one call into the
//! map; everything else is proved from those statements.

use vstd::prelude::*;
use vstd::std_specs::cmp::PartialEqSpecImpl;
use crate::core_components::{PlayerRef, Species};

verus! {

/// Something a player can collect.
#[derive(Clone, Copy, Debug, PartialEq, Eq, Hash, Structural)]
pub enum FarmResource {
    FoodValue(Species),
    Seeds(Species),
}

impl FarmResource {
    /// The key under which the quantity of a resource kind is stored.
    pub open spec fn spec_code(self) -> u8 {
        match self {
            FarmResource::FoodValue(Species::Apple) => 0,
            FarmResource::FoodValue(Species::Wheat) => 1,
            FarmResource::Seeds(Species::Apple) => 2,
            FarmResource::Seeds(Species::Wheat) => 3,
        }
    }

    /// The key under which the quantity of this resource kind is stored.
    /// Two kinds never share a key.
    pub fn code(&self) -> (code: u8)
        ensures
            code == self.spec_code(),
            forall|other: FarmResource| other.spec_code() == code ==> other == *self,
    {
        match self {
            FarmResource::FoodValue(Species::Apple) => 0,
            FarmResource::FoodValue(Species::Wheat) => 1,
            FarmResource::Seeds(Species::Apple) => 2,
            FarmResource::Seeds(Species::Wheat) => 3,
        }
    }
}

/// A quantity for each of some resource kinds. The verifier does not look
/// inside: it knows the map by `table_contents` alone.
#[derive(Debug)]
#[verifier::external_body]
pub struct ResourceMap {
    table: bevy::utils::HashMap<u8, u32>,
}

/// What the hash map inside a `ResourceMap` holds: the stored keys, each
/// with its quantity.
pub uninterp spec fn table_contents(map: ResourceMap) -> Map<u8, u32>;

/// Calls `Default::default` of `bevy::utils::HashMap`, which makes a map
/// that holds nothing.
#[verifier::external_body]
fn table_new() -> (map: ResourceMap)
    ensures
        table_contents(map) == (Map::<u8, u32>::empty()),
{
    ResourceMap { table: bevy::utils::HashMap::default() }
}

/// Calls `get` of `bevy::utils::HashMap`, which hands out the quantity
/// stored under a key, or nothing where the key is not stored.
#[verifier::external_body]
fn table_get(map: &ResourceMap, key: u8) -> (found: Option<u32>)
    ensures
        found == if table_contents(*map).contains_key(key) {
            Some(table_contents(*map)[key])
        } else {
            None
        },
{
    map.table.get(&key).copied()
}

/// Calls `insert` of `bevy::utils::HashMap`, which stores a quantity under
/// a key, in place of the one stored there before if there was one, and
/// leaves every other key as it was.
#[verifier::external_body]
fn table_insert(map: &mut ResourceMap, key: u8, amount: u32)
    ensures
        table_contents(*final(map)) == table_contents(*old(map)).insert(key, amount),
{
    map.table.insert(key, amount);
}

impl Clone for ResourceMap {
    /// Calls `clone` of `bevy::utils::HashMap`, which makes a map that holds
    /// the same keys with the same quantities.
    #[verifier::external_body]
    fn clone(&self) -> (copy: Self)
        ensures
            table_contents(copy) == table_contents(*self),
    {
        ResourceMap { table: self.table.clone() }
    }
}

impl PartialEq for ResourceMap {
    /// Whether two mappings hold the same resource kinds with the same
    /// quantities.
    fn eq(&self, other: &ResourceMap) -> (same: bool) {
        let same = self.get(FarmResource::FoodValue(Species::Apple)) == other.get(
            FarmResource::FoodValue(Species::Apple),
        ) && self.get(FarmResource::FoodValue(Species::Wheat)) == other.get(
            FarmResource::FoodValue(Species::Wheat),
        ) && self.get(FarmResource::Seeds(Species::Apple)) == other.get(
            FarmResource::Seeds(Species::Apple),
        ) && self.get(FarmResource::Seeds(Species::Wheat)) == other.get(
            FarmResource::Seeds(Species::Wheat),
        );
        proof {
            if same {
                assert forall|res: FarmResource|
                    self@.contains_key(res) == other@.contains_key(res) && (self@.contains_key(res)
                        ==> self@[res] == other@[res]) by {
                    match res {
                        FarmResource::FoodValue(Species::Apple) => {},
                        FarmResource::FoodValue(Species::Wheat) => {},
                        FarmResource::Seeds(Species::Apple) => {},
                        FarmResource::Seeds(Species::Wheat) => {},
                    }
                }
                assert(self@ =~= other@);
            }
        }
        same
    }
}

impl Eq for ResourceMap {

}

impl PartialEqSpecImpl for ResourceMap {
    open spec fn obeys_eq_spec() -> bool {
        true
    }

    /// Two mappings are equal where they hold the same resource kinds with
    /// the same quantities.
    open spec fn eq_spec(&self, other: &ResourceMap) -> bool {
        self@ == other@
    }
}

impl View for ResourceMap {
    type V = Map<FarmResource, u32>;

    /// The resource kinds that have a quantity, each with that quantity.
    open spec fn view(&self) -> Map<FarmResource, u32> {
        Map::new(
            |res: FarmResource| table_contents(*self).contains_key(res.spec_code()),
            |res: FarmResource| table_contents(*self)[res.spec_code()],
        )
    }
}

/// The quantity that a mapping holds of a resource kind: zero where it holds
/// none.
pub open spec fn amount_of(resources: Map<FarmResource, u32>, res: FarmResource) -> nat {
    if resources.contains_key(res) {
        resources[res] as nat
    } else {
        0
    }
}

/// Two mappings added up: every kind that either holds, with the sum of what
/// the two hold of it.
pub open spec fn spec_add_resources(
    first: Map<FarmResource, u32>,
    second: Map<FarmResource, u32>,
) -> Map<FarmResource, u32> {
    Map::new(
        |res: FarmResource| first.contains_key(res) || second.contains_key(res),
        |res: FarmResource| (amount_of(first, res) + amount_of(second, res)) as u32,
    )
}

/// Whether two mappings can be added up with every sum in range.
pub open spec fn can_add_resources(
    first: Map<FarmResource, u32>,
    second: Map<FarmResource, u32>,
) -> bool {
    forall|res: FarmResource| #[trigger]
        amount_of(first, res) + amount_of(second, res) <= u32::MAX
}

impl ResourceMap {
    /// A mapping that holds no resource kind.
    pub fn new() -> (map: ResourceMap)
        ensures
            map@ == (Map::<FarmResource, u32>::empty()),
    {
        let map = table_new();
        assert(map@ =~= Map::<FarmResource, u32>::empty());
        map
    }

    /// The quantity held of a resource kind, if any is held.
    pub fn get(&self, res: FarmResource) -> (found: Option<u32>)
        ensures
            found == if self@.contains_key(res) {
                Some(self@[res])
            } else {
                None
            },
    {
        table_get(self, res.code())
    }

    /// The quantity held of a resource kind: zero where none is held.
    pub fn amount(&self, res: FarmResource) -> (amount: u32)
        ensures
            amount == amount_of(self@, res),
    {
        match self.get(res) {
            Some(amount) => amount,
            None => 0,
        }
    }

    /// Sets the quantity held of a resource kind.
    pub fn insert(&mut self, res: FarmResource, amount: u32)
        ensures
            final(self)@ == old(self)@.insert(res, amount),
    {
        let code: u8 = res.code();
        table_insert(self, code, amount);
        assert(self@ =~= old(self)@.insert(res, amount));
    }

    /// Whether another mapping can be added to this one with every sum in
    /// range.
    pub fn can_merge(&self, other: &ResourceMap) -> (fits: bool)
        ensures
            fits == can_add_resources(self@, other@),
    {
        let fits = self.fits_one(other, FarmResource::FoodValue(Species::Apple)) && self.fits_one(
            other,
            FarmResource::FoodValue(Species::Wheat),
        ) && self.fits_one(other, FarmResource::Seeds(Species::Apple)) && self.fits_one(
            other,
            FarmResource::Seeds(Species::Wheat),
        );
        proof {
            if fits {
                assert forall|res: FarmResource| #[trigger]
                    amount_of(self@, res) + amount_of(other@, res) <= u32::MAX by {
                    match res {
                        FarmResource::FoodValue(Species::Apple) => {},
                        FarmResource::FoodValue(Species::Wheat) => {},
                        FarmResource::Seeds(Species::Apple) => {},
                        FarmResource::Seeds(Species::Wheat) => {},
                    }
                }
            }
        }
        fits
    }

    /// Whether what two mappings hold of one resource kind sums to a
    /// quantity in range.
    fn fits_one(&self, other: &ResourceMap, res: FarmResource) -> (fits: bool)
        ensures
            fits == (amount_of(self@, res) + amount_of(other@, res) <= u32::MAX),
    {
        self.amount(res) <= u32::MAX - other.amount(res)
    }

    /// Adds to this mapping what another holds of one resource kind.
    fn absorb(&mut self, other: &ResourceMap, res: FarmResource)
        requires
            amount_of(old(self)@, res) + amount_of(other@, res) <= u32::MAX,
        ensures
            final(self)@ == if other@.contains_key(res) {
                old(self)@.insert(
                    res,
                    (amount_of(old(self)@, res) + amount_of(other@, res)) as u32,
                )
            } else {
                old(self)@
            },
    {
        match other.get(res) {
            Some(more) => {
                let held: u32 = self.amount(res);
                self.insert(res, held + more);
            },
            None => {},
        }
    }

    /// Adds to this mapping what another holds, kind by kind.
    pub fn merge(&mut self, other: &ResourceMap)
        requires
            can_add_resources(old(self)@, other@),
        ensures
            final(self)@ == spec_add_resources(old(self)@, other@),
    {
        proof {
            assert(amount_of(self@, FarmResource::FoodValue(Species::Apple)) + amount_of(
                other@,
                FarmResource::FoodValue(Species::Apple),
            ) <= u32::MAX);
            assert(amount_of(self@, FarmResource::FoodValue(Species::Wheat)) + amount_of(
                other@,
                FarmResource::FoodValue(Species::Wheat),
            ) <= u32::MAX);
            assert(amount_of(self@, FarmResource::Seeds(Species::Apple)) + amount_of(
                other@,
                FarmResource::Seeds(Species::Apple),
            ) <= u32::MAX);
            assert(amount_of(self@, FarmResource::Seeds(Species::Wheat)) + amount_of(
                other@,
                FarmResource::Seeds(Species::Wheat),
            ) <= u32::MAX);
        }
        self.absorb(other, FarmResource::FoodValue(Species::Apple));
        self.absorb(other, FarmResource::FoodValue(Species::Wheat));
        self.absorb(other, FarmResource::Seeds(Species::Apple));
        self.absorb(other, FarmResource::Seeds(Species::Wheat));
        assert(self@ =~= spec_add_resources(old(self)@, other@));
    }
}

/// Adds up two mappings, kind by kind.
pub fn add_resources(res_map1: ResourceMap, res_map2: ResourceMap) -> (sum: ResourceMap)
    requires
        can_add_resources(res_map1@, res_map2@),
    ensures
        sum@ == spec_add_resources(res_map1@, res_map2@),
{
    let mut sum = res_map1;
    sum.merge(&res_map2);
    sum
}

/// What a player has collected so far.
#[derive(Clone, Debug)]
pub struct PlayerInventory {
    pub resources: ResourceMap,
}

impl PlayerInventory {
    /// An inventory that holds nothing.
    pub fn new() -> (inventory: PlayerInventory)
        ensures
            inventory.resources@ == (Map::<FarmResource, u32>::empty()),
    {
        PlayerInventory { resources: ResourceMap::new() }
    }

    /// Adds a mapping to what the inventory holds, kind by kind.
    pub fn add_resources(&mut self, res_map: ResourceMap)
        requires
            can_add_resources(old(self).resources@, res_map@),
        ensures
            final(self).resources@ == spec_add_resources(old(self).resources@, res_map@),
    {
        self.resources = add_resources(self.resources.clone(), res_map);
    }
}

/// All that a mapping holds, of every resource kind together.
pub open spec fn spec_holdings(resources: Map<FarmResource, u32>) -> nat {
    amount_of(resources, FarmResource::FoodValue(Species::Apple)) + amount_of(
        resources,
        FarmResource::FoodValue(Species::Wheat),
    ) + amount_of(resources, FarmResource::Seeds(Species::Apple)) + amount_of(
        resources,
        FarmResource::Seeds(Species::Wheat),
    )
}

impl PlayerInventory {
    /// All that the inventory holds, of every resource kind together.
    pub fn holdings(&self) -> (total: u64)
        ensures
            total == spec_holdings(self.resources@),
    {
        let food_apple: u64 = self.resources.amount(FarmResource::FoodValue(Species::Apple)) as u64;
        let food_wheat: u64 = self.resources.amount(FarmResource::FoodValue(Species::Wheat)) as u64;
        let seeds_apple: u64 = self.resources.amount(FarmResource::Seeds(Species::Apple)) as u64;
        let seeds_wheat: u64 = self.resources.amount(FarmResource::Seeds(Species::Wheat)) as u64;
        food_apple + food_wheat + seeds_apple + seeds_wheat
    }
}

impl PartialEq for PlayerInventory {
    /// Whether two inventories hold the same.
    fn eq(&self, other: &PlayerInventory) -> (same: bool) {
        self.resources == other.resources
    }
}

impl Eq for PlayerInventory {

}

impl PartialEqSpecImpl for PlayerInventory {
    open spec fn obeys_eq_spec() -> bool {
        true
    }

    /// Two inventories are equal where they hold the same resource kinds
    /// with the same quantities.
    open spec fn eq_spec(&self, other: &PlayerInventory) -> bool {
        self.resources@ == other.resources@
    }
}

/// Resources that wait to be credited to a player.
#[derive(Clone, Debug)]
pub struct CollectResource {
    pub owner: PlayerRef,
    pub resource: ResourceMap,
}

/// What a pending collection says: who is to be credited, and with what.
pub struct Collection {
    pub owner: PlayerRef,
    pub resource: Map<FarmResource, u32>,
}

impl View for CollectResource {
    type V = Collection;

    open spec fn view(&self) -> Collection {
        Collection { owner: self.owner, resource: self.resource@ }
    }
}

impl PartialEq for CollectResource {
    /// Whether two collections have the same owner and hold the same.
    fn eq(&self, other: &CollectResource) -> (same: bool) {
        self.owner == other.owner && self.resource == other.resource
    }
}

impl Eq for CollectResource {

}

impl PartialEqSpecImpl for CollectResource {
    open spec fn obeys_eq_spec() -> bool {
        true
    }

    /// Two collections are equal where they say the same: the same owner,
    /// and the same resource kinds with the same quantities.
    open spec fn eq_spec(&self, other: &CollectResource) -> bool {
        self@ == other@
    }
}

impl CollectResource {
    /// A collection for `owner` that holds nothing yet.
    pub fn new(owner: PlayerRef) -> (collect: CollectResource)
        ensures
            collect@ == (Collection { owner, resource: Map::empty() }),
    {
        CollectResource { owner, resource: ResourceMap::new() }
    }

    /// Adds up two collections, kind by kind. The sum belongs to the owner
    /// of this one, also where the other has another owner.
    pub fn add(self, other: CollectResource) -> (sum: CollectResource)
        requires
            can_add_resources(self.resource@, other.resource@),
        ensures
            sum@ == (Collection {
                owner: self.owner,
                resource: spec_add_resources(self.resource@, other.resource@),
            }),
    {
        CollectResource { owner: self.owner, resource: add_resources(self.resource, other.resource) }
    }
}

} // verus!
