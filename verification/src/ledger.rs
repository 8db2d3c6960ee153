//! The resource ledger: pending collections are credited to the inventories
//! of the players they belong to, and are then gone.

use vstd::prelude::*;
use crate::core_components::{PlayerRef, Species};
use crate::fruiting::collections;
use crate::resources::{
    amount_of, can_add_resources, spec_add_resources, CollectResource, Collection, FarmResource,
    PlayerInventory,
};

verus! {

/// A player: the reference that organisms and collections name as their
/// owner, and what the player has collected.
#[derive(Clone, Debug)]
pub struct Player {
    pub entity: PlayerRef,
    pub inventory: PlayerInventory,
}

/// How much of a resource kind the collections of a list hold for an owner,
/// all together.
pub open spec fn spec_total(events: Seq<Collection>, owner: PlayerRef, res: FarmResource) -> nat
    decreases events.len(),
{
    if events.len() == 0 {
        0
    } else if events.last().owner == owner {
        spec_total(events.drop_last(), owner, res) + amount_of(events.last().resource, res)
    } else {
        spec_total(events.drop_last(), owner, res)
    }
}

/// Whether an inventory can take in all that a list of collections holds for
/// its owner, with every quantity in range.
pub open spec fn creditable(
    inventory: Map<FarmResource, u32>,
    owner: PlayerRef,
    events: Seq<Collection>,
) -> bool {
    forall|res: FarmResource| #[trigger]
        amount_of(inventory, res) + spec_total(events, owner, res) <= u32::MAX
}

/// An inventory after the collections of a list that belong to its owner
/// were added to it, one after the other.
pub open spec fn spec_credit(
    inventory: Map<FarmResource, u32>,
    owner: PlayerRef,
    events: Seq<Collection>,
) -> Map<FarmResource, u32>
    decreases events.len(),
{
    if events.len() == 0 {
        inventory
    } else if events.last().owner == owner {
        spec_add_resources(spec_credit(inventory, owner, events.drop_last()), events.last().resource)
    } else {
        spec_credit(inventory, owner, events.drop_last())
    }
}

/// Whether no player earlier in the list has the same reference as the
/// player at place `i`.
pub open spec fn is_first_of_entity(players: Seq<Player>, i: int) -> bool {
    forall|j: int| 0 <= j < i ==> (#[trigger] players[j]).entity != players[i].entity
}

/// Crediting keeps the books: of every resource kind the inventory holds
/// afterwards what it held before and what the collections for its owner
/// hold, no more and no less; and it holds a kind if and only if it held it
/// before or one of those collections holds it.
pub proof fn lemma_credit_totals(
    inventory: Map<FarmResource, u32>,
    owner: PlayerRef,
    events: Seq<Collection>,
)
    requires
        creditable(inventory, owner, events),
    ensures
        forall|res: FarmResource| #[trigger]
            amount_of(spec_credit(inventory, owner, events), res) == amount_of(inventory, res)
                + spec_total(events, owner, res),
        forall|res: FarmResource| #[trigger]
            spec_credit(inventory, owner, events).contains_key(res) <==> inventory.contains_key(
                res,
            ) || exists|k: int|
                0 <= k < events.len() && (#[trigger] events[k]).owner == owner
                    && events[k].resource.contains_key(res),
        events.len() > 0 ==> creditable(inventory, owner, events.drop_last()),
        events.len() > 0 && events.last().owner == owner ==> can_add_resources(
            spec_credit(inventory, owner, events.drop_last()),
            events.last().resource,
        ),
    decreases events.len(),
{
    if events.len() > 0 {
        let rest = events.drop_last();
        assert forall|res: FarmResource| #[trigger]
            amount_of(inventory, res) + spec_total(rest, owner, res) <= u32::MAX by {
            assert(amount_of(inventory, res) + spec_total(events, owner, res) <= u32::MAX);
        }
        lemma_credit_totals(inventory, owner, rest);
        let before = spec_credit(inventory, owner, rest);
        if events.last().owner == owner {
            assert forall|res: FarmResource| #[trigger]
                amount_of(before, res) + amount_of(events.last().resource, res) <= u32::MAX by {
                assert(amount_of(inventory, res) + spec_total(events, owner, res) <= u32::MAX);
                assert(amount_of(before, res) == amount_of(inventory, res) + spec_total(
                    rest,
                    owner,
                    res,
                ));
            }
        }
        assert forall|res: FarmResource| #[trigger]
            amount_of(spec_credit(inventory, owner, events), res) == amount_of(inventory, res)
                + spec_total(events, owner, res) by {
            assert(amount_of(inventory, res) + spec_total(events, owner, res) <= u32::MAX);
            assert(amount_of(before, res) == amount_of(inventory, res) + spec_total(
                rest,
                owner,
                res,
            ));
        }
        assert forall|res: FarmResource| #[trigger]
            spec_credit(inventory, owner, events).contains_key(res) <==> inventory.contains_key(
                res,
            ) || exists|k: int|
                0 <= k < events.len() && (#[trigger] events[k]).owner == owner
                    && events[k].resource.contains_key(res) by {
            let last = events.len() - 1;
            assert(before.contains_key(res) <==> inventory.contains_key(res) || exists|k: int|
                0 <= k < rest.len() && (#[trigger] rest[k]).owner == owner
                    && rest[k].resource.contains_key(res));
            if exists|k: int|
                0 <= k < rest.len() && (#[trigger] rest[k]).owner == owner
                    && rest[k].resource.contains_key(res) {
                let k = choose|k: int|
                    0 <= k < rest.len() && (#[trigger] rest[k]).owner == owner
                        && rest[k].resource.contains_key(res);
                assert(events[k] == rest[k]);
            }
            if exists|k: int|
                0 <= k < events.len() && (#[trigger] events[k]).owner == owner
                    && events[k].resource.contains_key(res) {
                let k = choose|k: int|
                    0 <= k < events.len() && (#[trigger] events[k]).owner == owner
                        && events[k].resource.contains_key(res);
                if k < last {
                    assert(rest[k] == events[k]);
                }
            }
        }
    }
}

/// Collections for other owners leave an inventory as it is.
pub proof fn lemma_credit_untouched(
    inventory: Map<FarmResource, u32>,
    owner: PlayerRef,
    events: Seq<Collection>,
)
    requires
        forall|k: int| 0 <= k < events.len() ==> (#[trigger] events[k]).owner != owner,
    ensures
        spec_credit(inventory, owner, events) == inventory,
    decreases events.len(),
{
    if events.len() > 0 {
        assert forall|k: int| 0 <= k < events.drop_last().len() implies (
        #[trigger] events.drop_last()[k]).owner != owner by {
            assert(events.drop_last()[k] == events[k]);
        }
        lemma_credit_untouched(inventory, owner, events.drop_last());
    }
}

/// Crediting a second time, with no new collection in between, changes
/// nothing: the first time leaves no collection behind, and crediting an
/// empty list leaves an inventory as it is.
pub proof fn lemma_credit_twice(
    inventory: Map<FarmResource, u32>,
    owner: PlayerRef,
    events: Seq<Collection>,
)
    ensures
        spec_credit(spec_credit(inventory, owner, events), owner, Seq::empty()) == spec_credit(
            inventory,
            owner,
            events,
        ),
{
}

/// Whether no player earlier in the list has the same reference as the
/// player at place `i`.
pub fn first_of_entity(players: &Vec<Player>, i: usize) -> (first: bool)
    requires
        i < players.len(),
    ensures
        first == is_first_of_entity(players@, i as int),
{
    let mut j: usize = 0;
    while j < i
        invariant
            j <= i < players.len(),
            forall|k: int| 0 <= k < j ==> (#[trigger] players@[k]).entity != players@[i as int].entity,
        decreases i - j,
    {
        if players[j].entity == players[i].entity {
            return false;
        }
        j += 1;
    }
    true
}

/// Adds to an inventory every collection of a list that belongs to `owner`.
pub fn credit(inventory: &mut PlayerInventory, owner: PlayerRef, events: &Vec<CollectResource>)
    requires
        creditable(old(inventory).resources@, owner, collections(events@)),
    ensures
        final(inventory).resources@ == spec_credit(
            old(inventory).resources@,
            owner,
            collections(events@),
        ),
{
    let ghost start = inventory.resources@;
    let ghost all = collections(events@);
    let mut k: usize = 0;
    assert(all.take(0) == Seq::<Collection>::empty());
    while k < events.len()
        invariant
            k <= events.len(),
            all == collections(events@),
            creditable(start, owner, all),
            inventory.resources@ == spec_credit(start, owner, all.take(k as int)),
        decreases events.len() - k,
    {
        proof {
            let upto = all.take(k + 1);
            assert(upto.drop_last() == all.take(k as int));
            assert(upto.last() == events@[k as int]@);
            lemma_total_prefix(all, owner, k + 1);
            assert forall|res: FarmResource| #[trigger]
                amount_of(start, res) + spec_total(upto, owner, res) <= u32::MAX by {
                assert(amount_of(start, res) + spec_total(all, owner, res) <= u32::MAX);
            }
            lemma_credit_totals(start, owner, upto);
        }
        if events[k].owner == owner {
            inventory.resources.merge(&events[k].resource);
        }
        k += 1;
    }
    assert(all.take(events@.len() as int) == all);
}

/// The collections at the head of a list hold no more for an owner than the
/// whole list does.
pub proof fn lemma_total_prefix(events: Seq<Collection>, owner: PlayerRef, n: int)
    requires
        0 <= n <= events.len(),
    ensures
        forall|res: FarmResource| #[trigger]
            spec_total(events.take(n), owner, res) <= spec_total(events, owner, res),
    decreases events.len() - n,
{
    if n < events.len() {
        lemma_total_prefix(events, owner, n + 1);
        assert(events.take(n + 1).drop_last() == events.take(n));
        assert forall|res: FarmResource| #[trigger]
            spec_total(events.take(n), owner, res) <= spec_total(events, owner, res) by {
            assert(spec_total(events.take(n), owner, res) <= spec_total(
                events.take(n + 1),
                owner,
                res,
            ));
        }
    } else {
        assert(events.take(n) == events);
    }
}

/// Credits every pending collection to the inventory of the player it
/// belongs to and discards the collections. Where several players of the
/// list have the same reference, the first of them is credited. A
/// collection whose owner is not in the list is discarded all the same.
pub fn resource_collection_system(players: &mut Vec<Player>, events: &mut Vec<CollectResource>)
    requires
        forall|i: int|
            0 <= i < old(players)@.len() && is_first_of_entity(old(players)@, i) ==> creditable(
                (#[trigger] old(players)@[i]).inventory.resources@,
                old(players)@[i].entity,
                collections(old(events)@),
            ),
    ensures
        final(events)@.len() == 0,
        final(players)@.len() == old(players)@.len(),
        forall|i: int|
            0 <= i < old(players)@.len() ==> (#[trigger] final(players)@[i]).entity == old(
                players,
            )@[i].entity,
        forall|i: int|
            0 <= i < old(players)@.len() ==> (#[trigger] final(players)@[i]).inventory.resources@
                == if is_first_of_entity(old(players)@, i) {
                spec_credit(
                    old(players)@[i].inventory.resources@,
                    old(players)@[i].entity,
                    collections(old(events)@),
                )
            } else {
                old(players)@[i].inventory.resources@
            },
{
    let ghost before = players@;
    let count: usize = players.len();
    let mut i: usize = 0;
    while i < count
        invariant
            i <= count,
            players@.len() == count,
            before.len() == count,
            events@ == old(events)@,
            forall|k: int| 0 <= k < count ==> (#[trigger] players@[k]).entity == before[k].entity,
            forall|k: int| i <= k < count ==> players@[k] == before[k],
            forall|k: int|
                0 <= k < count && is_first_of_entity(before, k) ==> creditable(
                    (#[trigger] before[k]).inventory.resources@,
                    before[k].entity,
                    collections(events@),
                ),
            forall|k: int|
                0 <= k < i ==> (#[trigger] players@[k]).inventory.resources@
                    == if is_first_of_entity(before, k) {
                    spec_credit(
                        before[k].inventory.resources@,
                        before[k].entity,
                        collections(events@),
                    )
                } else {
                    before[k].inventory.resources@
                },
        decreases count - i,
    {
        let first = first_of_entity(players, i);
        proof {
            if is_first_of_entity(before, i as int) {
                assert forall|j: int| 0 <= j < i implies (#[trigger] players@[j]).entity
                    != players@[i as int].entity by {
                    assert(before[j].entity != before[i as int].entity);
                }
            }
            if is_first_of_entity(players@, i as int) {
                assert forall|j: int| 0 <= j < i implies (#[trigger] before[j]).entity
                    != before[i as int].entity by {
                    assert(players@[j].entity != players@[i as int].entity);
                }
            }
        }
        if first {
            let owner = players[i].entity;
            credit(&mut players[i].inventory, owner, events);
        }
        i += 1;
    }
    events.clear();
}

/// Whether an inventory can take in what a list of collections holds of
/// one resource kind for an owner, with the quantity in range.
pub fn fits_in(
    inventory: &PlayerInventory,
    owner: PlayerRef,
    events: &Vec<CollectResource>,
    res: FarmResource,
) -> (fits: bool)
    ensures
        fits == (amount_of(inventory.resources@, res) + spec_total(
            collections(events@),
            owner,
            res,
        ) <= u32::MAX),
{
    let ghost all = collections(events@);
    let mut held: u32 = inventory.resources.amount(res);
    let mut k: usize = 0;
    assert(all.take(0) == Seq::<Collection>::empty());
    while k < events.len()
        invariant
            k <= events.len(),
            all == collections(events@),
            held == amount_of(inventory.resources@, res) + spec_total(
                all.take(k as int),
                owner,
                res,
            ),
        decreases events.len() - k,
    {
        proof {
            let upto = all.take(k + 1);
            assert(upto.drop_last() == all.take(k as int));
            assert(upto.last() == events@[k as int]@);
            lemma_total_prefix(all, owner, k + 1);
        }
        if events[k].owner == owner {
            let more: u32 = events[k].resource.amount(res);
            if held > u32::MAX - more {
                proof {
                    let upto = all.take(k + 1);
                    assert(spec_total(upto, owner, res) == spec_total(
                        all.take(k as int),
                        owner,
                        res,
                    ) + more);
                    assert(spec_total(upto, owner, res) <= spec_total(all, owner, res));
                }
                return false;
            }
            held = held + more;
        }
        k += 1;
    }
    assert(all.take(events@.len() as int) == all);
    true
}

/// Whether an inventory can take in all that a list of collections holds for
/// an owner, with every quantity in range.
pub fn can_credit(inventory: &PlayerInventory, owner: PlayerRef, events: &Vec<CollectResource>) -> (fits:
    bool)
    ensures
        fits == creditable(inventory.resources@, owner, collections(events@)),
{
    let fits = fits_in(inventory, owner, events, FarmResource::FoodValue(Species::Apple))
        && fits_in(inventory, owner, events, FarmResource::FoodValue(Species::Wheat)) && fits_in(
        inventory,
        owner,
        events,
        FarmResource::Seeds(Species::Apple),
    ) && fits_in(inventory, owner, events, FarmResource::Seeds(Species::Wheat));
    proof {
        if fits {
            assert forall|res: FarmResource| #[trigger]
                amount_of(inventory.resources@, res) + spec_total(
                    collections(events@),
                    owner,
                    res,
                ) <= u32::MAX by {
                match res {
                    FarmResource::FoodValue(Species::Apple) => {},
                    FarmResource::FoodValue(Species::Wheat) => {},
                    FarmResource::Seeds(Species::Apple) => {},
                    FarmResource::Seeds(Species::Wheat) => {},
                }
            }
        }
    }
    fits
}

/// Whether every player of a list can be credited with the pending
/// collections, with every quantity in range: whether the collections can be
/// handed to `resource_collection_system`.
pub fn can_collect(players: &Vec<Player>, events: &Vec<CollectResource>) -> (fits: bool)
    ensures
        fits == forall|i: int|
            0 <= i < players@.len() && is_first_of_entity(players@, i) ==> creditable(
                (#[trigger] players@[i]).inventory.resources@,
                players@[i].entity,
                collections(events@),
            ),
{
    let mut i: usize = 0;
    while i < players.len()
        invariant
            i <= players@.len(),
            forall|k: int|
                0 <= k < i && is_first_of_entity(players@, k) ==> creditable(
                    (#[trigger] players@[k]).inventory.resources@,
                    players@[k].entity,
                    collections(events@),
                ),
        decreases players@.len() - i,
    {
        if first_of_entity(players, i) && !can_credit(
            &players[i].inventory,
            players[i].entity,
            events,
        ) {
            return false;
        }
        i += 1;
    }
    true
}

/// What a player's entry in the ledger says: who the player is, and what
/// the player holds.
pub struct Account {
    pub entity: PlayerRef,
    pub resources: Map<FarmResource, u32>,
}

impl View for Player {
    type V = Account;

    open spec fn view(&self) -> Account {
        Account { entity: self.entity, resources: self.inventory.resources@ }
    }
}

/// What a list of players says.
pub open spec fn accounts(players: Seq<Player>) -> Seq<Account> {
    players.map_values(|p: Player| p@)
}

/// Whether no account earlier in the list has the same reference as the
/// account at place `i`.
pub open spec fn is_first_account(ledger: Seq<Account>, i: int) -> bool {
    forall|j: int| 0 <= j < i ==> (#[trigger] ledger[j]).entity != ledger[i].entity
}

/// Whether every account of a ledger can be credited with a list of
/// collections, with every quantity in range. Of several accounts with the
/// same reference only the first counts.
pub open spec fn can_settle(ledger: Seq<Account>, pending: Seq<Collection>) -> bool {
    forall|i: int|
        0 <= i < ledger.len() && is_first_account(ledger, i) ==> creditable(
            (#[trigger] ledger[i]).resources,
            ledger[i].entity,
            pending,
        )
}

/// What settling leaves: the accounts, the collections that are still
/// pending, and whether the collections were credited.
pub struct Settlement {
    pub accounts: Seq<Account>,
    pub pending: Seq<Collection>,
    pub credited: bool,
}

/// A ledger and its pending collections after settling. Where every account
/// can be credited, each first account of a reference is credited with the
/// collections for that reference and no collection is left pending.
/// Otherwise nothing changes.
pub open spec fn spec_settle(ledger: Seq<Account>, pending: Seq<Collection>) -> Settlement {
    if can_settle(ledger, pending) {
        Settlement {
            accounts: Seq::new(
                ledger.len(),
                |i: int|
                    Account {
                        entity: ledger[i].entity,
                        resources: if is_first_account(ledger, i) {
                            spec_credit(ledger[i].resources, ledger[i].entity, pending)
                        } else {
                            ledger[i].resources
                        },
                    },
            ),
            pending: Seq::empty(),
            credited: true,
        }
    } else {
        Settlement { accounts: ledger, pending, credited: false }
    }
}

/// Settling twice in a row, with no new collection in between, changes
/// nothing the second time, whatever the inventories hold and whatever is
/// pending: the accounts and the pending collections are after the second
/// time what they were after the first. Where the first time has credited
/// the collections, none is pending after either.
pub proof fn lemma_settle_twice(ledger: Seq<Account>, pending: Seq<Collection>)
    ensures
        spec_settle(
            spec_settle(ledger, pending).accounts,
            spec_settle(ledger, pending).pending,
        ) == spec_settle(ledger, pending),
        spec_settle(ledger, pending).credited ==> spec_settle(ledger, pending).pending.len() == 0,
{
    let first = spec_settle(ledger, pending);
    if first.credited {
        assert forall|i: int|
            0 <= i < first.accounts.len() implies is_first_account(first.accounts, i)
            == is_first_account(ledger, i) by {
            if is_first_account(ledger, i) {
                assert forall|j: int| 0 <= j < i implies (#[trigger] first.accounts[j]).entity
                    != first.accounts[i].entity by {
                    assert(ledger[j].entity != ledger[i].entity);
                }
            }
            if is_first_account(first.accounts, i) {
                assert forall|j: int| 0 <= j < i implies (#[trigger] ledger[j]).entity
                    != ledger[i].entity by {
                    assert(first.accounts[j].entity != first.accounts[i].entity);
                }
            }
        }
        assert(can_settle(first.accounts, first.pending)) by {
            assert forall|i: int|
                0 <= i < first.accounts.len() && is_first_account(
                    first.accounts,
                    i,
                ) implies creditable(
                (#[trigger] first.accounts[i]).resources,
                first.accounts[i].entity,
                first.pending,
            ) by {
                assert(is_first_account(ledger, i));
                assert(creditable(ledger[i].resources, ledger[i].entity, pending));
                lemma_credit_totals(ledger[i].resources, ledger[i].entity, pending);
                assert forall|res: FarmResource| #[trigger]
                    amount_of(first.accounts[i].resources, res) + spec_total(
                        first.pending,
                        first.accounts[i].entity,
                        res,
                    ) <= u32::MAX by {
                    assert(amount_of(spec_credit(ledger[i].resources, ledger[i].entity, pending), res)
                        == amount_of(ledger[i].resources, res) + spec_total(
                        pending,
                        ledger[i].entity,
                        res,
                    ));
                    assert(amount_of(ledger[i].resources, res) + spec_total(
                        pending,
                        ledger[i].entity,
                        res,
                    ) <= u32::MAX);
                }
            }
        }
        let second = spec_settle(first.accounts, first.pending);
        assert(second.accounts =~= first.accounts);
        assert(second.pending =~= first.pending);
    }
}

/// What a list of players says agrees with the players on who is first of a
/// reference and on who can be credited.
pub proof fn lemma_accounts_agree(players: Seq<Player>, pending: Seq<Collection>)
    ensures
        forall|i: int|
            0 <= i < players.len() ==> #[trigger] is_first_account(accounts(players), i)
                == is_first_of_entity(players, i),
        can_settle(accounts(players), pending) == forall|i: int|
            0 <= i < players.len() && is_first_of_entity(players, i) ==> creditable(
                (#[trigger] players[i]).inventory.resources@,
                players[i].entity,
                pending,
            ),
{
    let ledger = accounts(players);
    assert forall|i: int| 0 <= i < players.len() implies #[trigger] is_first_account(ledger, i)
        == is_first_of_entity(players, i) by {
        if is_first_of_entity(players, i) {
            assert forall|j: int| 0 <= j < i implies (#[trigger] ledger[j]).entity
                != ledger[i].entity by {
                assert(players[j].entity != players[i].entity);
            }
        }
        if is_first_account(ledger, i) {
            assert forall|j: int| 0 <= j < i implies (#[trigger] players[j]).entity
                != players[i].entity by {
                assert(ledger[j].entity != ledger[i].entity);
            }
        }
    }
    let on_players = forall|i: int|
        0 <= i < players.len() && is_first_of_entity(players, i) ==> creditable(
            (#[trigger] players[i]).inventory.resources@,
            players[i].entity,
            pending,
        );
    if on_players {
        assert forall|i: int| 0 <= i < ledger.len() && is_first_account(ledger, i) implies creditable(
            (#[trigger] ledger[i]).resources,
            ledger[i].entity,
            pending,
        ) by {
            assert(is_first_of_entity(players, i));
            assert(creditable(players[i].inventory.resources@, players[i].entity, pending));
        }
    }
    if can_settle(ledger, pending) {
        assert forall|i: int|
            0 <= i < players.len() && is_first_of_entity(players, i) implies creditable(
            (#[trigger] players[i]).inventory.resources@,
            players[i].entity,
            pending,
        ) by {
            assert(is_first_account(ledger, i));
            assert(creditable(ledger[i].resources, ledger[i].entity, pending));
        }
    }
}

/// Settles the ledger: credits every pending collection to the inventory of
/// the player it belongs to and discards the collections, as
/// `resource_collection_system` does, wherever every quantity stays in
/// range. Otherwise nothing is credited and the collections stay pending.
pub fn settle_collections(players: &mut Vec<Player>, events: &mut Vec<CollectResource>) -> (credited:
    bool)
    ensures
        credited == spec_settle(accounts(old(players)@), collections(old(events)@)).credited,
        accounts(final(players)@) == spec_settle(
            accounts(old(players)@),
            collections(old(events)@),
        ).accounts,
        collections(final(events)@) == spec_settle(
            accounts(old(players)@),
            collections(old(events)@),
        ).pending,
{
    proof {
        lemma_accounts_agree(players@, collections(events@));
    }
    let credited = can_collect(players, events);
    if credited {
        resource_collection_system(players, events);
        proof {
            let settled = spec_settle(accounts(old(players)@), collections(old(events)@));
            assert(accounts(players@) =~= settled.accounts);
            assert(collections(events@) =~= settled.pending);
        }
    }
    credited
}

} // verus!
