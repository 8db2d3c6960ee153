use voxel_vegetables::core_components::{PlayerRef, Species};
use voxel_vegetables::ledger::{
    can_collect, can_credit, credit, first_of_entity, fits_in, resource_collection_system,
    settle_collections, Player,
};
use voxel_vegetables::resources::{CollectResource, FarmResource, PlayerInventory};

const SEEDS_WHEAT: FarmResource = FarmResource::Seeds(Species::Wheat);
const FOOD_WHEAT: FarmResource = FarmResource::FoodValue(Species::Wheat);
const SEEDS_APPLE: FarmResource = FarmResource::Seeds(Species::Apple);
const FOOD_APPLE: FarmResource = FarmResource::FoodValue(Species::Apple);

fn collect(owner: u64, pairs: &[(FarmResource, u32)]) -> CollectResource {
    let mut event = CollectResource::new(PlayerRef(owner));
    for (res, amount) in pairs {
        event.resource.insert(*res, *amount);
    }
    event
}

fn player(entity: u64, pairs: &[(FarmResource, u32)]) -> Player {
    let mut inventory = PlayerInventory::new();
    for (res, amount) in pairs {
        inventory.resources.insert(*res, *amount);
    }
    Player { entity: PlayerRef(entity), inventory }
}

fn holdings(player: &Player) -> [Option<u32>; 4] {
    [
        player.inventory.resources.get(FOOD_APPLE),
        player.inventory.resources.get(FOOD_WHEAT),
        player.inventory.resources.get(SEEDS_APPLE),
        player.inventory.resources.get(SEEDS_WHEAT),
    ]
}

#[test]
fn two_collections_for_one_owner_are_credited_together() {
    let mut players = vec![player(1, &[(SEEDS_WHEAT, 5), (SEEDS_APPLE, 1)])];
    let mut events = vec![collect(1, &[(SEEDS_WHEAT, 100)]), collect(1, &[(FOOD_WHEAT, 2)])];
    assert!(can_collect(&players, &events));
    resource_collection_system(&mut players, &mut events);
    assert!(events.is_empty());
    assert_eq!(holdings(&players[0]), [None, Some(2), Some(1), Some(105)]);
}

#[test]
fn flushing_twice_changes_nothing_the_second_time() {
    let mut players = vec![player(1, &[]), player(2, &[(FOOD_APPLE, 3)])];
    let mut events = vec![
        collect(2, &[(FOOD_APPLE, 10), (SEEDS_APPLE, 15)]),
        collect(1, &[(SEEDS_WHEAT, 100)]),
    ];
    resource_collection_system(&mut players, &mut events);
    let after_first: Vec<[Option<u32>; 4]> = players.iter().map(holdings).collect();
    assert_eq!(after_first, vec![[None, None, None, Some(100)], [Some(13), None, Some(15), None]]);
    assert!(events.is_empty());
    resource_collection_system(&mut players, &mut events);
    let after_second: Vec<[Option<u32>; 4]> = players.iter().map(holdings).collect();
    assert_eq!(after_second, after_first);
    assert!(events.is_empty());
}

#[test]
fn a_player_without_collections_is_untouched() {
    let mut players = vec![player(1, &[(SEEDS_APPLE, 4)]), player(2, &[])];
    let mut events = vec![collect(2, &[(SEEDS_APPLE, 15)])];
    resource_collection_system(&mut players, &mut events);
    assert_eq!(holdings(&players[0]), [None, None, Some(4), None]);
    assert_eq!(holdings(&players[1]), [None, None, Some(15), None]);
    assert_eq!(players[0].entity, PlayerRef(1));
    assert_eq!(players[1].entity, PlayerRef(2));
}

#[test]
fn collections_for_unknown_owners_are_discarded() {
    let mut players = vec![player(1, &[])];
    let mut events = vec![collect(9, &[(SEEDS_APPLE, 15)])];
    resource_collection_system(&mut players, &mut events);
    assert!(events.is_empty());
    assert_eq!(holdings(&players[0]), [None, None, None, None]);
}

#[test]
fn of_two_players_with_one_reference_the_first_is_credited() {
    let mut players = vec![player(3, &[]), player(4, &[]), player(3, &[(FOOD_WHEAT, 1)])];
    assert!(first_of_entity(&players, 0));
    assert!(first_of_entity(&players, 1));
    assert!(!first_of_entity(&players, 2));
    let mut events = vec![collect(3, &[(FOOD_WHEAT, 2)])];
    resource_collection_system(&mut players, &mut events);
    assert_eq!(holdings(&players[0]), [None, Some(2), None, None]);
    assert_eq!(holdings(&players[1]), [None, None, None, None]);
    assert_eq!(holdings(&players[2]), [None, Some(1), None, None]);
}

#[test]
fn flushing_without_players_or_collections_does_nothing() {
    let mut players: Vec<Player> = Vec::new();
    let mut events: Vec<CollectResource> = Vec::new();
    resource_collection_system(&mut players, &mut events);
    assert!(players.is_empty());
    let mut events = vec![collect(1, &[(FOOD_WHEAT, 2)])];
    resource_collection_system(&mut players, &mut events);
    assert!(events.is_empty());
}

#[test]
fn credit_adds_only_the_collections_of_the_owner() {
    let mut inventory = PlayerInventory::new();
    let events = vec![
        collect(1, &[(SEEDS_WHEAT, 100), (FOOD_WHEAT, 2)]),
        collect(2, &[(SEEDS_WHEAT, 1000)]),
        collect(1, &[(SEEDS_WHEAT, 100), (SEEDS_APPLE, 0)]),
    ];
    credit(&mut inventory, PlayerRef(1), &events);
    assert_eq!(inventory.resources.get(SEEDS_WHEAT), Some(200));
    assert_eq!(inventory.resources.get(FOOD_WHEAT), Some(2));
    assert_eq!(inventory.resources.get(SEEDS_APPLE), Some(0));
    assert_eq!(inventory.resources.get(FOOD_APPLE), None);
    assert_eq!(events.len(), 3);
}

#[test]
fn the_checks_tell_when_a_total_is_out_of_range() {
    let rich = player(1, &[(SEEDS_WHEAT, u32::MAX - 150)]);
    let events = vec![
        collect(1, &[(SEEDS_WHEAT, 100)]),
        collect(2, &[(SEEDS_WHEAT, u32::MAX)]),
        collect(1, &[(SEEDS_WHEAT, 50)]),
    ];
    assert!(fits_in(&rich.inventory, PlayerRef(1), &events, SEEDS_WHEAT));
    assert!(can_credit(&rich.inventory, PlayerRef(1), &events));
    assert!(!fits_in(&rich.inventory, PlayerRef(2), &events, SEEDS_WHEAT));
    assert!(fits_in(&rich.inventory, PlayerRef(2), &events, FOOD_WHEAT));
    assert!(!can_credit(&rich.inventory, PlayerRef(2), &events));
    let more = vec![collect(1, &[(SEEDS_WHEAT, 100)]), collect(1, &[(SEEDS_WHEAT, 51)])];
    assert!(!can_credit(&rich.inventory, PlayerRef(1), &more));
    let players = vec![rich, player(1, &[])];
    assert!(!can_collect(&players, &more));
    assert!(can_collect(&players, &events));
    let shadowed = vec![player(1, &[]), player(1, &[(SEEDS_WHEAT, u32::MAX)])];
    assert!(can_collect(&shadowed, &more));
}

#[test]
fn settling_twice_changes_nothing_the_second_time() {
    let mut players = vec![player(1, &[(SEEDS_WHEAT, 5)]), player(2, &[])];
    let mut events = vec![collect(1, &[(SEEDS_WHEAT, 100)]), collect(2, &[(FOOD_APPLE, 10)])];
    assert!(settle_collections(&mut players, &mut events));
    let after_first: Vec<[Option<u32>; 4]> = players.iter().map(holdings).collect();
    assert_eq!(after_first, vec![[None, None, None, Some(105)], [Some(10), None, None, None]]);
    assert!(events.is_empty());
    assert!(settle_collections(&mut players, &mut events));
    let after_second: Vec<[Option<u32>; 4]> = players.iter().map(holdings).collect();
    assert_eq!(after_second, after_first);
    assert!(events.is_empty());
}

#[test]
fn settling_what_does_not_fit_changes_nothing_either_time() {
    let mut players = vec![player(1, &[(SEEDS_WHEAT, u32::MAX)]), player(2, &[])];
    let mut events = vec![collect(2, &[(FOOD_APPLE, 10)]), collect(1, &[(SEEDS_WHEAT, 1)])];
    for _ in 0..2 {
        assert!(!settle_collections(&mut players, &mut events));
        assert_eq!(holdings(&players[0]), [None, None, None, Some(u32::MAX)]);
        assert_eq!(holdings(&players[1]), [None, None, None, None]);
        assert_eq!(events.len(), 2);
        assert_eq!(events[0].owner, PlayerRef(2));
        assert_eq!(events[0].resource.get(FOOD_APPLE), Some(10));
        assert_eq!(events[1].owner, PlayerRef(1));
        assert_eq!(events[1].resource.get(SEEDS_WHEAT), Some(1));
    }
}
