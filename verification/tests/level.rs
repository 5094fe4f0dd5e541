use fishstick_jam_2::inventory::Item;
use fishstick_jam_2::level::{placements, sync_items, ItemChange, Level, Placement, ITEM_SCALE};
use fishstick_jam_2::screens::Area;

fn at(item: Item, x: i32, y: i32, z: i32, turn: i32) -> Placement {
    Placement { item, x, y, z, turn }
}

#[test]
fn three_items_lie_in_the_world_at_first() {
    assert_eq!(Level::default().items, vec![Item::Papyrus, Item::Knife, Item::Banana]);
}

#[test]
fn the_level_knows_what_it_has() {
    let level = Level::default();
    assert!(level.has(Item::Knife));
    assert!(!level.has(Item::Paper));
}

#[test]
fn items_are_drawn_eightfold() {
    assert_eq!(ITEM_SCALE, 8);
}

#[test]
fn the_cave_places_two_items() {
    assert_eq!(
        placements(Area::Cave),
        vec![at(Item::Knife, 295, -130, -25, 180), at(Item::BurntBanana, 0, -130, 55, 0)]
    );
}

#[test]
fn the_outside_places_four_items() {
    assert_eq!(
        placements(Area::Outside),
        vec![
            at(Item::WovenPapyrus, -300, -130, -25, 0),
            at(Item::Paper, -300, -130, -25, 0),
            at(Item::Papyrus, 170, -62, -25, 0),
            at(Item::Banana, 440, -130, -25, 0)
        ]
    );
}

#[test]
fn every_placed_item_has_a_sprite() {
    for area in [Area::Cave, Area::Outside] {
        for place in placements(area) {
            assert!(place.item.has_sprite());
        }
    }
}

#[test]
fn entering_the_cave_spawns_the_knife() {
    let changes = sync_items(&Level::default(), Area::Cave, &Vec::new());
    assert_eq!(changes, vec![ItemChange::Spawn(at(Item::Knife, 295, -130, -25, 180))]);
}

#[test]
fn entering_the_outside_spawns_papyrus_and_banana() {
    let changes = sync_items(&Level::default(), Area::Outside, &Vec::new());
    assert_eq!(
        changes,
        vec![
            ItemChange::Spawn(at(Item::Papyrus, 170, -62, -25, 0)),
            ItemChange::Spawn(at(Item::Banana, 440, -130, -25, 0))
        ]
    );
}

#[test]
fn what_is_spawned_is_not_spawned_again() {
    let spawned = vec![Item::Banana, Item::Papyrus];
    assert!(sync_items(&Level::default(), Area::Outside, &spawned).is_empty());
}

#[test]
fn an_item_that_left_the_level_is_despawned() {
    let level = Level { items: vec![Item::Papyrus] };
    let spawned = vec![Item::Papyrus, Item::Banana];
    assert_eq!(sync_items(&level, Area::Outside, &spawned), vec![ItemChange::Despawn(1)]);
}

#[test]
fn the_first_entity_of_an_item_is_despawned() {
    let level = Level { items: Vec::new() };
    let spawned = vec![Item::Knife, Item::BurntBanana, Item::Knife, Item::BurntBanana];
    assert_eq!(
        sync_items(&level, Area::Cave, &spawned),
        vec![ItemChange::Despawn(0), ItemChange::Despawn(1)]
    );
}

#[test]
fn items_of_the_other_area_are_left_alone() {
    let level = Level { items: vec![Item::Knife] };
    let spawned = vec![Item::Knife, Item::Banana];
    assert!(sync_items(&level, Area::Cave, &spawned).is_empty());
    assert_eq!(sync_items(&level, Area::Outside, &spawned), vec![ItemChange::Despawn(1)]);
}

#[test]
fn spawns_and_despawns_come_in_the_order_of_the_places() {
    let level = Level { items: vec![Item::Banana, Item::WovenPapyrus] };
    let spawned = vec![Item::Papyrus, Item::Paper];
    assert_eq!(
        sync_items(&level, Area::Outside, &spawned),
        vec![
            ItemChange::Spawn(at(Item::WovenPapyrus, -300, -130, -25, 0)),
            ItemChange::Despawn(1),
            ItemChange::Despawn(0),
            ItemChange::Spawn(at(Item::Banana, 440, -130, -25, 0))
        ]
    );
}

#[test]
fn an_item_without_a_place_is_never_spawned() {
    let level = Level { items: vec![Item::PapyrusStrips, Item::WrittenPaper] };
    assert!(sync_items(&level, Area::Cave, &Vec::new()).is_empty());
    assert!(sync_items(&level, Area::Outside, &Vec::new()).is_empty());
}
