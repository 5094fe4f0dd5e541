//! The items that lie in the world, and where.

use crate::inventory::{position_of, Item};
use crate::screens::Area;
use vstd::prelude::*;

verus! {

/// The items that lie in the world, whichever area they belong to.
pub struct Level {
    pub items: Vec<Item>,
}

/// What lies in the world when play begins.
pub open spec fn initial_level() -> Seq<Item> {
    seq![Item::Papyrus, Item::Knife, Item::Banana]
}

impl Default for Level {
    fn default() -> (level: Level)
        ensures
            level.items@ == initial_level(),
    {
        let mut items: Vec<Item> = Vec::new();
        items.push(Item::Papyrus);
        items.push(Item::Knife);
        items.push(Item::Banana);
        assert(items@ =~= initial_level());
        Level { items }
    }
}

impl Level {
    /// Whether the item lies in the world.
    pub fn has(&self, item: Item) -> (present: bool)
        ensures
            present == self.items@.contains(item),
    {
        position_of(&self.items, item).is_some()
    }
}

/// Where an item lies when it is in the world: its position in world units
/// and its turn about the axis that points at the viewer, in degrees.
#[derive(Debug, Clone, Copy, PartialEq, Eq, Structural)]
pub struct Placement {
    pub item: Item,
    pub x: i32,
    pub y: i32,
    pub z: i32,
    pub turn: i32,
}

/// Items in the world are drawn at this many times their sprite's size.
pub const ITEM_SCALE: i32 = 8;

/// A placement from mathematical integers.
pub open spec fn place(item: Item, x: int, y: int, z: int, turn: int) -> Placement {
    Placement { item, x: x as i32, y: y as i32, z: z as i32, turn: turn as i32 }
}

/// The items that belong to an area, with their places.
pub open spec fn spec_placements(area: Area) -> Seq<Placement> {
    match area {
        Area::Cave => seq![
            place(Item::Knife, 295, -130, -25, 180),
            place(Item::BurntBanana, 0, -130, 55, 0),
        ],
        Area::Outside => seq![
            place(Item::WovenPapyrus, -300, -130, -25, 0),
            place(Item::Paper, -300, -130, -25, 0),
            place(Item::Papyrus, 170, -62, -25, 0),
            place(Item::Banana, 440, -130, -25, 0),
        ],
    }
}

/// The items that belong to an area, with their places.
pub fn placements(area: Area) -> (places: Vec<Placement>)
    ensures
        places@ == spec_placements(area),
{
    let mut places: Vec<Placement> = Vec::new();
    match area {
        Area::Cave => {
            places.push(Placement { item: Item::Knife, x: 295, y: -130, z: -25, turn: 180 });
            places.push(Placement { item: Item::BurntBanana, x: 0, y: -130, z: 55, turn: 0 });
        },
        Area::Outside => {
            places.push(Placement { item: Item::WovenPapyrus, x: -300, y: -130, z: -25, turn: 0 });
            places.push(Placement { item: Item::Paper, x: -300, y: -130, z: -25, turn: 0 });
            places.push(Placement { item: Item::Papyrus, x: 170, y: -62, z: -25, turn: 0 });
            places.push(Placement { item: Item::Banana, x: 440, y: -130, z: -25, turn: 0 });
        },
    }
    assert(places@ =~= spec_placements(area));
    places
}

/// A change to the entities of the world.
#[derive(Debug, Clone, Copy, PartialEq, Eq, Structural)]
pub enum ItemChange {
    /// Put an item into the world at its place.
    Spawn(Placement),
    /// Take out of the world the entity at this index of the list of spawned
    /// items.
    Despawn(usize),
}

/// What has to change for one item of the area so that the world shows what
/// the level holds. An item that the level holds and that no entity shows is
/// spawned. The first entity of an item that the level does not hold is
/// despawned.
pub open spec fn change_for(level: Seq<Item>, spawned: Seq<Item>, place: Placement) -> Option<
    ItemChange,
> {
    let wanted = level.contains(place.item);
    match spawned.index_of_first(place.item) {
        None => if wanted {
            Some(ItemChange::Spawn(place))
        } else {
            None
        },
        Some(index) => if wanted {
            None
        } else {
            Some(ItemChange::Despawn(index as usize))
        },
    }
}

/// The changes for a list of places, in their order.
pub open spec fn changes_for(level: Seq<Item>, spawned: Seq<Item>, places: Seq<Placement>) -> Seq<
    ItemChange,
>
    decreases places.len(),
{
    if places.len() == 0 {
        Seq::empty()
    } else {
        let before = changes_for(level, spawned, places.drop_last());
        match change_for(level, spawned, places.last()) {
            Some(change) => before.push(change),
            None => before,
        }
    }
}

/// Brings the entities of an area in line with the level. `spawned` holds the
/// items of the entities that show an item in the world, in the order in
/// which the world lists them.
pub fn sync_items(level: &Level, area: Area, spawned: &Vec<Item>) -> (changes: Vec<ItemChange>)
    ensures
        changes@ == changes_for(level.items@, spawned@, spec_placements(area)),
{
    let places = placements(area);
    let mut changes: Vec<ItemChange> = Vec::new();
    let mut i: usize = 0;
    while i < places.len()
        invariant
            i <= places.len(),
            changes@ == changes_for(level.items@, spawned@, places@.take(i as int)),
        decreases places.len() - i,
    {
        let place = places[i];
        proof {
            assert(places@.take(i + 1).drop_last() == places@.take(i as int));
            assert(places@.take(i + 1).last() == place);
        }
        let entity = position_of(spawned, place.item);
        let should_have = level.has(place.item);
        match entity {
            None => {
                if should_have {
                    changes.push(ItemChange::Spawn(place));
                }
            },
            Some(index) => {
                if !should_have {
                    changes.push(ItemChange::Despawn(index));
                }
            },
        }
        i += 1;
    }
    assert(places@.take(places.len() as int) == places@);
    changes
}

/// Every item that an area places has a sprite to show it with.
pub proof fn lemma_placed_items_have_sprites(area: Area, i: int)
    requires
        0 <= i < spec_placements(area).len(),
    ensures
        spec_placements(area)[i].item.spec_has_sprite(),
{
}

/// No item has a place in both areas, and none has two places in one.
pub proof fn lemma_one_place_per_item(a: Area, i: int, b: Area, j: int)
    requires
        0 <= i < spec_placements(a).len(),
        0 <= j < spec_placements(b).len(),
        spec_placements(a)[i].item == spec_placements(b)[j].item,
    ensures
        a == b,
        i == j,
{
}

} // verus!
