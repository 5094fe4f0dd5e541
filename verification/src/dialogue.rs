//! The commands that dialogue scripts call to change the game: converting,
//! dropping, running. A script names items, sounds and directions as text.

use crate::effects::{Effect, Node, Sound};
use crate::inventory::{position_of, remove_first, Inventory, Item};
use crate::level::Level;
use crate::movement::ActionsFrozen;
use vstd::prelude::*;
use vstd::string::StringExecFns;

verus! {

/// Play begins with the introduction, which freezes input until it is over.
pub fn spawn_dialogue_runner(actions_frozen: &mut ActionsFrozen) -> (node: Node)
    requires
        old(actions_frozen).count() < usize::MAX,
    ensures
        node == Node::Intro,
        final(actions_frozen).count() == old(actions_frozen).count() + 1,
{
    actions_frozen.freeze();
    Node::Intro
}

/// A list after the first occurrence of `from` has left it and `to` has
/// joined it at the end.
pub open spec fn converted(items: Seq<Item>, from: Item, to: Item) -> Seq<Item> {
    items.remove_value(from).push(to)
}

/// Whether a script may ask to turn `from` into `to` in a list: both must
/// name items, and the first must be in the list.
pub open spec fn can_convert(items: Seq<Item>, from: Seq<char>, to: Seq<char>) -> bool {
    &&& Item::spec_parse(from) is Some
    &&& Item::spec_parse(to) is Some
    &&& items.contains(Item::spec_parse(from)->0)
}

/// Whether a script may ask to drop the item it names: it must name an item
/// that the player holds.
pub open spec fn can_drop(items: Seq<Item>, item: Seq<char>) -> bool {
    Item::spec_parse(item) is Some && items.contains(Item::spec_parse(item)->0)
}

/// Whether a script may ask to turn `from` into `to` in a list.
pub fn check_convert(items: &Vec<Item>, from: &str, to: &str) -> (allowed: bool)
    ensures
        allowed == can_convert(items@, from@, to@),
{
    match (Item::parse(from), Item::parse(to)) {
        (Some(from), Some(_)) => position_of(items, from).is_some(),
        _ => false,
    }
}

/// Whether a script may ask to drop the item it names.
pub fn check_drop(inventory: &Inventory, item: &str) -> (allowed: bool)
    ensures
        allowed == can_drop(inventory.items@, item@),
{
    match Item::parse(item) {
        Some(item) => inventory.holds(item),
        None => false,
    }
}

/// The command `inventory_convert`: the player's item `from` becomes `to`.
/// The dialogue scripts are told that the one is gone and the other held,
/// and the conversion is heard.
pub fn inventory_convert(inventory: &mut Inventory, from: &str, to: &str) -> (effects: Vec<Effect>)
    requires
        can_convert(old(inventory).items@, from@, to@),
    ensures
        final(inventory).items@ == converted(
            old(inventory).items@,
            Item::spec_parse(from@)->0,
            Item::spec_parse(to@)->0,
        ),
        effects@ == seq![
            Effect::Remember(Item::spec_parse(from@)->0, false),
            Effect::Remember(Item::spec_parse(to@)->0, true),
            Effect::Play(Sound::Convert),
        ],
{
    let from = Item::parse(from).unwrap();
    let to = Item::parse(to).unwrap();
    remove_first(&mut inventory.items, from);
    inventory.items.push(to);
    let mut effects: Vec<Effect> = Vec::new();
    effects.push(Effect::Remember(from, false));
    effects.push(Effect::Remember(to, true));
    effects.push(Effect::Play(Sound::Convert));
    effects
}

/// The command `level_convert`: the item `from` that lies in the world
/// becomes `to`.
pub fn level_convert(level: &mut Level, from: &str, to: &str)
    requires
        can_convert(old(level).items@, from@, to@),
    ensures
        final(level).items@ == converted(
            old(level).items@,
            Item::spec_parse(from@)->0,
            Item::spec_parse(to@)->0,
        ),
{
    let from = Item::parse(from).unwrap();
    let to = Item::parse(to).unwrap();
    remove_first(&mut level.items, from);
    level.items.push(to);
}

/// The command `drop`: the player puts the named item down. It leaves the
/// inventory and lies in the world; the dialogue scripts are told that it is
/// gone, and the drop is heard.
pub fn drop(inventory: &mut Inventory, level: &mut Level, item: &str) -> (effects: Vec<Effect>)
    requires
        can_drop(old(inventory).items@, item@),
    ensures
        final(inventory).items@ == old(inventory).items@.remove_value(Item::spec_parse(item@)->0),
        final(level).items@ == old(level).items@.push(Item::spec_parse(item@)->0),
        effects@ == seq![
            Effect::Remember(Item::spec_parse(item@)->0, false),
            Effect::Play(Sound::Drop),
        ],
{
    let item = Item::parse(item).unwrap();
    remove_first(&mut inventory.items, item);
    level.items.push(item);
    let mut effects: Vec<Effect> = Vec::new();
    effects.push(Effect::Remember(item, false));
    effects.push(Effect::Play(Sound::Drop));
    effects
}

/// A way to run along the ground.
#[derive(Debug, Clone, Copy, PartialEq, Eq, Structural)]
pub enum Direction {
    Left,
    Right,
}

impl Direction {
    /// The direction that a script calls by the given name, if there is one.
    pub open spec fn spec_named(name: Seq<char>) -> Option<Direction> {
        if name == "left"@ {
            Some(Direction::Left)
        } else if name == "right"@ {
            Some(Direction::Right)
        } else {
            None
        }
    }

    /// Reads the name of a direction; `None` for any other text.
    pub fn named(name: &str) -> (direction: Option<Direction>)
        ensures
            direction == Direction::spec_named(name@),
    {
        let name = String::from_str(name);
        if name == String::from_str("left") {
            Some(Direction::Left)
        } else if name == String::from_str("right") {
            Some(Direction::Right)
        } else {
            None
        }
    }

    /// The horizontal intent of a character that runs this way: -1 to the
    /// left, 1 to the right.
    pub fn intent(&self) -> (x: i8)
        ensures
            x == match *self {
                Direction::Left => -1int,
                Direction::Right => 1int,
            },
    {
        match self {
            Direction::Left => -1,
            Direction::Right => 1,
        }
    }
}

/// The command `play_sound`: the sound that the script names is played.
pub fn play_sound(name: &str) -> (effect: Effect)
    requires
        Sound::spec_named(name@) is Some,
    ensures
        effect == Effect::Play(Sound::spec_named(name@)->0),
{
    Effect::Play(Sound::named(name).unwrap())
}

} // verus!
