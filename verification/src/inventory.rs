//! The items of the game, the list of those the player holds, and what
//! happens when the player reaches for one.

use crate::effects::{Effect, Node, Sound};
use crate::level::Level;
use crate::movement::ActionsFrozen;
use vstd::prelude::*;
use vstd::string::StringExecFns;

verus! {

/// Everything that can be picked up, made or dropped.
#[derive(Debug, Clone, Copy, PartialEq, Eq, Structural)]
pub enum Item {
    Papyrus,
    Knife,
    PapyrusStrips,
    WovenPapyrus,
    Paper,
    WrittenPaper,
    Banana,
    BurntBanana,
}

impl Item {
    /// The item's name as a sequence of characters.
    pub open spec fn spec_name(self) -> Seq<char> {
        match self {
            Item::Papyrus => "Papyrus"@,
            Item::Knife => "Knife"@,
            Item::PapyrusStrips => "PapyrusStrips"@,
            Item::WovenPapyrus => "WovenPapyrus"@,
            Item::Paper => "Paper"@,
            Item::WrittenPaper => "WrittenPaper"@,
            Item::Banana => "Banana"@,
            Item::BurntBanana => "BurntBanana"@,
        }
    }

    /// The item that carries the given name, if there is one.
    pub open spec fn spec_parse(name: Seq<char>) -> Option<Item> {
        if name == "Papyrus"@ {
            Some(Item::Papyrus)
        } else if name == "Knife"@ {
            Some(Item::Knife)
        } else if name == "PapyrusStrips"@ {
            Some(Item::PapyrusStrips)
        } else if name == "WovenPapyrus"@ {
            Some(Item::WovenPapyrus)
        } else if name == "Paper"@ {
            Some(Item::Paper)
        } else if name == "WrittenPaper"@ {
            Some(Item::WrittenPaper)
        } else if name == "Banana"@ {
            Some(Item::Banana)
        } else if name == "BurntBanana"@ {
            Some(Item::BurntBanana)
        } else {
            None
        }
    }

    /// The name by which dialogue scripts and labels refer to the item.
    pub fn name(&self) -> (name: &'static str)
        ensures
            name@ == self.spec_name(),
    {
        match self {
            Item::Papyrus => "Papyrus",
            Item::Knife => "Knife",
            Item::PapyrusStrips => "PapyrusStrips",
            Item::WovenPapyrus => "WovenPapyrus",
            Item::Paper => "Paper",
            Item::WrittenPaper => "WrittenPaper",
            Item::Banana => "Banana",
            Item::BurntBanana => "BurntBanana",
        }
    }

    /// The height in pixels of the item's picture in the inventory bar.
    pub open spec fn spec_icon_height(self) -> int {
        match self {
            Item::Knife => 15,
            Item::Papyrus => 60,
            Item::PapyrusStrips | Item::WovenPapyrus | Item::Paper | Item::WrittenPaper => 50,
            Item::Banana | Item::BurntBanana => 44,
        }
    }

    /// The height in pixels of the item's picture in the inventory bar.
    pub fn icon_height(&self) -> (height: u32)
        ensures
            height == self.spec_icon_height(),
    {
        match self {
            Item::Knife => 15,
            Item::Papyrus => 60,
            Item::PapyrusStrips => 50,
            Item::WovenPapyrus => 50,
            Item::Paper => 50,
            Item::WrittenPaper => 50,
            Item::Banana => 44,
            Item::BurntBanana => 44,
        }
    }

    /// Whether there is a sprite to show the item lying in the world. Papyrus
    /// strips and the written paper exist in the player's hands only.
    pub open spec fn spec_has_sprite(self) -> bool {
        self != Item::PapyrusStrips && self != Item::WrittenPaper
    }

    /// Whether there is a sprite to show the item lying in the world.
    pub fn has_sprite(&self) -> (drawable: bool)
        ensures
            drawable == self.spec_has_sprite(),
    {
        match self {
            Item::PapyrusStrips => false,
            Item::WrittenPaper => false,
            _ => true,
        }
    }

    /// Reads an item's name; `None` for any other text.
    pub fn parse(name: &str) -> (item: Option<Item>)
        ensures
            item == Item::spec_parse(name@),
    {
        let name = String::from_str(name);
        if name == String::from_str("Papyrus") {
            Some(Item::Papyrus)
        } else if name == String::from_str("Knife") {
            Some(Item::Knife)
        } else if name == String::from_str("PapyrusStrips") {
            Some(Item::PapyrusStrips)
        } else if name == String::from_str("WovenPapyrus") {
            Some(Item::WovenPapyrus)
        } else if name == String::from_str("Paper") {
            Some(Item::Paper)
        } else if name == String::from_str("WrittenPaper") {
            Some(Item::WrittenPaper)
        } else if name == String::from_str("Banana") {
            Some(Item::Banana)
        } else if name == String::from_str("BurntBanana") {
            Some(Item::BurntBanana)
        } else {
            None
        }
    }
}

/// Reading an item's own name gives the item back, so no two items share a
/// name.
pub proof fn lemma_parse_inverts_name(item: Item)
    ensures
        Item::spec_parse(item.spec_name()) == Some(item),
{
    reveal_strlit("Papyrus");
    reveal_strlit("Knife");
    reveal_strlit("PapyrusStrips");
    reveal_strlit("WovenPapyrus");
    reveal_strlit("Paper");
    reveal_strlit("WrittenPaper");
    reveal_strlit("Banana");
    reveal_strlit("BurntBanana");
    assert("Papyrus"@.len() == 7);
    assert("Knife"@.len() == 5);
    assert("PapyrusStrips"@.len() == 13);
    assert("WovenPapyrus"@.len() == 12);
    assert("Paper"@.len() == 5);
    assert("WrittenPaper"@.len() == 12);
    assert("Banana"@.len() == 6);
    assert("BurntBanana"@.len() == 11);
    assert("Knife"@[0] != "Paper"@[0]);
    assert("WovenPapyrus"@[1] != "WrittenPaper"@[1]);
}

/// A text that reads as an item is that item's name.
pub proof fn lemma_parsed_name(name: Seq<char>)
    requires
        Item::spec_parse(name) is Some,
    ensures
        Item::spec_parse(name)->0.spec_name() == name,
{
}

/// The place of the first occurrence of an item in a list.
pub fn position_of(items: &Vec<Item>, item: Item) -> (position: Option<usize>)
    ensures
        position.is_some() == items@.contains(item),
        match position {
            Some(i) => {
                &&& i < items@.len()
                &&& items@[i as int] == item
                &&& forall|j: int| 0 <= j < i ==> items@[j] != item
                &&& items@.index_of_first(item) == Some(i as int)
            },
            None => items@.index_of_first(item).is_none(),
        },
{
    let mut i: usize = 0;
    while i < items.len()
        invariant
            i <= items.len(),
            forall|j: int| 0 <= j < i ==> items@[j] != item,
        decreases items.len() - i,
    {
        if items[i] == item {
            proof {
                items@.index_of_first_ensures(item);
            }
            return Some(i);
        }
        i += 1;
    }
    proof {
        items@.index_of_first_ensures(item);
    }
    None
}

/// Takes the first occurrence of an item out of a list, if there is one, and
/// says whether there was.
pub fn remove_first(items: &mut Vec<Item>, item: Item) -> (found: bool)
    ensures
        found == old(items)@.contains(item),
        final(items)@ == old(items)@.remove_value(item),
        !found ==> final(items)@ == old(items)@,
{
    match position_of(items, item) {
        Some(index) => {
            items.remove(index);
            true
        },
        None => false,
    }
}

/// The items the player holds, in the order in which they came.
pub struct Inventory {
    pub items: Vec<Item>,
}

impl Default for Inventory {
    /// The player starts with empty hands.
    fn default() -> (inventory: Inventory)
        ensures
            inventory.items@ == Seq::<Item>::empty(),
    {
        Inventory { items: Vec::new() }
    }
}

impl Inventory {
    /// Whether the player holds the item.
    pub fn holds(&self, item: Item) -> (held: bool)
        ensures
            held == self.items@.contains(item),
    {
        position_of(&self.items, item).is_some()
    }
}

/// What the game is told when one item is picked up: the pick-up sound, that
/// the item is now held, and, for the sheet of paper, the dialogue about it.
pub open spec fn pick_up_effects_of(item: Item) -> Seq<Effect> {
    if item == Item::Paper {
        seq![Effect::Play(Sound::Pickup), Effect::Remember(item, true), Effect::Say(Node::CollectedPaper)]
    } else {
        seq![Effect::Play(Sound::Pickup), Effect::Remember(item, true)]
    }
}

/// What the game is told when the items of a list are picked up one after
/// the other.
pub open spec fn pick_up_effects(touched: Seq<Item>) -> Seq<Effect>
    decreases touched.len(),
{
    if touched.len() == 0 {
        Seq::empty()
    } else {
        pick_up_effects(touched.drop_last()) + pick_up_effects_of(touched.last())
    }
}

/// A list after the first occurrence of each item of `taken` has left it, one
/// after the other.
pub open spec fn without_each(items: Seq<Item>, taken: Seq<Item>) -> Seq<Item>
    decreases taken.len(),
{
    if taken.len() == 0 {
        items
    } else {
        without_each(items, taken.drop_last()).remove_value(taken.last())
    }
}

/// How often an item occurs in a list.
pub open spec fn occurrences(items: Seq<Item>, item: Item) -> nat
    decreases items.len(),
{
    if items.len() == 0 {
        0
    } else {
        occurrences(items.drop_last(), item) + if items.last() == item {
            1nat
        } else {
            0nat
        }
    }
}

/// Whether a press of the interact key picks anything up: input must not be
/// frozen and the key must have gone down in this frame.
pub open spec fn picks_up(frozen: ActionsFrozen, interact: bool) -> bool {
    frozen.count() == 0 && interact
}

/// The player reaches for the items they touch. `touched` holds the items
/// whose boxes overlap the player's, in the order in which the world lists
/// them, and `interact` says whether the interact key went down in this
/// frame.
///
/// While input is frozen, or without the key, nothing happens. Else every
/// touched item joins the inventory, its first occurrence leaves the level,
/// and the game is told of each in turn. Picking up the sheet of paper
/// starts a dialogue, which freezes input; items after it are still picked
/// up.
pub fn pick_up(
    inventory: &mut Inventory,
    level: &mut Level,
    actions_frozen: &mut ActionsFrozen,
    touched: &Vec<Item>,
    interact: bool,
) -> (effects: Vec<Effect>)
    ensures
        picks_up(*old(actions_frozen), interact) ==> {
            &&& final(inventory).items@ == old(inventory).items@ + touched@
            &&& final(level).items@ == without_each(old(level).items@, touched@)
            &&& final(actions_frozen).count() == occurrences(touched@, Item::Paper)
            &&& effects@ == pick_up_effects(touched@)
        },
        !picks_up(*old(actions_frozen), interact) ==> {
            &&& final(inventory).items@ == old(inventory).items@
            &&& final(level).items@ == old(level).items@
            &&& final(actions_frozen).count() == old(actions_frozen).count()
            &&& effects@ == Seq::<Effect>::empty()
        },
{
    let mut effects: Vec<Effect> = Vec::new();
    if actions_frozen.is_frozen() || !interact {
        return effects;
    }
    let mut i: usize = 0;
    while i < touched.len()
        invariant
            i <= touched.len(),
            inventory.items@ == old(inventory).items@ + touched@.take(i as int),
            level.items@ == without_each(old(level).items@, touched@.take(i as int)),
            actions_frozen.count() == occurrences(touched@.take(i as int), Item::Paper),
            actions_frozen.count() <= i,
            effects@ == pick_up_effects(touched@.take(i as int)),
        decreases touched.len() - i,
    {
        let item = touched[i];
        proof {
            let before = touched@.take(i as int);
            let after = touched@.take(i + 1);
            assert(after.drop_last() == before);
            assert(after.last() == item);
            assert(old(inventory).items@ + after == (old(inventory).items@ + before).push(item));
        }
        inventory.items.push(item);
        remove_first(&mut level.items, item);
        effects.push(Effect::Play(Sound::Pickup));
        effects.push(Effect::Remember(item, true));
        if item == Item::Paper {
            effects.push(Effect::Say(Node::CollectedPaper));
            actions_frozen.freeze();
        }
        i += 1;
    }
    assert(touched@.take(touched.len() as int) == touched@);
    effects
}

/// The player presses an item of the inventory bar. While input is frozen
/// nothing happens. The sheet of paper is opened for writing; any other item
/// starts the dialogue about it, which freezes input.
pub fn interact_item(actions_frozen: &mut ActionsFrozen, item: Item) -> (effect: Option<Effect>)
    ensures
        old(actions_frozen).count() > 0 ==> effect is None && final(actions_frozen).count() == old(
            actions_frozen,
        ).count(),
        old(actions_frozen).count() == 0 && item == Item::Paper ==> effect == Some(
            Effect::OpenPaper,
        ) && final(actions_frozen).count() == 0,
        old(actions_frozen).count() == 0 && item != Item::Paper ==> effect == Some(
            Effect::Say(Node::About(item)),
        ) && final(actions_frozen).count() == 1,
{
    if actions_frozen.is_frozen() {
        return None;
    }
    if item == Item::Paper {
        Some(Effect::OpenPaper)
    } else {
        actions_frozen.freeze();
        Some(Effect::Say(Node::About(item)))
    }
}

} // verus!
