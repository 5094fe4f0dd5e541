//! The camp fire in the cave, and what happens to a banana there.

use crate::animation::{playable_animations, AnimationData, AnimationState};
use crate::effects::{Effect, Node, Sound};
use crate::inventory::{remove_first, Inventory, Item};
use crate::level::Level;
use crate::movement::ActionsFrozen;
use crate::world::{
    all_items, each_item_once, lemma_all_items, lemma_counts, lemma_once_by_count,
    lemma_remove_value,
};
use std::time::Duration;
use vstd::prelude::*;

verus! {

/// The animation of the fire's sprite sheet: three frames of burning.
pub fn fire_animations() -> (animations: Vec<AnimationData>)
    ensures
        playable_animations(animations@),
        animations@.len() == 1,
        animations@[0].shows(3, 200, AnimationState::Idling, 0),
{
    let idle = AnimationData {
        frames: 3,
        interval: Duration::from_millis(200),
        state: AnimationState::Idling,
        atlas_index: 0,
    };
    let mut animations: Vec<AnimationData> = Vec::new();
    animations.push(idle);
    animations
}

/// What a visit to the fire works on: the inventory, the level, the freeze
/// count, and what the game has been told so far.
pub struct Hearth {
    pub inventory: Seq<Item>,
    pub level: Seq<Item>,
    pub frozen: nat,
    pub effects: Seq<Effect>,
}

/// The player interacts at `fires` fires in turn.
///
/// With a banana in hand, the first one leaves the inventory and a burnt
/// banana lies in the world; the dialogue scripts are told that the banana
/// is gone, the drop is heard, and the dialogue about the dropped banana
/// starts, which freezes input. Then the next fire has its turn.
///
/// Without a banana the visit ends. If no burnt banana lies in the world
/// yet, the dialogue about the fire starts first, which freezes input.
pub open spec fn roasted(hearth: Hearth, fires: nat) -> Hearth
    decreases fires,
{
    if fires == 0 {
        hearth
    } else if hearth.inventory.contains(Item::Banana) {
        roasted(
            Hearth {
                inventory: hearth.inventory.remove_value(Item::Banana),
                level: hearth.level.push(Item::BurntBanana),
                frozen: hearth.frozen + 1,
                effects: hearth.effects + seq![
                    Effect::Remember(Item::Banana, false),
                    Effect::Play(Sound::Drop),
                    Effect::Say(Node::DroppedBanana),
                ],
            },
            (fires - 1) as nat,
        )
    } else if hearth.level.contains(Item::BurntBanana) {
        hearth
    } else {
        Hearth {
            frozen: hearth.frozen + 1,
            effects: hearth.effects.push(Effect::Say(Node::Fire)),
            ..hearth
        }
    }
}

/// The player presses the interact key at the fire. `interact` says whether
/// the key went down in this frame, and `fires` counts the fires whose boxes
/// overlap the player's.
///
/// Without the key, or while input is frozen, nothing happens. Else the
/// fires are visited as [`roasted`] says.
pub fn place_banana(
    inventory: &mut Inventory,
    level: &mut Level,
    actions_frozen: &mut ActionsFrozen,
    interact: bool,
    fires: usize,
) -> (effects: Vec<Effect>)
    ensures
        ({
            let before = Hearth {
                inventory: old(inventory).items@,
                level: old(level).items@,
                frozen: old(actions_frozen).count(),
                effects: Seq::empty(),
            };
            let after = Hearth {
                inventory: final(inventory).items@,
                level: final(level).items@,
                frozen: final(actions_frozen).count(),
                effects: effects@,
            };
            after == if interact && old(actions_frozen).count() == 0 {
                roasted(before, fires as nat)
            } else {
                before
            }
        }),
{
    let mut effects: Vec<Effect> = Vec::new();
    if !interact {
        return effects;
    }
    if actions_frozen.is_frozen() {
        return effects;
    }
    let ghost before = Hearth {
        inventory: inventory.items@,
        level: level.items@,
        frozen: 0,
        effects: Seq::empty(),
    };
    let mut visited: usize = 0;
    while visited < fires
        invariant
            visited <= fires,
            interact,
            old(actions_frozen).count() == 0,
            before == (Hearth {
                inventory: old(inventory).items@,
                level: old(level).items@,
                frozen: 0,
                effects: Seq::empty(),
            }),
            actions_frozen.count() == visited,
            roasted(before, fires as nat) == roasted(
                Hearth {
                    inventory: inventory.items@,
                    level: level.items@,
                    frozen: actions_frozen.count(),
                    effects: effects@,
                },
                (fires - visited) as nat,
            ),
        decreases fires - visited,
    {
        if !remove_first(&mut inventory.items, Item::Banana) {
            if !level.has(Item::BurntBanana) {
                effects.push(Effect::Say(Node::Fire));
                actions_frozen.freeze();
            }
            return effects;
        }
        level.items.push(Item::BurntBanana);
        proof {
            let told = seq![
                Effect::Remember(Item::Banana, false),
                Effect::Play(Sound::Drop),
                Effect::Say(Node::DroppedBanana),
            ];
            assert(effects@.push(told[0]).push(told[1]).push(told[2]) =~= effects@ + told);
        }
        effects.push(Effect::Remember(Item::Banana, false));
        effects.push(Effect::Play(Sound::Drop));
        effects.push(Effect::Say(Node::DroppedBanana));
        actions_frozen.freeze();
        visited += 1;
    }
    effects
}

/// Where every item is there once and no banana has been burnt yet, a visit
/// to the fire burns one banana at most, however many fires there are, and
/// leaves every item there once; input is frozen once at most.
pub proof fn lemma_roast_keeps_once(hearth: Hearth, fires: nat)
    requires
        each_item_once(hearth.inventory, hearth.level),
        !hearth.inventory.contains(Item::BurntBanana),
        !hearth.level.contains(Item::BurntBanana),
    ensures
        roasted(hearth, fires) == roasted(hearth, if fires == 0 { 0 } else { 1 }),
        each_item_once(roasted(hearth, fires).inventory, roasted(hearth, fires).level),
        roasted(hearth, fires).frozen <= hearth.frozen + 1,
{
    broadcast use vstd::seq_lib::group_to_multiset_ensures;

    if fires > 0 && hearth.inventory.contains(Item::Banana) {
        let burnt = Hearth {
            inventory: hearth.inventory.remove_value(Item::Banana),
            level: hearth.level.push(Item::BurntBanana),
            frozen: hearth.frozen + 1,
            effects: hearth.effects + seq![
                Effect::Remember(Item::Banana, false),
                Effect::Play(Sound::Drop),
                Effect::Say(Node::DroppedBanana),
            ],
        };
        lemma_remove_value(hearth.inventory, Item::Banana);
        lemma_all_items(hearth.inventory, hearth.level);
        lemma_all_items(burnt.inventory, burnt.level);
        lemma_once_by_count(hearth.inventory, hearth.level);
        lemma_once_by_count(burnt.inventory, burnt.level);
        lemma_counts(hearth.inventory, Item::BurntBanana);
        lemma_counts(hearth.level, Item::BurntBanana);
        lemma_counts(burnt.inventory, Item::Banana);
        assert(all_items(hearth.inventory, hearth.level).count(Item::Banana) <= 1);
        assert(!burnt.inventory.contains(Item::Banana));
        assert(burnt.level.last() == Item::BurntBanana);
        assert(burnt.level.contains(Item::BurntBanana));
        assert forall|item: Item| all_items(burnt.inventory, burnt.level).count(item) <= 1 by {
            assert(all_items(hearth.inventory, hearth.level).count(item) <= 1);
        }
        assert(roasted(burnt, 0) == burnt);
        assert(roasted(burnt, (fires - 1) as nat) == burnt);
        assert(roasted(hearth, 1) == roasted(burnt, 0));
    }
}

} // verus!
