//! The dinosaur that interrupts the player outside the cave.

use crate::effects::{Node, Sound};
use crate::inventory::{Inventory, Item};
use crate::movement::ActionsFrozen;
use vstd::prelude::*;

verus! {

/// The mark that the leg's movement carries at the moment the foot comes
/// down.
pub const STOMP: u64 = 69;

/// Whether the dinosaur shows up: the player must hold the woven papyrus and
/// must have left the strip at the left edge of the area.
pub open spec fn dino_comes(inventory: Seq<Item>, at_left_edge: bool) -> bool {
    inventory.contains(Item::WovenPapyrus) && !at_left_edge
}

/// The dinosaur's cue. `at_left_edge` says whether a player stands in the
/// strip at the left edge of the area. Where the dinosaur shows up, its
/// dialogue starts, which freezes input.
pub fn start_event(
    inventory: &Inventory,
    actions_frozen: &mut ActionsFrozen,
    at_left_edge: bool,
) -> (node: Option<Node>)
    requires
        dino_comes(inventory.items@, at_left_edge) ==> old(actions_frozen).count() < usize::MAX,
    ensures
        node == if dino_comes(inventory.items@, at_left_edge) {
            Some(Node::Dino)
        } else {
            None
        },
        final(actions_frozen).count() == old(actions_frozen).count() + if node is Some {
            1nat
        } else {
            0nat
        },
{
    if !inventory.holds(Item::WovenPapyrus) {
        return None;
    }
    if at_left_edge {
        return None;
    }
    actions_frozen.freeze();
    Some(Node::Dino)
}

/// The sound of a movement that has come to its end: the stomp, where the
/// movement carries the mark of the foot coming down.
pub fn dino_stomp(mark: u64) -> (sound: Option<Sound>)
    ensures
        sound == if mark == STOMP {
            Some(Sound::DinoStomp)
        } else {
            None
        },
{
    if mark == STOMP {
        Some(Sound::DinoStomp)
    } else {
        None
    }
}

} // verus!
