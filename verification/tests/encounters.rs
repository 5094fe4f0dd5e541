use fishstick_jam_2::dino::{dino_stomp, start_event, STOMP};
use fishstick_jam_2::effects::{Node, Sound};
use fishstick_jam_2::inventory::{Inventory, Item};
use fishstick_jam_2::movement::ActionsFrozen;
use fishstick_jam_2::wife::{start_wife_dialogue, talk, wife_animations};
use std::time::Duration;

#[test]
fn the_wife_stands_in_two_frames() {
    let animations = wife_animations();
    assert_eq!(animations.len(), 1);
    assert_eq!(animations[0].frames, 2);
    assert_eq!(animations[0].interval, Duration::from_millis(200));
    assert_eq!(animations[0].atlas_index, 0);
}

#[test]
fn talking_needs_touch_and_key() {
    let free = ActionsFrozen::default();
    assert_eq!(talk(&free, 1, true), 1);
    assert_eq!(talk(&free, 3, true), 3);
    assert_eq!(talk(&free, 0, true), 0);
    assert_eq!(talk(&free, 1, false), 0);
}

#[test]
fn nobody_talks_while_frozen() {
    let mut frozen = ActionsFrozen::default();
    frozen.freeze();
    assert_eq!(talk(&frozen, 1, true), 0);
}

#[test]
fn the_wife_has_her_dialogue() {
    let mut frozen = ActionsFrozen::default();
    assert_eq!(start_wife_dialogue(&mut frozen), Node::Wife);
    assert!(frozen.is_frozen());
    frozen.unfreeze();
    assert!(!frozen.is_frozen());
}

#[test]
fn the_dinosaur_comes_for_the_woven_papyrus() {
    let inventory = Inventory { items: vec![Item::Knife, Item::WovenPapyrus] };
    let mut frozen = ActionsFrozen::default();
    assert_eq!(start_event(&inventory, &mut frozen, false), Some(Node::Dino));
    assert!(frozen.is_frozen());
    frozen.unfreeze();
    assert!(!frozen.is_frozen());
}

#[test]
fn the_dinosaur_comes_even_while_frozen() {
    let inventory = Inventory { items: vec![Item::WovenPapyrus] };
    let mut frozen = ActionsFrozen::default();
    frozen.freeze();
    assert_eq!(start_event(&inventory, &mut frozen, false), Some(Node::Dino));
    frozen.unfreeze();
    assert!(frozen.is_frozen());
    frozen.unfreeze();
    assert!(!frozen.is_frozen());
}

#[test]
fn the_dinosaur_waits_at_the_left_edge() {
    let inventory = Inventory { items: vec![Item::WovenPapyrus] };
    let mut frozen = ActionsFrozen::default();
    assert_eq!(start_event(&inventory, &mut frozen, true), None);
    assert!(!frozen.is_frozen());
}

#[test]
fn no_woven_papyrus_no_dinosaur() {
    let inventory = Inventory { items: vec![Item::Papyrus, Item::PapyrusStrips] };
    let mut frozen = ActionsFrozen::default();
    assert_eq!(start_event(&inventory, &mut frozen, false), None);
    assert_eq!(start_event(&Inventory::default(), &mut frozen, false), None);
    assert!(!frozen.is_frozen());
}

#[test]
fn the_foot_comes_down_at_sixty_nine() {
    assert_eq!(STOMP, 69);
    assert_eq!(dino_stomp(69), Some(Sound::DinoStomp));
    assert_eq!(dino_stomp(0), None);
    assert_eq!(dino_stomp(68), None);
    assert_eq!(dino_stomp(70), None);
}
