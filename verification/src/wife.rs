//! The player's wife, who waits in the cave to be talked to.

use crate::animation::{playable_animations, AnimationData, AnimationState};
use crate::effects::Node;
use crate::movement::ActionsFrozen;
use std::time::Duration;
use vstd::prelude::*;

verus! {

/// The animation of the wife's sprite sheet: two frames of standing.
pub fn wife_animations() -> (animations: Vec<AnimationData>)
    ensures
        playable_animations(animations@),
        animations@.len() == 1,
        animations@[0].shows(2, 200, AnimationState::Idling, 0),
{
    let idle = AnimationData {
        frames: 2,
        interval: Duration::from_millis(200),
        state: AnimationState::Idling,
        atlas_index: 0,
    };
    let mut animations: Vec<AnimationData> = Vec::new();
    animations.push(idle);
    animations
}

/// How many conversations the player's attempt to talk starts. `touching`
/// counts the boxes of her that overlap the player's, and `interact` says
/// whether the interact key went down in this frame. Each overlap starts
/// one, unless input is frozen or the key is missing.
pub fn talk(actions_frozen: &ActionsFrozen, touching: usize, interact: bool) -> (started: usize)
    ensures
        started == if actions_frozen.count() == 0 && interact {
            touching
        } else {
            0
        },
{
    if actions_frozen.is_frozen() {
        return 0;
    }
    if !interact {
        return 0;
    }
    touching
}

/// A conversation with the wife starts: her dialogue runs, and input is
/// frozen until it is over.
pub fn start_wife_dialogue(actions_frozen: &mut ActionsFrozen) -> (node: Node)
    requires
        old(actions_frozen).count() < usize::MAX,
    ensures
        node == Node::Wife,
        final(actions_frozen).count() == old(actions_frozen).count() + 1,
{
    actions_frozen.freeze();
    Node::Wife
}

} // verus!
