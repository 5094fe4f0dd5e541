//! The player character: how it is animated and where the keys send it.

use crate::animation::{playable_animations, states_of, AnimationData, AnimationState};
use crate::movement::ActionsFrozen;
use std::time::Duration;
use vstd::prelude::*;

verus! {

/// The animations of the player's sprite sheet: two frames of standing, then
/// two of walking at twice the pace.
pub fn player_animations() -> (animations: Vec<AnimationData>)
    ensures
        playable_animations(animations@),
        animations@.len() == 2,
        animations@[0].shows(2, 200, AnimationState::Idling, 0),
        animations@[1].shows(2, 100, AnimationState::Walking, 2),
        states_of(animations@) == seq![AnimationState::Idling, AnimationState::Walking],
{
    let idle = AnimationData {
        frames: 2,
        interval: Duration::from_millis(200),
        state: AnimationState::Idling,
        atlas_index: 0,
    };
    let walk = AnimationData {
        frames: 2,
        interval: Duration::from_millis(100),
        state: AnimationState::Walking,
        atlas_index: 2,
    };
    let mut animations: Vec<AnimationData> = Vec::new();
    animations.push(idle);
    animations.push(walk);
    assert(states_of(animations@) =~= seq![AnimationState::Idling, AnimationState::Walking]);
    animations
}

/// The player's sprite can idle and walk: a request for either state finds
/// an animation.
pub proof fn lemma_player_has_every_state(animations: Seq<AnimationData>, state: AnimationState)
    requires
        states_of(animations) == seq![AnimationState::Idling, AnimationState::Walking],
    ensures
        states_of(animations).contains(state),
{
    let states = states_of(animations);
    assert(states[0] == AnimationState::Idling);
    assert(states[1] == AnimationState::Walking);
}

/// The keys that move the player.
#[derive(Debug, Clone, Copy, PartialEq, Eq, Structural)]
pub struct DirectionKeys {
    pub a: bool,
    pub arrow_left: bool,
    pub d: bool,
    pub arrow_right: bool,
}

impl DirectionKeys {
    /// The horizontal intent that the keys express: -1 to the left, 1 to the
    /// right, 0 where neither or both sides are held.
    pub open spec fn intent(self) -> int {
        (if self.d || self.arrow_right {
            1int
        } else {
            0int
        }) - (if self.a || self.arrow_left {
            1int
        } else {
            0int
        })
    }
}

/// Where the player wants to go in this frame: nowhere while input is
/// frozen, else where the keys say.
pub fn record_player_directional_input(actions_frozen: &ActionsFrozen, keys: DirectionKeys) -> (x:
    i8)
    ensures
        x == if actions_frozen.count() > 0 {
            0
        } else {
            keys.intent()
        },
{
    if actions_frozen.is_frozen() {
        return 0;
    }
    let mut x: i8 = 0;
    if keys.a || keys.arrow_left {
        x -= 1;
    }
    if keys.d || keys.arrow_right {
        x += 1;
    }
    x
}

} // verus!
