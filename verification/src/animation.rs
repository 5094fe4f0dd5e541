//! Sprite animation: a repeating timer that steps through the frames of the
//! animation that is currently playing.

use crate::chance::pick_one;
use crate::clock::{
    can_count, duration_nanos, remaining_time, start_timer, tick_timer, wrapped_elapsed,
    MAX_DURATION_NANOS,
};
use std::time::Duration;
use vstd::prelude::*;

verus! {

/// What a character is doing, as far as its sprite shows it.
#[derive(Debug, PartialEq, Eq, Clone, Copy, Structural)]
pub enum AnimationState {
    Idling,
    Walking,
}

impl AnimationState {
    /// The state of a character that does or does not want to move.
    pub open spec fn spec_of_movement(moving: bool) -> AnimationState {
        if moving {
            AnimationState::Walking
        } else {
            AnimationState::Idling
        }
    }

    /// The state of a character that does or does not want to move.
    #[verifier::when_used_as_spec(spec_of_movement)]
    pub fn of_movement(moving: bool) -> (state: AnimationState)
        ensures
            state == AnimationState::spec_of_movement(moving),
    {
        if moving {
            AnimationState::Walking
        } else {
            AnimationState::Idling
        }
    }
}

/// One animation of a sprite sheet: `frames` consecutive sprites, starting at
/// `atlas_index`, each shown for `interval`.
pub struct AnimationData {
    pub frames: usize,
    pub interval: Duration,
    pub state: AnimationState,
    pub atlas_index: usize,
}

impl AnimationData {
    /// Whether the animation is the one described: so many frames, each
    /// shown for so many milliseconds, and so on.
    pub open spec fn shows(
        self,
        frames: usize,
        millis: u64,
        state: AnimationState,
        atlas_index: usize,
    ) -> bool {
        &&& self.frames == frames
        &&& duration_nanos(self.interval) == millis * 1_000_000
        &&& self.state == state
        &&& self.atlas_index == atlas_index
    }

    /// An animation can be played if it has a frame to show and the index of
    /// its last sprite can be computed.
    pub open spec fn playable(self) -> bool {
        self.frames > 0 && self.atlas_index + self.frames <= usize::MAX
    }
}

/// A list of animations can drive a sprite if it is not empty and each of
/// them can be played.
pub open spec fn playable_animations(animations: Seq<AnimationData>) -> bool {
    &&& animations.len() > 0
    &&& forall|i: int| 0 <= i < animations.len() ==> (#[trigger] animations[i]).playable()
}

/// The states of a list of animations, in order.
pub open spec fn states_of(animations: Seq<AnimationData>) -> Seq<AnimationState> {
    animations.map_values(|data: AnimationData| data.state)
}

/// The mathematical content of an [`Animation`].
pub struct AnimationView {
    /// The animations the sprite can play.
    pub animations: Seq<AnimationData>,
    /// The index of the animation that is playing.
    pub current: int,
    /// The frame of it that is shown.
    pub frame: int,
    /// Nanoseconds counted towards the next frame.
    pub elapsed: nat,
    /// Whether the last tick of the timer completed an interval.
    pub changed: bool,
}

impl AnimationView {
    /// The animation that is playing.
    pub open spec fn playing(self) -> AnimationData {
        self.animations[self.current]
    }

    /// The interval of the animation that is playing, in nanoseconds.
    pub open spec fn interval(self) -> nat {
        duration_nanos(self.playing().interval)
    }

    /// An animation plays one of its animations and shows one of its frames,
    /// and its timer has not counted past the interval.
    pub open spec fn well_formed(self) -> bool {
        &&& playable_animations(self.animations)
        &&& 0 <= self.current < self.animations.len()
        &&& 0 <= self.frame < self.playing().frames
        &&& self.elapsed <= self.interval()
    }

    /// A freshly started animation: the first of the list, at its first frame.
    pub open spec fn started(animations: Seq<AnimationData>) -> AnimationView {
        AnimationView { animations, current: 0, frame: 0, elapsed: 0, changed: false }
    }

    /// The animation after `delta` nanoseconds have passed: where that
    /// completes an interval, the next frame is shown, the first one again
    /// after the last.
    pub open spec fn ticked(self, delta: nat) -> AnimationView {
        let total = self.elapsed + delta;
        let changed = total >= self.interval();
        AnimationView {
            frame: if changed {
                (self.frame + 1) % (self.playing().frames as int)
            } else {
                self.frame
            },
            elapsed: wrapped_elapsed(total, self.interval()),
            changed,
            ..self
        }
    }

    /// The animation after a request for `state`. Nothing happens if it is
    /// playing already. Else the first animation of that state starts, and
    /// its timer is run out at once: the frame after the first is shown and
    /// the animation counts as changed.
    pub open spec fn switched(self, state: AnimationState) -> AnimationView {
        if self.playing().state == state {
            self
        } else {
            let current = states_of(self.animations).index_of_first(state).unwrap();
            AnimationView {
                current,
                frame: 1int % (self.animations[current].frames as int),
                elapsed: 0,
                changed: true,
                ..self
            }
        }
    }

    /// The sprite to show: the playing animation's first sprite plus the
    /// frame.
    pub open spec fn atlas_index(self) -> int {
        self.playing().atlas_index + self.frame
    }

    /// A footstep is heard when a walking animation has just moved on to its
    /// third or its sixth frame.
    pub open spec fn steps(self) -> bool {
        &&& self.playing().state == AnimationState::Walking
        &&& self.changed
        &&& (self.frame == 2 || self.frame == 5)
    }
}

/// Time keeps an animation well formed: the frame stays within the playing
/// animation, and the timer within its interval.
pub proof fn lemma_ticked_well_formed(view: AnimationView, delta: nat)
    requires
        view.well_formed(),
    ensures
        view.ticked(delta).well_formed(),
{
    let total = view.elapsed + delta;
    let interval = view.interval();
    let frames = view.playing().frames as int;
    assert(0 <= (view.frame + 1) % frames < frames);
    if total >= interval && interval > 0 {
        assert(0 <= total % interval < interval);
        assert((total % interval) % 0x1_0000_0000_0000_0000 <= total % interval);
    }
}

/// A request for a state that the sprite has an animation for leaves the
/// animation well formed and playing that state.
pub proof fn lemma_switched_well_formed(view: AnimationView, state: AnimationState)
    requires
        view.well_formed(),
        states_of(view.animations).contains(state),
    ensures
        view.switched(state).well_formed(),
        view.switched(state).playing().state == state,
{
    states_of(view.animations).index_of_first_ensures(state);
    if view.playing().state != state {
        let current = states_of(view.animations).index_of_first(state).unwrap();
        let frames = view.animations[current].frames as int;
        assert(view.animations[current].playable());
        assert(0 <= 1int % frames < frames);
    }
}

/// The animation state of one sprite. The time towards the next frame is
/// counted by the engine's repeating timer, of which the animation keeps the
/// state: what it has counted, and whether it finished on its last tick.
pub struct Animation {
    elapsed: Duration,
    finished: bool,
    frame: usize,
    current: usize,
    animations: Vec<AnimationData>,
}

impl View for Animation {
    type V = AnimationView;

    closed spec fn view(&self) -> AnimationView {
        AnimationView {
            animations: self.animations@,
            current: self.current as int,
            frame: self.frame as int,
            elapsed: duration_nanos(self.elapsed),
            changed: self.finished,
        }
    }
}

/// Whether every animation of the list can be played.
pub fn check_playable(animations: &Vec<AnimationData>) -> (playable: bool)
    ensures
        playable == playable_animations(animations@),
{
    if animations.len() == 0 {
        return false;
    }
    let mut i: usize = 0;
    while i < animations.len()
        invariant
            i <= animations.len(),
            forall|j: int| 0 <= j < i ==> (#[trigger] animations@[j]).playable(),
        decreases animations.len() - i,
    {
        let data = &animations[i];
        if data.frames == 0 || data.atlas_index > usize::MAX - data.frames {
            return false;
        }
        i += 1;
    }
    true
}

/// The index of the first animation of the given state.
pub fn position_of_state(animations: &Vec<AnimationData>, state: AnimationState) -> (position:
    Option<usize>)
    ensures
        position.is_some() == states_of(animations@).contains(state),
        match position {
            Some(i) => {
                &&& i < animations@.len()
                &&& animations@[i as int].state == state
                &&& forall|j: int| 0 <= j < i ==> (#[trigger] animations@[j]).state != state
                &&& states_of(animations@).index_of_first(state) == Some(i as int)
            },
            None => states_of(animations@).index_of_first(state).is_none(),
        },
{
    let ghost states = states_of(animations@);
    let mut i: usize = 0;
    while i < animations.len()
        invariant
            i <= animations.len(),
            states == states_of(animations@),
            forall|j: int| 0 <= j < i ==> states[j] != state,
            forall|j: int| 0 <= j < i ==> (#[trigger] animations@[j]).state != state,
        decreases animations.len() - i,
    {
        if animations[i].state == state {
            proof {
                assert(states[i as int] == state);
                states.index_of_first_ensures(state);
            }
            return Some(i);
        }
        i += 1;
    }
    proof {
        states.index_of_first_ensures(state);
    }
    None
}

impl Animation {
    /// What holds of every animation this library hands out.
    pub open spec fn well_formed(&self) -> bool {
        self@.well_formed()
    }

    /// Starts the first animation of the list. The list must be playable,
    /// which [`check_playable`] tests.
    pub fn new(animations: Vec<AnimationData>) -> (animation: Animation)
        requires
            playable_animations(animations@),
        ensures
            animation.well_formed(),
            animation@ == AnimationView::started(animations@),
    {
        let (elapsed, finished) = start_timer(animations[0].interval);
        Animation { elapsed, finished, frame: 0, current: 0, animations }
    }

    /// Lets `delta` pass: the timer counts it, and the next frame is shown
    /// if that completes an interval. The timer must be able to count it;
    /// [`Animation::try_update_timer`] asks for nothing.
    pub fn update_timer(&mut self, delta: Duration)
        requires
            old(self).well_formed(),
            can_count(old(self)@.elapsed, duration_nanos(delta)),
        ensures
            final(self).well_formed(),
            final(self)@ == old(self)@.ticked(duration_nanos(delta)),
    {
        let data = &self.animations[self.current];
        let (elapsed, finished) = tick_timer(data.interval, self.elapsed, delta);
        self.elapsed = elapsed;
        self.finished = finished;
        if !self.finished {
            return ;
        }
        self.frame = (self.frame + 1) % self.animations[self.current].frames;
    }

    /// Updates the timer where it can count `delta` on top of what it has
    /// counted, and says whether it could.
    pub fn try_update_timer(&mut self, delta: Duration) -> (updated: bool)
        requires
            old(self).well_formed(),
        ensures
            final(self).well_formed(),
            updated == can_count(old(self)@.elapsed, duration_nanos(delta)),
            final(self)@ == if updated {
                old(self)@.ticked(duration_nanos(delta))
            } else {
                old(self)@
            },
    {
        let elapsed = self.elapsed.as_nanos();
        let fits = elapsed == 0 || match elapsed.checked_add(delta.as_nanos()) {
            Some(total) => total <= MAX_DURATION_NANOS,
            None => false,
        };
        if fits {
            self.update_timer(delta);
        }
        fits
    }

    /// Plays the first animation of the given state, unless that state is
    /// playing already. The sprite must have an animation for it, which
    /// [`Animation::plays`] tests.
    pub fn update_state(&mut self, state: AnimationState)
        requires
            old(self).well_formed(),
            states_of(old(self)@.animations).contains(state),
        ensures
            final(self).well_formed(),
            final(self)@ == old(self)@.switched(state),
    {
        if self.state() != state {
            proof {
                states_of(self.animations@).index_of_first_ensures(state);
            }
            self.current = position_of_state(&self.animations, state).unwrap();
            let interval = self.animations[self.current].interval;
            let (elapsed, finished) = start_timer(interval);
            self.elapsed = elapsed;
            self.finished = finished;
            self.frame = 0;
            let remaining = remaining_time(interval, self.elapsed);
            proof {
                let interval = self@.interval();
                assert(duration_nanos(remaining) == interval);
                assert(interval > 0 ==> interval % interval == 0) by (nonlinear_arith);
                assert(wrapped_elapsed(interval, interval) == 0);
            }
            self.update_timer(remaining);
        }
    }

    /// Whether the sprite has an animation for the state.
    pub fn plays(&self, state: AnimationState) -> (found: bool)
        ensures
            found == states_of(self@.animations).contains(state),
    {
        position_of_state(&self.animations, state).is_some()
    }

    /// Whether the last tick of the timer completed an interval, so that
    /// another sprite is to be shown.
    pub fn changed(&self) -> (changed: bool)
        ensures
            changed == self@.changed,
    {
        self.finished
    }

    /// The state of the animation that is playing.
    pub fn state(&self) -> (state: AnimationState)
        requires
            self.well_formed(),
        ensures
            state == self@.playing().state,
    {
        self.animations[self.current].state
    }

    /// Whether a footstep is to be heard in this frame.
    pub fn steps(&self) -> (steps: bool)
        requires
            self.well_formed(),
        ensures
            steps == self@.steps(),
    {
        self.state() == AnimationState::Walking && self.changed() && (self.frame == 2
            || self.frame == 5)
    }

    /// The index in the atlas of the sprite to show.
    pub fn get_atlas_index(&self) -> (index: usize)
        requires
            self.well_formed(),
        ensures
            index == self@.atlas_index(),
    {
        self.animations[self.current].atlas_index + self.frame
    }
}

/// The sprite follows the character's movement. `dx` is the sign of the
/// horizontal intent and `moving` says whether there is any intent at all.
/// A character that moves sideways faces that way, and the result says
/// whether the sprite is to be mirrored; the animation is asked for walking
/// or idling.
pub fn update_animation_movement(
    animation: &mut Animation,
    flip_x: bool,
    dx: i8,
    moving: bool,
) -> (flipped: bool)
    requires
        old(animation).well_formed(),
        states_of(old(animation)@.animations).contains(AnimationState::spec_of_movement(moving)),
    ensures
        final(animation).well_formed(),
        final(animation)@ == old(animation)@.switched(AnimationState::spec_of_movement(moving)),
        flipped == if dx != 0 {
            dx < 0
        } else {
            flip_x
        },
{
    animation.update_state(AnimationState::of_movement(moving));
    if dx != 0 {
        dx < 0
    } else {
        flip_x
    }
}

/// The sound of a footstep, if one is to be heard in this frame: one of
/// `sounds`, chosen at random.
pub fn trigger_step_sound_effect<'a, T>(animation: &Animation, sounds: &'a Vec<T>) -> (sound:
    Option<&'a T>)
    requires
        animation.well_formed(),
        animation@.steps() ==> sounds@.len() > 0,
    ensures
        sound is Some <==> animation@.steps(),
        sound matches Some(chosen) ==> sounds@.contains(*chosen),
{
    if animation.steps() {
        pick_one(sounds)
    } else {
        None
    }
}

} // verus!
