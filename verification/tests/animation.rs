use fishstick_jam_2::animation::{
    check_playable, position_of_state, trigger_step_sound_effect, update_animation_movement,
    Animation, AnimationData, AnimationState,
};
use fishstick_jam_2::player::player_animations;
use std::time::Duration;

fn data(frames: usize, millis: u64, state: AnimationState, atlas_index: usize) -> AnimationData {
    AnimationData { frames, interval: Duration::from_millis(millis), state, atlas_index }
}

fn ms(millis: u64) -> Duration {
    Duration::from_millis(millis)
}

/// A walk of six frames at ten milliseconds each, after a stand of two.
fn walker() -> Animation {
    let mut animation = Animation::new(vec![
        data(2, 200, AnimationState::Idling, 0),
        data(6, 10, AnimationState::Walking, 2),
    ]);
    animation.update_state(AnimationState::Walking);
    animation
}

#[test]
fn the_player_stands_and_walks() {
    let animations = player_animations();
    assert_eq!(animations.len(), 2);
    assert_eq!(animations[0].frames, 2);
    assert_eq!(animations[0].interval, Duration::from_millis(200));
    assert_eq!(animations[0].state, AnimationState::Idling);
    assert_eq!(animations[0].atlas_index, 0);
    assert_eq!(animations[1].frames, 2);
    assert_eq!(animations[1].interval, Duration::from_millis(100));
    assert_eq!(animations[1].state, AnimationState::Walking);
    assert_eq!(animations[1].atlas_index, 2);
    assert!(check_playable(&animations));
}

#[test]
fn moving_means_walking() {
    assert_eq!(AnimationState::of_movement(true), AnimationState::Walking);
    assert_eq!(AnimationState::of_movement(false), AnimationState::Idling);
}

#[test]
fn playable_animations_have_frames() {
    assert!(!check_playable(&Vec::new()));
    assert!(check_playable(&vec![data(1, 0, AnimationState::Idling, 0)]));
    assert!(!check_playable(&vec![data(0, 200, AnimationState::Idling, 0)]));
    assert!(!check_playable(&vec![
        data(2, 200, AnimationState::Idling, 0),
        data(0, 100, AnimationState::Walking, 2)
    ]));
}

#[test]
fn the_last_sprite_must_have_an_index() {
    assert!(check_playable(&vec![data(2, 200, AnimationState::Idling, usize::MAX - 2)]));
    assert!(!check_playable(&vec![data(2, 200, AnimationState::Idling, usize::MAX - 1)]));
    assert!(!check_playable(&vec![data(1, 200, AnimationState::Idling, usize::MAX)]));
}

#[test]
fn the_first_animation_of_a_state_is_found() {
    let animations = vec![
        data(2, 200, AnimationState::Idling, 0),
        data(2, 100, AnimationState::Walking, 2),
        data(4, 100, AnimationState::Walking, 4),
    ];
    assert_eq!(position_of_state(&animations, AnimationState::Idling), Some(0));
    assert_eq!(position_of_state(&animations, AnimationState::Walking), Some(1));
    let standing = vec![data(2, 200, AnimationState::Idling, 0)];
    assert_eq!(position_of_state(&standing, AnimationState::Walking), None);
    assert_eq!(position_of_state(&Vec::new(), AnimationState::Idling), None);
}

#[test]
fn an_animation_knows_its_states() {
    let player = Animation::new(player_animations());
    assert!(player.plays(AnimationState::Idling));
    assert!(player.plays(AnimationState::Walking));
    let fire = Animation::new(vec![data(3, 200, AnimationState::Idling, 0)]);
    assert!(fire.plays(AnimationState::Idling));
    assert!(!fire.plays(AnimationState::Walking));
}

#[test]
fn a_new_animation_shows_its_first_sprite() {
    let animation = Animation::new(player_animations());
    assert_eq!(animation.state(), AnimationState::Idling);
    assert_eq!(animation.get_atlas_index(), 0);
    assert!(!animation.changed());
    assert!(!animation.steps());
}

#[test]
fn the_first_sprite_may_be_anywhere_in_the_atlas() {
    let animation = Animation::new(vec![data(3, 200, AnimationState::Idling, 7)]);
    assert_eq!(animation.get_atlas_index(), 7);
}

#[test]
fn a_frame_lasts_its_interval() {
    let mut animation = Animation::new(player_animations());
    animation.update_timer(ms(199));
    assert!(!animation.changed());
    assert_eq!(animation.get_atlas_index(), 0);
    animation.update_timer(ms(1));
    assert!(animation.changed());
    assert_eq!(animation.get_atlas_index(), 1);
}

#[test]
fn changed_holds_for_one_tick() {
    let mut animation = Animation::new(player_animations());
    animation.update_timer(ms(200));
    assert!(animation.changed());
    animation.update_timer(ms(10));
    assert!(!animation.changed());
    assert_eq!(animation.get_atlas_index(), 1);
}

#[test]
fn after_the_last_frame_comes_the_first() {
    let mut animation = Animation::new(vec![data(3, 200, AnimationState::Idling, 4)]);
    let mut shown = Vec::new();
    for _ in 0..7 {
        animation.update_timer(ms(200));
        shown.push(animation.get_atlas_index());
    }
    assert_eq!(shown, vec![5, 6, 4, 5, 6, 4, 5]);
}

#[test]
fn what_is_left_of_a_tick_counts_for_the_next_frame() {
    let mut animation = Animation::new(player_animations());
    animation.update_timer(ms(250));
    assert!(animation.changed());
    assert_eq!(animation.get_atlas_index(), 1);
    animation.update_timer(ms(149));
    assert!(!animation.changed());
    animation.update_timer(ms(1));
    assert!(animation.changed());
    assert_eq!(animation.get_atlas_index(), 0);
}

#[test]
fn a_long_tick_moves_one_frame_on() {
    let mut animation = Animation::new(vec![data(5, 100, AnimationState::Idling, 0)]);
    animation.update_timer(ms(350));
    assert!(animation.changed());
    assert_eq!(animation.get_atlas_index(), 1);
    animation.update_timer(ms(49));
    assert!(!animation.changed());
    animation.update_timer(ms(1));
    assert!(animation.changed());
    assert_eq!(animation.get_atlas_index(), 2);
}

#[test]
fn a_tick_of_no_time_changes_nothing() {
    let mut animation = Animation::new(player_animations());
    animation.update_timer(ms(0));
    assert!(!animation.changed());
    assert_eq!(animation.get_atlas_index(), 0);
}

#[test]
fn an_interval_of_no_time_changes_on_every_tick() {
    let mut animation = Animation::new(vec![data(2, 0, AnimationState::Idling, 0)]);
    animation.update_timer(ms(0));
    assert!(animation.changed());
    assert_eq!(animation.get_atlas_index(), 1);
    animation.update_timer(ms(5));
    assert!(animation.changed());
    assert_eq!(animation.get_atlas_index(), 0);
}

#[test]
fn a_new_state_starts_at_its_second_frame() {
    let mut animation = Animation::new(player_animations());
    animation.update_state(AnimationState::Walking);
    assert_eq!(animation.state(), AnimationState::Walking);
    assert!(animation.changed());
    assert_eq!(animation.get_atlas_index(), 3);
}

#[test]
fn a_new_state_of_one_frame_starts_at_that_frame() {
    let mut animation = Animation::new(vec![
        data(2, 200, AnimationState::Idling, 0),
        data(1, 100, AnimationState::Walking, 2),
    ]);
    animation.update_state(AnimationState::Walking);
    assert!(animation.changed());
    assert_eq!(animation.get_atlas_index(), 2);
}

#[test]
fn a_new_state_forgets_the_time_of_the_old() {
    let mut animation = Animation::new(player_animations());
    animation.update_timer(ms(150));
    animation.update_state(AnimationState::Walking);
    assert_eq!(animation.get_atlas_index(), 3);
    animation.update_timer(ms(99));
    assert!(!animation.changed());
    assert_eq!(animation.get_atlas_index(), 3);
    animation.update_timer(ms(1));
    assert!(animation.changed());
    assert_eq!(animation.get_atlas_index(), 2);
}

#[test]
fn the_same_state_changes_nothing() {
    let mut animation = Animation::new(player_animations());
    animation.update_timer(ms(150));
    animation.update_state(AnimationState::Idling);
    assert!(!animation.changed());
    assert_eq!(animation.get_atlas_index(), 0);
    animation.update_timer(ms(50));
    assert!(animation.changed());
    assert_eq!(animation.get_atlas_index(), 1);
}

#[test]
fn the_first_animation_of_the_state_plays() {
    let mut animation = Animation::new(vec![
        data(2, 200, AnimationState::Idling, 0),
        data(2, 100, AnimationState::Walking, 10),
        data(2, 100, AnimationState::Walking, 20),
    ]);
    animation.update_state(AnimationState::Walking);
    assert_eq!(animation.get_atlas_index(), 11);
}

#[test]
fn a_timer_takes_what_it_can_count() {
    let mut animation = Animation::new(player_animations());
    assert!(animation.try_update_timer(Duration::MAX));
    assert!(animation.changed());
    assert_eq!(animation.get_atlas_index(), 1);
    assert!(animation.try_update_timer(ms(200)));
    assert_eq!(animation.get_atlas_index(), 0);
}

#[test]
fn a_timer_refuses_what_it_cannot_count() {
    let mut animation = Animation::new(player_animations());
    animation.update_timer(ms(50));
    assert!(!animation.try_update_timer(Duration::MAX));
    assert!(!animation.changed());
    assert_eq!(animation.get_atlas_index(), 0);
    assert!(animation.try_update_timer(Duration::MAX - ms(50)));
    assert!(animation.changed());
    assert_eq!(animation.get_atlas_index(), 1);
}

#[test]
fn a_timer_refuses_one_nanosecond_too_many() {
    let mut animation = Animation::new(player_animations());
    animation.update_timer(ms(50));
    let room = Duration::MAX - ms(50);
    assert!(!animation.try_update_timer(room + Duration::from_nanos(1)));
    assert_eq!(animation.get_atlas_index(), 0);
    animation.update_timer(ms(149));
    assert!(!animation.changed());
    animation.update_timer(ms(1));
    assert!(animation.changed());
}

#[test]
fn the_sprite_faces_where_it_goes() {
    let mut animation = Animation::new(player_animations());
    assert!(update_animation_movement(&mut animation, false, -1, true));
    assert!(!update_animation_movement(&mut animation, true, 1, true));
    assert_eq!(animation.state(), AnimationState::Walking);
}

#[test]
fn a_sprite_that_stands_keeps_facing_its_way() {
    let mut animation = Animation::new(player_animations());
    update_animation_movement(&mut animation, false, -1, true);
    assert!(update_animation_movement(&mut animation, true, 0, false));
    assert_eq!(animation.state(), AnimationState::Idling);
    assert!(!update_animation_movement(&mut animation, false, 0, false));
}

#[test]
fn movement_sets_the_animation() {
    let mut animation = Animation::new(player_animations());
    update_animation_movement(&mut animation, false, 1, true);
    assert_eq!(animation.state(), AnimationState::Walking);
    assert_eq!(animation.get_atlas_index(), 3);
    assert!(animation.changed());
    update_animation_movement(&mut animation, false, 1, true);
    assert_eq!(animation.get_atlas_index(), 3);
    update_animation_movement(&mut animation, false, 0, false);
    assert_eq!(animation.state(), AnimationState::Idling);
    assert_eq!(animation.get_atlas_index(), 1);
}

#[test]
fn steps_fall_on_the_third_and_sixth_frame() {
    let mut animation = walker();
    let mut steps = Vec::new();
    for _ in 0..12 {
        animation.update_timer(ms(10));
        if animation.steps() {
            steps.push(animation.get_atlas_index());
        }
    }
    assert_eq!(steps, vec![4, 7, 4, 7]);
}

#[test]
fn a_step_is_heard_only_as_the_frame_comes() {
    let mut animation = walker();
    animation.update_timer(ms(10));
    assert!(animation.steps());
    animation.update_timer(ms(5));
    assert_eq!(animation.get_atlas_index(), 4);
    assert!(!animation.steps());
}

#[test]
fn standing_makes_no_steps() {
    let mut animation = Animation::new(vec![data(6, 10, AnimationState::Idling, 0)]);
    for _ in 0..12 {
        animation.update_timer(ms(10));
        assert!(!animation.steps());
    }
}

#[test]
fn a_step_sounds_like_one_of_the_sounds() {
    let sounds = vec!["step1", "step2", "step3", "step4"];
    let mut animation = walker();
    animation.update_timer(ms(10));
    for _ in 0..50 {
        let sound = trigger_step_sound_effect(&animation, &sounds);
        assert!(sounds.contains(sound.unwrap()));
    }
}

#[test]
fn every_step_sound_gets_its_turn() {
    let sounds = vec![1u8, 2, 3];
    let mut animation = walker();
    animation.update_timer(ms(10));
    let mut heard = [false; 3];
    for _ in 0..1000 {
        let sound = *trigger_step_sound_effect(&animation, &sounds).unwrap();
        heard[usize::from(sound) - 1] = true;
    }
    assert_eq!(heard, [true; 3]);
}

#[test]
fn the_only_step_sound_is_chosen() {
    let sounds = vec!["step"];
    let mut animation = walker();
    animation.update_timer(ms(10));
    assert_eq!(trigger_step_sound_effect(&animation, &sounds), Some(&"step"));
}

#[test]
fn no_step_no_sound() {
    let sounds = vec!["step1", "step2"];
    let animation = walker();
    assert_eq!(trigger_step_sound_effect(&animation, &sounds), None);
    let none: Vec<&str> = Vec::new();
    assert_eq!(trigger_step_sound_effect(&animation, &none), None);
}
