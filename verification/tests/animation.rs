use solid_knight::animations::{
    animate_current_state, update_animation_state, AnimationController, AnimationData,
    CharacterAnimations, CharacterState, CurrentAnimation,
};
use solid_knight::timer::{Timer, TimerMode};

fn table() -> CharacterAnimations {
    CharacterAnimations {
        animations: vec![
            AnimationData {
                state: CharacterState::Idle,
                frames: 4,
                frame_ms: 100,
                looping: true,
                ping_pong: true,
            },
            AnimationData {
                state: CharacterState::Running,
                frames: 3,
                frame_ms: 100,
                looping: true,
                ping_pong: false,
            },
            AnimationData {
                state: CharacterState::Attacking,
                frames: 2,
                frame_ms: 100,
                looping: false,
                ping_pong: false,
            },
        ],
    }
}

fn playing(frames: usize, looping: bool) -> CurrentAnimation {
    CurrentAnimation {
        current_frame: 0,
        timer: Timer::new(100, TimerMode::Repeating),
        total_frames: frames,
        looping,
        reverse_direction: false,
    }
}

#[test]
fn controller_stages_and_applies() {
    let mut c = AnimationController::default();
    assert_eq!(c.get_current_state(), CharacterState::Idle);
    assert!(!c.apply_next_state());

    c.change_state(CharacterState::Running);
    // Staging does not change the state yet.
    assert_eq!(c.get_current_state(), CharacterState::Idle);
    assert!(c.apply_next_state());
    assert_eq!(c.get_current_state(), CharacterState::Running);
    assert!(!c.apply_next_state());
}

#[test]
fn changing_to_the_same_state_stages_nothing() {
    let mut c = AnimationController::default();
    c.change_state(CharacterState::Idle);
    assert!(!c.apply_next_state());
}

#[test]
fn find_animation_returns_first_match() {
    let t = table();
    assert_eq!(t.find_animation(CharacterState::Running), Some(1));
    assert_eq!(t.find_animation(CharacterState::Dead), None);
}

#[test]
fn applying_a_staged_state_restarts_the_animation() {
    let t = table();
    let mut c = AnimationController::default();
    let mut anim = CurrentAnimation {
        current_frame: 2,
        timer: Timer::new(55, TimerMode::Repeating),
        total_frames: 4,
        looping: true,
        reverse_direction: true,
    };
    c.change_state(CharacterState::Running);
    let switched = update_animation_state(&mut c, &t, &mut anim);
    assert_eq!(switched, Some(1));
    assert_eq!(c.get_current_state(), CharacterState::Running);
    assert_eq!(anim.current_frame, 0);
    assert_eq!(anim.total_frames, 3);
    assert!(anim.looping);
    assert!(!anim.reverse_direction);
    assert_eq!(anim.timer.duration_ms, 100);
}

#[test]
fn a_state_without_animation_leaves_playback_alone() {
    let t = table();
    let mut c = AnimationController::default();
    let mut anim = playing(4, true);
    c.change_state(CharacterState::Dead);
    let switched = update_animation_state(&mut c, &t, &mut anim);
    assert_eq!(switched, None);
    assert_eq!(c.get_current_state(), CharacterState::Dead);
    assert_eq!(anim.current_frame, 0);
    assert_eq!(anim.total_frames, 4);
}

#[test]
fn nothing_staged_changes_nothing() {
    let t = table();
    let mut c = AnimationController::default();
    let mut anim = playing(4, true);
    assert_eq!(update_animation_state(&mut c, &t, &mut anim), None);
    assert_eq!(c.get_current_state(), CharacterState::Idle);
}

#[test]
fn frames_advance_only_when_the_timer_laps() {
    let t = table();
    let mut c = AnimationController::default();
    c.change_state(CharacterState::Running);
    c.apply_next_state();
    let mut anim = playing(3, true);
    assert_eq!(animate_current_state(&mut anim, &mut c, &t, 99), 0);
    assert_eq!(animate_current_state(&mut anim, &mut c, &t, 1), 1);
}

#[test]
fn looping_animation_wraps_to_frame_zero() {
    let t = table();
    let mut c = AnimationController::default();
    c.change_state(CharacterState::Running);
    c.apply_next_state();
    let mut anim = playing(3, true);
    anim.current_frame = 2;
    assert_eq!(animate_current_state(&mut anim, &mut c, &t, 100), 0);
    assert!(!anim.reverse_direction);
}

#[test]
fn ping_pong_animation_turns_around_at_both_ends() {
    let t = table();
    // The idle animation of the table ping pongs over 4 frames.
    let mut c = AnimationController::default();
    let mut anim = playing(4, true);
    anim.current_frame = 3;
    // 3 -> turn: stay on the last frame, now in reverse.
    assert_eq!(animate_current_state(&mut anim, &mut c, &t, 100), 3);
    assert!(anim.reverse_direction);
    assert_eq!(animate_current_state(&mut anim, &mut c, &t, 100), 2);
    assert_eq!(animate_current_state(&mut anim, &mut c, &t, 100), 1);
    // Reaching frame zero turns playback forward again.
    assert_eq!(animate_current_state(&mut anim, &mut c, &t, 100), 0);
    assert!(!anim.reverse_direction);
    assert_eq!(animate_current_state(&mut anim, &mut c, &t, 100), 1);
}

#[test]
fn finished_attack_holds_last_frame_and_goes_idle() {
    let t = table();
    let mut c = AnimationController::default();
    c.change_state(CharacterState::Attacking);
    c.apply_next_state();
    let mut anim = playing(2, false);
    anim.current_frame = 1;
    assert_eq!(animate_current_state(&mut anim, &mut c, &t, 100), 1);
    // The controller has idle staged now.
    assert_eq!(c.get_current_state(), CharacterState::Attacking);
    assert!(c.apply_next_state());
    assert_eq!(c.get_current_state(), CharacterState::Idle);
}

#[test]
fn finished_one_shot_outside_attack_stages_nothing() {
    let t = table();
    let mut c = AnimationController::default();
    c.change_state(CharacterState::Hurt);
    c.apply_next_state();
    let mut anim = playing(2, false);
    anim.current_frame = 1;
    assert_eq!(animate_current_state(&mut anim, &mut c, &t, 100), 1);
    assert!(!c.apply_next_state());
}
