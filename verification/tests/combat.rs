use solid_knight::animations::CharacterState;
use solid_knight::hitbox::{
    check_circle_hit, contains_frame, contains_id, find_first_strike, handle_hitbox_collisions,
    should_remove_hitbox, update_hitbox_activity, AttackContact, HitTarget, Hitbox,
    HITBOX_COOLDOWN_MS,
};
use solid_knight::timer::{Timer, TimerMode};
use solid_knight::utils::{Vec2i, SUBPIXELS_PER_PIXEL};

const PX: i64 = SUBPIXELS_PER_PIXEL;

fn finished_cooldown() -> Timer {
    Timer {
        elapsed_ms: HITBOX_COOLDOWN_MS,
        duration_ms: HITBOX_COOLDOWN_MS,
        mode: TimerMode::Once,
        finished_this_tick: false,
    }
}

fn armed_hitbox() -> Hitbox {
    Hitbox {
        damage: 10,
        active: true,
        size: Vec2i::new(50 * PX, 30 * PX),
        cooldown: finished_cooldown(),
        frames_active: vec![3],
        ..Hitbox::default()
    }
}

#[test]
fn default_hitbox_is_inert() {
    let h = Hitbox::default();
    assert_eq!(h.damage, 0);
    assert!(!h.active);
    assert_eq!(h.size, Vec2i::new(50 * PX, 30 * PX));
    assert_eq!(h.offset, Vec2i::new(0, 0));
    assert!(h.frames_active.is_empty());
    assert!(h.hit_entities.is_empty());
    assert_eq!(h.cooldown.duration_ms, HITBOX_COOLDOWN_MS);
    assert_eq!(h.owner_state, CharacterState::Idle);
}

#[test]
fn circle_hit_threshold_is_four_fifths_of_the_width() {
    let origin = Vec2i::new(0, 0);
    // A 50 pixel wide hitbox reaches strictly less than 40 pixels.
    let reach = 40 * PX;
    assert!(check_circle_hit(origin, Vec2i::new(reach - 1, 0), 50 * PX));
    assert!(!check_circle_hit(origin, Vec2i::new(reach, 0), 50 * PX));
}

#[test]
fn swing_hits_each_target_in_reach_once() {
    let mut h = armed_hitbox();
    let targets = vec![
        HitTarget { id: 1, pos: Vec2i::new(30 * PX, 0) },
        HitTarget { id: 2, pos: Vec2i::new(40 * PX - 1, 0) },
        HitTarget { id: 3, pos: Vec2i::new(45 * PX, 0) },
    ];
    let events = handle_hitbox_collisions(&mut h, 7, Vec2i::new(0, 0), &targets);
    assert_eq!(events.len(), 2);
    assert_eq!(events[0].source, 7);
    assert_eq!(events[0].target, 1);
    assert_eq!(events[0].damage, 10);
    assert_eq!(events[1].target, 2);
    assert_eq!(h.hit_entities, vec![1, 2]);
    // Striking restarts the cooldown.
    assert_eq!(h.cooldown.elapsed_ms, 0);
}

#[test]
fn swing_waits_for_its_cooldown() {
    let mut h = armed_hitbox();
    h.cooldown = Timer::new(HITBOX_COOLDOWN_MS, TimerMode::Once);
    let targets = vec![HitTarget { id: 1, pos: Vec2i::new(0, 0) }];
    let events = handle_hitbox_collisions(&mut h, 7, Vec2i::new(0, 0), &targets);
    assert!(events.is_empty());
    assert!(h.hit_entities.is_empty());
}

#[test]
fn inactive_hitbox_hits_nothing() {
    let mut h = armed_hitbox();
    h.active = false;
    let targets = vec![HitTarget { id: 1, pos: Vec2i::new(0, 0) }];
    assert!(handle_hitbox_collisions(&mut h, 7, Vec2i::new(0, 0), &targets).is_empty());
}

#[test]
fn one_hit_per_attack_across_frames() {
    let mut h = armed_hitbox();
    let targets = vec![HitTarget { id: 1, pos: Vec2i::new(10 * PX, 0) }];
    assert_eq!(handle_hitbox_collisions(&mut h, 7, Vec2i::new(0, 0), &targets).len(), 1);
    // Arm the cooldown again: the same target is still remembered.
    h.cooldown = finished_cooldown();
    assert!(handle_hitbox_collisions(&mut h, 7, Vec2i::new(0, 0), &targets).is_empty());
}

#[test]
fn the_offset_moves_the_swing() {
    let mut h = armed_hitbox();
    h.offset = Vec2i::new(35 * PX, 0);
    // The target sits 35 pixels from the owner but right on the hitbox.
    let targets = vec![HitTarget { id: 1, pos: Vec2i::new(35 * PX, 0) }];
    let events = handle_hitbox_collisions(&mut h, 7, Vec2i::new(0, 0), &targets);
    assert_eq!(events.len(), 1);
}

#[test]
fn activity_follows_the_live_frames() {
    let mut h = armed_hitbox();
    h.hit_entities = vec![4];
    update_hitbox_activity(&mut h, 3, 16);
    assert!(h.active);
    assert_eq!(h.hit_entities, vec![4]);
    // Leaving the live window forgets the victims and disarms.
    update_hitbox_activity(&mut h, 4, 16);
    assert!(!h.active);
    assert!(h.hit_entities.is_empty());
    // The cooldown kept ticking.
    assert_eq!(h.cooldown.elapsed_ms, HITBOX_COOLDOWN_MS);
}

#[test]
fn spent_hitboxes_are_removed_only_out_of_attacks() {
    let mut h = armed_hitbox();
    h.active = false;
    assert!(should_remove_hitbox(&h, CharacterState::Idle));
    assert!(!should_remove_hitbox(&h, CharacterState::Attacking));
    assert!(!should_remove_hitbox(&h, CharacterState::ChargeAttacking));
    h.active = true;
    assert!(!should_remove_hitbox(&h, CharacterState::Idle));
    h.active = false;
    h.cooldown = Timer::new(HITBOX_COOLDOWN_MS, TimerMode::Once);
    assert!(!should_remove_hitbox(&h, CharacterState::Idle));
}

#[test]
fn first_strike_scan_takes_the_first_live_overlap() {
    let box_pos = Vec2i::new(0, 0);
    let box_size = Vec2i::new(64 * PX, 64 * PX);
    let attacks = vec![
        AttackContact {
            active: false,
            damage: 99,
            pos: Vec2i::new(0, 0),
            size: Vec2i::new(40 * PX, 30 * PX),
        },
        AttackContact {
            active: true,
            damage: 10,
            pos: Vec2i::new(30 * PX, 0),
            size: Vec2i::new(40 * PX, 30 * PX),
        },
        AttackContact {
            active: true,
            damage: 20,
            pos: Vec2i::new(0, 0),
            size: Vec2i::new(40 * PX, 30 * PX),
        },
    ];
    let hit = find_first_strike(&attacks, box_pos, box_size).unwrap();
    assert_eq!(hit.damage, 10);
    let far = vec![AttackContact {
        active: true,
        damage: 10,
        pos: Vec2i::new(500 * PX, 0),
        size: Vec2i::new(40 * PX, 30 * PX),
    }];
    assert!(find_first_strike(&far, box_pos, box_size).is_none());
}

#[test]
fn membership_helpers() {
    assert!(contains_id(&vec![1, 2, 3], 2));
    assert!(!contains_id(&vec![1, 2, 3], 4));
    assert!(contains_frame(&vec![4, 13], 13));
    assert!(!contains_frame(&vec![4, 13], 5));
}
