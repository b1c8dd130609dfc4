//! The hero: input handling, jumping, attack hitboxes, animation choice,
//! damage intake with a spell of immunity after each hit, and the starting
//! loadout.

use vstd::prelude::*;

use crate::animations::{
    staged, AnimationController, AnimationData, CharacterAnimations, CharacterState,
    CurrentAnimation,
};
use crate::enemy::{AttackHitbox, CollisionHitbox};
use crate::hitbox::{find_first_strike, first_strike, AttackContact};
use crate::physics::Physics;
use crate::timer::{Timer, TimerMode};
use crate::utils::{
    in_world, scale_permille, Vec2i, SPEED_UNITS_PER_PIXEL_PER_SECOND, SUBPIXELS_PER_PIXEL,
    WORLD_LIMIT,
};

verus! {

pub const PLAYER_INITIAL_HEALTH: i64 = 100;

pub const PLAYER_MAX_HEALTH: i64 = 100;

pub const PLAYER_ATTACK: i64 = 10;

pub const PLAYER_DEFENSE: i64 = 5;

/// Walking speed, in velocity units.
pub const PLAYER_SPEED: i64 = 250 * SPEED_UNITS_PER_PIXEL_PER_SECOND;

/// Upward speed a jump grants, in velocity units.
pub const PLAYER_JUMP_FORCE: i64 = 500 * SPEED_UNITS_PER_PIXEL_PER_SECOND;

/// How long the player cannot be hurt again after a hit, in milliseconds.
pub const PLAYER_HURT_IMMUNITY_MS: u32 = 400;

pub const PLAYER_COLLISION_SIZE_X: i64 = 45 * SUBPIXELS_PER_PIXEL;

pub const PLAYER_COLLISION_SIZE_Y: i64 = 45 * SUBPIXELS_PER_PIXEL;

pub const PLAYER_ATTACK_HITBOX_SIZE_X: i64 = 40 * SUBPIXELS_PER_PIXEL;

pub const PLAYER_ATTACK_HITBOX_SIZE_Y: i64 = 30 * SUBPIXELS_PER_PIXEL;

pub const PLAYER_CHARGE_ATTACK_HITBOX_SIZE_X: i64 = 84 * SUBPIXELS_PER_PIXEL;

pub const PLAYER_CHARGE_ATTACK_HITBOX_SIZE_Y: i64 = 30 * SUBPIXELS_PER_PIXEL;

/// How long a swing's hitbox stays spawned, in milliseconds.
pub const PLAYER_ATTACK_HITBOX_DURATION_MS: u32 = 100;

/// How far in front of the player the hitbox sits, in thousandths of the
/// hitbox width.
pub const PLAYER_ATTACK_HITBOX_OFFSET_PERMILLE: i64 = 500;

/// Distance from the player's centre down to its feet, in subpixels.
pub const PLAYER_FEET_OFFSET: i64 = 10 * SUBPIXELS_PER_PIXEL;

/// Starting height of the player over the centre line, in subpixels.
pub const PLAYER_SPAWN_Y: i64 = 400 * SUBPIXELS_PER_PIXEL;

pub const PLAYER_IDLE_FRAMES: usize = 11;

pub const PLAYER_ATTACK_FRAMES: usize = 7;

pub const PLAYER_CHARGE_ATTACK_FRAMES: usize = 7;

pub const PLAYER_RUN_FRAMES: usize = 8;

pub const PLAYER_JUMP_FRAMES: usize = 3;

pub const PLAYER_HURT_FRAMES: usize = 4;

pub const PLAYER_FALL_FRAMES: usize = 3;

/// Frame periods in milliseconds, each frame rate rounded down to the
/// millisecond: ten frames a second for idle, hurt and fall, twenty for
/// the attack, twelve for the charged attack, fifteen for the run and
/// eighteen for the jump.
pub const PLAYER_IDLE_FRAME_MS: u32 = 100;

pub const PLAYER_ATTACK_FRAME_MS: u32 = 50;

pub const PLAYER_CHARGE_ATTACK_FRAME_MS: u32 = 83;

pub const PLAYER_RUN_FRAME_MS: u32 = 66;

pub const PLAYER_JUMP_FRAME_MS: u32 = 55;

pub const PLAYER_HURT_FRAME_MS: u32 = 100;

pub const PLAYER_FALL_FRAME_MS: u32 = 100;

/// Horizontal speed below which the player counts as standing still, in
/// velocity units.
pub const PLAYER_IDLE_SPEED_THRESHOLD: i64 = 100;

/// The hero's stats and hit-immunity timer.
#[derive(Clone, PartialEq, Eq, Debug)]
pub struct Player {
    pub name: String,
    pub health: i64,
    pub max_health: i64,
    pub attack: i64,
    pub defense: i64,
    pub speed: i64,
    pub facing_right: bool,
    pub hurt_timer: Timer,
}

impl Player {
    /// Stats within the world bound and a sound immunity timer. Health is
    /// unbounded below: hits may drive it arbitrarily negative.
    pub open spec fn wf(self) -> bool {
        &&& in_world(self.attack as int)
        &&& in_world(self.defense as int)
        &&& 0 <= self.speed <= WORLD_LIMIT
        &&& self.hurt_timer.wf()
    }
}

/// The keys read each frame: just-pressed attack keys and held arrows.
#[derive(Clone, Copy, PartialEq, Eq, Structural, Debug)]
pub struct PlayerInput {
    pub attack_just_pressed: bool,
    pub charge_attack_just_pressed: bool,
    pub right_held: bool,
    pub left_held: bool,
}

/// Whether a player in this state may walk or jump: not while swinging or
/// flinching.
pub fn can_move(state: &CharacterState) -> (r: bool)
    ensures
        r == !(state is Attacking || state is ChargeAttacking || state is Hurt),
{
    match state {
        CharacterState::Attacking => false,
        CharacterState::ChargeAttacking => false,
        CharacterState::Hurt => false,
        _ => true,
    }
}

/// Turn one frame of key presses into motion and staged attacks. An attack
/// key staged outside a jump or another swing starts that swing (the
/// charged one wins if both are pressed); holding an arrow while free to
/// move walks at full speed and faces that way; otherwise the player
/// halts. The sprite is mirrored to match the facing.
pub fn process_player_input(
    controller: &mut AnimationController,
    player: &mut Player,
    scale_x: &mut i64,
    physics: &mut Physics,
    input: PlayerInput,
)
    requires
        old(player).wf(),
        in_world(*old(scale_x) as int),
    ensures
        final(player).wf(),
        ({
            let state = old(controller).spec_current_state();
            let movable = !(state is Attacking || state is ChargeAttacking || state is Hurt);
            let starts_attack = input.attack_just_pressed && !(state is Attacking)
                && !(state is ChargeAttacking) && !(state is Jumping);
            let starts_charge = input.charge_attack_just_pressed && !(state is ChargeAttacking)
                && !(state is Attacking) && !(state is Jumping);
            let facing = if movable && input.right_held {
                true
            } else if movable && !input.right_held && input.left_held {
                false
            } else {
                old(player).facing_right
            };
            let magnitude = if *old(scale_x) >= 0 {
                *old(scale_x) as int
            } else {
                -*old(scale_x) as int
            };
            &&& final(controller).spec_current_state() == state
            &&& final(controller).spec_next_state() == if starts_charge {
                Some(CharacterState::ChargeAttacking)
            } else if starts_attack {
                Some(CharacterState::Attacking)
            } else {
                old(controller).spec_next_state()
            }
            &&& *final(player) == (Player { facing_right: facing, ..*old(player) })
            &&& final(physics).velocity.x == if movable && input.right_held {
                old(player).speed as int
            } else if movable && !input.right_held && input.left_held {
                -old(player).speed as int
            } else {
                0int
            }
            &&& final(physics).velocity.y == old(physics).velocity.y
            &&& final(physics).acceleration == old(physics).acceleration
            &&& final(physics).on_ground == old(physics).on_ground
            &&& final(physics).gravity_scale == old(physics).gravity_scale
            &&& *final(scale_x) == if facing {
                magnitude
            } else {
                -magnitude
            }
        }),
{
    let current_state = controller.get_current_state();
    let can_move_now = can_move(&current_state);

    if input.attack_just_pressed && current_state != CharacterState::Attacking && current_state
        != CharacterState::ChargeAttacking && current_state != CharacterState::Jumping {
        controller.change_state(CharacterState::Attacking);
    }
    if input.charge_attack_just_pressed && current_state != CharacterState::ChargeAttacking
        && current_state != CharacterState::Attacking && current_state != CharacterState::Jumping {
        controller.change_state(CharacterState::ChargeAttacking);
    }

    if can_move_now {
        if input.right_held {
            player.facing_right = true;
            physics.velocity.x = player.speed;
        } else if input.left_held {
            player.facing_right = false;
            physics.velocity.x = -player.speed;
        } else {
            physics.velocity.x = 0;
        }
    } else {
        physics.velocity.x = 0;
    }

    let magnitude: i64 = if *scale_x >= 0 {
        *scale_x
    } else {
        -*scale_x
    };
    *scale_x = if player.facing_right {
        magnitude
    } else {
        -magnitude
    };
}

/// Jump off the ground: a grounded player free to move leaps with the full
/// jump force when the jump key goes down.
pub fn player_jump(
    physics: &mut Physics,
    controller: &AnimationController,
    jump_just_pressed: bool,
)
    ensures
        ({
            let state = controller.spec_current_state();
            let movable = !(state is Attacking || state is ChargeAttacking || state is Hurt);
            if jump_just_pressed && old(physics).on_ground && movable {
                *final(physics) == (Physics {
                    velocity: Vec2i { x: old(physics).velocity.x, y: PLAYER_JUMP_FORCE },
                    on_ground: false,
                    ..*old(physics)
                })
            } else {
                *final(physics) == *old(physics)
            }
        }),
{
    let current_state = controller.get_current_state();
    let can_jump = can_move(&current_state);
    if jump_just_pressed && physics.on_ground && can_jump {
        physics.velocity.y = PLAYER_JUMP_FORCE;
        physics.on_ground = false;
    }
}

/// Pick the animation the player's motion calls for. A finished flinch
/// goes back to idle; a running swing or flinch keeps its animation;
/// otherwise rising plays the jump, falling plays the fall, standing plays
/// idle and walking plays the run.
pub fn update_animations(
    controller: &mut AnimationController,
    physics: &Physics,
    player: &Player,
)
    ensures
        ({
            let state = old(controller).spec_current_state();
            if state is Hurt && player.hurt_timer.spec_finished() {
                staged(*old(controller), *final(controller), CharacterState::Idle)
            } else if state is Attacking || state is ChargeAttacking || state is Hurt {
                *final(controller) == *old(controller)
            } else if !physics.on_ground && physics.velocity.y < 0 {
                staged(*old(controller), *final(controller), CharacterState::Falling)
            } else if !physics.on_ground {
                staged(*old(controller), *final(controller), CharacterState::Jumping)
            } else if -PLAYER_IDLE_SPEED_THRESHOLD < physics.velocity.x
                < PLAYER_IDLE_SPEED_THRESHOLD {
                staged(*old(controller), *final(controller), CharacterState::Idle)
            } else {
                staged(*old(controller), *final(controller), CharacterState::Running)
            }
        }),
{
    let current_state = controller.get_current_state();

    if current_state == CharacterState::Hurt && player.hurt_timer.finished() {
        controller.change_state(CharacterState::Idle);
        return ;
    }
    if current_state == CharacterState::Attacking || current_state == CharacterState::ChargeAttacking
        || current_state == CharacterState::Hurt {
        return ;
    }
    if !physics.on_ground && physics.velocity.y < 0 {
        controller.change_state(CharacterState::Falling);
    } else if !physics.on_ground {
        controller.change_state(CharacterState::Jumping);
    } else if physics.velocity.x > -PLAYER_IDLE_SPEED_THRESHOLD && physics.velocity.x
        < PLAYER_IDLE_SPEED_THRESHOLD {
        if current_state != CharacterState::Idle {
            controller.change_state(CharacterState::Idle);
        }
    } else {
        if current_state != CharacterState::Running {
            controller.change_state(CharacterState::Running);
        }
    }
}

/// The swing hitbox the player should spawn on this animation frame, if
/// any: one frame into the wind-up of each swing, and only once per swing.
/// The charged swing is wider and deals double damage. The returned offset
/// places the hitbox in front of the player, which faces right.
pub fn update_attack_hitbox(
    state: CharacterState,
    current_frame: usize,
    attack: i64,
    has_active_hitbox: bool,
) -> (r: Option<(AttackHitbox, Vec2i)>)
    requires
        0 <= attack <= WORLD_LIMIT,
    ensures
        ({
            let wind_up = (state is Attacking && current_frame == 3) || (state is ChargeAttacking
                && current_frame == 4);
            if !has_active_hitbox && wind_up {
                let size = if state is Attacking {
                    Vec2i { x: PLAYER_ATTACK_HITBOX_SIZE_X, y: PLAYER_ATTACK_HITBOX_SIZE_Y }
                } else {
                    Vec2i {
                        x: PLAYER_CHARGE_ATTACK_HITBOX_SIZE_X,
                        y: PLAYER_CHARGE_ATTACK_HITBOX_SIZE_Y,
                    }
                };
                let damage = if state is Attacking {
                    attack as int
                } else {
                    2 * attack
                };
                let offset_x = size.x * PLAYER_ATTACK_HITBOX_OFFSET_PERMILLE / 1000;
                r matches Some(spawned) && spawned.0 == (AttackHitbox {
                    damage: damage as i64,
                    active: true,
                    size,
                    timer: Timer {
                        elapsed_ms: 0,
                        duration_ms: PLAYER_ATTACK_HITBOX_DURATION_MS,
                        mode: TimerMode::Once,
                        finished_this_tick: false,
                    },
                }) && spawned.1 == (Vec2i { x: offset_x as i64, y: 0 })
            } else {
                r is None
            }
        }),
{
    let is_attacking = match state {
        CharacterState::Attacking | CharacterState::ChargeAttacking => true,
        _ => false,
    };
    if !is_attacking || has_active_hitbox {
        return None;
    }
    let wind_up = match state {
        CharacterState::Attacking => current_frame == 3,
        CharacterState::ChargeAttacking => current_frame == 4,
        _ => false,
    };
    if !wind_up {
        return None;
    }
    let (size, damage) = if let CharacterState::Attacking = state {
        (Vec2i { x: PLAYER_ATTACK_HITBOX_SIZE_X, y: PLAYER_ATTACK_HITBOX_SIZE_Y }, attack)
    } else {
        (
            Vec2i { x: PLAYER_CHARGE_ATTACK_HITBOX_SIZE_X, y: PLAYER_CHARGE_ATTACK_HITBOX_SIZE_Y },
            2 * attack,
        )
    };
    let offset_x = scale_permille(size.x, PLAYER_ATTACK_HITBOX_OFFSET_PERMILLE);
    Some(
        (
            AttackHitbox {
                damage,
                active: true,
                size,
                timer: Timer::new(PLAYER_ATTACK_HITBOX_DURATION_MS, TimerMode::Once),
            },
            Vec2i { x: offset_x, y: 0 },
        ),
    )
}

/// Resolve the enemies' swings against the player. The immunity timer runs
/// first, and while it runs nothing can hurt the player. Then the first
/// live attack hitbox overlapping the player's body lands: damage past the
/// player's defense comes off its health, the player flinches, and the
/// immunity spell restarts. A swing the defense absorbs leaves the player
/// untouched. At most one hit lands per frame.
pub fn handle_damage(
    player: &mut Player,
    controller: &mut AnimationController,
    collision: Option<(Vec2i, Vec2i)>,
    attacks: &Vec<AttackContact>,
    delta_ms: u32,
)
    requires
        old(player).wf(),
        in_world(old(player).health as int),
        forall|i: int| 0 <= i < attacks@.len() ==> in_world(
            (#[trigger] attacks@[i]).damage as int,
        ),
    ensures
        final(player).wf(),
        ({
            let ticked = old(player).hurt_timer.spec_tick(delta_ms);
            if !ticked.spec_finished() || collision is None {
                &&& *final(player) == (Player { hurt_timer: ticked, ..*old(player) })
                &&& *final(controller) == *old(controller)
            } else {
                collision matches Some((box_pos, box_size)) ==> match first_strike(
                    attacks@,
                    box_pos,
                    box_size,
                ) {
                    Some(strike) => {
                        let damage = strike.damage - old(player).defense;
                        if damage > 0 {
                            &&& *final(player) == (Player {
                                health: (old(player).health - damage) as i64,
                                hurt_timer: Timer {
                                    elapsed_ms: 0,
                                    finished_this_tick: false,
                                    ..ticked
                                },
                                ..*old(player)
                            })
                            &&& staged(*old(controller), *final(controller), CharacterState::Hurt)
                        } else {
                            &&& *final(player) == (Player { hurt_timer: ticked, ..*old(player) })
                            &&& *final(controller) == *old(controller)
                        }
                    },
                    None => *final(player) == (Player { hurt_timer: ticked, ..*old(player) })
                        && *final(controller) == *old(controller),
                }
            }
        }),
{
    player.hurt_timer.tick(delta_ms);
    if !player.hurt_timer.finished() {
        return ;
    }
    let (box_pos, box_size) = match collision {
        Some(data) => data,
        None => {
            return ;
        },
    };
    match find_first_strike(attacks, box_pos, box_size) {
        Some(strike) => {
            proof {
                crate::hitbox::lemma_first_strike_member(attacks@, box_pos, box_size);
                let i = choose|i: int| 0 <= i < attacks@.len() && attacks@[i] == strike;
                assert(in_world(attacks@[i].damage as int));
            }
            let damage = strike.damage - player.defense;
            if damage > 0 {
                player.health = player.health - damage;
                controller.change_state(CharacterState::Hurt);
                player.hurt_timer.reset();
            }
        },
        None => {},
    }
}

/// Everything a freshly spawned player consists of. Scales are in
/// thousandths; a negative horizontal scale mirrors the sprite to face
/// left.
#[derive(Clone, PartialEq, Eq, Debug)]
pub struct SpawnedPlayer {
    pub player: Player,
    pub physics: Physics,
    pub position: Vec2i,
    pub scale: Vec2i,
    pub controller: AnimationController,
    pub animations: CharacterAnimations,
    pub animation: CurrentAnimation,
    pub collision: CollisionHitbox,
    pub collision_offset: Vec2i,
}


/// The hero's animation table: a ping-pong idle, the two swings, run,
/// jump, flinch and fall.
pub open spec fn spec_player_animation_set() -> Seq<AnimationData> {
    seq![
        AnimationData {
            state: CharacterState::Idle,
            frames: PLAYER_IDLE_FRAMES,
            frame_ms: PLAYER_IDLE_FRAME_MS,
            looping: true,
            ping_pong: true,
        },
        AnimationData {
            state: CharacterState::Attacking,
            frames: PLAYER_ATTACK_FRAMES,
            frame_ms: PLAYER_ATTACK_FRAME_MS,
            looping: false,
            ping_pong: false,
        },
        AnimationData {
            state: CharacterState::ChargeAttacking,
            frames: PLAYER_CHARGE_ATTACK_FRAMES,
            frame_ms: PLAYER_CHARGE_ATTACK_FRAME_MS,
            looping: false,
            ping_pong: false,
        },
        AnimationData {
            state: CharacterState::Running,
            frames: PLAYER_RUN_FRAMES,
            frame_ms: PLAYER_RUN_FRAME_MS,
            looping: true,
            ping_pong: false,
        },
        AnimationData {
            state: CharacterState::Jumping,
            frames: PLAYER_JUMP_FRAMES,
            frame_ms: PLAYER_JUMP_FRAME_MS,
            looping: true,
            ping_pong: false,
        },
        AnimationData {
            state: CharacterState::Hurt,
            frames: PLAYER_HURT_FRAMES,
            frame_ms: PLAYER_HURT_FRAME_MS,
            looping: false,
            ping_pong: false,
        },
        AnimationData {
            state: CharacterState::Falling,
            frames: PLAYER_FALL_FRAMES,
            frame_ms: PLAYER_FALL_FRAME_MS,
            looping: true,
            ping_pong: false,
        },
    ]
}

/// Build the hero's animation table.
pub fn player_animation_set() -> (r: CharacterAnimations)
    ensures
        r.animations@ =~= spec_player_animation_set(),
        r.wf(),
{
    let animations = vec![
        AnimationData {
            state: CharacterState::Idle,
            frames: PLAYER_IDLE_FRAMES,
            frame_ms: PLAYER_IDLE_FRAME_MS,
            looping: true,
            ping_pong: true,
        },
        AnimationData {
            state: CharacterState::Attacking,
            frames: PLAYER_ATTACK_FRAMES,
            frame_ms: PLAYER_ATTACK_FRAME_MS,
            looping: false,
            ping_pong: false,
        },
        AnimationData {
            state: CharacterState::ChargeAttacking,
            frames: PLAYER_CHARGE_ATTACK_FRAMES,
            frame_ms: PLAYER_CHARGE_ATTACK_FRAME_MS,
            looping: false,
            ping_pong: false,
        },
        AnimationData {
            state: CharacterState::Running,
            frames: PLAYER_RUN_FRAMES,
            frame_ms: PLAYER_RUN_FRAME_MS,
            looping: true,
            ping_pong: false,
        },
        AnimationData {
            state: CharacterState::Jumping,
            frames: PLAYER_JUMP_FRAMES,
            frame_ms: PLAYER_JUMP_FRAME_MS,
            looping: true,
            ping_pong: false,
        },
        AnimationData {
            state: CharacterState::Hurt,
            frames: PLAYER_HURT_FRAMES,
            frame_ms: PLAYER_HURT_FRAME_MS,
            looping: false,
            ping_pong: false,
        },
        AnimationData {
            state: CharacterState::Falling,
            frames: PLAYER_FALL_FRAMES,
            frame_ms: PLAYER_FALL_FRAME_MS,
            looping: true,
            ping_pong: false,
        },
    ];
    CharacterAnimations { animations }
}

/// Build the hero's starting loadout: full health, at rest on the ground
/// at the world's centre four hundred pixels up, facing right, scaled by
/// the pixel ratio, with a fresh idle animation and a body box of
/// forty-five scaled pixels hanging five pixels low.
pub fn setup_player(pixel_ratio_permille: i64) -> (r: SpawnedPlayer)
    requires
        0 <= pixel_ratio_permille <= 100_000,
    ensures
        r.player.name@ == "Hero"@,
        r.player.health == PLAYER_INITIAL_HEALTH,
        r.player.max_health == PLAYER_MAX_HEALTH,
        r.player.attack == PLAYER_ATTACK,
        r.player.defense == PLAYER_DEFENSE,
        r.player.speed == PLAYER_SPEED,
        r.player.facing_right,
        r.player.hurt_timer == (Timer {
            elapsed_ms: 0,
            duration_ms: PLAYER_HURT_IMMUNITY_MS,
            mode: TimerMode::Once,
            finished_this_tick: false,
        }),
        r.physics == (Physics {
            velocity: Vec2i { x: 0, y: 0 },
            acceleration: Vec2i { x: 0, y: 0 },
            on_ground: true,
            gravity_scale: 1,
        }),
        r.position == (Vec2i { x: 0, y: PLAYER_SPAWN_Y }),
        r.scale == (Vec2i { x: pixel_ratio_permille, y: pixel_ratio_permille }),
        r.controller.spec_current_state() is Idle,
        r.controller.spec_next_state() is None,
        r.animations.animations@ =~= spec_player_animation_set(),
        r.animation == (CurrentAnimation {
            current_frame: 0,
            timer: Timer {
                elapsed_ms: 0,
                duration_ms: 10,
                mode: TimerMode::Repeating,
                finished_this_tick: false,
            },
            total_frames: PLAYER_IDLE_FRAMES,
            looping: true,
            reverse_direction: false,
        }),
        r.collision == (CollisionHitbox {
            active: true,
            size: Vec2i {
                x: (PLAYER_COLLISION_SIZE_X * pixel_ratio_permille / 1000) as i64,
                y: (PLAYER_COLLISION_SIZE_Y * pixel_ratio_permille / 1000) as i64,
            },
        }),
        r.collision_offset == (Vec2i { x: 0, y: (-(5 * SUBPIXELS_PER_PIXEL)) as i64 }),
        r.player.wf(),
        r.physics.wf(),
        r.animation.wf(),
        r.animations.wf(),
{
    SpawnedPlayer {
        player: Player {
            name: "Hero".to_string(),
            health: PLAYER_INITIAL_HEALTH,
            max_health: PLAYER_MAX_HEALTH,
            attack: PLAYER_ATTACK,
            defense: PLAYER_DEFENSE,
            speed: PLAYER_SPEED,
            facing_right: true,
            hurt_timer: Timer::new(PLAYER_HURT_IMMUNITY_MS, TimerMode::Once),
        },
        physics: Physics {
            velocity: Vec2i { x: 0, y: 0 },
            acceleration: Vec2i { x: 0, y: 0 },
            on_ground: true,
            gravity_scale: 1,
        },
        position: Vec2i { x: 0, y: PLAYER_SPAWN_Y },
        scale: Vec2i { x: pixel_ratio_permille, y: pixel_ratio_permille },
        controller: AnimationController::default(),
        animations: player_animation_set(),
        animation: CurrentAnimation {
            current_frame: 0,
            timer: Timer::new(10, TimerMode::Repeating),
            total_frames: PLAYER_IDLE_FRAMES,
            looping: true,
            reverse_direction: false,
        },
        collision: CollisionHitbox {
            active: true,
            size: Vec2i {
                x: scale_permille(PLAYER_COLLISION_SIZE_X, pixel_ratio_permille),
                y: scale_permille(PLAYER_COLLISION_SIZE_Y, pixel_ratio_permille),
            },
        },
        collision_offset: Vec2i { x: 0, y: -5 * SUBPIXELS_PER_PIXEL },
    }
}

} // verus!
