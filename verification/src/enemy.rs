//! Skeleton enemies: their stats, spawning, chase-and-attack behaviour,
//! attack hitboxes, damage intake, knockback, death and respawn counting.

use vstd::prelude::*;

use crate::animations::{
    staged, AnimationController, AnimationData, CharacterAnimations, CharacterState,
    CurrentAnimation,
};
use crate::hitbox::{first_strike, find_first_strike, AttackContact};
use crate::physics::Physics;
use crate::timer::{Timer, TimerMode};
use crate::utils::{
    dist_sq, in_world, lemma_mul_le, scale_permille, Vec2i, SPEED_UNITS_PER_PIXEL_PER_SECOND,
    SUBPIXELS_PER_PIXEL, WORLD_LIMIT,
};

verus! {

pub const ENEMY_INITIAL_HEALTH: i64 = 200;

pub const ENEMY_MAX_HEALTH: i64 = 50;

pub const ENEMY_ATTACK: i64 = 10;

pub const ENEMY_DEFENSE: i64 = 5;

/// Chase speed, in velocity units.
pub const ENEMY_SPEED: i64 = 150 * SPEED_UNITS_PER_PIXEL_PER_SECOND;

/// Reach within which the enemy attacks instead of chasing, in subpixels.
pub const ENEMY_ATTACK_RANGE: i64 = 146 * SUBPIXELS_PER_PIXEL;

/// Reach within which the enemy notices the player, in subpixels.
pub const ENEMY_DETECTION_RANGE: i64 = 400 * SUBPIXELS_PER_PIXEL;

pub const ENEMY_COLLISION_SIZE_X: i64 = 32 * SUBPIXELS_PER_PIXEL;

pub const ENEMY_COLLISION_SIZE_Y: i64 = 32 * SUBPIXELS_PER_PIXEL;

pub const ENEMY_ATTACK_HITBOX_SIZE_X: i64 = 73 * SUBPIXELS_PER_PIXEL;

pub const ENEMY_ATTACK_HITBOX_SIZE_Y: i64 = 30 * SUBPIXELS_PER_PIXEL;

pub const ENEMY_CHARGE_ATTACK_HITBOX_SIZE_X: i64 = 78 * SUBPIXELS_PER_PIXEL;

pub const ENEMY_CHARGE_ATTACK_HITBOX_SIZE_Y: i64 = 30 * SUBPIXELS_PER_PIXEL;

/// How long a swing's hitbox stays spawned, in milliseconds.
pub const ENEMY_ATTACK_HITBOX_DURATION_MS: u32 = 100;

/// How far in front of the enemy its hitbox sits, in thousandths of the
/// hitbox width.
pub const ENEMY_ATTACK_HITBOX_OFFSET_PERMILLE: i64 = 600;

pub const ENEMY_DEATH_TIMER_MS: u32 = 3000;

pub const ENEMY_HURT_TIMER_MS: u32 = 300;

pub const ENEMY_DESIRED_COUNT: usize = 2;

/// Where an enemy appears relative to the camera, in subpixels.
pub const ENEMY_SPAWN_OFFSET_X: i64 = 450 * SUBPIXELS_PER_PIXEL;

/// Height of the spawn point over the ground line, in pixels.
pub const ENEMY_SPAWN_OFFSET_Y: i64 = 90;

/// Sprite scale of an enemy, in thousandths.
pub const ENEMY_SCALE_FACTOR_PERMILLE: i64 = 2000;

/// Distance from the enemy's centre down to its feet: half a pixel, in
/// subpixels.
pub const ENEMY_FEET_OFFSET: i64 = 500_000;

/// Knockback speed away from a hit, in velocity units.
pub const ENEMY_KNOCKBACK_SPEED_X: i64 = 2150 * SPEED_UNITS_PER_PIXEL_PER_SECOND;

pub const ENEMY_KNOCKBACK_SPEED_Y: i64 = 120 * SPEED_UNITS_PER_PIXEL_PER_SECOND;

pub const ENEMY_IDLE_FRAMES: usize = 8;

pub const ENEMY_ATTACK_FRAMES: usize = 23;

pub const ENEMY_MOVE_FRAMES: usize = 10;

pub const ENEMY_HURT_FRAMES: usize = 3;

pub const ENEMY_DIE_FRAMES: usize = 24;

/// Frame periods in milliseconds: fourteen frames a second for most
/// animations, ten for the hurt flinch, each rounded down to the
/// millisecond.
pub const ENEMY_IDLE_FRAME_MS: u32 = 71;

pub const ENEMY_ATTACK_FRAME_MS: u32 = 71;

pub const ENEMY_MOVE_FRAME_MS: u32 = 71;

pub const ENEMY_HURT_FRAME_MS: u32 = 100;

pub const ENEMY_DIE_FRAME_MS: u32 = 71;

/// Horizontal speed below which an enemy counts as standing still, in
/// velocity units.
pub const ENEMY_IDLE_SPEED_THRESHOLD: i64 = 100;

/// How far a dead enemy sinks each frame, in subpixels.
pub const ENEMY_SINK_PER_FRAME: i64 = 5 * SUBPIXELS_PER_PIXEL;

/// Enemies die when they fall out of the world past this x, in subpixels.
pub const ENEMY_OUT_OF_BOUNDS_X: i64 = -1000 * SUBPIXELS_PER_PIXEL;

/// Combat stats and lifecycle timers of one enemy.
#[derive(Clone, Copy, PartialEq, Eq, Structural, Debug)]
pub struct Enemy {
    pub health: i64,
    pub max_health: i64,
    pub attack: i64,
    pub defense: i64,
    pub speed: i64,
    pub attack_range: i64,
    pub detection_range: i64,
    pub facing_right: bool,
    pub is_dead: bool,
    pub death_timer: Timer,
    pub hurt_timer: Timer,
}

impl Enemy {
    /// Stats within the world bound and sound timers. Health is unbounded
    /// below: hits may drive it arbitrarily negative.
    pub open spec fn wf(self) -> bool {
        &&& in_world(self.attack as int)
        &&& in_world(self.defense as int)
        &&& 0 <= self.speed <= WORLD_LIMIT
        &&& 0 <= self.attack_range <= WORLD_LIMIT
        &&& 0 <= self.detection_range <= WORLD_LIMIT
        &&& self.death_timer.wf()
        &&& self.hurt_timer.wf()
    }
}

/// A spawned swing: damage-dealing for as long as its timer runs.
#[derive(Clone, Copy, PartialEq, Eq, Structural, Debug)]
pub struct AttackHitbox {
    pub damage: i64,
    pub active: bool,
    pub size: Vec2i,
    pub timer: Timer,
}

/// The body of a character, hit-testable while active.
#[derive(Clone, Copy, PartialEq, Eq, Structural, Debug)]
pub struct CollisionHitbox {
    pub active: bool,
    pub size: Vec2i,
}

/// How many enemies exist and how many the game keeps alive.
#[derive(Clone, Copy, PartialEq, Eq, Structural, Debug)]
pub struct EnemyCounter {
    pub current_count: usize,
    pub desired_count: usize,
    pub initial_spawn_done: bool,
}

impl Default for EnemyCounter {
    fn default() -> (r: Self)
        ensures
            r == (EnemyCounter {
                current_count: 0,
                desired_count: ENEMY_DESIRED_COUNT,
                initial_spawn_done: false,
            }),
    {
        Self {
            current_count: 0,
            desired_count: ENEMY_DESIRED_COUNT,
            initial_spawn_done: false,
        }
    }
}

/// The one-time opening spawn: the first time this runs it asks for the
/// full desired head count and marks the opening spawn done; afterwards it
/// asks for none.
pub fn initial_enemy_spawn(counter: &mut EnemyCounter) -> (to_spawn: usize)
    requires
        old(counter).current_count + old(counter).desired_count <= usize::MAX,
    ensures
        old(counter).initial_spawn_done ==> *final(counter) == *old(counter) && to_spawn == 0,
        !old(counter).initial_spawn_done ==> *final(counter) == (EnemyCounter {
            current_count: (old(counter).current_count + old(counter).desired_count) as usize,
            desired_count: old(counter).desired_count,
            initial_spawn_done: true,
        }) && to_spawn == old(counter).desired_count,
{
    if counter.initial_spawn_done {
        return 0;
    }
    let to_spawn = counter.desired_count;
    counter.current_count = counter.current_count + to_spawn;
    counter.initial_spawn_done = true;
    to_spawn
}

/// Top up the population: asks for as many enemies as are missing from the
/// desired head count and counts them as alive.
pub fn respawn_enemies(counter: &mut EnemyCounter) -> (to_spawn: usize)
    ensures
        final(counter).desired_count == old(counter).desired_count,
        final(counter).initial_spawn_done == old(counter).initial_spawn_done,
        old(counter).current_count < old(counter).desired_count ==> final(counter).current_count
            == old(counter).desired_count && to_spawn == old(counter).desired_count - old(
            counter,
        ).current_count,
        old(counter).current_count >= old(counter).desired_count ==> *final(counter) == *old(
            counter,
        ) && to_spawn == 0,
{
    if counter.current_count < counter.desired_count {
        let to_spawn = counter.desired_count - counter.current_count;
        counter.current_count = counter.desired_count;
        to_spawn
    } else {
        0
    }
}

/// Whether an enemy in this state may walk: not while it swings or flinches.
pub fn can_enemy_move(state: &CharacterState) -> (r: bool)
    ensures
        r == !(state is Attacking || state is ChargeAttacking || state is Hurt),
{
    match state {
        CharacterState::Attacking | CharacterState::ChargeAttacking | CharacterState::Hurt => false,
        _ => true,
    }
}

/// Run a flinching enemy's hurt timer; when the flinch is over and the
/// enemy still lives, it goes back to idle with the timer rewound.
pub fn update_enemy_states(
    enemy: &mut Enemy,
    controller: &mut AnimationController,
    delta_ms: u32,
)
    requires
        old(enemy).wf(),
    ensures
        final(enemy).wf(),
        ({
            let ticked = old(enemy).hurt_timer.spec_tick(delta_ms);
            if old(controller).spec_current_state() is Hurt {
                if ticked.spec_finished() && !old(enemy).is_dead {
                    &&& *final(enemy) == (Enemy {
                        hurt_timer: Timer {
                            elapsed_ms: 0,
                            finished_this_tick: false,
                            ..ticked
                        },
                        ..*old(enemy)
                    })
                    &&& staged(*old(controller), *final(controller), CharacterState::Idle)
                } else {
                    &&& *final(enemy) == (Enemy { hurt_timer: ticked, ..*old(enemy) })
                    &&& *final(controller) == *old(controller)
                }
            } else {
                *final(enemy) == *old(enemy) && *final(controller) == *old(controller)
            }
        }),
{
    if controller.get_current_state() == CharacterState::Hurt {
        enemy.hurt_timer.tick(delta_ms);
        if enemy.hurt_timer.finished() {
            if !enemy.is_dead {
                controller.change_state(CharacterState::Idle);
                enemy.hurt_timer.reset();
            }
        }
    }
}

/// The swing hitbox an attacking character should spawn on this animation
/// frame, if any: only while attacking, only once at a time, and only on
/// the wind-up frames of the swing. The charged swing is wider and deals
/// double damage. The returned offset places the hitbox in front of the
/// enemy, which faces left.
pub fn update_attack_hitbox(
    state: CharacterState,
    current_frame: usize,
    attack: i64,
    has_active_hitbox: bool,
) -> (r: Option<(AttackHitbox, Vec2i)>)
    requires
        0 <= attack <= WORLD_LIMIT,
    ensures
        ({
            let is_attacking = state is Attacking || state is ChargeAttacking;
            let wind_up = current_frame == 4 || (13 <= current_frame < 16);
            if is_attacking && !has_active_hitbox && wind_up {
                let size = if state is Attacking {
                    Vec2i { x: ENEMY_ATTACK_HITBOX_SIZE_X, y: ENEMY_ATTACK_HITBOX_SIZE_Y }
                } else {
                    Vec2i {
                        x: ENEMY_CHARGE_ATTACK_HITBOX_SIZE_X,
                        y: ENEMY_CHARGE_ATTACK_HITBOX_SIZE_Y,
                    }
                };
                let damage = if state is Attacking {
                    attack as int
                } else {
                    2 * attack
                };
                let offset_x = size.x * ENEMY_ATTACK_HITBOX_OFFSET_PERMILLE / 1000;
                r matches Some(spawned) && spawned.0 == (AttackHitbox {
                    damage: damage as i64,
                    active: true,
                    size,
                    timer: Timer {
                        elapsed_ms: 0,
                        duration_ms: ENEMY_ATTACK_HITBOX_DURATION_MS,
                        mode: TimerMode::Once,
                        finished_this_tick: false,
                    },
                }) && spawned.1 == (Vec2i { x: (-offset_x) as i64, y: 0 })
            } else {
                r is None
            }
        }),
{
    let is_attacking = match state {
        CharacterState::Attacking | CharacterState::ChargeAttacking => true,
        _ => false,
    };
    if !is_attacking || has_active_hitbox {
        return None;
    }
    let wind_up = current_frame == 4 || (13 <= current_frame && current_frame < 16);
    if !wind_up {
        return None;
    }
    let (size, damage) = if let CharacterState::Attacking = state {
        (Vec2i { x: ENEMY_ATTACK_HITBOX_SIZE_X, y: ENEMY_ATTACK_HITBOX_SIZE_Y }, attack)
    } else {
        (
            Vec2i { x: ENEMY_CHARGE_ATTACK_HITBOX_SIZE_X, y: ENEMY_CHARGE_ATTACK_HITBOX_SIZE_Y },
            2 * attack,
        )
    };
    let offset_x = scale_permille(size.x, ENEMY_ATTACK_HITBOX_OFFSET_PERMILLE);
    Some(
        (
            AttackHitbox {
                damage,
                active: true,
                size,
                timer: Timer::new(ENEMY_ATTACK_HITBOX_DURATION_MS, TimerMode::Once),
            },
            Vec2i { x: -offset_x, y: 0 },
        ),
    )
}

/// Run a spawned swing's lifetime; an expired swing goes inert and is to
/// be despawned.
pub fn expire_attack_hitbox(hitbox: &mut AttackHitbox, delta_ms: u32) -> (expired: bool)
    requires
        old(hitbox).timer.wf(),
    ensures
        ({
            let ticked = old(hitbox).timer.spec_tick(delta_ms);
            &&& final(hitbox).timer == ticked
            &&& expired == ticked.spec_finished()
            &&& final(hitbox).active == (if ticked.spec_finished() {
                false
            } else {
                old(hitbox).active
            })
            &&& final(hitbox).damage == old(hitbox).damage
            &&& final(hitbox).size == old(hitbox).size
        }),
{
    hitbox.timer.tick(delta_ms);
    if hitbox.timer.finished() {
        hitbox.active = false;
        true
    } else {
        false
    }
}

/// Chase-and-attack decision for one enemy, against the player's position.
/// A dead enemy stands still. A player inside the detection range turns the
/// enemy toward it (flipping the sprite scale when the side changes), and
/// then: inside attack range the enemy halts and swings; otherwise, if it
/// may walk, it runs toward the player at full speed; otherwise it halts.
/// A player out of range leaves the enemy standing idle.
pub fn update_enemy_movement(
    enemy: &mut Enemy,
    position: Vec2i,
    scale_x: &mut i64,
    physics: &mut Physics,
    controller: &mut AnimationController,
    player_position: Vec2i,
)
    requires
        old(enemy).wf(),
        position.wf(),
        player_position.wf(),
        in_world(*old(scale_x) as int),
    ensures
        final(enemy).wf(),
        ({
            let state = old(controller).spec_current_state();
            let d2 = dist_sq(position, player_position);
            let movable = !(state is Attacking || state is ChargeAttacking || state is Hurt);
            if old(enemy).is_dead || state is Dead {
                &&& *final(enemy) == *old(enemy)
                &&& *final(scale_x) == *old(scale_x)
                &&& *final(physics) == (Physics {
                    velocity: Vec2i { x: 0, y: 0 },
                    ..*old(physics)
                })
                &&& *final(controller) == *old(controller)
            } else if d2 < old(enemy).detection_range * old(enemy).detection_range {
                let facing = player_position.x > position.x;
                let magnitude = if *old(scale_x) >= 0 {
                    *old(scale_x) as int
                } else {
                    -*old(scale_x) as int
                };
                &&& *final(enemy) == (Enemy { facing_right: facing, ..*old(enemy) })
                &&& *final(scale_x) == if facing != old(enemy).facing_right {
                    if facing {
                        -magnitude
                    } else {
                        magnitude
                    }
                } else {
                    *old(scale_x) as int
                }
                &&& if d2 < old(enemy).attack_range * old(enemy).attack_range {
                    &&& *final(physics) == (Physics {
                        velocity: Vec2i { x: 0, y: old(physics).velocity.y },
                        ..*old(physics)
                    })
                    &&& if movable {
                        staged(*old(controller), *final(controller), CharacterState::Attacking)
                    } else {
                        *final(controller) == *old(controller)
                    }
                } else if movable {
                    &&& *final(physics) == (Physics {
                        velocity: Vec2i {
                            x: (crate::utils::sign(player_position.x - position.x) * old(
                                enemy,
                            ).speed) as i64,
                            y: old(physics).velocity.y,
                        },
                        ..*old(physics)
                    })
                    &&& staged(*old(controller), *final(controller), CharacterState::Running)
                } else {
                    &&& *final(physics) == (Physics {
                        velocity: Vec2i { x: 0, y: old(physics).velocity.y },
                        ..*old(physics)
                    })
                    &&& *final(controller) == *old(controller)
                }
            } else {
                &&& *final(enemy) == *old(enemy)
                &&& *final(scale_x) == *old(scale_x)
                &&& *final(physics) == (Physics {
                    velocity: Vec2i { x: 0, y: old(physics).velocity.y },
                    ..*old(physics)
                })
                &&& if movable {
                    staged(*old(controller), *final(controller), CharacterState::Idle)
                } else {
                    *final(controller) == *old(controller)
                }
            }
        }),
{
    let current_state = controller.get_current_state();
    if enemy.is_dead || current_state == CharacterState::Dead {
        physics.velocity = Vec2i { x: 0, y: 0 };
        return ;
    }
    let in_detection = crate::utils::is_within_range_strict(
        position,
        player_position,
        enemy.detection_range,
    );
    let movable = can_enemy_move(&current_state);
    if in_detection {
        let old_facing = enemy.facing_right;
        enemy.facing_right = player_position.x > position.x;
        if old_facing != enemy.facing_right {
            let magnitude: i64 = if *scale_x >= 0 {
                *scale_x
            } else {
                -*scale_x
            };
            *scale_x = if enemy.facing_right {
                -magnitude
            } else {
                magnitude
            };
        }
        let in_attack = crate::utils::is_within_range_strict(
            position,
            player_position,
            enemy.attack_range,
        );
        if in_attack {
            physics.velocity.x = 0;
            if movable {
                controller.change_state(CharacterState::Attacking);
            }
        } else if movable {
            let direction = crate::utils::direction_vector(position, player_position);
            proof {
                lemma_mul_le(direction.x as int, enemy.speed as int, 1, WORLD_LIMIT as int);
            }
            physics.velocity.x = direction.x * enemy.speed;
            controller.change_state(CharacterState::Running);
        } else {
            physics.velocity.x = 0;
        }
    } else {
        physics.velocity.x = 0;
        if movable {
            controller.change_state(CharacterState::Idle);
        }
    }
}

/// Pick the animation an enemy's motion calls for. A dead enemy sinks
/// through the floor; a swinging or flinching enemy keeps its animation;
/// otherwise airborne plays the jump, standing plays idle and walking plays
/// the run.
pub fn update_enemy_animations(
    controller: &mut AnimationController,
    physics: &Physics,
    enemy: &Enemy,
    position_y: &mut i64,
)
    requires
        enemy.wf(),
        physics.wf(),
        in_world(*old(position_y) as int),
    ensures
        ({
            let state = old(controller).spec_current_state();
            if enemy.is_dead {
                *final(controller) == *old(controller) && *final(position_y) == *old(position_y)
                    - ENEMY_SINK_PER_FRAME
            } else if state is Attacking || state is Hurt {
                *final(controller) == *old(controller) && *final(position_y) == *old(position_y)
            } else {
                &&& *final(position_y) == *old(position_y)
                &&& if !physics.on_ground {
                    staged(*old(controller), *final(controller), CharacterState::Jumping)
                } else if -ENEMY_IDLE_SPEED_THRESHOLD < physics.velocity.x
                    < ENEMY_IDLE_SPEED_THRESHOLD {
                    staged(*old(controller), *final(controller), CharacterState::Idle)
                } else {
                    staged(*old(controller), *final(controller), CharacterState::Running)
                }
            }
        }),
{
    let current_state = controller.get_current_state();
    if enemy.is_dead {
        *position_y = *position_y - ENEMY_SINK_PER_FRAME;
        return ;
    }
    if current_state == CharacterState::Attacking || current_state == CharacterState::Hurt {
        return ;
    }
    if !physics.on_ground {
        controller.change_state(CharacterState::Jumping);
    } else if physics.velocity.x > -ENEMY_IDLE_SPEED_THRESHOLD && physics.velocity.x
        < ENEMY_IDLE_SPEED_THRESHOLD {
        if current_state != CharacterState::Idle {
            controller.change_state(CharacterState::Idle);
        }
    } else {
        if current_state != CharacterState::Running {
            controller.change_state(CharacterState::Running);
        }
    }
}

/// Resolve the player's swings against one enemy. The first live attack
/// hitbox overlapping the enemy's body lands: damage past the enemy's
/// defense comes off its health, the enemy flinches, and it is knocked
/// back and up off the ground, away from the hit. A swing the defense
/// absorbs leaves the enemy untouched. At most one hit lands per frame.
pub fn handle_damage(
    enemy: &mut Enemy,
    controller: &mut AnimationController,
    physics: &mut Physics,
    collision: Option<(Vec2i, Vec2i)>,
    attacks: &Vec<AttackContact>,
)
    requires
        old(enemy).wf(),
        in_world(old(enemy).health as int),
        forall|i: int| 0 <= i < attacks@.len() ==> in_world(
            (#[trigger] attacks@[i]).damage as int,
        ),
    ensures
        final(enemy).wf(),
        old(enemy).is_dead || collision is None ==> *final(enemy) == *old(enemy)
            && *final(controller) == *old(controller) && *final(physics) == *old(physics),
        collision matches Some((box_pos, box_size)) ==> !old(enemy).is_dead ==> match first_strike(
            attacks@,
            box_pos,
            box_size,
        ) {
            Some(strike) => {
                let damage = strike.damage - old(enemy).defense;
                if damage > 0 {
                    let direction: int = if strike.pos.x > box_pos.x {
                        -1
                    } else {
                        1
                    };
                    &&& *final(enemy) == (Enemy {
                        health: (old(enemy).health - damage) as i64,
                        ..*old(enemy)
                    })
                    &&& staged(*old(controller), *final(controller), CharacterState::Hurt)
                    &&& *final(physics) == (Physics {
                        velocity: Vec2i {
                            x: (direction * ENEMY_KNOCKBACK_SPEED_X) as i64,
                            y: (direction * ENEMY_KNOCKBACK_SPEED_Y) as i64,
                        },
                        on_ground: false,
                        ..*old(physics)
                    })
                } else {
                    *final(enemy) == *old(enemy) && *final(controller) == *old(controller)
                        && *final(physics) == *old(physics)
                }
            },
            None => *final(enemy) == *old(enemy) && *final(controller) == *old(controller)
                && *final(physics) == *old(physics),
        },
{
    if enemy.is_dead {
        return ;
    }
    let (box_pos, box_size) = match collision {
        Some(data) => data,
        None => {
            return ;
        },
    };
    match find_first_strike(attacks, box_pos, box_size) {
        Some(strike) => {
            proof {
                crate::hitbox::lemma_first_strike_member(attacks@, box_pos, box_size);
                let i = choose|i: int| 0 <= i < attacks@.len() && attacks@[i] == strike;
                assert(in_world(attacks@[i].damage as int));
            }
            let damage = strike.damage - enemy.defense;
            if damage > 0 {
                enemy.health = enemy.health - damage;
                controller.change_state(CharacterState::Hurt);
                let direction: i64 = if strike.pos.x > box_pos.x {
                    -1
                } else {
                    1
                };
                physics.velocity = Vec2i {
                    x: direction * ENEMY_KNOCKBACK_SPEED_X,
                    y: direction * ENEMY_KNOCKBACK_SPEED_Y,
                };
                physics.on_ground = false;
            }
        },
        None => {},
    }
}

/// Declare an enemy dead when its health is gone or it has fallen out of
/// the world: below half a window under the centre line, or far off to the
/// left. Death starts the despawn countdown and the death animation.
pub fn check_death(
    enemy: &mut Enemy,
    controller: &mut AnimationController,
    position: Vec2i,
    window_height: i64,
)
    requires
        old(enemy).wf(),
        0 <= window_height <= WORLD_LIMIT,
    ensures
        final(enemy).wf(),
        ({
            let dying = !old(enemy).is_dead && (old(enemy).health <= 0 || position.x
                < ENEMY_OUT_OF_BOUNDS_X || position.y < -(window_height / 2));
            if dying {
                &&& *final(enemy) == (Enemy {
                    is_dead: true,
                    death_timer: Timer {
                        elapsed_ms: 0,
                        duration_ms: ENEMY_DEATH_TIMER_MS,
                        mode: TimerMode::Once,
                        finished_this_tick: false,
                    },
                    ..*old(enemy)
                })
                &&& staged(*old(controller), *final(controller), CharacterState::Dead)
            } else {
                *final(enemy) == *old(enemy) && *final(controller) == *old(controller)
            }
        }),
{
    let death_threshold = -crate::utils::half(window_height);
    if !enemy.is_dead && (enemy.health <= 0 || position.x < ENEMY_OUT_OF_BOUNDS_X || position.y
        < death_threshold) {
        enemy.is_dead = true;
        controller.change_state(CharacterState::Dead);
        enemy.death_timer = Timer::new(ENEMY_DEATH_TIMER_MS, TimerMode::Once);
    }
}

/// Count one despawned dead enemy out of the population; reports whether
/// the despawn is due. A dead enemy's death timer runs here.
pub fn cleanup_dead_enemies(
    enemy: &mut Enemy,
    counter: &mut EnemyCounter,
    delta_ms: u32,
) -> (despawn: bool)
    requires
        old(enemy).wf(),
        old(enemy).is_dead ==> old(counter).current_count >= 1,
    ensures
        final(enemy).wf(),
        !old(enemy).is_dead ==> *final(enemy) == *old(enemy) && *final(counter) == *old(counter)
            && !despawn,
        old(enemy).is_dead ==> ({
            let ticked = old(enemy).death_timer.spec_tick(delta_ms);
            &&& *final(enemy) == (Enemy { death_timer: ticked, ..*old(enemy) })
            &&& despawn == ticked.spec_finished()
            &&& *final(counter) == if ticked.spec_finished() {
                EnemyCounter {
                    current_count: (old(counter).current_count - 1) as usize,
                    ..*old(counter)
                }
            } else {
                *old(counter)
            }
        }),
{
    if enemy.is_dead {
        enemy.death_timer.tick(delta_ms);
        if enemy.death_timer.finished() {
            counter.current_count = counter.current_count - 1;
            return true;
        }
    }
    false
}

/// Everything a freshly spawned enemy consists of. Scales are in
/// thousandths; a negative horizontal scale mirrors the sprite to face
/// right.
#[derive(Clone, PartialEq, Eq, Debug)]
pub struct SpawnedEnemy {
    pub enemy: Enemy,
    pub physics: Physics,
    pub position: Vec2i,
    pub scale: Vec2i,
    pub controller: AnimationController,
    pub animations: CharacterAnimations,
    pub animation: CurrentAnimation,
    pub collision: CollisionHitbox,
    pub collision_offset: Vec2i,
}

/// The skeleton's animation table: idle, attack, walk, flinch and death.
pub open spec fn spec_enemy_animation_set() -> Seq<AnimationData> {
    seq![
        AnimationData {
            state: CharacterState::Idle,
            frames: ENEMY_IDLE_FRAMES,
            frame_ms: ENEMY_IDLE_FRAME_MS,
            looping: true,
            ping_pong: false,
        },
        AnimationData {
            state: CharacterState::Attacking,
            frames: ENEMY_ATTACK_FRAMES,
            frame_ms: ENEMY_ATTACK_FRAME_MS,
            looping: false,
            ping_pong: false,
        },
        AnimationData {
            state: CharacterState::Running,
            frames: ENEMY_MOVE_FRAMES,
            frame_ms: ENEMY_MOVE_FRAME_MS,
            looping: true,
            ping_pong: false,
        },
        AnimationData {
            state: CharacterState::Hurt,
            frames: ENEMY_HURT_FRAMES,
            frame_ms: ENEMY_HURT_FRAME_MS,
            looping: false,
            ping_pong: false,
        },
        AnimationData {
            state: CharacterState::Dead,
            frames: ENEMY_DIE_FRAMES,
            frame_ms: ENEMY_DIE_FRAME_MS,
            looping: false,
            ping_pong: false,
        },
    ]
}

/// Build the skeleton's animation table.
pub fn enemy_animation_set() -> (r: CharacterAnimations)
    ensures
        r.animations@ =~= spec_enemy_animation_set(),
        r.wf(),
{
    let animations = vec![
        AnimationData {
            state: CharacterState::Idle,
            frames: ENEMY_IDLE_FRAMES,
            frame_ms: ENEMY_IDLE_FRAME_MS,
            looping: true,
            ping_pong: false,
        },
        AnimationData {
            state: CharacterState::Attacking,
            frames: ENEMY_ATTACK_FRAMES,
            frame_ms: ENEMY_ATTACK_FRAME_MS,
            looping: false,
            ping_pong: false,
        },
        AnimationData {
            state: CharacterState::Running,
            frames: ENEMY_MOVE_FRAMES,
            frame_ms: ENEMY_MOVE_FRAME_MS,
            looping: true,
            ping_pong: false,
        },
        AnimationData {
            state: CharacterState::Hurt,
            frames: ENEMY_HURT_FRAMES,
            frame_ms: ENEMY_HURT_FRAME_MS,
            looping: false,
            ping_pong: false,
        },
        AnimationData {
            state: CharacterState::Dead,
            frames: ENEMY_DIE_FRAMES,
            frame_ms: ENEMY_DIE_FRAME_MS,
            looping: false,
            ping_pong: false,
        },
    ];
    CharacterAnimations { animations }
}

/// The non-table parts of a spawned enemy, as a function of the camera
/// position, the window height, the pixel ratio in thousandths and the
/// facing: stats at their starting values, at rest on the ground, standing
/// a spawn offset to the camera's right and ninety scaled pixels over the
/// ground line, which sits three tenths of a window under the centre.
pub open spec fn spec_spawned_core(
    camera_x: i64,
    window_height: i64,
    pixel_ratio_permille: i64,
    facing_right: bool,
) -> (Enemy, Physics, Vec2i, Vec2i, CurrentAnimation, CollisionHitbox, Vec2i) {
    let ground_height = -(window_height * 300 / 1000);
    let enemy = Enemy {
        health: ENEMY_INITIAL_HEALTH,
        max_health: ENEMY_MAX_HEALTH,
        attack: ENEMY_ATTACK,
        defense: ENEMY_DEFENSE,
        speed: ENEMY_SPEED,
        attack_range: ENEMY_ATTACK_RANGE,
        detection_range: ENEMY_DETECTION_RANGE,
        facing_right,
        is_dead: false,
        death_timer: Timer {
            elapsed_ms: 0,
            duration_ms: ENEMY_DEATH_TIMER_MS,
            mode: TimerMode::Once,
            finished_this_tick: false,
        },
        hurt_timer: Timer {
            elapsed_ms: 0,
            duration_ms: ENEMY_HURT_TIMER_MS,
            mode: TimerMode::Once,
            finished_this_tick: false,
        },
    };
    let physics = Physics {
        velocity: Vec2i { x: 0, y: 0 },
        acceleration: Vec2i { x: 0, y: 0 },
        on_ground: true,
        gravity_scale: 1,
    };
    let position = Vec2i {
        x: (camera_x + ENEMY_SPAWN_OFFSET_X) as i64,
        y: (ground_height + ENEMY_SPAWN_OFFSET_Y * SUBPIXELS_PER_PIXEL * pixel_ratio_permille
            / 1000) as i64,
    };
    let scale = Vec2i {
        x: if facing_right {
            (-ENEMY_SCALE_FACTOR_PERMILLE) as i64
        } else {
            ENEMY_SCALE_FACTOR_PERMILLE
        },
        y: ENEMY_SCALE_FACTOR_PERMILLE,
    };
    let animation = CurrentAnimation {
        current_frame: 0,
        timer: Timer {
            elapsed_ms: 0,
            duration_ms: 100,
            mode: TimerMode::Repeating,
            finished_this_tick: false,
        },
        total_frames: ENEMY_IDLE_FRAMES,
        looping: true,
        reverse_direction: false,
    };
    let collision = CollisionHitbox {
        active: true,
        size: Vec2i {
            x: (ENEMY_COLLISION_SIZE_X * ENEMY_SCALE_FACTOR_PERMILLE / 1000) as i64,
            y: (ENEMY_COLLISION_SIZE_Y * ENEMY_SCALE_FACTOR_PERMILLE / 1000) as i64,
        },
    };
    let collision_offset = Vec2i { x: 0, y: (-(ENEMY_FEET_OFFSET / 2)) as i64 };
    (enemy, physics, position, scale, animation, collision, collision_offset)
}

/// Build a spawned enemy facing the given way.
pub fn spawn_enemy_at(
    camera_x: i64,
    window_height: i64,
    pixel_ratio_permille: i64,
    facing_right: bool,
) -> (r: SpawnedEnemy)
    requires
        in_world(camera_x as int),
        in_world(camera_x + ENEMY_SPAWN_OFFSET_X),
        0 <= window_height <= WORLD_LIMIT,
        0 <= pixel_ratio_permille <= 100_000,
    ensures
        (r.enemy, r.physics, r.position, r.scale, r.animation, r.collision, r.collision_offset)
            == spec_spawned_core(camera_x, window_height, pixel_ratio_permille, facing_right),
        r.animations.animations@ =~= spec_enemy_animation_set(),
        r.controller.spec_current_state() is Idle,
        r.controller.spec_next_state() is None,
        r.enemy.wf(),
        r.physics.wf(),
        r.animation.wf(),
        r.animations.wf(),
{
    let ground_height = -scale_permille(window_height, 300);
    let spawn_x = camera_x + ENEMY_SPAWN_OFFSET_X;
    let enemy_y = ground_height + scale_permille(
        ENEMY_SPAWN_OFFSET_Y * SUBPIXELS_PER_PIXEL,
        pixel_ratio_permille,
    );
    let scale_magnitude = ENEMY_SCALE_FACTOR_PERMILLE;
    let scale_x = if facing_right {
        -scale_magnitude
    } else {
        scale_magnitude
    };
    SpawnedEnemy {
        enemy: Enemy {
            health: ENEMY_INITIAL_HEALTH,
            max_health: ENEMY_MAX_HEALTH,
            attack: ENEMY_ATTACK,
            defense: ENEMY_DEFENSE,
            speed: ENEMY_SPEED,
            attack_range: ENEMY_ATTACK_RANGE,
            detection_range: ENEMY_DETECTION_RANGE,
            facing_right,
            is_dead: false,
            death_timer: Timer::new(ENEMY_DEATH_TIMER_MS, TimerMode::Once),
            hurt_timer: Timer::new(ENEMY_HURT_TIMER_MS, TimerMode::Once),
        },
        physics: Physics {
            velocity: Vec2i { x: 0, y: 0 },
            acceleration: Vec2i { x: 0, y: 0 },
            on_ground: true,
            gravity_scale: 1,
        },
        position: Vec2i { x: spawn_x, y: enemy_y },
        scale: Vec2i { x: scale_x, y: ENEMY_SCALE_FACTOR_PERMILLE },
        controller: AnimationController::default(),
        animations: enemy_animation_set(),
        animation: CurrentAnimation {
            current_frame: 0,
            timer: Timer::new(100, TimerMode::Repeating),
            total_frames: ENEMY_IDLE_FRAMES,
            looping: true,
            reverse_direction: false,
        },
        collision: CollisionHitbox {
            active: true,
            size: Vec2i {
                x: scale_permille(ENEMY_COLLISION_SIZE_X, ENEMY_SCALE_FACTOR_PERMILLE),
                y: scale_permille(ENEMY_COLLISION_SIZE_Y, ENEMY_SCALE_FACTOR_PERMILLE),
            },
        },
        collision_offset: Vec2i { x: 0, y: -250_000 },
    }
}

/// Relies on rand::random::<bool>: a coin flip picking the side of the
/// camera an enemy notionally spawns on. Nothing is assumed about the
/// outcome.
#[verifier::external_body]
fn random_side() -> bool {
    rand::random::<bool>()
}

/// Build a spawned enemy on a random side: the coin flip decides only the
/// facing (and with it the sprite mirroring); everything else is fixed by
/// the camera position, the window height and the pixel ratio.
pub fn spawn_enemy(camera_x: i64, window_height: i64, pixel_ratio_permille: i64) -> (r:
    SpawnedEnemy)
    requires
        in_world(camera_x as int),
        in_world(camera_x + ENEMY_SPAWN_OFFSET_X),
        0 <= window_height <= WORLD_LIMIT,
        0 <= pixel_ratio_permille <= 100_000,
    ensures
        (r.enemy, r.physics, r.position, r.scale, r.animation, r.collision, r.collision_offset)
            == spec_spawned_core(
            camera_x,
            window_height,
            pixel_ratio_permille,
            r.enemy.facing_right,
        ),
        r.animations.animations@ =~= spec_enemy_animation_set(),
        r.controller.spec_current_state() is Idle,
        r.controller.spec_next_state() is None,
        r.enemy.wf(),
        r.physics.wf(),
        r.animation.wf(),
        r.animations.wf(),
{
    let spawn_side_right = random_side();
    let facing_right = !spawn_side_right;
    spawn_enemy_at(camera_x, window_height, pixel_ratio_permille, facing_right)
}

} // verus!
