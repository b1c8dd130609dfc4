//! Attack hitboxes: activity windows tied to animation frames, circular
//! overlap tests against opposing characters, one-hit-per-attack tracking
//! and the hit events a swing produces.

use vstd::prelude::*;

use crate::animations::CharacterState;
use crate::timer::{Timer, TimerMode};
use crate::utils::{dist_sq, in_world, lemma_sq_le, Vec2i, SUBPIXELS_PER_PIXEL, WORLD_LIMIT};

verus! {

/// Milliseconds between two hits of the same hitbox.
pub const HITBOX_COOLDOWN_MS: u32 = 500;

/// A damage-dealing region attached to a character. It is live only on the
/// animation frames listed in `frames_active`, and it hits each opponent at
/// most once per attack.
#[derive(Clone, PartialEq, Eq, Debug)]
pub struct Hitbox {
    pub damage: i64,
    pub active: bool,
    pub size: Vec2i,
    pub offset: Vec2i,
    pub frames_active: Vec<usize>,
    pub cooldown: Timer,
    pub hit_entities: Vec<u64>,
    pub owner_state: CharacterState,
}

impl Hitbox {
    /// Nonnegative in-world sizes, an in-world offset, and a sound cooldown
    /// timer.
    pub open spec fn wf(self) -> bool {
        &&& 0 <= self.size.x <= WORLD_LIMIT
        &&& 0 <= self.size.y <= WORLD_LIMIT
        &&& self.offset.wf()
        &&& self.cooldown.wf()
    }
}

impl Default for Hitbox {
    /// An inert hitbox: no damage, inactive, a 50 by 30 pixel region with
    /// no offset, no live frames, a half-second cooldown and nothing hit.
    fn default() -> (r: Self)
        ensures
            r.damage == 0,
            !r.active,
            r.size == (Vec2i {
                x: (50 * SUBPIXELS_PER_PIXEL) as i64,
                y: (30 * SUBPIXELS_PER_PIXEL) as i64,
            }),
            r.offset == (Vec2i { x: 0, y: 0 }),
            r.frames_active@ =~= Seq::<usize>::empty(),
            r.cooldown == (Timer {
                elapsed_ms: 0,
                duration_ms: HITBOX_COOLDOWN_MS,
                mode: TimerMode::Once,
                finished_this_tick: false,
            }),
            r.hit_entities@ =~= Seq::<u64>::empty(),
            r.owner_state == CharacterState::Idle,
            r.wf(),
    {
        Self {
            damage: 0,
            active: false,
            size: Vec2i { x: 50 * SUBPIXELS_PER_PIXEL, y: 30 * SUBPIXELS_PER_PIXEL },
            offset: Vec2i { x: 0, y: 0 },
            frames_active: Vec::new(),
            cooldown: Timer::new(HITBOX_COOLDOWN_MS, TimerMode::Once),
            hit_entities: Vec::new(),
            owner_state: CharacterState::Idle,
        }
    }
}

/// One landed hit: who swung, who was struck, and for how much.
#[derive(Clone, Copy, PartialEq, Eq, Structural, Debug)]
pub struct HitEvent {
    pub source: u64,
    pub target: u64,
    pub damage: i64,
}

/// An attack hitbox as seen by a defender: whether it is live, what it
/// deals, and where it stands.
#[derive(Clone, Copy, PartialEq, Eq, Structural, Debug)]
pub struct AttackContact {
    pub active: bool,
    pub damage: i64,
    pub pos: Vec2i,
    pub size: Vec2i,
}

/// The first live attack in the list whose rectangle overlaps the
/// defender's collision box, if any.
pub open spec fn first_strike(
    attacks: Seq<AttackContact>,
    box_pos: Vec2i,
    box_size: Vec2i,
) -> Option<AttackContact>
    decreases attacks.len(),
{
    if attacks.len() == 0 {
        None
    } else if attacks[0].active && crate::utils::rects_overlap(
        box_pos,
        box_size,
        attacks[0].pos,
        attacks[0].size,
    ) {
        Some(attacks[0])
    } else {
        first_strike(attacks.skip(1), box_pos, box_size)
    }
}

/// Skipping attacks that do not strike leaves the first strike unchanged.
pub proof fn lemma_first_strike_skip(
    attacks: Seq<AttackContact>,
    box_pos: Vec2i,
    box_size: Vec2i,
    i: int,
)
    requires
        0 <= i <= attacks.len(),
        forall|j: int| 0 <= j < i ==> !((#[trigger] attacks[j]).active
            && crate::utils::rects_overlap(box_pos, box_size, attacks[j].pos, attacks[j].size)),
    ensures
        first_strike(attacks, box_pos, box_size) == first_strike(
            attacks.skip(i),
            box_pos,
            box_size,
        ),
    decreases i,
{
    if i > 0 {
        assert(attacks.skip(1).skip(i - 1) =~= attacks.skip(i));
        lemma_first_strike_skip(attacks.skip(1), box_pos, box_size, i - 1);
    } else {
        assert(attacks.skip(0) =~= attacks);
    }
}

/// A found first strike is one of the attacks in the list.
pub proof fn lemma_first_strike_member(
    attacks: Seq<AttackContact>,
    box_pos: Vec2i,
    box_size: Vec2i,
)
    ensures
        first_strike(attacks, box_pos, box_size) matches Some(a) ==> attacks.contains(a),
    decreases attacks.len(),
{
    if attacks.len() > 0 {
        if !(attacks[0].active && crate::utils::rects_overlap(
            box_pos,
            box_size,
            attacks[0].pos,
            attacks[0].size,
        )) {
            lemma_first_strike_member(attacks.skip(1), box_pos, box_size);
            match first_strike(attacks.skip(1), box_pos, box_size) {
                Some(a) => {
                    let j = choose|j: int|
                        0 <= j < attacks.skip(1).len() && attacks.skip(1)[j] == a;
                    assert(attacks[j + 1] == a);
                },
                None => {},
            }
        }
    }
}

/// Scan a list of attacks for the first one that strikes the given
/// collision box.
pub fn find_first_strike(attacks: &Vec<AttackContact>, box_pos: Vec2i, box_size: Vec2i) -> (r:
    Option<AttackContact>)
    ensures
        r == first_strike(attacks@, box_pos, box_size),
{
    let n = attacks.len();
    let mut i: usize = 0;
    while i < n
        invariant
            i <= n,
            n == attacks@.len(),
            forall|j: int| 0 <= j < i ==> !((#[trigger] attacks@[j]).active
                && crate::utils::rects_overlap(
                box_pos,
                box_size,
                attacks@[j].pos,
                attacks@[j].size,
            )),
        decreases n - i,
    {
        let a = attacks[i];
        if a.active && crate::utils::check_rect_collision(box_pos, box_size, a.pos, a.size) {
            proof {
                lemma_first_strike_skip(attacks@, box_pos, box_size, i as int);
                assert(attacks@.skip(i as int)[0] == attacks@[i as int]);
            }
            return Some(a);
        }
        i += 1;
    }
    proof {
        lemma_first_strike_skip(attacks@, box_pos, box_size, n as int);
        assert(attacks@.skip(n as int) =~= Seq::<AttackContact>::empty());
    }
    None
}

/// A character a hitbox may strike: its identifier and its position.
#[derive(Clone, Copy, PartialEq, Eq, Structural, Debug)]
pub struct HitTarget {
    pub id: u64,
    pub pos: Vec2i,
}

/// The circular reach test of a swing: the target lies strictly closer to
/// the hitbox than four fifths of the hitbox width. Stated over squares, so
/// it is exact for integer coordinates.
pub open spec fn circle_hit(hitbox_pos: Vec2i, target_pos: Vec2i, size_x: int) -> bool {
    25 * dist_sq(target_pos, hitbox_pos) < 16 * (size_x * size_x)
}

/// Exact test for `circle_hit`.
pub fn check_circle_hit(hitbox_pos: Vec2i, target_pos: Vec2i, size_x: i64) -> (r: bool)
    requires
        hitbox_pos.wf(),
        target_pos.wf(),
        0 <= size_x <= WORLD_LIMIT,
    ensures
        r == circle_hit(hitbox_pos, target_pos, size_x as int),
{
    let dx: i128 = target_pos.x as i128 - hitbox_pos.x as i128;
    let dy: i128 = target_pos.y as i128 - hitbox_pos.y as i128;
    proof {
        lemma_sq_le(dx as int, 2 * WORLD_LIMIT as int);
        lemma_sq_le(dy as int, 2 * WORLD_LIMIT as int);
        lemma_sq_le(size_x as int, WORLD_LIMIT as int);
    }
    25 * (dx * dx + dy * dy) < 16 * ((size_x as i128) * (size_x as i128))
}

/// The identifiers struck when a live hitbox at `hitbox_pos` scans the
/// targets in order: each target within reach that was not already hit, in
/// scan order, each remembered as soon as it is struck.
pub open spec fn hits_scan(
    hitbox_pos: Vec2i,
    size_x: int,
    targets: Seq<HitTarget>,
    already_hit: Seq<u64>,
) -> Seq<u64>
    decreases targets.len(),
{
    if targets.len() == 0 {
        Seq::empty()
    } else {
        let t = targets[0];
        if !already_hit.contains(t.id) && circle_hit(hitbox_pos, t.pos, size_x) {
            seq![t.id] + hits_scan(hitbox_pos, size_x, targets.skip(1), already_hit.push(t.id))
        } else {
            hits_scan(hitbox_pos, size_x, targets.skip(1), already_hit)
        }
    }
}

/// Whether a vector of identifiers holds the given one.
pub fn contains_id(ids: &Vec<u64>, id: u64) -> (r: bool)
    ensures
        r == ids@.contains(id),
{
    let n = ids.len();
    let mut i: usize = 0;
    while i < n
        invariant
            i <= n,
            n == ids@.len(),
            forall|j: int| 0 <= j < i ==> ids@[j] != id,
        decreases n - i,
    {
        if ids[i] == id {
            return true;
        }
        i += 1;
    }
    false
}

/// Whether a vector of frame indices holds the given one.
pub fn contains_frame(frames: &Vec<usize>, frame: usize) -> (r: bool)
    ensures
        r == frames@.contains(frame),
{
    let n = frames.len();
    let mut i: usize = 0;
    while i < n
        invariant
            i <= n,
            n == frames@.len(),
            forall|j: int| 0 <= j < i ==> frames@[j] != frame,
        decreases n - i,
    {
        if frames[i] == frame {
            return true;
        }
        i += 1;
    }
    false
}

/// Swing a live hitbox at the given targets. Does nothing unless the
/// hitbox is active with its cooldown over; otherwise it strikes, in scan
/// order, every target within reach that this attack has not hit yet,
/// returns one event per strike, remembers the victims, and restarts the
/// cooldown if anything was struck.
pub fn handle_hitbox_collisions(
    hitbox: &mut Hitbox,
    hitbox_owner: u64,
    owner_pos: Vec2i,
    targets: &Vec<HitTarget>,
) -> (events: Vec<HitEvent>)
    requires
        old(hitbox).wf(),
        owner_pos.wf(),
        in_world(owner_pos.x + old(hitbox).offset.x),
        in_world(owner_pos.y + old(hitbox).offset.y),
        forall|i: int| 0 <= i < targets@.len() ==> (#[trigger] targets@[i]).pos.wf(),
    ensures
        final(hitbox).wf(),
        !(old(hitbox).active && old(hitbox).cooldown.spec_finished()) ==> events@
            =~= Seq::<HitEvent>::empty() && *final(hitbox) == *old(hitbox),
        (old(hitbox).active && old(hitbox).cooldown.spec_finished()) ==> ({
            let hitbox_pos = Vec2i {
                x: (owner_pos.x + old(hitbox).offset.x) as i64,
                y: (owner_pos.y + old(hitbox).offset.y) as i64,
            };
            let struck = hits_scan(
                hitbox_pos,
                old(hitbox).size.x as int,
                targets@,
                old(hitbox).hit_entities@,
            );
            &&& final(hitbox).hit_entities@ =~= old(hitbox).hit_entities@ + struck
            &&& events@.len() == struck.len()
            &&& forall|i: int| 0 <= i < struck.len() ==> events@[i] == (HitEvent {
                source: hitbox_owner,
                target: struck[i],
                damage: old(hitbox).damage,
            })
            &&& final(hitbox).cooldown == if struck.len() > 0 {
                Timer {
                    elapsed_ms: 0,
                    finished_this_tick: false,
                    ..old(hitbox).cooldown
                }
            } else {
                old(hitbox).cooldown
            }
            &&& final(hitbox).damage == old(hitbox).damage
            &&& final(hitbox).active == old(hitbox).active
            &&& final(hitbox).size == old(hitbox).size
            &&& final(hitbox).offset == old(hitbox).offset
            &&& final(hitbox).frames_active@ =~= old(hitbox).frames_active@
            &&& final(hitbox).owner_state == old(hitbox).owner_state
        }),
{
    let mut events: Vec<HitEvent> = Vec::new();
    if !hitbox.active || !hitbox.cooldown.finished() {
        return events;
    }
    let hitbox_pos = Vec2i {
        x: owner_pos.x + hitbox.offset.x,
        y: owner_pos.y + hitbox.offset.y,
    };
    let ghost full_scan = hits_scan(
        hitbox_pos,
        hitbox.size.x as int,
        targets@,
        hitbox.hit_entities@,
    );
    let ghost struck_so_far = Seq::<u64>::empty();
    proof {
        assert(targets@.skip(0) =~= targets@);
        assert(struck_so_far + full_scan =~= full_scan);
        assert(hitbox.hit_entities@ + struck_so_far =~= hitbox.hit_entities@);
    }
    let mut struck_any: bool = false;
    let n = targets.len();
    let mut i: usize = 0;
    while i < n
        invariant
            i <= n,
            n == targets@.len(),
            hitbox.wf(),
            hitbox_pos.x == owner_pos.x + old(hitbox).offset.x,
            hitbox_pos.y == owner_pos.y + old(hitbox).offset.y,
            hitbox_pos.wf(),
            forall|k: int| 0 <= k < targets@.len() ==> (#[trigger] targets@[k]).pos.wf(),
            full_scan == hits_scan(
                hitbox_pos,
                old(hitbox).size.x as int,
                targets@,
                old(hitbox).hit_entities@,
            ),
            full_scan =~= struck_so_far + hits_scan(
                hitbox_pos,
                old(hitbox).size.x as int,
                targets@.skip(i as int),
                hitbox.hit_entities@,
            ),
            hitbox.hit_entities@ =~= old(hitbox).hit_entities@ + struck_so_far,
            events@.len() == struck_so_far.len(),
            forall|k: int| 0 <= k < struck_so_far.len() ==> events@[k] == (HitEvent {
                source: hitbox_owner,
                target: struck_so_far[k],
                damage: old(hitbox).damage,
            }),
            struck_any == (struck_so_far.len() > 0),
            hitbox.cooldown == if struck_any {
                Timer {
                    elapsed_ms: 0,
                    finished_this_tick: false,
                    ..old(hitbox).cooldown
                }
            } else {
                old(hitbox).cooldown
            },
            hitbox.damage == old(hitbox).damage,
            hitbox.active == old(hitbox).active,
            hitbox.size == old(hitbox).size,
            hitbox.offset == old(hitbox).offset,
            hitbox.frames_active@ =~= old(hitbox).frames_active@,
            hitbox.owner_state == old(hitbox).owner_state,
        decreases n - i,
    {
        let target = targets[i];
        proof {
            assert(targets@.skip(i as int)[0] == targets@[i as int]);
            assert(targets@.skip(i as int).skip(1) =~= targets@.skip(i as int + 1));
        }
        if !contains_id(&hitbox.hit_entities, target.id) && check_circle_hit(
            hitbox_pos,
            target.pos,
            hitbox.size.x,
        ) {
            hitbox.hit_entities.push(target.id);
            events.push(HitEvent { source: hitbox_owner, target: target.id, damage: hitbox.damage });
            hitbox.cooldown.reset();
            struck_any = true;
            proof {
                struck_so_far = struck_so_far.push(target.id);
            }
        }
        i += 1;
    }
    proof {
        assert(targets@.skip(n as int) =~= Seq::<HitTarget>::empty());
    }
    events
}

/// Tick the cooldown and follow the animation: the hitbox is live exactly
/// on its listed frames, and leaving the live window forgets who was hit,
/// arming the next attack.
pub fn update_hitbox_activity(hitbox: &mut Hitbox, current_frame: usize, delta_ms: u32)
    requires
        old(hitbox).wf(),
    ensures
        final(hitbox).wf(),
        final(hitbox).cooldown == old(hitbox).cooldown.spec_tick(delta_ms),
        final(hitbox).active == old(hitbox).frames_active@.contains(current_frame),
        final(hitbox).hit_entities@ =~= if old(hitbox).frames_active@.contains(current_frame) {
            old(hitbox).hit_entities@
        } else {
            Seq::<u64>::empty()
        },
        final(hitbox).damage == old(hitbox).damage,
        final(hitbox).size == old(hitbox).size,
        final(hitbox).offset == old(hitbox).offset,
        final(hitbox).frames_active@ =~= old(hitbox).frames_active@,
        final(hitbox).owner_state == old(hitbox).owner_state,
{
    hitbox.cooldown.tick(delta_ms);
    let is_active = contains_frame(&hitbox.frames_active, current_frame);
    if !is_active {
        hitbox.hit_entities.clear();
    }
    hitbox.active = is_active;
}

/// Whether a spent hitbox may be removed: it is no longer live, its
/// cooldown is over, and its owner has left the attack states.
pub fn should_remove_hitbox(hitbox: &Hitbox, state: CharacterState) -> (r: bool)
    ensures
        r == (!hitbox.active && hitbox.cooldown.spec_finished() && state
            != CharacterState::Attacking && state != CharacterState::ChargeAttacking),
{
    !hitbox.active && hitbox.cooldown.finished() && state != CharacterState::Attacking && state
        != CharacterState::ChargeAttacking
}

} // verus!
