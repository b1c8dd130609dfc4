//! Character animation state machines: a controller that stages state
//! changes and applies them once per frame, per-state animation data, and
//! the frame-advance step that plays an animation forward, loops it, ping
//! pongs it, or hands an ended attack back to the idle state.

use vstd::prelude::*;

use crate::timer::{Timer, TimerMode};

verus! {

/// The state a character is in; each state has its own animation.
#[derive(Clone, Copy, PartialEq, Eq, Structural, Debug, Hash)]
pub enum CharacterState {
    Idle,
    Attacking,
    ChargeAttacking,
    Running,
    Jumping,
    Hurt,
    Dead,
    Falling,
}

/// Overall height of a character and the distance from its centre down to
/// its feet, in subpixels.
#[derive(Clone, Copy, PartialEq, Eq, Structural, Debug)]
pub struct CharacterDimensions {
    pub height: i64,
    pub feet_offset: i64,
}

/// Stages at most one pending state change and applies it on demand, so
/// that a state switch takes effect exactly once per frame.
#[derive(Clone, Copy, PartialEq, Eq, Structural, Debug)]
pub struct AnimationController {
    current_state: CharacterState,
    next_state: Option<CharacterState>,
}

impl AnimationController {
    /// The state the controller is currently in.
    pub closed spec fn spec_current_state(self) -> CharacterState {
        self.current_state
    }

    /// The staged state change, if any.
    pub closed spec fn spec_next_state(self) -> Option<CharacterState> {
        self.next_state
    }

    /// Stage a switch to `new_state` unless the controller is already in it.
    pub fn change_state(&mut self, new_state: CharacterState)
        ensures
            staged(*old(self), *final(self), new_state),
    {
        if self.current_state != new_state {
            self.next_state = Some(new_state);
        }
    }

    /// Make the staged state current; reports whether anything was staged.
    pub fn apply_next_state(&mut self) -> (changed: bool)
        ensures
            final(self).spec_current_state() == match old(self).spec_next_state() {
                Some(next) => next,
                None => old(self).spec_current_state(),
            },
            final(self).spec_next_state() is None,
            changed == old(self).spec_next_state() is Some,
    {
        if let Some(next) = self.next_state.take() {
            self.current_state = next;
            true
        } else {
            false
        }
    }

    pub fn get_current_state(&self) -> (s: CharacterState)
        ensures
            s == self.spec_current_state(),
    {
        self.current_state
    }
}

/// How `change_state(target)` turns `before` into `after`: the current
/// state stands, and the target is staged unless it is already current.
pub open spec fn staged(
    before: AnimationController,
    after: AnimationController,
    target: CharacterState,
) -> bool {
    &&& after.spec_current_state() == before.spec_current_state()
    &&& after.spec_next_state() == if before.spec_current_state() != target {
        Some(target)
    } else {
        before.spec_next_state()
    }
}

impl Default for AnimationController {
    /// A fresh controller: idle, with nothing staged.
    fn default() -> (r: Self)
        ensures
            r.spec_current_state() == CharacterState::Idle,
            r.spec_next_state() is None,
    {
        Self { current_state: CharacterState::Idle, next_state: None }
    }
}

/// How one state's animation plays: how many frames it has, how long each
/// frame stays on screen, and whether it loops or ping pongs.
#[derive(Clone, Copy, PartialEq, Eq, Structural, Debug)]
pub struct AnimationData {
    pub state: CharacterState,
    pub frames: usize,
    pub frame_ms: u32,
    pub looping: bool,
    pub ping_pong: bool,
}

impl AnimationData {
    pub open spec fn wf(self) -> bool {
        &&& self.frames >= 1
        &&& self.frame_ms >= 1
    }
}

/// The animation table of one character: one entry per state it can show.
#[derive(Clone, PartialEq, Eq, Debug)]
pub struct CharacterAnimations {
    pub animations: Vec<AnimationData>,
}

/// The first entry for `state` in an animation table, if any.
pub open spec fn first_animation(anims: Seq<AnimationData>, state: CharacterState) -> Option<
    AnimationData,
>
    decreases anims.len(),
{
    if anims.len() == 0 {
        None
    } else if anims[0].state == state {
        Some(anims[0])
    } else {
        first_animation(anims.skip(1), state)
    }
}

/// Skipping entries that do not match leaves the first match unchanged.
proof fn lemma_first_animation_skip(anims: Seq<AnimationData>, state: CharacterState, i: int)
    requires
        0 <= i <= anims.len(),
        forall|j: int| 0 <= j < i ==> anims[j].state != state,
    ensures
        first_animation(anims, state) == first_animation(anims.skip(i), state),
    decreases i,
{
    if i > 0 {
        assert(anims.skip(1).skip(i - 1) =~= anims.skip(i));
        lemma_first_animation_skip(anims.skip(1), state, i - 1);
    } else {
        assert(anims.skip(0) =~= anims);
    }
}

/// Whether the animation table entry for `state` ping pongs; a missing
/// entry plays as a plain animation.
pub open spec fn ping_pong_of(anims: Seq<AnimationData>, state: CharacterState) -> bool {
    match first_animation(anims, state) {
        Some(data) => data.ping_pong,
        None => false,
    }
}

impl CharacterAnimations {
    /// Every entry has at least one frame and a positive frame period.
    pub open spec fn wf(self) -> bool {
        forall|i: int| 0 <= i < self.animations@.len() ==> self.animations@[i].wf()
    }

    /// Index of the first entry for `state`, if any.
    pub fn find_animation(&self, state: CharacterState) -> (r: Option<usize>)
        ensures
            match r {
                Some(i) => i < self.animations@.len() && first_animation(self.animations@, state)
                    == Some(self.animations@[i as int]) && self.animations@[i as int].state
                    == state,
                None => first_animation(self.animations@, state) is None,
            },
    {
        let n = self.animations.len();
        let mut i: usize = 0;
        while i < n
            invariant
                i <= n,
                n == self.animations@.len(),
                forall|j: int| 0 <= j < i ==> self.animations@[j].state != state,
            decreases n - i,
        {
            if self.animations[i].state == state {
                proof {
                    lemma_first_animation_skip(self.animations@, state, i as int);
                    assert(self.animations@.skip(i as int)[0] == self.animations@[i as int]);
                }
                return Some(i);
            }
            i += 1;
        }
        proof {
            lemma_first_animation_skip(self.animations@, state, n as int);
        }
        None
    }
}

/// Playback position of the animation now on screen.
#[derive(Clone, Copy, PartialEq, Eq, Structural, Debug)]
pub struct CurrentAnimation {
    pub current_frame: usize,
    pub timer: Timer,
    pub total_frames: usize,
    pub looping: bool,
    pub reverse_direction: bool,
}

impl CurrentAnimation {
    /// The frame index stays inside the animation, playing in reverse only
    /// away from the first frame, and the frame timer repeats.
    pub open spec fn wf(self) -> bool {
        &&& self.total_frames >= 1
        &&& self.current_frame < self.total_frames
        &&& self.reverse_direction ==> self.current_frame >= 1
        &&& self.timer.wf()
        &&& self.timer.mode is Repeating
    }

    /// Playback restarted at frame zero for the given animation data.
    pub open spec fn spec_restarted(data: AnimationData) -> CurrentAnimation {
        CurrentAnimation {
            current_frame: 0,
            timer: Timer {
                elapsed_ms: 0,
                duration_ms: data.frame_ms,
                mode: TimerMode::Repeating,
                finished_this_tick: false,
            },
            total_frames: data.frames,
            looping: data.looping,
            reverse_direction: false,
        }
    }

    /// Restart playback at frame zero for the given animation data.
    pub fn restart(data: &AnimationData) -> (r: CurrentAnimation)
        requires
            data.wf(),
        ensures
            r == CurrentAnimation::spec_restarted(*data),
            r.wf(),
    {
        CurrentAnimation {
            current_frame: 0,
            timer: Timer::new(data.frame_ms, TimerMode::Repeating),
            total_frames: data.frames,
            looping: data.looping,
            reverse_direction: false,
        }
    }
}

/// The playback position after one frame advance: backward while ping
/// ponging in reverse, otherwise forward, wrapping or reversing at the last
/// frame of a looping animation and clamping at the last frame of a
/// non-looping one. The timer field is left untouched.
pub open spec fn advanced_frames(a: CurrentAnimation, ping_pong: bool) -> CurrentAnimation {
    if a.reverse_direction && ping_pong {
        if a.current_frame - 1 <= 0 {
            CurrentAnimation { current_frame: 0, reverse_direction: false, ..a }
        } else {
            CurrentAnimation { current_frame: (a.current_frame - 1) as usize, ..a }
        }
    } else {
        if a.current_frame + 1 >= a.total_frames {
            if a.looping {
                if ping_pong {
                    CurrentAnimation {
                        current_frame: (a.total_frames - 1) as usize,
                        reverse_direction: true,
                        ..a
                    }
                } else {
                    CurrentAnimation { current_frame: 0, ..a }
                }
            } else {
                CurrentAnimation { current_frame: (a.total_frames - 1) as usize, ..a }
            }
        } else {
            CurrentAnimation { current_frame: (a.current_frame + 1) as usize, ..a }
        }
    }
}

/// Whether this frame advance ran a non-looping animation off its end.
pub open spec fn finished_one_shot(a: CurrentAnimation, ping_pong: bool) -> bool {
    &&& !(a.reverse_direction && ping_pong)
    &&& a.current_frame + 1 >= a.total_frames
    &&& !a.looping
}

/// Apply a staged state change: when one is staged and the character has an
/// animation for the new state, playback restarts at frame zero of that
/// animation and the index of its table entry is returned so the caller can
/// switch the sprite sheet.
pub fn update_animation_state(
    controller: &mut AnimationController,
    animations: &CharacterAnimations,
    current_animation: &mut CurrentAnimation,
) -> (switched: Option<usize>)
    requires
        animations.wf(),
        old(current_animation).wf(),
    ensures
        final(controller).spec_current_state() == match old(controller).spec_next_state() {
            Some(next) => next,
            None => old(controller).spec_current_state(),
        },
        final(controller).spec_next_state() is None,
        final(current_animation).wf(),
        old(controller).spec_next_state() is None ==> *final(current_animation) == *old(
            current_animation,
        ) && switched is None,
        old(controller).spec_next_state() matches Some(next) ==> match first_animation(
            animations.animations@,
            next,
        ) {
            Some(data) => {
                &&& *final(current_animation) == CurrentAnimation::spec_restarted(data)
                &&& switched matches Some(i) && i < animations.animations@.len()
                    && animations.animations@[i as int] == data
            },
            None => *final(current_animation) == *old(current_animation) && switched is None,
        },
{
    if controller.apply_next_state() {
        let current_state = controller.get_current_state();
        match animations.find_animation(current_state) {
            Some(i) => {
                let data = &animations.animations[i];
                *current_animation = CurrentAnimation::restart(data);
                Some(i)
            },
            None => None,
        }
    } else {
        None
    }
}

/// Advance the playing animation by `delta_ms`: tick the frame timer and,
/// each time it completes a lap, step the frame as `advanced_frames` says;
/// an attack animation that reaches its end stages a return to idle.
pub fn animate_current_state(
    animation: &mut CurrentAnimation,
    controller: &mut AnimationController,
    character_animations: &CharacterAnimations,
    delta_ms: u32,
) -> (frame: usize)
    requires
        old(animation).wf(),
        ping_pong_of(
            character_animations.animations@,
            old(controller).spec_current_state(),
        ) && old(animation).looping ==> old(animation).total_frames >= 2,
        old(animation).reverse_direction ==> ping_pong_of(
            character_animations.animations@,
            old(controller).spec_current_state(),
        ),
    ensures
        final(animation).wf(),
        ({
            let ticked = old(animation).timer.spec_tick(delta_ms);
            let ping_pong = ping_pong_of(
                character_animations.animations@,
                old(controller).spec_current_state(),
            );
            let stepped = advanced_frames(
                CurrentAnimation { timer: ticked, ..*old(animation) },
                ping_pong,
            );
            &&& !ticked.finished_this_tick ==> *final(animation) == (CurrentAnimation {
                timer: ticked,
                ..*old(animation)
            }) && *final(controller) == *old(controller)
            &&& ticked.finished_this_tick ==> {
                let attack_ended = finished_one_shot(*old(animation), ping_pong) && (old(
                    controller,
                ).spec_current_state() is Attacking || old(
                    controller,
                ).spec_current_state() is ChargeAttacking);
                &&& *final(animation) == stepped
                &&& final(controller).spec_current_state() == old(controller).spec_current_state()
                &&& final(controller).spec_next_state() == if attack_ended {
                    Some(CharacterState::Idle)
                } else {
                    old(controller).spec_next_state()
                }
            }
        }),
        frame == final(animation).current_frame,
{
    animation.timer.tick(delta_ms);

    if animation.timer.just_finished() {
        let current_state = controller.get_current_state();
        let ping_pong = match character_animations.find_animation(current_state) {
            Some(i) => character_animations.animations[i].ping_pong,
            None => false,
        };

        if animation.reverse_direction && ping_pong {
            animation.current_frame -= 1;
            // Reaching the first frame turns playback forward again.
            if animation.current_frame == 0 {
                animation.reverse_direction = false;
            }
        } else {
            animation.current_frame += 1;
            if animation.current_frame >= animation.total_frames {
                if animation.looping {
                    if ping_pong {
                        // A looping ping-pong animation turns around at its
                        // last frame.
                        animation.current_frame = animation.total_frames - 1;
                        animation.reverse_direction = true;
                    } else {
                        // A plain looping animation starts over.
                        animation.current_frame = 0;
                    }
                } else {
                    // A one-shot animation holds its last frame; a finished
                    // attack goes back to idle.
                    animation.current_frame = animation.total_frames - 1;
                    if controller.get_current_state() == CharacterState::Attacking {
                        controller.change_state(CharacterState::Idle);
                    }
                    if controller.get_current_state() == CharacterState::ChargeAttacking {
                        controller.change_state(CharacterState::Idle);
                    }
                }
            }
        }
    }
    animation.current_frame
}

} // verus!
