//! Animations as lists of frames, and the clock that steps through them.
use crate::timer::{Timer, TimerMode};
use vstd::prelude::*;

verus! {

/// The whole of a speed given in millionths.
pub const NORMAL_SPEED: u32 = 1_000_000;

/// One frame of an animation: the place of its picture in the atlas and the
/// time it is shown, in microseconds.
#[derive(Clone, Copy, Debug, PartialEq, Eq, Structural)]
pub struct AnimationFrame {
    pub atlas_index: u32,
    pub time: u64,
}

/// An animation: its frames, and whether it starts over after the last.
#[derive(Debug)]
pub struct Animation {
    pub should_loop: bool,
    pub frames: Vec<AnimationFrame>,
}

/// An animation that is being played: the frame that is shown, the timer
/// of that frame, and the speed in millionths of the normal speed.
#[derive(Debug)]
pub struct AnimationState {
    pub animation: Animation,
    pub timer: Timer,
    pub frame_index: usize,
    pub speed_multiplier: u32,
}

/// Time that passes for an animation at the speed `speed_multiplier` while
/// `dt` microseconds pass for the game, but no more than a timer can be
/// moved by in one tick.
pub open spec fn animation_time(dt: u32, speed_multiplier: u32) -> u32 {
    if (dt * speed_multiplier) / (NORMAL_SPEED as int) <= u32::MAX {
        ((dt * speed_multiplier) / (NORMAL_SPEED as int)) as u32
    } else {
        u32::MAX
    }
}

impl AnimationState {
    /// Whether the state shows a frame of its animation and its timer runs once.
    pub open spec fn wf(&self) -> bool {
        &&& self.animation.frames@.len() > 0
        &&& self.frame_index < self.animation.frames@.len()
        &&& self.timer.wf()
        &&& self.timer.mode == TimerMode::Once
    }

    /// Starts to play an animation at its first frame.
    pub fn from_animation(animation: Animation, speed_multiplier: u32) -> (state: AnimationState)
        requires
            animation.frames@.len() > 0,
        ensures
            state.wf(),
            state.animation == animation,
            state.frame_index == 0,
            state.speed_multiplier == speed_multiplier,
            state.timer == Timer::from_micros(animation.frames@[0].time, TimerMode::Once),
    {
        let timer: Timer = Timer::from_micros(animation.frames[0].time, TimerMode::Once);
        AnimationState { animation, timer, frame_index: 0, speed_multiplier }
    }

    /// Whether the frame that is shown is over after `dt` more
    /// microseconds of the game.
    pub open spec fn frame_ends(&self, dt: u32) -> bool {
        self.timer.spec_tick(animation_time(dt, self.speed_multiplier)).finished
    }

    /// Whether the animation goes to another frame after `dt` more
    /// microseconds of the game: the frame that is shown is over, and it is
    /// not the last frame of an animation that plays once.
    pub open spec fn advances(&self, dt: u32) -> bool {
        self.frame_ends(dt) && (self.animation.should_loop || self.frame_index + 1
            != self.animation.frames@.len())
    }

    /// The frame after the one that is shown; after the last frame comes
    /// the first.
    pub open spec fn next_index(&self) -> int {
        (self.frame_index + 1) % (self.animation.frames@.len() as int)
    }
}

/// Goes over to another animation, as a change of the player's state asks
/// for: the new animation starts at its first frame, at the speed of the
/// old one.
pub fn player_state_animation_change_system(state: &mut AnimationState, next: Animation)
    requires
        next.frames@.len() > 0,
    ensures
        final(state).wf(),
        final(state).animation == next,
        final(state).frame_index == 0,
        final(state).speed_multiplier == old(state).speed_multiplier,
        final(state).timer == Timer::from_micros(next.frames@[0].time, TimerMode::Once),
{
    state.timer = Timer::from_micros(next.frames[0].time, TimerMode::Once);
    state.animation = next;
    state.frame_index = 0;
}

/// Moves an animation forward by `dt` microseconds of the game. When the
/// animation goes to another frame, that frame is returned and its timer
/// starts.
pub fn animation_system(state: &mut AnimationState, dt: u32) -> (shown: Option<AnimationFrame>)
    requires
        old(state).wf(),
    ensures
        final(state).wf(),
        final(state).animation == old(state).animation,
        final(state).speed_multiplier == old(state).speed_multiplier,
        old(state).advances(dt) ==> {
            &&& final(state).frame_index == old(state).next_index()
            &&& shown == Some(old(state).animation.frames@[old(state).next_index()])
            &&& final(state).timer == Timer::from_micros(
                old(state).animation.frames@[old(state).next_index()].time,
                TimerMode::Once,
            )
        },
        !old(state).advances(dt) ==> {
            &&& final(state).frame_index == old(state).frame_index
            &&& shown.is_none()
            &&& final(state).timer == old(state).timer.spec_tick(
                animation_time(dt, old(state).speed_multiplier),
            )
        },
{
    let time: u64 = dt as u64;
    let speed: u64 = state.speed_multiplier as u64;
    assert(0 <= time * speed <= 0xffff_ffff * 0xffff_ffff) by (nonlinear_arith)
        requires
            0 <= time <= 0xffff_ffff,
            0 <= speed <= 0xffff_ffff,
    ;
    let wide: u64 = (time * speed) / (NORMAL_SPEED as u64);
    let scaled: u32 = if wide <= u32::MAX as u64 {
        wide as u32
    } else {
        u32::MAX
    };
    state.timer.tick(scaled);
    if !state.timer.finished() {
        return None;
    }
    let num_frames: usize = state.animation.frames.len();
    if state.frame_index + 1 == num_frames && !state.animation.should_loop {
        return None;
    }
    let next_frame_index: usize = (state.frame_index + 1) % num_frames;
    let next_frame: AnimationFrame = state.animation.frames[next_frame_index];
    state.frame_index = next_frame_index;
    state.timer = Timer::from_micros(next_frame.time, TimerMode::Once);
    Some(next_frame)
}

} // verus!
