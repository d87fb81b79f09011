//! A fish tries to stay off the lines of the fishing boats above it.
//!
//! The game is a simulation that moves in ticks. Everything in it is a whole
//! number, so that a game can be replayed exactly from its seed and the
//! inputs of its ticks.
use vstd::prelude::*;

pub mod animation;
pub mod arena;
pub mod boat;
pub mod collision;
pub mod contact;
pub mod core2d;
pub mod engine;
pub mod events;
pub mod finale;
pub mod fleet;
pub mod game;
pub mod laws;
pub mod leaderboard;
pub mod motion;
pub mod player;
pub mod rng;
pub mod simulation;
pub mod timer;
pub mod trig;

pub use engine::{
    FishGame, FishGameConfig, FishGameInputEvent, FishGameInputState, FishGameState, PlayerInfo,
    PlayerState,
};

verus! {

/// Sum of two sizes.
pub fn add(left: usize, right: usize) -> (sum: usize)
    requires
        left + right <= usize::MAX,
    ensures
        sum == left + right,
{
    left + right
}

} // verus!
