//! The session: whether the game runs, how hard it is, and the score.
use crate::timer::{Timer, TimerMode};
use vstd::prelude::*;

verus! {

/// Highest difficulty.
pub const MAX_DIFFICULTY: u8 = 4;

/// Points for each worm eaten.
pub const SCORE_PER_WORM: u8 = 5;

/// Time between two rises of the difficulty, in microseconds.
pub const DIFFICULTY_PERIOD: u64 = 10_000_000;

/// Time between two points scored for staying alive, in microseconds.
pub const SCORE_PERIOD: u64 = 1_000_000;

#[derive(Clone, Copy, Debug, PartialEq, Eq, Structural)]
pub enum GameStates {
    Running,
    Paused,
    GameOver,
}

/// The state of the session and the state it was in before.
#[derive(Clone, Copy, Debug, PartialEq, Eq, Structural)]
pub struct GameState {
    pub cur_state: GameStates,
    pub prev_state: GameStates,
}

impl GameState {
    /// The state of a session that has just begun.
    pub open spec fn spec_new() -> GameState {
        GameState { cur_state: GameStates::Running, prev_state: GameStates::Running }
    }

    /// The state of a session that has just begun.
    #[verifier::when_used_as_spec(spec_new)]
    pub fn new() -> (state: GameState)
        ensures
            state == Self::spec_new(),
    {
        GameState { cur_state: GameStates::Running, prev_state: GameStates::Running }
    }

    /// The session after it went over to `dest_state`.
    pub open spec fn spec_transition(self, dest_state: GameStates) -> GameState {
        GameState { cur_state: dest_state, prev_state: self.cur_state }
    }

    /// Goes over to `dest_state` and remembers the state left.
    pub fn transition(&mut self, dest_state: GameStates)
        ensures
            *final(self) == old(self).spec_transition(dest_state),
    {
        self.prev_state = self.cur_state;
        self.cur_state = dest_state;
    }

    /// Whether the session runs.
    pub open spec fn spec_is_running(&self) -> bool {
        self.cur_state == GameStates::Running
    }

    #[verifier::when_used_as_spec(spec_is_running)]
    pub fn is_running(&self) -> (running: bool)
        ensures
            running == (self.cur_state == GameStates::Running),
    {
        match self.cur_state {
            GameStates::Running => true,
            _ => false,
        }
    }

    /// Whether the session is over.
    pub open spec fn spec_is_game_over(&self) -> bool {
        self.cur_state == GameStates::GameOver
    }

    #[verifier::when_used_as_spec(spec_is_game_over)]
    pub fn is_game_over(&self) -> (over: bool)
        ensures
            over == (self.cur_state == GameStates::GameOver),
    {
        match self.cur_state {
            GameStates::GameOver => true,
            _ => false,
        }
    }

    /// The session after pausing was toggled: a running session pauses, a
    /// paused one runs again, and a session that is over stays over.
    pub open spec fn spec_toggle_pause(self) -> GameState {
        match self.cur_state {
            GameStates::Running => self.spec_transition(GameStates::Paused),
            GameStates::Paused => self.spec_transition(GameStates::Running),
            GameStates::GameOver => self,
        }
    }

    /// Pauses a running session and resumes a paused one.
    pub fn toggle_pause(&mut self)
        ensures
            *final(self) == old(self).spec_toggle_pause(),
    {
        match self.cur_state {
            GameStates::Running => {
                self.transition(GameStates::Paused);
            },
            GameStates::Paused => {
                self.transition(GameStates::Running);
            },
            GameStates::GameOver => {},
        }
    }
}

/// Pauses a running session. Any other session stays as it is.
pub fn pause_game(game_state: &mut GameState)
    ensures
        *final(game_state) == if old(game_state).is_running() {
            old(game_state).spec_transition(GameStates::Paused)
        } else {
            *old(game_state)
        },
{
    if game_state.is_running() {
        game_state.transition(GameStates::Paused);
    }
}

/// Resumes a paused session. Any other session stays as it is.
pub fn unpause_game(game_state: &mut GameState)
    ensures
        *final(game_state) == if old(game_state).cur_state == GameStates::Paused {
            old(game_state).spec_transition(GameStates::Running)
        } else {
            *old(game_state)
        },
{
    if let GameStates::Paused = game_state.cur_state {
        game_state.transition(GameStates::Running);
    }
}

/// Puts the session back to running, as a restart does.
pub fn reset_game_state_on_restart(game_state: &mut GameState)
    ensures
        *final(game_state) == GameState::new(),
{
    game_state.cur_state = GameStates::Running;
    game_state.prev_state = GameStates::Running;
}

/// The end of a session, with the boat that caught the player if one did.
#[derive(Clone, Copy, Debug, PartialEq, Eq, Structural)]
pub struct GameOver {
    pub winning_boat: Option<u64>,
}

/// The score and the timer that adds a point for every second survived.
#[derive(Clone, Copy, Debug, PartialEq, Eq, Structural)]
pub struct Score {
    pub count: u32,
    pub timer: Timer,
}

/// `count` raised by `by`, stopping at the highest score there is.
pub open spec fn raised(count: int, by: int) -> int {
    if count + by <= u32::MAX {
        count + by
    } else {
        u32::MAX as int
    }
}

impl Score {
    /// Whether this is well formed: every part is, and the parts fit together.
    pub open spec fn wf(&self) -> bool {
        self.timer.wf() && self.timer.mode == TimerMode::Repeating
    }

    /// The score of a session that has just begun.
    pub open spec fn spec_new() -> Score {
        Score { count: 0, timer: Timer::from_micros(SCORE_PERIOD, TimerMode::Repeating) }
    }

    /// The score of a session that has just begun.
    #[verifier::when_used_as_spec(spec_new)]
    pub fn new() -> (score: Score)
        ensures
            score == Self::spec_new(),
            score.wf(),
    {
        Score { count: 0, timer: Timer::from_micros(SCORE_PERIOD, TimerMode::Repeating) }
    }

    /// The score after a tick of `dt` microseconds in which `meals` worms
    /// were eaten: a point if the timer ran out in this tick, and the worm
    /// bonus for each meal.
    pub open spec fn spec_tick(self, dt: u32, meals: nat) -> Score {
        let timer = self.timer.spec_tick(dt);
        let survived = if timer.finished {
            raised(self.count as int, 1)
        } else {
            self.count as int
        };
        Score { count: raised(survived, SCORE_PER_WORM * meals) as u32, timer }
    }
}

/// Moves the score forward by one tick.
pub fn increment_score_system(score: &mut Score, dt: u32, meals: usize)
    requires
        old(score).wf(),
    ensures
        *final(score) == old(score).spec_tick(dt, meals as nat),
        final(score).wf(),
{
    score.timer.tick(dt);
    let mut count: u64 = score.count as u64;
    if score.timer.finished() {
        count = count + 1;
    }
    let bonus: u128 = (SCORE_PER_WORM as u128) * (meals as u128);
    let total: u128 = count as u128 + bonus;
    if count > u32::MAX as u64 || total > u32::MAX as u128 {
        score.count = u32::MAX;
    } else {
        score.count = total as u32;
    }
}

/// Sets the score back to nothing, as a restart does.
pub fn reset_score_on_restart(score: &mut Score)
    ensures
        *final(score) == Score::new(),
        final(score).wf(),
{
    *score = Score::new();
}

/// How hard the game is, from 1 to the highest difficulty, and the timer
/// that raises it.
#[derive(Clone, Copy, Debug, PartialEq, Eq, Structural)]
pub struct Difficulty {
    pub multiplier: u8,
    pub timer: Timer,
}

impl Difficulty {
    /// Whether this is well formed: every part is, and the parts fit together.
    pub open spec fn wf(&self) -> bool {
        &&& 1 <= self.multiplier <= MAX_DIFFICULTY
        &&& self.timer.wf()
        &&& self.timer.mode == TimerMode::Repeating
    }

    /// The difficulty of a session that has just begun: the lowest.
    pub open spec fn spec_new() -> Difficulty {
        Difficulty {
            multiplier: 1,
            timer: Timer::from_micros(DIFFICULTY_PERIOD, TimerMode::Repeating),
        }
    }

    /// The difficulty of a session that has just begun: the lowest.
    #[verifier::when_used_as_spec(spec_new)]
    pub fn new() -> (difficulty: Difficulty)
        ensures
            difficulty == Self::spec_new(),
            difficulty.wf(),
    {
        Difficulty {
            multiplier: 1,
            timer: Timer::from_micros(DIFFICULTY_PERIOD, TimerMode::Repeating),
        }
    }

    /// The difficulty after a tick of `dt` microseconds: one higher if the
    /// timer ran out in this tick and the highest is not reached.
    pub open spec fn spec_tick(self, dt: u32) -> Difficulty {
        let timer = self.timer.spec_tick(dt);
        Difficulty {
            multiplier: if timer.finished && self.multiplier < MAX_DIFFICULTY {
                (self.multiplier + 1) as u8
            } else {
                self.multiplier
            },
            timer,
        }
    }
}

/// Moves the difficulty forward by one tick.
pub fn difficulty_scaling_system(difficulty: &mut Difficulty, dt: u32)
    requires
        old(difficulty).wf(),
    ensures
        *final(difficulty) == old(difficulty).spec_tick(dt),
        final(difficulty).wf(),
        final(difficulty).multiplier >= old(difficulty).multiplier,
{
    difficulty.timer.tick(dt);
    if difficulty.timer.finished() && difficulty.multiplier < MAX_DIFFICULTY {
        difficulty.multiplier += 1;
    }
}

/// Sets the difficulty back to the lowest, as a restart does.
pub fn reset_difficulty_on_restart(difficulty: &mut Difficulty)
    ensures
        *final(difficulty) == Difficulty::new(),
        final(difficulty).wf(),
{
    *difficulty = Difficulty::new();
}

} // verus!
