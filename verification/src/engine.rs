//! The game behind a small interface: set it up, feed it the keys pressed
//! in each tick, and read back what happened.
use crate::core2d::Vec2;
use crate::player::{LocomotionState, Player, TickInput};
use crate::rng::{widen_seed, widened_seed, GameRng};
use crate::simulation::{GameConfig, Simulation, SimulationView};
use vstd::prelude::*;

verus! {

/// Length of a tick, in microseconds, unless the setup says otherwise.
pub const DEFAULT_TICK_MICROS: u32 = 10_000;

/// How a game is set up: the seed of its random stream and the length of
/// its ticks in microseconds.
#[derive(Clone, Copy, Debug, PartialEq, Eq, Structural)]
pub struct FishGameConfig {
    pub random_seed: u32,
    pub tick_micros: u32,
}

impl Default for FishGameConfig {
    fn default() -> (config: FishGameConfig)
        ensures
            config == (FishGameConfig { random_seed: 0, tick_micros: DEFAULT_TICK_MICROS }),
    {
        FishGameConfig { random_seed: 0, tick_micros: DEFAULT_TICK_MICROS }
    }
}

/// What the player asks for in a tick: a key that is held, pausing or
/// resuming, or a restart from a fresh short seed.
#[derive(Clone, Copy, Debug, PartialEq, Eq, Structural)]
pub enum FishGameInputEvent {
    UpPressed,
    DownPressed,
    LeftPressed,
    RightPressed,
    BoostPressed,
    PausePressed,
    RestartPressed(u32),
}

/// The keys held in one tick.
#[derive(Debug)]
pub struct FishGameInputState {
    pub inputs: Vec<FishGameInputEvent>,
}

impl Default for FishGameInputState {
    fn default() -> (state: FishGameInputState)
        ensures
            state.inputs@ == Seq::<FishGameInputEvent>::empty(),
    {
        FishGameInputState { inputs: Vec::new() }
    }
}

/// How the player moves, as the outside sees it.
#[derive(Clone, Copy, Debug, PartialEq, Eq, Structural)]
pub enum PlayerState {
    Idle,
    Swimming,
    Boosting,
}

/// Where the player is and how it moves.
#[derive(Clone, Copy, Debug, PartialEq, Eq, Structural)]
pub struct PlayerInfo {
    pub pos: Vec2,
    pub state: PlayerState,
}

/// What the outside can read after each tick: the setup, the keys of every
/// tick so far with the number of the tick, the number of ticks, and the
/// player.
#[derive(Debug)]
pub struct FishGameState {
    pub game_config: FishGameConfig,
    pub inputs_processed: Vec<(u32, Vec<FishGameInputEvent>)>,
    pub tick: u32,
    pub player_info: PlayerInfo,
}

/// A game.
#[derive(Debug)]
pub struct FishGame {
    pub simulation: Simulation,
    pub state: FishGameState,
}

/// The seed of the first restart asked for at or after the index `from`.
pub open spec fn restart_from(events: Seq<FishGameInputEvent>, from: int) -> Option<u32>
    decreases events.len() - from,
{
    if from < 0 || from >= events.len() {
        None
    } else {
        match events[from] {
            FishGameInputEvent::RestartPressed(seed) => Some(seed),
            _ => restart_from(events, from + 1),
        }
    }
}

/// The input of a tick with the events `events`: a key is held if its
/// event is among them, pausing is toggled if it is asked for, and the game
/// is restarted from the seed of the first restart among them.
pub open spec fn input_of(events: Seq<FishGameInputEvent>) -> TickInput {
    TickInput {
        up: events.contains(FishGameInputEvent::UpPressed),
        down: events.contains(FishGameInputEvent::DownPressed),
        left: events.contains(FishGameInputEvent::LeftPressed),
        right: events.contains(FishGameInputEvent::RightPressed),
        boost: events.contains(FishGameInputEvent::BoostPressed),
        pause: events.contains(FishGameInputEvent::PausePressed),
        restart: match restart_from(events, 0) {
            Some(seed) => Some(widen_seed(seed)),
            None => None,
        },
    }
}

/// What the outside sees of a player.
pub open spec fn info_of(player: Player) -> PlayerInfo {
    PlayerInfo {
        pos: player.position,
        state: match player.state {
            LocomotionState::Idle => PlayerState::Idle,
            LocomotionState::Swim => PlayerState::Swimming,
            LocomotionState::Boost(_) => PlayerState::Boosting,
        },
    }
}

/// The keys among `events`, without pause and restart.
pub open spec fn keys_of(events: Seq<FishGameInputEvent>) -> TickInput {
    TickInput { restart: None, ..input_of(events) }
}

/// Collects the events of a tick.
pub fn read_inputs(events: &Vec<FishGameInputEvent>) -> (input: TickInput)
    ensures
        input == input_of(events@),
{
    let mut input: TickInput = TickInput::none();
    let mut restart: Option<u32> = None;
    let mut i: usize = 0;
    while i < events.len()
        invariant
            i <= events.len(),
            input == keys_of(events@.take(i as int)),
            match restart {
                Some(seed) => restart_from(events@, 0) == Some(seed),
                None => restart_from(events@, 0) == restart_from(events@, i as int),
            },
        decreases events.len() - i,
    {
        proof {
            let seen = events@.take(i as int);
            let next = events@.take(i + 1);
            assert(next =~= seen.push(events@[i as int]));
            assert forall|e: FishGameInputEvent|
                next.contains(e) <==> seen.contains(e) || e == events@[i as int] by {
                if seen.contains(e) {
                    let k = choose|k: int| 0 <= k < seen.len() && seen[k] == e;
                    assert(next[k] == e);
                }
                if e == events@[i as int] {
                    assert(next[i as int] == e);
                }
            }
        }
        match events[i] {
            FishGameInputEvent::UpPressed => {
                input.up = true;
            },
            FishGameInputEvent::DownPressed => {
                input.down = true;
            },
            FishGameInputEvent::LeftPressed => {
                input.left = true;
            },
            FishGameInputEvent::RightPressed => {
                input.right = true;
            },
            FishGameInputEvent::BoostPressed => {
                input.boost = true;
            },
            FishGameInputEvent::PausePressed => {
                input.pause = true;
            },
            FishGameInputEvent::RestartPressed(seed) => {
                if restart.is_none() {
                    restart = Some(seed);
                }
            },
        }
        i = i + 1;
    }
    assert(events@.take(events.len() as int) =~= events@);
    match restart {
        Some(seed) => {
            input.restart = Some(widened_seed(seed));
        },
        None => {},
    }
    input
}

fn describe(player: &Player) -> (info: PlayerInfo)
    ensures
        info == info_of(*player),
{
    PlayerInfo {
        pos: player.position,
        state: match player.state {
            LocomotionState::Idle => PlayerState::Idle,
            LocomotionState::Swim => PlayerState::Swimming,
            LocomotionState::Boost(_) => PlayerState::Boosting,
        },
    }
}

impl FishGame {
    /// Whether the simulation is well formed, the player is described as the
    /// simulation has it, and every tick so far has its record.
    pub open spec fn wf(&self) -> bool {
        &&& self.simulation.wf()
        &&& self.state.player_info == info_of(self.simulation.player)
        &&& self.state.tick == self.state.inputs_processed@.len()
    }

    /// Whether the game is well formed and can count another tick.
    pub fn can_update(&self) -> (ok: bool)
        ensures
            ok == (self.wf() && self.state.tick < u32::MAX),
    {
        let info: PlayerInfo = describe(&self.simulation.player);
        let same_place: bool = info.pos.x == self.state.player_info.pos.x && info.pos.y
            == self.state.player_info.pos.y;
        let same_state: bool = match (info.state, self.state.player_info.state) {
            (PlayerState::Idle, PlayerState::Idle) => true,
            (PlayerState::Swimming, PlayerState::Swimming) => true,
            (PlayerState::Boosting, PlayerState::Boosting) => true,
            _ => false,
        };
        self.simulation.is_valid() && same_place && same_state && self.state.tick < u32::MAX
            && self.state.tick as usize == self.state.inputs_processed.len()
    }

    /// A new game of the standard setup, with its random stream started
    /// from the seed of `config`.
    pub fn init(config: &FishGameConfig) -> (game: FishGame)
        ensures
            game.wf(),
            game.state.game_config == *config,
            game.state.tick == 0,
            game.state.inputs_processed@.len() == 0,
            game.simulation.rng == (GameRng { seed: widen_seed(config.random_seed), word_pos: 0 }),
            game.simulation@ == SimulationView::fresh(
                GameConfig::spec_standard(),
                game.simulation.rng,
                0,
            ),
    {
        let setup: GameConfig = GameConfig::standard();
        let simulation: Simulation = Simulation::new(
            setup,
            GameRng::from_u32(config.random_seed),
        );
        let player_info: PlayerInfo = describe(&simulation.player);
        FishGame {
            simulation,
            state: FishGameState {
                game_config: *config,
                inputs_processed: Vec::new(),
                tick: 0,
                player_info,
            },
        }
    }

    /// Moves the game forward by one tick in which the keys of
    /// `input_state` are held, records the keys under the number of the
    /// tick, and hands back what the outside can read.
    pub fn update(&mut self, input_state: FishGameInputState) -> (state: &FishGameState)
        requires
            old(self).wf(),
            old(self).state.tick < u32::MAX,
        ensures
            final(self).wf(),
            *state == final(self).state,
            final(self).state.game_config == old(self).state.game_config,
            final(self).state.tick == old(self).state.tick + 1,
            final(self).state.inputs_processed@.len() == old(self).state.inputs_processed@.len()
                + 1,
            final(self).state.inputs_processed@.last().0 == final(self).state.tick,
            final(self).state.inputs_processed@.last().1@ == input_state.inputs@,
            final(self).state.inputs_processed@.drop_last() == old(self).state.inputs_processed@,
            final(self).simulation@ == old(self).simulation@.stepped(
                input_of(input_state.inputs@),
                old(self).state.game_config.tick_micros,
            ),
    {
        let input: TickInput = read_inputs(&input_state.inputs);
        self.simulation.step(&input, self.state.game_config.tick_micros);
        let next_tick: u32 = self.state.tick + 1;
        self.state.inputs_processed.push((next_tick, input_state.inputs));
        self.state.tick = next_tick;
        self.state.player_info = describe(&self.simulation.player);
        assert(self.state.inputs_processed@.drop_last() =~= old(self).state.inputs_processed@);
        &self.state
    }
}

} // verus!
