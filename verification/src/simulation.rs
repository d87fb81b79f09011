//! The simulation as a whole, and the tick that moves it forward.
//!
//! A tick runs its stages in a fixed order: timers, events, movement,
//! integration of positions, contacts, correction of the player's position.
//! All stages but the handling of restart and pause do nothing while the
//! session is paused or over.
use crate::arena::{initialize_arena, player_bounds_system, Arena};
use crate::collision::Collider;
use crate::contact::{
    contacts_of, count_meals, end_game_system, game_over_cause, meals_of,
    player_boat_collision_system, player_hook_collision_system, player_worm_collision_system,
    without_eaten,
};
use crate::core2d::{FacingDirection, Vec2};
use crate::events::{
    ContactEvents, ContactQueue, ContactQueueView, PlayerAte, PlayerBonked, PlayerBoosted,
    PlayerHooked, PlayerStarved,
};
use crate::fleet::{
    boat_spawner_system, despawn_boat_system, despawn_worms_on_game_over, reset_boats_on_restart,
    BoatSpawner, Fleet, FleetView,
};
use crate::game::{
    difficulty_scaling_system, increment_score_system, Difficulty, GameOver, GameState, GameStates,
    Score,
};
use crate::player::{
    add_boost_system, boost_cooldown_system, boost_movement_system, hunger_countdown_system,
    movement_system, sink_system, swim_movement_system, BoostSupply, HungerCountdown,
    LocomotionState, Player, PlayerStates, PlayerStats, Sink, TickInput, MAX_HUNGER_TIME,
    PLAYER_HEIGHT, PLAYER_MAX_BOOSTS, PLAYER_WIDTH,
};
use crate::rng::GameRng;
use vstd::prelude::*;

verus! {

/// What is fixed when the game is set up: the playfield and the player that
/// every session starts with.
#[derive(Clone, Copy, Debug, PartialEq, Eq, Structural)]
pub struct GameConfig {
    pub arena: Arena,
    pub stats: PlayerStats,
    pub collider: Collider,
    pub sink: Sink,
    pub hunger_time: u64,
    pub hunger_bonus: u32,
    pub max_boosts: u8,
}

impl GameConfig {
    /// Whether this is well formed: every part is, and the parts fit together.
    pub open spec fn wf(&self) -> bool {
        &&& self.arena.wf()
        &&& self.stats.wf()
        &&& self.collider.wf()
        &&& self.hunger_time <= MAX_HUNGER_TIME
    }

    /// The player that a session starts with: at rest in the middle of the
    /// playfield, facing right, idle, with all its dashes and all its time.
    pub open spec fn fresh_player(&self, id: u64) -> Player {
        Player {
            id,
            stats: self.stats,
            position: Vec2 { x: 0, y: 0 },
            velocity: Vec2 { x: 0, y: 0 },
            facing: FacingDirection { is_right: true },
            collider: self.collider,
            sink: self.sink,
            state: LocomotionState::Idle,
            cooldown: None,
            boost_supply: BoostSupply { max_boosts: self.max_boosts, count: self.max_boosts },
            hunger: HungerCountdown {
                time_left: self.hunger_time,
                extra_time_per_worm: self.hunger_bonus,
                starved: false,
            },
        }
    }

    /// The standard game: the standard playfield, and a player 32 units
    /// wide and high that swims at 400 units per second, dashes at 1500 for
    /// a tenth of a second, rests for two tenths, sinks by 10, starts with
    /// three dashes and thirty seconds, and gains three seconds with each
    /// meal.
    pub open spec fn spec_standard() -> GameConfig {
        GameConfig {
            arena: Arena {
                width: crate::arena::DEFAULT_ARENA_WIDTH,
                height: crate::arena::DEFAULT_ARENA_HEIGHT,
                offset: crate::arena::DEFAULT_ARENA_OFFSET,
            },
            stats: PlayerStats {
                boost_speed: 1_500_000,
                boost_duration: 100_000,
                boost_cooldown: 200_000,
                speed: 400_000,
                acceleration: 800,
                traction: 800,
                stop_threshold: 100,
            },
            collider: Collider { width: PLAYER_WIDTH, height: PLAYER_HEIGHT },
            sink: Sink { weight: 10_000 },
            hunger_time: 30_000_000,
            hunger_bonus: 3_000_000,
            max_boosts: PLAYER_MAX_BOOSTS,
        }
    }

    /// The standard game.
    #[verifier::when_used_as_spec(spec_standard)]
    pub fn standard() -> (config: GameConfig)
        ensures
            config.wf(),
            config == Self::spec_standard(),
    {
        GameConfig {
            arena: initialize_arena(),
            stats: PlayerStats {
                boost_speed: 1_500_000,
                boost_duration: 100_000,
                boost_cooldown: 200_000,
                speed: 400_000,
                acceleration: 800,
                traction: 800,
                stop_threshold: 100,
            },
            collider: Collider { width: PLAYER_WIDTH, height: PLAYER_HEIGHT },
            sink: Sink { weight: 10_000 },
            hunger_time: 30_000_000,
            hunger_bonus: 3_000_000,
            max_boosts: PLAYER_MAX_BOOSTS,
        }
    }

    /// Whether the setup is well formed.
    pub fn is_valid(&self) -> (ok: bool)
        ensures
            ok == self.wf(),
    {
        self.arena.width >= 0 && self.arena.height >= 0 && self.stats.boost_speed >= 0
            && self.stats.speed >= 0 && self.stats.stop_threshold >= 0 && self.stats.acceleration
            <= 1000 && self.stats.traction <= 1000 && self.stats.boost_duration
            <= crate::timer::MAX_TIMER_DURATION && self.stats.boost_cooldown
            <= crate::timer::MAX_TIMER_DURATION && self.collider.width >= 0 && self.collider.height
            >= 0 && self.hunger_time <= MAX_HUNGER_TIME
    }

    /// Makes the player that a session starts with.
    pub fn spawn_player_entity(&self, id: u64) -> (player: Player)
        requires
            self.wf(),
        ensures
            player == self.fresh_player(id),
            player.wf(),
    {
        Player {
            id,
            stats: self.stats,
            position: Vec2 { x: 0, y: 0 },
            velocity: Vec2 { x: 0, y: 0 },
            facing: FacingDirection { is_right: true },
            collider: self.collider,
            sink: self.sink,
            state: LocomotionState::Idle,
            cooldown: None,
            boost_supply: BoostSupply { max_boosts: self.max_boosts, count: self.max_boosts },
            hunger: HungerCountdown {
                time_left: self.hunger_time,
                extra_time_per_worm: self.hunger_bonus,
                starved: false,
            },
        }
    }
}

/// What a tick tells the outside: whether the game was restarted, whether
/// the player started a dash or starved, and, in the tick that ends the
/// game, how it ended and with which score.
#[derive(Clone, Copy, Debug, PartialEq, Eq, Structural)]
pub struct TickReport {
    pub restarted: bool,
    pub boosted: Option<PlayerBoosted>,
    pub starved: Option<PlayerStarved>,
    pub game_over: Option<GameOver>,
    pub final_score: Option<u32>,
}

/// The whole state of the game.
#[derive(Debug)]
pub struct Simulation {
    pub config: GameConfig,
    pub rng: GameRng,
    pub game_state: GameState,
    pub game_over: Option<GameOver>,
    pub score: Score,
    pub difficulty: Difficulty,
    pub spawner: BoatSpawner,
    pub player: Player,
    pub fleet: Fleet,
    pub contacts: ContactQueue,
}

/// The whole state of the game, as sequences.
pub struct SimulationView {
    pub config: GameConfig,
    pub rng: GameRng,
    pub game_state: GameState,
    pub game_over: Option<GameOver>,
    pub score: Score,
    pub difficulty: Difficulty,
    pub spawner: BoatSpawner,
    pub player: Player,
    pub fleet: FleetView,
    pub contacts: ContactQueueView,
}

impl View for Simulation {
    type V = SimulationView;

    open spec fn view(&self) -> SimulationView {
        SimulationView {
            config: self.config,
            rng: self.rng,
            game_state: self.game_state,
            game_over: self.game_over,
            score: self.score,
            difficulty: self.difficulty,
            spawner: self.spawner,
            player: self.player,
            fleet: self.fleet@,
            contacts: self.contacts@,
        }
    }
}

/// The id that follows `id`, or `id` itself when the ids have run out.
pub open spec fn next_id_after(id: u64) -> u64 {
    if id < u64::MAX {
        (id + 1) as u64
    } else {
        id
    }
}

/// The supply after a dash has been added for each of `meals` meals, up to
/// a full supply.
pub open spec fn restocked(supply: BoostSupply, meals: nat) -> BoostSupply {
    BoostSupply {
        count: if supply.count + meals <= supply.max_boosts {
            (supply.count + meals) as u8
        } else {
            supply.max_boosts
        },
        ..supply
    }
}

impl SimulationView {
    /// Whether this is well formed: every part is, and the parts fit together.
    pub open spec fn wf(self) -> bool {
        &&& self.config.wf()
        &&& self.player.wf()
        &&& self.score.wf()
        &&& self.difficulty.wf()
        &&& self.spawner.wf()
        &&& self.fleet.ordered()
        &&& (self.game_over.is_some() <==> self.game_state.cur_state == GameStates::GameOver)
    }

    /// Whether the session runs.
    pub open spec fn is_running(self) -> bool {
        self.game_state.cur_state == GameStates::Running
    }

    /// A new game that draws from `rng`. The player takes the id
    /// `first_id`, and the fleet hands out the ids after it.
    pub open spec fn fresh(config: GameConfig, rng: GameRng, first_id: u64) -> SimulationView {
        SimulationView {
            config,
            rng,
            game_state: GameState::new(),
            game_over: None,
            score: Score::new(),
            difficulty: Difficulty::new(),
            spawner: BoatSpawner::new(),
            player: config.fresh_player(first_id),
            fleet: FleetView::empty(next_id_after(first_id)),
            contacts: ContactQueueView::empty(),
        }
    }

    /// The game after a restart with the fresh seed `seed`: a new game with
    /// the same setup, whose player takes the next id of the fleet.
    pub open spec fn restarted(self, seed: [u8; 32]) -> SimulationView {
        SimulationView::fresh(self.config, GameRng { seed, word_pos: 0 }, self.fleet.next_id)
    }

    /// The game at the start of a tick: the contacts of the tick before can
    /// now be read.
    pub open spec fn begun(self) -> SimulationView {
        SimulationView { contacts: self.contacts.advance(), ..self }
    }

    /// How many worms the player ate in the tick before.
    pub open spec fn meals(self) -> nat {
        meals_of(self.contacts.previous.ate, self.player.id)
    }

    /// Whether the player starves in a tick of `dt` microseconds.
    pub open spec fn starves(self, dt: u32) -> bool {
        self.is_running() && self.player.hunger.starves_in(dt, self.meals() > 0)
    }

    /// The game after the timers of a tick: difficulty, score, the
    /// player's cooldown and hunger, and the spawner, which may send a wave
    /// of boats at the difficulty just reached.
    pub open spec fn timed(self, input: TickInput, dt: u32) -> SimulationView {
        if !self.is_running() {
            self
        } else {
            let difficulty = self.difficulty.spec_tick(dt);
            let spawn_timer = self.spawner.spawn_timer.spec_tick(dt);
            let launched = if spawn_timer.finished {
                self.fleet.with_wave(self.rng, difficulty.multiplier, self.config.arena)
            } else {
                (self.fleet, self.rng)
            };
            SimulationView {
                difficulty,
                score: self.score.spec_tick(dt, self.meals()),
                player: Player {
                    hunger: self.player.hunger.spec_tick(dt, self.meals() > 0),
                    ..self.player.spec_boost_cooldown(dt, input.boost)
                },
                spawner: BoatSpawner { spawn_timer },
                fleet: launched.0,
                rng: launched.1,
                ..self
            }
        }
    }

    /// The game after the player got a dash for each meal.
    pub open spec fn fed(self) -> SimulationView {
        if !self.is_running() {
            self
        } else {
            SimulationView {
                player: Player {
                    boost_supply: restocked(self.player.boost_supply, self.meals()),
                    ..self.player
                },
                ..self
            }
        }
    }

    /// What ends the game in this tick, if anything does.
    pub open spec fn cause_of_end(self, starved: bool) -> Option<GameOver> {
        if self.is_running() {
            game_over_cause(
                self.contacts.previous.hooked,
                self.contacts.previous.bonked,
                starved,
                self.fleet,
                self.player.id,
            )
        } else {
            None
        }
    }

    /// The game after it was decided whether it ends in this tick. When the
    /// game ends, the worms that are left are taken away.
    pub open spec fn judged(self, starved: bool) -> SimulationView {
        match self.cause_of_end(starved) {
            Some(cause) => SimulationView {
                game_state: self.game_state.spec_transition(GameStates::GameOver),
                game_over: Some(cause),
                fleet: FleetView { worms: Seq::empty(), ..self.fleet },
                ..self
            },
            None => self,
        }
    }

    /// The game after pausing was toggled, if it was.
    pub open spec fn toggled(self, input: TickInput) -> SimulationView {
        if input.pause {
            SimulationView { game_state: self.game_state.spec_toggle_pause(), ..self }
        } else {
            self
        }
    }

    /// Whether the player starts a dash in this tick.
    pub open spec fn boost_begins(self, input: TickInput) -> bool {
        &&& self.is_running()
        &&& self.player.state.kind() != PlayerStates::Boost
        &&& input.boost
        &&& self.player.boost_starts()
    }

    /// The game after the player's input was turned into a change of its
    /// state.
    pub open spec fn steered(self, input: TickInput) -> SimulationView {
        if !self.is_running() {
            self
        } else {
            SimulationView { player: self.player.spec_handle_input(input), ..self }
        }
    }

    /// The game after the events of a tick: meals, the end of the game,
    /// pause, and the player's input, in this order.
    pub open spec fn handled(self, input: TickInput, starved: bool) -> SimulationView {
        self.fed().judged(starved).toggled(input).steered(input)
    }

    /// The game after the player's velocity was computed.
    pub open spec fn propelled(self, input: TickInput, dt: u32) -> SimulationView {
        if !self.is_running() {
            self
        } else {
            SimulationView { player: self.player.spec_locomotion(input, dt).spec_sink(), ..self }
        }
    }

    /// The game after player and boats moved along their velocities.
    pub open spec fn integrated(self, dt: u32) -> SimulationView {
        if !self.is_running() {
            self
        } else {
            SimulationView {
                player: self.player.spec_integrate(dt),
                fleet: self.fleet.moved(dt),
                ..self
            }
        }
    }

    /// The game after the contacts of the player were found and written to
    /// the queue for the next tick. Worms that the player touches are
    /// eaten and gone at once; boats that have left are taken away after
    /// the contacts were found.
    pub open spec fn collided(self) -> SimulationView {
        if !self.is_running() {
            self
        } else {
            SimulationView {
                contacts: ContactQueueView {
                    current: contacts_of(self.player, self.fleet),
                    ..self.contacts
                },
                fleet: without_eaten(self.player, self.fleet).without_departed(
                    self.config.arena,
                ),
                ..self
            }
        }
    }

    /// The game after the player was pushed back into the playfield.
    pub open spec fn corrected(self) -> SimulationView {
        if !self.is_running() {
            self
        } else {
            SimulationView {
                player: Player {
                    position: self.config.arena.spec_keep_inside(
                        self.player.position,
                        self.player.collider,
                    ),
                    ..self.player
                },
                ..self
            }
        }
    }

    /// The game as the events of a tick find it: after the start of the
    /// tick and its timers.
    pub open spec fn before_events(self, input: TickInput, dt: u32) -> SimulationView {
        self.begun().timed(input, dt)
    }

    /// The game after a tick of `dt` microseconds with the input `input`.
    /// A restart takes the whole tick.
    pub open spec fn stepped(self, input: TickInput, dt: u32) -> SimulationView {
        match input.restart {
            Some(seed) => self.restarted(seed),
            None => self.before_events(input, dt).handled(
                input,
                self.begun().starves(dt),
            ).propelled(input, dt).integrated(dt).collided().corrected(),
        }
    }

    /// What the tick tells the outside.
    pub open spec fn report(self, input: TickInput, dt: u32) -> TickReport {
        match input.restart {
            Some(_) => TickReport {
                restarted: true,
                boosted: None,
                starved: None,
                game_over: None,
                final_score: None,
            },
            None => {
                let starved = self.begun().starves(dt);
                let fed = self.before_events(input, dt).fed();
                let cause = fed.cause_of_end(starved);
                let ready = fed.judged(starved).toggled(input);
                TickReport {
                    restarted: false,
                    boosted: if ready.boost_begins(input) {
                        Some(PlayerBoosted { player: self.player.id })
                    } else {
                        None
                    },
                    starved: if starved {
                        Some(PlayerStarved { player_entity: self.player.id })
                    } else {
                        None
                    },
                    game_over: cause,
                    final_score: if cause.is_some() {
                        Some(fed.score.count)
                    } else {
                        None
                    },
                }
            },
        }
    }
}

/// One tick of a recorded game: its input and its length in microseconds.
#[derive(Clone, Copy, Debug)]
pub struct RecordedTick {
    pub input: TickInput,
    pub dt: u32,
}

impl SimulationView {
    /// The game after the recorded ticks were played one after the other.
    pub open spec fn run(self, ticks: Seq<RecordedTick>) -> SimulationView
        decreases ticks.len(),
    {
        if ticks.len() == 0 {
            self
        } else {
            self.run(ticks.drop_last()).stepped(ticks.last().input, ticks.last().dt)
        }
    }
}

impl Simulation {
    /// Whether this is well formed: every part is, and the parts fit together.
    pub open spec fn wf(&self) -> bool {
        self@.wf()
    }

    /// Whether the game is well formed, as every game is that was made by
    /// `new` and changed by nothing but its own ticks.
    pub fn is_valid(&self) -> (ok: bool)
        ensures
            ok == self.wf(),
    {
        let timers_ok: bool = self.score.timer.is_valid() && self.score.timer.is_repeating()
            && self.difficulty.timer.is_valid() && self.difficulty.timer.is_repeating()
            && self.spawner.spawn_timer.is_valid() && self.spawner.spawn_timer.is_repeating();
        let difficulty_ok: bool = 1 <= self.difficulty.multiplier && self.difficulty.multiplier
            <= crate::game::MAX_DIFFICULTY;
        let over_ok: bool = self.game_over.is_some() == self.game_state.is_game_over();
        self.config.is_valid() && self.player.is_valid() && timers_ok && difficulty_ok && over_ok
            && self.fleet.is_ordered()
    }

    /// A new game that draws from `rng`.
    pub fn new(config: GameConfig, rng: GameRng) -> (sim: Simulation)
        requires
            config.wf(),
        ensures
            sim@ == SimulationView::fresh(config, rng, 0),
            sim.wf(),
    {
        Simulation {
            config,
            rng,
            game_state: GameState::new(),
            game_over: None,
            score: Score::new(),
            difficulty: Difficulty::new(),
            spawner: BoatSpawner::new(),
            player: config.spawn_player_entity(0),
            fleet: Fleet::new(1),
            contacts: ContactQueue::new(),
        }
    }

    /// Starts the game over with the fresh seed `seed`.
    pub fn restart_game(&mut self, seed: [u8; 32])
        requires
            old(self).wf(),
        ensures
            final(self)@ == old(self)@.restarted(seed),
            final(self).wf(),
    {
        let id: u64 = self.fleet.take_id();
        crate::rng::reset_rng_on_restart(&mut self.rng, seed);
        crate::game::reset_game_state_on_restart(&mut self.game_state);
        self.game_over = None;
        crate::game::reset_score_on_restart(&mut self.score);
        crate::game::reset_difficulty_on_restart(&mut self.difficulty);
        reset_boats_on_restart(&mut self.fleet, &mut self.spawner);
        self.player = self.config.spawn_player_entity(id);
        self.contacts.clear();
    }

    /// Runs the timers of a tick. Returns whether the player starves.
    pub fn run_timers(&mut self, input: &TickInput, dt: u32) -> (starved: bool)
        requires
            old(self).wf(),
        ensures
            final(self)@ == old(self)@.timed(*input, dt),
            starved == old(self)@.starves(dt),
            final(self).wf(),
    {
        if !self.game_state.is_running() {
            return false;
        }
        let meals: usize = count_meals(&self.contacts.previous.ate, self.player.id);
        difficulty_scaling_system(&mut self.difficulty, dt);
        increment_score_system(&mut self.score, dt, meals);
        boost_cooldown_system(&mut self.player, dt, input.boost);
        let starved: bool = hunger_countdown_system(&mut self.player.hunger, dt, meals > 0);
        boat_spawner_system(
            &mut self.spawner,
            dt,
            self.difficulty.multiplier,
            &self.config.arena,
            &mut self.rng,
            &mut self.fleet,
        );
        starved
    }

    /// Handles the events of a tick: the contacts of the tick before, the
    /// starving of this one, and the player's input.
    pub fn handle_events(&mut self, input: &TickInput, starved: bool) -> (report: (
        Option<GameOver>,
        bool,
    ))
        requires
            old(self).wf(),
        ensures
            final(self)@ == old(self)@.handled(*input, starved),
            report.0 == old(self)@.fed().cause_of_end(starved),
            report.1 == old(self)@.fed().judged(starved).toggled(*input).boost_begins(*input),
            final(self).wf(),
    {
        let mut cause: Option<GameOver> = None;
        if self.game_state.is_running() {
            let meals: usize = count_meals(&self.contacts.previous.ate, self.player.id);
            add_boost_system(&mut self.player.boost_supply, meals);
            cause = end_game_system(
                &self.contacts.previous.hooked,
                &self.contacts.previous.bonked,
                starved,
                &self.fleet,
                self.player.id,
            );
            if cause.is_some() {
                self.game_state.transition(GameStates::GameOver);
                self.game_over = cause;
                despawn_worms_on_game_over(&mut self.fleet);
            }
        }
        assert(self@ == old(self)@.fed().judged(starved));
        if input.pause {
            self.game_state.toggle_pause();
        }
        assert(self@ == old(self)@.fed().judged(starved).toggled(*input));
        let mut boosted: bool = false;
        if self.game_state.is_running() {
            boosted = swim_movement_system(&mut self.player, input);
        }
        (cause, boosted)
    }

    /// Computes the player's velocity for this tick.
    pub fn run_movement(&mut self, input: &TickInput, dt: u32)
        requires
            old(self).wf(),
        ensures
            final(self)@ == old(self)@.propelled(*input, dt),
            final(self).wf(),
    {
        if self.game_state.is_running() {
            boost_movement_system(&mut self.player, input, dt);
            let sink: Sink = self.player.sink;
            sink_system(&mut self.player.velocity, &sink);
        }
    }

    /// Moves player and boats along their velocities.
    pub fn finalize_movement(&mut self, dt: u32)
        requires
            old(self).wf(),
        ensures
            final(self)@ == old(self)@.integrated(dt),
            final(self).wf(),
    {
        if self.game_state.is_running() {
            movement_system(&mut self.player, dt);
            self.fleet.move_boats(dt);
        }
    }

    /// Finds the contacts of the player and takes away what is gone.
    pub fn calculate_collisions(&mut self)
        requires
            old(self).wf(),
        ensures
            final(self)@ == old(self)@.collided(),
            final(self).wf(),
    {
        if self.game_state.is_running() {
            let hooked: Vec<PlayerHooked> = player_hook_collision_system(&self.player, &self.fleet);
            let bonked: Vec<PlayerBonked> = player_boat_collision_system(&self.player, &self.fleet);
            let ate: Vec<PlayerAte> = player_worm_collision_system(&self.player, &mut self.fleet);
            self.contacts.current = ContactEvents { hooked, ate, bonked };
            despawn_boat_system(&self.config.arena, &mut self.fleet);
        }
    }

    /// Pushes the player back into the playfield.
    pub fn adjust_positions(&mut self)
        requires
            old(self).wf(),
        ensures
            final(self)@ == old(self)@.corrected(),
            final(self).wf(),
    {
        if self.game_state.is_running() {
            self.player.position = player_bounds_system(
                &self.config.arena,
                &self.player.collider,
                self.player.position,
            );
        }
    }

    /// Plays a recording, tick by tick.
    pub fn replay(&mut self, ticks: &Vec<RecordedTick>)
        requires
            old(self).wf(),
        ensures
            final(self)@ == old(self)@.run(ticks@),
            final(self).wf(),
    {
        let mut i: usize = 0;
        assert(ticks@.take(0) =~= Seq::<RecordedTick>::empty());
        while i < ticks.len()
            invariant
                i <= ticks.len(),
                self.wf(),
                self@ == old(self)@.run(ticks@.take(i as int)),
            decreases ticks.len() - i,
        {
            assert(ticks@.take(i + 1).drop_last() =~= ticks@.take(i as int));
            let tick: RecordedTick = ticks[i];
            self.step(&tick.input, tick.dt);
            i = i + 1;
        }
        assert(ticks@.take(ticks.len() as int) =~= ticks@);
    }

    /// Moves the game forward by one tick of `dt` microseconds.
    pub fn step(&mut self, input: &TickInput, dt: u32) -> (report: TickReport)
        requires
            old(self).wf(),
        ensures
            final(self)@ == old(self)@.stepped(*input, dt),
            report == old(self)@.report(*input, dt),
            final(self).wf(),
    {
        match input.restart {
            Some(seed) => {
                self.restart_game(seed);
                TickReport {
                    restarted: true,
                    boosted: None,
                    starved: None,
                    game_over: None,
                    final_score: None,
                }
            },
            None => {
                let player_id: u64 = self.player.id;
                self.contacts.advance();
                let starved: bool = self.run_timers(input, dt);
                let score: u32 = self.score.count;
                let events: (Option<GameOver>, bool) = self.handle_events(input, starved);
                self.run_movement(input, dt);
                self.finalize_movement(dt);
                self.calculate_collisions();
                self.adjust_positions();
                TickReport {
                    restarted: false,
                    boosted: if events.1 {
                        Some(PlayerBoosted { player: player_id })
                    } else {
                        None
                    },
                    starved: if starved {
                        Some(PlayerStarved { player_entity: player_id })
                    } else {
                        None
                    },
                    game_over: events.0,
                    final_score: if events.0.is_some() {
                        Some(score)
                    } else {
                        None
                    },
                }
            },
        }
    }
}

} // verus!
