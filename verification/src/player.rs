//! The player: how it moves, dashes, tires of dashing and grows hungry.
use crate::collision::Collider;
use crate::core2d::{
    blend, blended, clamp_i32, saturate, stretch_to, stretched_to, FacingDirection, Vec2, PER_MILLE,
};
use crate::timer::{Timer, TimerMode, MAX_TIMER_DURATION};
use vstd::prelude::*;

verus! {

/// Width of the player of the standard game.
pub const PLAYER_WIDTH: i32 = 32_000;

/// Height of the player of the standard game.
pub const PLAYER_HEIGHT: i32 = 32_000;

/// Dashes that the player of the standard game can hold.
pub const PLAYER_MAX_BOOSTS: u8 = 3;

/// Longest time, in microseconds, that a player can be away from starving.
pub const MAX_HUNGER_TIME: u64 = 0x3fff_ffff_ffff_ffff;

/// What the player intends in one tick: the directions held, whether the
/// boost button is held, whether pausing is toggled, and the fresh seed of
/// a requested restart.
#[derive(Clone, Copy, Debug)]
pub struct TickInput {
    pub up: bool,
    pub down: bool,
    pub left: bool,
    pub right: bool,
    pub boost: bool,
    pub pause: bool,
    pub restart: Option<[u8; 32]>,
}

impl TickInput {
    /// The input of a tick in which nothing is pressed.
    pub fn none() -> (input: TickInput)
        ensures
            input == (TickInput {
                up: false,
                down: false,
                left: false,
                right: false,
                boost: false,
                pause: false,
                restart: None,
            }),
    {
        TickInput {
            up: false,
            down: false,
            left: false,
            right: false,
            boost: false,
            pause: false,
            restart: None,
        }
    }
}

/// Tuning of a player, fixed when the player is made. Speeds are in
/// thousandths of a unit per second, times in microseconds, and the two
/// blending factors in thousandths.
#[derive(Clone, Copy, Debug, PartialEq, Eq, Structural)]
pub struct PlayerStats {
    pub boost_speed: i32,
    pub boost_duration: u64,
    pub boost_cooldown: u64,
    pub speed: i32,
    pub acceleration: u16,
    pub traction: u16,
    pub stop_threshold: i32,
}

impl PlayerStats {
    /// Whether this is well formed: every part is, and the parts fit together.
    pub open spec fn wf(&self) -> bool {
        &&& self.boost_speed >= 0
        &&& self.speed >= 0
        &&& self.stop_threshold >= 0
        &&& self.acceleration <= PER_MILLE
        &&& self.traction <= PER_MILLE
        &&& self.boost_duration <= MAX_TIMER_DURATION
        &&& self.boost_cooldown <= MAX_TIMER_DURATION
    }
}

/// How fast a player sinks: this much is taken from its upward speed in
/// every tick.
#[derive(Clone, Copy, Debug, PartialEq, Eq, Structural)]
pub struct Sink {
    pub weight: i32,
}

/// The dashes a player has left.
#[derive(Clone, Copy, Debug, PartialEq, Eq, Structural)]
pub struct BoostSupply {
    pub max_boosts: u8,
    pub count: u8,
}

impl BoostSupply {
    /// Whether this is well formed: every part is, and the parts fit together.
    pub open spec fn wf(&self) -> bool {
        self.count <= self.max_boosts
    }

    /// Takes one dash from the supply. Returns whether there was one.
    pub fn use_boost(&mut self) -> (used: bool)
        ensures
            used == (old(self).count > 0),
            final(self).max_boosts == old(self).max_boosts,
            final(self).count == if used {
                old(self).count - 1
            } else {
                old(self).count as int
            },
    {
        if self.count > 0 {
            self.count -= 1;
            true
        } else {
            false
        }
    }

    /// Adds one dash to the supply unless it is full. Returns whether one
    /// was added.
    pub fn add_boost(&mut self) -> (added: bool)
        ensures
            added == (old(self).count < old(self).max_boosts),
            final(self).max_boosts == old(self).max_boosts,
            final(self).count == if added {
                old(self).count + 1
            } else {
                old(self).count as int
            },
    {
        if self.count < self.max_boosts {
            self.count += 1;
            true
        } else {
            false
        }
    }
}

/// The time a player has left before it starves, in microseconds, and the
/// time that each meal adds. Once the time has run out the player has
/// starved, and the countdown stays as it is.
#[derive(Clone, Copy, Debug, PartialEq, Eq, Structural)]
pub struct HungerCountdown {
    pub time_left: u64,
    pub extra_time_per_worm: u32,
    pub starved: bool,
}

impl HungerCountdown {
    /// Whether this is well formed: every part is, and the parts fit together.
    pub open spec fn wf(&self) -> bool {
        self.time_left <= MAX_HUNGER_TIME
    }

    /// Time left once a meal, if there was one, has been added: the meal's
    /// bonus on top, but never above the longest time.
    pub open spec fn fed(&self, ate: bool) -> int {
        if ate && self.time_left + self.extra_time_per_worm <= MAX_HUNGER_TIME {
            self.time_left + self.extra_time_per_worm
        } else if ate {
            MAX_HUNGER_TIME as int
        } else {
            self.time_left as int
        }
    }

    /// Whether a tick of `dt` microseconds makes the player starve: the
    /// player had not starved before, and the tick uses up the time left.
    pub open spec fn starves_in(self, dt: u32, ate: bool) -> bool {
        !self.starved && self.fed(ate) <= dt
    }

    /// The countdown after a tick of `dt` microseconds. A countdown that
    /// has starved stays as it is.
    pub open spec fn spec_tick(self, dt: u32, ate: bool) -> HungerCountdown {
        if self.starved {
            self
        } else if self.fed(ate) <= dt {
            HungerCountdown { time_left: 0, starved: true, ..self }
        } else {
            HungerCountdown { time_left: (self.fed(ate) - dt) as u64, ..self }
        }
    }
}

/// Counts the player's hunger down by one tick of `dt` microseconds, after
/// adding the bonus of a meal if the player ate. Returns whether the player
/// starves in this tick.
pub fn hunger_countdown_system(hunger: &mut HungerCountdown, dt: u32, ate: bool) -> (starved: bool)
    requires
        old(hunger).wf(),
    ensures
        *final(hunger) == old(hunger).spec_tick(dt, ate),
        starved == old(hunger).starves_in(dt, ate),
        final(hunger).wf(),
{
    if hunger.starved {
        return false;
    }
    let mut time: u64 = hunger.time_left;
    if ate {
        if time <= MAX_HUNGER_TIME - hunger.extra_time_per_worm as u64 {
            time = time + hunger.extra_time_per_worm as u64;
        } else {
            time = MAX_HUNGER_TIME;
        }
    }
    if time <= dt as u64 {
        hunger.time_left = 0;
        hunger.starved = true;
        true
    } else {
        hunger.time_left = time - dt as u64;
        false
    }
}

/// Adds one dash for each meal, up to a full supply.
pub fn add_boost_system(supply: &mut BoostSupply, meals: usize)
    requires
        old(supply).wf(),
    ensures
        final(supply).max_boosts == old(supply).max_boosts,
        final(supply).count == if old(supply).count + meals <= old(supply).max_boosts {
            old(supply).count + meals
        } else {
            old(supply).max_boosts as int
        },
        final(supply).wf(),
{
    let mut i: usize = 0;
    while i < meals && supply.count < supply.max_boosts
        invariant
            i <= meals,
            supply.max_boosts == old(supply).max_boosts,
            supply.count <= supply.max_boosts,
            supply.count == old(supply).count + i,
        decreases meals - i,
    {
        supply.add_boost();
        i = i + 1;
    }
}

/// The three ways a player can be moving.
#[derive(Clone, Copy, Debug, PartialEq, Eq, Structural)]
pub enum PlayerStates {
    Idle,
    Swim,
    Boost,
}

/// What belongs to one dash: the fixed velocity of the dash, the time it
/// still lasts, and the state to go back to when it is over.
#[derive(Clone, Copy, Debug, PartialEq, Eq, Structural)]
pub struct BoostData {
    pub velocity: Vec2,
    pub timer: Timer,
    pub prev_state: PlayerStates,
}

impl BoostData {
    /// Whether this is well formed: every part is, and the parts fit together.
    pub open spec fn wf(&self) -> bool {
        &&& self.timer.wf()
        &&& self.timer.mode == TimerMode::Once
        &&& self.prev_state != PlayerStates::Boost
    }
}

/// The state of a player's movement. A dashing player carries the data of
/// its dash.
#[derive(Clone, Copy, Debug, PartialEq, Eq, Structural)]
pub enum LocomotionState {
    Idle,
    Swim,
    Boost(BoostData),
}

impl LocomotionState {
    /// Which of the three ways of moving this is.
    pub open spec fn kind(&self) -> PlayerStates {
        match self {
            LocomotionState::Idle => PlayerStates::Idle,
            LocomotionState::Swim => PlayerStates::Swim,
            LocomotionState::Boost(_) => PlayerStates::Boost,
        }
    }

    /// Whether this is well formed: every part is, and the parts fit together.
    pub open spec fn wf(&self) -> bool {
        match self {
            LocomotionState::Boost(data) => data.wf(),
            _ => true,
        }
    }
}

/// The rest after a dash, or after the attempt of one. While a player has
/// a cooldown it cannot start to dash. The cooldown goes away once its time
/// is over and the boost button has been seen released since it began.
#[derive(Clone, Copy, Debug, PartialEq, Eq, Structural)]
pub struct BoostCooldown {
    pub timer: Timer,
    pub did_release: bool,
}

impl BoostCooldown {
    /// Whether this is well formed: every part is, and the parts fit together.
    pub open spec fn wf(&self) -> bool {
        self.timer.wf() && self.timer.mode == TimerMode::Once
    }

    /// The cooldown after a tick of `dt` microseconds in which the boost
    /// button was or was not held.
    pub open spec fn spec_tick(self, dt: u32, boost_held: bool) -> BoostCooldown {
        BoostCooldown {
            timer: self.timer.spec_tick(dt),
            did_release: self.did_release || !boost_held,
        }
    }

    /// Whether the cooldown is over: its time has run out and the button
    /// has been seen released.
    pub open spec fn is_over(&self) -> bool {
        self.timer.finished && self.did_release
    }
}

/// A cooldown, if there is one, after a tick of `dt` microseconds in which
/// the boost button was or was not held. The cooldown goes away if it is
/// over after the tick and stays otherwise.
pub open spec fn rested(cooldown: Option<BoostCooldown>, dt: u32, boost_held: bool) -> Option<
    BoostCooldown,
> {
    match cooldown {
        Some(cooldown) => {
            let next = cooldown.spec_tick(dt, boost_held);
            if next.is_over() {
                None
            } else {
                Some(next)
            }
        },
        None => None,
    }
}

/// The player.
#[derive(Clone, Copy, Debug, PartialEq, Eq, Structural)]
pub struct Player {
    pub id: u64,
    pub stats: PlayerStats,
    pub position: Vec2,
    pub velocity: Vec2,
    pub facing: FacingDirection,
    pub collider: Collider,
    pub sink: Sink,
    pub state: LocomotionState,
    pub cooldown: Option<BoostCooldown>,
    pub boost_supply: BoostSupply,
    pub hunger: HungerCountdown,
}

/// The speed the player aims at, from the directions held.
pub open spec fn target_velocity(input: TickInput, speed: i32) -> Vec2 {
    Vec2 {
        x: ((if input.right {
            speed as int
        } else {
            0
        }) - (if input.left {
            speed as int
        } else {
            0
        })) as i32,
        y: ((if input.up {
            speed as int
        } else {
            0
        }) - (if input.down {
            speed as int
        } else {
            0
        })) as i32,
    }
}

/// The velocity of a swimming or idle player after one tick: the old
/// velocity blended toward the target, by the acceleration if there is a
/// target and by the traction if there is none, and set to zero if the
/// result is slower than the stop threshold.
pub open spec fn swim_velocity(stats: PlayerStats, target: Vec2, current: Vec2) -> Vec2 {
    let factor = if target.is_zero() {
        stats.traction
    } else {
        stats.acceleration
    };
    let v = Vec2 {
        x: clamp_i32(blend(target.x as int, current.x as int, factor as int)) as i32,
        y: clamp_i32(blend(target.y as int, current.y as int, factor as int)) as i32,
    };
    if v.spec_length_squared() < stats.stop_threshold * stats.stop_threshold {
        Vec2 { x: 0, y: 0 }
    } else {
        v
    }
}

/// The velocity of a dash that starts now. The dash goes the way the target
/// points, at the boost speed. Without a target it goes the way the player
/// faces.
pub open spec fn boost_velocity(stats: PlayerStats, facing: FacingDirection, target: Vec2) -> Vec2 {
    if target.is_zero() {
        Vec2 {
            x: if facing.is_right {
                stats.boost_speed
            } else {
                (-stats.boost_speed) as i32
            },
            y: 0,
        }
    } else {
        stretch_to(target, stats.boost_speed as int)
    }
}

/// Reads the directions held and blends the velocity toward the speed they
/// ask for. Returns that target speed.
pub fn move_player_from_input(input: &TickInput, stats: &PlayerStats, velocity: &mut Vec2) -> (target:
    Vec2)
    requires
        stats.wf(),
    ensures
        target == target_velocity(*input, stats.speed),
        *final(velocity) == swim_velocity(*stats, target, *old(velocity)),
{
    let mut target: Vec2 = Vec2 { x: 0, y: 0 };
    if input.left {
        target.x = target.x - stats.speed;
    }
    if input.right {
        target.x = target.x + stats.speed;
    }
    if input.up {
        target.y = target.y + stats.speed;
    }
    if input.down {
        target.y = target.y - stats.speed;
    }
    let factor: u16 = if target.is_zero() {
        stats.traction
    } else {
        stats.acceleration
    };
    let v: Vec2 = Vec2 {
        x: blended(target.x, velocity.x, factor),
        y: blended(target.y, velocity.y, factor),
    };
    let threshold: i128 = stats.stop_threshold as i128;
    assert(0 <= threshold * threshold <= 0x4000_0000_0000_0000) by (nonlinear_arith)
        requires
            0 <= threshold <= 0x8000_0000,
    ;
    if v.length_squared() < threshold * threshold {
        *velocity = Vec2 { x: 0, y: 0 };
    } else {
        *velocity = v;
    }
    target
}

/// Lets the player sink: takes its weight from its upward speed.
pub fn sink_system(velocity: &mut Vec2, sink: &Sink)
    ensures
        final(velocity).x == old(velocity).x,
        final(velocity).y == clamp_i32(old(velocity).y - sink.weight),
{
    velocity.y = saturate(velocity.y as i64 - sink.weight as i64);
}

impl Player {
    /// Whether this is well formed: every part is, and the parts fit together.
    pub open spec fn wf(&self) -> bool {
        &&& self.stats.wf()
        &&& self.collider.wf()
        &&& self.boost_supply.wf()
        &&& self.hunger.wf()
        &&& self.state.wf()
        &&& match self.cooldown {
            Some(cooldown) => cooldown.wf(),
            None => true,
        }
    }

    /// Whether the player is well formed.
    pub fn is_valid(&self) -> (ok: bool)
        ensures
            ok == self.wf(),
    {
        let stats_ok: bool = self.stats.boost_speed >= 0 && self.stats.speed >= 0
            && self.stats.stop_threshold >= 0 && self.stats.acceleration <= 1000
            && self.stats.traction <= 1000 && self.stats.boost_duration <= MAX_TIMER_DURATION
            && self.stats.boost_cooldown <= MAX_TIMER_DURATION;
        let collider_ok: bool = self.collider.width >= 0 && self.collider.height >= 0;
        let supply_ok: bool = self.boost_supply.count <= self.boost_supply.max_boosts;
        let hunger_ok: bool = self.hunger.time_left <= MAX_HUNGER_TIME;
        let state_ok: bool = match self.state {
            LocomotionState::Boost(data) => data.timer.is_valid() && !data.timer.is_repeating()
                && match data.prev_state {
                PlayerStates::Boost => false,
                _ => true,
            },
            _ => true,
        };
        let cooldown_ok: bool = match self.cooldown {
            Some(cooldown) => cooldown.timer.is_valid() && !cooldown.timer.is_repeating(),
            None => true,
        };
        stats_ok && collider_ok && supply_ok && hunger_ok && state_ok && cooldown_ok
    }

    /// Whether the player is barred from entering `target`. Only dashing is
    /// ever barred, and it is barred exactly while the player has a
    /// cooldown.
    pub open spec fn is_blocked(&self, target: PlayerStates) -> bool {
        target == PlayerStates::Boost && self.cooldown.is_some()
    }

    /// Whether the player may go from its state to `target`: never to the
    /// state it is in, never to a barred state.
    pub open spec fn spec_can_transition_to(&self, target: PlayerStates) -> bool {
        self.state.kind() != target && !self.is_blocked(target)
    }

    #[verifier::when_used_as_spec(spec_can_transition_to)]
    pub fn can_transition_to(&self, target: PlayerStates) -> (can: bool)
        ensures
            can == self.spec_can_transition_to(target),
    {
        let same: bool = match (self.state, target) {
            (LocomotionState::Idle, PlayerStates::Idle) => true,
            (LocomotionState::Swim, PlayerStates::Swim) => true,
            (LocomotionState::Boost(_), PlayerStates::Boost) => true,
            _ => false,
        };
        let blocked: bool = match target {
            PlayerStates::Boost => self.cooldown.is_some(),
            _ => false,
        };
        !same && !blocked
    }

    /// The player after the attempt to go over to swimming.
    pub open spec fn spec_start_swim(self) -> Player {
        if self.spec_can_transition_to(PlayerStates::Swim) {
            Player { state: LocomotionState::Swim, ..self }
        } else {
            self
        }
    }

    /// Goes over to swimming, if the player may.
    pub fn start_swim(&mut self)
        ensures
            *final(self) == old(self).spec_start_swim(),
    {
        if self.can_transition_to(PlayerStates::Swim) {
            self.state = LocomotionState::Swim;
        }
    }

    /// The player after the attempt to go over to idling.
    pub open spec fn spec_start_idle(self) -> Player {
        if self.spec_can_transition_to(PlayerStates::Idle) {
            Player { state: LocomotionState::Idle, ..self }
        } else {
            self
        }
    }

    /// Goes over to idling, if the player may.
    pub fn start_idle(&mut self)
        ensures
            *final(self) == old(self).spec_start_idle(),
    {
        if self.can_transition_to(PlayerStates::Idle) {
            self.state = LocomotionState::Idle;
        }
    }

    /// The player after the attempt to start a dash toward `target`.
    ///
    /// A player that may not go over to dashing stays as it is. One that may
    /// and has a dash left spends it, dashes, and rests for the boost
    /// cooldown, which runs while the dash lasts. One that may but has no
    /// dash left stays in its state and gets a cooldown of no duration, so
    /// that the button has to be released before the next attempt.
    pub open spec fn spec_start_boost(self, target: Vec2) -> Player {
        if !self.spec_can_transition_to(PlayerStates::Boost) {
            self
        } else if self.boost_supply.count > 0 {
            Player {
                state: LocomotionState::Boost(
                    BoostData {
                        velocity: boost_velocity(self.stats, self.facing, target),
                        timer: Timer::from_micros(self.stats.boost_duration, TimerMode::Once),
                        prev_state: self.state.kind(),
                    },
                ),
                boost_supply: BoostSupply {
                    count: (self.boost_supply.count - 1) as u8,
                    ..self.boost_supply
                },
                cooldown: Some(
                    BoostCooldown {
                        timer: Timer::from_micros(self.stats.boost_cooldown, TimerMode::Once),
                        did_release: false,
                    },
                ),
                ..self
            }
        } else {
            Player {
                cooldown: Some(
                    BoostCooldown {
                        timer: Timer::from_micros(0, TimerMode::Once),
                        did_release: false,
                    },
                ),
                ..self
            }
        }
    }

    /// Whether the attempt to start a dash succeeds.
    pub open spec fn boost_starts(self) -> bool {
        self.spec_can_transition_to(PlayerStates::Boost) && self.boost_supply.count > 0
    }

    /// Tries to start a dash toward `target`. Returns whether the player
    /// dashes.
    pub fn start_boost(&mut self, target: Vec2) -> (boosted: bool)
        requires
            old(self).wf(),
        ensures
            *final(self) == old(self).spec_start_boost(target),
            boosted == old(self).boost_starts(),
            final(self).wf(),
    {
        if !self.can_transition_to(PlayerStates::Boost) {
            return false;
        }
        if self.boost_supply.use_boost() {
            let speed: i32 = self.stats.boost_speed;
            let velocity: Vec2 = if target.is_zero() {
                Vec2 {
                    x: if self.facing.is_right() {
                        speed
                    } else {
                        -speed
                    },
                    y: 0,
                }
            } else {
                stretched_to(target, speed)
            };
            let prev_state: PlayerStates = match self.state {
                LocomotionState::Idle => PlayerStates::Idle,
                LocomotionState::Swim => PlayerStates::Swim,
                LocomotionState::Boost(_) => PlayerStates::Boost,
            };
            self.state = LocomotionState::Boost(
                BoostData {
                    velocity,
                    timer: Timer::from_micros(self.stats.boost_duration, TimerMode::Once),
                    prev_state,
                },
            );
            self.cooldown = Some(
                BoostCooldown {
                    timer: Timer::from_micros(self.stats.boost_cooldown, TimerMode::Once),
                    did_release: false,
                },
            );
            true
        } else {
            self.cooldown = Some(
                BoostCooldown { timer: Timer::from_micros(0, TimerMode::Once), did_release: false },
            );
            false
        }
    }

    /// The player after the cooldown has been moved forward by one tick.
    pub open spec fn spec_boost_cooldown(self, dt: u32, boost_held: bool) -> Player {
        Player { cooldown: rested(self.cooldown, dt, boost_held), ..self }
    }

    /// The player after the input of one tick has been turned into a change
    /// of state. Only an idle or swimming player reacts: to the boost button
    /// with the attempt of a dash, to a direction by swimming, and to no
    /// direction by idling.
    pub open spec fn spec_handle_input(self, input: TickInput) -> Player {
        let target = target_velocity(input, self.stats.speed);
        if self.state.kind() == PlayerStates::Boost {
            self
        } else if input.boost {
            self.spec_start_boost(target)
        } else if !target.is_zero() {
            self.spec_start_swim()
        } else {
            self.spec_start_idle()
        }
    }

    /// The player after the movement stage of one tick, before it sinks.
    ///
    /// An idle or swimming player blends its velocity toward the target. A
    /// dashing player takes the velocity of its dash, and the dash is moved
    /// forward by the tick; when the dash is over, the player goes back to
    /// the state it dashed from.
    pub open spec fn spec_locomotion(self, input: TickInput, dt: u32) -> Player {
        match self.state {
            LocomotionState::Boost(data) => {
                let timer = data.timer.spec_tick(dt);
                Player {
                    velocity: data.velocity,
                    state: if timer.finished {
                        match data.prev_state {
                            PlayerStates::Swim => LocomotionState::Swim,
                            _ => LocomotionState::Idle,
                        }
                    } else {
                        LocomotionState::Boost(BoostData { timer, ..data })
                    },
                    ..self
                }
            },
            _ => Player {
                velocity: swim_velocity(
                    self.stats,
                    target_velocity(input, self.stats.speed),
                    self.velocity,
                ),
                ..self
            },
        }
    }

    /// The player after it has sunk by its weight.
    pub open spec fn spec_sink(self) -> Player {
        Player {
            velocity: Vec2 {
                x: self.velocity.x,
                y: clamp_i32(self.velocity.y - self.sink.weight) as i32,
            },
            ..self
        }
    }

    /// The player after its velocity has carried it for one tick. A player
    /// that is not dashing turns to face the way it moves across.
    pub open spec fn spec_integrate(self, dt: u32) -> Player {
        Player {
            position: crate::core2d::advance_point(self.position, self.velocity, dt as int),
            facing: if self.state.kind() != PlayerStates::Boost && self.velocity.x != 0 {
                FacingDirection { is_right: self.velocity.x > 0 }
            } else {
                self.facing
            },
            ..self
        }
    }
}

/// Moves the player's cooldown forward by one tick of `dt` microseconds.
pub fn boost_cooldown_system(player: &mut Player, dt: u32, boost_held: bool)
    requires
        old(player).wf(),
    ensures
        *final(player) == old(player).spec_boost_cooldown(dt, boost_held),
        final(player).wf(),
{
    match player.cooldown {
        Some(cooldown) => {
            let mut timer: Timer = cooldown.timer;
            timer.tick(dt);
            let did_release: bool = cooldown.did_release || !boost_held;
            if timer.finished() && did_release {
                player.cooldown = None;
            } else {
                player.cooldown = Some(BoostCooldown { timer, did_release });
            }
        },
        None => {},
    }
}

/// Turns the input of one tick into a change of the player's state. Returns
/// whether the player started a dash.
pub fn swim_movement_system(player: &mut Player, input: &TickInput) -> (boosted: bool)
    requires
        old(player).wf(),
    ensures
        *final(player) == old(player).spec_handle_input(*input),
        boosted == (old(player).state.kind() != PlayerStates::Boost && input.boost && old(
            player,
        ).boost_starts()),
        final(player).wf(),
{
    if let LocomotionState::Boost(_) = player.state {
        return false;
    }
    let mut target: Vec2 = Vec2 { x: 0, y: 0 };
    if input.left {
        target.x = target.x - player.stats.speed;
    }
    if input.right {
        target.x = target.x + player.stats.speed;
    }
    if input.up {
        target.y = target.y + player.stats.speed;
    }
    if input.down {
        target.y = target.y - player.stats.speed;
    }
    if input.boost {
        player.start_boost(target)
    } else if !target.is_zero() {
        player.start_swim();
        false
    } else {
        player.start_idle();
        false
    }
}

/// Computes the player's velocity for one tick from its state, and moves a
/// dash forward by the tick.
pub fn boost_movement_system(player: &mut Player, input: &TickInput, dt: u32)
    requires
        old(player).wf(),
    ensures
        *final(player) == old(player).spec_locomotion(*input, dt),
        final(player).wf(),
{
    match player.state {
        LocomotionState::Boost(data) => {
            let mut timer: Timer = data.timer;
            timer.tick(dt);
            player.velocity = data.velocity;
            if timer.finished() {
                match data.prev_state {
                    PlayerStates::Swim => {
                        player.state = LocomotionState::Swim;
                    },
                    _ => {
                        player.state = LocomotionState::Idle;
                    },
                }
            } else {
                player.state = LocomotionState::Boost(
                    BoostData { velocity: data.velocity, timer, prev_state: data.prev_state },
                );
            }
        },
        _ => {
            let mut velocity: Vec2 = player.velocity;
            let stats: PlayerStats = player.stats;
            move_player_from_input(input, &stats, &mut velocity);
            player.velocity = velocity;
        },
    }
}

/// Carries the player along its velocity for `dt` microseconds and turns it
/// to face the way it moves.
pub fn movement_system(player: &mut Player, dt: u32)
    ensures
        *final(player) == old(player).spec_integrate(dt),
{
    let moving_across: bool = player.velocity.x != 0;
    let dashing: bool = match player.state {
        LocomotionState::Boost(_) => true,
        _ => false,
    };
    if !dashing && moving_across {
        player.facing = FacingDirection { is_right: player.velocity.x > 0 };
    }
    player.position = crate::core2d::advanced_point(player.position, player.velocity, dt);
}

} // verus!
