use fish_game::boat::{Boat, Hook, Worm};
use fish_game::collision::Collider;
use fish_game::contact::{
    count_meals, end_game_system, player_boat_collision_system, player_hook_collision_system,
    player_worm_collision_system,
};
use fish_game::core2d::Vec2;
use fish_game::events::{
    ContactEvents, ContactQueue, PlayerAte, PlayerBonked, PlayerBoosted, PlayerHooked,
    PlayerStarved,
};
use fish_game::fleet::Fleet;
use fish_game::game::{
    difficulty_scaling_system, increment_score_system, pause_game, reset_difficulty_on_restart,
    reset_game_state_on_restart, reset_score_on_restart, unpause_game, Difficulty, GameOver,
    GameState, GameStates, Score,
};
use fish_game::player::{LocomotionState, TickInput};
use fish_game::rng::GameRng;
use fish_game::simulation::{GameConfig, RecordedTick, Simulation, TickReport};

const TICK: u32 = 10_000;

fn new_game(seed: u8) -> Simulation {
    Simulation::new(GameConfig::standard(), GameRng::from_seed([seed; 32]))
}

fn boost() -> TickInput {
    TickInput { boost: true, ..TickInput::none() }
}

fn restart(seed: u8) -> TickInput {
    TickInput { restart: Some([seed; 32]), ..TickInput::none() }
}

fn pause() -> TickInput {
    TickInput { pause: true, ..TickInput::none() }
}

fn quiet() -> TickReport {
    TickReport { restarted: false, boosted: None, starved: None, game_over: None, final_score: None }
}

fn still_boat(id: u64, x: i32, y: i32) -> Boat {
    Boat {
        id,
        position: Vec2::new(x, y),
        velocity: Vec2::new(0, 0),
        collider: Collider { width: 45_000, height: 10_000 },
        facing_right: true,
        num_lines: 1,
    }
}

fn hook_under(id: u64, boat: u64, x: i32, y: i32) -> Hook {
    Hook {
        id,
        boat,
        line_entity: id - 1,
        offset: Vec2::new(x, y),
        collider: Collider { width: 16_000, height: 16_000 },
    }
}

fn worm_under(id: u64, boat: u64, x: i32, y: i32) -> Worm {
    Worm {
        id,
        boat,
        line_entity: id - 2,
        offset: Vec2::new(x, y),
        collider: Collider { width: 16_000, height: 16_000 },
        wiggle: 7,
    }
}

fn show(sim: &Simulation) -> String {
    format!("{:?}", sim)
}

#[test]
fn a_new_game() {
    let sim = new_game(1);
    assert!(sim.game_state.is_running());
    assert!(!sim.game_state.is_game_over());
    assert_eq!(sim.game_over, None);
    assert_eq!(sim.score, Score::new());
    assert_eq!(sim.score.count, 0);
    assert_eq!(sim.difficulty, Difficulty::new());
    assert_eq!(sim.difficulty.multiplier, 1);
    assert_eq!(sim.player, GameConfig::standard().spawn_player_entity(0));
    assert_eq!(sim.fleet.next_id, 1);
    assert!(sim.fleet.boats.is_empty());
    assert!(sim.contacts.current.hooked.is_empty());
    assert_eq!(sim.rng.seed, [1; 32]);
    assert_eq!(sim.rng.word_pos, 0);
}

#[test]
fn the_same_seed_and_inputs_give_the_same_game() {
    let inputs = [
        TickInput { right: true, ..TickInput::none() },
        TickInput { right: true, up: true, boost: true, ..TickInput::none() },
        TickInput::none(),
        pause(),
        pause(),
        TickInput { left: true, down: true, ..TickInput::none() },
    ];
    let mut a = new_game(3);
    let mut b = new_game(3);
    let mut other = new_game(4);
    for round in 0..3000usize {
        let input = inputs[round % inputs.len()];
        let dt = 5_000 + (round as u32 % 7) * 3_000;
        assert!(a.is_valid());
        let report_a = a.step(&input, dt);
        let report_b = b.step(&input, dt);
        other.step(&input, dt);
        assert_eq!(report_a, report_b);
        if round % 500 == 0 {
            assert_eq!(show(&a), show(&b));
        }
    }
    assert_eq!(show(&a), show(&b));
    assert!(!a.fleet.boats.is_empty() || a.game_state.is_game_over());
    assert_ne!(show(&a), show(&other));
}

#[test]
fn a_recording_can_be_replayed() {
    let mut ticks = Vec::new();
    for round in 0..1200u32 {
        ticks.push(RecordedTick {
            input: TickInput { right: round % 3 == 0, boost: round % 50 == 0, ..TickInput::none() },
            dt: 8_000 + round % 5_000,
        });
    }
    let mut stepped = new_game(9);
    for tick in &ticks {
        stepped.step(&tick.input, tick.dt);
    }
    let mut replayed = new_game(9);
    replayed.replay(&ticks);
    assert_eq!(show(&stepped), show(&replayed));
    let mut halves = new_game(9);
    halves.replay(&ticks[..500].to_vec());
    halves.replay(&ticks[500..].to_vec());
    assert_eq!(show(&stepped), show(&halves));
}

#[test]
fn the_first_tick_of_a_swimming_player() {
    let mut sim = new_game(1);
    let report = sim.step(&TickInput { right: true, ..TickInput::none() }, TICK);
    assert_eq!(report, quiet());
    assert_eq!(sim.player.state, LocomotionState::Swim);
    assert_eq!(sim.player.velocity, Vec2::new(320_000, -10_000));
    assert_eq!(sim.player.position, Vec2::new(3_200, -100));
    assert_eq!(sim.player.hunger.time_left, 29_990_000);
    assert_eq!(sim.score.timer.elapsed, 10_000);
    let report = sim.step(&TickInput { right: true, ..TickInput::none() }, TICK);
    assert_eq!(report, quiet());
    assert_eq!(sim.player.velocity, Vec2::new(384_000, -12_000));
    assert_eq!(sim.player.position, Vec2::new(7_040, -220));
}

#[test]
fn sinking_settles_and_the_floor_stops_the_player() {
    let mut sim = new_game(1);
    for _ in 0..300 {
        sim.step(&TickInput::none(), TICK);
    }
    // a fifth of the speed is kept in each tick, rounded toward zero, and 10 units are lost
    assert_eq!(sim.player.velocity, Vec2::new(0, -12_499));
    sim.player.position = Vec2::new(0, -163_950);
    sim.step(&TickInput::none(), TICK);
    assert_eq!(sim.player.position, Vec2::new(0, -164_000));
    sim.step(&TickInput::none(), TICK);
    assert_eq!(sim.player.position, Vec2::new(0, -164_000));
    assert!(sim.game_state.is_running());
}

#[test]
fn a_dash_through_the_whole_tick() {
    let mut sim = new_game(1);
    let report = sim.step(&boost(), TICK);
    assert_eq!(report.boosted, Some(PlayerBoosted { player: 0 }));
    assert!(matches!(sim.player.state, LocomotionState::Boost(_)));
    assert_eq!(sim.player.boost_supply.count, 2);
    assert_eq!(sim.player.velocity, Vec2::new(1_500_000, -10_000));
    assert_eq!(sim.player.position, Vec2::new(15_000, -100));
    for _ in 0..8 {
        assert_eq!(sim.step(&boost(), TICK), quiet());
        assert!(matches!(sim.player.state, LocomotionState::Boost(_)));
    }
    sim.step(&boost(), TICK);
    assert_eq!(sim.player.state, LocomotionState::Idle);
    assert_eq!(sim.player.boost_supply.count, 2);
    assert_eq!(sim.player.position.x, 150_000);
}

#[test]
fn holding_the_button_does_not_dash_again() {
    let mut sim = new_game(1);
    sim.player.hunger.time_left = 3_000_000_000;
    sim.step(&boost(), TICK);
    for _ in 0..500 {
        let report = sim.step(&boost(), TICK);
        assert_eq!(report.boosted, None);
        assert!(sim.player.cooldown.is_some());
    }
    assert_eq!(sim.player.boost_supply.count, 2);
    assert_eq!(sim.player.state, LocomotionState::Idle);
    // a release ends the cooldown, and the next press dashes
    sim.step(&TickInput::none(), TICK);
    assert_eq!(sim.player.cooldown, None);
    let report = sim.step(&boost(), TICK);
    assert_eq!(report.boosted, Some(PlayerBoosted { player: 0 }));
    assert_eq!(sim.player.boost_supply.count, 1);
}

#[test]
fn a_release_before_the_time_is_over_is_not_enough() {
    let mut sim = new_game(1);
    sim.step(&boost(), TICK);
    // the cooldown of 200 ms began in the first tick and is moved from the second on
    for tick in 2..=20 {
        let input = if tick % 2 == 0 { TickInput::none() } else { boost() };
        let report = sim.step(&input, TICK);
        assert_eq!(report.boosted, None, "tick {}", tick);
        assert!(sim.player.cooldown.is_some(), "tick {}", tick);
    }
    assert_eq!(sim.player.boost_supply.count, 2);
    let report = sim.step(&boost(), TICK);
    assert_eq!(report.boosted, Some(PlayerBoosted { player: 0 }));
}

#[test]
fn an_empty_supply_never_dashes() {
    let mut sim = new_game(1);
    sim.player.boost_supply.count = 0;
    for round in 0..300 {
        let input = if round % 3 == 0 { TickInput::none() } else { boost() };
        let report = sim.step(&input, TICK);
        assert_eq!(report.boosted, None);
        assert!(!matches!(sim.player.state, LocomotionState::Boost(_)));
        assert_eq!(sim.player.boost_supply.count, 0);
    }
}

#[test]
fn starving_ends_the_game_once() {
    let mut sim = new_game(1);
    sim.player.hunger.time_left = 25_000;
    assert_eq!(sim.step(&TickInput::none(), TICK), quiet());
    assert_eq!(sim.step(&TickInput::none(), TICK), quiet());
    let report = sim.step(&TickInput::none(), TICK);
    assert_eq!(
        report,
        TickReport {
            restarted: false,
            boosted: None,
            starved: Some(PlayerStarved { player_entity: 0 }),
            game_over: Some(GameOver { winning_boat: None }),
            final_score: Some(0),
        }
    );
    assert!(sim.game_state.is_game_over());
    assert_eq!(sim.game_state.prev_state, GameStates::Running);
    assert_eq!(sim.game_over, Some(GameOver { winning_boat: None }));
    let over = show(&sim);
    for _ in 0..50 {
        assert_eq!(sim.step(&boost(), TICK), quiet());
        assert_eq!(sim.step(&pause(), TICK), quiet());
        assert_eq!(show(&sim), over);
    }
}

#[test]
fn a_contact_is_acted_on_one_tick_later() {
    let mut sim = new_game(1);
    sim.fleet.next_id = 200;
    sim.fleet.boats.push(still_boat(100, 0, 130_000));
    sim.fleet.hooks.push(hook_under(102, 100, 0, -130_000));
    assert!(sim.is_valid());
    let report = sim.step(&TickInput::none(), TICK);
    assert_eq!(report, quiet());
    assert!(sim.game_state.is_running());
    assert_eq!(
        sim.contacts.current.hooked,
        vec![PlayerHooked { player_entity: 0, hook_entity: 102 }]
    );
    assert!(sim.contacts.previous.hooked.is_empty());
    let report = sim.step(&TickInput::none(), TICK);
    assert_eq!(report.game_over, Some(GameOver { winning_boat: Some(100) }));
    assert_eq!(report.final_score, Some(0));
    assert_eq!(report.starved, None);
    assert!(sim.game_state.is_game_over());
    assert_eq!(sim.game_over, Some(GameOver { winning_boat: Some(100) }));
    assert_eq!(
        sim.contacts.previous.hooked,
        vec![PlayerHooked { player_entity: 0, hook_entity: 102 }]
    );
    assert!(sim.contacts.current.hooked.is_empty());
    sim.step(&TickInput::none(), TICK);
    assert!(sim.contacts.previous.hooked.is_empty());
}

#[test]
fn running_into_a_hull_ends_the_game() {
    let mut sim = new_game(1);
    sim.fleet.next_id = 200;
    sim.fleet.boats.push(still_boat(100, 0, 20_000));
    sim.fleet.hooks.push(hook_under(102, 100, 0, -150_000));
    assert_eq!(sim.step(&TickInput::none(), TICK), quiet());
    assert_eq!(
        sim.contacts.current.bonked,
        vec![PlayerBonked { player_entity: 0, boat_entity: 100 }]
    );
    let report = sim.step(&TickInput::none(), TICK);
    assert_eq!(report.game_over, Some(GameOver { winning_boat: Some(100) }));
}

#[test]
fn a_meal_gives_time_points_and_a_dash() {
    let mut sim = new_game(1);
    sim.player.boost_supply.count = 1;
    sim.fleet.next_id = 200;
    sim.fleet.boats.push(still_boat(100, 0, 130_000));
    sim.fleet.hooks.push(hook_under(102, 100, 0, -300_000));
    sim.fleet.worms.push(worm_under(103, 100, 0, -130_000));
    sim.fleet.worms.push(worm_under(106, 100, 100_000, -130_000));
    assert_eq!(sim.step(&TickInput::none(), TICK), quiet());
    assert_eq!(sim.contacts.current.ate, vec![PlayerAte { player_entity: 0, worm_entity: 103 }]);
    // the worm is gone at once, the reward comes in the next tick
    assert_eq!(sim.fleet.worms, vec![worm_under(106, 100, 100_000, -130_000)]);
    assert_eq!(sim.score.count, 0);
    assert_eq!(sim.player.boost_supply.count, 1);
    assert_eq!(sim.player.hunger.time_left, 29_990_000);
    assert_eq!(sim.step(&TickInput::none(), TICK), quiet());
    assert_eq!(sim.score.count, 5);
    assert_eq!(sim.player.boost_supply.count, 2);
    assert_eq!(sim.player.hunger.time_left, 29_990_000 + 3_000_000 - 10_000);
    assert_eq!(sim.step(&TickInput::none(), TICK), quiet());
    assert_eq!(sim.score.count, 5);
    assert_eq!(sim.player.boost_supply.count, 2);
}

#[test]
fn a_hook_wins_over_starving_and_starving_over_a_hull() {
    let fleet = {
        let mut fleet = Fleet::new(200);
        fleet.boats.push(still_boat(100, 0, 0));
        fleet.boats.push(still_boat(110, 0, 0));
        fleet.hooks.push(hook_under(102, 100, 0, 0));
        fleet
    };
    let hooked = vec![
        PlayerHooked { player_entity: 9, hook_entity: 102 },
        PlayerHooked { player_entity: 0, hook_entity: 55 },
        PlayerHooked { player_entity: 0, hook_entity: 102 },
    ];
    let bonked = vec![
        PlayerBonked { player_entity: 0, boat_entity: 77 },
        PlayerBonked { player_entity: 1, boat_entity: 100 },
        PlayerBonked { player_entity: 0, boat_entity: 110 },
        PlayerBonked { player_entity: 0, boat_entity: 100 },
    ];
    let none: Vec<PlayerHooked> = Vec::new();
    let no_bonk: Vec<PlayerBonked> = Vec::new();
    assert_eq!(
        end_game_system(&hooked, &bonked, true, &fleet, 0),
        Some(GameOver { winning_boat: Some(100) })
    );
    assert_eq!(
        end_game_system(&none, &bonked, true, &fleet, 0),
        Some(GameOver { winning_boat: None })
    );
    assert_eq!(
        end_game_system(&none, &bonked, false, &fleet, 0),
        Some(GameOver { winning_boat: Some(110) })
    );
    assert_eq!(end_game_system(&none, &no_bonk, false, &fleet, 0), None);
    // contacts of another player, or with what is gone, are passed over
    assert_eq!(end_game_system(&hooked[..2].to_vec(), &bonked[..2].to_vec(), false, &fleet, 0), None);
}

#[test]
fn contacts_are_found_in_the_order_of_the_fleet() {
    let player = GameConfig::standard().spawn_player_entity(4);
    let mut fleet = Fleet::new(200);
    fleet.boats.push(still_boat(100, 0, 100_000));
    fleet.boats.push(still_boat(110, 30_000, 0));
    fleet.boats.push(still_boat(120, 38_501, 0));
    fleet.boats.push(still_boat(130, -38_500, 21_000));
    fleet.hooks.push(hook_under(102, 100, 24_000, -100_000));
    fleet.hooks.push(hook_under(105, 100, 24_001, -100_000));
    fleet.hooks.push(hook_under(108, 999, 0, 0));
    fleet.hooks.push(hook_under(112, 110, -30_000, -24_000));
    fleet.worms.push(worm_under(103, 100, 0, -100_000));
    fleet.worms.push(worm_under(113, 110, 0, 0));
    fleet.worms.push(worm_under(109, 999, 0, 0));
    fleet.worms.push(worm_under(123, 120, -38_501, 24_001));
    assert_eq!(
        player_hook_collision_system(&player, &fleet),
        vec![
            PlayerHooked { player_entity: 4, hook_entity: 102 },
            PlayerHooked { player_entity: 4, hook_entity: 112 },
        ]
    );
    assert_eq!(
        player_boat_collision_system(&player, &fleet),
        vec![
            PlayerBonked { player_entity: 4, boat_entity: 110 },
            PlayerBonked { player_entity: 4, boat_entity: 130 },
        ]
    );
    assert_eq!(
        player_worm_collision_system(&player, &mut fleet),
        vec![PlayerAte { player_entity: 4, worm_entity: 103 }]
    );
    let left: Vec<u64> = fleet.worms.iter().map(|w| w.id).collect();
    assert_eq!(left, vec![113, 109, 123]);
    assert_eq!(fleet.hooks.len(), 4);
}

#[test]
fn meals_of_other_players_do_not_count() {
    let ate = vec![
        PlayerAte { player_entity: 1, worm_entity: 5 },
        PlayerAte { player_entity: 2, worm_entity: 6 },
        PlayerAte { player_entity: 1, worm_entity: 7 },
    ];
    assert_eq!(count_meals(&ate, 1), 2);
    assert_eq!(count_meals(&ate, 2), 1);
    assert_eq!(count_meals(&ate, 3), 0);
}

#[test]
fn the_queue_has_two_slots() {
    let mut queue = ContactQueue::new();
    queue.current.hooked.push(PlayerHooked { player_entity: 1, hook_entity: 2 });
    queue.previous.ate.push(PlayerAte { player_entity: 1, worm_entity: 3 });
    queue.advance();
    assert!(queue.current.hooked.is_empty());
    assert_eq!(queue.previous.hooked, vec![PlayerHooked { player_entity: 1, hook_entity: 2 }]);
    assert!(queue.previous.ate.is_empty());
    queue.advance();
    assert!(queue.previous.hooked.is_empty());
    queue.current.bonked.push(PlayerBonked { player_entity: 1, boat_entity: 2 });
    queue.clear();
    assert!(queue.current.bonked.is_empty());
    assert!(ContactEvents::new().hooked.is_empty());
}

#[test]
fn a_pause_stops_everything_but_pause_and_restart() {
    let mut sim = new_game(1);
    sim.step(&TickInput { right: true, ..TickInput::none() }, TICK);
    assert_eq!(sim.step(&pause(), TICK), quiet());
    assert_eq!(sim.game_state.cur_state, GameStates::Paused);
    assert_eq!(sim.game_state.prev_state, GameStates::Running);
    let paused = show(&sim);
    for _ in 0..600 {
        assert_eq!(sim.step(&TickInput { left: true, boost: true, ..TickInput::none() }, TICK), quiet());
    }
    assert_eq!(show(&sim), paused);
    sim.step(&pause(), TICK);
    assert!(sim.game_state.is_running());
    assert_eq!(sim.game_state.prev_state, GameStates::Paused);
    // the tick that resumes the game moves it again
    assert_eq!(sim.player.hunger.time_left, 29_980_000);
    assert_ne!(show(&sim), paused);
}

#[test]
fn the_tick_that_pauses_still_counts_its_timers() {
    let mut sim = new_game(1);
    sim.step(&pause(), TICK);
    assert_eq!(sim.player.hunger.time_left, 29_990_000);
    assert_eq!(sim.player.position, Vec2::new(0, 0));
    assert_eq!(sim.player.velocity, Vec2::new(0, 0));
}

#[test]
fn pause_does_not_leave_game_over() {
    let mut state = GameState { cur_state: GameStates::GameOver, prev_state: GameStates::Running };
    state.toggle_pause();
    assert_eq!(state.cur_state, GameStates::GameOver);
    pause_game(&mut state);
    assert_eq!(state.cur_state, GameStates::GameOver);
    unpause_game(&mut state);
    assert_eq!(state.cur_state, GameStates::GameOver);
    let mut running = GameState::new();
    unpause_game(&mut running);
    assert!(running.is_running());
    pause_game(&mut running);
    assert_eq!(running.cur_state, GameStates::Paused);
    pause_game(&mut running);
    assert_eq!(running.cur_state, GameStates::Paused);
    assert_eq!(running.prev_state, GameStates::Running);
    unpause_game(&mut running);
    assert!(running.is_running());
    running.transition(GameStates::GameOver);
    assert!(running.is_game_over());
    assert_eq!(running.prev_state, GameStates::Running);
    reset_game_state_on_restart(&mut running);
    assert_eq!(running, GameState::new());
}

#[test]
fn a_restart_leaves_nothing_behind() {
    let mut sim = new_game(1);
    sim.step(&boost(), TICK);
    sim.step(&TickInput::none(), 5_000_000);
    sim.step(&TickInput { left: true, ..TickInput::none() }, 10_000_000);
    assert!(!sim.fleet.boats.is_empty());
    assert!(sim.score.count > 0);
    assert_eq!(sim.difficulty.multiplier, 2);
    assert!(sim.player.cooldown.is_some() || sim.player.boost_supply.count == 2);
    let next_id = sim.fleet.next_id;
    let report = sim.step(&TickInput { boost: true, ..restart(6) }, TICK);
    assert_eq!(
        report,
        TickReport {
            restarted: true,
            boosted: None,
            starved: None,
            game_over: None,
            final_score: None
        }
    );
    assert_eq!(sim.score, Score::new());
    assert_eq!(sim.difficulty, Difficulty::new());
    assert_eq!(sim.game_state, GameState::new());
    assert_eq!(sim.game_over, None);
    assert_eq!(sim.player, GameConfig::standard().spawn_player_entity(next_id));
    assert_eq!(sim.player.cooldown, None);
    assert_eq!(sim.player.state, LocomotionState::Idle);
    assert_eq!(sim.player.hunger.time_left, 30_000_000);
    assert_eq!(sim.player.boost_supply.count, 3);
    assert!(sim.fleet.boats.is_empty() && sim.fleet.lines.is_empty());
    assert!(sim.fleet.hooks.is_empty() && sim.fleet.worms.is_empty());
    assert_eq!(sim.fleet.next_id, next_id + 1);
    assert!(sim.contacts.current.hooked.is_empty() && sim.contacts.previous.hooked.is_empty());
    assert_eq!(sim.rng.seed, [6; 32]);
    assert_eq!(sim.rng.word_pos, 0);
    assert_eq!(sim.spawner.spawn_timer.elapsed, 0);
}

#[test]
fn a_restart_revives_a_game_that_is_over() {
    let mut sim = new_game(1);
    sim.player.hunger.time_left = 1;
    sim.step(&TickInput::none(), TICK);
    assert!(sim.game_state.is_game_over());
    sim.step(&restart(2), TICK);
    assert!(sim.game_state.is_running());
    assert_eq!(sim.game_over, None);
    let mut paused = new_game(1);
    paused.step(&pause(), TICK);
    paused.step(&restart(2), TICK);
    assert!(paused.game_state.is_running());
    // after the restart the game goes its way from the fresh seed
    let mut fresh = Simulation::new(GameConfig::standard(), GameRng::from_seed([2; 32]));
    sim.replay(&vec![RecordedTick { input: TickInput::none(), dt: 5_000_000 }; 3]);
    fresh.replay(&vec![RecordedTick { input: TickInput::none(), dt: 5_000_000 }; 3]);
    assert_eq!(sim.fleet.boats.len(), fresh.fleet.boats.len());
    let ours: Vec<Vec2> = sim.fleet.hooks.iter().map(|h| h.offset).collect();
    let theirs: Vec<Vec2> = fresh.fleet.hooks.iter().map(|h| h.offset).collect();
    assert_eq!(ours, theirs);
}

#[test]
fn contacts_with_the_player_of_before_the_restart_are_passed_over() {
    let mut sim = new_game(1);
    sim.step(&restart(2), TICK);
    sim.fleet.next_id = 200;
    sim.fleet.boats.push(still_boat(100, 0, 500_000));
    sim.fleet.hooks.push(hook_under(102, 100, 0, 0));
    sim.contacts.current.hooked.push(PlayerHooked { player_entity: 0, hook_entity: 102 });
    sim.contacts.current.ate.push(PlayerAte { player_entity: 0, worm_entity: 3 });
    assert_eq!(sim.step(&TickInput::none(), TICK), quiet());
    assert!(sim.game_state.is_running());
    assert_eq!(sim.score.count, 0);
}

#[test]
fn difficulty_rises_to_four_and_stays() {
    let mut d = Difficulty::new();
    difficulty_scaling_system(&mut d, 9_999_999);
    assert_eq!(d.multiplier, 1);
    difficulty_scaling_system(&mut d, 1);
    assert_eq!(d.multiplier, 2);
    for _ in 0..10 {
        difficulty_scaling_system(&mut d, 10_000_000);
    }
    assert_eq!(d.multiplier, 4);
    // a long tick raises it by one only
    let mut e = Difficulty::new();
    difficulty_scaling_system(&mut e, 35_000_000);
    assert_eq!(e.multiplier, 2);
    assert_eq!(e.timer.elapsed, 5_000_000);
    reset_difficulty_on_restart(&mut d);
    assert_eq!(d, Difficulty::new());
}

#[test]
fn the_score_counts_seconds_and_worms() {
    let mut s = Score::new();
    increment_score_system(&mut s, 999_999, 0);
    assert_eq!(s.count, 0);
    increment_score_system(&mut s, 1, 0);
    assert_eq!(s.count, 1);
    increment_score_system(&mut s, 10, 2);
    assert_eq!(s.count, 11);
    increment_score_system(&mut s, 999_990, 1);
    assert_eq!(s.count, 17);
    s.count = u32::MAX - 3;
    increment_score_system(&mut s, 0, 1);
    assert_eq!(s.count, u32::MAX);
    increment_score_system(&mut s, 1_000_000, usize::MAX);
    assert_eq!(s.count, u32::MAX);
    reset_score_on_restart(&mut s);
    assert_eq!(s, Score::new());
}

#[test]
fn boats_come_every_five_seconds_and_cross_the_arena() {
    let mut sim = new_game(5);
    sim.player.hunger.time_left = 3_000_000_000;
    // keep the player at the floor, out of the way
    sim.player.position = Vec2::new(0, -164_000);
    for _ in 0..499 {
        sim.step(&TickInput::none(), TICK);
    }
    assert!(sim.fleet.boats.is_empty());
    sim.step(&TickInput::none(), TICK);
    assert_eq!(sim.fleet.boats.len(), 1);
    assert_eq!(sim.fleet.hooks.len(), 1);
    let boat = sim.fleet.boats[0];
    assert_eq!(boat.id, 1);
    assert_eq!(boat.position.y, 130_000);
    let start = if boat.facing_right { -364_000 } else { 364_000 };
    assert_eq!(boat.position.x, start + boat.velocity.x / 100);
    sim.step(&TickInput::none(), TICK);
    assert_eq!(sim.fleet.boats[0].position.x, start + 2 * (boat.velocity.x / 100));
    // sooner or later the first boat has crossed and is gone
    let mut gone = false;
    for _ in 0..4000 {
        sim.step(&TickInput::none(), TICK);
        if sim.game_state.is_game_over() {
            break;
        }
        if !sim.fleet.boats.iter().any(|b| b.id == 1) {
            gone = true;
            assert!(!sim.fleet.hooks.iter().any(|h| h.boat == 1));
            assert!(!sim.fleet.lines.iter().any(|l| l.boat == 1));
            assert!(!sim.fleet.worms.iter().any(|w| w.boat == 1));
            break;
        }
    }
    assert!(gone || sim.game_state.is_game_over());
}

#[test]
fn the_stages_can_be_run_one_by_one() {
    let input = TickInput { right: true, boost: true, ..TickInput::none() };
    let mut whole = new_game(7);
    let mut parts = new_game(7);
    for _ in 0..700 {
        whole.step(&input, TICK);
        parts.contacts.advance();
        let starved = parts.run_timers(&input, TICK);
        parts.handle_events(&input, starved);
        parts.run_movement(&input, TICK);
        parts.finalize_movement(TICK);
        parts.calculate_collisions();
        parts.adjust_positions();
    }
    assert_eq!(show(&whole), show(&parts));
    let mut again = new_game(7);
    again.restart_game([7; 32]);
    assert_eq!(again.player.id, 1);
    assert_eq!(again.fleet.next_id, 2);
}

#[test]
fn the_walls_stop_a_dash() {
    let mut sim = new_game(1);
    sim.player.position = Vec2::new(300_000, 0);
    sim.step(&TickInput { right: true, boost: true, ..TickInput::none() }, TICK);
    assert_eq!(sim.player.position, Vec2::new(304_000, -100));
    assert_eq!(sim.player.velocity, Vec2::new(1_500_000, -10_000));
}

#[test]
fn a_game_is_well_formed_until_it_is_tampered_with() {
    let mut sim = new_game(1);
    assert!(sim.is_valid());
    assert!(GameConfig::standard().is_valid());
    sim.fleet.boats.push(still_boat(5, 0, 0));
    assert!(!sim.is_valid());
    sim.fleet.next_id = 6;
    assert!(sim.is_valid());
    sim.fleet.boats.push(still_boat(5, 0, 0));
    sim.fleet.next_id = 7;
    assert!(!sim.is_valid());
    let mut over = new_game(1);
    over.game_state.transition(GameStates::GameOver);
    assert!(!over.is_valid());
    over.game_over = Some(GameOver { winning_boat: None });
    assert!(over.is_valid());
    let mut fast = new_game(1);
    fast.player.stats.acceleration = 1001;
    assert!(!fast.is_valid());
    let mut hard = new_game(1);
    hard.difficulty.multiplier = 5;
    assert!(!hard.is_valid());
    let mut full = new_game(1);
    full.player.boost_supply.count = 4;
    assert!(!full.is_valid());
    let mut wide = GameConfig::standard();
    wide.arena.width = -1;
    assert!(!wide.is_valid());
}

#[test]
fn the_end_of_a_game_takes_the_worms_away() {
    let mut sim = new_game(1);
    sim.fleet.next_id = 200;
    sim.fleet.boats.push(still_boat(100, 0, 130_000));
    sim.fleet.hooks.push(hook_under(102, 100, 100_000, -130_000));
    sim.fleet.worms.push(worm_under(103, 100, 100_000, -100_000));
    sim.player.hunger.time_left = 15_000;
    sim.step(&TickInput::none(), TICK);
    assert_eq!(sim.fleet.worms.len(), 1);
    let report = sim.step(&TickInput::none(), TICK);
    assert!(report.game_over.is_some());
    assert!(sim.fleet.worms.is_empty());
    assert_eq!(sim.fleet.boats.len(), 1);
    assert_eq!(sim.fleet.hooks.len(), 1);
    assert!(sim.is_valid());
}

#[test]
fn a_boat_goes_in_the_tick_in_which_its_last_hook_leaves() {
    let mut sim = new_game(1);
    sim.fleet.next_id = 200;
    sim.player.position = Vec2::new(0, -100_000);
    let mut boat = still_boat(100, 435_000, 130_000);
    boat.velocity = Vec2::new(40_000, 0);
    sim.fleet.boats.push(boat);
    // two hooks are out already, the third has one unit to go
    sim.fleet.hooks.push(hook_under(102, 100, -20_000, -100_000));
    sim.fleet.hooks.push(hook_under(105, 100, -30_000, -100_000));
    sim.fleet.hooks.push(hook_under(108, 100, -100_000, -100_000));
    sim.fleet.worms.push(worm_under(109, 100, -100_000, -50_000));
    // 0.4 units per tick: after two ticks the hook has 0.2 units to go
    sim.step(&TickInput::none(), TICK);
    sim.step(&TickInput::none(), TICK);
    assert_eq!(sim.fleet.boats.len(), 1);
    assert_eq!(sim.fleet.boats[0].position.x, 435_800);
    assert_eq!(sim.fleet.hooks.len(), 3);
    assert_eq!(sim.fleet.worms.len(), 1);
    // the third tick carries it over the line, and the boat is gone in that tick
    sim.step(&TickInput::none(), TICK);
    assert!(sim.fleet.boats.is_empty());
    assert!(sim.fleet.hooks.is_empty());
    assert!(sim.fleet.worms.is_empty());
    assert!(sim.game_state.is_running());
}
