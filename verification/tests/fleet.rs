use fish_game::arena::{initialize_arena, Arena};
use fish_game::boat::{boat_stats_factory, rig_pole, Boat, BoatStats, Hook, Line, Worm};
use fish_game::collision::Collider;
use fish_game::core2d::Vec2;
use fish_game::fleet::{
    boat_spawner_system, despawn_boat_system, reset_boats_on_restart, spawn_boat, spawn_lines,
    BoatSpawner, Fleet,
};
use fish_game::rng::GameRng;
use fish_game::timer::{Timer, TimerMode};
use rand::Rng;
use rand::SeedableRng;
use rand_chacha::ChaCha8Rng;

struct FloatStats {
    num_poles: u8,
    speed: f32,
    width: f32,
    height: f32,
    worm_chance: f32,
}

fn float_stats(difficulty: u8, rng: &mut ChaCha8Rng) -> FloatStats {
    match rng.gen_range(1..difficulty + 1) {
        1 => FloatStats {
            num_poles: 1,
            speed: (rng.gen_range(30..40) + (5 * difficulty)) as f32,
            width: 45.0,
            height: 10.0,
            worm_chance: 0.5,
        },
        2 => FloatStats {
            num_poles: rng.gen_range(1..3) + difficulty,
            speed: (rng.gen_range(40..50) + (5 * difficulty)) as f32,
            width: 65.0,
            height: 24.0,
            worm_chance: 0.8,
        },
        3 => FloatStats {
            num_poles: rng.gen_range(1..2) + difficulty,
            speed: (rng.gen_range(75..100) + (5 * difficulty)) as f32,
            width: 75.0,
            height: 16.0,
            worm_chance: 0.4,
        },
        4 => FloatStats {
            num_poles: rng.gen_range(3..6) + difficulty,
            speed: (rng.gen_range(60..75) + (5 * difficulty)) as f32,
            width: 128.0,
            height: 64.0,
            worm_chance: 0.25,
        },
        _ => panic!("no such boat"),
    }
}

struct FloatPole {
    start: (f32, f32),
    end: (f32, f32),
    hook: (f32, f32),
    worm: Option<(f32, f32)>,
}

fn float_poles(stats: &FloatStats, rng: &mut ChaCha8Rng) -> Vec<FloatPole> {
    let mut poles = Vec::new();
    for i in 1..stats.num_poles + 1 {
        let rod_offset = i as f32 * (stats.width / (stats.num_poles + 1) as f32);
        let rod_x = -(stats.width / 2.0) + rod_offset;
        let rod_y = stats.height / 2.0;
        let start = (rod_x - 5.0, rod_y + 10.0);
        let line_length = rng.gen_range(50 + stats.height as u32..325) as f32;
        let line_angle = rng.gen_range(225..271) as f32;
        let end = (
            start.0 + line_length * (std::f32::consts::PI * (line_angle / 180.0)).cos(),
            start.1 + line_length * (std::f32::consts::PI * (line_angle / 180.0)).sin(),
        );
        let mid = ((start.0 + end.0) / 2.0, (start.1 + end.1) / 2.0);
        let hook = (end.0, end.1 - 8.0);
        let worm = if rng.gen_bool(stats.worm_chance as f64) {
            let from_mid = rng.gen_range(0..(line_length / 2.0) as u32) as f32;
            let d = (mid.0 - end.0, mid.1 - end.1);
            let len = (d.0 * d.0 + d.1 * d.1).sqrt();
            let _wiggle: f32 = rng.gen::<f32>() * 2.0;
            Some((mid.0 - d.0 / len * from_mid, mid.1 - d.1 / len * from_mid))
        } else {
            None
        };
        poles.push(FloatPole { start, end, hook, worm });
    }
    poles
}

fn close(fixed: i32, float: f32) -> bool {
    (fixed as f64 / 1000.0 - float as f64).abs() < 0.01
}

#[test]
fn boats_are_drawn_as_the_formulas_say() {
    let arena = initialize_arena();
    for seed in 0..40u8 {
        for difficulty in 1..=4u8 {
            let mut reference = ChaCha8Rng::from_seed([seed; 32]);
            let mut rng = GameRng::from_seed([seed; 32]);
            let mut fleet = Fleet::new(1);
            for _ in 0..3 {
                let expected = float_stats(difficulty, &mut reference);
                let stats = boat_stats_factory(difficulty, &mut rng);
                assert_eq!(stats.num_poles, expected.num_poles);
                assert_eq!(stats.speed as f32, expected.speed * 1000.0);
                assert_eq!(stats.width as f32, expected.width * 1000.0);
                assert_eq!(stats.height as f32, expected.height * 1000.0);
                assert_eq!(stats.worm_chance as f32, expected.worm_chance * 100.0);
                assert_eq!(rng.word_pos, reference.get_word_pos());

                let facing_right: bool = reference.gen();
                let poles = float_poles(&expected, &mut reference);
                let boats_before = fleet.boats.len();
                let hooks_before = fleet.hooks.len();
                let worms_before = fleet.worms.len();
                let id = fleet.next_id;
                spawn_boat(stats, &arena, &mut rng, &mut fleet);
                assert_eq!(rng.word_pos, reference.get_word_pos());

                assert_eq!(fleet.boats.len(), boats_before + 1);
                let boat = fleet.boats[boats_before];
                assert_eq!(boat.id, id);
                assert_eq!(fleet.next_id, id + 1 + 3 * stats.num_poles as u64);
                assert_eq!(boat.facing_right, facing_right);
                assert_eq!(boat.num_lines, stats.num_poles);
                assert_eq!(boat.collider, Collider { width: stats.width, height: stats.height });
                let side = if facing_right { 1 } else { -1 };
                assert_eq!(boat.velocity, Vec2::new(side * stats.speed, 0));
                assert_eq!(boat.position.x, -side * (320_000 + stats.width - 1_000));
                assert_eq!(boat.position.y, 130_000);

                assert_eq!(fleet.hooks.len(), hooks_before + poles.len());
                assert_eq!(fleet.lines.len(), fleet.hooks.len());
                let mut worm_at = worms_before;
                for (k, pole) in poles.iter().enumerate() {
                    let line = fleet.lines[hooks_before + k];
                    let hook = fleet.hooks[hooks_before + k];
                    let turn = side as f32;
                    assert_eq!(line.boat, id);
                    assert_eq!(line.id, id + 3 * (k as u64 + 1) - 2);
                    assert_eq!(hook.boat, id);
                    assert_eq!(hook.id, id + 3 * (k as u64 + 1) - 1);
                    assert_eq!(hook.line_entity, line.id);
                    assert_eq!(hook.collider, Collider { width: 16_000, height: 16_000 });
                    assert!(close(line.start_point.x, turn * pole.start.0));
                    assert!(close(line.start_point.y, pole.start.1));
                    assert!(close(line.end_point.x, turn * pole.end.0));
                    assert!(close(line.end_point.y, pole.end.1));
                    assert!(close(hook.offset.x, turn * pole.hook.0));
                    assert!(close(hook.offset.y, pole.hook.1));
                    if let Some(at) = pole.worm {
                        let worm = fleet.worms[worm_at];
                        worm_at += 1;
                        assert_eq!(worm.boat, id);
                        assert_eq!(worm.id, id + 3 * (k as u64 + 1));
                        assert_eq!(worm.line_entity, line.id);
                        assert_eq!(worm.collider, Collider { width: 16_000, height: 16_000 });
                        assert!(close(worm.offset.x, turn * at.0));
                        assert!(close(worm.offset.y, at.1));
                    }
                }
                assert_eq!(fleet.worms.len(), worm_at);
            }
        }
    }
}

#[test]
fn a_dinghy_at_the_lowest_difficulty() {
    let mut rng = GameRng::from_seed([1; 32]);
    for _ in 0..20 {
        let stats = boat_stats_factory(1, &mut rng);
        assert_eq!(stats.num_poles, 1);
        assert_eq!(stats.width, 45_000);
        assert_eq!(stats.height, 10_000);
        assert_eq!(stats.worm_chance, 50);
        assert!(stats.speed >= 35_000 && stats.speed < 45_000);
        assert_eq!(stats.speed % 1000, 0);
    }
}

#[test]
fn one_pole_by_hand() {
    let stats =
        BoatStats { num_poles: 1, speed: 40_000, width: 45_000, height: 10_000, worm_chance: 0 };
    let mut rng = GameRng::from_seed([5; 32]);
    let mut peek = rng;
    let length = peek.gen_range_u32(60, 325) as i64;
    let angle = peek.gen_range_u32(225, 271);
    let (line, hook, worm) = rig_pole(&stats, 10, true, &mut rng, 1);
    assert_eq!(worm, None);
    assert_eq!(line.id, 11);
    assert_eq!(hook.id, 12);
    assert_eq!(line.start_point, Vec2::new(-22_500 + 22_500 - 5_000, 5_000 + 10_000));
    let (ux, uy) = fish_game::trig::unit_vector(angle);
    let end_x = -5_000 + length * 1000 * ux / 1_000_000;
    let end_y = 15_000 + length * 1000 * uy / 1_000_000;
    assert_eq!(line.end_point, Vec2::new(end_x as i32, end_y as i32));
    assert_eq!(hook.offset, Vec2::new(end_x as i32, end_y as i32 - 8_000));
    let mut again = GameRng::from_seed([5; 32]);
    let (mirrored, left_hook, _) = rig_pole(&stats, 10, false, &mut again, 1);
    assert_eq!(mirrored.start_point, Vec2::new(5_000, 15_000));
    assert_eq!(mirrored.end_point, Vec2::new(-line.end_point.x, line.end_point.y));
    assert_eq!(left_hook.offset, Vec2::new(-hook.offset.x, hook.offset.y));
}

#[test]
fn a_sure_worm_sits_on_the_far_half_of_its_line() {
    let stats =
        BoatStats { num_poles: 3, speed: 40_000, width: 65_000, height: 24_000, worm_chance: 100 };
    for seed in 0..30u8 {
        let mut rng = GameRng::from_seed([seed; 32]);
        for pole in 1..=3u8 {
            let (line, hook, worm) = rig_pole(&stats, 0, true, &mut rng, pole);
            let worm = worm.unwrap();
            let mid_y = (line.start_point.y + line.end_point.y) / 2;
            assert!(worm.offset.y <= mid_y + 1);
            assert!(worm.offset.y >= line.end_point.y);
            assert!(worm.offset.x <= line.start_point.x);
            assert!(worm.offset.x >= line.end_point.x);
            assert_eq!(hook.offset.y, line.end_point.y - 8_000);
        }
    }
}

#[test]
fn lines_hang_down_and_back() {
    let stats =
        BoatStats { num_poles: 9, speed: 40_000, width: 128_000, height: 64_000, worm_chance: 25 };
    let boat = Boat {
        id: 5,
        position: Vec2::new(0, 0),
        velocity: Vec2::new(0, 0),
        collider: Collider { width: 128_000, height: 64_000 },
        facing_right: true,
        num_lines: 9,
    };
    let mut rng = GameRng::from_seed([9; 32]);
    let mut fleet = Fleet::new(6);
    spawn_lines(&stats, &boat, &mut rng, &mut fleet);
    assert_eq!(fleet.lines.len(), 9);
    assert_eq!(fleet.hooks.len(), 9);
    assert!(fleet.worms.len() <= 9);
    assert!(fleet.boats.is_empty());
    let mut last_x = i32::MIN;
    for line in &fleet.lines {
        assert_eq!(line.start_point.y, 42_000);
        assert!(line.start_point.x > last_x);
        last_x = line.start_point.x;
        assert!(line.end_point.x <= line.start_point.x);
        let drop = (line.start_point.y - line.end_point.y) as i64;
        let back = (line.start_point.x - line.end_point.x) as i64;
        // between 45 degrees and straight down
        assert!(drop >= back - 1);
        let length_squared = drop * drop + back * back;
        assert!(length_squared >= 113_990i64 * 113_990);
        assert!(length_squared <= 324_010i64 * 324_010);
    }
}

fn boat_at(id: u64, x: i32) -> Boat {
    Boat {
        id,
        position: Vec2::new(x, 130_000),
        velocity: Vec2::new(40_000, 0),
        collider: Collider { width: 45_000, height: 10_000 },
        facing_right: true,
        num_lines: 3,
    }
}

fn hook_of(id: u64, boat: u64, x: i32) -> Hook {
    Hook {
        id,
        boat,
        line_entity: id - 1,
        offset: Vec2::new(x, -100_000),
        collider: Collider { width: 16_000, height: 16_000 },
    }
}

fn three_hook_fleet(boat_x: i32) -> Fleet {
    let mut fleet = Fleet::new(100);
    fleet.boats.push(boat_at(1, boat_x));
    for (k, x) in [-20_000, -30_000, -100_000].iter().enumerate() {
        let line_id = 2 + 3 * k as u64;
        fleet.lines.push(Line {
            id: line_id,
            boat: 1,
            start_point: Vec2::new(0, 15_000),
            end_point: Vec2::new(*x, -92_000),
        });
        fleet.hooks.push(hook_of(line_id + 1, 1, *x));
        fleet.worms.push(Worm {
            id: line_id + 2,
            boat: 1,
            line_entity: line_id,
            offset: Vec2::new(*x / 2, -50_000),
            collider: Collider { width: 16_000, height: 16_000 },
            wiggle: 0,
        });
    }
    fleet
}

#[test]
fn a_boat_stays_while_one_hook_is_in_play() {
    let arena = initialize_arena();
    // hull and two hooks are out, the third hook is still in play
    let mut fleet = three_hook_fleet(400_000);
    assert!(fleet.is_ordered());
    assert!(arena.is_outside(400_000, 45_000));
    assert!(arena.is_outside(380_000, 16_000));
    assert!(arena.is_outside(370_000, 16_000));
    assert!(!arena.is_outside(300_000, 16_000));
    assert!(!fleet.boat_has_left(&arena, 0));
    despawn_boat_system(&arena, &mut fleet);
    assert_eq!(fleet.boats.len(), 1);
    assert_eq!(fleet.hooks.len(), 3);
    assert_eq!(fleet.lines.len(), 3);
    assert_eq!(fleet.worms.len(), 3);
    // the third hook leaves: the boat goes, in the same call
    fleet.boats[0].position.x = 436_001;
    assert!(fleet.boat_has_left(&arena, 0));
    despawn_boat_system(&arena, &mut fleet);
    assert!(fleet.boats.is_empty());
    assert!(fleet.hooks.is_empty());
    assert!(fleet.lines.is_empty());
    assert!(fleet.worms.is_empty());
    assert_eq!(fleet.next_id, 100);
}

#[test]
fn the_last_hook_leaves_exactly_past_its_width() {
    let arena = initialize_arena();
    let mut edge = three_hook_fleet(436_000);
    despawn_boat_system(&arena, &mut edge);
    assert_eq!(edge.boats.len(), 1);
}

#[test]
fn a_new_boat_is_not_taken_away_though_its_hooks_are_outside() {
    let arena = initialize_arena();
    let mut rng = GameRng::from_seed([3; 32]);
    let mut fleet = Fleet::new(1);
    for _ in 0..10 {
        let stats = boat_stats_factory(4, &mut rng);
        spawn_boat(stats, &arena, &mut rng, &mut fleet);
    }
    let boats = fleet.boats.len();
    let hooks = fleet.hooks.len();
    despawn_boat_system(&arena, &mut fleet);
    assert_eq!(fleet.boats.len(), boats);
    assert_eq!(fleet.hooks.len(), hooks);
}

#[test]
fn only_the_boat_that_left_goes() {
    let arena = initialize_arena();
    let mut fleet = three_hook_fleet(500_000);
    fleet.boats.push(boat_at(50, 0));
    fleet.hooks.push(hook_of(52, 50, -10_000));
    fleet.boats.push(boat_at(60, -500_000));
    fleet.hooks.push(hook_of(62, 60, -10_000));
    // a hook whose boat is not there stays
    fleet.hooks.push(hook_of(72, 70, 0));
    despawn_boat_system(&arena, &mut fleet);
    let ids: Vec<u64> = fleet.boats.iter().map(|b| b.id).collect();
    assert_eq!(ids, vec![50]);
    let hooks: Vec<u64> = fleet.hooks.iter().map(|h| h.id).collect();
    assert_eq!(hooks, vec![52, 72]);
    assert!(fleet.worms.is_empty());
    assert!(fleet.lines.is_empty());
}

#[test]
fn boats_move_along_their_velocity() {
    let mut fleet = three_hook_fleet(0);
    fleet.boats.push(Boat { velocity: Vec2::new(-119_000, 0), ..boat_at(9, 1_000) });
    let hooks = fleet.hooks.clone();
    fleet.move_boats(10_000);
    assert_eq!(fleet.boats[0].position, Vec2::new(400, 130_000));
    assert_eq!(fleet.boats[1].position, Vec2::new(-190, 130_000));
    assert_eq!(fleet.hooks, hooks);
}

#[test]
fn finding_boats_and_hooks_by_id() {
    let mut fleet = three_hook_fleet(0);
    fleet.boats.push(boat_at(1, 77));
    assert_eq!(fleet.boat_of(1), Some(boat_at(1, 0)));
    assert_eq!(fleet.boat_of(2), None);
    assert_eq!(fleet.hook_of(6), Some(hook_of(6, 1, -30_000)));
    assert_eq!(fleet.hook_of(7), None);
}

#[test]
fn ids_are_handed_out_in_turn() {
    let mut fleet = Fleet::new(5);
    assert_eq!(fleet.take_id(), 5);
    assert_eq!(fleet.take_id(), 6);
    assert_eq!(fleet.next_id, 7);
    let mut last = Fleet::new(u64::MAX);
    assert_eq!(last.take_id(), u64::MAX);
    assert_eq!(last.next_id, u64::MAX);
}

#[test]
fn the_spawner_sends_a_wave_when_its_time_is_up() {
    let arena = initialize_arena();
    let mut spawner = BoatSpawner::new();
    assert_eq!(spawner.spawn_timer, Timer::from_micros(5_000_000, TimerMode::Repeating));
    let mut rng = GameRng::from_seed([8; 32]);
    let mut fleet = Fleet::new(1);
    boat_spawner_system(&mut spawner, 4_999_999, 4, &arena, &mut rng, &mut fleet);
    assert!(fleet.boats.is_empty());
    assert_eq!(rng.word_pos, 0);
    boat_spawner_system(&mut spawner, 1, 4, &arena, &mut rng, &mut fleet);
    let mut reference = ChaCha8Rng::from_seed([8; 32]);
    let count: u8 = reference.gen_range(1..5);
    assert_eq!(fleet.boats.len(), count as usize);
    assert!(rng.word_pos > 0);
    let hooks: usize = fleet.boats.iter().map(|b| b.num_lines as usize).sum();
    assert_eq!(fleet.hooks.len(), hooks);
    let boats = fleet.boats.len();
    boat_spawner_system(&mut spawner, 1_000_000, 4, &arena, &mut rng, &mut fleet);
    assert_eq!(fleet.boats.len(), boats);
}

#[test]
fn at_the_lowest_difficulty_a_wave_is_one_dinghy() {
    let arena = initialize_arena();
    let mut spawner = BoatSpawner::new();
    let mut rng = GameRng::from_seed([2; 32]);
    let mut fleet = Fleet::new(1);
    for wave in 1..=10usize {
        boat_spawner_system(&mut spawner, 5_000_000, 1, &arena, &mut rng, &mut fleet);
        assert_eq!(fleet.boats.len(), wave);
        assert_eq!(fleet.hooks.len(), wave);
        assert_eq!(fleet.boats[wave - 1].collider, Collider { width: 45_000, height: 10_000 });
    }
}

#[test]
fn no_wave_without_ids() {
    let arena = initialize_arena();
    let mut spawner = BoatSpawner::new();
    let mut rng = GameRng::from_seed([2; 32]);
    let mut fleet = Fleet::new(u64::MAX - 4095);
    boat_spawner_system(&mut spawner, 5_000_000, 4, &arena, &mut rng, &mut fleet);
    assert!(fleet.boats.is_empty());
    assert_eq!(rng.word_pos, 0);
    assert!(spawner.spawn_timer.finished());
    let mut enough = Fleet::new(u64::MAX - 4096);
    boat_spawner_system(&mut spawner, 5_000_000, 4, &arena, &mut rng, &mut enough);
    assert!(!enough.boats.is_empty());
}

#[test]
fn a_restart_empties_the_fleet() {
    let arena = Arena { width: 100_000, height: 100_000, offset: 0 };
    let mut spawner = BoatSpawner::new();
    let mut rng = GameRng::from_seed([4; 32]);
    let mut fleet = Fleet::new(1);
    boat_spawner_system(&mut spawner, 7_000_000, 3, &arena, &mut rng, &mut fleet);
    assert!(!fleet.boats.is_empty());
    assert_eq!(fleet.boats[0].position.y, 50_000);
    assert_eq!(spawner.spawn_timer.elapsed, 2_000_000);
    let next = fleet.next_id;
    reset_boats_on_restart(&mut fleet, &mut spawner);
    assert!(fleet.boats.is_empty() && fleet.hooks.is_empty());
    assert!(fleet.lines.is_empty() && fleet.worms.is_empty());
    assert_eq!(fleet.next_id, next);
    assert_eq!(spawner, BoatSpawner::new());
}

#[test]
fn spawned_boats_stand_in_the_order_of_their_ids() {
    let arena = initialize_arena();
    let mut spawner = BoatSpawner::new();
    let mut rng = GameRng::from_seed([6; 32]);
    let mut fleet = Fleet::new(1);
    for _ in 0..20 {
        boat_spawner_system(&mut spawner, 5_000_000, 4, &arena, &mut rng, &mut fleet);
        assert!(fleet.is_ordered());
        fleet.move_boats(3_000_000);
        despawn_boat_system(&arena, &mut fleet);
        assert!(fleet.is_ordered());
    }
    assert!(!fleet.boats.is_empty());
    assert!(fleet.boats.len() < 60);
    let mut unordered = Fleet::new(10);
    unordered.boats.push(boat_at(3, 0));
    unordered.boats.push(boat_at(2, 0));
    assert!(!unordered.is_ordered());
    let mut late = Fleet::new(3);
    late.boats.push(boat_at(3, 0));
    assert!(!late.is_ordered());
}
