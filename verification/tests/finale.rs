use fish_game::arena::initialize_arena;
use fish_game::boat::Boat;
use fish_game::collision::Collider;
use fish_game::core2d::Vec2;
use fish_game::finale::{
    boat_exit_system, head_toward, player_bonked_handler, player_hooked_handler,
    player_starved_handler, BoatExit, Heading,
};
use fish_game::motion::Destination;

fn boat(id: u64, x: i32, speed: i32) -> Boat {
    Boat {
        id,
        position: Vec2::new(x, 130_000),
        velocity: Vec2::new(speed, 0),
        collider: Collider { width: 45_000, height: 10_000 },
        facing_right: speed > 0,
        num_lines: 1,
    }
}

#[test]
fn heading_toward_a_point() {
    assert_eq!(head_toward(Vec2::new(0, 0), Vec2::new(30, 40), 500), Vec2::new(300, 400));
    assert_eq!(head_toward(Vec2::new(10, 10), Vec2::new(10, -5), 7), Vec2::new(0, -7));
    assert_eq!(head_toward(Vec2::new(3, 3), Vec2::new(3, 3), 500), Vec2::new(0, 0));
    let far = head_toward(Vec2::new(i32::MIN, 0), Vec2::new(i32::MAX, 0), 10);
    assert_eq!(far, Vec2::new(10, 0));
}

#[test]
fn a_hook_is_reeled_in_to_the_start_of_its_line() {
    assert_eq!(
        player_hooked_handler(Vec2::new(0, -100_000), Vec2::new(0, 15_000)),
        Heading {
            velocity: Vec2::new(0, 300_000),
            destination: Destination { point: Vec2::new(0, 15_000), trigger_distance: 10_000 },
        }
    );
    assert_eq!(
        player_hooked_handler(Vec2::new(-30_000, -40_000), Vec2::new(0, 0)).velocity,
        Vec2::new(180_000, 240_000)
    );
    assert_eq!(
        player_hooked_handler(Vec2::new(5, 5), Vec2::new(5, 5)).velocity,
        Vec2::new(0, 0)
    );
}

#[test]
fn a_fish_that_hit_a_hull_drifts_to_its_upper_edge() {
    let hull = Collider { width: 45_000, height: 10_000 };
    assert_eq!(
        player_bonked_handler(Vec2::new(5, 0), Vec2::new(100, 130_000), &hull),
        Heading {
            velocity: Vec2::new(0, 50_000),
            destination: Destination { point: Vec2::new(5, 135_000), trigger_distance: 10_000 },
        }
    );
    assert_eq!(
        player_bonked_handler(Vec2::new(5, 140_000), Vec2::new(100, 130_000), &hull).velocity,
        Vec2::new(0, -50_000)
    );
}

#[test]
fn a_starved_fish_floats_to_the_surface() {
    assert_eq!(
        player_starved_handler(Vec2::new(7, -3), &initialize_arena()),
        Heading {
            velocity: Vec2::new(0, 100_000),
            destination: Destination { point: Vec2::new(7, 130_000), trigger_distance: 1_000 },
        }
    );
}

#[test]
fn the_winner_stays_and_the_others_leave() {
    assert_eq!(boat_exit_system(&boat(5, -100, 40_000), Some(5)), BoatExit::Stays);
    assert_eq!(
        boat_exit_system(&boat(5, -100, 40_000), Some(6)),
        BoatExit::Leaves { velocity: Vec2::new(-80_000, 0), facing_right: false }
    );
    assert_eq!(
        boat_exit_system(&boat(5, -100, -40_000), None),
        BoatExit::Leaves { velocity: Vec2::new(-80_000, 0), facing_right: false }
    );
    assert_eq!(
        boat_exit_system(&boat(5, 0, -40_000), None),
        BoatExit::Leaves { velocity: Vec2::new(80_000, 0), facing_right: true }
    );
    assert_eq!(
        boat_exit_system(&boat(5, 7, i32::MIN), Some(4)),
        BoatExit::Leaves { velocity: Vec2::new(i32::MAX, 0), facing_right: true }
    );
}

#[test]
fn points_on_a_boat() {
    let b = boat(1, 1_000, 0);
    assert_eq!(b.point_at(Vec2::new(-5, -130_000)), Vec2::new(995, 0));
    assert_eq!(b.point_at(Vec2::new(i32::MAX, i32::MIN)), Vec2::new(i32::MAX, i32::MIN + 130_000));
}
