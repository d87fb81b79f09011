//! How a game that has ended plays out: the fish is reeled in, floats up or
//! bobs under the hull that it hit, and the boats that did not catch it
//! leave. None of this changes the simulation; it tells whoever draws the
//! end of the game where things go.
use crate::arena::Arena;
use crate::boat::Boat;
use crate::collision::Collider;
use crate::core2d::{clamp_i32, saturate, stretch_to, stretched_to, trunc_div, Vec2};
use crate::motion::Destination;
use vstd::prelude::*;

verus! {

/// Speed at which a hook is reeled in.
pub const REEL_SPEED: i32 = 300_000;

/// Speed at which a fish that hit a hull drifts up.
pub const BONKED_SPEED: i32 = 50_000;

/// Speed at which a starved fish floats up.
pub const STARVED_SPEED: i32 = 100_000;

/// How near a hook has to come to the tip of its rod, and a fish to the
/// hull, to have arrived.
pub const ARRIVAL_DISTANCE: i32 = 10_000;

/// How near a starved fish has to come to the surface to have arrived.
pub const SURFACE_DISTANCE: i32 = 1_000;

/// A velocity and the destination it leads to.
#[derive(Clone, Copy, Debug, PartialEq, Eq, Structural)]
pub struct Heading {
    pub velocity: Vec2,
    pub destination: Destination,
}

/// The difference of two points, each part stopped at the ends of the
/// coordinate range.
pub open spec fn offset_between(from: Vec2, to: Vec2) -> Vec2 {
    Vec2 { x: clamp_i32(to.x - from.x) as i32, y: clamp_i32(to.y - from.y) as i32 }
}

/// The velocity that leads from `from` toward `to` at `speed`, or none if
/// the two points are the same.
pub open spec fn velocity_toward(from: Vec2, to: Vec2, speed: i32) -> Vec2 {
    if offset_between(from, to).is_zero() {
        Vec2 { x: 0, y: 0 }
    } else {
        stretch_to(offset_between(from, to), speed as int)
    }
}

/// The velocity that leads from `from` toward `to` at `speed`.
pub fn head_toward(from: Vec2, to: Vec2, speed: i32) -> (velocity: Vec2)
    ensures
        velocity == velocity_toward(from, to, speed),
{
    let offset: Vec2 = Vec2 {
        x: saturate(to.x as i64 - from.x as i64),
        y: saturate(to.y as i64 - from.y as i64),
    };
    if offset.is_zero() {
        Vec2 { x: 0, y: 0 }
    } else {
        stretched_to(offset, speed)
    }
}

/// Where a hook that caught the fish goes: to the start of its line, at the
/// reel speed. The fish goes with it.
pub open spec fn reeling(hook_position: Vec2, line_start: Vec2) -> Heading {
    Heading {
        velocity: velocity_toward(hook_position, line_start, REEL_SPEED),
        destination: Destination { point: line_start, trigger_distance: ARRIVAL_DISTANCE },
    }
}

/// Tells where the hook that caught the fish goes.
pub fn player_hooked_handler(hook_position: Vec2, line_start: Vec2) -> (heading: Heading)
    ensures
        heading == reeling(hook_position, line_start),
{
    Heading {
        velocity: head_toward(hook_position, line_start, REEL_SPEED),
        destination: Destination { point: line_start, trigger_distance: ARRIVAL_DISTANCE },
    }
}

/// The point right above or below the fish on the upper edge of a hull.
pub open spec fn under_hull(player_position: Vec2, boat_position: Vec2, hull: Collider) -> Vec2 {
    Vec2 {
        x: player_position.x,
        y: clamp_i32(boat_position.y + trunc_div(hull.height as int, 2)) as i32,
    }
}

/// Where a fish that hit a hull goes: straight to the height of the upper
/// edge of the hull, slowly.
pub open spec fn bonked(player_position: Vec2, boat_position: Vec2, hull: Collider) -> Heading {
    Heading {
        velocity: velocity_toward(
            player_position,
            under_hull(player_position, boat_position, hull),
            BONKED_SPEED,
        ),
        destination: Destination {
            point: under_hull(player_position, boat_position, hull),
            trigger_distance: ARRIVAL_DISTANCE,
        },
    }
}

/// Tells where a fish that hit a hull goes.
pub fn player_bonked_handler(player_position: Vec2, boat_position: Vec2, hull: &Collider) -> (heading:
    Heading)
    ensures
        heading == bonked(player_position, boat_position, *hull),
{
    let target_point: Vec2 = Vec2 {
        x: player_position.x,
        y: saturate(boat_position.y as i64 + (hull.height / 2) as i64),
    };
    Heading {
        velocity: head_toward(player_position, target_point, BONKED_SPEED),
        destination: Destination { point: target_point, trigger_distance: ARRIVAL_DISTANCE },
    }
}

/// The point of the surface right above the fish.
pub open spec fn surface_above(player_position: Vec2, arena: Arena) -> Vec2 {
    Vec2 { x: player_position.x, y: clamp_i32(arena.surface()) as i32 }
}

/// Where a starved fish goes: straight up, until it is near the surface.
pub open spec fn starved(player_position: Vec2, arena: Arena) -> Heading {
    Heading {
        velocity: Vec2 { x: 0, y: STARVED_SPEED },
        destination: Destination {
            point: surface_above(player_position, arena),
            trigger_distance: SURFACE_DISTANCE,
        },
    }
}

/// Tells where a starved fish goes.
pub fn player_starved_handler(player_position: Vec2, arena: &Arena) -> (heading: Heading)
    requires
        arena.wf(),
    ensures
        heading == starved(player_position, *arena),
{
    Heading {
        velocity: Vec2 { x: 0, y: STARVED_SPEED },
        destination: Destination {
            point: Vec2 {
                x: player_position.x,
                y: saturate((arena.height / 2) as i64 + arena.offset as i64),
            },
            trigger_distance: SURFACE_DISTANCE,
        },
    }
}

/// What a boat does when the game has ended.
#[derive(Clone, Copy, Debug, PartialEq, Eq, Structural)]
pub enum BoatExit {
    /// The boat that caught the fish stays where it is.
    Stays,
    /// Any other boat leaves by the side it is nearer to, at twice its
    /// speed, and looks where it goes.
    Leaves { velocity: Vec2, facing_right: bool },
}

/// The size of a speed.
pub open spec fn speed_of(velocity: int) -> int {
    if velocity < 0 {
        -velocity
    } else {
        velocity
    }
}

/// What `boat` does when the game has ended and `winning_boat` caught the
/// fish: the winner stays; a boat left of the middle leaves to the left and
/// any other to the right, at twice its speed.
pub open spec fn exit_of(boat: Boat, winning_boat: Option<u64>) -> BoatExit {
    if winning_boat == Some(boat.id) {
        BoatExit::Stays
    } else if boat.position.x < 0 {
        BoatExit::Leaves {
            velocity: Vec2 {
                x: clamp_i32(-2 * speed_of(boat.velocity.x as int)) as i32,
                y: boat.velocity.y,
            },
            facing_right: false,
        }
    } else {
        BoatExit::Leaves {
            velocity: Vec2 {
                x: clamp_i32(2 * speed_of(boat.velocity.x as int)) as i32,
                y: boat.velocity.y,
            },
            facing_right: true,
        }
    }
}

/// Tells what a boat does when the game has ended.
pub fn boat_exit_system(boat: &Boat, winning_boat: Option<u64>) -> (exit: BoatExit)
    ensures
        exit == exit_of(*boat, winning_boat),
{
    let wins: bool = match winning_boat {
        Some(id) => id == boat.id,
        None => false,
    };
    if wins {
        return BoatExit::Stays;
    }
    let speed: i64 = if boat.velocity.x < 0 {
        -(boat.velocity.x as i64)
    } else {
        boat.velocity.x as i64
    };
    if boat.position.x < 0 {
        BoatExit::Leaves {
            velocity: Vec2 { x: saturate(-2 * speed), y: boat.velocity.y },
            facing_right: false,
        }
    } else {
        BoatExit::Leaves {
            velocity: Vec2 { x: saturate(2 * speed), y: boat.velocity.y },
            facing_right: true,
        }
    }
}

} // verus!
