//! Moving toward a destination, and following something else.
use crate::core2d::{clamp_i32, saturate, Vec2};
use vstd::prelude::*;

verus! {

/// Where something is headed, and how near it has to come to have arrived.
#[derive(Clone, Copy, Debug, PartialEq, Eq, Structural)]
pub struct Destination {
    pub point: Vec2,
    pub trigger_distance: i32,
}

/// The entity `entity` has arrived at its destination.
#[derive(Clone, Copy, Debug, PartialEq, Eq, Structural)]
pub struct DestinationReached {
    pub entity: u64,
}

/// Something that keeps a fixed offset to another entity.
#[derive(Clone, Copy, Debug, PartialEq, Eq, Structural)]
pub struct Follow {
    pub entity_to_follow: u64,
    pub offset: Vec2,
}

/// Square of the distance between two points.
pub open spec fn distance_squared(a: Vec2, b: Vec2) -> int {
    (a.x - b.x) * (a.x - b.x) + (a.y - b.y) * (a.y - b.y)
}

/// Whether `position` is nearer to the destination than its trigger
/// distance.
pub open spec fn has_arrived(destination: Destination, position: Vec2) -> bool {
    destination.trigger_distance > 0 && distance_squared(destination.point, position)
        < destination.trigger_distance * destination.trigger_distance
}

/// Tells whether something at `position` has arrived at its destination,
/// and puts it right on the destination if so.
pub fn check_distance_from_destination(destination: &Destination, position: &mut Vec2) -> (reached:
    bool)
    ensures
        reached == has_arrived(*destination, *old(position)),
        *final(position) == if reached {
            destination.point
        } else {
            *old(position)
        },
{
    if destination.trigger_distance <= 0 {
        return false;
    }
    let dx: i128 = destination.point.x as i128 - position.x as i128;
    let dy: i128 = destination.point.y as i128 - position.y as i128;
    let trigger: i128 = destination.trigger_distance as i128;
    assert(0 <= dx * dx <= 0x1_0000_0000_0000_0000) by (nonlinear_arith)
        requires
            -0x1_0000_0000 <= dx <= 0x1_0000_0000,
    ;
    assert(0 <= dy * dy <= 0x1_0000_0000_0000_0000) by (nonlinear_arith)
        requires
            -0x1_0000_0000 <= dy <= 0x1_0000_0000,
    ;
    assert(0 <= trigger * trigger <= 0x1_0000_0000_0000_0000) by (nonlinear_arith)
        requires
            0 <= trigger <= 0x1_0000_0000,
    ;
    if dx * dx + dy * dy < trigger * trigger {
        *position = destination.point;
        true
    } else {
        false
    }
}

/// Where a follower stands when what it follows stands at `target`.
pub open spec fn following(follow: Follow, target: Vec2) -> Vec2 {
    Vec2 {
        x: clamp_i32(target.x + follow.offset.x) as i32,
        y: clamp_i32(target.y + follow.offset.y) as i32,
    }
}

/// Puts a follower at its offset to what it follows.
pub fn follow_system(follow: &Follow, target: Vec2) -> (position: Vec2)
    ensures
        position == following(*follow, target),
{
    Vec2 {
        x: saturate(target.x as i64 + follow.offset.x as i64),
        y: saturate(target.y as i64 + follow.offset.y as i64),
    }
}

} // verus!
