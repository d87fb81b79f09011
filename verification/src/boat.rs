//! Fishing boats: how they are drawn from the random stream, rigged with
//! lines, hooks and worms, moved, and taken away again.
use crate::collision::Collider;
use crate::core2d::{
    clamp_i32, half_units, saturate, scale_ppm, scaled_ppm, units, Vec2, UNIT,
};
use crate::rng::GameRng;
use crate::trig::{unit_vector, unit_x_ppm, unit_y_ppm};
use vstd::prelude::*;

verus! {

/// How far the tip of a rod reaches back from its foot.
pub const ROD_LENGTH: i32 = 5_000;

/// How high a rod stands above the deck.
pub const POLE_HEIGHT: i32 = 10_000;

/// Width and height of a hook.
pub const HOOK_SIZE: i32 = 16_000;

/// Width and height of a worm.
pub const WORM_SIZE: i32 = 16_000;

/// A line is at least this long, in whole units, plus the height of its
/// boat.
pub const MIN_LINE_LENGTH: u32 = 50;

/// A line is shorter than this, in whole units.
pub const MAX_LINE_LENGTH: u32 = 325;

/// A line hangs at an angle of at least this many degrees, counted
/// counter-clockwise from the bow.
pub const MIN_LINE_ANGLE: u32 = 225;

/// A line hangs at an angle below this many degrees: at most straight down.
pub const MAX_LINE_ANGLE: u32 = 271;

/// Widest a boat can be, for its place at the wall to be a coordinate.
pub const MAX_BOAT_SIZE: i32 = 1_000_000_000;

/// Time between two waves of boats, in microseconds.
pub const SPAWN_PERIOD: u64 = 5_000_000;

/// Entity ids that a wave of boats may need at most.
pub const WAVE_ID_RESERVE: u64 = 4096;

/// The kinds of boat, from the most harmless to the most dangerous.
#[derive(Clone, Copy, Debug, PartialEq, Eq, Structural)]
pub enum BoatTypes {
    Dinghy,
    Fishingboat,
    Speedboat,
    Yacht,
}

/// What is drawn for one boat: the number of its rods, its speed in
/// thousandths per second, its size, and the chance in a hundred that one
/// of its lines carries a worm.
#[derive(Clone, Copy, Debug, PartialEq, Eq, Structural)]
pub struct BoatStats {
    pub num_poles: u8,
    pub speed: i32,
    pub width: i32,
    pub height: i32,
    pub worm_chance: u8,
}

impl BoatStats {
    /// Whether speed and size are not negative, the boat is narrow enough
    /// for its place at the wall to be a coordinate, and low enough for its
    /// shortest line to be shorter than the longest.
    pub open spec fn wf(&self) -> bool {
        &&& 0 <= self.speed
        &&& 0 <= self.width <= MAX_BOAT_SIZE
        &&& 0 <= self.height
        &&& self.shortest_line() < MAX_LINE_LENGTH
    }

    /// Length of the shortest line the boat can have, in whole units.
    pub open spec fn shortest_line(&self) -> int {
        MIN_LINE_LENGTH + self.height / UNIT
    }
}

/// The kind of boat that a roll of 1 to 4 stands for.
pub open spec fn boat_type_of(roll: u8) -> BoatTypes {
    if roll <= 1 {
        BoatTypes::Dinghy
    } else if roll == 2 {
        BoatTypes::Fishingboat
    } else if roll == 3 {
        BoatTypes::Speedboat
    } else {
        BoatTypes::Yacht
    }
}

/// Speed of a boat from its roll: the roll and five for each step of
/// difficulty, in whole units per second.
pub open spec fn boat_speed(roll: u8, difficulty: u8) -> i32 {
    ((roll + 5 * difficulty) * UNIT) as i32
}

/// The stats of the next boat and the stream after they were drawn.
///
/// First the kind is rolled from 1 to the difficulty. Each kind has its own
/// size and its own chance of worms, and rolls the number of its rods, to
/// which the difficulty is added, and its speed:
/// a dinghy has one rod and rolls 30 to 39 for speed;
/// a fishing boat rolls 1 to 2 rods and 40 to 49 for speed;
/// a speedboat has one rod besides the difficulty and rolls 75 to 99;
/// a yacht rolls 3 to 5 rods and 60 to 74 for speed.
pub open spec fn spec_boat_stats(rng: GameRng, difficulty: u8) -> (BoatStats, GameRng) {
    let top = (difficulty + 1) as u8;
    let kind = boat_type_of(rng.next_range_u8(1, top));
    let rng1 = rng.after_range_u8(1, top);
    match kind {
        BoatTypes::Dinghy => (
            BoatStats {
                num_poles: 1,
                speed: boat_speed(rng1.next_range_u8(30, 40), difficulty),
                width: 45_000,
                height: 10_000,
                worm_chance: 50,
            },
            rng1.after_range_u8(30, 40),
        ),
        BoatTypes::Fishingboat => {
            let rng2 = rng1.after_range_u8(1, 3);
            (
                BoatStats {
                    num_poles: (rng1.next_range_u8(1, 3) + difficulty) as u8,
                    speed: boat_speed(rng2.next_range_u8(40, 50), difficulty),
                    width: 65_000,
                    height: 24_000,
                    worm_chance: 80,
                },
                rng2.after_range_u8(40, 50),
            )
        },
        BoatTypes::Speedboat => {
            let rng2 = rng1.after_range_u8(1, 2);
            (
                BoatStats {
                    num_poles: (rng1.next_range_u8(1, 2) + difficulty) as u8,
                    speed: boat_speed(rng2.next_range_u8(75, 100), difficulty),
                    width: 75_000,
                    height: 16_000,
                    worm_chance: 40,
                },
                rng2.after_range_u8(75, 100),
            )
        },
        BoatTypes::Yacht => {
            let rng2 = rng1.after_range_u8(3, 6);
            (
                BoatStats {
                    num_poles: (rng1.next_range_u8(3, 6) + difficulty) as u8,
                    speed: boat_speed(rng2.next_range_u8(60, 75), difficulty),
                    width: 128_000,
                    height: 64_000,
                    worm_chance: 25,
                },
                rng2.after_range_u8(60, 75),
            )
        },
    }
}

/// Draws the stats of the next boat.
pub fn boat_stats_factory(difficulty: u8, rng: &mut GameRng) -> (stats: BoatStats)
    requires
        1 <= difficulty <= 4,
    ensures
        stats == spec_boat_stats(*old(rng), difficulty).0,
        *final(rng) == spec_boat_stats(*old(rng), difficulty).1,
        stats.wf(),
        1 <= stats.num_poles <= 9,
{
    let roll: u8 = rng.gen_range_u8(1, difficulty + 1);
    let boat_type: BoatTypes = if roll <= 1 {
        BoatTypes::Dinghy
    } else if roll == 2 {
        BoatTypes::Fishingboat
    } else if roll == 3 {
        BoatTypes::Speedboat
    } else {
        BoatTypes::Yacht
    };
    match boat_type {
        BoatTypes::Dinghy => {
            let speed: u8 = rng.gen_range_u8(30, 40);
            BoatStats {
                num_poles: 1,
                speed: units((speed + 5 * difficulty) as i32),
                width: 45_000,
                height: 10_000,
                worm_chance: 50,
            }
        },
        BoatTypes::Fishingboat => {
            let poles: u8 = rng.gen_range_u8(1, 3);
            let speed: u8 = rng.gen_range_u8(40, 50);
            BoatStats {
                num_poles: poles + difficulty,
                speed: units((speed + 5 * difficulty) as i32),
                width: 65_000,
                height: 24_000,
                worm_chance: 80,
            }
        },
        BoatTypes::Speedboat => {
            let poles: u8 = rng.gen_range_u8(1, 2);
            let speed: u8 = rng.gen_range_u8(75, 100);
            BoatStats {
                num_poles: poles + difficulty,
                speed: units((speed + 5 * difficulty) as i32),
                width: 75_000,
                height: 16_000,
                worm_chance: 40,
            }
        },
        BoatTypes::Yacht => {
            let poles: u8 = rng.gen_range_u8(3, 6);
            let speed: u8 = rng.gen_range_u8(60, 75);
            BoatStats {
                num_poles: poles + difficulty,
                speed: units((speed + 5 * difficulty) as i32),
                width: 128_000,
                height: 64_000,
                worm_chance: 25,
            }
        },
    }
}

/// A boat. Its position is the centre of its hull.
#[derive(Clone, Copy, Debug, PartialEq, Eq, Structural)]
pub struct Boat {
    pub id: u64,
    pub position: Vec2,
    pub velocity: Vec2,
    pub collider: Collider,
    pub facing_right: bool,
    pub num_lines: u8,
}

/// A fishing line, from the tip of its rod to its hook. Both ends are given
/// from the centre of the boat that owns the line.
#[derive(Clone, Copy, Debug, PartialEq, Eq, Structural)]
pub struct Line {
    pub id: u64,
    pub boat: u64,
    pub start_point: Vec2,
    pub end_point: Vec2,
}

/// The hook at the end of a line. Its offset is given from the centre of
/// the boat that owns it.
#[derive(Clone, Copy, Debug, PartialEq, Eq, Structural)]
pub struct Hook {
    pub id: u64,
    pub boat: u64,
    pub line_entity: u64,
    pub offset: Vec2,
    pub collider: Collider,
}

/// A worm on a line. Its offset is given from the centre of the boat that
/// owns it. `wiggle` is 32 random bits for whoever animates the worm.
#[derive(Clone, Copy, Debug, PartialEq, Eq, Structural)]
pub struct Worm {
    pub id: u64,
    pub boat: u64,
    pub line_entity: u64,
    pub offset: Vec2,
    pub collider: Collider,
    pub wiggle: u32,
}

impl Boat {
    /// The point that lies at `offset` from the centre of the boat, each
    /// part stopped at the ends of the coordinate range.
    pub open spec fn spec_point_at(&self, offset: Vec2) -> Vec2 {
        Vec2 {
            x: clamp_i32(self.position.x + offset.x) as i32,
            y: clamp_i32(self.position.y + offset.y) as i32,
        }
    }

    /// The point that lies at `offset` from the centre of the boat.
    #[verifier::when_used_as_spec(spec_point_at)]
    pub fn point_at(&self, offset: Vec2) -> (point: Vec2)
        ensures
            point == self.spec_point_at(offset),
    {
        Vec2 {
            x: saturate(self.position.x as i64 + offset.x as i64),
            y: saturate(self.position.y as i64 + offset.y as i64),
        }
    }
}

impl Worm {
    /// How fast the worm wiggles, in millionths of the normal speed: the
    /// upper 24 bits of its wiggle as a fraction, doubled. It is below
    /// twice the normal speed.
    pub open spec fn spec_animation_speed(&self) -> u32 {
        ((self.wiggle / 256) * 2_000_000 / 16_777_216) as u32
    }

    #[verifier::when_used_as_spec(spec_animation_speed)]
    pub fn animation_speed(&self) -> (speed: u32)
        ensures
            speed == self.spec_animation_speed(),
            speed < 2_000_000,
    {
        let fraction: u64 = (self.wiggle / 256) as u64;
        ((fraction * 2_000_000) / 16_777_216) as u32
    }
}

/// Where the line of the rod number `pole` starts, seen from the centre of
/// a boat that looks to the right. The rods stand evenly along the deck,
/// the first at the stern; a line starts at the tip of its rod, above the
/// deck and behind the rod's foot.
pub open spec fn line_start(stats: BoatStats, pole: int) -> (int, int) {
    (
        -(stats.width / 2) + (pole * stats.width) / (stats.num_poles + 1) - ROD_LENGTH,
        stats.height / 2 + POLE_HEIGHT,
    )
}

/// The point that lies `reach` thousandths along a line from `start` at
/// `angle` degrees.
pub open spec fn along_line(start: (int, int), reach: int, angle: int) -> (int, int) {
    (start.0 + scale_ppm(reach, unit_x_ppm(angle)), start.1 + scale_ppm(reach, unit_y_ppm(angle)))
}

/// A point seen from the centre of a boat, turned to the side the boat
/// looks to.
pub open spec fn oriented(p: (int, int), facing_right: bool) -> Vec2 {
    Vec2 {
        x: (if facing_right {
            p.0
        } else {
            -p.0
        }) as i32,
        y: p.1 as i32,
    }
}

/// One rod's worth of gear.
pub struct RiggedPole {
    pub line: Line,
    pub hook: Hook,
    pub worm: Option<Worm>,
    pub rng: GameRng,
}

/// The gear of the rod number `pole` of a boat, and the stream after it
/// was drawn.
///
/// Drawn in this order: the length of the line in whole units, its angle in
/// whole degrees, whether it carries a worm, and for a worm how far past the
/// middle of the line it sits, in whole units below half the length, and
/// its wiggle. The hook hangs from the end of the line by half its size.
/// Line, hook and worm take the ids `3 * pole - 2`, `3 * pole - 1` and
/// `3 * pole` after the id of the boat.
pub open spec fn spec_rig_pole(
    stats: BoatStats,
    boat_id: u64,
    facing_right: bool,
    rng: GameRng,
    pole: int,
) -> RiggedPole {
    let shortest = stats.shortest_line() as u32;
    let length = rng.next_range_u32(shortest, MAX_LINE_LENGTH);
    let rng1 = rng.after_range_u32(shortest, MAX_LINE_LENGTH);
    let angle = rng1.next_range_u32(MIN_LINE_ANGLE, MAX_LINE_ANGLE);
    let rng2 = rng1.after_range_u32(MIN_LINE_ANGLE, MAX_LINE_ANGLE);
    let start = line_start(stats, pole);
    let end = along_line(start, length * UNIT, angle as int);
    let line_id = (boat_id + 3 * pole - 2) as u64;
    let line = Line {
        id: line_id,
        boat: boat_id,
        start_point: oriented(start, facing_right),
        end_point: oriented(end, facing_right),
    };
    let hook = Hook {
        id: (boat_id + 3 * pole - 1) as u64,
        boat: boat_id,
        line_entity: line_id,
        offset: oriented((end.0, end.1 - HOOK_SIZE / 2), facing_right),
        collider: Collider { width: HOOK_SIZE, height: HOOK_SIZE },
    };
    let rng3 = rng2.after_percent(stats.worm_chance);
    if rng2.next_percent(stats.worm_chance) {
        let half = (length / 2) as u32;
        let past_middle = rng3.next_range_u32(0, half);
        let rng4 = rng3.after_range_u32(0, half);
        let worm = Worm {
            id: (boat_id + 3 * pole) as u64,
            boat: boat_id,
            line_entity: line_id,
            offset: oriented(
                along_line(start, length * (UNIT / 2) + past_middle * UNIT, angle as int),
                facing_right,
            ),
            collider: Collider { width: WORM_SIZE, height: WORM_SIZE },
            wiggle: rng4.next_u32(),
        };
        RiggedPole { line, hook, worm: Some(worm), rng: rng4.after_u32() }
    } else {
        RiggedPole { line, hook, worm: None, rng: rng3 }
    }
}

fn orient(x: i64, y: i64, facing_right: bool) -> (v: Vec2)
    requires
        -0x7fff_ffff <= x <= 0x7fff_ffff,
        -0x7fff_ffff <= y <= 0x7fff_ffff,
    ensures
        v == oriented((x as int, y as int), facing_right),
{
    Vec2 {
        x: if facing_right {
            x as i32
        } else {
            (-x) as i32
        },
        y: y as i32,
    }
}

fn point_along(start_x: i64, start_y: i64, reach: i32, angle: u32) -> (p: (i64, i64))
    requires
        180 <= angle <= 270,
        0 <= reach <= 1_000_000,
        -0x4000_0000 <= start_x <= 0x4000_0000,
        -0x4000_0000 <= start_y <= 0x4000_0000,
    ensures
        (p.0 as int, p.1 as int) == along_line(
            (start_x as int, start_y as int),
            reach as int,
            angle as int,
        ),
        start_x - reach <= p.0 <= start_x,
        start_y - reach <= p.1 <= start_y,
{
    let unit: (i64, i64) = unit_vector(angle);
    let dx: i64 = scaled_ppm(reach, unit.0);
    let dy: i64 = scaled_ppm(reach, unit.1);
    (start_x + dx, start_y + dy)
}

/// Draws the gear of one rod.
pub fn rig_pole(stats: &BoatStats, boat_id: u64, facing_right: bool, rng: &mut GameRng, pole: u8) -> (r:
    (Line, Hook, Option<Worm>))
    requires
        stats.wf(),
        1 <= pole <= stats.num_poles,
        boat_id + 3 * pole <= u64::MAX,
    ensures
        (RiggedPole { line: r.0, hook: r.1, worm: r.2, rng: *final(rng) }) == spec_rig_pole(
            *stats,
            boat_id,
            facing_right,
            *old(rng),
            pole as int,
        ),
{
    let shortest: u32 = MIN_LINE_LENGTH + (stats.height / UNIT) as u32;
    let length: u32 = rng.gen_range_u32(shortest, MAX_LINE_LENGTH);
    let angle: u32 = rng.gen_range_u32(MIN_LINE_ANGLE, MAX_LINE_ANGLE);
    let width: i64 = stats.width as i64;
    let poles: i64 = stats.num_poles as i64;
    let p: i64 = pole as i64;
    assert(0 <= p * width <= (poles + 1) * width <= 256_000_000_000) by (nonlinear_arith)
        requires
            0 <= p <= poles + 1 <= 256,
            0 <= width <= 1_000_000_000,
    ;
    let slot: i64 = p * width;
    assert(0 <= slot as int / (poles + 1) as int <= width) by (nonlinear_arith)
        requires
            0 <= slot <= (poles + 1) * width,
            poles + 1 > 0,
    ;
    let start_x: i64 = -(width / 2) + slot / (poles + 1) - ROD_LENGTH as i64;
    let start_y: i64 = (stats.height / 2) as i64 + POLE_HEIGHT as i64;
    let reach: i32 = units(length as i32);
    let end: (i64, i64) = point_along(start_x, start_y, reach, angle);
    let line_id: u64 = boat_id + 3 * pole as u64 - 2;
    let line: Line = Line {
        id: line_id,
        boat: boat_id,
        start_point: orient(start_x, start_y, facing_right),
        end_point: orient(end.0, end.1, facing_right),
    };
    let hook: Hook = Hook {
        id: boat_id + 3 * pole as u64 - 1,
        boat: boat_id,
        line_entity: line_id,
        offset: orient(end.0, end.1 - (HOOK_SIZE / 2) as i64, facing_right),
        collider: Collider { width: HOOK_SIZE, height: HOOK_SIZE },
    };
    if rng.gen_percent(stats.worm_chance) {
        let past_middle: u32 = rng.gen_range_u32(0, length / 2);
        let wiggle: u32 = rng.gen_u32();
        let far: i32 = half_units(length as i32) + units(past_middle as i32);
        let at: (i64, i64) = point_along(start_x, start_y, far, angle);
        let worm: Worm = Worm {
            id: boat_id + 3 * pole as u64,
            boat: boat_id,
            line_entity: line_id,
            offset: orient(at.0, at.1, facing_right),
            collider: Collider { width: WORM_SIZE, height: WORM_SIZE },
            wiggle,
        };
        (line, hook, Some(worm))
    } else {
        (line, hook, None)
    }
}

} // verus!
