//! The playfield: the rectangle of water that bounds the player.
use crate::collision::Collider;
use crate::core2d::{trunc_div, Vec2};
use vstd::prelude::*;

verus! {

/// Width of the standard playfield.
pub const DEFAULT_ARENA_WIDTH: i32 = 640_000;

/// Height of the standard playfield.
pub const DEFAULT_ARENA_HEIGHT: i32 = 360_000;

/// How far the surface of the standard playfield lies above half its height: below it.
pub const DEFAULT_ARENA_OFFSET: i32 = -50_000;

/// The playfield. It spans `-width/2 ..= width/2` across and
/// `-height/2 ..= height/2 + offset` upward; the upper end is the surface
/// of the water.
#[derive(Clone, Copy, Debug, PartialEq, Eq, Structural)]
pub struct Arena {
    pub width: i32,
    pub height: i32,
    pub offset: i32,
}

impl Arena {
    /// Whether the playfield has a width and a height that are not negative.
    pub open spec fn wf(&self) -> bool {
        self.width >= 0 && self.height >= 0
    }

    /// Distance of the left and the right wall from the middle.
    pub open spec fn half_width(&self) -> int {
        trunc_div(self.width as int, 2)
    }

    /// Distance of the floor from the middle.
    pub open spec fn half_height(&self) -> int {
        trunc_div(self.height as int, 2)
    }

    /// Height of the water's surface.
    pub open spec fn surface(&self) -> int {
        self.half_height() + self.offset
    }

    /// Where a box of the given size ends up when it is pushed back into
    /// the playfield from `pos`. The left, right and lower walls stop the
    /// edge of the box; at the surface the box may rise until its centre
    /// reaches it. The walls are applied in this order, each to the result
    /// of the one before: left, right, floor, surface.
    pub open spec fn spec_keep_inside(&self, pos: Vec2, collider: Collider) -> Vec2 {
        let half = collider.spec_half_size();
        let x1 = if pos.x - half.x < -self.half_width() {
            -self.half_width() + half.x
        } else {
            pos.x as int
        };
        let x2 = if x1 + half.x > self.half_width() {
            self.half_width() - half.x
        } else {
            x1
        };
        let y1 = if pos.y - half.y < -self.half_height() {
            -self.half_height() + half.y
        } else {
            pos.y as int
        };
        let y2 = if y1 > self.surface() {
            self.surface()
        } else {
            y1
        };
        Vec2 { x: x2 as i32, y: y2 as i32 }
    }

    /// Whether the point `x` lies beyond the left or the right wall by more
    /// than `margin`.
    pub open spec fn spec_is_outside(&self, x: int, margin: int) -> bool {
        x + margin < -self.half_width() || x - margin > self.half_width()
    }

    /// Tells whether the point `x` lies beyond the left or the right wall by
    /// more than `margin`.
    pub fn is_outside(&self, x: i64, margin: i32) -> (out: bool)
        requires
            -0x1_0000_0000 <= x <= 0x1_0000_0000,
        ensures
            out == self.spec_is_outside(x as int, margin as int),
    {
        let half: i64 = (self.width / 2) as i64;
        x + (margin as i64) < -half || x - (margin as i64) > half
    }
}

/// The playfield of the standard size.
pub fn initialize_arena() -> (arena: Arena)
    ensures
        arena == (Arena {
            width: DEFAULT_ARENA_WIDTH,
            height: DEFAULT_ARENA_HEIGHT,
            offset: DEFAULT_ARENA_OFFSET,
        }),
        arena.wf(),
{
    Arena {
        width: DEFAULT_ARENA_WIDTH,
        height: DEFAULT_ARENA_HEIGHT,
        offset: DEFAULT_ARENA_OFFSET,
    }
}

/// Pushes the player back into the playfield.
pub fn player_bounds_system(arena: &Arena, collider: &Collider, pos: Vec2) -> (kept: Vec2)
    requires
        arena.wf(),
        collider.wf(),
    ensures
        kept == arena.spec_keep_inside(pos, *collider),
{
    let half: Vec2 = collider.as_vec2_half_size();
    let arena_half_width: i64 = (arena.width / 2) as i64;
    let arena_half_height: i64 = (arena.height / 2) as i64;
    let player_half_width: i64 = half.x as i64;
    let player_half_height: i64 = half.y as i64;
    let surface: i64 = arena_half_height + arena.offset as i64;
    let mut x: i64 = pos.x as i64;
    let mut y: i64 = pos.y as i64;
    if x - player_half_width < -arena_half_width {
        x = -arena_half_width + player_half_width;
    }
    if x + player_half_width > arena_half_width {
        x = arena_half_width - player_half_width;
    }
    if y - player_half_height < -arena_half_height {
        y = -arena_half_height + player_half_height;
    }
    if y > surface {
        y = surface;
    }
    Vec2 { x: x as i32, y: y as i32 }
}

} // verus!
