//! Axis-aligned boxes and the test that tells whether two of them touch.
use crate::core2d::{trunc_div, Vec2};
use vstd::prelude::*;

verus! {

/// The extent of an entity for contact detection: a box of this width and
/// height, centred on the entity's position.
#[derive(Clone, Copy, Debug, PartialEq, Eq, Structural)]
pub struct Collider {
    pub width: i32,
    pub height: i32,
}

impl Collider {
    /// Whether width and height are not negative.
    pub open spec fn wf(&self) -> bool {
        self.width >= 0 && self.height >= 0
    }

    /// Width and height as one vector.
    pub fn as_vec2(&self) -> (v: Vec2)
        ensures
            v == (Vec2 { x: self.width, y: self.height }),
    {
        Vec2 { x: self.width, y: self.height }
    }

    /// Half the width and half the height, each rounded toward zero.
    pub open spec fn spec_half_size(&self) -> Vec2 {
        Vec2 { x: trunc_div(self.width as int, 2) as i32, y: trunc_div(self.height as int, 2) as i32 }
    }

    /// Half the width and half the height, each rounded toward zero.
    pub fn as_vec2_half_size(&self) -> (v: Vec2)
        ensures
            v == self.spec_half_size(),
    {
        Vec2 { x: self.width / 2, y: self.height / 2 }
    }
}

/// An axis-aligned box, given by its lowest and its highest corner.
#[derive(Clone, Copy, Debug, PartialEq, Eq, Structural)]
pub struct Aabb2d {
    pub min_x: i64,
    pub min_y: i64,
    pub max_x: i64,
    pub max_y: i64,
}

/// The box of half-size `half` around `center`.
pub open spec fn aabb_around(center: Vec2, half: Vec2) -> Aabb2d {
    Aabb2d {
        min_x: (center.x - half.x) as i64,
        min_y: (center.y - half.y) as i64,
        max_x: (center.x + half.x) as i64,
        max_y: (center.y + half.y) as i64,
    }
}

/// The box that `collider` covers when its entity stands at `pos`.
pub open spec fn collider_aabb(pos: Vec2, collider: Collider) -> Aabb2d {
    aabb_around(pos, collider.spec_half_size())
}

/// The box that `collider` covers around the point `(x, y)`.
pub open spec fn box_at(x: int, y: int, collider: Collider) -> Aabb2d {
    let half = collider.spec_half_size();
    Aabb2d {
        min_x: (x - half.x) as i64,
        min_y: (y - half.y) as i64,
        max_x: (x + half.x) as i64,
        max_y: (y + half.y) as i64,
    }
}

/// The box that `collider` covers around the point `(x, y)`.
pub fn aabb_at(x: i64, y: i64, collider: &Collider) -> (aabb: Aabb2d)
    requires
        -0x2_0000_0000 <= x <= 0x2_0000_0000,
        -0x2_0000_0000 <= y <= 0x2_0000_0000,
    ensures
        aabb == box_at(x as int, y as int, *collider),
{
    let half: Vec2 = collider.as_vec2_half_size();
    Aabb2d {
        min_x: x - half.x as i64,
        min_y: y - half.y as i64,
        max_x: x + half.x as i64,
        max_y: y + half.y as i64,
    }
}

/// Whether two boxes share a point. Boxes that only touch along an edge or
/// at a corner do share one.
pub open spec fn aabb_intersects(a: Aabb2d, b: Aabb2d) -> bool {
    a.min_x <= b.max_x && a.max_x >= b.min_x && a.min_y <= b.max_y && a.max_y >= b.min_y
}

/// Whether the colliders of two entities at the given positions overlap.
pub open spec fn colliders_overlap(pos1: Vec2, c1: Collider, pos2: Vec2, c2: Collider) -> bool {
    aabb_intersects(collider_aabb(pos1, c1), collider_aabb(pos2, c2))
}

/// The box that `collider` covers when its entity stands at `pos`.
pub fn get_aabb_from_transform_and_collider(pos: Vec2, collider: &Collider) -> (aabb: Aabb2d)
    ensures
        aabb == collider_aabb(pos, *collider),
{
    let half: Vec2 = collider.as_vec2_half_size();
    Aabb2d {
        min_x: pos.x as i64 - half.x as i64,
        min_y: pos.y as i64 - half.y as i64,
        max_x: pos.x as i64 + half.x as i64,
        max_y: pos.y as i64 + half.y as i64,
    }
}

/// Tells whether two boxes share a point.
pub fn check_aabb_collision(box1: &Aabb2d, box2: &Aabb2d) -> (hit: bool)
    ensures
        hit == aabb_intersects(*box1, *box2),
{
    let x_overlaps: bool = box1.min_x <= box2.max_x && box1.max_x >= box2.min_x;
    let y_overlaps: bool = box1.min_y <= box2.max_y && box1.max_y >= box2.min_y;
    x_overlaps && y_overlaps
}

/// Overlap is symmetric: it does not matter which box is asked first.
pub proof fn lemma_intersects_symmetric(a: Aabb2d, b: Aabb2d)
    ensures
        aabb_intersects(a, b) == aabb_intersects(b, a),
{
}

/// A box with its lowest corner not above its highest overlaps itself.
pub proof fn lemma_intersects_reflexive(a: Aabb2d)
    requires
        a.min_x <= a.max_x,
        a.min_y <= a.max_y,
    ensures
        aabb_intersects(a, a),
{
}

} // verus!
