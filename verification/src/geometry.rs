//! World coordinates and the distance test used at doors.
//!
//! Positions are integer world units. Every tracked entity stays inside a
//! generous world bound, which keeps all coordinate arithmetic in range.

use vstd::prelude::*;

verus! {

/// Height of the game window, in world units.
pub const WINDOW_HEIGHT: i64 = 800;

/// Distance of the side walls from the centre of the world.
pub const WALL_DISTANCE_FROM_CENTER: i64 = 1500;

/// Every coordinate of a tracked entity stays within this bound.
pub const WORLD_BOUND: i64 = 1_000_000;

/// A player within this distance of a door may enter it.
pub const DOOR_ENTER_DISTANCE: i64 = 20;

/// A point in the world; `z` orders sprites and is `1` for the player.
#[derive(Clone, Copy, PartialEq, Eq, Structural, Debug)]
pub struct Position {
    pub x: i64,
    pub y: i64,
    pub z: i64,
}

/// The position lies inside the world bound.
pub open spec fn wf_pos(p: Position) -> bool {
    &&& -WORLD_BOUND <= p.x <= WORLD_BOUND
    &&& -WORLD_BOUND <= p.y <= WORLD_BOUND
    &&& -WORLD_BOUND <= p.z <= WORLD_BOUND
}

/// Squared Euclidean distance between two points.
pub open spec fn dist_sq(a: Position, b: Position) -> int {
    (a.x - b.x) * (a.x - b.x) + (a.y - b.y) * (a.y - b.y) + (a.z - b.z) * (a.z - b.z)
}

/// The two points are strictly within the door-enter threshold of each other.
pub open spec fn within_enter_range(a: Position, b: Position) -> bool {
    dist_sq(a, b) < DOOR_ENTER_DISTANCE * DOOR_ENTER_DISTANCE
}

/// The square of a difference of two in-bound coordinates stays small.
proof fn lemma_diff_sq_bound(u: i64, v: i64)
    requires
        -WORLD_BOUND <= u <= WORLD_BOUND,
        -WORLD_BOUND <= v <= WORLD_BOUND,
    ensures
        0 <= (u - v) * (u - v) <= 4_000_000_000_000,
{
    let d = u - v;
    assert(-2_000_000 <= d <= 2_000_000);
    assert(0 <= d * d <= 4_000_000_000_000) by (nonlinear_arith)
        requires
            -2_000_000 <= d <= 2_000_000,
    ;
}

/// Decides whether `a` lies strictly within the door-enter threshold of `b`.
pub fn within_enter_distance(a: Position, b: Position) -> (r: bool)
    requires
        wf_pos(a),
        wf_pos(b),
    ensures
        r == within_enter_range(a, b),
{
    proof {
        lemma_diff_sq_bound(a.x, b.x);
        lemma_diff_sq_bound(a.y, b.y);
        lemma_diff_sq_bound(a.z, b.z);
    }
    let dx: i64 = a.x - b.x;
    let dy: i64 = a.y - b.y;
    let dz: i64 = a.z - b.z;
    dx * dx + dy * dy + dz * dz < DOOR_ENTER_DISTANCE * DOOR_ENTER_DISTANCE
}

} // verus!
