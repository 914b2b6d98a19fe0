//! Platform spawning beneath doors.
//!
//! Whenever a room change completes, one platform is derived for every door
//! of the active room, a fixed distance beneath it; the platform carries
//! the door's target room as its marker. A room with no doors yields no
//! platforms.

use vstd::prelude::*;

verus! {

use crate::geometry::{Position, wf_pos, WORLD_BOUND};
use crate::room::{Door, RoomState, laid_out_doors, door_layout_x, DOOR_HALF_SPACING, MAX_DOORS};

/// Vertical distance from a door down to the platform beneath it.
pub const PLATFORM_DROP: i64 = 50;

/// A platform reaches this far to each side of its centre.
pub const PLATFORM_HALF_WIDTH: i64 = 40;

/// A platform to be spawned: its placement and the door marker it carries.
#[derive(Clone, Copy, PartialEq, Eq, Structural, Debug)]
pub struct PlatformSpawn {
    /// Room the door on this platform leads to.
    pub door_room_id: u64,
    /// Centre of the platform.
    pub position: Position,
}

/// The platform derived for a door: same vertical line, `PLATFORM_DROP`
/// beneath it, marked with the door's target room.
pub open spec fn platform_beneath(d: Door) -> PlatformSpawn {
    PlatformSpawn {
        door_room_id: d.room_id,
        position: Position {
            x: d.position.x,
            y: (d.position.y - PLATFORM_DROP) as i64,
            z: d.position.z,
        },
    }
}

/// The platforms spawned for a door list: one beneath each door, in order.
pub open spec fn platforms_for(doors: Seq<Door>) -> Seq<PlatformSpawn> {
    Seq::new(doors.len(), |i: int| platform_beneath(doors[i]))
}

/// Derives the platforms for the doors of the active room: one beneath
/// each door, in door order, and none for a room without doors.
pub fn spawn_platforms(state: &RoomState) -> (platforms: Vec<PlatformSpawn>)
    requires
        forall|i: int| 0 <= i < state.doors@.len() ==> wf_pos(#[trigger] state.doors@[i].position),
    ensures
        platforms@ == platforms_for(state.doors@),
        platforms@.len() == state.doors@.len(),
        state.doors@.len() == 0 ==> platforms@.len() == 0,
{
    let n: usize = state.doors.len();
    let mut platforms: Vec<PlatformSpawn> = Vec::new();
    let mut i: usize = 0;
    while i < n
        invariant
            i <= n,
            n == state.doors@.len(),
            forall|k: int| 0 <= k < n ==> wf_pos(#[trigger] state.doors@[k].position),
            platforms@.len() == i,
            forall|k: int| 0 <= k < i ==> platforms@[k] == #[trigger] platforms_for(state.doors@)[k],
        decreases n - i,
    {
        let d = state.doors[i];
        platforms.push(PlatformSpawn {
            door_room_id: d.room_id,
            position: Position { x: d.position.x, y: d.position.y - PLATFORM_DROP, z: d.position.z },
        });
        i = i + 1;
    }
    proof {
        assert(platforms@ =~= platforms_for(state.doors@));
    }
    platforms
}

/// Every door of a laid out room stands directly above its own platform:
/// same horizontal position, the platform strictly beneath the door.
pub proof fn lemma_every_door_has_platform_beneath(doors: Seq<Door>)
    requires
        doors.len() <= MAX_DOORS,
    ensures
        platforms_for(laid_out_doors(doors)).len() == doors.len(),
        forall|i: int| 0 <= i < doors.len() ==> {
            let d = laid_out_doors(doors)[i];
            let p = #[trigger] platforms_for(laid_out_doors(doors))[i];
            p.position.x == d.position.x && p.position.y < d.position.y
                && p.door_room_id == d.room_id
        },
{
}

/// No two platforms spawned for a laid out room overlap: the centres of
/// any two of them stand at least a full door spacing apart, which is more
/// than two platform half-widths.
pub proof fn lemma_platforms_disjoint(doors: Seq<Door>)
    requires
        doors.len() <= MAX_DOORS,
    ensures
        forall|i: int, j: int| 0 <= i < j < doors.len() ==> {
            let pi = #[trigger] platforms_for(laid_out_doors(doors))[i];
            let pj = #[trigger] platforms_for(laid_out_doors(doors))[j];
            pi.position.x + PLATFORM_HALF_WIDTH < pj.position.x - PLATFORM_HALF_WIDTH
        },
{
    assert forall|i: int, j: int| 0 <= i < j < doors.len() implies {
        let pi = #[trigger] platforms_for(laid_out_doors(doors))[i];
        let pj = #[trigger] platforms_for(laid_out_doors(doors))[j];
        pi.position.x + PLATFORM_HALF_WIDTH < pj.position.x - PLATFORM_HALF_WIDTH
    } by {
        let n = doors.len() as int;
        assert(door_layout_x(j, n) - door_layout_x(i, n) == 2 * (j - i) * DOOR_HALF_SPACING)
            by (nonlinear_arith);
        assert(-WORLD_BOUND <= door_layout_x(i, n) <= WORLD_BOUND) by (nonlinear_arith)
            requires
                0 <= i < n <= 100,
                DOOR_HALF_SPACING == 100,
                WORLD_BOUND == 1_000_000,
        ;
        assert(-WORLD_BOUND <= door_layout_x(j, n) <= WORLD_BOUND) by (nonlinear_arith)
            requires
                0 <= j < n <= 100,
                DOOR_HALF_SPACING == 100,
                WORLD_BOUND == 1_000_000,
        ;
        assert(2 * (j - i) * DOOR_HALF_SPACING >= 200) by (nonlinear_arith)
            requires
                i < j,
                DOOR_HALF_SPACING == 100,
        ;
    }
}

} // verus!
