//! Floor plans, rooms, doors, and the room model.
//!
//! A floor plan is a complete snapshot of the rooms of the current session;
//! each room lists the doors leading out of it. The room model applies every
//! snapshot wholesale: it records where the player is and came from, lays
//! out the doors of the active room at evenly spaced positions, and raises a
//! one-shot `changed` edge that downstream consumers clear on first sight.

use vstd::prelude::*;

verus! {

use crate::geometry::{Position, wf_pos, WORLD_BOUND};

/// Vertical level at which the doors of a room are laid out.
pub const DOOR_LEVEL: i64 = -250;

/// How far above a door the player is placed when coming out of it.
pub const DOOR_EXIT_LIFT: i64 = 50;

/// Half the horizontal gap between the centres of two neighbouring doors.
pub const DOOR_HALF_SPACING: i64 = 100;

/// A room holds at most this many doors.
pub const MAX_DOORS: usize = 100;

/// A link out of a room: the room it leads to and where it stands.
#[derive(Clone, Copy, PartialEq, Eq, Structural, Debug)]
pub struct Door {
    /// Identifier of the room this door leads to.
    pub room_id: u64,
    /// World position of the door.
    pub position: Position,
}

/// A named area with the doors leading out of it.
#[derive(Clone, Debug)]
pub struct Room {
    pub id: u64,
    pub doors: Vec<Door>,
}

/// A complete snapshot of the rooms of the current session.
#[derive(Clone, Debug)]
pub struct FloorPlan {
    pub id: u64,
    pub rooms: Vec<Room>,
}

/// The room model: which room is active, which one was left, and the laid
/// out doors of the active room. `changed` is a one-shot edge: the update
/// raises it and the first consumer clears it.
#[derive(Clone, Debug)]
pub struct RoomState {
    pub current_room_id: Option<u64>,
    pub previous_room_id: Option<u64>,
    pub doors: Vec<Door>,
    pub changed: bool,
}

/// Where the player is and where they came from; the two fields are only
/// ever updated together, as a swap.
#[derive(Clone, Copy, PartialEq, Eq, Debug)]
pub struct CurrentFloorPlan {
    pub you_are_here: Option<u64>,
    pub you_were_here: Option<u64>,
}

/// The door lies inside the world bound, with room above it for the spot
/// where the player comes out.
pub open spec fn wf_door(d: Door) -> bool {
    &&& wf_pos(d.position)
    &&& d.position.y + DOOR_EXIT_LIFT <= WORLD_BOUND
}

/// Every room of the plan holds at most `MAX_DOORS` doors.
pub open spec fn wf_floor_plan(plan: FloorPlan) -> bool {
    forall|i: int| 0 <= i < plan.rooms@.len() ==> #[trigger] plan.rooms@[i].doors@.len() <= MAX_DOORS
}

/// Index of the first room of `rooms` named `id`, starting the search at
/// `i`; `-1` when none follows.
pub open spec fn first_room_index_from(rooms: Seq<Room>, id: u64, i: int) -> int
    decreases rooms.len() - i when 0 <= i <= rooms.len()
{
    if i >= rooms.len() {
        -1
    } else if rooms[i].id == id {
        i
    } else {
        first_room_index_from(rooms, id, i + 1)
    }
}

/// Index of the first room of `rooms` named `id`; `-1` when there is none.
pub open spec fn first_room_index(rooms: Seq<Room>, id: u64) -> int {
    first_room_index_from(rooms, id, 0)
}

/// A prefix free of matches does not move the first match.
proof fn lemma_first_room_skip(rooms: Seq<Room>, id: u64, i: int)
    requires
        0 <= i <= rooms.len(),
        forall|k: int| 0 <= k < i ==> #[trigger] rooms[k].id != id,
    ensures
        first_room_index(rooms, id) == first_room_index_from(rooms, id, i),
    decreases i,
{
    if i > 0 {
        lemma_first_room_skip(rooms, id, i - 1);
        assert(first_room_index_from(rooms, id, i - 1) == first_room_index_from(rooms, id, i));
    }
}

/// Whatever `first_room_index_from` finds is a room with the sought name
/// at or after the start of the search.
pub proof fn lemma_first_room_found(rooms: Seq<Room>, id: u64, i: int)
    requires
        0 <= i <= rooms.len(),
    ensures
        first_room_index_from(rooms, id, i) >= 0 ==> {
            let f = first_room_index_from(rooms, id, i);
            i <= f < rooms.len() && rooms[f].id == id
        },
    decreases rooms.len() - i,
{
    if i < rooms.len() && rooms[i].id != id {
        lemma_first_room_found(rooms, id, i + 1);
    }
}

/// Centre of door `i` out of `n`: doors stand `2 * DOOR_HALF_SPACING` apart
/// and the row is centred on the origin.
pub open spec fn door_layout_x(i: int, n: int) -> int {
    (2 * i + 1 - n) * DOOR_HALF_SPACING
}

/// The doors of the active room, re-positioned by the layout: door `i`
/// keeps its target room and stands at the laid out position.
pub open spec fn laid_out_doors(doors: Seq<Door>) -> Seq<Door> {
    Seq::new(
        doors.len(),
        |i: int| Door {
            room_id: doors[i].room_id,
            position: Position { x: door_layout_x(i, doors.len() as int) as i64, y: DOOR_LEVEL, z: 0 },
        },
    )
}

/// The door list the room model holds after applying `plan` while the
/// player is in `here`: the laid out doors of that room, or empty when no
/// room is active or the plan does not know the room.
pub open spec fn doors_for(rooms: Seq<Room>, here: Option<u64>) -> Seq<Door> {
    match here {
        Option::None => Seq::empty(),
        Option::Some(id) => {
            let ri = first_room_index(rooms, id);
            if ri >= 0 {
                laid_out_doors(rooms[ri].doors@)
            } else {
                Seq::empty()
            }
        },
    }
}

/// Finds the first room of `rooms` named `id`.
fn find_room_index(rooms: &Vec<Room>, id: u64) -> (r: Option<usize>)
    ensures
        match r {
            Option::Some(i) => i < rooms@.len() && first_room_index(rooms@, id) == i as int,
            Option::None => first_room_index(rooms@, id) == -1,
        },
{
    let n: usize = rooms.len();
    let mut j: usize = 0;
    while j < n
        invariant
            j <= n,
            n == rooms@.len(),
            forall|k: int| 0 <= k < j ==> #[trigger] rooms@[k].id != id,
        decreases n - j,
    {
        if rooms[j].id == id {
            proof {
                lemma_first_room_skip(rooms@, id, j as int);
            }
            return Some(j);
        }
        j = j + 1;
    }
    proof {
        lemma_first_room_skip(rooms@, id, n as int);
    }
    None
}

/// Lays out the doors of `room`: door `i` of `n` stands at
/// `door_layout_x(i, n)` on the door level.
fn lay_out_doors(room: &Room) -> (out: Vec<Door>)
    requires
        room.doors@.len() <= MAX_DOORS,
    ensures
        out@ == laid_out_doors(room.doors@),
{
    let n: usize = room.doors.len();
    let mut out: Vec<Door> = Vec::new();
    let mut i: usize = 0;
    while i < n
        invariant
            i <= n,
            n == room.doors@.len(),
            n <= MAX_DOORS,
            out@.len() == i,
            forall|k: int| 0 <= k < i ==> out@[k] == #[trigger] laid_out_doors(room.doors@)[k],
        decreases n - i,
    {
        let x: i64 = (2 * (i as i64) + 1 - (n as i64)) * DOOR_HALF_SPACING;
        out.push(Door {
            room_id: room.doors[i].room_id,
            position: Position { x, y: DOOR_LEVEL, z: 0 },
        });
        i = i + 1;
    }
    proof {
        assert(out@ =~= laid_out_doors(room.doors@));
    }
    out
}

/// Replaces the room model with the data of `plan`: records where the
/// player is and came from, recomputes the door positions of the active
/// room, and raises the one-shot `changed` edge.
pub fn update_room(state: &mut RoomState, plan: &FloorPlan, whereabouts: &CurrentFloorPlan)
    requires
        wf_floor_plan(*plan),
    ensures
        final(state).current_room_id == whereabouts.you_are_here,
        final(state).previous_room_id == whereabouts.you_were_here,
        final(state).changed,
        final(state).doors@ == doors_for(plan.rooms@, whereabouts.you_are_here),
{
    let mut doors: Vec<Door> = Vec::new();
    if let Some(id) = whereabouts.you_are_here {
        if let Some(ri) = find_room_index(&plan.rooms, id) {
            doors = lay_out_doors(&plan.rooms[ri]);
        }
    }
    state.current_room_id = whereabouts.you_are_here;
    state.previous_room_id = whereabouts.you_were_here;
    state.doors = doors;
    state.changed = true;
}

/// Every laid out door lies inside the world bound.
pub proof fn lemma_laid_out_doors_wf(doors: Seq<Door>)
    requires
        doors.len() <= MAX_DOORS,
    ensures
        forall|i: int| 0 <= i < laid_out_doors(doors).len()
            ==> wf_door(#[trigger] laid_out_doors(doors)[i]),
{
    assert forall|i: int| 0 <= i < laid_out_doors(doors).len()
        implies wf_door(#[trigger] laid_out_doors(doors)[i]) by {
        let n = doors.len() as int;
        assert(-WORLD_BOUND <= (2 * i + 1 - n) * DOOR_HALF_SPACING <= WORLD_BOUND) by (nonlinear_arith)
            requires
                0 <= i < n <= 100,
                DOOR_HALF_SPACING == 100,
                WORLD_BOUND == 1_000_000,
        ;
    }
}

} // verus!
