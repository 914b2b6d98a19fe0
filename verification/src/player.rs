//! The player: spawn position, movement forces, room-entry relocation, and
//! door-enter detection.
//!
//! The relocation consumer is edge-triggered: it clears the room model's
//! one-shot `changed` flag on first sight, so running it again before the
//! next floor-plan event moves nothing. When several doors lead back to
//! the room the player left, the first one in door order wins; when none
//! does, the player stays in place.

use vstd::prelude::*;

verus! {

use crate::geometry::{
    Position, wf_pos, within_enter_range, within_enter_distance, WINDOW_HEIGHT, WORLD_BOUND,
};
use crate::room::{Door, RoomState, CurrentFloorPlan, wf_door, DOOR_EXIT_LIFT};

/// Upward force applied on a grounded jump.
pub const PLAYER_JUMP_FORCE: i64 = 1000;

/// Horizontal force applied while a move action is pressed.
pub const PLAYER_MOVE_SPEED: i64 = 300;

/// The pressed state of the abstract action set, one flag per action.
#[derive(Clone, Copy, PartialEq, Eq, Structural, Debug)]
pub struct ActionState {
    pub jump: bool,
    pub move_left: bool,
    pub move_right: bool,
    pub enter: bool,
    pub pause_toggle: bool,
}

/// The action state with nothing pressed.
pub open spec fn no_actions() -> ActionState {
    ActionState { jump: false, move_left: false, move_right: false, enter: false, pause_toggle: false }
}

impl Default for ActionState {
    /// Nothing is pressed by default.
    fn default() -> (r: Self)
        ensures
            r == no_actions(),
    {
        ActionState { jump: false, move_left: false, move_right: false, enter: false, pause_toggle: false }
    }
}

/// An instantaneous force on the player, in world units.
#[derive(Clone, Copy, PartialEq, Eq, Structural, Debug)]
pub struct Force {
    pub x: i64,
    pub y: i64,
}

/// No force.
pub open spec fn zero_force() -> Force {
    Force { x: 0, y: 0 }
}

/// The force the movement rules yield: a grounded jump pushes up, and the
/// two horizontal actions add up, cancelling when both are pressed.
pub open spec fn spec_movement_force(grounded: bool, actions: ActionState) -> Force {
    Force {
        x: ((if actions.move_left { -PLAYER_MOVE_SPEED as int } else { 0 })
            + (if actions.move_right { PLAYER_MOVE_SPEED as int } else { 0 })) as i64,
        y: if grounded && actions.jump { PLAYER_JUMP_FORCE } else { 0 },
    }
}

/// Computes the instantaneous movement force from the grounded flag and
/// the pressed actions.
pub fn player_movement(grounded: bool, actions: &ActionState) -> (f: Force)
    ensures
        f == spec_movement_force(grounded, *actions),
{
    let mut x: i64 = 0;
    let mut y: i64 = 0;
    if grounded && actions.jump {
        y = PLAYER_JUMP_FORCE;
    }
    if actions.move_left {
        x = x - PLAYER_MOVE_SPEED;
    }
    if actions.move_right {
        x = x + PLAYER_MOVE_SPEED;
    }
    Force { x, y }
}

/// Where the player first appears: centred horizontally, a little below
/// the top of the window, on the player sprite layer.
pub open spec fn spec_initial_player_position() -> Position {
    Position { x: 0, y: (WINDOW_HEIGHT / 2 - 50) as i64, z: 1 }
}

/// The position the player spawns at after startup.
pub fn initial_player_position() -> (p: Position)
    ensures
        p == spec_initial_player_position(),
        wf_pos(p),
{
    Position { x: 0, y: WINDOW_HEIGHT / 2 - 50, z: 1 }
}

/// Index of the first door of `doors` leading to `id`, starting the search
/// at `i`; `-1` when none follows.
pub open spec fn first_door_index_from(doors: Seq<Door>, id: u64, i: int) -> int
    decreases doors.len() - i when 0 <= i <= doors.len()
{
    if i >= doors.len() {
        -1
    } else if doors[i].room_id == id {
        i
    } else {
        first_door_index_from(doors, id, i + 1)
    }
}

/// Index of the first door of `doors` leading to `id`; `-1` when none does.
pub open spec fn first_door_index(doors: Seq<Door>, id: u64) -> int {
    first_door_index_from(doors, id, 0)
}

/// A prefix free of matches does not move the first matching door.
proof fn lemma_first_door_skip(doors: Seq<Door>, id: u64, i: int)
    requires
        0 <= i <= doors.len(),
        forall|k: int| 0 <= k < i ==> #[trigger] doors[k].room_id != id,
    ensures
        first_door_index(doors, id) == first_door_index_from(doors, id, i),
    decreases i,
{
    if i > 0 {
        lemma_first_door_skip(doors, id, i - 1);
        assert(first_door_index_from(doors, id, i - 1) == first_door_index_from(doors, id, i));
    }
}

/// Finds the first door of `doors` leading to room `id`.
fn find_door_index(doors: &Vec<Door>, id: u64) -> (r: Option<usize>)
    ensures
        match r {
            Option::Some(i) => i < doors@.len() && first_door_index(doors@, id) == i as int,
            Option::None => first_door_index(doors@, id) == -1,
        },
{
    let n: usize = doors.len();
    let mut j: usize = 0;
    while j < n
        invariant
            j <= n,
            n == doors@.len(),
            forall|k: int| 0 <= k < j ==> #[trigger] doors@[k].room_id != id,
        decreases n - j,
    {
        if doors[j].room_id == id {
            proof {
                lemma_first_door_skip(doors@, id, j as int);
            }
            return Some(j);
        }
        j = j + 1;
    }
    proof {
        lemma_first_door_skip(doors@, id, n as int);
    }
    None
}

/// The spot just above a door where the player comes out of it.
pub open spec fn above_door(p: Position) -> Position {
    Position { x: p.x, y: (p.y + DOOR_EXIT_LIFT) as i64, z: 1 }
}

/// Where the player stands after the room-change consumer runs once over
/// the given room-model fields: moved just above the first door leading
/// back to the room they left, when the edge is raised, a previous room
/// exists and such a door exists; unchanged otherwise.
pub open spec fn spec_relocated_parts(
    changed: bool,
    previous_room_id: Option<u64>,
    doors: Seq<Door>,
    pos: Position,
) -> Position {
    if !changed {
        pos
    } else {
        match previous_room_id {
            Option::None => pos,
            Option::Some(r) => {
                let i = first_door_index(doors, r);
                if i >= 0 {
                    above_door(doors[i].position)
                } else {
                    pos
                }
            },
        }
    }
}

/// Where the player stands after the room-change consumer runs once on
/// `state`.
pub open spec fn spec_relocated(state: RoomState, pos: Position) -> Position {
    spec_relocated_parts(state.changed, state.previous_room_id, state.doors@, pos)
}

/// One run of the room-change consumer: the one-shot edge is cleared and
/// the player is relocated per `spec_relocated`.
pub open spec fn spec_consume_room_change(state: RoomState, pos: Position) -> (RoomState, Position) {
    (
        RoomState {
            current_room_id: state.current_room_id,
            previous_room_id: state.previous_room_id,
            doors: state.doors,
            changed: false,
        },
        spec_relocated(state, pos),
    )
}

/// Consumes the room model's one-shot `changed` edge. On the edge, when a
/// previous room exists, the player is teleported just above the first
/// door of the current room leading back to it; with no previous room or
/// no such door the player stays in place. Off the edge nothing moves.
pub fn player_enters_new_room(state: &mut RoomState, pos: &mut Position)
    requires
        forall|i: int| 0 <= i < old(state).doors@.len()
            ==> wf_door(#[trigger] old(state).doors@[i]),
        wf_pos(*old(pos)),
    ensures
        wf_pos(*final(pos)),
        final(state).current_room_id == old(state).current_room_id,
        final(state).previous_room_id == old(state).previous_room_id,
        final(state).doors == old(state).doors,
        !final(state).changed,
        *final(pos) == spec_relocated(*old(state), *old(pos)),
        (*final(state), *final(pos)) == spec_consume_room_change(*old(state), *old(pos)),
{
    if state.changed {
        state.changed = false;
        if let Some(prev) = state.previous_room_id {
            if let Some(i) = find_door_index(&state.doors, prev) {
                let d = state.doors[i];
                *pos = Position { x: d.position.x, y: d.position.y + DOOR_EXIT_LIFT, z: 1 };
            }
        }
    } else {
        state.changed = false;
    }
}

/// On the room-change edge with a previous room `r`, when the current door
/// list holds a door back to `r`, the player lands just above the first
/// such door: at its horizontal position, lifted by `DOOR_EXIT_LIFT`, on
/// the player sprite layer.
pub proof fn lemma_room_transition_target(doors: Seq<Door>, r: u64, pos: Position)
    requires
        first_door_index(doors, r) >= 0,
    ensures
        spec_relocated_parts(true, Option::Some(r), doors, pos)
            == above_door(doors[first_door_index(doors, r)].position),
{
}

/// On the room-change edge without a previous room, the player does not
/// move: only spawn logic runs on a first load.
pub proof fn lemma_no_previous_room_no_move(doors: Seq<Door>, pos: Position)
    ensures
        spec_relocated_parts(true, Option::None, doors, pos) == pos,
{
}

/// Running the room-change consumer a second time without an intervening
/// floor-plan event changes nothing: the first run clears the edge, and
/// off the edge the consumer is the identity.
pub proof fn lemma_room_change_consumer_idempotent(state: RoomState, pos: Position)
    ensures
        spec_consume_room_change(
            spec_consume_room_change(state, pos).0,
            spec_consume_room_change(state, pos).1,
        ) == spec_consume_room_change(state, pos),
{
}

/// Index of the first door of `doors` within enter range of `pos`,
/// starting the search at `i`; `-1` when none follows.
pub open spec fn first_door_in_range_from(doors: Seq<Door>, pos: Position, i: int) -> int
    decreases doors.len() - i when 0 <= i <= doors.len()
{
    if i >= doors.len() {
        -1
    } else if within_enter_range(pos, doors[i].position) {
        i
    } else {
        first_door_in_range_from(doors, pos, i + 1)
    }
}

/// Index of the first door of `doors` within enter range of `pos`; `-1`
/// when none is in range.
pub open spec fn first_door_in_range(doors: Seq<Door>, pos: Position) -> int {
    first_door_in_range_from(doors, pos, 0)
}

/// A prefix free of doors in range does not move the first one in range.
proof fn lemma_first_in_range_skip(doors: Seq<Door>, pos: Position, i: int)
    requires
        0 <= i <= doors.len(),
        forall|k: int| 0 <= k < i ==> !within_enter_range(pos, #[trigger] doors[k].position),
    ensures
        first_door_in_range(doors, pos) == first_door_in_range_from(doors, pos, i),
    decreases i,
{
    if i > 0 {
        lemma_first_in_range_skip(doors, pos, i - 1);
        assert(first_door_in_range_from(doors, pos, i - 1) == first_door_in_range_from(doors, pos, i));
    }
}

/// Where the player is and came from after the door-enter check: on a
/// pressed enter action with a door in range, the swap is applied with the
/// first door in range; otherwise nothing changes.
pub open spec fn spec_door_enter(
    whereabouts: CurrentFloorPlan,
    pos: Position,
    doors: Seq<Door>,
    enter: bool,
) -> CurrentFloorPlan {
    if !enter {
        whereabouts
    } else {
        let i = first_door_in_range(doors, pos);
        if i >= 0 {
            CurrentFloorPlan {
                you_are_here: Option::Some(doors[i].room_id),
                you_were_here: whereabouts.you_are_here,
            }
        } else {
            whereabouts
        }
    }
}

/// Detects the player entering a door: when the enter action is pressed
/// and a door stands within enter range, both fields of the whereabouts
/// are updated together — the old `you_are_here` becomes `you_were_here`
/// and the first door in range names the new `you_are_here`.
pub fn detect_player_at_door(
    player_pos: Position,
    doors: &Vec<Door>,
    actions: &ActionState,
    whereabouts: &mut CurrentFloorPlan,
)
    requires
        wf_pos(player_pos),
        forall|i: int| 0 <= i < doors@.len() ==> wf_pos(#[trigger] doors@[i].position),
    ensures
        *final(whereabouts) == spec_door_enter(*old(whereabouts), player_pos, doors@, actions.enter),
{
    if !actions.enter {
        return ;
    }
    let n: usize = doors.len();
    let mut j: usize = 0;
    while j < n
        invariant
            j <= n,
            n == doors@.len(),
            actions.enter,
            wf_pos(player_pos),
            forall|i: int| 0 <= i < n ==> wf_pos(#[trigger] doors@[i].position),
            forall|k: int| 0 <= k < j ==> !within_enter_range(player_pos, #[trigger] doors@[k].position),
            *whereabouts == *old(whereabouts),
        decreases n - j,
    {
        if within_enter_distance(player_pos, doors[j].position) {
            proof {
                lemma_first_in_range_skip(doors@, player_pos, j as int);
                assert(first_door_in_range_from(doors@, player_pos, j as int) == j as int);
            }
            whereabouts.you_were_here = whereabouts.you_are_here;
            whereabouts.you_are_here = Some(doors[j].room_id);
            return ;
        }
        j = j + 1;
    }
    proof {
        lemma_first_in_range_skip(doors@, player_pos, n as int);
    }
}

/// The whereabouts are updated transactionally: whenever the door-enter
/// check changes them at all, the old `you_are_here` has become
/// `you_were_here` and the new `you_are_here` names a room some door in
/// enter range leads to.
pub proof fn lemma_door_swap_transactional(
    whereabouts: CurrentFloorPlan,
    pos: Position,
    doors: Seq<Door>,
    enter: bool,
)
    ensures
        spec_door_enter(whereabouts, pos, doors, enter) == whereabouts
            || {
                let r = spec_door_enter(whereabouts, pos, doors, enter);
                r.you_were_here == whereabouts.you_are_here
                    && exists|i: int| 0 <= i < doors.len()
                        && within_enter_range(pos, #[trigger] doors[i].position)
                        && r.you_are_here == Option::Some(doors[i].room_id)
            },
{
    let r = spec_door_enter(whereabouts, pos, doors, enter);
    if r != whereabouts {
        let i = first_door_in_range(doors, pos);
        lemma_first_in_range_found(doors, pos, 0);
    }
}

/// Whatever `first_door_in_range_from` finds is a door in range at or
/// after the start of the search.
proof fn lemma_first_in_range_found(doors: Seq<Door>, pos: Position, i: int)
    requires
        0 <= i <= doors.len(),
    ensures
        first_door_in_range_from(doors, pos, i) >= 0 ==> {
            let f = first_door_in_range_from(doors, pos, i);
            i <= f < doors.len() && within_enter_range(pos, doors[f].position)
        },
    decreases doors.len() - i,
{
    if i < doors.len() && !within_enter_range(pos, doors[i].position) {
        lemma_first_in_range_found(doors, pos, i + 1);
    }
}

} // verus!
