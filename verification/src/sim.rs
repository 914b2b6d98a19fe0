//! The owned simulation loop: world arena, event queues, and the tick
//! pipeline.
//!
//! All shared state lives in one `Simulation` value that the tick mutates
//! through well-ordered stages: pause handling, the grounded check against
//! this tick's collision feed, the floor-plan event drain (the room-model
//! update), the room-change work (platform spawning strictly after the
//! update, then player relocation), door-enter detection reading the new
//! door list, movement, and finally the state machine and fade step. Both
//! per-tick queues are drained fully on every tick.

use vstd::prelude::*;

verus! {

use crate::geometry::{
    Position, wf_pos, WINDOW_HEIGHT, WALL_DISTANCE_FROM_CENTER,
};
use crate::room::{
    RoomState, FloorPlan, CurrentFloorPlan, wf_floor_plan, wf_door, doors_for, update_room,
    first_room_index, MAX_DOORS,
};
use crate::doors::{PlatformSpawn, platforms_for, spawn_platforms};
use crate::collision::{EntityKind, EntityRec, Contact, check_grounded, grounding_contact};
use crate::player::{
    ActionState, Force, zero_force, spec_movement_force, player_movement,
    spec_initial_player_position, initial_player_position, spec_relocated_parts,
    player_enters_new_room, spec_door_enter, detect_player_at_door,
};
use crate::state::{
    GameState, Fade, wf_fade, spec_toggle_pause, toggle_pause, spec_request_room_change,
    request_room_change, spec_state_step, state_step, movement_allowed, spawning_allowed,
};

/// A floor-plan-changed event: a complete replacement snapshot.
#[derive(Clone, Debug)]
pub struct FloorPlanEvent {
    pub plan: FloorPlan,
}

/// How room generation is driven, as requested at startup.
#[derive(Clone, Copy, PartialEq, Eq, Structural, Debug)]
pub enum GeneratorRequest {
    /// Poll the live telemetry source.
    LiveTelemetry,
    /// Replay floor plans from a recorded file.
    FileReplay,
}

/// The floor-plan source the simulation actually runs with.
#[derive(Clone, Copy, PartialEq, Eq, Structural, Debug)]
pub enum GeneratorKind {
    LiveTelemetry,
    FileReplay,
    TestMode,
}

/// The source chosen for a startup request: without telemetry support only
/// the built-in test source runs; with it, a live request is honoured and
/// anything else falls back to file replay.
pub open spec fn spec_choose_generator(
    request: Option<GeneratorRequest>,
    telemetry_enabled: bool,
) -> GeneratorKind {
    if !telemetry_enabled {
        GeneratorKind::TestMode
    } else {
        match request {
            Option::Some(GeneratorRequest::LiveTelemetry) => GeneratorKind::LiveTelemetry,
            _ => GeneratorKind::FileReplay,
        }
    }
}

/// Chooses the floor-plan source from the startup request.
pub fn choose_generator(request: Option<GeneratorRequest>, telemetry_enabled: bool) -> (g: GeneratorKind)
    ensures
        g == spec_choose_generator(request, telemetry_enabled),
{
    if !telemetry_enabled {
        GeneratorKind::TestMode
    } else {
        match request {
            Option::Some(GeneratorRequest::LiveTelemetry) => GeneratorKind::LiveTelemetry,
            _ => GeneratorKind::FileReplay,
        }
    }
}

/// The entity arena. Entities below `room_base` persist across room
/// changes; the tail holds the room-scoped platform entities, which each
/// room change despawns and replaces.
#[derive(Clone, Debug)]
pub struct GameWorld {
    pub entities: Vec<EntityRec>,
    pub room_base: usize,
}

/// How many player entities the arena holds.
pub open spec fn count_players(s: Seq<EntityRec>) -> int
    decreases s.len()
{
    if s.len() == 0 {
        0
    } else {
        count_players(s.drop_last()) + if s.last().kind == EntityKind::Player { 1int } else { 0int }
    }
}

/// Appending one entity raises the player count by one exactly when it is
/// a player.
proof fn lemma_count_players_push(s: Seq<EntityRec>, e: EntityRec)
    ensures
        count_players(s.push(e)) == count_players(s)
            + if e.kind == EntityKind::Player { 1int } else { 0int },
{
    assert(s.push(e).drop_last() =~= s);
    assert(s.push(e).last() == e);
}

/// Counts the player entities of the arena, as a query for the player
/// would find them.
pub fn count_player_entities(world: &GameWorld) -> (n: usize)
    ensures
        n as int == count_players(world.entities@),
{
    let len: usize = world.entities.len();
    let mut n: usize = 0;
    let mut i: usize = 0;
    while i < len
        invariant
            i <= len,
            len == world.entities@.len(),
            n <= i,
            n as int == count_players(world.entities@.take(i as int)),
        decreases len - i,
    {
        proof {
            assert(world.entities@.take(i + 1).drop_last() =~= world.entities@.take(i as int));
            assert(world.entities@.take(i + 1).last() == world.entities@[i as int]);
        }
        let is_player = match world.entities[i].kind {
            EntityKind::Player => true,
            _ => false,
        };
        if is_player {
            n = n + 1;
        }
        i = i + 1;
    }
    proof {
        assert(world.entities@.take(len as int) =~= world.entities@);
    }
    n
}

/// The persistent part of the arena is a prefix.
pub open spec fn wf_world(w: GameWorld) -> bool {
    w.room_base <= w.entities@.len()
}

/// The entity spawned for a platform: a static support carrying the
/// platform's door marker position.
pub open spec fn platform_entity(p: PlatformSpawn) -> EntityRec {
    EntityRec {
        kind: EntityKind::Platform,
        position: p.position,
        grounded: false,
        force: zero_force(),
    }
}

/// The room-scoped entities spawned for a platform list, in order.
pub open spec fn room_scoped_entities(platforms: Seq<PlatformSpawn>) -> Seq<EntityRec> {
    Seq::new(platforms.len(), |i: int| platform_entity(platforms[i]))
}

impl GameWorld {
    /// An empty arena.
    pub fn new() -> (w: GameWorld)
        ensures
            w.entities@.len() == 0,
            w.room_base == 0,
            wf_world(w),
    {
        GameWorld { entities: Vec::new(), room_base: 0 }
    }
}

/// The boundary entities of the world, spawned once at startup: the
/// ground, the two side walls and the ceiling. Only the ground counts as
/// support; walls and ceiling never ground the player.
pub open spec fn boundary_entities() -> Seq<EntityRec> {
    seq![
        EntityRec {
            kind: EntityKind::Floor,
            position: Position { x: 0, y: (-(WINDOW_HEIGHT / 2)) as i64, z: 0 },
            grounded: false,
            force: zero_force(),
        },
        EntityRec {
            kind: EntityKind::Wall,
            position: Position { x: (-WALL_DISTANCE_FROM_CENTER) as i64, y: 0, z: 0 },
            grounded: false,
            force: zero_force(),
        },
        EntityRec {
            kind: EntityKind::Wall,
            position: Position { x: WALL_DISTANCE_FROM_CENTER, y: 0, z: 0 },
            grounded: false,
            force: zero_force(),
        },
        EntityRec {
            kind: EntityKind::Wall,
            position: Position { x: 0, y: (WINDOW_HEIGHT / 2) as i64, z: 0 },
            grounded: false,
            force: zero_force(),
        },
    ]
}

/// Spawns the persistent boundaries of the world: the ground and three
/// non-supporting walls, appended to the persistent prefix of the arena.
pub fn setup_environment(world: &mut GameWorld)
    requires
        old(world).room_base == old(world).entities@.len(),
    ensures
        final(world).entities@ == old(world).entities@ + boundary_entities(),
        final(world).room_base == final(world).entities@.len(),
        count_players(final(world).entities@) == count_players(old(world).entities@),
{
    let ground = EntityRec {
        kind: EntityKind::Floor,
        position: Position { x: 0, y: -(WINDOW_HEIGHT / 2), z: 0 },
        grounded: false,
        force: Force { x: 0, y: 0 },
    };
    let left_wall = EntityRec {
        kind: EntityKind::Wall,
        position: Position { x: -WALL_DISTANCE_FROM_CENTER, y: 0, z: 0 },
        grounded: false,
        force: Force { x: 0, y: 0 },
    };
    let right_wall = EntityRec {
        kind: EntityKind::Wall,
        position: Position { x: WALL_DISTANCE_FROM_CENTER, y: 0, z: 0 },
        grounded: false,
        force: Force { x: 0, y: 0 },
    };
    let ceiling = EntityRec {
        kind: EntityKind::Wall,
        position: Position { x: 0, y: WINDOW_HEIGHT / 2, z: 0 },
        grounded: false,
        force: Force { x: 0, y: 0 },
    };
    proof {
        lemma_count_players_push(world.entities@, ground);
        lemma_count_players_push(world.entities@.push(ground), left_wall);
        lemma_count_players_push(world.entities@.push(ground).push(left_wall), right_wall);
        lemma_count_players_push(
            world.entities@.push(ground).push(left_wall).push(right_wall),
            ceiling,
        );
    }
    world.entities.push(ground);
    world.entities.push(left_wall);
    world.entities.push(right_wall);
    world.entities.push(ceiling);
    world.room_base = world.entities.len();
    proof {
        assert(final(world).entities@ =~= old(world).entities@ + boundary_entities());
    }
}

/// Spawns the single player entity into the persistent prefix of the
/// arena, at the initial spawn position, ungrounded and at rest. After a
/// startup that began with no player, exactly one player exists.
pub fn spawn_player(world: &mut GameWorld) -> (player: usize)
    requires
        old(world).room_base == old(world).entities@.len(),
        count_players(old(world).entities@) == 0,
    ensures
        player == old(world).entities@.len(),
        final(world).entities@ == old(world).entities@.push(EntityRec {
            kind: EntityKind::Player,
            position: spec_initial_player_position(),
            grounded: false,
            force: zero_force(),
        }),
        final(world).room_base == final(world).entities@.len(),
        count_players(final(world).entities@) == 1,
{
    let rec = EntityRec {
        kind: EntityKind::Player,
        position: initial_player_position(),
        grounded: false,
        force: Force { x: 0, y: 0 },
    };
    proof {
        lemma_count_players_push(world.entities@, rec);
    }
    let player: usize = world.entities.len();
    world.entities.push(rec);
    world.room_base = world.entities.len();
    player
}

/// Despawns the previous room's platform entities and spawns the new
/// ones: the persistent prefix of the arena is kept and the tail is
/// replaced by one platform entity per placement, in order.
pub fn respawn_room_entities(world: &mut GameWorld, platforms: &Vec<PlatformSpawn>)
    requires
        wf_world(*old(world)),
    ensures
        final(world).entities@ == old(world).entities@.take(old(world).room_base as int)
            + room_scoped_entities(platforms@),
        final(world).room_base == old(world).room_base,
        wf_world(*final(world)),
{
    let base: usize = world.room_base;
    let mut out: Vec<EntityRec> = Vec::new();
    let mut i: usize = 0;
    while i < base
        invariant
            i <= base,
            base <= world.entities@.len(),
            *world == *old(world),
            out@ == old(world).entities@.take(i as int),
        decreases base - i,
    {
        let rec = world.entities[i];
        out.push(rec);
        proof {
            assert(out@ =~= old(world).entities@.take(i + 1));
        }
        i = i + 1;
    }
    let n: usize = platforms.len();
    let mut j: usize = 0;
    while j < n
        invariant
            j <= n,
            n == platforms@.len(),
            base == old(world).room_base,
            *world == *old(world),
            out@ == old(world).entities@.take(base as int)
                + room_scoped_entities(platforms@).take(j as int),
        decreases n - j,
    {
        let p = platforms[j];
        out.push(EntityRec {
            kind: EntityKind::Platform,
            position: p.position,
            grounded: false,
            force: Force { x: 0, y: 0 },
        });
        proof {
            assert(out@ =~= old(world).entities@.take(base as int)
                + room_scoped_entities(platforms@).take(j + 1));
        }
        j = j + 1;
    }
    world.entities = out;
    proof {
        assert(room_scoped_entities(platforms@).take(platforms@.len() as int)
            =~= room_scoped_entities(platforms@));
    }
}

/// Drains this tick's floor-plan events and applies each snapshot to the
/// room model in arrival order, so the last one wins. Returns whether any
/// event arrived; the model is untouched when none did.
pub fn handle_floor_plan_changes(
    events: &mut Vec<FloorPlanEvent>,
    state: &mut RoomState,
    whereabouts: &CurrentFloorPlan,
) -> (got: bool)
    requires
        forall|i: int| 0 <= i < old(events)@.len() ==> wf_floor_plan(#[trigger] old(events)@[i].plan),
    ensures
        final(events)@.len() == 0,
        got == (old(events)@.len() > 0),
        got ==> {
            &&& final(state).current_room_id == whereabouts.you_are_here
            &&& final(state).previous_room_id == whereabouts.you_were_here
            &&& final(state).changed
            &&& final(state).doors@ == doors_for(
                old(events)@.last().plan.rooms@,
                whereabouts.you_are_here,
            )
        },
        !got ==> *final(state) == *old(state),
{
    let n: usize = events.len();
    let mut i: usize = 0;
    while i < n
        invariant
            i <= n,
            n == events@.len(),
            *events == *old(events),
            forall|k: int| 0 <= k < n ==> wf_floor_plan(#[trigger] events@[k].plan),
            i == 0 ==> *state == *old(state),
            i > 0 ==> {
                &&& state.current_room_id == whereabouts.you_are_here
                &&& state.previous_room_id == whereabouts.you_were_here
                &&& state.changed
                &&& state.doors@ == doors_for(events@[i - 1].plan.rooms@, whereabouts.you_are_here)
            },
        decreases n - i,
    {
        update_room(state, &events[i].plan, whereabouts);
        i = i + 1;
    }
    *events = Vec::new();
    n > 0
}

/// The whole simulation: the arena, the room model, the player's
/// whereabouts, the state machine with its fade overlay, and the two
/// per-tick event queues.
pub struct Simulation {
    pub world: GameWorld,
    /// Arena index of the single player entity.
    pub player: usize,
    pub room_state: RoomState,
    pub whereabouts: CurrentFloorPlan,
    pub game_state: GameState,
    pub fade: Fade,
    /// Floor-plan events delivered since the last tick.
    pub plan_events: Vec<FloorPlanEvent>,
    /// Collision feed delivered since the last tick.
    pub contacts: Vec<Contact>,
}

/// Well-formedness of a simulation: the player is a persistent entity of
/// the arena, every tracked position lies in the world bound, the door
/// list is laid out within bounds, and queued plans are well formed.
pub open spec fn wf_sim(s: Simulation) -> bool {
    &&& wf_world(s.world)
    &&& s.player < s.world.room_base
    &&& s.world.entities@[s.player as int].kind == EntityKind::Player
    &&& wf_pos(s.world.entities@[s.player as int].position)
    &&& s.room_state.doors@.len() <= MAX_DOORS
    &&& forall|i: int| 0 <= i < s.room_state.doors@.len()
        ==> wf_door(#[trigger] s.room_state.doors@[i])
    &&& wf_fade(s.fade)
    &&& forall|i: int| 0 <= i < s.plan_events@.len()
        ==> wf_floor_plan(#[trigger] s.plan_events@[i].plan)
}

impl Simulation {
    /// Startup: spawns the world boundaries and the single player, with
    /// the room model empty, the game in play and the overlay clear.
    pub fn new() -> (s: Simulation)
        ensures
            wf_sim(s),
            count_players(s.world.entities@) == 1,
            s.world.entities@[s.player as int].position == spec_initial_player_position(),
            s.world.entities@[s.player as int].grounded == false,
            s.game_state == GameState::InGame,
            s.fade.alpha == 0,
            s.room_state.current_room_id is None,
            s.room_state.previous_room_id is None,
            s.room_state.doors@.len() == 0,
            !s.room_state.changed,
            s.whereabouts.you_are_here is None,
            s.whereabouts.you_were_here is None,
            s.plan_events@.len() == 0,
            s.contacts@.len() == 0,
    {
        let mut world = GameWorld::new();
        setup_environment(&mut world);
        let player = spawn_player(&mut world);
        Simulation {
            world,
            player,
            room_state: RoomState {
                current_room_id: None,
                previous_room_id: None,
                doors: Vec::new(),
                changed: false,
            },
            whereabouts: CurrentFloorPlan { you_are_here: None, you_were_here: None },
            game_state: GameState::InGame,
            fade: Fade { alpha: 0 },
            plan_events: Vec::new(),
            contacts: Vec::new(),
        }
    }

    /// Delivers a floor-plan-changed event for the coming tick.
    pub fn enqueue_floor_plan(&mut self, event: FloorPlanEvent)
        requires
            wf_floor_plan(event.plan),
        ensures
            final(self).plan_events@ == old(self).plan_events@.push(event),
            *final(self) == (Simulation { plan_events: final(self).plan_events, ..*old(self) }),
    {
        self.plan_events.push(event);
    }

    /// Delivers a collision record for the coming tick.
    pub fn enqueue_contact(&mut self, contact: Contact)
        ensures
            final(self).contacts@ == old(self).contacts@.push(contact),
            *final(self) == (Simulation { contacts: final(self).contacts, ..*old(self) }),
    {
        self.contacts.push(contact);
    }

    /// One simulation tick, with the stages in their required order:
    /// pause handling; the grounded check against this tick's collision
    /// feed; the floor-plan drain (the room-model update), which during
    /// play begins a room change; on the room-change edge, platform
    /// spawning strictly after the model update and then player
    /// relocation; door-enter detection against the current door list
    /// during play; movement, permitted only during play; and the state
    /// machine and fade step. Both queues are empty afterwards.
    pub fn tick(&mut self, actions: &ActionState)
        requires
            wf_sim(*old(self)),
        ensures
            wf_sim(*final(self)),
            final(self).plan_events@.len() == 0,
            final(self).contacts@.len() == 0,
            final(self).player == old(self).player,
            final(self).world.room_base == old(self).world.room_base,
            ({
                let s0 = *old(self);
                let pos0 = s0.world.entities@[s0.player as int].position;
                let rec0 = s0.world.entities@[s0.player as int];
                let base = s0.world.room_base as int;
                // stage 1: pause
                let gs1 = if actions.pause_toggle { spec_toggle_pause(s0.game_state) } else { s0.game_state };
                // stage 2: grounded from this tick's feed
                let grounded = exists|k: int| 0 <= k < s0.contacts@.len()
                    && grounding_contact(s0.world.entities@, s0.player as int, pos0.y as int, #[trigger] s0.contacts@[k]);
                // stage 3: floor-plan drain, the room-model update
                let got_plan = s0.plan_events@.len() > 0;
                let doors1 = if got_plan {
                    doors_for(s0.plan_events@.last().plan.rooms@, s0.whereabouts.you_are_here)
                } else {
                    s0.room_state.doors@
                };
                let prev1 = if got_plan { s0.whereabouts.you_were_here } else { s0.room_state.previous_room_id };
                let cur1 = if got_plan { s0.whereabouts.you_are_here } else { s0.room_state.current_room_id };
                let changed1 = if got_plan { true } else { s0.room_state.changed };
                let gs2 = if got_plan { spec_request_room_change(gs1) } else { gs1 };
                // stage 4: room-change work
                let room_work = spawning_allowed(gs2);
                let pos1 = if room_work { spec_relocated_parts(changed1, prev1, doors1, pos0) } else { pos0 };
                let changed2 = if room_work { false } else { changed1 };
                let ents1 = if room_work {
                    s0.world.entities@.take(base) + room_scoped_entities(platforms_for(doors1))
                } else {
                    s0.world.entities@
                };
                // stage 5: door-enter detection, during play only
                let w1 = if gs2 == GameState::InGame {
                    spec_door_enter(s0.whereabouts, pos1, doors1, actions.enter)
                } else {
                    s0.whereabouts
                };
                // stage 6: movement, during play only
                let force = if movement_allowed(gs2) {
                    spec_movement_force(grounded, *actions)
                } else {
                    zero_force()
                };
                // stage 7: state machine and fade
                let step = spec_state_step(gs2, s0.fade.alpha);
                &&& final(self).room_state.doors@ == doors1
                &&& final(self).room_state.previous_room_id == prev1
                &&& final(self).room_state.current_room_id == cur1
                &&& final(self).room_state.changed == changed2
                &&& final(self).whereabouts == w1
                &&& final(self).game_state == step.0
                &&& final(self).fade.alpha == step.1
                &&& final(self).world.entities@ == ents1.update(
                    s0.player as int,
                    EntityRec { kind: rec0.kind, position: pos1, grounded, force },
                )
            }),
    {
        // stage 1: pause handling
        if actions.pause_toggle {
            self.game_state = toggle_pause(self.game_state);
        }
        // stage 2: grounded check against this tick's collision feed
        let mut ppos = self.world.entities[self.player].position;
        let grounded = check_grounded(&self.world.entities, self.player, ppos.y, &self.contacts);
        self.contacts = Vec::new();
        // stage 3: drain floor-plan events; the room-model update begins a
        // room change during play
        let got_plan = handle_floor_plan_changes(
            &mut self.plan_events,
            &mut self.room_state,
            &self.whereabouts,
        );
        if got_plan {
            self.game_state = request_room_change(self.game_state);
            proof {
                let s0 = *old(self);
                let here = s0.whereabouts.you_are_here;
                let last = s0.plan_events@[s0.plan_events@.len() - 1];
                assert(wf_floor_plan(last.plan));
                if here is Some {
                    let rooms = last.plan.rooms@;
                    let ri = first_room_index(rooms, here->0);
                    crate::room::lemma_first_room_found(rooms, here->0, 0);
                    if ri >= 0 {
                        assert(rooms[ri].doors@.len() <= MAX_DOORS);
                        crate::room::lemma_laid_out_doors_wf(rooms[ri].doors@);
                    }
                }
            }
        }
        // stage 4: on the room-change edge, spawn the platforms strictly
        // after the room-model update, then relocate the player
        if self.game_state == GameState::RoomChange {
            proof {
                assert forall|i: int| 0 <= i < self.room_state.doors@.len()
                    implies wf_pos(#[trigger] self.room_state.doors@[i].position) by {
                    assert(wf_door(self.room_state.doors@[i]));
                }
            }
            let platforms = spawn_platforms(&self.room_state);
            respawn_room_entities(&mut self.world, &platforms);
            player_enters_new_room(&mut self.room_state, &mut ppos);
        }
        // stage 5: door-enter detection against the current door list
        if self.game_state == GameState::InGame {
            detect_player_at_door(ppos, &self.room_state.doors, actions, &mut self.whereabouts);
        }
        // stage 6: movement force, permitted only during play
        let force = if self.game_state == GameState::InGame {
            player_movement(grounded, actions)
        } else {
            Force { x: 0, y: 0 }
        };
        let mut rec = self.world.entities[self.player];
        rec.position = ppos;
        rec.grounded = grounded;
        rec.force = force;
        self.world.entities[self.player] = rec;
        // stage 7: state machine and fade overlay
        self.game_state = state_step(self.game_state, &mut self.fade);
    }
}

} // verus!
