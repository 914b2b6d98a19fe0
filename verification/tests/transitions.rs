use platform_rooms::collision::Contact;
use platform_rooms::doors::spawn_platforms;
use platform_rooms::geometry::{within_enter_distance, Position};
use platform_rooms::player::{
    detect_player_at_door, player_enters_new_room, player_movement, ActionState,
};
use platform_rooms::room::{
    update_room, CurrentFloorPlan, Door, FloorPlan, Room, RoomState, DOOR_LEVEL,
};
use platform_rooms::sim::{
    choose_generator, handle_floor_plan_changes, FloorPlanEvent, GeneratorKind, GeneratorRequest,
    Simulation,
};
use platform_rooms::state::{request_room_change, state_step, toggle_pause, Fade, GameState};

fn door(room_id: u64, x: i64, y: i64) -> Door {
    Door {
        room_id,
        position: Position { x, y, z: 0 },
    }
}

fn actions() -> ActionState {
    ActionState::default()
}

#[test]
fn test_room_transition_relocates_player() {
    // Coming out of room 1: the door back to it is at (-100, -250).
    let mut state = RoomState {
        current_room_id: Some(2),
        previous_room_id: Some(1),
        doors: vec![door(3, 100, -250), door(1, -100, -250)],
        changed: true,
    };
    let mut pos = Position { x: 0, y: 350, z: 1 };
    player_enters_new_room(&mut state, &mut pos);
    assert_eq!(pos, Position { x: -100, y: -200, z: 1 });
    assert!(!state.changed);
}

#[test]
fn test_room_transition_without_previous_room() {
    let mut state = RoomState {
        current_room_id: Some(2),
        previous_room_id: None,
        doors: vec![door(1, -100, -250)],
        changed: true,
    };
    let mut pos = Position { x: 7, y: 350, z: 1 };
    player_enters_new_room(&mut state, &mut pos);
    assert_eq!(pos, Position { x: 7, y: 350, z: 1 });
    assert!(!state.changed);
}

#[test]
fn test_room_transition_without_matching_door() {
    let mut state = RoomState {
        current_room_id: Some(2),
        previous_room_id: Some(9),
        doors: vec![door(1, -100, -250)],
        changed: true,
    };
    let mut pos = Position { x: 7, y: 350, z: 1 };
    player_enters_new_room(&mut state, &mut pos);
    assert_eq!(pos, Position { x: 7, y: 350, z: 1 });
}

#[test]
fn test_room_change_consumer_is_edge_triggered() {
    let mut state = RoomState {
        current_room_id: Some(2),
        previous_room_id: Some(1),
        doors: vec![door(1, -100, -250)],
        changed: true,
    };
    let mut pos = Position { x: 0, y: 350, z: 1 };
    player_enters_new_room(&mut state, &mut pos);
    let after_first = pos;
    // A second run without a new floor-plan event moves nothing.
    player_enters_new_room(&mut state, &mut pos);
    assert_eq!(pos, after_first);
    assert!(!state.changed);
}

#[test]
fn test_door_enter_swaps_whereabouts() {
    let mut whereabouts = CurrentFloorPlan {
        you_are_here: Some(1),
        you_were_here: Some(2),
    };
    let doors = vec![door(3, 10, -250)];
    let player_pos = Position { x: 5, y: -245, z: 0 };
    let mut acts = actions();
    acts.enter = true;
    detect_player_at_door(player_pos, &doors, &acts, &mut whereabouts);
    assert_eq!(whereabouts.you_are_here, Some(3));
    assert_eq!(whereabouts.you_were_here, Some(1));
}

#[test]
fn test_door_enter_needs_enter_action() {
    let mut whereabouts = CurrentFloorPlan {
        you_are_here: Some(1),
        you_were_here: Some(2),
    };
    let doors = vec![door(3, 10, -250)];
    let player_pos = Position { x: 5, y: -245, z: 0 };
    detect_player_at_door(player_pos, &doors, &actions(), &mut whereabouts);
    assert_eq!(whereabouts.you_are_here, Some(1));
    assert_eq!(whereabouts.you_were_here, Some(2));
}

#[test]
fn test_door_enter_needs_proximity() {
    let mut whereabouts = CurrentFloorPlan {
        you_are_here: Some(1),
        you_were_here: Some(2),
    };
    let doors = vec![door(3, 500, -250)];
    let player_pos = Position { x: 0, y: 350, z: 1 };
    let mut acts = actions();
    acts.enter = true;
    detect_player_at_door(player_pos, &doors, &acts, &mut whereabouts);
    assert_eq!(whereabouts.you_are_here, Some(1));
    assert_eq!(whereabouts.you_were_here, Some(2));
}

#[test]
fn test_enter_distance_is_strict() {
    let a = Position { x: 0, y: 0, z: 0 };
    assert!(!within_enter_distance(a, Position { x: 20, y: 0, z: 0 }));
    assert!(within_enter_distance(a, Position { x: 19, y: 0, z: 0 }));
}

#[test]
fn test_zero_door_room_spawns_no_platforms() {
    let state = RoomState {
        current_room_id: Some(1),
        previous_room_id: None,
        doors: vec![],
        changed: true,
    };
    let platforms = spawn_platforms(&state);
    assert_eq!(platforms.len(), 0);
}

#[test]
fn test_platforms_stand_beneath_their_doors() {
    let state = RoomState {
        current_room_id: Some(1),
        previous_room_id: None,
        doors: vec![door(2, -100, -250), door(3, 100, -250)],
        changed: true,
    };
    let platforms = spawn_platforms(&state);
    assert_eq!(platforms.len(), 2);
    assert_eq!(platforms[0].position, Position { x: -100, y: -300, z: 0 });
    assert_eq!(platforms[0].door_room_id, 2);
    assert_eq!(platforms[1].position, Position { x: 100, y: -300, z: 0 });
    assert_eq!(platforms[1].door_room_id, 3);
}

#[test]
fn test_update_room_lays_out_doors_evenly() {
    let plan = FloorPlan {
        id: 1,
        rooms: vec![
            Room { id: 1, doors: vec![door(2, 0, 0), door(3, 0, 0)] },
            Room { id: 2, doors: vec![door(1, 0, 0)] },
        ],
    };
    let whereabouts = CurrentFloorPlan {
        you_are_here: Some(1),
        you_were_here: None,
    };
    let mut state = RoomState {
        current_room_id: None,
        previous_room_id: None,
        doors: vec![],
        changed: false,
    };
    update_room(&mut state, &plan, &whereabouts);
    assert!(state.changed);
    assert_eq!(state.current_room_id, Some(1));
    assert_eq!(state.previous_room_id, None);
    // Two doors, a full spacing apart and centred on the origin.
    assert_eq!(state.doors.len(), 2);
    assert_eq!(state.doors[0], door(2, -100, DOOR_LEVEL));
    assert_eq!(state.doors[1], door(3, 100, DOOR_LEVEL));
}

#[test]
fn test_update_room_with_unknown_room() {
    let plan = FloorPlan {
        id: 1,
        rooms: vec![Room { id: 2, doors: vec![door(1, 0, 0)] }],
    };
    let whereabouts = CurrentFloorPlan {
        you_are_here: Some(9),
        you_were_here: None,
    };
    let mut state = RoomState {
        current_room_id: None,
        previous_room_id: None,
        doors: vec![door(5, 0, 0)],
        changed: false,
    };
    update_room(&mut state, &plan, &whereabouts);
    assert!(state.changed);
    assert_eq!(state.doors.len(), 0);
}

#[test]
fn test_floor_plan_events_last_wins() {
    let mut events = vec![
        FloorPlanEvent {
            plan: FloorPlan { id: 1, rooms: vec![Room { id: 1, doors: vec![door(2, 0, 0)] }] },
        },
        FloorPlanEvent {
            plan: FloorPlan {
                id: 2,
                rooms: vec![Room { id: 1, doors: vec![door(2, 0, 0), door(3, 0, 0)] }],
            },
        },
    ];
    let whereabouts = CurrentFloorPlan {
        you_are_here: Some(1),
        you_were_here: None,
    };
    let mut state = RoomState {
        current_room_id: None,
        previous_room_id: None,
        doors: vec![],
        changed: false,
    };
    let got = handle_floor_plan_changes(&mut events, &mut state, &whereabouts);
    assert!(got);
    assert_eq!(events.len(), 0);
    assert_eq!(state.doors.len(), 2);
}

#[test]
fn test_movement_force() {
    let mut acts = actions();
    acts.jump = true;
    let f = player_movement(true, &acts);
    assert_eq!((f.x, f.y), (0, 1000));
    // A jump without ground under the player does nothing.
    let f = player_movement(false, &acts);
    assert_eq!((f.x, f.y), (0, 0));
    let mut acts = actions();
    acts.move_left = true;
    let f = player_movement(false, &acts);
    assert_eq!((f.x, f.y), (-300, 0));
    acts.move_right = true;
    // Both horizontal actions add up and cancel.
    let f = player_movement(false, &acts);
    assert_eq!((f.x, f.y), (0, 0));
}

#[test]
fn test_pause_toggle() {
    assert_eq!(toggle_pause(GameState::InGame), GameState::Paused);
    assert_eq!(toggle_pause(GameState::Paused), GameState::InGame);
    assert_eq!(
        toggle_pause(GameState::TransitioningIn),
        GameState::TransitioningIn
    );
}

#[test]
fn test_room_change_chain() {
    // Request honoured only during play.
    assert_eq!(request_room_change(GameState::InGame), GameState::RoomChange);
    assert_eq!(request_room_change(GameState::Paused), GameState::Paused);
    // The chain runs room-change, out, in, back to play as fades complete.
    let mut fade = Fade { alpha: 0 };
    let mut s = state_step(GameState::RoomChange, &mut fade);
    assert_eq!(s, GameState::TransitioningOut);
    let mut steps: u32 = 0;
    while s == GameState::TransitioningOut {
        s = state_step(s, &mut fade);
        steps += 1;
        assert!(steps <= 100);
    }
    assert_eq!(s, GameState::TransitioningIn);
    assert_eq!(fade.alpha, 100);
    while s == GameState::TransitioningIn {
        s = state_step(s, &mut fade);
        steps += 1;
        assert!(steps <= 200);
    }
    assert_eq!(s, GameState::InGame);
    assert_eq!(fade.alpha, 0);
}

#[test]
fn test_choose_generator() {
    assert_eq!(
        choose_generator(Some(GeneratorRequest::LiveTelemetry), true),
        GeneratorKind::LiveTelemetry
    );
    assert_eq!(
        choose_generator(Some(GeneratorRequest::FileReplay), true),
        GeneratorKind::FileReplay
    );
    assert_eq!(choose_generator(None, true), GeneratorKind::FileReplay);
    assert_eq!(
        choose_generator(Some(GeneratorRequest::LiveTelemetry), false),
        GeneratorKind::TestMode
    );
}

#[test]
fn test_tick_runs_room_change_on_floor_plan_event() {
    let mut sim = Simulation::new();
    sim.enqueue_floor_plan(FloorPlanEvent {
        plan: FloorPlan { id: 1, rooms: vec![Room { id: 1, doors: vec![door(2, 0, 0)] }] },
    });
    sim.tick(&actions());
    // The event was drained, the model updated and the transition begun.
    assert_eq!(sim.plan_events.len(), 0);
    assert!(!sim.room_state.changed);
    assert_eq!(sim.game_state, GameState::TransitioningOut);
    // Nobody is anywhere yet, so the active room has no doors.
    assert_eq!(sim.room_state.doors.len(), 0);
    // Movement is not permitted outside play.
    let rec = sim.world.entities[sim.player];
    assert_eq!((rec.force.x, rec.force.y), (0, 0));
}

#[test]
fn test_tick_grounds_player_from_contact() {
    let mut sim = Simulation::new();
    // Entity 0 is the ground, far below the player.
    sim.enqueue_contact(Contact {
        entity1: sim.player,
        entity2: 0,
        is_sensor: false,
    });
    sim.tick(&actions());
    assert!(sim.world.entities[sim.player].grounded);
    assert_eq!(sim.contacts.len(), 0);
    // The grounded flag is per tick: it falls without a new contact.
    sim.tick(&actions());
    assert!(!sim.world.entities[sim.player].grounded);
}

#[test]
fn test_tick_movement_during_play() {
    let mut sim = Simulation::new();
    let mut acts = actions();
    acts.move_right = true;
    sim.tick(&acts);
    let rec = sim.world.entities[sim.player];
    assert_eq!((rec.force.x, rec.force.y), (300, 0));
}

#[test]
fn test_tick_pause_gates_movement() {
    let mut sim = Simulation::new();
    let mut acts = actions();
    acts.pause_toggle = true;
    acts.move_right = true;
    sim.tick(&acts);
    assert_eq!(sim.game_state, GameState::Paused);
    let rec = sim.world.entities[sim.player];
    assert_eq!((rec.force.x, rec.force.y), (0, 0));
}
