use platform_rooms::collision::{check_grounded, Contact, EntityKind, EntityRec};
use platform_rooms::geometry::{Position, WINDOW_HEIGHT};
use platform_rooms::player::{ActionState, Force};
use platform_rooms::sim::{count_player_entities, Simulation};

fn rec(kind: EntityKind, x: i64, y: i64, z: i64) -> EntityRec {
    EntityRec {
        kind,
        position: Position { x, y, z },
        grounded: false,
        force: Force { x: 0, y: 0 },
    }
}

#[test]
fn test_player_gets_grounded_on_collision() {
    // A movable player positioned above the ground.
    let entities = vec![
        rec(EntityKind::Player, 0, 1, 0),
        rec(EntityKind::Floor, 0, 0, 0),
    ];
    // A collision where the player lands on the ground.
    let contacts = vec![Contact {
        entity1: 0,
        entity2: 1,
        is_sensor: false,
    }];
    let grounded = check_grounded(&entities, 0, 1, &contacts);
    assert!(grounded, "Player should be grounded after collision.");
}

#[test]
fn test_player_remains_ungrounded_without_collision() {
    let entities = vec![
        rec(EntityKind::Player, 0, 1, 0),
        rec(EntityKind::Floor, 0, 0, 0),
    ];
    let contacts: Vec<Contact> = vec![];
    let grounded = check_grounded(&entities, 0, 1, &contacts);
    assert!(
        !grounded,
        "Player should remain ungrounded without collision."
    );
}

#[test]
fn test_sensor_contact_does_not_ground() {
    let entities = vec![
        rec(EntityKind::Player, 0, 1, 0),
        rec(EntityKind::Floor, 0, 0, 0),
    ];
    let contacts = vec![Contact {
        entity1: 0,
        entity2: 1,
        is_sensor: true,
    }];
    assert!(!check_grounded(&entities, 0, 1, &contacts));
}

#[test]
fn test_wall_contact_does_not_ground() {
    // A lateral wall touch must not read as ground contact.
    let entities = vec![
        rec(EntityKind::Player, 0, 1, 0),
        rec(EntityKind::Wall, 1, 0, 0),
    ];
    let contacts = vec![Contact {
        entity1: 0,
        entity2: 1,
        is_sensor: false,
    }];
    assert!(!check_grounded(&entities, 0, 1, &contacts));
}

#[test]
fn test_contact_from_below_does_not_ground() {
    // Touching a platform from beneath it is no support.
    let entities = vec![
        rec(EntityKind::Player, 0, 1, 0),
        rec(EntityKind::Platform, 0, 5, 0),
    ];
    let contacts = vec![Contact {
        entity1: 0,
        entity2: 1,
        is_sensor: false,
    }];
    assert!(!check_grounded(&entities, 0, 1, &contacts));
}

#[test]
fn test_platform_contact_grounds() {
    let entities = vec![
        rec(EntityKind::Player, 0, 10, 0),
        rec(EntityKind::Platform, 0, 5, 0),
    ];
    let contacts = vec![Contact {
        entity1: 1,
        entity2: 0,
        is_sensor: false,
    }];
    assert!(check_grounded(&entities, 0, 10, &contacts));
}

#[test]
fn test_player_spawning() {
    let sim = Simulation::new();
    let players = count_player_entities(&sim.world);
    assert_eq!(players, 1, "Expected 1 player, found {}", players);
    let transform = sim.world.entities[sim.player].position;
    assert_eq!(transform.x, 0);
    assert_eq!(transform.y, WINDOW_HEIGHT / 2 - 50);
}

#[test]
fn test_input_handling() {
    let sim = Simulation::new();
    let players = count_player_entities(&sim.world);
    assert_eq!(players, 1, "Expected 1 player, found {}", players);
    let action_state = ActionState::default();
    assert!(!action_state.move_left);
    assert!(!action_state.move_right);
    assert!(!action_state.jump);
}
