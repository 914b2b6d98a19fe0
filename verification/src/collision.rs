//! Entities, the collision feed, and the per-tick grounded test.
//!
//! Entities live in one arena and are tagged with their kind. A contact
//! record names the two entities that touched. The grounded test guards
//! against lateral wall contacts: only a floor or platform strictly below
//! the player counts as support.

use vstd::prelude::*;

verus! {

use crate::geometry::Position;
use crate::player::Force;

/// What an entity in the arena is.
#[derive(Clone, Copy, PartialEq, Eq, Structural, Debug)]
pub enum EntityKind {
    /// The movable player.
    Player,
    /// The ground of the world.
    Floor,
    /// A platform spawned beneath a door.
    Platform,
    /// A wall or ceiling boundary; never counts as support.
    Wall,
}

/// An entity of the arena: its kind and its typed attributes.
#[derive(Clone, Copy, PartialEq, Eq, Structural, Debug)]
pub struct EntityRec {
    pub kind: EntityKind,
    pub position: Position,
    /// Per-tick support flag; meaningful for the player only.
    pub grounded: bool,
    /// Movement-force accumulator; meaningful for the player only.
    pub force: Force,
}

/// One record of the physics collision feed.
#[derive(Clone, Copy, PartialEq, Eq, Structural, Debug)]
pub struct Contact {
    /// Arena index of the first touching entity.
    pub entity1: usize,
    /// Arena index of the second touching entity.
    pub entity2: usize,
    /// Sensor contacts carry no physical touch and never ground.
    pub is_sensor: bool,
}

/// The entity can carry the player: a floor or a platform.
pub open spec fn is_support(kind: EntityKind) -> bool {
    kind == EntityKind::Floor || kind == EntityKind::Platform
}

/// Entity `e` supports a player whose vertical position is `player_y`:
/// it exists, it is a floor or platform, and the player is strictly above it.
pub open spec fn supports_from_below(entities: Seq<EntityRec>, e: int, player_y: int) -> bool {
    &&& 0 <= e < entities.len()
    &&& is_support(entities[e].kind)
    &&& player_y > entities[e].position.y
}

/// The contact grounds the player this tick: it is no sensor contact, the
/// player is one of the touching entities, and the other side includes a
/// floor or platform strictly below the player.
pub open spec fn grounding_contact(
    entities: Seq<EntityRec>,
    player: int,
    player_y: int,
    c: Contact,
) -> bool {
    &&& !c.is_sensor
    &&& (c.entity1 == player || c.entity2 == player)
    &&& (supports_from_below(entities, c.entity1 as int, player_y)
        || supports_from_below(entities, c.entity2 as int, player_y))
}

/// Looks up whether entity `e` is a floor or platform strictly below a
/// player at height `player_y`.
fn entity_supports(entities: &Vec<EntityRec>, e: usize, player_y: i64) -> (r: bool)
    ensures
        r == supports_from_below(entities@, e as int, player_y as int),
{
    if e < entities.len() {
        let rec = entities[e];
        let support: bool = match rec.kind {
            EntityKind::Floor => true,
            EntityKind::Platform => true,
            _ => false,
        };
        support && player_y > rec.position.y
    } else {
        false
    }
}

/// Recomputes the player's grounded flag from this tick's collision feed:
/// grounded exactly when some contact of the feed grounds the player. A
/// tick without a qualifying contact leaves the player ungrounded.
pub fn check_grounded(
    entities: &Vec<EntityRec>,
    player: usize,
    player_y: i64,
    contacts: &Vec<Contact>,
) -> (grounded: bool)
    ensures
        grounded == exists|k: int|
            0 <= k < contacts@.len()
                && grounding_contact(entities@, player as int, player_y as int, #[trigger] contacts@[k]),
{
    let n: usize = contacts.len();
    let mut grounded: bool = false;
    let mut k: usize = 0;
    while k < n
        invariant
            k <= n,
            n == contacts@.len(),
            grounded == exists|j: int|
                0 <= j < k
                    && grounding_contact(entities@, player as int, player_y as int, #[trigger] contacts@[j]),
        decreases n - k,
    {
        let c = contacts[k];
        if !c.is_sensor && (c.entity1 == player || c.entity2 == player) {
            if entity_supports(entities, c.entity1, player_y)
                || entity_supports(entities, c.entity2, player_y) {
                grounded = true;
            }
        }
        k = k + 1;
    }
    grounded
}

} // verus!
