//! Core logic of a 2D platformer in which rooms are linked by doors.
//!
//! A floor-plan source (telemetry or file replay, both outside this crate)
//! emits replacement floor plans; the room model applies each snapshot
//! wholesale, lays out the doors of the active room, and raises a one-shot
//! "changed" edge. A spawner derives one platform beneath every door, a
//! player tracker relocates the player on room entry and keeps a per-tick
//! grounded flag from the collision feed, and a small state machine gates
//! movement and spawning behind pause and fade phases. The simulation
//! module ties the stages together in the fixed order the design requires:
//! room-model update before platform spawning before any reader of the new
//! door list.

pub mod geometry;
pub mod room;
pub mod doors;
pub mod collision;
pub mod player;
pub mod state;
pub mod sim;
