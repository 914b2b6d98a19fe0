//! The game-state machine and the fade overlay that drives it.
//!
//! Exactly one phase is active at a time. Pausing toggles between play and
//! pause and leaves every other phase alone. A room change runs through
//! the chain room-change, transitioning-out, transitioning-in, back to
//! play: the room-change phase does its spawning work on entry and yields
//! on the next step, and each transitional phase ends when its fade
//! animation completes.

use vstd::prelude::*;

verus! {

/// The mutually exclusive phases of the game.
#[derive(Clone, Copy, PartialEq, Eq, Structural, Debug)]
pub enum GameState {
    /// Normal play; the only phase in which the player may move.
    InGame,
    /// Play suspended behind the pause overlay.
    Paused,
    /// A room transition has begun; spawning runs on entry to this phase.
    RoomChange,
    /// The fade overlay darkens towards fully opaque.
    TransitioningOut,
    /// The fade overlay clears towards fully transparent.
    TransitioningIn,
}

/// Opacity of the fade overlay when fully opaque, in percent.
pub const FADE_FULL: u8 = 100;

/// Opacity change of the fade overlay per simulation tick, in percent.
pub const FADE_STEP: u8 = 5;

/// The fade overlay: its opacity in percent, `0` fully transparent.
#[derive(Clone, Copy, PartialEq, Eq, Structural, Debug)]
pub struct Fade {
    pub alpha: u8,
}

/// The overlay's opacity stays within percent range.
pub open spec fn wf_fade(f: Fade) -> bool {
    f.alpha <= FADE_FULL
}

/// The phase after a pause toggle: play and pause swap, every other phase
/// is left alone.
pub open spec fn spec_toggle_pause(s: GameState) -> GameState {
    match s {
        GameState::InGame => GameState::Paused,
        GameState::Paused => GameState::InGame,
        _ => s,
    }
}

/// Toggles the pause overlay.
pub fn toggle_pause(s: GameState) -> (r: GameState)
    ensures
        r == spec_toggle_pause(s),
{
    match s {
        GameState::InGame => GameState::Paused,
        GameState::Paused => GameState::InGame,
        _ => s,
    }
}

/// The phase after a room change is requested: a request is honoured only
/// during play, so a transition already under way is never superseded.
pub open spec fn spec_request_room_change(s: GameState) -> GameState {
    if s == GameState::InGame {
        GameState::RoomChange
    } else {
        s
    }
}

/// Requests a room change; honoured only during play.
pub fn request_room_change(s: GameState) -> (r: GameState)
    ensures
        r == spec_request_room_change(s),
{
    match s {
        GameState::InGame => GameState::RoomChange,
        _ => s,
    }
}

/// One step of the state machine and overlay: the room-change phase yields
/// to transitioning-out, transitioning-out darkens the overlay and ends at
/// full opacity, transitioning-in clears it and returns to play at full
/// transparency; play and pause hold still.
pub open spec fn spec_state_step(s: GameState, alpha: u8) -> (GameState, u8) {
    match s {
        GameState::RoomChange => (GameState::TransitioningOut, alpha),
        GameState::TransitioningOut => {
            let a = if alpha + FADE_STEP <= FADE_FULL { (alpha + FADE_STEP) as u8 } else { FADE_FULL };
            if a == FADE_FULL {
                (GameState::TransitioningIn, a)
            } else {
                (GameState::TransitioningOut, a)
            }
        },
        GameState::TransitioningIn => {
            let a = if alpha >= FADE_STEP { (alpha - FADE_STEP) as u8 } else { 0 };
            if a == 0 {
                (GameState::InGame, a)
            } else {
                (GameState::TransitioningIn, a)
            }
        },
        _ => (s, alpha),
    }
}

/// Advances the state machine by one tick and updates the fade overlay.
pub fn state_step(s: GameState, fade: &mut Fade) -> (r: GameState)
    ensures
        (r, final(fade).alpha) == spec_state_step(s, old(fade).alpha),
{
    match s {
        GameState::RoomChange => GameState::TransitioningOut,
        GameState::TransitioningOut => {
            if fade.alpha <= FADE_FULL - FADE_STEP {
                fade.alpha = fade.alpha + FADE_STEP;
            } else {
                fade.alpha = FADE_FULL;
            }
            if fade.alpha == FADE_FULL {
                GameState::TransitioningIn
            } else {
                GameState::TransitioningOut
            }
        },
        GameState::TransitioningIn => {
            if fade.alpha >= FADE_STEP {
                fade.alpha = fade.alpha - FADE_STEP;
            } else {
                fade.alpha = 0;
            }
            if fade.alpha == 0 {
                GameState::InGame
            } else {
                GameState::TransitioningIn
            }
        },
        _ => s,
    }
}

/// Stepping keeps the overlay within percent range.
pub proof fn lemma_state_step_wf(s: GameState, alpha: u8)
    requires
        alpha <= FADE_FULL,
    ensures
        spec_state_step(s, alpha).1 <= FADE_FULL,
{
}

/// Only play permits movement.
pub open spec fn movement_allowed(s: GameState) -> bool {
    s == GameState::InGame
}

/// Spawning runs only on entry to the room-change phase.
pub open spec fn spawning_allowed(s: GameState) -> bool {
    s == GameState::RoomChange
}

} // verus!
