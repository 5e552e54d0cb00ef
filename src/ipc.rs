//! Data exchanged with the main application over the overlay's socket.

use vstd::prelude::*;

verus! {

/// What the character is doing.
#[derive(Clone, Copy, Debug, PartialEq, Eq, Structural)]
pub enum AnimationState {
    Idle,
    Thinking,
    Talking,
    Listening,
}

/// An event from the overlay to the main application.
#[derive(Clone, Debug, PartialEq, Eq)]
pub enum OverlayEvent {
    /// The user clicked the pet.
    Clicked,
    /// The named animation finished.
    AnimationComplete(String),
    /// The overlay is ready.
    Ready,
    /// Something failed.
    Error(String),
}

} // verus!
