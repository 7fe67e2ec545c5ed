//! The talker: the bundle of state a host entity carries to show one
//! conversation, plus the two marker components that drive it.

use vstd::prelude::*;
use crate::conversation::Conversation;

verus! {

/// Everything an entity needs to show a conversation: the conversation
/// itself and the two flags the host toggles around it.
pub struct TalkerBundle {
    /// The conversation to show.
    pub conversation: Conversation,
    /// Whether the talker is currently active.
    pub activated: Activated,
    /// Whether the talker can be interacted with.
    pub interaction: Interaction,
}

/// Whether a talker is active, that is, currently being listened to.
#[derive(Clone, Copy, Debug, Default, PartialEq, Eq, Structural)]
pub struct Activated(pub bool);

/// Marks a talker as interactable.
#[derive(Clone, Copy, Debug, Default, PartialEq, Eq, Structural)]
pub struct Interaction;

} // verus!
