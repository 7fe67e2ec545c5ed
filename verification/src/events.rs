//! Plain event payloads a host exchanges with the engine: requests to move
//! on, a picked choice, and the choice list reached by a conversation.

use vstd::prelude::*;
use crate::script::ActionId;
use crate::script::Choice;

verus! {

/// A host's request to advance the current conversation by one line.
pub struct NextActionEvent;

/// A choice picked by the player, carrying the target id to jump to.
pub struct ChoicePickedEvent(pub ActionId);

/// Raised when a conversation reaches a choice node, carrying the choices to
/// present, in authored order.
pub struct ChoicesReachedEvent(pub Vec<Choice>);

} // verus!
