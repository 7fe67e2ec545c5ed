//! The two closed error taxonomies: construction-time failures, which abort a
//! build atomically, and traversal-time failures, which leave the cursor where
//! it was.

use vstd::prelude::*;
use crate::script::ActionId;

verus! {

/// A structural problem found while turning a raw script into a graph.
/// Construction is all-or-nothing: on any of these, no instance is returned.
#[derive(Clone, Debug, PartialEq)]
pub enum ScriptParsingError {
    /// The script holds no entry at all.
    EmptyScript,
    /// Two entries carry the same id; the offending id is carried.
    RepeatedId(ActionId),
    /// An actor line references a key missing from the actor table; carries
    /// the entry's id and the missing key.
    ActorNotFound(ActionId, String),
    /// More than one entry is flagged as the start.
    MultipleStartingAction,
    /// A successor reference names no existing entry; carries the source
    /// entry's id and the missing target id.
    NextActionNotFound(ActionId, ActionId),
    /// No entry is flagged as the start.
    NoStartingAction,
}

/// A misuse of the traversal API or a bad jump target. The conversation stays
/// usable and the cursor is unchanged on any of these.
#[derive(Clone, Debug, PartialEq)]
pub enum ConversationError {
    /// The cursor points outside the graph. Unreachable under correct
    /// construction; kept as a defensive check.
    InvalidDialogue,
    /// `next_line` was called while the current node offers choices; the
    /// caller must inspect the choices and jump instead.
    ChoicesNotHandled,
    /// The current line node has no successor: the conversation is over.
    NoNextDialogue,
    /// `choices` was called on a node that offers none.
    NoChoices,
    /// A jump named an id that no node carries; the id is carried back.
    WrongJump(ActionId),
}

} // verus!
