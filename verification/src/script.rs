//! The raw, author-facing script shape: a flat ordered list of tagged entries
//! (actor lines and player choice sets) plus an actor lookup table.

use vstd::prelude::*;

verus! {

/// Identifier of one script entry; author-supplied and unique across a script.
pub type ActionId = i32;

/// A named speaker, referenced from actor lines by its string key in the actor table.
#[derive(Clone, Debug, Default, PartialEq)]
pub struct Actor {
    /// Display name of the speaker.
    pub name: String,
    /// Asset reference for the speaker (a portrait file, for instance).
    pub asset: String,
}

/// One selectable option of a player entry: display text plus the id of the
/// entry the conversation moves to when it is picked.
#[derive(Clone, Debug, Default, PartialEq)]
pub struct Choice {
    /// Text shown to the player for this option.
    pub text: String,
    /// Identifier of the entry this choice leads to.
    pub next: ActionId,
}

/// An actor line: something said on screen, with optional speakers and an
/// optional explicit successor.
#[derive(Clone, Debug, Default, PartialEq)]
pub struct ActorAction {
    /// Identifier of this entry.
    pub id: ActionId,
    /// Display text of the line, if any.
    pub text: Option<String>,
    /// Keys into the actor table of the speakers of this line, if any.
    pub actors: Option<Vec<String>>,
    /// Identifier of the explicit successor; when absent, the entry that
    /// follows in authoring order becomes the successor.
    pub next: Option<ActionId>,
    /// Whether this entry is the designated start of the conversation.
    pub start: Option<bool>,
}

/// A player entry: an ordered list of choices. Every exit of a player entry
/// that the player can take is one of its choices.
#[derive(Clone, Debug, Default, PartialEq)]
pub struct PlayerAction {
    /// Identifier of this entry.
    pub id: ActionId,
    /// The options offered to the player, in presentation order.
    pub choices: Vec<Choice>,
    /// Whether this entry is the designated start of the conversation.
    pub start: Option<bool>,
}

/// One unit of authored script: either an actor line or a player choice set.
#[derive(Clone, Debug, PartialEq)]
pub enum ActorOrPlayerActionJSON {
    /// An actor line.
    Actor(ActorAction),
    /// A player choice set.
    Player(PlayerAction),
}

/// A whole authored script: the actor table plus the ordered entry list.
#[derive(Clone, Debug, Default, PartialEq)]
pub struct RawScript {
    /// The actor table: string key to actor record, looked up by actor lines.
    /// When a key occurs twice, the first record wins.
    pub actors: Vec<(String, Actor)>,
    /// The entries, in authoring order.
    pub script: Vec<ActorOrPlayerActionJSON>,
}

impl ActorOrPlayerActionJSON {
    /// The entry's identifier.
    pub open spec fn spec_id(self) -> ActionId {
        match self {
            ActorOrPlayerActionJSON::Actor(a) => a.id,
            ActorOrPlayerActionJSON::Player(p) => p.id,
        }
    }

    /// The entry's start flag, as authored.
    pub open spec fn spec_start(self) -> Option<bool> {
        match self {
            ActorOrPlayerActionJSON::Actor(a) => a.start,
            ActorOrPlayerActionJSON::Player(p) => p.start,
        }
    }

    /// Whether the entry is flagged as the conversation's start.
    pub open spec fn is_start(self) -> bool {
        self.spec_start() == Some(true)
    }

    /// The entry's explicit successor id. A player entry never has one: its
    /// exits are its choices (plus the positional chain while building).
    pub open spec fn spec_next(self) -> Option<ActionId> {
        match self {
            ActorOrPlayerActionJSON::Actor(a) => a.next,
            ActorOrPlayerActionJSON::Player(_) => None,
        }
    }

    /// The entry's choice list: a player entry's choices, an empty sequence
    /// for an actor line.
    pub open spec fn spec_choices(self) -> Seq<Choice> {
        match self {
            ActorOrPlayerActionJSON::Actor(_) => Seq::empty(),
            ActorOrPlayerActionJSON::Player(p) => p.choices@,
        }
    }

    /// The keys of the actors this entry references: an actor line's list, an
    /// empty sequence for a player entry or an actor line without speakers.
    pub open spec fn spec_actor_refs(self) -> Seq<String> {
        match self {
            ActorOrPlayerActionJSON::Actor(a) => match a.actors {
                Some(v) => v@,
                None => Seq::empty(),
            },
            ActorOrPlayerActionJSON::Player(_) => Seq::empty(),
        }
    }

    /// The entry's identifier.
    pub fn id(&self) -> (r: ActionId)
        ensures
            r == self.spec_id(),
    {
        match self {
            ActorOrPlayerActionJSON::Actor(a) => a.id,
            ActorOrPlayerActionJSON::Player(p) => p.id,
        }
    }

    /// The entry's start flag, as authored.
    pub fn start(&self) -> (r: Option<bool>)
        ensures
            r == self.spec_start(),
    {
        match self {
            ActorOrPlayerActionJSON::Actor(a) => a.start,
            ActorOrPlayerActionJSON::Player(p) => p.start,
        }
    }

    /// The entry's explicit successor id, when it has one.
    pub fn next(&self) -> (r: Option<ActionId>)
        ensures
            r == self.spec_next(),
    {
        match self {
            ActorOrPlayerActionJSON::Actor(a) => a.next,
            ActorOrPlayerActionJSON::Player(_) => None,
        }
    }
}

} // verus!
