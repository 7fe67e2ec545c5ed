use talks::conversation::Conversation;
use talks::errors::ConversationError;
use talks::script::ActorAction;
use talks::script::ActorOrPlayerActionJSON;
use talks::script::Choice;
use talks::script::PlayerAction;
use talks::script::RawScript;

fn line(id: i32, next: Option<i32>, start: bool) -> ActorOrPlayerActionJSON {
    ActorOrPlayerActionJSON::Actor(ActorAction {
        id,
        next,
        start: if start { Some(true) } else { None },
        ..Default::default()
    })
}

// the single self-loop entry: one node, one edge, cursor on node 1, and
// advancing follows the loop back to the same node
#[test]
fn e2e_self_loop() {
    let raw = RawScript {
        actors: Default::default(),
        script: vec![line(1, Some(1), true)],
    };
    let mut convo = Conversation::new(raw).unwrap();
    assert_eq!(convo.node_count(), 1);
    assert_eq!(convo.edge_count(), 1);
    assert_eq!(convo.current_index(), 0);
    assert!(convo.next_line().is_ok());
    assert_eq!(convo.current_index(), 0);
}

// two nodes, one edge; the first advance moves the cursor, the second fails
// with no-next and leaves it where it was
#[test]
fn e2e_two_nodes() {
    let raw = RawScript {
        actors: Default::default(),
        script: vec![line(1, Some(2), true), line(2, None, false)],
    };
    let mut convo = Conversation::new(raw).unwrap();
    assert_eq!(convo.node_count(), 2);
    assert_eq!(convo.edge_count(), 1);
    assert!(convo.next_line().is_ok());
    assert_eq!(convo.current_index(), 1);
    assert_eq!(
        convo.next_line().err(),
        Some(ConversationError::NoNextDialogue)
    );
    assert_eq!(convo.current_index(), 1);
}

// the branching script of the spec: 3 nodes, 4 edges (two choice edges, the
// player entry's positional chain edge, and the chain edge from 2 to 3);
// choices come back in authored order and a jump lands on the id's node
#[test]
fn e2e_branching() {
    let raw = RawScript {
        actors: Default::default(),
        script: vec![
            ActorOrPlayerActionJSON::Player(PlayerAction {
                id: 1,
                choices: vec![
                    Choice {
                        text: "Choice 1".to_string(),
                        next: 2,
                    },
                    Choice {
                        text: "Choice 2".to_string(),
                        next: 3,
                    },
                ],
                start: Some(true),
            }),
            line(2, None, false),
            line(3, None, false),
        ],
    };
    let mut convo = Conversation::new(raw).unwrap();
    assert_eq!(convo.node_count(), 3);
    assert_eq!(convo.edge_count(), 4);
    let cs = convo.choices().unwrap();
    assert_eq!(cs.len(), 2);
    assert_eq!(cs[0].text, "Choice 1");
    assert_eq!(cs[0].next, 2);
    assert_eq!(cs[1].text, "Choice 2");
    assert_eq!(cs[1].next, 3);
    assert!(convo.jump_to(3).is_ok());
    assert_eq!(convo.current_index(), 2);
}

// an actor line without an explicit next chains to the entry right after it,
// and the closing entry has no outgoing edge
#[test]
fn implicit_chaining_wires_following_entry() {
    let raw = RawScript {
        actors: Default::default(),
        script: vec![line(10, None, true), line(20, None, false)],
    };
    let mut convo = Conversation::new(raw).unwrap();
    assert_eq!(convo.edge_count(), 1);
    assert!(convo.next_line().is_ok());
    assert_eq!(convo.current_index(), 1);
    assert_eq!(
        convo.next_line().err(),
        Some(ConversationError::NoNextDialogue)
    );
}

// advance on a choice node fails with choices-not-handled; choices on a line
// node fails with no-choices; the cursor stays put on both
#[test]
fn mode_enforcement() {
    let raw = RawScript {
        actors: Default::default(),
        script: vec![
            ActorOrPlayerActionJSON::Player(PlayerAction {
                id: 1,
                choices: vec![Choice {
                    text: "go".to_string(),
                    next: 2,
                }],
                start: Some(true),
            }),
            line(2, None, false),
        ],
    };
    let mut convo = Conversation::new(raw).unwrap();
    assert_eq!(
        convo.next_line().err(),
        Some(ConversationError::ChoicesNotHandled)
    );
    assert_eq!(convo.current_index(), 0);
    assert!(convo.jump_to(2).is_ok());
    assert_eq!(convo.choices().err(), Some(ConversationError::NoChoices));
    assert_eq!(convo.current_index(), 1);
}

// a jump needs no edge between the two nodes; a jump to an absent id fails
// with wrong-jump and leaves the cursor unchanged
#[test]
fn jump_ignores_edges_and_rejects_absent_ids() {
    let raw = RawScript {
        actors: Default::default(),
        script: vec![line(1, None, true), line(2, None, false), line(7, None, false)],
    };
    let mut convo = Conversation::new(raw).unwrap();
    assert!(convo.jump_to(7).is_ok());
    assert_eq!(convo.current_index(), 2);
    assert_eq!(convo.jump_to(99).err(), Some(ConversationError::WrongJump(99)));
    assert_eq!(convo.current_index(), 2);
    assert!(convo.jump_to(1).is_ok());
    assert_eq!(convo.current_index(), 0);
}

// a player entry that is not last also carries the positional chain edge, so
// its fan-out is its choice count plus one; a last player entry has exactly
// its choice count
#[test]
fn branch_fan_out_counts() {
    let not_last = RawScript {
        actors: Default::default(),
        script: vec![
            ActorOrPlayerActionJSON::Player(PlayerAction {
                id: 1,
                choices: vec![
                    Choice {
                        text: "a".to_string(),
                        next: 2,
                    },
                    Choice {
                        text: "b".to_string(),
                        next: 2,
                    },
                    Choice {
                        text: "c".to_string(),
                        next: 2,
                    },
                ],
                start: Some(true),
            }),
            line(2, None, false),
        ],
    };
    let convo = Conversation::new(not_last).unwrap();
    assert_eq!(convo.edge_count(), 4);

    let last = RawScript {
        actors: Default::default(),
        script: vec![
            line(2, Some(2), true),
            ActorOrPlayerActionJSON::Player(PlayerAction {
                id: 1,
                choices: vec![
                    Choice {
                        text: "a".to_string(),
                        next: 2,
                    },
                    Choice {
                        text: "b".to_string(),
                        next: 2,
                    },
                ],
                start: None,
            }),
        ],
    };
    let convo = Conversation::new(last).unwrap();
    assert_eq!(convo.edge_count(), 3);
}
