use talks::conversation::Conversation;
use talks::errors::ScriptParsingError;
use talks::script::Actor;
use talks::script::ActorAction;
use talks::script::ActorOrPlayerActionJSON;
use talks::script::Choice;
use talks::script::PlayerAction;
use talks::script::RawScript;

fn an_actors_map(name: String) -> Vec<(String, Actor)> {
    vec![(
        name,
        Actor {
            name: "Bob".to_string(),
            asset: "bob.png".to_string(),
        },
    )]
}

// 'new' tests
#[test]
fn no_script_err() {
    let raw_script = RawScript {
        actors: Default::default(),
        script: Default::default(),
    };

    let convo = Conversation::new(raw_script).err();
    assert_eq!(convo, Some(ScriptParsingError::EmptyScript));
}

#[test]
fn actor_not_found_err() {
    let raw_script = RawScript {
        actors: Default::default(),
        script: vec![ActorOrPlayerActionJSON::Actor(ActorAction {
            text: Some("Hello".to_string()),
            actors: Some(vec!["Bob".to_string()]),
            start: Some(true),
            ..Default::default()
        })],
    };

    let convo = Conversation::new(raw_script).err();
    assert_eq!(
        convo,
        Some(ScriptParsingError::ActorNotFound(0, "Bob".to_string()))
    );
}

#[test]
fn actor_not_found_with_mismath_err() {
    let raw_talk = RawScript {
        actors: an_actors_map("Bob".to_string()),
        script: vec![ActorOrPlayerActionJSON::Actor(ActorAction {
            actors: Some(vec!["Alice".to_string()]),
            start: Some(true),
            ..Default::default()
        })],
    };

    let convo = Conversation::new(raw_talk).err();
    assert_eq!(
        convo,
        Some(ScriptParsingError::ActorNotFound(0, "Alice".to_string()))
    );
}

#[test]
fn no_start_err() {
    let raw_talk = RawScript {
        actors: an_actors_map("Alice".to_string()),
        script: vec![ActorOrPlayerActionJSON::Actor(ActorAction {
            actors: Some(vec!["Alice".to_string()]),
            ..Default::default()
        })],
    };

    let convo = Conversation::new(raw_talk).err();
    assert_eq!(convo, Some(ScriptParsingError::NoStartingAction));
}

#[test]
fn multiple_start_actor_action_err() {
    let raw_talk = RawScript {
        actors: Default::default(),
        script: vec![
            ActorOrPlayerActionJSON::Actor(ActorAction {
                start: Some(true),
                ..Default::default()
            }),
            ActorOrPlayerActionJSON::Actor(ActorAction {
                start: Some(true),
                ..Default::default()
            }),
        ],
    };

    let convo = Conversation::new(raw_talk).err();
    assert_eq!(convo, Some(ScriptParsingError::MultipleStartingAction));
}

#[test]
fn multiple_start_mixed_err() {
    let raw_talk = RawScript {
        actors: Default::default(),
        script: vec![
            ActorOrPlayerActionJSON::Actor(ActorAction {
                start: Some(true),
                ..Default::default()
            }),
            ActorOrPlayerActionJSON::Player(PlayerAction {
                id: 3,
                start: Some(true),
                ..Default::default()
            }),
        ],
    };

    let convo = Conversation::new(raw_talk).err();
    assert_eq!(convo, Some(ScriptParsingError::MultipleStartingAction));
}

#[test]
fn multiple_start_player_action_err() {
    let raw_talk = RawScript {
        actors: Default::default(),
        script: vec![
            ActorOrPlayerActionJSON::Player(PlayerAction {
                start: Some(true),
                ..Default::default()
            }),
            ActorOrPlayerActionJSON::Player(PlayerAction {
                start: Some(true),
                ..Default::default()
            }),
        ],
    };

    let convo = Conversation::new(raw_talk).err();
    assert_eq!(convo, Some(ScriptParsingError::MultipleStartingAction));
}

#[test]
fn repeated_id_actor_err() {
    let raw_talk = RawScript {
        actors: Default::default(),
        script: vec![
            ActorOrPlayerActionJSON::Actor(ActorAction {
                id: 1,
                text: Some("Hello".to_string()),
                next: Some(1),
                start: Some(true),
                ..Default::default()
            }),
            ActorOrPlayerActionJSON::Actor(ActorAction {
                id: 1,
                text: Some("Whatup".to_string()),
                next: Some(2),
                ..Default::default()
            }),
        ],
    };

    let convo = Conversation::new(raw_talk).err();
    assert_eq!(convo, Some(ScriptParsingError::RepeatedId(1)));
}

#[test]
fn repeated_id_mixed_err() {
    let raw_talk = RawScript {
        actors: Default::default(),
        script: vec![
            ActorOrPlayerActionJSON::Actor(ActorAction {
                id: 1,
                text: Some("Hello".to_string()),
                next: Some(1),
                start: Some(true),
                ..Default::default()
            }),
            ActorOrPlayerActionJSON::Player(PlayerAction {
                id: 1,
                ..Default::default()
            }),
        ],
    };

    let convo = Conversation::new(raw_talk).err();
    assert_eq!(convo, Some(ScriptParsingError::RepeatedId(1)));
}

#[test]
fn repeated_id_player_err() {
    let raw_talk = RawScript {
        actors: Default::default(),
        script: vec![
            ActorOrPlayerActionJSON::Player(PlayerAction {
                id: 1,
                start: Some(true),
                ..Default::default()
            }),
            ActorOrPlayerActionJSON::Player(PlayerAction {
                id: 1,
                ..Default::default()
            }),
        ],
    };

    let convo = Conversation::new(raw_talk).err();
    assert_eq!(convo, Some(ScriptParsingError::RepeatedId(1)));
}

#[test]
fn next_actor_action_not_found_err() {
    let raw_talk = RawScript {
        actors: Default::default(),
        script: vec![ActorOrPlayerActionJSON::Actor(ActorAction {
            next: Some(2),
            start: Some(true),
            ..Default::default()
        })],
    };

    let convo = Conversation::new(raw_talk).err();
    assert_eq!(convo, Some(ScriptParsingError::NextActionNotFound(0, 2)));
}

#[test]
fn next_not_found_in_choice_err() {
    let raw_talk = RawScript {
        actors: Default::default(),
        script: vec![ActorOrPlayerActionJSON::Player(PlayerAction {
            choices: vec![Choice {
                text: "Whatup".to_string(),
                next: 2,
            }],
            start: Some(true),
            ..Default::default()
        })],
    };

    let convo = Conversation::new(raw_talk).err();
    assert_eq!(convo, Some(ScriptParsingError::NextActionNotFound(0, 2)));
}

#[test]
fn new_with_one_action() {
    let raw_talk = RawScript {
        actors: Default::default(),
        script: vec![ActorOrPlayerActionJSON::Actor(ActorAction {
            start: Some(true),
            ..Default::default()
        })],
    };

    let convo = Conversation::new(raw_talk).unwrap();
    assert_eq!(convo.node_count(), 1);
    assert_eq!(convo.edge_count(), 0);
    assert_eq!(convo.current_index(), 0);
}

#[test]
fn new_with_two_actor_action_nodes() {
    let raw_talk = RawScript {
        actors: Default::default(),
        script: vec![
            ActorOrPlayerActionJSON::Actor(ActorAction {
                id: 1,
                next: Some(2),
                start: Some(true),
                ..Default::default()
            }),
            ActorOrPlayerActionJSON::Actor(ActorAction {
                id: 2,
                ..Default::default()
            }),
        ],
    };

    let convo = Conversation::new(raw_talk).unwrap();
    assert_eq!(convo.node_count(), 2);
    assert_eq!(convo.edge_count(), 1);
}

#[test]
fn new_with_self_loop() {
    let raw_talk = RawScript {
        actors: Default::default(),
        script: vec![ActorOrPlayerActionJSON::Actor(ActorAction {
            id: 1,
            next: Some(1),
            start: Some(true),
            ..Default::default()
        })],
    };

    let convo = Conversation::new(raw_talk).unwrap();
    assert_eq!(convo.node_count(), 1);
    assert_eq!(convo.edge_count(), 1);
}

#[test]
fn new_with_branching() {
    let raw_talk = RawScript {
        actors: Default::default(),
        script: vec![
            ActorOrPlayerActionJSON::Player(PlayerAction {
                choices: vec![
                    Choice {
                        text: "Choice 1".to_string(),
                        next: 2,
                    },
                    Choice {
                        text: "Choice 2".to_string(),
                        next: 3,
                    },
                ],
                start: Some(true),
                ..Default::default()
            }),
            ActorOrPlayerActionJSON::Actor(ActorAction {
                id: 2,
                text: Some("Hello".to_string()),
                ..Default::default()
            }),
            ActorOrPlayerActionJSON::Actor(ActorAction {
                id: 3,
                ..Default::default()
            }),
        ],
    };

    let convo = Conversation::new(raw_talk).unwrap();
    assert_eq!(convo.node_count(), 3);
    assert_eq!(convo.edge_count(), 4);
    assert_eq!(convo.current_index(), 0);
}

#[test]
fn new_with_actors() {
    let actors_map = vec![
        (
            "bob".to_string(),
            Actor {
                asset: "bob.png".to_string(),
                name: "Bob".to_string(),
            },
        ),
        (
            "alice".to_string(),
            Actor {
                name: "Alice".to_string(),
                asset: "alice.png".to_string(),
            },
        ),
    ];

    let raw_talk = RawScript {
        actors: actors_map,
        script: vec![
            ActorOrPlayerActionJSON::Actor(ActorAction {
                id: 1,
                text: Some("Hello".to_string()),
                actors: Some(vec!["bob".to_string()]),
                next: Some(2),
                start: Some(true),
                ..Default::default()
            }),
            ActorOrPlayerActionJSON::Actor(ActorAction {
                id: 2,
                text: Some("Whatup".to_string()),
                actors: Some(vec!["alice".to_string()]),
                ..Default::default()
            }),
        ],
    };

    let convo = Conversation::new(raw_talk).unwrap();
    assert_eq!(convo.node_count(), 2);
    assert_eq!(convo.edge_count(), 1);
    assert_eq!(convo.current_index(), 0);
}
