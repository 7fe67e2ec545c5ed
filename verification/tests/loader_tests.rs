use talks::loader::build_talk_data;
use talks::loader::RonLoaderError;
use talks::loader::TalksLoader;
use talks::script::Actor;
use talks::script::ActorAction;
use talks::script::ActorOrPlayerActionJSON;
use talks::script::Choice;
use talks::script::PlayerAction;

fn actor(id: &str, name: &str) -> (String, Actor) {
    (
        id.to_string(),
        Actor {
            name: name.to_string(),
            asset: format!("{}.png", id),
        },
    )
}

fn line(id: i32) -> ActorOrPlayerActionJSON {
    ActorOrPlayerActionJSON::Actor(ActorAction {
        id,
        ..Default::default()
    })
}

// the shape of the sample talk file: two actors and thirteen script entries
// end up in the tables, in order
#[test]
fn builds_tables_from_parsed_lists() {
    let actors = vec![actor("bob", "Bob"), actor("alice", "Alice")];
    let mut script: Vec<ActorOrPlayerActionJSON> = (1..13).map(line).collect();
    script.push(ActorOrPlayerActionJSON::Player(PlayerAction {
        id: 13,
        choices: vec![Choice {
            text: "again".to_string(),
            next: 1,
        }],
        start: None,
    }));

    let talk = build_talk_data(&actors, &script).unwrap();
    assert_eq!(talk.num_actors(), 2);
    assert_eq!(talk.num_actions(), 13);
}

#[test]
fn duplicate_actor_id_err() {
    let actors = vec![actor("bob", "Bob"), actor("bob", "Bobby")];
    let script = vec![line(1)];
    let r = build_talk_data(&actors, &script).err();
    assert_eq!(r, Some(RonLoaderError::DuplicateActorId("bob".to_string())));
}

#[test]
fn duplicate_action_id_err() {
    let actors = vec![actor("bob", "Bob")];
    let script = vec![line(1), line(2), line(1)];
    let r = build_talk_data(&actors, &script).err();
    assert_eq!(r, Some(RonLoaderError::DuplicateActionId(1)));
}

#[test]
fn loader_extensions() {
    let exts = TalksLoader.extensions();
    assert_eq!(exts, vec!["talk.ron".to_string()]);
}
