//! The compute half of the talk-file loader: once a talk file's bytes are
//! parsed into an actor list and a script, the lists are checked for
//! duplicate ids and turned into ordered lookup tables. Reading the bytes and
//! decoding them stays with the host; everything behind that point is here.
//!
//! The tables are `indexmap` maps, taken on trust at this boundary: all the
//! verified code knows of a map is its entry sequence, named below.

use vstd::prelude::*;
use indexmap::IndexMap;
use std::collections::hash_map::RandomState;
use crate::conversation::clone_choices;
use crate::conversation::dup_before;
use crate::script::ActionId;
use crate::script::Actor;
use crate::script::ActorAction;
use crate::script::ActorOrPlayerActionJSON;
use crate::script::PlayerAction;

verus! {

/// Loads talks from `talk.ron` assets.
pub struct TalksLoader;

/// The error type for the talk loader's own checks. Problems of the byte
/// layer (reading, decoding) stay with the host that owns those steps.
#[derive(Clone, Debug, PartialEq)]
pub enum RonLoaderError {
    /// Two script entries carry the same id.
    DuplicateActionId(ActionId),
    /// Two actor records carry the same string key.
    DuplicateActorId(String),
}

#[verifier::external_type_specification]
#[verifier::external_body]
#[verifier::reject_recursive_types(K)]
#[verifier::reject_recursive_types(V)]
#[verifier::reject_recursive_types(S)]
pub struct ExIndexMap<K, V, S>(IndexMap<K, V, S>);

/// A parsed talk file in lookup form: the actor table keyed by actor id and
/// the script keyed by action id, both in authoring order with unique keys.
pub struct TalkData {
    /// The actor table, in authoring order.
    pub actors: IndexMap<String, Actor>,
    /// The script entries, keyed by their id, in authoring order.
    pub script: IndexMap<ActionId, ActorOrPlayerActionJSON>,
}

/// The entries of the actor table, in insertion order.
pub uninterp spec fn actor_map_entries(m: IndexMap<String, Actor, RandomState>) -> Seq<
    (String, Actor),
>;

/// The entries of the script table, in insertion order.
pub uninterp spec fn action_map_entries(
    m: IndexMap<ActionId, ActorOrPlayerActionJSON, RandomState>,
) -> Seq<(ActionId, ActorOrPlayerActionJSON)>;

/// First position at or after `k` whose key has the characters of `key`.
pub open spec fn key_pos_str_from(es: Seq<(String, Actor)>, key: Seq<char>, k: int) -> Option<int>
    decreases es.len() - k,
{
    if k < 0 || k >= es.len() {
        None
    } else if es[k].0@ == key {
        Some(k)
    } else {
        key_pos_str_from(es, key, k + 1)
    }
}

/// First position at or after `k` keyed by `key`.
pub open spec fn key_pos_id_from(
    es: Seq<(ActionId, ActorOrPlayerActionJSON)>,
    key: ActionId,
    k: int,
) -> Option<int>
    decreases es.len() - k,
{
    if k < 0 || k >= es.len() {
        None
    } else if es[k].0 == key {
        Some(k)
    } else {
        key_pos_id_from(es, key, k + 1)
    }
}

/// Relies on IndexMap::new: the map starts empty.
#[verifier::external_body]
fn actor_map_new() -> (m: IndexMap<String, Actor>)
    ensures
        actor_map_entries(m) == Seq::<(String, Actor)>::empty(),
{
    IndexMap::new()
}

/// Relies on IndexMap::insert: a new key lands last in order; an equivalent
/// key keeps its place and its old value comes back. String keys are
/// equivalent exactly when their characters are.
#[verifier::external_body]
fn actor_map_insert(m: &mut IndexMap<String, Actor>, k: String, v: Actor) -> (r: Option<Actor>)
    ensures
        match key_pos_str_from(actor_map_entries(*old(m)), k@, 0) {
            Some(p) => {
                &&& r == Some(actor_map_entries(*old(m))[p].1)
                &&& actor_map_entries(*final(m)) == actor_map_entries(*old(m)).update(
                    p,
                    (actor_map_entries(*old(m))[p].0, v),
                )
            },
            None => {
                &&& r is None
                &&& actor_map_entries(*final(m)) == actor_map_entries(*old(m)).push((k, v))
            },
        },
{
    m.insert(k, v)
}

/// Relies on IndexMap::new: the map starts empty.
#[verifier::external_body]
fn action_map_new() -> (m: IndexMap<ActionId, ActorOrPlayerActionJSON>)
    ensures
        action_map_entries(m) == Seq::<(ActionId, ActorOrPlayerActionJSON)>::empty(),
{
    IndexMap::new()
}

/// Relies on IndexMap::insert: a new key lands last in order; an existing
/// key keeps its place and its old value comes back.
#[verifier::external_body]
fn action_map_insert(
    m: &mut IndexMap<ActionId, ActorOrPlayerActionJSON>,
    k: ActionId,
    v: ActorOrPlayerActionJSON,
) -> (r: Option<ActorOrPlayerActionJSON>)
    ensures
        match key_pos_id_from(action_map_entries(*old(m)), k, 0) {
            Some(p) => {
                &&& r == Some(action_map_entries(*old(m))[p].1)
                &&& action_map_entries(*final(m)) == action_map_entries(*old(m)).update(
                    p,
                    (action_map_entries(*old(m))[p].0, v),
                )
            },
            None => {
                &&& r is None
                &&& action_map_entries(*final(m)) == action_map_entries(*old(m)).push((k, v))
            },
        },
{
    m.insert(k, v)
}

/// Relies on IndexMap::len: the number of entries.
#[verifier::external_body]
fn actor_map_len(m: &IndexMap<String, Actor>) -> (r: usize)
    ensures
        r == actor_map_entries(*m).len(),
{
    m.len()
}

/// Relies on IndexMap::len: the number of entries.
#[verifier::external_body]
fn action_map_len(m: &IndexMap<ActionId, ActorOrPlayerActionJSON>) -> (r: usize)
    ensures
        r == action_map_entries(*m).len(),
{
    m.len()
}

impl TalkData {
    /// The number of actor records.
    pub fn num_actors(&self) -> (r: usize)
        ensures
            r == actor_map_entries(self.actors).len(),
    {
        actor_map_len(&self.actors)
    }

    /// The number of script entries.
    pub fn num_actions(&self) -> (r: usize)
        ensures
            r == action_map_entries(self.script).len(),
    {
        action_map_len(&self.script)
    }
}

/// Some earlier actor record shares record `i`'s key.
pub open spec fn dup_actor_key_before(t: Seq<(String, Actor)>, i: int) -> bool {
    exists|j: int| 0 <= j < i && (#[trigger] t[j].0)@ == t[i].0@
}

/// First actor record at or after `k` whose key occurred before, if any.
pub open spec fn find_dup_actor_from(t: Seq<(String, Actor)>, k: int) -> Option<int>
    decreases t.len() - k,
{
    if k < 0 || k >= t.len() {
        None
    } else if dup_actor_key_before(t, k) {
        Some(k)
    } else {
        find_dup_actor_from(t, k + 1)
    }
}

/// First script entry at or after `k` whose id occurred before, if any.
pub open spec fn find_dup_action_from(s: Seq<ActorOrPlayerActionJSON>, k: int) -> Option<int>
    decreases s.len() - k,
{
    if k < 0 || k >= s.len() {
        None
    } else if dup_before(s, k) {
        Some(k)
    } else {
        find_dup_action_from(s, k + 1)
    }
}

proof fn lemma_key_pos_str_char(es: Seq<(String, Actor)>, key: Seq<char>, k: int)
    requires
        0 <= k <= es.len(),
    ensures
        match key_pos_str_from(es, key, k) {
            None => forall|j: int| k <= j < es.len() ==> (#[trigger] es[j].0)@ != key,
            Some(p) => k <= p < es.len() && es[p].0@ == key,
        },
    decreases es.len() - k,
{
    if k < es.len() && es[k].0@ != key {
        lemma_key_pos_str_char(es, key, k + 1);
    }
}

proof fn lemma_key_pos_id_char(
    es: Seq<(ActionId, ActorOrPlayerActionJSON)>,
    key: ActionId,
    k: int,
)
    requires
        0 <= k <= es.len(),
    ensures
        match key_pos_id_from(es, key, k) {
            None => forall|j: int| k <= j < es.len() ==> (#[trigger] es[j]).0 != key,
            Some(p) => k <= p < es.len() && es[p].0 == key,
        },
    decreases es.len() - k,
{
    if k < es.len() && es[k].0 != key {
        lemma_key_pos_id_char(es, key, k + 1);
    }
}

/// Deep equality of two script entries: same variant, same scalar fields,
/// and element-wise equal lists.
pub open spec fn entry_like(a: ActorOrPlayerActionJSON, b: ActorOrPlayerActionJSON) -> bool {
    match (a, b) {
        (ActorOrPlayerActionJSON::Actor(x), ActorOrPlayerActionJSON::Actor(y)) => {
            &&& x.id == y.id
            &&& x.text == y.text
            &&& x.next == y.next
            &&& x.start == y.start
            &&& match (x.actors, y.actors) {
                (None, None) => true,
                (Some(u), Some(w)) => u@ == w@,
                _ => false,
            }
        },
        (ActorOrPlayerActionJSON::Player(x), ActorOrPlayerActionJSON::Player(y)) => {
            &&& x.id == y.id
            &&& x.start == y.start
            &&& x.choices@ == y.choices@
        },
        _ => false,
    }
}

/// An element-wise copy of a string list, equal to its source.
fn clone_string_vec(v: &Vec<String>) -> (r: Vec<String>)
    ensures
        r@ == v@,
{
    let n = v.len();
    let mut r: Vec<String> = Vec::new();
    let mut k: usize = 0;
    while k < n
        invariant
            k <= n,
            n == v@.len(),
            r@.len() == k,
            forall|j: int| 0 <= j < k ==> r@[j] == v@[j],
        decreases n - k,
    {
        r.push(v[k].clone());
        k += 1;
    }
    assert(r@ =~= v@);
    r
}

/// A deep copy of one script entry.
fn clone_entry(e: &ActorOrPlayerActionJSON) -> (r: ActorOrPlayerActionJSON)
    ensures
        entry_like(r, *e),
        r.spec_id() == e.spec_id(),
{
    match e {
        ActorOrPlayerActionJSON::Actor(a) => ActorOrPlayerActionJSON::Actor(
            ActorAction {
                id: a.id,
                text: match &a.text {
                    Some(tx) => Some(tx.clone()),
                    None => None,
                },
                actors: match &a.actors {
                    Some(v) => Some(clone_string_vec(v)),
                    None => None,
                },
                next: a.next,
                start: a.start,
            },
        ),
        ActorOrPlayerActionJSON::Player(p) => ActorOrPlayerActionJSON::Player(
            PlayerAction { id: p.id, choices: clone_choices(&p.choices), start: p.start },
        ),
    }
}

/// Builds the lookup tables of a parsed talk file: the actor table first,
/// then the script table, each rejecting the first record whose key was
/// already taken, as the asset loader does after decoding the file bytes.
pub fn build_talk_data(
    actors: &Vec<(String, Actor)>,
    script: &Vec<ActorOrPlayerActionJSON>,
) -> (r: Result<TalkData, RonLoaderError>)
    ensures
        match r {
            Ok(td) => {
                &&& find_dup_actor_from(actors@, 0) is None
                &&& find_dup_action_from(script@, 0) is None
                &&& actor_map_entries(td.actors) == actors@
                &&& action_map_entries(td.script).len() == script@.len()
                &&& forall|j: int|
                    0 <= j < script@.len() ==> (#[trigger] action_map_entries(td.script)[j]).0
                        == script@[j].spec_id() && entry_like(
                        action_map_entries(td.script)[j].1,
                        script@[j],
                    )
            },
            Err(e) => match e {
                RonLoaderError::DuplicateActorId(k) => (find_dup_actor_from(actors@, 0)
                    matches Some(i) && k == actors@[i].0),
                RonLoaderError::DuplicateActionId(id) => {
                    &&& find_dup_actor_from(actors@, 0) is None
                    &&& (find_dup_action_from(script@, 0) matches Some(i) && id == script@[
                        i
                    ].spec_id())
                },
            },
        },
{
    let ghost ta = actors@;
    let ghost sa = script@;
    let mut talk_actors = actor_map_new();
    let total_a = actors.len();
    let mut p: usize = 0;
    while p < total_a
        invariant
            p <= total_a,
            total_a == ta.len(),
            ta == actors@,
            sa == script@,
            actor_map_entries(talk_actors) == ta.take(p as int),
            find_dup_actor_from(ta, 0) == find_dup_actor_from(ta, p as int),
        decreases total_a - p,
    {
        let pair = &actors[p];
        let key_copy = pair.0.clone();
        let record = Actor { name: pair.1.name.clone(), asset: pair.1.asset.clone() };
        proof {
            assert(record == ta[p as int].1);
        }
        let prior = actor_map_insert(&mut talk_actors, pair.0.clone(), record);
        proof {
            lemma_key_pos_str_char(ta.take(p as int), ta[p as int].0@, 0);
        }
        if prior.is_some() {
            proof {
                let q = key_pos_str_from(ta.take(p as int), ta[p as int].0@, 0).unwrap();
                assert((ta.take(p as int)[q].0)@ == ta[p as int].0@);
                assert(dup_actor_key_before(ta, p as int));
                assert(find_dup_actor_from(ta, p as int) == Some(p as int));
            }
            return Err(RonLoaderError::DuplicateActorId(key_copy));
        }
        proof {
            assert(!dup_actor_key_before(ta, p as int)) by {
                if dup_actor_key_before(ta, p as int) {
                    let j = choose|j: int|
                        0 <= j < p as int && (#[trigger] ta[j].0)@ == ta[p as int].0@;
                    assert((ta.take(p as int)[j].0)@ == ta[p as int].0@);
                }
            }
            assert(find_dup_actor_from(ta, p as int) == find_dup_actor_from(ta, p as int + 1));
            assert(actor_map_entries(talk_actors) =~= ta.take(p as int + 1));
        }
        p += 1;
    }
    assert(find_dup_actor_from(ta, 0) is None);
    let mut raw_actions = action_map_new();
    let total_s = script.len();
    let mut p: usize = 0;
    while p < total_s
        invariant
            p <= total_s,
            total_s == sa.len(),
            ta == actors@,
            sa == script@,
            find_dup_actor_from(ta, 0) is None,
            action_map_entries(raw_actions).len() == p,
            forall|j: int|
                0 <= j < p ==> (#[trigger] action_map_entries(raw_actions)[j]).0 == sa[
                    j
                ].spec_id() && entry_like(action_map_entries(raw_actions)[j].1, sa[j]),
            find_dup_action_from(sa, 0) == find_dup_action_from(sa, p as int),
        decreases total_s - p,
    {
        let entry = clone_entry(&script[p]);
        let id = entry.id();
        proof {
            assert(id == sa[p as int].spec_id());
        }
        let ghost prefix = action_map_entries(raw_actions);
        let prior = action_map_insert(&mut raw_actions, id, entry);
        proof {
            lemma_key_pos_id_char(prefix, sa[p as int].spec_id(), 0);
        }
        if prior.is_some() {
            proof {
                let q = key_pos_id_from(prefix, sa[p as int].spec_id(), 0).unwrap();
                assert(prefix[q].0 == sa[q].spec_id());
                assert(dup_before(sa, p as int));
                assert(find_dup_action_from(sa, p as int) == Some(p as int));
            }
            return Err(RonLoaderError::DuplicateActionId(id));
        }
        proof {
            assert(!dup_before(sa, p as int)) by {
                if dup_before(sa, p as int) {
                    let j = choose|j: int|
                        0 <= j < p as int && (#[trigger] sa[j].spec_id()) == sa[p as int].spec_id();
                    assert(prefix[j].0 == sa[p as int].spec_id());
                }
            }
            assert(find_dup_action_from(sa, p as int) == find_dup_action_from(sa, p as int + 1));
        }
        p += 1;
    }
    assert(find_dup_action_from(sa, 0) is None);
    proof {
        assert(ta.take(ta.len() as int) =~= ta);
    }
    Ok(TalkData { actors: talk_actors, script: raw_actions })
}

impl TalksLoader {
    /// The file extensions this loader takes.
    pub fn extensions(&self) -> (r: Vec<String>)
        ensures
            r@.len() == 1 && r@[0]@ == "talk.ron"@,
    {
        let mut v: Vec<String> = Vec::new();
        v.push("talk.ron".to_owned());
        v
    }
}

} // verus!
