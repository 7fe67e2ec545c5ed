//! The conversation engine: graph construction from a raw script, and the
//! cursor-based traversal state machine over the built graph.
//!
//! Construction mirrors the authored script: node `i` of the graph is built
//! from entry `i`, in order, so the id table is a flat vector whose position
//! `p` holds the id of node `p`. The specification below describes the whole
//! build as a sequence of phases over the entry sequence: duplicate detection
//! among explicit successors, node materialization (actor resolution, start
//! flags, duplicate ids), reference validation with edge materialization, and
//! the final start check.

use vstd::prelude::*;
use crate::errors::ConversationError;
use crate::errors::ScriptParsingError;
use crate::graph::ConvoGraph;
use crate::graph::graph_add_edge;
use crate::graph::graph_add_node;
use crate::graph::graph_edge_count;
use crate::graph::graph_edge_list;
use crate::graph::graph_first_edge_target;
use crate::graph::graph_new;
use crate::graph::graph_node_count;
use crate::graph::graph_node_weight;
use crate::graph::graph_nodes;
use crate::script::ActionId;
use crate::script::Actor;
use crate::script::ActorAction;
use crate::script::ActorOrPlayerActionJSON;
use crate::script::Choice;
use crate::script::RawScript;

verus! {

/// One node of the built graph: an actor line's text and resolved speakers,
/// or a player node's choice list (kept on the node for presentation, in
/// authored order).
#[derive(Debug)]
pub struct ConvoNode {
    /// Display text of a line node, if any.
    pub text: Option<String>,
    /// Resolved speakers of a line node, if any.
    pub actors: Option<Vec<Actor>>,
    /// The choices of a choice node; `None` exactly on line nodes.
    pub choices: Option<Vec<Choice>>,
}

// ---------------------------------------------------------------------------
// The mathematical model of a build: spec functions over the entry sequence.
// ---------------------------------------------------------------------------

/// The ids of the entries, in authoring order.
pub open spec fn ids_of(s: Seq<ActorOrPlayerActionJSON>) -> Seq<ActionId> {
    s.map(|i: int, e: ActorOrPlayerActionJSON| e.spec_id())
}

/// First position at or after `k` holding `x`, if any.
pub open spec fn index_of_from(ids: Seq<ActionId>, x: ActionId, k: int) -> Option<int>
    decreases ids.len() - k,
{
    if k < 0 || k >= ids.len() {
        None
    } else if ids[k] == x {
        Some(k)
    } else {
        index_of_from(ids, x, k + 1)
    }
}

/// First position holding `x`, if any.
pub open spec fn index_of(ids: Seq<ActionId>, x: ActionId) -> Option<int> {
    index_of_from(ids, x, 0)
}

/// Whether some entry before position `i` shares entry `i`'s id.
pub open spec fn dup_before(s: Seq<ActorOrPlayerActionJSON>, i: int) -> bool {
    exists|j: int| 0 <= j < i && (#[trigger] s[j].spec_id()) == s[i].spec_id()
}

/// First-match lookup in the actor table, starting at `k`.
pub open spec fn table_lookup_from(t: Seq<(String, Actor)>, name: Seq<char>, k: int) -> Option<
    Actor,
>
    decreases t.len() - k,
{
    if k < 0 || k >= t.len() {
        None
    } else if t[k].0@ == name {
        Some(t[k].1)
    } else {
        table_lookup_from(t, name, k + 1)
    }
}

/// First-match lookup in the actor table.
pub open spec fn table_lookup(t: Seq<(String, Actor)>, name: Seq<char>) -> Option<Actor> {
    table_lookup_from(t, name, 0)
}

/// First actor key at or after `k` that the table does not resolve, if any.
pub open spec fn first_missing_ref_from(
    refs: Seq<String>,
    t: Seq<(String, Actor)>,
    k: int,
) -> Option<String>
    decreases refs.len() - k,
{
    if k < 0 || k >= refs.len() {
        None
    } else if table_lookup(t, refs[k]@) is None {
        Some(refs[k])
    } else {
        first_missing_ref_from(refs, t, k + 1)
    }
}

/// The first actor key of the entry that the table does not resolve, if any.
pub open spec fn entry_missing_ref(
    e: ActorOrPlayerActionJSON,
    t: Seq<(String, Actor)>,
) -> Option<String> {
    first_missing_ref_from(e.spec_actor_refs(), t, 0)
}

/// The actor keys resolved against the table, in order. Meaningful when every
/// key resolves.
pub open spec fn resolved_actors(refs: Seq<String>, t: Seq<(String, Actor)>) -> Seq<Actor> {
    refs.map(|i: int, r: String| table_lookup(t, r@).unwrap())
}

/// How a built node relates to the entry it came from: a line node carries the
/// line's text and its resolved speakers, a choice node carries the choices
/// unchanged and nothing else.
pub open spec fn node_matches(
    n: ConvoNode,
    e: ActorOrPlayerActionJSON,
    t: Seq<(String, Actor)>,
) -> bool {
    match e {
        ActorOrPlayerActionJSON::Actor(a) => {
            &&& n.choices is None
            &&& n.text == a.text
            &&& match (n.actors, a.actors) {
                (None, None) => true,
                (Some(v), Some(refs)) => v@ == resolved_actors(refs@, t),
                _ => false,
            }
        },
        ActorOrPlayerActionJSON::Player(p) => {
            &&& n.text is None
            &&& n.actors is None
            &&& n.choices is Some
            &&& n.choices.unwrap()@ == p.choices@
        },
    }
}

// ---------------------------------------------------------------------------
// The build phases. Each `find_*` walks the entries from position `k` and
// yields the first failure, so the whole build result is a case split over
// them, in phase order.
// ---------------------------------------------------------------------------

/// Entry `i` redeclares, with an explicit successor, an id already seen: the
/// failure caught while the id-to-successor table is built.
pub open spec fn phase1_err_at(s: Seq<ActorOrPlayerActionJSON>, i: int) -> bool {
    s[i].spec_next() is Some && dup_before(s, i)
}

/// First phase-one failure at or after `k`: the duplicated id.
pub open spec fn find_phase1(s: Seq<ActorOrPlayerActionJSON>, k: int) -> Option<ActionId>
    decreases s.len() - k,
{
    if k < 0 || k >= s.len() {
        None
    } else if phase1_err_at(s, k) {
        Some(s[k].spec_id())
    } else {
        find_phase1(s, k + 1)
    }
}

/// Whether some entry before position `i` carries the start flag.
pub open spec fn has_start_before(s: Seq<ActorOrPlayerActionJSON>, i: int) -> bool {
    exists|j: int| 0 <= j < i && (#[trigger] s[j]).is_start()
}

/// The failure entry `i` raises while nodes are materialized, if any: an
/// unresolved actor key first, then a second start flag, then a repeated id.
pub open spec fn entry_phase2_err(
    s: Seq<ActorOrPlayerActionJSON>,
    t: Seq<(String, Actor)>,
    i: int,
) -> Option<ScriptParsingError> {
    if entry_missing_ref(s[i], t) is Some {
        Some(
            ScriptParsingError::ActorNotFound(s[i].spec_id(), entry_missing_ref(s[i], t).unwrap()),
        )
    } else if s[i].is_start() && has_start_before(s, i) {
        Some(ScriptParsingError::MultipleStartingAction)
    } else if dup_before(s, i) {
        Some(ScriptParsingError::RepeatedId(s[i].spec_id()))
    } else {
        None
    }
}

/// First phase-two failure at or after `k`.
pub open spec fn find_phase2(
    s: Seq<ActorOrPlayerActionJSON>,
    t: Seq<(String, Actor)>,
    k: int,
) -> Option<ScriptParsingError>
    decreases s.len() - k,
{
    if k < 0 || k >= s.len() {
        None
    } else if entry_phase2_err(s, t, k) is Some {
        entry_phase2_err(s, t, k)
    } else {
        find_phase2(s, t, k + 1)
    }
}

/// The id entry `i` chains to: its explicit successor when authored, else the
/// id of the entry that follows it, else nothing for a final entry.
pub open spec fn effective_next(s: Seq<ActorOrPlayerActionJSON>, i: int) -> Option<ActionId> {
    if s[i].spec_next() is Some {
        s[i].spec_next()
    } else if i + 1 < s.len() {
        Some(s[i + 1].spec_id())
    } else {
        None
    }
}

/// First choice target at or after `k` that names no entry, if any.
pub open spec fn first_dangling_choice_from(
    ids: Seq<ActionId>,
    cs: Seq<Choice>,
    k: int,
) -> Option<ActionId>
    decreases cs.len() - k,
{
    if k < 0 || k >= cs.len() {
        None
    } else if index_of(ids, cs[k].next) is None {
        Some(cs[k].next)
    } else {
        first_dangling_choice_from(ids, cs, k + 1)
    }
}

/// The dangling reference entry `i` holds, if any: its explicit successor
/// first, then its choice targets in authored order. Carried as (source id,
/// missing id). The positional chain can never dangle.
pub open spec fn entry_phase3_err(s: Seq<ActorOrPlayerActionJSON>, i: int) -> Option<
    (ActionId, ActionId),
> {
    if s[i].spec_next() is Some && index_of(ids_of(s), s[i].spec_next().unwrap()) is None {
        Some((s[i].spec_id(), s[i].spec_next().unwrap()))
    } else {
        match first_dangling_choice_from(ids_of(s), s[i].spec_choices(), 0) {
            Some(c) => Some((s[i].spec_id(), c)),
            None => None,
        }
    }
}

/// First phase-three failure at or after `k`.
pub open spec fn find_phase3(s: Seq<ActorOrPlayerActionJSON>, k: int) -> Option<
    (ActionId, ActionId),
>
    decreases s.len() - k,
{
    if k < 0 || k >= s.len() {
        None
    } else if entry_phase3_err(s, k) is Some {
        entry_phase3_err(s, k)
    } else {
        find_phase3(s, k + 1)
    }
}

/// First entry at or after `k` flagged as start, if any.
pub open spec fn find_start_from(s: Seq<ActorOrPlayerActionJSON>, k: int) -> Option<int>
    decreases s.len() - k,
{
    if k < 0 || k >= s.len() {
        None
    } else if s[k].is_start() {
        Some(k)
    } else {
        find_start_from(s, k + 1)
    }
}

/// The construction error a raw script is rejected with, if any: the whole
/// error policy of the builder, in phase order.
pub open spec fn build_err_spec(
    s: Seq<ActorOrPlayerActionJSON>,
    t: Seq<(String, Actor)>,
) -> Option<ScriptParsingError> {
    if s.len() == 0 {
        Some(ScriptParsingError::EmptyScript)
    } else if find_phase1(s, 0) is Some {
        Some(ScriptParsingError::RepeatedId(find_phase1(s, 0).unwrap()))
    } else if find_phase2(s, t, 0) is Some {
        find_phase2(s, t, 0)
    } else if find_phase3(s, 0) is Some {
        Some(
            ScriptParsingError::NextActionNotFound(
                find_phase3(s, 0).unwrap().0,
                find_phase3(s, 0).unwrap().1,
            ),
        )
    } else if find_start_from(s, 0) is None {
        Some(ScriptParsingError::NoStartingAction)
    } else {
        None
    }
}

// ---------------------------------------------------------------------------
// The edge model: entry `i` contributes its chain edge, then one edge per
// choice, in authored order; blocks are concatenated in entry order.
// ---------------------------------------------------------------------------

/// The chain edge of entry `i`, as a (source, target) node-index pair.
pub open spec fn next_edge_part(s: Seq<ActorOrPlayerActionJSON>, i: int) -> Seq<(int, int)> {
    match effective_next(s, i) {
        Some(n) => seq![(i, index_of(ids_of(s), n).unwrap())],
        None => Seq::empty(),
    }
}

/// The choice edges of entry `i`, in authored order.
pub open spec fn choice_edge_part(s: Seq<ActorOrPlayerActionJSON>, i: int) -> Seq<(int, int)> {
    s[i].spec_choices().map(|j: int, c: Choice| (i, index_of(ids_of(s), c.next).unwrap()))
}

/// All edges entry `i` contributes, in order.
pub open spec fn entry_edges(s: Seq<ActorOrPlayerActionJSON>, i: int) -> Seq<(int, int)> {
    next_edge_part(s, i) + choice_edge_part(s, i)
}

/// The edges contributed by the first `k` entries, in order.
pub open spec fn edges_upto(s: Seq<ActorOrPlayerActionJSON>, k: int) -> Seq<(int, int)>
    decreases k,
{
    if k <= 0 {
        Seq::empty()
    } else {
        edges_upto(s, k - 1) + entry_edges(s, k - 1)
    }
}

/// The full edge list of a successful build.
pub open spec fn edges_of(s: Seq<ActorOrPlayerActionJSON>) -> Seq<(int, int)> {
    edges_upto(s, s.len() as int)
}

// ---------------------------------------------------------------------------
// Characterization lemmas for the phase walks.
// ---------------------------------------------------------------------------

/// What `index_of_from` returns: the first occurrence, or a guarantee that
/// there is none.
pub proof fn lemma_index_of_from_char(ids: Seq<ActionId>, x: ActionId, k: int)
    requires
        0 <= k <= ids.len(),
    ensures
        match index_of_from(ids, x, k) {
            None => forall|j: int| k <= j < ids.len() ==> ids[j] != x,
            Some(p) => k <= p < ids.len() && ids[p] == x && forall|j: int|
                k <= j < p ==> ids[j] != x,
        },
    decreases ids.len() - k,
{
    if k < ids.len() && ids[k] != x {
        lemma_index_of_from_char(ids, x, k + 1);
    }
}

/// A phase-two walk that finds nothing clears every entry it walked.
pub proof fn lemma_find_phase2_none(
    s: Seq<ActorOrPlayerActionJSON>,
    t: Seq<(String, Actor)>,
    k: int,
)
    requires
        0 <= k <= s.len(),
        find_phase2(s, t, k) is None,
    ensures
        forall|j: int| k <= j < s.len() ==> entry_phase2_err(s, t, j) is None,
    decreases s.len() - k,
{
    if k < s.len() {
        lemma_find_phase2_none(s, t, k + 1);
    }
}

/// An entry the phase-two walk clears has no duplicated id, so a cleared
/// script has pairwise distinct ids.
pub proof fn lemma_phase2_clear_distinct(s: Seq<ActorOrPlayerActionJSON>, t: Seq<(String, Actor)>)
    requires
        find_phase2(s, t, 0) is None,
    ensures
        forall|i: int, j: int|
            0 <= i < j < s.len() ==> (#[trigger] ids_of(s)[i]) != (#[trigger] ids_of(s)[j]),
{
    lemma_find_phase2_none(s, t, 0);
    assert forall|i: int, j: int| 0 <= i < j < s.len() implies (#[trigger] ids_of(s)[i])
        != (#[trigger] ids_of(s)[j]) by {
        assert(entry_phase2_err(s, t, j) is None);
        if s[i].spec_id() == s[j].spec_id() {
            assert(dup_before(s, j));
        }
    }
}

// ---------------------------------------------------------------------------
// The conversation instance.
// ---------------------------------------------------------------------------

/// A built conversation: the immutable graph, the id table, and the single
/// mutable cursor. Created only by [`Conversation::new`], which establishes
/// [`Conversation::wf`]; every traversal operation preserves it.
#[derive(Debug)]
pub struct Conversation {
    graph: ConvoGraph,
    current: usize,
    /// Position `p` holds the id of node `p`: the id-to-node-index table.
    node_ids: Vec<ActionId>,
}

impl Conversation {
    /// The node weights, in node-index order.
    pub closed spec fn nodes(self) -> Seq<ConvoNode> {
        graph_nodes(self.graph)
    }

    /// The edges, as (source, target) node-index pairs, in insertion order.
    pub closed spec fn edge_list(self) -> Seq<(int, int)> {
        graph_edge_list(self.graph)
    }

    /// The id table: position `p` holds the id of node `p`.
    pub closed spec fn ids(self) -> Seq<ActionId> {
        self.node_ids@
    }

    /// The cursor: the index of the current node.
    pub closed spec fn cur(self) -> int {
        self.current as int
    }

    /// Well-formedness: the cursor and every edge stay inside the graph, ids
    /// are unique, and a line node has at most one successor (all its
    /// outgoing edges agree on the target).
    pub closed spec fn wf(self) -> bool {
        &&& self.ids().len() == self.nodes().len()
        &&& 0 <= self.cur() < self.nodes().len()
        &&& forall|i: int, j: int|
            0 <= i < j < self.ids().len() ==> (#[trigger] self.ids()[i]) != (
            #[trigger] self.ids()[j])
        &&& forall|k: int|
            0 <= k < self.edge_list().len() ==> {
                &&& 0 <= (#[trigger] self.edge_list()[k]).0 < self.nodes().len()
                &&& 0 <= self.edge_list()[k].1 < self.nodes().len()
            }
        &&& forall|k1: int, k2: int|
            0 <= k1 < self.edge_list().len() && 0 <= k2 < self.edge_list().len() && (
            #[trigger] self.edge_list()[k1]).0 == (#[trigger] self.edge_list()[k2]).0
                && self.nodes()[self.edge_list()[k1].0].choices is None ==> self.edge_list()[k1].1
                == self.edge_list()[k2].1
    }

    /// The index of the current node.
    pub fn current_index(&self) -> (r: usize)
        ensures
            r as int == self.cur(),
    {
        self.current
    }

    /// The number of nodes in the graph.
    pub fn node_count(&self) -> (r: usize)
        ensures
            r == self.nodes().len(),
    {
        graph_node_count(&self.graph)
    }

    /// The number of edges in the graph.
    pub fn edge_count(&self) -> (r: usize)
        ensures
            r == self.edge_list().len(),
    {
        graph_edge_count(&self.graph)
    }

    /// Builds a conversation from a raw script: resolves the positional
    /// chain, materializes one node per entry in authoring order, validates
    /// every reference, materializes the edges, and places the cursor on the
    /// designated start node. All-or-nothing: on any structural problem the
    /// matching error comes back and no instance does.
    pub fn new(raw_script: RawScript) -> (r: Result<Conversation, ScriptParsingError>)
        ensures
            match r {
                Err(e) => build_err_spec(raw_script.script@, raw_script.actors@) == Some(e),
                Ok(c) => {
                    &&& build_err_spec(raw_script.script@, raw_script.actors@) is None
                    &&& c.wf()
                    &&& c.nodes().len() == raw_script.script@.len()
                    &&& forall|i: int|
                        0 <= i < raw_script.script@.len() ==> node_matches(
                            #[trigger] c.nodes()[i],
                            raw_script.script@[i],
                            raw_script.actors@,
                        )
                    &&& c.ids() == ids_of(raw_script.script@)
                    &&& c.edge_list() == edges_of(raw_script.script@)
                    &&& find_start_from(raw_script.script@, 0) == Some(c.cur())
                },
            },
    {
        let ghost s = raw_script.script@;
        let ghost t = raw_script.actors@;
        let n = raw_script.script.len();
        if n == 0 {
            return Err(ScriptParsingError::EmptyScript);
        }
        // Phase 1: an entry with an explicit successor must not redeclare an
        // id already seen while the chain table is put together.
        let mut i: usize = 0;
        while i < n
            invariant
                i <= n,
                n == s.len(),
                s == raw_script.script@,
                find_phase1(s, 0) == find_phase1(s, i as int),
            decreases n - i,
        {
            let entry = &raw_script.script[i];
            if entry.next().is_some() && id_occurs_before(&raw_script.script, i) {
                proof {
                    assert(phase1_err_at(s, i as int));
                    assert(find_phase1(s, i as int) == Some(s[i as int].spec_id()));
                }
                return Err(ScriptParsingError::RepeatedId(entry.id()));
            }
            proof {
                assert(!phase1_err_at(s, i as int));
                assert(find_phase1(s, i as int) == find_phase1(s, i as int + 1));
            }
            i += 1;
        }
        assert(find_phase1(s, 0) is None);
        // Phase 2: materialize one node per entry, resolving actors and
        // checking start flags and repeated ids on the way.
        let mut graph = graph_new();
        let mut node_ids: Vec<ActionId> = Vec::new();
        let mut start_idx: Option<usize> = None;
        let mut i: usize = 0;
        while i < n
            invariant
                i <= n,
                n == s.len(),
                s == raw_script.script@,
                t == raw_script.actors@,
                find_phase1(s, 0) is None,
                find_phase2(s, t, 0) == find_phase2(s, t, i as int),
                graph_nodes(graph).len() == i,
                graph_edge_list(graph) == Seq::<(int, int)>::empty(),
                forall|q: int|
                    0 <= q < i ==> node_matches(#[trigger] graph_nodes(graph)[q], s[q], t),
                node_ids@ == ids_of(s).take(i as int),
                match start_idx {
                    Some(p) => p < i && s[p as int].is_start() && find_start_from(s, 0) == Some(
                        p as int,
                    ),
                    None => find_start_from(s, 0) == find_start_from(s, i as int) && forall|q: int|
                        0 <= q < i ==> !(#[trigger] s[q]).is_start(),
                },
            decreases n - i,
        {
            let entry = &raw_script.script[i];
            let node = match make_node(entry, &raw_script.actors) {
                Ok(nd) => nd,
                Err(e) => {
                    proof {
                        assert(entry_phase2_err(s, t, i as int) == Some(e));
                        assert(find_phase2(s, t, i as int) == Some(e));
                    }
                    return Err(e);
                },
            };
            let idx = graph_add_node(&mut graph, node);
            let is_start = match check_start_flag(entry.start(), start_idx.is_some()) {
                Ok(b) => b,
                Err(e) => {
                    proof {
                        assert(s[i as int].is_start());
                        let p = start_idx.unwrap() as int;
                        assert(0 <= p < i && s[p].is_start());
                        assert(has_start_before(s, i as int));
                        assert(entry_phase2_err(s, t, i as int) == Some(e));
                        assert(find_phase2(s, t, i as int) == Some(e));
                    }
                    return Err(e);
                },
            };
            if id_occurs_before(&raw_script.script, i) {
                let e = ScriptParsingError::RepeatedId(entry.id());
                proof {
                    if s[i as int].is_start() {
                        assert(start_idx is None);
                        assert(!has_start_before(s, i as int));
                    }
                    assert(entry_phase2_err(s, t, i as int) == Some(e));
                    assert(find_phase2(s, t, i as int) == Some(e));
                }
                return Err(e);
            }
            proof {
                if s[i as int].is_start() {
                    assert(start_idx is None);
                    assert(!has_start_before(s, i as int));
                }
                assert(entry_phase2_err(s, t, i as int) is None);
                assert(find_phase2(s, t, i as int) == find_phase2(s, t, i as int + 1));
                if start_idx is None && s[i as int].is_start() {
                    assert(find_start_from(s, i as int) == Some(i as int));
                }
                if start_idx is None && !s[i as int].is_start() {
                    assert(find_start_from(s, i as int) == find_start_from(s, i as int + 1));
                }
            }
            if is_start {
                start_idx = Some(idx);
            }
            node_ids.push(entry.id());
            proof {
                assert(node_ids@ =~= ids_of(s).take(i as int + 1));
            }
            i += 1;
        }
        proof {
            assert(find_phase2(s, t, n as int) is None);
            assert(node_ids@ =~= ids_of(s));
            lemma_phase2_clear_distinct(s, t);
            match start_idx {
                Some(p) => {},
                None => {
                    assert(find_start_from(s, n as int) is None);
                },
            }
        }
        // Phase 3: validate every successor reference and materialize the
        // edges, entry by entry: the chain edge first, then one edge per
        // choice, in authored order.
        let ghost ids = ids_of(s);
        let mut i: usize = 0;
        while i < n
            invariant
                i <= n,
                n == s.len(),
                s == raw_script.script@,
                t == raw_script.actors@,
                ids == ids_of(s),
                find_phase1(s, 0) is None,
                find_phase2(s, t, 0) is None,
                find_phase3(s, 0) == find_phase3(s, i as int),
                graph_nodes(graph).len() == n,
                forall|q: int|
                    0 <= q < n ==> node_matches(#[trigger] graph_nodes(graph)[q], s[q], t),
                node_ids@ == ids,
                forall|q1: int, q2: int|
                    0 <= q1 < q2 < ids.len() ==> (#[trigger] ids[q1]) != (#[trigger] ids[q2]),
                match start_idx {
                    Some(p) => p < n && s[p as int].is_start() && find_start_from(s, 0) == Some(
                        p as int,
                    ),
                    None => find_start_from(s, 0) is None,
                },
                graph_edge_list(graph) == edges_upto(s, i as int),
                forall|k: int|
                    0 <= k < graph_edge_list(graph).len() ==> {
                        &&& 0 <= (#[trigger] graph_edge_list(graph)[k]).0 < i as int
                        &&& 0 <= graph_edge_list(graph)[k].1 < n
                    },
                forall|k1: int, k2: int|
                    0 <= k1 < graph_edge_list(graph).len() && 0 <= k2 < graph_edge_list(
                        graph,
                    ).len() && (#[trigger] graph_edge_list(graph)[k1]).0 == (
                    #[trigger] graph_edge_list(graph)[k2]).0 && graph_nodes(
                        graph,
                    )[graph_edge_list(graph)[k1].0].choices is None ==> graph_edge_list(
                        graph,
                    )[k1].1 == graph_edge_list(graph)[k2].1,
            decreases n - i,
        {
            let entry = &raw_script.script[i];
            let nxt_opt: Option<ActionId> = match entry.next() {
                Some(nx) => Some(nx),
                None => if i + 1 < n {
                    Some(node_ids[i + 1])
                } else {
                    None
                },
            };
            proof {
                assert(nxt_opt == effective_next(s, i as int));
            }
            let ghost el0 = graph_edge_list(graph);
            if let Some(nx) = nxt_opt {
                match find_pos(&node_ids, nx) {
                    Some(p) => {
                        graph_add_edge(&mut graph, i, p);
                        proof {
                            assert(graph_edge_list(graph) =~= edges_upto(s, i as int)
                                + next_edge_part(s, i as int));
                        }
                    },
                    None => {
                        proof {
                            if s[i as int].spec_next() is None {
                                lemma_index_of_from_char(ids, nx, 0);
                                assert(ids[i as int + 1] == nx);
                                assert(false);
                            }
                            assert(entry_phase3_err(s, i as int) == Some(
                                (s[i as int].spec_id(), nx),
                            ));
                            assert(find_phase3(s, i as int) == Some((s[i as int].spec_id(), nx)));
                        }
                        return Err(ScriptParsingError::NextActionNotFound(node_ids[i], nx));
                    },
                }
            } else {
                proof {
                    assert(graph_edge_list(graph) =~= edges_upto(s, i as int) + next_edge_part(
                        s,
                        i as int,
                    ));
                }
            }
            if let ActorOrPlayerActionJSON::Player(p_act) = entry {
                let m = p_act.choices.len();
                let mut j: usize = 0;
                while j < m
                    invariant
                        i < n,
                        j <= m,
                        n == s.len(),
                        s == raw_script.script@,
                        t == raw_script.actors@,
                        ids == ids_of(s),
                        find_phase1(s, 0) is None,
                        find_phase2(s, t, 0) is None,
                        find_phase3(s, 0) == find_phase3(s, i as int),
                        graph_nodes(graph).len() == n,
                        forall|q: int|
                            0 <= q < n ==> node_matches(#[trigger] graph_nodes(graph)[q], s[q], t),
                        node_ids@ == ids,
                        forall|q1: int, q2: int|
                            0 <= q1 < q2 < ids.len() ==> (#[trigger] ids[q1]) != (
                            #[trigger] ids[q2]),
                        match start_idx {
                            Some(p) => p < n && s[p as int].is_start() && find_start_from(s, 0)
                                == Some(p as int),
                            None => find_start_from(s, 0) is None,
                        },
                        s[i as int] == ActorOrPlayerActionJSON::Player(*p_act),
                        m == p_act.choices@.len(),
                        graph_edge_list(graph) == edges_upto(s, i as int) + next_edge_part(
                            s,
                            i as int,
                        ) + choice_edge_part(s, i as int).take(j as int),
                        first_dangling_choice_from(ids, p_act.choices@, 0)
                            == first_dangling_choice_from(ids, p_act.choices@, j as int),
                        forall|k: int|
                            0 <= k < graph_edge_list(graph).len() ==> {
                                &&& 0 <= (#[trigger] graph_edge_list(graph)[k]).0 <= i as int
                                &&& 0 <= graph_edge_list(graph)[k].1 < n
                            },
                        forall|k1: int, k2: int|
                            0 <= k1 < graph_edge_list(graph).len() && 0 <= k2 < graph_edge_list(
                                graph,
                            ).len() && (#[trigger] graph_edge_list(graph)[k1]).0 == (
                            #[trigger] graph_edge_list(graph)[k2]).0 && graph_nodes(
                                graph,
                            )[graph_edge_list(graph)[k1].0].choices is None ==> graph_edge_list(
                                graph,
                            )[k1].1 == graph_edge_list(graph)[k2].1,
                    decreases m - j,
                {
                    let cnext = p_act.choices[j].next;
                    match find_pos(&node_ids, cnext) {
                        Some(q) => {
                            graph_add_edge(&mut graph, i, q);
                            proof {
                                assert(choice_edge_part(s, i as int)[j as int] == (
                                    i as int,
                                    q as int,
                                ));
                                assert(choice_edge_part(s, i as int).take(j as int + 1)
                                    =~= choice_edge_part(s, i as int).take(j as int).push(
                                    (i as int, q as int),
                                ));
                                assert(graph_edge_list(graph) =~= edges_upto(s, i as int)
                                    + next_edge_part(s, i as int) + choice_edge_part(
                                    s,
                                    i as int,
                                ).take(j as int + 1));
                            }
                        },
                        None => {
                            proof {
                                assert(first_dangling_choice_from(ids, p_act.choices@, j as int)
                                    == Some(cnext));
                                assert(s[i as int].spec_next() is None);
                                assert(entry_phase3_err(s, i as int) == Some(
                                    (s[i as int].spec_id(), cnext),
                                ));
                                assert(find_phase3(s, i as int) == Some(
                                    (s[i as int].spec_id(), cnext),
                                ));
                            }
                            return Err(ScriptParsingError::NextActionNotFound(node_ids[i], cnext));
                        },
                    }
                    j += 1;
                }
                proof {
                    assert(choice_edge_part(s, i as int).take(m as int) =~= choice_edge_part(
                        s,
                        i as int,
                    ));
                }
            } else {
                proof {
                    assert(s[i as int].spec_choices() =~= Seq::<Choice>::empty());
                    assert(choice_edge_part(s, i as int) =~= Seq::<(int, int)>::empty());
                    assert(graph_edge_list(graph) =~= edges_upto(s, i as int) + next_edge_part(
                        s,
                        i as int,
                    ) + choice_edge_part(s, i as int));
                }
            }
            proof {
                assert(graph_edge_list(graph) =~= edges_upto(s, i as int + 1));
                assert(entry_phase3_err(s, i as int) is None);
                assert(find_phase3(s, i as int) == find_phase3(s, i as int + 1));
            }
            i += 1;
        }
        // Finalize: the cursor starts on the designated start node.
        proof {
            assert(find_phase3(s, n as int) is None);
        }
        match start_idx {
            Some(st) => {
                let c = Conversation { graph, current: st, node_ids };
                proof {
                    assert(c.edge_list() == edges_of(s));
                    assert(c.wf());
                }
                Ok(c)
            },
            None => Err(ScriptParsingError::NoStartingAction),
        }
    }

    /// Moves the cursor over the single outgoing edge of the current line
    /// node. Fails without moving when the current node offers choices, or
    /// when the line node has no successor.
    pub fn next_line(&mut self) -> (r: Result<(), ConversationError>)
        requires
            old(self).wf(),
        ensures
            final(self).wf(),
            final(self).nodes() == old(self).nodes(),
            final(self).edge_list() == old(self).edge_list(),
            final(self).ids() == old(self).ids(),
            match r {
                Ok(()) => {
                    &&& old(self).nodes()[old(self).cur()].choices is None
                    &&& exists|k: int|
                        0 <= k < old(self).edge_list().len() && (#[trigger] old(
                            self,
                        ).edge_list()[k]) == (old(self).cur(), final(self).cur())
                    &&& forall|k: int|
                        0 <= k < old(self).edge_list().len() && (#[trigger] old(
                            self,
                        ).edge_list()[k]).0 == old(self).cur() ==> old(self).edge_list()[k].1
                            == final(self).cur()
                },
                Err(e) => {
                    &&& *final(self) == *old(self)
                    &&& if old(self).nodes()[old(self).cur()].choices is Some {
                        e == ConversationError::ChoicesNotHandled
                    } else {
                        e == ConversationError::NoNextDialogue && forall|k: int|
                            0 <= k < old(self).edge_list().len() ==> (#[trigger] old(
                                self,
                            ).edge_list()[k]).0 != old(self).cur()
                    }
                },
            },
    {
        let has_choices: bool = match graph_node_weight(&self.graph, self.current) {
            // the cursor is inside the graph whenever the instance is
            // well-formed, so this arm is unreachable; kept as a defensive
            // check, as a host would expect
            None => {
                return Err(ConversationError::InvalidDialogue);
            },
            Some(node) => node.choices.is_some(),
        };
        if has_choices {
            return Err(ConversationError::ChoicesNotHandled);
        }
        match graph_first_edge_target(&self.graph, self.current) {
            None => Err(ConversationError::NoNextDialogue),
            Some(t) => {
                self.current = t;
                Ok(())
            },
        }
    }

    /// Moves the cursor to the node carrying `id`, whether or not an edge
    /// leads there. Fails without moving when no node carries `id`.
    pub fn jump_to(&mut self, id: ActionId) -> (r: Result<(), ConversationError>)
        requires
            old(self).wf(),
        ensures
            final(self).wf(),
            final(self).nodes() == old(self).nodes(),
            final(self).edge_list() == old(self).edge_list(),
            final(self).ids() == old(self).ids(),
            match r {
                Ok(()) => index_of(old(self).ids(), id) == Some(final(self).cur()),
                Err(e) => {
                    &&& *final(self) == *old(self)
                    &&& e == ConversationError::WrongJump(id)
                    &&& index_of(old(self).ids(), id) is None
                },
            },
    {
        match find_pos(&self.node_ids, id) {
            Some(p) => {
                self.current = p;
                Ok(())
            },
            None => Err(ConversationError::WrongJump(id)),
        }
    }

    /// The choices of the current node, in authored order, without moving the
    /// cursor. Fails when the current node is a line node.
    pub fn choices(&self) -> (r: Result<Vec<Choice>, ConversationError>)
        requires
            self.wf(),
        ensures
            match r {
                Ok(cs) => {
                    &&& self.nodes()[self.cur()].choices is Some
                    &&& cs@ == self.nodes()[self.cur()].choices.unwrap()@
                },
                Err(e) => {
                    &&& e == ConversationError::NoChoices
                    &&& self.nodes()[self.cur()].choices is None
                },
            },
    {
        match graph_node_weight(&self.graph, self.current) {
            // unreachable under well-formedness; kept as a defensive check
            None => Err(ConversationError::InvalidDialogue),
            Some(node) => match &node.choices {
                Some(cs) => Ok(clone_choices(cs)),
                None => Err(ConversationError::NoChoices),
            },
        }
    }
}

// ---------------------------------------------------------------------------
// Verified helpers.
// ---------------------------------------------------------------------------

/// Decides whether an entry becomes the start node: true exactly when its
/// start flag is set. Errs when the flag is set but a start is already known.
pub fn check_start_flag(start_flag: Option<bool>, already_have_start: bool) -> (r: Result<
    bool,
    ScriptParsingError,
>)
    ensures
        match r {
            Ok(b) => b == (start_flag == Some(true)) && !(b && already_have_start),
            Err(e) => {
                &&& e == ScriptParsingError::MultipleStartingAction
                &&& start_flag == Some(true)
                &&& already_have_start
            },
        },
{
    if let Some(true) = start_flag {
        if already_have_start {
            return Err(ScriptParsingError::MultipleStartingAction);
        }
        return Ok(true);
    }
    Ok(false)
}

/// First-match lookup of an actor record by its string key.
fn lookup_actor(actors_map: &Vec<(String, Actor)>, name: &String) -> (r: Option<Actor>)
    ensures
        r == table_lookup(actors_map@, name@),
{
    let n = actors_map.len();
    let mut k: usize = 0;
    while k < n
        invariant
            k <= n,
            n == actors_map@.len(),
            table_lookup(actors_map@, name@) == table_lookup_from(actors_map@, name@, k as int),
        decreases n - k,
    {
        let pair = &actors_map[k];
        if pair.0 == *name {
            let a = Actor { name: pair.1.name.clone(), asset: pair.1.asset.clone() };
            assert(a == actors_map@[k as int].1);
            return Some(a);
        }
        k += 1;
    }
    None
}

/// Resolves an actor line's references against the actor table, in order.
/// Fails with the line's id and the first key the table does not hold.
fn extract_actors(aaction: &ActorAction, actors_map: &Vec<(String, Actor)>) -> (r: Result<
    Option<Vec<Actor>>,
    ScriptParsingError,
>)
    ensures
        match r {
            Ok(opt) => match (opt, aaction.actors) {
                (None, None) => true,
                (Some(v), Some(refs)) => first_missing_ref_from(refs@, actors_map@, 0) is None
                    && v@ == resolved_actors(refs@, actors_map@),
                _ => false,
            },
            Err(e) => {
                &&& aaction.actors is Some
                &&& first_missing_ref_from(aaction.actors.unwrap()@, actors_map@, 0) is Some
                &&& e == ScriptParsingError::ActorNotFound(
                    aaction.id,
                    first_missing_ref_from(aaction.actors.unwrap()@, actors_map@, 0).unwrap(),
                )
            },
        },
{
    match &aaction.actors {
        None => Ok(None),
        Some(actors_vec) => {
            let n = actors_vec.len();
            let mut actors: Vec<Actor> = Vec::new();
            let mut k: usize = 0;
            while k < n
                invariant
                    k <= n,
                    n == actors_vec@.len(),
                    aaction.actors == Some(*actors_vec),
                    first_missing_ref_from(actors_vec@, actors_map@, 0) == first_missing_ref_from(
                        actors_vec@,
                        actors_map@,
                        k as int,
                    ),
                    actors@.len() == k,
                    forall|j: int|
                        0 <= j < k ==> actors@[j] == table_lookup(
                            actors_map@,
                            actors_vec@[j]@,
                        ).unwrap(),
                decreases n - k,
            {
                match lookup_actor(actors_map, &actors_vec[k]) {
                    Some(a) => {
                        actors.push(a);
                    },
                    None => {
                        proof {
                            assert(first_missing_ref_from(actors_vec@, actors_map@, k as int)
                                == Some(actors_vec@[k as int]));
                        }
                        return Err(
                            ScriptParsingError::ActorNotFound(aaction.id, actors_vec[k].clone()),
                        );
                    },
                }
                k += 1;
            }
            assert(actors@ =~= resolved_actors(actors_vec@, actors_map@));
            Ok(Some(actors))
        },
    }
}

/// Builds the graph node of one entry: resolved line data for an actor line,
/// the carried choice list for a player entry.
fn make_node(action: &ActorOrPlayerActionJSON, actors_map: &Vec<(String, Actor)>) -> (r: Result<
    ConvoNode,
    ScriptParsingError,
>)
    ensures
        match r {
            Ok(n) => entry_missing_ref(*action, actors_map@) is None && node_matches(
                n,
                *action,
                actors_map@,
            ),
            Err(e) => {
                &&& entry_missing_ref(*action, actors_map@) is Some
                &&& e == ScriptParsingError::ActorNotFound(
                    action.spec_id(),
                    entry_missing_ref(*action, actors_map@).unwrap(),
                )
            },
        },
{
    match action {
        ActorOrPlayerActionJSON::Actor(a) => {
            let actors = match extract_actors(a, actors_map) {
                Ok(o) => o,
                Err(e) => {
                    return Err(e);
                },
            };
            let text = match &a.text {
                Some(tx) => Some(tx.clone()),
                None => None,
            };
            Ok(ConvoNode { text, actors, choices: None })
        },
        ActorOrPlayerActionJSON::Player(p) => Ok(
            ConvoNode { text: None, actors: None, choices: Some(clone_choices(&p.choices)) },
        ),
    }
}

/// Whether some earlier entry shares entry `i`'s id.
fn id_occurs_before(script: &Vec<ActorOrPlayerActionJSON>, i: usize) -> (b: bool)
    requires
        i < script@.len(),
    ensures
        b == dup_before(script@, i as int),
{
    let target = script[i].id();
    let mut j: usize = 0;
    while j < i
        invariant
            j <= i < script@.len(),
            target == script@[i as int].spec_id(),
            forall|q: int| 0 <= q < j ==> (#[trigger] script@[q].spec_id()) != target,
        decreases i - j,
    {
        if script[j].id() == target {
            return true;
        }
        j += 1;
    }
    false
}

/// Position of the node carrying id `x`, by linear scan of the id table.
fn find_pos(ids: &Vec<ActionId>, x: ActionId) -> (r: Option<usize>)
    ensures
        match r {
            Some(p) => p < ids@.len() && index_of(ids@, x) == Some(p as int),
            None => index_of(ids@, x) is None,
        },
{
    let n = ids.len();
    let mut k: usize = 0;
    while k < n
        invariant
            k <= n,
            n == ids@.len(),
            index_of(ids@, x) == index_of_from(ids@, x, k as int),
        decreases n - k,
    {
        if ids[k] == x {
            return Some(k);
        }
        k += 1;
    }
    None
}

/// An element-wise copy of a choice list, equal to its source.
pub(crate) fn clone_choices(cs: &Vec<Choice>) -> (r: Vec<Choice>)
    ensures
        r@ == cs@,
{
    let n = cs.len();
    let mut r: Vec<Choice> = Vec::new();
    let mut k: usize = 0;
    while k < n
        invariant
            k <= n,
            n == cs@.len(),
            r@.len() == k,
            forall|j: int| 0 <= j < k ==> r@[j] == cs@[j],
        decreases n - k,
    {
        let c = Choice { text: cs[k].text.clone(), next: cs[k].next };
        assert(c == cs@[k as int]);
        r.push(c);
        k += 1;
    }
    assert(r@ =~= cs@);
    r
}

} // verus!
