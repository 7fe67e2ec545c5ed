//! The builder's guarantees, stated and proved over its specification: what
//! gets rejected and with which error, and how the edge list of a successful
//! build decomposes around one entry.

use vstd::prelude::*;
use crate::conversation::build_err_spec;
use crate::conversation::choice_edge_part;
use crate::conversation::dup_before;
use crate::conversation::edges_of;
use crate::conversation::edges_upto;
use crate::conversation::effective_next;
use crate::conversation::entry_edges;
use crate::conversation::entry_missing_ref;
use crate::conversation::entry_phase2_err;
use crate::conversation::entry_phase3_err;
use crate::conversation::find_phase1;
use crate::conversation::find_phase2;
use crate::conversation::find_phase3;
use crate::conversation::find_start_from;
use crate::conversation::first_dangling_choice_from;
use crate::conversation::has_start_before;
use crate::conversation::ids_of;
use crate::conversation::index_of;
use crate::conversation::index_of_from;
use crate::conversation::lemma_index_of_from_char;
use crate::conversation::lemma_phase2_clear_distinct;
use crate::conversation::next_edge_part;
use crate::conversation::phase1_err_at;
use crate::errors::ScriptParsingError;
use crate::script::ActionId;
use crate::script::Actor;
use crate::script::ActorOrPlayerActionJSON;
use crate::script::Choice;

verus! {

/// Some two entries share the id `d`.
pub open spec fn is_duplicated_id(s: Seq<ActorOrPlayerActionJSON>, d: ActionId) -> bool {
    exists|a: int, b: int|
        0 <= a < b < s.len() && (#[trigger] s[a].spec_id()) == d && (#[trigger] s[b].spec_id())
            == d
}

/// Entry with id `src` references `miss` (as explicit successor or as a
/// choice target), and no entry carries the id `miss`.
pub open spec fn is_dangling_ref(
    s: Seq<ActorOrPlayerActionJSON>,
    src: ActionId,
    miss: ActionId,
) -> bool {
    index_of(ids_of(s), miss) is None && exists|k: int|
        0 <= k < s.len() && (#[trigger] s[k].spec_id()) == src && (s[k].spec_next() == Some(miss)
            || exists|c: int| 0 <= c < s[k].spec_choices().len() && (#[trigger] s[k].spec_choices()[c]).next == miss)
}

// ---------------------------------------------------------------------------
// Characterizations of the phase walks.
// ---------------------------------------------------------------------------

proof fn lemma_find_phase1_sound(s: Seq<ActorOrPlayerActionJSON>, k: int)
    requires
        0 <= k <= s.len(),
        find_phase1(s, k) is Some,
    ensures
        exists|m: int|
            k <= m < s.len() && #[trigger] phase1_err_at(s, m) && find_phase1(s, k) == Some(
                s[m].spec_id(),
            ),
    decreases s.len() - k,
{
    if phase1_err_at(s, k) {
        assert(phase1_err_at(s, k) && find_phase1(s, k) == Some(s[k].spec_id()));
    } else {
        lemma_find_phase1_sound(s, k + 1);
    }
}

proof fn lemma_find_phase1_none(s: Seq<ActorOrPlayerActionJSON>, k: int)
    requires
        0 <= k <= s.len(),
        find_phase1(s, k) is None,
    ensures
        forall|j: int| k <= j < s.len() ==> !(#[trigger] phase1_err_at(s, j)),
    decreases s.len() - k,
{
    if k < s.len() {
        lemma_find_phase1_none(s, k + 1);
    }
}

proof fn lemma_find_phase2_sound(s: Seq<ActorOrPlayerActionJSON>, t: Seq<(String, Actor)>, k: int)
    requires
        0 <= k <= s.len(),
        find_phase2(s, t, k) is Some,
    ensures
        exists|m: int|
            k <= m < s.len() && (#[trigger] entry_phase2_err(s, t, m)) == find_phase2(s, t, k),
    decreases s.len() - k,
{
    if entry_phase2_err(s, t, k) is Some {
        assert(entry_phase2_err(s, t, k) == find_phase2(s, t, k));
    } else {
        lemma_find_phase2_sound(s, t, k + 1);
    }
}

proof fn lemma_find_phase2_finds(
    s: Seq<ActorOrPlayerActionJSON>,
    t: Seq<(String, Actor)>,
    k: int,
    j: int,
)
    requires
        0 <= k <= j < s.len(),
        entry_phase2_err(s, t, j) is Some,
    ensures
        find_phase2(s, t, k) is Some,
    decreases j - k,
{
    if k < j && entry_phase2_err(s, t, k) is None {
        lemma_find_phase2_finds(s, t, k + 1, j);
    }
}

proof fn lemma_find_phase3_sound(s: Seq<ActorOrPlayerActionJSON>, k: int)
    requires
        0 <= k <= s.len(),
        find_phase3(s, k) is Some,
    ensures
        exists|m: int|
            k <= m < s.len() && (#[trigger] entry_phase3_err(s, m)) == find_phase3(s, k),
    decreases s.len() - k,
{
    if entry_phase3_err(s, k) is Some {
        assert(entry_phase3_err(s, k) == find_phase3(s, k));
    } else {
        lemma_find_phase3_sound(s, k + 1);
    }
}

proof fn lemma_find_phase3_finds(s: Seq<ActorOrPlayerActionJSON>, k: int, j: int)
    requires
        0 <= k <= j < s.len(),
        entry_phase3_err(s, j) is Some,
    ensures
        find_phase3(s, k) is Some,
    decreases j - k,
{
    if k < j && entry_phase3_err(s, k) is None {
        lemma_find_phase3_finds(s, k + 1, j);
    }
}

proof fn lemma_find_phase3_none(s: Seq<ActorOrPlayerActionJSON>, k: int)
    requires
        0 <= k <= s.len(),
        find_phase3(s, k) is None,
    ensures
        forall|j: int| k <= j < s.len() ==> (#[trigger] entry_phase3_err(s, j)) is None,
    decreases s.len() - k,
{
    if k < s.len() {
        lemma_find_phase3_none(s, k + 1);
    }
}

proof fn lemma_find_start_char(s: Seq<ActorOrPlayerActionJSON>, k: int)
    requires
        0 <= k <= s.len(),
    ensures
        match find_start_from(s, k) {
            None => forall|j: int| k <= j < s.len() ==> !(#[trigger] s[j]).is_start(),
            Some(p) => k <= p < s.len() && s[p].is_start() && forall|j: int|
                k <= j < p ==> !(#[trigger] s[j]).is_start(),
        },
    decreases s.len() - k,
{
    if k < s.len() && !s[k].is_start() {
        lemma_find_start_char(s, k + 1);
    }
}

proof fn lemma_first_dangling_sound(ids: Seq<ActionId>, cs: Seq<Choice>, k: int)
    requires
        0 <= k <= cs.len(),
        first_dangling_choice_from(ids, cs, k) is Some,
    ensures
        exists|q: int|
            k <= q < cs.len() && Some((#[trigger] cs[q]).next) == first_dangling_choice_from(
                ids,
                cs,
                k,
            ) && index_of(ids, cs[q].next) is None,
    decreases cs.len() - k,
{
    if index_of(ids, cs[k].next) is None {
        assert(Some(cs[k].next) == first_dangling_choice_from(ids, cs, k));
    } else {
        lemma_first_dangling_sound(ids, cs, k + 1);
    }
}

proof fn lemma_first_dangling_none(ids: Seq<ActionId>, cs: Seq<Choice>, k: int)
    requires
        0 <= k <= cs.len(),
        first_dangling_choice_from(ids, cs, k) is None,
    ensures
        forall|q: int| k <= q < cs.len() ==> index_of(ids, (#[trigger] cs[q]).next) is Some,
    decreases cs.len() - k,
{
    if k < cs.len() {
        lemma_first_dangling_none(ids, cs, k + 1);
    }
}

// ---------------------------------------------------------------------------
// The outgoing edges of one node in a built edge list.
// ---------------------------------------------------------------------------

/// The outgoing edges of source `p`, in insertion order.
pub open spec fn out_edges(es: Seq<(int, int)>, p: int) -> Seq<(int, int)>
    decreases es.len(),
{
    if es.len() == 0 {
        Seq::empty()
    } else if es.last().0 == p {
        out_edges(es.drop_last(), p).push(es.last())
    } else {
        out_edges(es.drop_last(), p)
    }
}

proof fn lemma_out_edges_concat(a: Seq<(int, int)>, b: Seq<(int, int)>, p: int)
    ensures
        out_edges(a + b, p) == out_edges(a, p) + out_edges(b, p),
    decreases b.len(),
{
    if b.len() == 0 {
        assert(a + b =~= a);
        assert(out_edges(a, p) + out_edges(b, p) =~= out_edges(a, p));
    } else {
        lemma_out_edges_concat(a, b.drop_last(), p);
        assert((a + b).drop_last() =~= a + b.drop_last());
        assert((a + b).last() == b.last());
        if b.last().0 == p {
            assert(out_edges(a, p) + out_edges(b, p) =~= (out_edges(a, p) + out_edges(
                b.drop_last(),
                p,
            )).push(b.last()));
        }
    }
}

proof fn lemma_out_edges_same_source(es: Seq<(int, int)>, p: int)
    requires
        forall|k: int| 0 <= k < es.len() ==> (#[trigger] es[k]).0 == p,
    ensures
        out_edges(es, p) == es,
    decreases es.len(),
{
    if es.len() > 0 {
        lemma_out_edges_same_source(es.drop_last(), p);
        assert(out_edges(es, p) =~= es);
    }
}

proof fn lemma_out_edges_other_source(es: Seq<(int, int)>, p: int)
    requires
        forall|k: int| 0 <= k < es.len() ==> (#[trigger] es[k]).0 != p,
    ensures
        out_edges(es, p) == Seq::<(int, int)>::empty(),
    decreases es.len(),
{
    if es.len() > 0 {
        lemma_out_edges_other_source(es.drop_last(), p);
    }
}

proof fn lemma_entry_edges_source(s: Seq<ActorOrPlayerActionJSON>, i: int)
    ensures
        forall|k: int| 0 <= k < entry_edges(s, i).len() ==> (#[trigger] entry_edges(s, i)[k]).0
            == i,
{
    assert forall|k: int| 0 <= k < entry_edges(s, i).len() implies (#[trigger] entry_edges(
        s,
        i,
    )[k]).0 == i by {
        let np = next_edge_part(s, i);
        if k < np.len() {
            assert(entry_edges(s, i)[k] == np[k]);
        } else {
            assert(entry_edges(s, i)[k] == choice_edge_part(s, i)[k - np.len()]);
        }
    }
}

proof fn lemma_out_edges_upto(s: Seq<ActorOrPlayerActionJSON>, p: int, k: int)
    requires
        0 <= p,
        0 <= k <= s.len(),
    ensures
        out_edges(edges_upto(s, k), p) == if p < k {
            entry_edges(s, p)
        } else {
            Seq::<(int, int)>::empty()
        },
    decreases k,
{
    if k == 0 {
        assert(out_edges(edges_upto(s, 0), p) =~= Seq::<(int, int)>::empty());
    } else {
        lemma_out_edges_upto(s, p, k - 1);
        lemma_out_edges_concat(edges_upto(s, k - 1), entry_edges(s, k - 1), p);
        lemma_entry_edges_source(s, k - 1);
        if p == k - 1 {
            lemma_out_edges_same_source(entry_edges(s, k - 1), p);
            assert(out_edges(edges_upto(s, k), p) =~= entry_edges(s, p));
        } else {
            lemma_out_edges_other_source(entry_edges(s, k - 1), p);
            assert(out_edges(edges_upto(s, k), p) =~= out_edges(edges_upto(s, k - 1), p));
        }
    }
}

/// In a full build, the outgoing edges of node `p` are exactly entry `p`'s
/// block, in order: the chain edge first, then the choice edges.
pub proof fn lemma_out_edges_of(s: Seq<ActorOrPlayerActionJSON>, p: int)
    requires
        0 <= p < s.len(),
    ensures
        out_edges(edges_of(s), p) == entry_edges(s, p),
{
    lemma_out_edges_upto(s, p, s.len() as int);
}

/// Under pairwise-distinct ids, the id of entry `p` is found exactly at `p`.
proof fn lemma_index_of_own_id(s: Seq<ActorOrPlayerActionJSON>, p: int)
    requires
        0 <= p < s.len(),
        forall|q1: int, q2: int|
            0 <= q1 < q2 < s.len() ==> (#[trigger] ids_of(s)[q1]) != (#[trigger] ids_of(s)[q2]),
    ensures
        index_of(ids_of(s), s[p].spec_id()) == Some(p),
{
    let ids = ids_of(s);
    lemma_index_of_from_char(ids, ids[p], 0);
    match index_of(ids, ids[p]) {
        None => {
            assert(false);
        },
        Some(q) => {
            if q != p {
                assert(ids[q] == ids[p]);
                assert(false);
            }
        },
    }
}

// ---------------------------------------------------------------------------
// The laws.
// ---------------------------------------------------------------------------

/// Duplicate ids are rejected: a script holding two entries with the same id
/// fails with the duplicate-id error naming a duplicated id, whatever the
/// kinds of the two entries — provided no unresolved actor reference and no
/// second start flag preempts the duplicate check, as those phases run first.
pub proof fn lemma_duplicate_id_rejected(
    s: Seq<ActorOrPlayerActionJSON>,
    t: Seq<(String, Actor)>,
    i: int,
    j: int,
)
    requires
        0 <= i < j < s.len(),
        s[i].spec_id() == s[j].spec_id(),
        forall|k: int| 0 <= k < s.len() ==> (#[trigger] entry_missing_ref(s[k], t)) is None,
        forall|k1: int, k2: int|
            0 <= k1 < k2 < s.len() ==> !((#[trigger] s[k1]).is_start() && (
            #[trigger] s[k2]).is_start()),
    ensures
        build_err_spec(s, t) matches Some(ScriptParsingError::RepeatedId(d)) && is_duplicated_id(
            s,
            d,
        ),
{
    assert(dup_before(s, j));
    if find_phase1(s, 0) is Some {
        lemma_find_phase1_sound(s, 0);
        let m = choose|m: int|
            0 <= m < s.len() && #[trigger] phase1_err_at(s, m) && find_phase1(s, 0) == Some(
                s[m].spec_id(),
            );
        let a = choose|a: int| 0 <= a < m && (#[trigger] s[a].spec_id()) == s[m].spec_id();
        assert(is_duplicated_id(s, s[m].spec_id()));
    } else {
        assert(entry_phase2_err(s, t, j) is Some) by {
            if s[j].is_start() && has_start_before(s, j) {
                let a = choose|a: int| 0 <= a < j && (#[trigger] s[a]).is_start();
                assert(false);
            }
        }
        lemma_find_phase2_finds(s, t, 0, j);
        lemma_find_phase2_sound(s, t, 0);
        let m = choose|m: int|
            0 <= m < s.len() && (#[trigger] entry_phase2_err(s, t, m)) == find_phase2(s, t, 0);
        if s[m].is_start() && has_start_before(s, m) {
            let a = choose|a: int| 0 <= a < m && (#[trigger] s[a]).is_start();
            assert(false);
        }
        assert(dup_before(s, m));
        let a = choose|a: int| 0 <= a < m && (#[trigger] s[a].spec_id()) == s[m].spec_id();
        assert(is_duplicated_id(s, s[m].spec_id()));
    }
}

/// A single entry point is enforced: among scripts whose ids are unique,
/// whose actor references resolve and whose successor references close, one
/// with no start flag fails with the no-start error, one with two or more
/// fails with the multiple-start error, and construction succeeds exactly
/// when one entry carries the flag — the cursor then sits on it.
pub proof fn lemma_single_entry_point(s: Seq<ActorOrPlayerActionJSON>, t: Seq<(String, Actor)>)
    requires
        s.len() > 0,
        forall|k: int| 0 <= k < s.len() ==> !(#[trigger] dup_before(s, k)),
        forall|k: int| 0 <= k < s.len() ==> (#[trigger] entry_missing_ref(s[k], t)) is None,
        forall|k: int| 0 <= k < s.len() ==> (#[trigger] entry_phase3_err(s, k)) is None,
    ensures
        (forall|k: int| 0 <= k < s.len() ==> !(#[trigger] s[k]).is_start()) ==> build_err_spec(
            s,
            t,
        ) == Some(ScriptParsingError::NoStartingAction),
        (exists|a: int, b: int|
            0 <= a < b < s.len() && (#[trigger] s[a]).is_start() && (#[trigger] s[b]).is_start())
            ==> build_err_spec(s, t) == Some(ScriptParsingError::MultipleStartingAction),
        build_err_spec(s, t) is None <==> ((exists|k: int|
            0 <= k < s.len() && (#[trigger] s[k]).is_start()) && (forall|a: int, b: int|
            0 <= a < b < s.len() ==> !((#[trigger] s[a]).is_start() && (
            #[trigger] s[b]).is_start()))),
        build_err_spec(s, t) is None ==> (find_start_from(s, 0) matches Some(p) && s[p].is_start()
            && forall|q: int| 0 <= q < s.len() && q != p ==> !(#[trigger] s[q]).is_start()),
{
    if find_phase1(s, 0) is Some {
        lemma_find_phase1_sound(s, 0);
        assert(false);
    }
    if find_phase3(s, 0) is Some {
        lemma_find_phase3_sound(s, 0);
        assert(false);
    }
    lemma_find_start_char(s, 0);
    // no start flag at all
    if forall|k: int| 0 <= k < s.len() ==> !(#[trigger] s[k]).is_start() {
        if find_phase2(s, t, 0) is Some {
            lemma_find_phase2_sound(s, t, 0);
            let m = choose|m: int|
                0 <= m < s.len() && (#[trigger] entry_phase2_err(s, t, m)) == find_phase2(s, t, 0);
            assert(false);
        }
        assert(find_start_from(s, 0) is None);
    }
    // two or more start flags
    if exists|a: int, b: int|
        0 <= a < b < s.len() && (#[trigger] s[a]).is_start() && (#[trigger] s[b]).is_start() {
        let (a, b) = choose|a: int, b: int|
            0 <= a < b < s.len() && (#[trigger] s[a]).is_start() && (#[trigger] s[b]).is_start();
        assert(has_start_before(s, b));
        assert(entry_phase2_err(s, t, b) == Some(ScriptParsingError::MultipleStartingAction));
        lemma_find_phase2_finds(s, t, 0, b);
        lemma_find_phase2_sound(s, t, 0);
        let m = choose|m: int|
            0 <= m < s.len() && (#[trigger] entry_phase2_err(s, t, m)) == find_phase2(s, t, 0);
        assert(entry_phase2_err(s, t, m) == Some(ScriptParsingError::MultipleStartingAction));
        assert(build_err_spec(s, t) == Some(ScriptParsingError::MultipleStartingAction));
    }
    // exactly one start flag: success, and only then
    if (exists|k: int| 0 <= k < s.len() && (#[trigger] s[k]).is_start()) && (forall|a: int, b: int|
        0 <= a < b < s.len() ==> !((#[trigger] s[a]).is_start() && (#[trigger] s[b]).is_start())) {
        if find_phase2(s, t, 0) is Some {
            lemma_find_phase2_sound(s, t, 0);
            let m = choose|m: int|
                0 <= m < s.len() && (#[trigger] entry_phase2_err(s, t, m)) == find_phase2(s, t, 0);
            if s[m].is_start() && has_start_before(s, m) {
                let a = choose|a: int| 0 <= a < m && (#[trigger] s[a]).is_start();
                assert(false);
            }
            assert(false);
        }
        let k0 = choose|k: int| 0 <= k < s.len() && (#[trigger] s[k]).is_start();
        assert(find_start_from(s, 0) is Some);
        assert(build_err_spec(s, t) is None);
    }
    if build_err_spec(s, t) is None {
        assert(find_start_from(s, 0) is Some);
        let p = find_start_from(s, 0).unwrap();
        assert(s[p].is_start());
        if exists|a: int, b: int|
            0 <= a < b < s.len() && (#[trigger] s[a]).is_start() && (#[trigger] s[b]).is_start() {
            assert(build_err_spec(s, t) == Some(ScriptParsingError::MultipleStartingAction));
            assert(false);
        }
        assert forall|q: int| 0 <= q < s.len() && q != p implies !(#[trigger] s[q]).is_start() by {
            if s[q].is_start() {
                if q < p {
                    assert(s[q].is_start() && s[p].is_start());
                } else {
                    assert(s[p].is_start() && s[q].is_start());
                }
            }
        }
    }
}

/// Dangling references are rejected: when ids are unique, actors resolve and
/// the start flag is not doubled, a script holding some explicit successor or
/// choice target that names no entry fails with the next-not-found error
/// carrying an actual (source id, missing id) pair of the script.
pub proof fn lemma_dangling_reference_rejected(
    s: Seq<ActorOrPlayerActionJSON>,
    t: Seq<(String, Actor)>,
)
    requires
        s.len() > 0,
        forall|k: int| 0 <= k < s.len() ==> !(#[trigger] dup_before(s, k)),
        forall|k: int| 0 <= k < s.len() ==> (#[trigger] entry_missing_ref(s[k], t)) is None,
        forall|k1: int, k2: int|
            0 <= k1 < k2 < s.len() ==> !((#[trigger] s[k1]).is_start() && (
            #[trigger] s[k2]).is_start()),
        exists|k: int| 0 <= k < s.len() && (#[trigger] entry_phase3_err(s, k)) is Some,
    ensures
        build_err_spec(s, t) matches Some(ScriptParsingError::NextActionNotFound(src, miss))
            && is_dangling_ref(s, src, miss),
{
    if find_phase1(s, 0) is Some {
        lemma_find_phase1_sound(s, 0);
        assert(false);
    }
    if find_phase2(s, t, 0) is Some {
        lemma_find_phase2_sound(s, t, 0);
        let m = choose|m: int|
            0 <= m < s.len() && (#[trigger] entry_phase2_err(s, t, m)) == find_phase2(s, t, 0);
        if s[m].is_start() && has_start_before(s, m) {
            let a = choose|a: int| 0 <= a < m && (#[trigger] s[a]).is_start();
            assert(false);
        }
        assert(false);
    }
    let k0 = choose|k: int| 0 <= k < s.len() && (#[trigger] entry_phase3_err(s, k)) is Some;
    lemma_find_phase3_finds(s, 0, k0);
    lemma_find_phase3_sound(s, 0);
    let m = choose|m: int|
        0 <= m < s.len() && (#[trigger] entry_phase3_err(s, m)) == find_phase3(s, 0);
    let pair = entry_phase3_err(s, m).unwrap();
    if s[m].spec_next() is Some && index_of(ids_of(s), s[m].spec_next().unwrap()) is None {
        assert(is_dangling_ref(s, pair.0, pair.1));
    } else {
        lemma_first_dangling_sound(ids_of(s), s[m].spec_choices(), 0);
        let q = choose|q: int|
            0 <= q < s[m].spec_choices().len() && Some((#[trigger] s[m].spec_choices()[q]).next)
                == first_dangling_choice_from(ids_of(s), s[m].spec_choices(), 0) && index_of(
                ids_of(s),
                s[m].spec_choices()[q].next,
            ) is None;
        assert(is_dangling_ref(s, pair.0, pair.1));
    }
}

/// Implicit chaining: in a successful build, an actor line without an
/// explicit successor is wired to the entry right after it — one single
/// outgoing edge — and has no outgoing edge at all when it closes the script.
pub proof fn lemma_implicit_chaining(
    s: Seq<ActorOrPlayerActionJSON>,
    t: Seq<(String, Actor)>,
    i: int,
)
    requires
        build_err_spec(s, t) is None,
        0 <= i < s.len(),
        s[i] is Actor,
        s[i].spec_next() is None,
    ensures
        i + 1 < s.len() ==> out_edges(edges_of(s), i) == seq![(i, i + 1)],
        i + 1 == s.len() ==> out_edges(edges_of(s), i) == Seq::<(int, int)>::empty(),
{
    lemma_out_edges_of(s, i);
    assert(s[i].spec_choices() =~= Seq::<Choice>::empty());
    assert(choice_edge_part(s, i) =~= Seq::<(int, int)>::empty());
    if i + 1 < s.len() {
        lemma_phase2_clear_distinct(s, t);
        lemma_index_of_own_id(s, i + 1);
        assert(effective_next(s, i) == Some(s[i + 1].spec_id()));
        assert(next_edge_part(s, i) =~= seq![(i, i + 1)]);
        assert(entry_edges(s, i) =~= seq![(i, i + 1)]);
    } else {
        assert(effective_next(s, i) is None);
        assert(entry_edges(s, i) =~= Seq::<(int, int)>::empty());
    }
}

/// Branch fan-out: in a successful build, a player entry with `k` choices
/// contributes exactly one outgoing edge per choice, in authored order, each
/// aimed at the node carrying the choice's target id — plus the one
/// positional chain edge to the following entry when the player entry is not
/// last, and nothing else.
pub proof fn lemma_branch_fan_out(s: Seq<ActorOrPlayerActionJSON>, t: Seq<(String, Actor)>, i: int)
    requires
        build_err_spec(s, t) is None,
        0 <= i < s.len(),
        s[i] is Player,
    ensures
        out_edges(edges_of(s), i) == next_edge_part(s, i) + choice_edge_part(s, i),
        i + 1 < s.len() ==> next_edge_part(s, i) == seq![(i, i + 1)],
        i + 1 == s.len() ==> next_edge_part(s, i) == Seq::<(int, int)>::empty(),
        choice_edge_part(s, i).len() == s[i].spec_choices().len(),
        out_edges(edges_of(s), i).len() == s[i].spec_choices().len() + if i + 1 < s.len() {
            1int
        } else {
            0int
        },
        forall|c: int|
            0 <= c < s[i].spec_choices().len() ==> {
                &&& (#[trigger] choice_edge_part(s, i)[c]).0 == i
                &&& 0 <= choice_edge_part(s, i)[c].1 < s.len()
                &&& ids_of(s)[choice_edge_part(s, i)[c].1] == s[i].spec_choices()[c].next
            },
{
    lemma_out_edges_of(s, i);
    lemma_phase2_clear_distinct(s, t);
    assert(find_phase3(s, 0) is None);
    lemma_find_phase3_none(s, 0);
    assert(entry_phase3_err(s, i) is None);
    assert(first_dangling_choice_from(ids_of(s), s[i].spec_choices(), 0) is None);
    lemma_first_dangling_none(ids_of(s), s[i].spec_choices(), 0);
    if i + 1 < s.len() {
        lemma_index_of_own_id(s, i + 1);
        assert(effective_next(s, i) == Some(s[i + 1].spec_id()));
        assert(next_edge_part(s, i) =~= seq![(i, i + 1)]);
    } else {
        assert(effective_next(s, i) is None);
        assert(next_edge_part(s, i) =~= Seq::<(int, int)>::empty());
    }
    assert forall|c: int| 0 <= c < s[i].spec_choices().len() implies {
        &&& (#[trigger] choice_edge_part(s, i)[c]).0 == i
        &&& 0 <= choice_edge_part(s, i)[c].1 < s.len()
        &&& ids_of(s)[choice_edge_part(s, i)[c].1] == s[i].spec_choices()[c].next
    } by {
        assert(index_of(ids_of(s), s[i].spec_choices()[c].next) is Some);
        lemma_index_of_from_char(ids_of(s), s[i].spec_choices()[c].next, 0);
        assert(choice_edge_part(s, i)[c] == (
            i,
            index_of(ids_of(s), s[i].spec_choices()[c].next).unwrap(),
        ));
    }
}

} // verus!
