//! Merging subagent updates into the list a session keeps.

use crate::json::chars_lt;
use crate::text::{str_eq, to_chars};
use crate::transition::copies::copy_subagent;
use crate::transition::model::{subagents_view, SubagentInfo, SubagentView};
use vstd::prelude::*;

verus! {

/// The index of the first subagent with this id.
pub open spec fn agent_position(list: Seq<SubagentView>, id: Seq<char>) -> Option<nat>
    decreases list.len(),
{
    if list.len() == 0 {
        None
    } else {
        match agent_position(list.drop_last(), id) {
            Some(p) => Some(p),
            None => if list.last().id == id {
                Some((list.len() - 1) as nat)
            } else {
                None
            },
        }
    }
}

/// One update merged by id: it replaces the subagent with its id, or joins
/// the end of the list.
pub open spec fn upsert_agent(list: Seq<SubagentView>, a: SubagentView) -> Seq<SubagentView> {
    match agent_position(list, a.id) {
        Some(p) => list.update(p as int, a),
        None => list.push(a),
    }
}

/// All updates merged by id, in order.
pub open spec fn upsert_all(list: Seq<SubagentView>, incoming: Seq<SubagentView>) -> Seq<SubagentView>
    decreases incoming.len(),
{
    if incoming.len() == 0 {
        list
    } else {
        upsert_agent(upsert_all(list, incoming.drop_last()), incoming.last())
    }
}

/// Whether `a` started no later than `b`, comparing the start times as
/// text.
pub open spec fn starts_no_later(a: SubagentView, b: SubagentView) -> bool {
    !chars_lt(b.started_at, a.started_at)
}

/// `a` placed into `sorted` after every subagent that started no later.
pub open spec fn insert_by_start(sorted: Seq<SubagentView>, a: SubagentView) -> Seq<SubagentView>
    decreases sorted.len(),
{
    if sorted.len() == 0 {
        seq![a]
    } else if starts_no_later(sorted.last(), a) {
        sorted.push(a)
    } else {
        insert_by_start(sorted.drop_last(), a).push(sorted.last())
    }
}

/// The list stably sorted by start time.
pub open spec fn sort_by_start(list: Seq<SubagentView>) -> Seq<SubagentView>
    decreases list.len(),
{
    if list.len() == 0 {
        list
    } else {
        insert_by_start(sort_by_start(list.drop_last()), list.last())
    }
}

/// The merged list: updates merged by id, then sorted by start time.
pub open spec fn merged_subagents(existing: Seq<SubagentView>, incoming: Seq<SubagentView>) -> Seq<
    SubagentView,
> {
    sort_by_start(upsert_all(existing, incoming))
}

// ---------------------------------------------------------------------------
// What the merge keeps
// ---------------------------------------------------------------------------

/// Each subagent starts no later than the next one.
pub open spec fn sorted_by_start(list: Seq<SubagentView>) -> bool {
    forall|i: int, j: int|
        0 <= i && j == i + 1 && j < list.len() ==> starts_no_later(
            #[trigger] list[i],
            #[trigger] list[j],
        )
}

/// No two subagents share an id.
pub open spec fn unique_ids(list: Seq<SubagentView>) -> bool {
    forall|i: int, j: int| 0 <= i < j < list.len() ==> (#[trigger] list[i]).id != (#[trigger] list[j]).id
}

/// Some subagent in `list` has this id.
pub open spec fn names_id(list: Seq<SubagentView>, id: Seq<char>) -> bool {
    exists|k: int| 0 <= k < list.len() && (#[trigger] list[k]).id == id
}

/// No later entry of `list` has the id of the entry at `i`.
pub open spec fn is_last_for_id(list: Seq<SubagentView>, i: int) -> bool {
    forall|j: int| i < j < list.len() ==> (#[trigger] list[j]).id != list[i].id
}

proof fn lemma_chars_lt_asymmetric(a: Seq<char>, b: Seq<char>)
    ensures
        chars_lt(a, b) ==> !chars_lt(b, a),
    decreases a.len(),
{
    if a.len() > 0 && b.len() > 0 && a[0] == b[0] {
        lemma_chars_lt_asymmetric(a.drop_first(), b.drop_first());
    }
}

proof fn lemma_insert_by_start(sorted: Seq<SubagentView>, a: SubagentView)
    ensures
        insert_by_start(sorted, a).len() == sorted.len() + 1,
        forall|x: SubagentView| #[trigger]
            insert_by_start(sorted, a).contains(x) <==> sorted.contains(x) || x == a,
        sorted_by_start(sorted) ==> sorted_by_start(insert_by_start(sorted, a)),
        insert_by_start(sorted, a).last() == a || (sorted.len() > 0 && insert_by_start(
            sorted,
            a,
        ).last() == sorted.last()),
        unique_ids(sorted) && !names_id(sorted, a.id) ==> unique_ids(insert_by_start(sorted, a)),
    decreases sorted.len(),
{
    let r = insert_by_start(sorted, a);
    if sorted.len() == 0 {
        assert forall|x: SubagentView| #[trigger] r.contains(x) <==> sorted.contains(x) || x == a by {
            if r.contains(x) {
                assert(r[0] == a);
            }
            if x == a {
                assert(r[0] == a);
            }
        }
    } else if starts_no_later(sorted.last(), a) {
        assert(r == sorted.push(a));
        assert forall|x: SubagentView| #[trigger] r.contains(x) <==> sorted.contains(x) || x == a by {
            if r.contains(x) {
                let k = choose|k: int| 0 <= k < r.len() && r[k] == x;
                if k < sorted.len() {
                    assert(sorted[k] == x);
                }
            }
            if sorted.contains(x) {
                let k = choose|k: int| 0 <= k < sorted.len() && sorted[k] == x;
                assert(r[k] == x);
            }
            if x == a {
                assert(r[sorted.len() as int] == a);
            }
        }
        if unique_ids(sorted) && !names_id(sorted, a.id) {
            assert forall|i: int, j: int| 0 <= i < j < r.len() implies (#[trigger] r[i]).id != (
            #[trigger] r[j]).id by {
                if j == sorted.len() {
                    assert(r[i] == sorted[i]);
                }
            }
        }
    } else {
        let d = sorted.drop_last();
        let l = sorted.last();
        let inner = insert_by_start(d, a);
        lemma_insert_by_start(d, a);
        assert(r == inner.push(l));
        assert forall|x: SubagentView| #[trigger] r.contains(x) <==> sorted.contains(x) || x == a by {
            if r.contains(x) {
                let k = choose|k: int| 0 <= k < r.len() && r[k] == x;
                if k < inner.len() {
                    assert(inner.contains(x));
                    if d.contains(x) {
                        let m = choose|m: int| 0 <= m < d.len() && d[m] == x;
                        assert(sorted[m] == x);
                    }
                } else {
                    assert(sorted[sorted.len() - 1] == x);
                }
            }
            if sorted.contains(x) {
                let k = choose|k: int| 0 <= k < sorted.len() && sorted[k] == x;
                if k < d.len() {
                    assert(d[k] == x);
                    assert(d.contains(x));
                    assert(inner.contains(x));
                    let m = choose|m: int| 0 <= m < inner.len() && inner[m] == x;
                    assert(r[m] == x);
                } else {
                    assert(r[r.len() - 1] == x);
                }
            }
            if x == a {
                assert(inner.contains(a));
                let m = choose|m: int| 0 <= m < inner.len() && inner[m] == a;
                assert(r[m] == a);
            }
        }
        if sorted_by_start(sorted) {
            assert(sorted_by_start(d)) by {
                assert forall|i: int, j: int|
                    0 <= i && j == i + 1 && j < d.len() implies starts_no_later(
                    #[trigger] d[i],
                    #[trigger] d[j],
                ) by {
                    assert(d[i] == sorted[i] && d[j] == sorted[j]);
                }
            }
            lemma_chars_lt_asymmetric(a.started_at, l.started_at);
            if d.len() > 0 {
                assert(starts_no_later(sorted[d.len() - 1], sorted[d.len() as int]));
            }
            assert(starts_no_later(inner.last(), l));
            assert forall|i: int, j: int|
                0 <= i && j == i + 1 && j < r.len() implies starts_no_later(
                #[trigger] r[i],
                #[trigger] r[j],
            ) by {
                if j < inner.len() {
                    assert(r[i] == inner[i] && r[j] == inner[j]);
                } else {
                    assert(r[i] == inner.last());
                }
            }
        }
        if unique_ids(sorted) && !names_id(sorted, a.id) {
            assert(unique_ids(d)) by {
                assert forall|i: int, j: int| 0 <= i < j < d.len() implies (#[trigger] d[i]).id != (
                #[trigger] d[j]).id by {
                    assert(d[i] == sorted[i] && d[j] == sorted[j]);
                }
            }
            assert(!names_id(d, a.id)) by {
                if names_id(d, a.id) {
                    let k = choose|k: int| 0 <= k < d.len() && (#[trigger] d[k]).id == a.id;
                    assert(sorted[k] == d[k]);
                }
            }
            assert forall|i: int, j: int| 0 <= i < j < r.len() implies (#[trigger] r[i]).id != (
            #[trigger] r[j]).id by {
                if j == inner.len() {
                    assert(inner.contains(r[i]));
                    if r[i] == a {
                        assert(sorted[sorted.len() - 1] == l);
                    } else {
                        assert(d.contains(r[i]));
                        let m = choose|m: int| 0 <= m < d.len() && d[m] == r[i];
                        assert(sorted[m] == r[i]);
                        assert(sorted[sorted.len() - 1] == l);
                    }
                } else {
                    assert(r[i] == inner[i] && r[j] == inner[j]);
                }
            }
        }
    }
}

proof fn lemma_sort_by_start(list: Seq<SubagentView>)
    ensures
        sort_by_start(list).len() == list.len(),
        forall|x: SubagentView| #[trigger] sort_by_start(list).contains(x) <==> list.contains(x),
        sorted_by_start(sort_by_start(list)),
        unique_ids(list) ==> unique_ids(sort_by_start(list)),
    decreases list.len(),
{
    if list.len() > 0 {
        let d = list.drop_last();
        let l = list.last();
        lemma_sort_by_start(d);
        lemma_insert_by_start(sort_by_start(d), l);
        assert forall|x: SubagentView| #[trigger] sort_by_start(list).contains(x) <==> list.contains(
            x,
        ) by {
            if list.contains(x) {
                let k = choose|k: int| 0 <= k < list.len() && list[k] == x;
                if k < d.len() {
                    assert(d[k] == x);
                    assert(d.contains(x));
                }
            }
            if d.contains(x) {
                let k = choose|k: int| 0 <= k < d.len() && d[k] == x;
                assert(list[k] == x);
            }
            assert(list[list.len() - 1] == l);
        }
        if unique_ids(list) {
            assert(unique_ids(d)) by {
                assert forall|i: int, j: int| 0 <= i < j < d.len() implies (#[trigger] d[i]).id != (
                #[trigger] d[j]).id by {
                    assert(d[i] == list[i] && d[j] == list[j]);
                }
            }
            assert(!names_id(sort_by_start(d), l.id)) by {
                if names_id(sort_by_start(d), l.id) {
                    let k = choose|k: int|
                        0 <= k < sort_by_start(d).len() && (#[trigger] sort_by_start(d)[k]).id
                            == l.id;
                    assert(sort_by_start(d).contains(sort_by_start(d)[k]));
                    let m = choose|m: int| 0 <= m < d.len() && d[m] == sort_by_start(d)[k];
                    assert(list[m] == d[m]);
                    assert(list[list.len() - 1] == l);
                }
            }
        }
    }
}

proof fn lemma_agent_position_finds(list: Seq<SubagentView>, id: Seq<char>)
    ensures
        match agent_position(list, id) {
            Some(p) => p < list.len() && list[p as int].id == id,
            None => !names_id(list, id),
        },
    decreases list.len(),
{
    if list.len() > 0 {
        let d = list.drop_last();
        lemma_agent_position_finds(d, id);
        match agent_position(d, id) {
            Some(p) => {
                assert(list[p as int] == d[p as int]);
            },
            None => {
                if list.last().id != id && names_id(list, id) {
                    let k = choose|k: int| 0 <= k < list.len() && (#[trigger] list[k]).id == id;
                    assert(d[k] == list[k]);
                }
            },
        }
    }
}

proof fn lemma_upsert_agent(list: Seq<SubagentView>, a: SubagentView)
    ensures
        upsert_agent(list, a).contains(a),
        forall|x: SubagentView| #[trigger]
            upsert_agent(list, a).contains(x) ==> list.contains(x) || x == a,
        forall|x: SubagentView|
            list.contains(x) && x.id != a.id ==> #[trigger] upsert_agent(list, a).contains(x),
        unique_ids(list) ==> unique_ids(upsert_agent(list, a)),
{
    let r = upsert_agent(list, a);
    lemma_agent_position_finds(list, a.id);
    match agent_position(list, a.id) {
        Some(p) => {
            assert(r[p as int] == a);
            assert forall|x: SubagentView| #[trigger] r.contains(x) implies list.contains(x) || x
                == a by {
                let k = choose|k: int| 0 <= k < r.len() && r[k] == x;
                if k != p {
                    assert(list[k] == x);
                }
            }
            assert forall|x: SubagentView| list.contains(x) && x.id != a.id implies #[trigger] r.contains(
                x,
            ) by {
                let k = choose|k: int| 0 <= k < list.len() && list[k] == x;
                assert(r[k] == x);
            }
            if unique_ids(list) {
                assert forall|i: int, j: int| 0 <= i < j < r.len() implies (#[trigger] r[i]).id != (
                #[trigger] r[j]).id by {
                    if i != p && j != p {
                        assert(r[i] == list[i] && r[j] == list[j]);
                    } else if i == p {
                        assert(r[j] == list[j]);
                        assert(list[i].id == a.id);
                    } else {
                        assert(r[i] == list[i]);
                        assert(list[j].id == a.id);
                    }
                }
            }
        },
        None => {
            assert(r == list.push(a));
            assert(r[list.len() as int] == a);
            assert forall|x: SubagentView| #[trigger] r.contains(x) implies list.contains(x) || x
                == a by {
                let k = choose|k: int| 0 <= k < r.len() && r[k] == x;
                if k < list.len() {
                    assert(list[k] == x);
                }
            }
            assert forall|x: SubagentView| list.contains(x) && x.id != a.id implies #[trigger] r.contains(
                x,
            ) by {
                let k = choose|k: int| 0 <= k < list.len() && list[k] == x;
                assert(r[k] == x);
            }
            if unique_ids(list) {
                assert forall|i: int, j: int| 0 <= i < j < r.len() implies (#[trigger] r[i]).id != (
                #[trigger] r[j]).id by {
                    if j < list.len() {
                        assert(r[i] == list[i] && r[j] == list[j]);
                    } else {
                        assert(r[i] == list[i]);
                        assert(!names_id(list, a.id));
                        if list[i].id == a.id {
                            assert(names_id(list, a.id));
                        }
                    }
                }
            }
        },
    }
}

proof fn lemma_upsert_all(list: Seq<SubagentView>, incoming: Seq<SubagentView>)
    ensures
        forall|x: SubagentView| #[trigger]
            upsert_all(list, incoming).contains(x) ==> list.contains(x) || incoming.contains(x),
        forall|i: int|
            0 <= i < incoming.len() && is_last_for_id(incoming, i) ==> #[trigger] upsert_all(
                list,
                incoming,
            ).contains(incoming[i]),
        forall|x: SubagentView|
            list.contains(x) && !names_id(incoming, x.id) ==> #[trigger] upsert_all(
                list,
                incoming,
            ).contains(x),
        unique_ids(list) ==> unique_ids(upsert_all(list, incoming)),
    decreases incoming.len(),
{
    if incoming.len() > 0 {
        let d = incoming.drop_last();
        let a = incoming.last();
        let prev = upsert_all(list, d);
        lemma_upsert_all(list, d);
        lemma_upsert_agent(prev, a);
        let r = upsert_all(list, incoming);
        assert(r == upsert_agent(prev, a));
        assert forall|x: SubagentView| #[trigger] r.contains(x) implies list.contains(x)
            || incoming.contains(x) by {
            assert(incoming[incoming.len() - 1] == a);
            if prev.contains(x) && !list.contains(x) {
                assert(d.contains(x));
                let k = choose|k: int| 0 <= k < d.len() && d[k] == x;
                assert(incoming[k] == x);
            }
        }
        assert forall|i: int|
            0 <= i < incoming.len() && is_last_for_id(incoming, i) implies #[trigger] r.contains(
            incoming[i],
        ) by {
            if i < d.len() {
                assert(incoming[incoming.len() - 1].id != incoming[i].id);
                assert(d[i] == incoming[i]);
                assert(is_last_for_id(d, i)) by {
                    assert forall|j: int| i < j < d.len() implies (#[trigger] d[j]).id != d[i].id by {
                        assert(d[j] == incoming[j]);
                    }
                }
                assert(prev.contains(d[i]));
            }
        }
        assert forall|x: SubagentView|
            list.contains(x) && !names_id(incoming, x.id) implies #[trigger] r.contains(x) by {
            assert(!names_id(d, x.id)) by {
                if names_id(d, x.id) {
                    let k = choose|k: int| 0 <= k < d.len() && (#[trigger] d[k]).id == x.id;
                    assert(incoming[k] == d[k]);
                }
            }
            assert(prev.contains(x));
            if x.id == a.id {
                assert(incoming[incoming.len() - 1] == a);
            }
        }
    }
}

/// Merging updates by id keeps the list sorted by start time and keeps what
/// it should: every merged subagent comes from the existing list or the
/// updates, the last update for each id is in the result, an existing
/// subagent that no update names stays, and a list without repeated ids
/// stays so.
pub proof fn law_merge_subagents(existing: Seq<SubagentView>, incoming: Seq<SubagentView>)
    ensures
        sorted_by_start(merged_subagents(existing, incoming)),
        forall|x: SubagentView| #[trigger]
            merged_subagents(existing, incoming).contains(x) ==> existing.contains(x)
                || incoming.contains(x),
        forall|i: int|
            0 <= i < incoming.len() && is_last_for_id(incoming, i) ==> #[trigger] merged_subagents(
                existing,
                incoming,
            ).contains(incoming[i]),
        forall|x: SubagentView|
            existing.contains(x) && !names_id(incoming, x.id) ==> #[trigger] merged_subagents(
                existing,
                incoming,
            ).contains(x),
        unique_ids(existing) ==> unique_ids(merged_subagents(existing, incoming)),
{
    let u = upsert_all(existing, incoming);
    lemma_upsert_all(existing, incoming);
    lemma_sort_by_start(u);
}

/// The last update for an id, if any.
pub open spec fn last_version(list: Seq<SubagentView>, id: Seq<char>) -> Option<SubagentView>
    decreases list.len(),
{
    if list.len() == 0 {
        None
    } else if list.last().id == id {
        Some(list.last())
    } else {
        last_version(list.drop_last(), id)
    }
}

/// The list with each subagent replaced by the last update for its id.
pub open spec fn replaced_by(list: Seq<SubagentView>, incoming: Seq<SubagentView>) -> Seq<SubagentView> {
    Seq::new(
        list.len(),
        |k: int|
            match last_version(incoming, list[k].id) {
                Some(v) => v,
                None => list[k],
            },
    )
}

proof fn lemma_last_version(list: Seq<SubagentView>, id: Seq<char>)
    ensures
        names_id(list, id) ==> last_version(list, id) is Some,
        last_version(list, id) matches Some(v) ==> v.id == id && exists|j: int|
            0 <= j < list.len() && list[j] == v && #[trigger] is_last_for_id(list, j),
    decreases list.len(),
{
    if list.len() > 0 {
        let d = list.drop_last();
        lemma_last_version(d, id);
        if names_id(list, id) && list.last().id != id {
            let k = choose|k: int| 0 <= k < list.len() && (#[trigger] list[k]).id == id;
            assert(d[k] == list[k]);
            assert(names_id(d, id));
        }
        if list.last().id == id {
            assert(is_last_for_id(list, list.len() - 1));
            assert(list[list.len() - 1] == list.last());
        } else if last_version(d, id) is Some {
            let v = last_version(d, id).unwrap();
            let j = choose|j: int| 0 <= j < d.len() && d[j] == v && #[trigger] is_last_for_id(d, j);
            assert(list[j] == v);
            assert(is_last_for_id(list, j)) by {
                assert forall|t: int| j < t < list.len() implies (#[trigger] list[t]).id != list[j].id by {
                    if t < d.len() {
                        assert(list[t] == d[t]);
                    }
                }
            }
        }
    }
}

proof fn lemma_upsert_known(list: Seq<SubagentView>, incoming: Seq<SubagentView>)
    requires
        unique_ids(list),
        forall|i: int| 0 <= i < incoming.len() ==> names_id(list, (#[trigger] incoming[i]).id),
    ensures
        upsert_all(list, incoming) == replaced_by(list, incoming),
    decreases incoming.len(),
{
    if incoming.len() == 0 {
        assert(replaced_by(list, incoming) =~= list);
    } else {
        let d = incoming.drop_last();
        let a = incoming.last();
        assert forall|i: int| 0 <= i < d.len() implies names_id(list, (#[trigger] d[i]).id) by {
            assert(d[i] == incoming[i]);
        }
        lemma_upsert_known(list, d);
        let r = replaced_by(list, d);
        assert forall|k: int| 0 <= k < list.len() implies (#[trigger] r[k]).id == list[k].id by {
            lemma_last_version(d, list[k].id);
        }
        assert(unique_ids(r)) by {
            assert forall|i: int, j: int| 0 <= i < j < r.len() implies (#[trigger] r[i]).id != (
            #[trigger] r[j]).id by {
                assert(r[i].id == list[i].id && r[j].id == list[j].id);
            }
        }
        assert(incoming[incoming.len() - 1] == a);
        assert(names_id(list, a.id));
        let p = choose|p: int| 0 <= p < list.len() && (#[trigger] list[p]).id == a.id;
        lemma_agent_position_finds(r, a.id);
        assert(r[p].id == a.id);
        assert(names_id(r, a.id));
        let q = agent_position(r, a.id).unwrap() as int;
        assert(q == p);
        assert(upsert_all(list, incoming) == r.update(q, a));
        assert(r.update(q, a) =~= replaced_by(list, incoming)) by {
            assert forall|k: int| 0 <= k < list.len() implies #[trigger] r.update(q, a)[k] == replaced_by(
                list,
                incoming,
            )[k] by {
                if k == q {
                    assert(last_version(incoming, list[k].id) == Some(a));
                } else {
                    assert(list[k].id != a.id);
                    assert(last_version(incoming, list[k].id) == last_version(d, list[k].id));
                }
            }
        }
    }
}

proof fn lemma_sort_sorted(list: Seq<SubagentView>)
    requires
        sorted_by_start(list),
    ensures
        sort_by_start(list) == list,
    decreases list.len(),
{
    if list.len() > 0 {
        let d = list.drop_last();
        assert(sorted_by_start(d)) by {
            assert forall|i: int, j: int| 0 <= i && j == i + 1 && j < d.len() implies starts_no_later(
                #[trigger] d[i],
                #[trigger] d[j],
            ) by {
                assert(d[i] == list[i] && d[j] == list[j]);
            }
        }
        lemma_sort_sorted(d);
        if d.len() > 0 {
            assert(list[list.len() - 2] == d.last());
            assert(starts_no_later(list[list.len() - 2], list[list.len() - 1]));
        }
        assert(d.push(list.last()) =~= list);
        if d.len() == 0 {
            assert(seq![list.last()] =~= list);
        }
    }
}

/// Merging is idempotent: merging the same updates again into the merged
/// list of a list without repeated ids gives it back unchanged; and merging
/// no updates only sorts the list by start time.
pub proof fn law_merge_idempotent(existing: Seq<SubagentView>, incoming: Seq<SubagentView>)
    requires
        unique_ids(existing),
    ensures
        merged_subagents(merged_subagents(existing, incoming), incoming) == merged_subagents(
            existing,
            incoming,
        ),
        merged_subagents(existing, Seq::empty()) == sort_by_start(existing),
{
    let m = merged_subagents(existing, incoming);
    law_merge_subagents(existing, incoming);
    assert forall|i: int| 0 <= i < incoming.len() implies names_id(m, (#[trigger] incoming[i]).id) by {
        let id = incoming[i].id;
        assert(names_id(incoming, id));
        lemma_last_version(incoming, id);
        let v = last_version(incoming, id).unwrap();
        let j = choose|j: int| 0 <= j < incoming.len() && incoming[j] == v && #[trigger] is_last_for_id(
            incoming,
            j,
        );
        assert(m.contains(incoming[j]));
        let t = choose|t: int| 0 <= t < m.len() && m[t] == incoming[j];
        assert(m[t].id == id);
    }
    lemma_upsert_known(m, incoming);
    assert(replaced_by(m, incoming) =~= m) by {
        assert forall|k: int| 0 <= k < m.len() implies #[trigger] replaced_by(m, incoming)[k] == m[k] by {
            let id = m[k].id;
            lemma_last_version(incoming, id);
            if last_version(incoming, id) is Some {
                let v = last_version(incoming, id).unwrap();
                let j = choose|j: int|
                    0 <= j < incoming.len() && incoming[j] == v && #[trigger] is_last_for_id(incoming, j);
                assert(m.contains(incoming[j]));
                let t = choose|t: int| 0 <= t < m.len() && m[t] == incoming[j];
                assert(m[t].id == m[k].id);
                assert(t == k);
            }
        }
    }
    lemma_sort_sorted(m);
    assert(upsert_all(existing, Seq::<SubagentView>::empty()) == existing);
}

/// Whether `a` sorts strictly before `b`, character by character.
pub fn str_lt(a: &str, b: &str) -> (r: bool)
    ensures
        r == chars_lt(a@, b@),
{
    let x = to_chars(a);
    let y = to_chars(b);
    let mut i: usize = 0;
    assert(x@.skip(0) =~= x@);
    assert(y@.skip(0) =~= y@);
    while i < x.len() && i < y.len() && x[i] == y[i]
        invariant
            i <= x.len(),
            i <= y.len(),
            chars_lt(a@, b@) == chars_lt(x@.skip(i as int), y@.skip(i as int)),
            x@ == a@,
            y@ == b@,
        decreases x.len() - i,
    {
        assert(x@.skip(i as int).drop_first() =~= x@.skip(i + 1));
        assert(y@.skip(i as int).drop_first() =~= y@.skip(i + 1));
        i = i + 1;
    }
    if i == x.len() {
        i < y.len()
    } else if i == y.len() {
        false
    } else {
        (x[i] as u32) < (y[i] as u32)
    }
}

proof fn lemma_agent_position_prefix(list: Seq<SubagentView>, id: Seq<char>, k: nat)
    requires
        k <= list.len(),
        agent_position(list.take(k as int), id) is Some,
    ensures
        agent_position(list, id) == agent_position(list.take(k as int), id),
    decreases list.len(),
{
    if k == list.len() {
        assert(list.take(k as int) =~= list);
    } else {
        assert(list.drop_last().take(k as int) =~= list.take(k as int));
        lemma_agent_position_prefix(list.drop_last(), id, k);
    }
}

proof fn lemma_agent_position_bound(list: Seq<SubagentView>, id: Seq<char>)
    ensures
        agent_position(list, id) matches Some(p) ==> p < list.len(),
    decreases list.len(),
{
    if list.len() > 0 {
        lemma_agent_position_bound(list.drop_last(), id);
    }
}

fn find_agent(list: &Vec<SubagentInfo>, id: &str) -> (r: Option<usize>)
    ensures
        match r {
            Some(p) => p < list.len() && agent_position(subagents_view(list@), id@) == Some(p as nat),
            None => agent_position(subagents_view(list@), id@) is None,
        },
{
    let ghost v = subagents_view(list@);
    let mut i: usize = 0;
    while i < list.len()
        invariant
            i <= list.len(),
            v == subagents_view(list@),
            agent_position(v.take(i as int), id@) is None,
        decreases list.len() - i,
    {
        assert(v.take(i + 1).drop_last() =~= v.take(i as int));
        if str_eq(list[i].id.as_str(), id) {
            proof {
                lemma_agent_position_prefix(v, id@, (i + 1) as nat);
            }
            return Some(i);
        }
        i = i + 1;
    }
    assert(v.take(list.len() as int) =~= v);
    None
}

proof fn lemma_insert_at(sorted: Seq<SubagentView>, a: SubagentView, j: int)
    requires
        0 <= j <= sorted.len(),
        j == 0 || starts_no_later(sorted[j - 1], a),
        forall|k: int| j <= k < sorted.len() ==> !starts_no_later(#[trigger] sorted[k], a),
    ensures
        insert_by_start(sorted, a) == sorted.take(j) + seq![a] + sorted.skip(j),
    decreases sorted.len(),
{
    if j == sorted.len() {
        assert(sorted.take(j) =~= sorted);
        assert(sorted.skip(j) =~= Seq::<SubagentView>::empty());
        if sorted.len() > 0 {
            assert(sorted.last() == sorted[j - 1]);
        }
        assert(insert_by_start(sorted, a) =~= sorted.take(j) + seq![a] + sorted.skip(j));
    } else {
        let last = sorted.last();
        assert(!starts_no_later(sorted[sorted.len() - 1], a));
        lemma_insert_at(sorted.drop_last(), a, j);
        assert(sorted.drop_last().take(j) =~= sorted.take(j));
        assert(sorted.drop_last().skip(j).push(last) =~= sorted.skip(j));
        assert(insert_by_start(sorted, a) =~= sorted.take(j) + seq![a] + sorted.skip(j));
    }
}

fn insert_sorted(sorted: &mut Vec<SubagentInfo>, a: SubagentInfo)
    ensures
        subagents_view(final(sorted)@) == insert_by_start(subagents_view(old(sorted)@), a@),
{
    let ghost v = subagents_view(sorted@);
    let mut j = sorted.len();
    while j > 0 && str_lt(a.started_at.as_str(), sorted[j - 1].started_at.as_str())
        invariant
            j <= sorted.len(),
            v == subagents_view(sorted@),
            forall|k: int| j <= k < v.len() ==> !starts_no_later(#[trigger] v[k], a@),
        decreases j,
    {
        assert(v[j - 1] == sorted@[j - 1]@);
        j = j - 1;
    }
    proof {
        if j > 0 {
            assert(v[j - 1] == sorted@[j - 1]@);
        }
        lemma_insert_at(v, a@, j as int);
    }
    let ghost av = a@;
    sorted.insert(j, a);
    assert(subagents_view(sorted@) =~= v.take(j as int) + seq![av] + v.skip(j as int));
}

/// Merges incoming subagent updates into the existing list by id (an
/// update replaces the subagent with its id, a new one joins the end),
/// then sorts the list stably by start time.
pub fn merge_subagent_updates(existing: &[SubagentInfo], incoming: Vec<SubagentInfo>) -> (r: Vec<
    SubagentInfo,
>)
    ensures
        subagents_view(r@) == merged_subagents(subagents_view(existing@), subagents_view(incoming@)),
{
    let ghost ev = subagents_view(existing@);
    let ghost iv = subagents_view(incoming@);
    let mut merged: Vec<SubagentInfo> = Vec::new();
    let mut i: usize = 0;
    while i < existing.len()
        invariant
            i <= existing.len(),
            ev == subagents_view(existing@),
            subagents_view(merged@) =~= ev.take(i as int),
        decreases existing.len() - i,
    {
        let c = copy_subagent(&existing[i]);
        assert(ev.take(i + 1) =~= ev.take(i as int).push(c@));
        merged.push(c);
        i = i + 1;
    }
    assert(ev.take(existing.len() as int) =~= ev);
    let mut k: usize = 0;
    while k < incoming.len()
        invariant
            k <= incoming.len(),
            iv == subagents_view(incoming@),
            subagents_view(merged@) == upsert_all(ev, iv.take(k as int)),
        decreases incoming.len() - k,
    {
        let updated = copy_subagent(&incoming[k]);
        assert(iv.take(k + 1).drop_last() =~= iv.take(k as int));
        assert(iv.take(k + 1).last() == updated@);
        let ghost before = subagents_view(merged@);
        match find_agent(&merged, updated.id.as_str()) {
            Some(p) => {
                merged.set(p, updated);
                assert(subagents_view(merged@) =~= before.update(p as int, updated@));
            },
            None => {
                merged.push(updated);
                assert(subagents_view(merged@) =~= before.push(updated@));
            },
        }
        k = k + 1;
    }
    assert(iv.take(incoming.len() as int) =~= iv);
    let ghost mv = subagents_view(merged@);
    let mut sorted: Vec<SubagentInfo> = Vec::new();
    let mut m: usize = 0;
    assert(sort_by_start(mv.take(0)) =~= subagents_view(sorted@));
    while m < merged.len()
        invariant
            m <= merged.len(),
            mv == subagents_view(merged@),
            subagents_view(sorted@) == sort_by_start(mv.take(m as int)),
        decreases merged.len() - m,
    {
        assert(mv.take(m + 1).drop_last() =~= mv.take(m as int));
        assert(mv.take(m + 1).last() == merged@[m as int]@);
        insert_sorted(&mut sorted, copy_subagent(&merged[m]));
        m = m + 1;
    }
    assert(mv.take(merged.len() as int) =~= mv);
    sorted
}

} // verus!
