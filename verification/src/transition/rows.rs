//! Rows created and updated by the provider.

use crate::json::{json_lookup, json_str, json_str_at, spec_json_lookup, JsonNode, JsonNodeView};
use crate::text::{opt_string_view, str_eq};
use crate::transition::common::{
    next_row_sequence, next_sequence, rows_changed, rows_changed_effect, touch, touched,
};
use crate::transition::copies::{copy_entry, copy_row, copy_tool};
use crate::transition::effects::{effects_view, Effect, EffectView, PersistOp, PersistView};
use crate::transition::model::{
    entries_view, ConversationRow, ConversationRowEntry, EntryView, MessageRow, RowView, ToolKind,
    ToolRow, ToolRowView,
};
use crate::transition::state::{StateView, TransitionState};
use vstd::prelude::*;

verus! {

// ---------------------------------------------------------------------------
// Finding rows
// ---------------------------------------------------------------------------

/// The index of the first row with this id.
pub open spec fn position_of_id(rows: Seq<EntryView>, id: Seq<char>) -> Option<nat>
    decreases rows.len(),
{
    if rows.len() == 0 {
        None
    } else {
        match position_of_id(rows.drop_last(), id) {
            Some(p) => Some(p),
            None => if rows.last().row.id() == id {
                Some((rows.len() - 1) as nat)
            } else {
                None
            },
        }
    }
}

proof fn lemma_position_prefix(rows: Seq<EntryView>, id: Seq<char>, k: nat)
    requires
        k <= rows.len(),
        position_of_id(rows.take(k as int), id) is Some,
    ensures
        position_of_id(rows, id) == position_of_id(rows.take(k as int), id),
    decreases rows.len(),
{
    if k == rows.len() {
        assert(rows.take(k as int) =~= rows);
    } else {
        assert(rows.drop_last().take(k as int) =~= rows.take(k as int));
        lemma_position_prefix(rows.drop_last(), id, k);
    }
}

pub proof fn lemma_position_bound(rows: Seq<EntryView>, id: Seq<char>)
    ensures
        position_of_id(rows, id) matches Some(p) ==> p < rows.len() && rows[p as int].row.id() == id,
    decreases rows.len(),
{
    if rows.len() > 0 {
        lemma_position_bound(rows.drop_last(), id);
    }
}

fn row_id(row: &ConversationRow) -> (r: &String)
    ensures
        r@ == row@.id(),
{
    match row {
        ConversationRow::User(m) => &m.id,
        ConversationRow::Assistant(m) => &m.id,
        ConversationRow::Thinking(m) => &m.id,
        ConversationRow::System(m) => &m.id,
        ConversationRow::Tool(t) => &t.id,
        ConversationRow::Notice(n) => &n.id,
        ConversationRow::Hook(o) => &o.id,
        ConversationRow::Handoff(o) => &o.id,
    }
}

fn find_row(rows: &Vec<ConversationRowEntry>, id: &str) -> (r: Option<usize>)
    ensures
        r matches Some(p) ==> p < rows.len(),
        match r {
            Some(p) => position_of_id(entries_view(rows@), id@) == Some(p as nat),
            None => position_of_id(entries_view(rows@), id@) is None,
        },
{
    let ghost rv = entries_view(rows@);
    let mut i: usize = 0;
    while i < rows.len()
        invariant
            i <= rows.len(),
            rv == entries_view(rows@),
            position_of_id(rv.take(i as int), id@) is None,
        decreases rows.len() - i,
    {
        assert(rv.take(i + 1).drop_last() =~= rv.take(i as int));
        assert(rv[i as int] == rows@[i as int]@);
        if str_eq(row_id(&rows[i].row).as_str(), id) {
            proof {
                lemma_position_prefix(rv, id@, (i + 1) as nat);
            }
            return Some(i);
        }
        i = i + 1;
    }
    assert(rv.take(rows.len() as int) =~= rv);
    None
}

// ---------------------------------------------------------------------------
// Comparing rows
// ---------------------------------------------------------------------------

fn opt_eq(a: &Option<String>, b: &Option<String>) -> (r: bool)
    ensures
        r == (opt_string_view(*a) == opt_string_view(*b)),
{
    match (a, b) {
        (Some(x), Some(y)) => str_eq(x.as_str(), y.as_str()),
        (None, None) => true,
        _ => false,
    }
}

fn messages_equal(a: &MessageRow, b: &MessageRow) -> (r: bool)
    ensures
        r == (a@ == b@),
{
    str_eq(a.id.as_str(), b.id.as_str()) && str_eq(a.content.as_str(), b.content.as_str())
        && opt_eq(&a.turn_id, &b.turn_id) && opt_eq(&a.timestamp, &b.timestamp) && a.is_streaming
        == b.is_streaming
}

fn tools_equal(a: &ToolRow, b: &ToolRow) -> (r: bool)
    ensures
        r == (a@ == b@),
{
    str_eq(a.id.as_str(), b.id.as_str()) && a.provider == b.provider && a.family == b.family
        && a.kind == b.kind && a.status == b.status && str_eq(a.title.as_str(), b.title.as_str())
        && opt_eq(&a.subtitle, &b.subtitle) && opt_eq(&a.summary, &b.summary) && opt_eq(
        &a.started_at,
        &b.started_at,
    ) && opt_eq(&a.ended_at, &b.ended_at) && a.duration_ms == b.duration_ms && str_eq(
        a.invocation.as_str(),
        b.invocation.as_str(),
    ) && opt_eq(&a.result, &b.result)
}

fn rows_equal(a: &ConversationRow, b: &ConversationRow) -> (r: bool)
    ensures
        r == (a@ == b@),
{
    match (a, b) {
        (ConversationRow::User(x), ConversationRow::User(y)) => messages_equal(x, y),
        (ConversationRow::Assistant(x), ConversationRow::Assistant(y)) => messages_equal(x, y),
        (ConversationRow::Thinking(x), ConversationRow::Thinking(y)) => messages_equal(x, y),
        (ConversationRow::System(x), ConversationRow::System(y)) => messages_equal(x, y),
        (ConversationRow::Tool(x), ConversationRow::Tool(y)) => tools_equal(x, y),
        (ConversationRow::Notice(x), ConversationRow::Notice(y)) => str_eq(x.id.as_str(), y.id.as_str())
            && x.severity == y.severity && str_eq(x.title.as_str(), y.title.as_str()) && opt_eq(
            &x.summary,
            &y.summary,
        ) && opt_eq(&x.body, &y.body),
        (ConversationRow::Hook(x), ConversationRow::Hook(y)) => str_eq(x.id.as_str(), y.id.as_str())
            && str_eq(x.payload.as_str(), y.payload.as_str()),
        (ConversationRow::Handoff(x), ConversationRow::Handoff(y)) => str_eq(
            x.id.as_str(),
            y.id.as_str(),
        ) && str_eq(x.payload.as_str(), y.payload.as_str()),
        _ => false,
    }
}

fn entries_equal(a: &ConversationRowEntry, b: &ConversationRowEntry) -> (r: bool)
    ensures
        r == (a@ == b@),
{
    str_eq(a.session_id.as_str(), b.session_id.as_str()) && a.sequence == b.sequence && opt_eq(
        &a.turn_id,
        &b.turn_id,
    ) && a.turn_status == b.turn_status && rows_equal(&a.row, &b.row)
}

// ---------------------------------------------------------------------------
// Row created
// ---------------------------------------------------------------------------

/// The index from which the last five rows start.
pub open spec fn recent_start(rows: Seq<EntryView>) -> int {
    if rows.len() > 5 {
        rows.len() - 5
    } else {
        0
    }
}

/// Whether a row is a user row with this content.
pub open spec fn is_user_with(e: EntryView, content: Seq<char>) -> bool {
    e.row matches RowView::User(u) && u.content == content
}

/// Whether a user row repeats the content of one of the last five user
/// rows: the provider echoing a prompt back.
pub open spec fn is_echo(rows: Seq<EntryView>, e: EntryView) -> bool {
    match e.row {
        RowView::User(u) => exists|i: int|
            recent_start(rows) <= i < rows.len() && #[trigger] is_user_with(rows[i], u.content),
        _ => false,
    }
}

/// Whether the rows leave room for one more sequence number.
pub open spec fn row_room(rows: Seq<EntryView>) -> bool {
    next_sequence(rows) < u64::MAX
}

/// A row is created: an echoed user row is dropped; a row whose id is
/// known replaces it, keeping its sequence when the new one has none, and
/// nothing happens when nothing changed; any other row is appended with the
/// next sequence.
pub open spec fn row_created_step(s: StateView, now: Seq<char>, entry: EntryView) -> (
    StateView,
    Seq<EffectView>,
) {
    let e1 = EntryView { session_id: s.id, ..entry };
    if is_echo(s.rows, e1) {
        (s, Seq::empty())
    } else {
        match position_of_id(s.rows, e1.row.id()) {
            Some(p) => {
                let e2 = if e1.sequence == 0 {
                    EntryView { sequence: s.rows[p as int].sequence, ..e1 }
                } else {
                    e1
                };
                if s.rows[p as int] == e2 {
                    (s, Seq::empty())
                } else {
                    (
                        StateView { rows: s.rows.update(p as int, e2), ..touched(s, now) },
                        seq![
                            EffectView::Persist(PersistView::RowUpsert { session_id: s.id, entry: e2 }),
                            rows_changed(s.id, seq![e2], s.total_row_count),
                        ],
                    )
                }
            },
            None => {
                let q = next_sequence(s.rows) as u64;
                let e2 = EntryView { sequence: q, ..e1 };
                let appended = seq![
                    EffectView::Persist(PersistView::RowAppend { session_id: s.id, entry: e2 }),
                ];
                let counted = if e2.row is Tool {
                    appended.push(
                        EffectView::Persist(PersistView::ToolCountIncrement { session_id: s.id }),
                    )
                } else {
                    appended
                };
                (
                    StateView {
                        rows: s.rows.push(e2),
                        total_row_count: (q + 1) as u64,
                        ..touched(s, now)
                    },
                    counted.push(rows_changed(s.id, seq![e2], (q + 1) as u64)),
                )
            },
        }
    }
}

fn is_echo_of(rows: &Vec<ConversationRowEntry>, entry: &ConversationRowEntry) -> (r: bool)
    ensures
        r == is_echo(entries_view(rows@), entry@),
{
    let ghost rv = entries_view(rows@);
    let content = match &entry.row {
        ConversationRow::User(u) => &u.content,
        _ => {
            return false;
        },
    };
    let start = if rows.len() > 5 {
        rows.len() - 5
    } else {
        0
    };
    let mut i = start;
    while i < rows.len()
        invariant
            start == recent_start(rv),
            start <= i <= rows.len(),
            rv == entries_view(rows@),
            entry@.row matches RowView::User(u) && u.content == content@,
            forall|j: int| start <= j < i ==> !#[trigger] is_user_with(rv[j], content@),
        decreases rows.len() - i,
    {
        assert(rv[i as int] == rows@[i as int]@);
        match &rows[i].row {
            ConversationRow::User(eu) => {
                if str_eq(eu.content.as_str(), content.as_str()) {
                    assert(is_user_with(rv[i as int], content@));
                    return true;
                }
            },
            _ => {},
        }
        i = i + 1;
    }
    false
}

fn push_entry(rows: &mut Vec<ConversationRowEntry>, e: ConversationRowEntry)
    ensures
        entries_view(final(rows)@) == entries_view(old(rows)@).push(e@),
{
    let ghost before = entries_view(rows@);
    rows.push(e);
    assert(entries_view(rows@) =~= before.push(e@));
}

fn set_entry(rows: &mut Vec<ConversationRowEntry>, p: usize, e: ConversationRowEntry)
    requires
        p < old(rows).len(),
    ensures
        entries_view(final(rows)@) == entries_view(old(rows)@).update(p as int, e@),
{
    let ghost before = entries_view(rows@);
    rows.set(p, e);
    assert(entries_view(rows@) =~= before.update(p as int, e@));
}

fn upsert_effects(sid: &str, e: &ConversationRowEntry, total: u64) -> (r: (Effect, Effect))
    ensures
        r.0@ == EffectView::Persist(PersistView::RowUpsert { session_id: sid@, entry: e@ }),
        r.1@ == rows_changed(sid@, seq![e@], total),
{
    let first = Effect::Persist(
        Box::new(PersistOp::RowUpsert { session_id: sid.to_string(), entry: copy_entry(e) }),
    );
    let mut upserted: Vec<ConversationRowEntry> = Vec::new();
    upserted.push(copy_entry(e));
    assert(entries_view(upserted@) =~= seq![e@]);
    (first, rows_changed_effect(sid, upserted, total))
}

pub fn handle_row_created(
    state: &mut TransitionState,
    sid: &str,
    entry: ConversationRowEntry,
    now: &str,
    effects: &mut Vec<Effect>,
)
    requires
        sid@ == old(state).id@,
        row_room(old(state)@.rows),
    ensures
        final(state)@ == row_created_step(old(state)@, now@, entry@).0,
        effects_view(final(effects)@) == effects_view(old(effects)@) + row_created_step(
            old(state)@,
            now@,
            entry@,
        ).1,
{
    let ghost s0 = state@;
    let ghost e0 = effects_view(effects@);
    let mut entry = entry;
    entry.session_id = sid.to_string();
    if is_echo_of(&state.rows, &entry) {
        assert(effects_view(effects@) =~= e0 + row_created_step(s0, now@, entry@).1);
        return;
    }
    let found = find_row(&state.rows, row_id(&entry.row).as_str());
    proof {
        lemma_position_bound(s0.rows, entry@.row.id());
    }
    match found {
        Some(p) => {
            assert(s0.rows[p as int] == state.rows@[p as int]@);
            if entry.sequence == 0 {
                entry.sequence = state.rows[p].sequence;
            }
            if entries_equal(&state.rows[p], &entry) {
                assert(effects_view(effects@) =~= e0 + row_created_step(s0, now@, entry@).1);
                return;
            }
            let total = state.total_row_count;
            let (first, second) = upsert_effects(sid, &entry, total);
            set_entry(&mut state.rows, p, entry);
            touch(state, now);
            let ghost tail = seq![first@, second@];
            effects.push(first);
            effects.push(second);
            assert(effects_view(effects@) =~= e0 + tail);
        },
        None => {
            let q = next_row_sequence(&state.rows);
            entry.sequence = q;
            let is_tool = matches!(entry.row, ConversationRow::Tool(_));
            let ghost e2 = entry@;
            let appended = Effect::Persist(
                Box::new(PersistOp::RowAppend { session_id: sid.to_string(), entry: copy_entry(&entry) }),
            );
            let mut upserted: Vec<ConversationRowEntry> = Vec::new();
            upserted.push(copy_entry(&entry));
            assert(entries_view(upserted@) =~= seq![e2]);
            push_entry(&mut state.rows, entry);
            state.total_row_count = q + 1;
            touch(state, now);
            effects.push(appended);
            if is_tool {
                effects.push(
                    Effect::Persist(
                        Box::new(PersistOp::ToolCountIncrement { session_id: sid.to_string() }),
                    ),
                );
            }
            effects.push(rows_changed_effect(sid, upserted, q + 1));
            assert(effects_view(effects@) =~= e0 + row_created_step(s0, now@, e2).1);
        },
    }
}

// ---------------------------------------------------------------------------
// Row updated
// ---------------------------------------------------------------------------

/// Whether a tool invocation is the placeholder a dynamic tool's response
/// carries: an empty object, or one whose only member is an empty
/// `tool_name`.
pub open spec fn placeholder_invocation(x: Seq<char>) -> bool {
    match spec_json_lookup(x, Seq::empty()) {
        Some(JsonNodeView::Object(keys)) => keys.len() == 0 || (keys.len() == 1 && json_str(
            x,
            "/tool_name"@,
        ) == Some(Seq::<char>::empty())),
        _ => false,
    }
}

/// Whether a tool invocation, as JSON text, is the placeholder a dynamic
/// tool's response carries.
pub fn is_placeholder_dynamic_tool_invocation(value: &str) -> (r: bool)
    ensures
        r == placeholder_invocation(value@),
{
    proof {
        reveal_strlit("");
        assert(""@ =~= Seq::<char>::empty());
    }
    let n = match json_lookup(value, "") {
        Some(JsonNode::Object(keys)) => keys.len(),
        _ => {
            return false;
        },
    };
    if n == 0 {
        return true;
    }
    if n != 1 {
        return false;
    }
    match json_str_at(value, "/tool_name") {
        Some(name) => {
            let empty = name.as_str().unicode_len() == 0;
            proof {
                if empty {
                    assert(name@ =~= Seq::<char>::empty());
                }
            }
            empty
        },
        None => false,
    }
}

/// An incoming tool row completed by what the known row had: the kind and
/// family of a known tool over a dynamic call, the title and subtitle when
/// missing, and the invocation over a placeholder.
pub open spec fn merged_tool(known: ToolRowView, incoming: ToolRowView) -> ToolRowView {
    let keep_kind = incoming.kind == ToolKind::DynamicToolCall && known.kind
        != ToolKind::DynamicToolCall;
    ToolRowView {
        kind: if keep_kind {
            known.kind
        } else {
            incoming.kind
        },
        family: if keep_kind {
            known.family
        } else {
            incoming.family
        },
        title: if incoming.title.len() == 0 && known.title.len() > 0 {
            known.title
        } else {
            incoming.title
        },
        subtitle: if incoming.subtitle is None && known.subtitle is Some {
            known.subtitle
        } else {
            incoming.subtitle
        },
        invocation: if placeholder_invocation(incoming.invocation) {
            known.invocation
        } else {
            incoming.invocation
        },
        ..incoming
    }
}

/// A known row replaced by its update, completed by what it had and keeping
/// its sequence when the update has none; nothing happens when nothing
/// changed.
pub open spec fn replace_known(s: StateView, now: Seq<char>, p: int, entry: EntryView) -> (
    StateView,
    Seq<EffectView>,
) {
    let known = s.rows[p];
    let row = match (known.row, entry.row) {
        (RowView::Tool(kt), RowView::Tool(it)) => RowView::Tool(merged_tool(kt, it)),
        _ => entry.row,
    };
    let e1 = EntryView { row, ..entry };
    let e2 = if e1.sequence == 0 {
        EntryView { sequence: known.sequence, ..e1 }
    } else {
        e1
    };
    if known == e2 {
        (s, Seq::empty())
    } else {
        (
            StateView { rows: s.rows.update(p, e2), ..touched(s, now) },
            seq![
                EffectView::Persist(PersistView::RowUpsert { session_id: s.id, entry: e2 }),
                rows_changed(s.id, seq![e2], s.total_row_count),
            ],
        )
    }
}

/// An update of an unknown row appended with the next sequence.
pub open spec fn append_unknown(s: StateView, now: Seq<char>, entry: EntryView) -> (
    StateView,
    Seq<EffectView>,
) {
    let q = next_sequence(s.rows) as u64;
    let e2 = EntryView { session_id: s.id, sequence: q, ..entry };
    let total: u64 = if s.total_row_count >= q + 1 {
        s.total_row_count
    } else {
        (q + 1) as u64
    };
    (
        StateView { rows: s.rows.push(e2), total_row_count: total, ..touched(s, now) },
        seq![
            EffectView::Persist(PersistView::RowUpsert { session_id: s.id, entry: e2 }),
            rows_changed(s.id, seq![e2], total),
        ],
    )
}

/// A row is updated: a known row is replaced, an unknown one appended.
pub open spec fn row_updated_step(
    s: StateView,
    now: Seq<char>,
    row_id: Seq<char>,
    entry: EntryView,
) -> (StateView, Seq<EffectView>) {
    match position_of_id(s.rows, row_id) {
        Some(p) => replace_known(s, now, p as int, entry),
        None => append_unknown(s, now, entry),
    }
}

fn merge_tool(known: &ToolRow, incoming: ToolRow) -> (r: ToolRow)
    ensures
        r@ == merged_tool(known@, incoming@),
{
    let mut t = incoming;
    if t.kind == ToolKind::DynamicToolCall && known.kind != ToolKind::DynamicToolCall {
        t.kind = known.kind;
        t.family = known.family;
    }
    if t.title.as_str().unicode_len() == 0 && known.title.as_str().unicode_len() > 0 {
        t.title = known.title.clone();
    }
    if t.subtitle.is_none() && known.subtitle.is_some() {
        t.subtitle = crate::text::copy_opt_string(&known.subtitle);
    }
    if is_placeholder_dynamic_tool_invocation(t.invocation.as_str()) {
        t.invocation = known.invocation.clone();
    }
    t
}

fn update_known_row(
    state: &mut TransitionState,
    sid: &str,
    p: usize,
    entry: ConversationRowEntry,
    now: &str,
    effects: &mut Vec<Effect>,
)
    requires
        sid@ == old(state).id@,
        p < old(state).rows.len(),
    ensures
        final(state)@ == replace_known(old(state)@, now@, p as int, entry@).0,
        effects_view(final(effects)@) == effects_view(old(effects)@) + replace_known(
            old(state)@,
            now@,
            p as int,
            entry@,
        ).1,
{
    let ghost s0 = state@;
    let ghost e0 = effects_view(effects@);
    let mut entry = entry;
    assert(s0.rows[p as int] == state.rows@[p as int]@);
    let row = match (&state.rows[p].row, entry.row) {
        (ConversationRow::Tool(kt), ConversationRow::Tool(it)) => ConversationRow::Tool(
            merge_tool(kt, it),
        ),
        (_, other) => other,
    };
    entry.row = row;
    if entry.sequence == 0 {
        entry.sequence = state.rows[p].sequence;
    }
    if entries_equal(&state.rows[p], &entry) {
        assert(effects_view(effects@) =~= e0);
        return;
    }
    let total = state.total_row_count;
    let (first, second) = upsert_effects(sid, &entry, total);
    set_entry(&mut state.rows, p, entry);
    touch(state, now);
    let ghost tail = seq![first@, second@];
    effects.push(first);
    effects.push(second);
    assert(effects_view(effects@) =~= e0 + tail);
}

fn append_unknown_row(
    state: &mut TransitionState,
    sid: &str,
    entry: ConversationRowEntry,
    now: &str,
    effects: &mut Vec<Effect>,
)
    requires
        sid@ == old(state).id@,
        row_room(old(state)@.rows),
    ensures
        final(state)@ == append_unknown(old(state)@, now@, entry@).0,
        effects_view(final(effects)@) == effects_view(old(effects)@) + append_unknown(
            old(state)@,
            now@,
            entry@,
        ).1,
{
    let ghost s0 = state@;
    let ghost e0 = effects_view(effects@);
    let mut entry = entry;
    entry.session_id = sid.to_string();
    let q = next_row_sequence(&state.rows);
    entry.sequence = q;
    if state.total_row_count < q + 1 {
        state.total_row_count = q + 1;
    }
    let total = state.total_row_count;
    let (first, second) = upsert_effects(sid, &entry, total);
    push_entry(&mut state.rows, entry);
    touch(state, now);
    let ghost tail = seq![first@, second@];
    effects.push(first);
    effects.push(second);
    assert(effects_view(effects@) =~= e0 + tail);
}

pub fn handle_row_updated(
    state: &mut TransitionState,
    sid: &str,
    row_id: String,
    entry: ConversationRowEntry,
    now: &str,
    effects: &mut Vec<Effect>,
)
    requires
        sid@ == old(state).id@,
        row_room(old(state)@.rows),
    ensures
        final(state)@ == row_updated_step(old(state)@, now@, row_id@, entry@).0,
        effects_view(final(effects)@) == effects_view(old(effects)@) + row_updated_step(
            old(state)@,
            now@,
            row_id@,
            entry@,
        ).1,
{
    let found = find_row(&state.rows, row_id.as_str());
    proof {
        lemma_position_bound(state@.rows, row_id@);
    }
    match found {
        Some(p) => update_known_row(state, sid, p, entry, now, effects),
        None => append_unknown_row(state, sid, entry, now, effects),
    }
}

} // verus!
