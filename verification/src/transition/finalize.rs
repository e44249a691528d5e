//! Closing rows that are still in progress when a turn or a session ends.

use crate::transition::common::{rows_changed, rows_changed_effect};
use crate::transition::copies::{copy_entry, copy_tool};
use crate::transition::effects::{effects_view, Effect, EffectView, PersistOp, PersistView};
use crate::transition::model::{
    entries_view, ConversationRow, ConversationRowEntry, EntryView, MessageRow, MessageRowView,
    RowView, ToolRowView, ToolStatus,
};
use vstd::prelude::*;

verus! {

/// Whether a row is still in progress: a running tool, or a streaming
/// assistant, thinking or system message.
pub open spec fn in_progress(e: EntryView) -> bool {
    match e.row {
        RowView::Tool(t) => t.status == ToolStatus::Running,
        RowView::Assistant(m) => m.is_streaming,
        RowView::Thinking(m) => m.is_streaming,
        RowView::System(m) => m.is_streaming,
        _ => false,
    }
}

/// The message with its stream closed.
pub open spec fn closed(m: MessageRowView) -> MessageRowView {
    MessageRowView { is_streaming: false, ..m }
}

/// A row with its progress closed: a running tool completed, a streaming
/// message no longer streaming; any other row as it is.
pub open spec fn finalized(e: EntryView) -> EntryView {
    if !in_progress(e) {
        e
    } else {
        EntryView {
            row: match e.row {
                RowView::Tool(t) => RowView::Tool(ToolRowView { status: ToolStatus::Completed, ..t }),
                RowView::Assistant(m) => RowView::Assistant(closed(m)),
                RowView::Thinking(m) => RowView::Thinking(closed(m)),
                RowView::System(m) => RowView::System(closed(m)),
                other => other,
            },
            ..e
        }
    }
}

/// The rows that were in progress, finalized, in order.
pub open spec fn finalized_entries(rows: Seq<EntryView>) -> Seq<EntryView>
    decreases rows.len(),
{
    if rows.len() == 0 {
        Seq::empty()
    } else {
        let prev = finalized_entries(rows.drop_last());
        if in_progress(rows.last()) {
            prev.push(finalized(rows.last()))
        } else {
            prev
        }
    }
}

/// The writes of finalized rows.
pub open spec fn upserts(sid: Seq<char>, entries: Seq<EntryView>) -> Seq<EffectView> {
    entries.map_values(|e: EntryView| EffectView::Persist(PersistView::RowUpsert { session_id: sid, entry: e }))
}

/// What finalizing the rows writes and broadcasts: one write per row, then
/// one broadcast of them all when there was any.
pub open spec fn finalize_effects(sid: Seq<char>, rows: Seq<EntryView>, total: u64) -> Seq<EffectView> {
    let done = finalized_entries(rows);
    if done.len() > 0 {
        upserts(sid, done).push(rows_changed(sid, done, total))
    } else {
        Seq::empty()
    }
}

/// The rows with every row finalized.
pub open spec fn finalize_rows(rows: Seq<EntryView>) -> Seq<EntryView> {
    rows.map_values(|e: EntryView| finalized(e))
}

fn is_in_progress(e: &ConversationRowEntry) -> (r: bool)
    ensures
        r == in_progress(e@),
{
    match &e.row {
        ConversationRow::Tool(t) => t.status == ToolStatus::Running,
        ConversationRow::Assistant(m) => m.is_streaming,
        ConversationRow::Thinking(m) => m.is_streaming,
        ConversationRow::System(m) => m.is_streaming,
        _ => false,
    }
}

fn closed_message(m: &MessageRow) -> (r: MessageRow)
    ensures
        r@ == closed(m@),
{
    MessageRow {
        id: m.id.clone(),
        content: m.content.clone(),
        turn_id: crate::text::copy_opt_string(&m.turn_id),
        timestamp: crate::text::copy_opt_string(&m.timestamp),
        is_streaming: false,
    }
}

fn finalized_entry(e: &ConversationRowEntry) -> (r: ConversationRowEntry)
    requires
        in_progress(e@),
    ensures
        r@ == finalized(e@),
{
    let row = match &e.row {
        ConversationRow::Tool(t) => {
            let mut c = copy_tool(t);
            c.status = ToolStatus::Completed;
            ConversationRow::Tool(c)
        },
        ConversationRow::Assistant(m) => ConversationRow::Assistant(closed_message(m)),
        ConversationRow::Thinking(m) => ConversationRow::Thinking(closed_message(m)),
        ConversationRow::System(m) => ConversationRow::System(closed_message(m)),
        other => crate::transition::copies::copy_row(other),
    };
    ConversationRowEntry {
        session_id: e.session_id.clone(),
        sequence: e.sequence,
        turn_id: crate::text::copy_opt_string(&e.turn_id),
        turn_status: e.turn_status,
        row,
    }
}

/// Completes running tool rows and closes streaming messages, so that no
/// row stays "running" once its turn or session is over; returns one write
/// per such row and a broadcast of them all.
pub fn finalize_in_progress_rows(sid: &str, rows: &mut Vec<ConversationRowEntry>, total_row_count: u64) -> (r: Vec<Effect>)
    ensures
        entries_view(final(rows)@) == finalize_rows(entries_view(old(rows)@)),
        effects_view(r@) == finalize_effects(sid@, entries_view(old(rows)@), total_row_count),
{
    let ghost old_rows = entries_view(rows@);
    let mut effects: Vec<Effect> = Vec::new();
    let mut done: Vec<ConversationRowEntry> = Vec::new();
    let n = rows.len();
    let mut i: usize = 0;
    while i < n
        invariant
            n == rows.len(),
            n == old_rows.len(),
            i <= n,
            forall|j: int| 0 <= j < i ==> #[trigger] rows@[j]@ == finalized(old_rows[j]),
            forall|j: int| i <= j < n ==> #[trigger] rows@[j]@ == old_rows[j],
            entries_view(done@) == finalized_entries(old_rows.take(i as int)),
            effects_view(effects@) == upserts(sid@, entries_view(done@)),
        decreases n - i,
    {
        assert(old_rows.take(i + 1).drop_last() =~= old_rows.take(i as int));
        assert(old_rows[i as int] == rows@[i as int]@);
        if is_in_progress(&rows[i]) {
            let updated = finalized_entry(&rows[i]);
            let ghost before_done = entries_view(done@);
            let ghost before_effects = effects_view(effects@);
            done.push(copy_entry(&updated));
            effects.push(
                Effect::Persist(
                    Box::new(PersistOp::RowUpsert { session_id: sid.to_string(), entry: copy_entry(&updated) }),
                ),
            );
            rows.set(i, updated);
            assert(entries_view(done@) =~= before_done.push(updated@));
            let ghost up = EffectView::Persist(PersistView::RowUpsert { session_id: sid@, entry: updated@ });
            assert(effects_view(effects@) =~= before_effects.push(up));
            assert(upserts(sid@, before_done.push(updated@)) =~= upserts(sid@, before_done).push(up));
        } else {
            assert(finalized(old_rows[i as int]) == old_rows[i as int]);
        }
        i = i + 1;
    }
    assert(old_rows.take(n as int) =~= old_rows);
    assert(entries_view(rows@) =~= finalize_rows(old_rows));
    if done.len() > 0 {
        let ghost before = effects_view(effects@);
        let ghost done_view = entries_view(done@);
        effects.push(rows_changed_effect(sid, done, total_row_count));
        assert(effects_view(effects@) =~= before.push(rows_changed(sid@, done_view, total_row_count)));
    }
    effects
}

} // verus!
