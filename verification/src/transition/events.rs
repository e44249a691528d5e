//! System rows for errors and compaction, and events passed through to
//! clients.

use crate::text::{concat_str, copy_opt_string, strs_view};
use crate::transition::common::{next_row_sequence, next_sequence, rows_changed, rows_changed_effect};
use crate::transition::copies::copy_entry;
use crate::transition::effects::{
    effects_view, Effect, EffectView, MessageView, PersistOp, PersistView, ServerMessage,
};
use crate::transition::model::{
    entries_view, ConversationRow, ConversationRowEntry, EntryView, MessageRow, MessageRowView,
    RowView, TokenUsageSnapshotKind, TurnStatus,
};
use crate::transition::rows::row_room;
use crate::transition::state::{StateView, TransitionState};
use vstd::prelude::*;

verus! {

/// A system row of the current turn, said at `now`.
pub open spec fn system_entry(s: StateView, now: Seq<char>, id: Seq<char>, content: Seq<char>) -> EntryView {
    EntryView {
        session_id: s.id,
        sequence: next_sequence(s.rows) as u64,
        turn_id: s.current_turn_id,
        turn_status: TurnStatus::Active,
        row: RowView::System(
            MessageRowView {
                id,
                content,
                turn_id: s.current_turn_id,
                timestamp: Some(now),
                is_streaming: false,
            },
        ),
    }
}

/// A system row appended, written and broadcast.
pub open spec fn append_system_row(s: StateView, entry: EntryView) -> (StateView, Seq<EffectView>) {
    let total = (entry.sequence + 1) as u64;
    (
        StateView { rows: s.rows.push(entry), total_row_count: total, ..s },
        seq![
            EffectView::Persist(PersistView::RowAppend { session_id: s.id, entry }),
            rows_changed(s.id, seq![entry], total),
        ],
    )
}

/// An error: it counts as activity and becomes a system row named
/// `error-` and a fresh id; the phase stays as it is.
pub open spec fn error_step(s: StateView, now: Seq<char>, message: Seq<char>, fresh: Seq<char>) -> (
    StateView,
    Seq<EffectView>,
) {
    let s1 = StateView { last_activity_at: Some(now), last_progress_at: Some(now), ..s };
    append_system_row(s1, system_entry(s1, now, "error-"@ + fresh, message))
}

/// What the row of a compaction says.
pub open spec fn compaction_notice() -> Seq<char> {
    "Context compacted to keep this session within the model context window."@
}

/// The context was compacted: the usage is written and broadcast as a
/// compaction reset, a system row named `context-compacted-` and a fresh id
/// says so, and clients are told.
pub open spec fn context_compacted_step(s: StateView, now: Seq<char>, fresh: Seq<char>) -> (
    StateView,
    Seq<EffectView>,
) {
    let s1 = StateView {
        last_activity_at: Some(now),
        last_progress_at: Some(now),
        token_usage_snapshot_kind: TokenUsageSnapshotKind::CompactionReset,
        ..s
    };
    let appended = append_system_row(
        s1,
        system_entry(s1, now, "context-compacted-"@ + fresh, compaction_notice()),
    );
    (
        appended.0,
        seq![
            EffectView::Persist(
                PersistView::TokensUpdate {
                    session_id: s.id,
                    usage: s.token_usage,
                    snapshot_kind: TokenUsageSnapshotKind::CompactionReset,
                },
            ),
            EffectView::Emit(
                MessageView::TokensUpdated {
                    session_id: s.id,
                    usage: s.token_usage,
                    snapshot_kind: TokenUsageSnapshotKind::CompactionReset,
                },
            ),
        ] + appended.1 + seq![EffectView::Emit(MessageView::ContextCompacted { session_id: s.id })],
    )
}

fn append_system_row_exec(
    state: &mut TransitionState,
    sid: &str,
    now: &str,
    id: String,
    content: String,
    effects: &mut Vec<Effect>,
)
    requires
        sid@ == old(state).id@,
        row_room(old(state)@.rows),
    ensures
        final(state)@ == append_system_row(old(state)@, system_entry(old(state)@, now@, id@, content@)).0,
        effects_view(final(effects)@) == effects_view(old(effects)@) + append_system_row(
            old(state)@,
            system_entry(old(state)@, now@, id@, content@),
        ).1,
{
    let ghost s0 = state@;
    let ghost e0 = effects_view(effects@);
    let seq = next_row_sequence(&state.rows);
    let entry = ConversationRowEntry {
        session_id: sid.to_string(),
        sequence: seq,
        turn_id: copy_opt_string(&state.current_turn_id),
        turn_status: TurnStatus::Active,
        row: ConversationRow::System(
            MessageRow {
                id,
                content,
                turn_id: copy_opt_string(&state.current_turn_id),
                timestamp: Some(now.to_string()),
                is_streaming: false,
            },
        ),
    };
    let ghost ev = entry@;
    let ghost before = entries_view(state.rows@);
    let write = Effect::Persist(
        Box::new(PersistOp::RowAppend { session_id: sid.to_string(), entry: copy_entry(&entry) }),
    );
    let mut upserted: Vec<ConversationRowEntry> = Vec::new();
    upserted.push(copy_entry(&entry));
    assert(entries_view(upserted@) =~= seq![ev]);
    state.rows.push(entry);
    assert(entries_view(state.rows@) =~= before.push(ev));
    state.total_row_count = seq + 1;
    let broadcast = rows_changed_effect(sid, upserted, seq + 1);
    let ghost t = seq![write@, broadcast@];
    effects.push(write);
    effects.push(broadcast);
    assert(effects_view(effects@) =~= e0 + t);
    assert(state@ =~= append_system_row(s0, system_entry(s0, now@, id@, content@)).0);
}

pub fn handle_error(
    state: &mut TransitionState,
    sid: &str,
    now: &str,
    effects: &mut Vec<Effect>,
    message: String,
    fresh: &str,
)
    requires
        sid@ == old(state).id@,
        row_room(old(state)@.rows),
    ensures
        final(state)@ == error_step(old(state)@, now@, message@, fresh@).0,
        effects_view(final(effects)@) == effects_view(old(effects)@) + error_step(
            old(state)@,
            now@,
            message@,
            fresh@,
        ).1,
{
    state.last_activity_at = Some(now.to_string());
    state.last_progress_at = Some(now.to_string());
    let id = concat_str("error-", fresh);
    append_system_row_exec(state, sid, now, id, message, effects);
}

pub fn handle_context_compacted(
    state: &mut TransitionState,
    sid: &str,
    now: &str,
    effects: &mut Vec<Effect>,
    fresh: &str,
)
    requires
        sid@ == old(state).id@,
        row_room(old(state)@.rows),
    ensures
        final(state)@ == context_compacted_step(old(state)@, now@, fresh@).0,
        effects_view(final(effects)@) == effects_view(old(effects)@) + context_compacted_step(
            old(state)@,
            now@,
            fresh@,
        ).1,
{
    let ghost s0 = state@;
    let ghost e0 = effects_view(effects@);
    state.last_activity_at = Some(now.to_string());
    state.last_progress_at = Some(now.to_string());
    state.token_usage_snapshot_kind = TokenUsageSnapshotKind::CompactionReset;
    let write = Effect::Persist(
        Box::new(
            PersistOp::TokensUpdate {
                session_id: sid.to_string(),
                usage: state.token_usage,
                snapshot_kind: TokenUsageSnapshotKind::CompactionReset,
            },
        ),
    );
    let broadcast = Effect::Emit(
        Box::new(
            ServerMessage::TokensUpdated {
                session_id: sid.to_string(),
                usage: state.token_usage,
                snapshot_kind: TokenUsageSnapshotKind::CompactionReset,
            },
        ),
    );
    let ghost head = seq![write@, broadcast@];
    effects.push(write);
    effects.push(broadcast);
    assert(effects_view(effects@) =~= e0 + head);
    let ghost e1 = effects_view(effects@);
    let id = concat_str("context-compacted-", fresh);
    let content = "Context compacted to keep this session within the model context window.".to_string();
    append_system_row_exec(state, sid, now, id, content, effects);
    let ghost e2 = effects_view(effects@);
    let last = Effect::Emit(Box::new(ServerMessage::ContextCompacted { session_id: sid.to_string() }));
    let ghost l = last@;
    effects.push(last);
    assert(effects_view(effects@) =~= e2.push(l));
    assert(effects_view(effects@) =~= e0 + context_compacted_step(s0, now@, fresh@).1);
}

/// Emits a message that passes an event through to clients.
pub fn emit(effects: &mut Vec<Effect>, message: ServerMessage)
    ensures
        effects_view(final(effects)@) == effects_view(old(effects)@).push(EffectView::Emit(message@)),
{
    let ghost e0 = effects_view(effects@);
    let ghost m = message@;
    effects.push(Effect::Emit(Box::new(message)));
    assert(effects_view(effects@) =~= e0.push(EffectView::Emit(m)));
}

} // verus!
