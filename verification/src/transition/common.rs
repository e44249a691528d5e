//! Effects and state updates that several handlers share.

use crate::transition::effects::{
    no_changes, ChangesView, Effect, EffectView, MessageView, PersistOp, PersistView,
    ServerMessage, StateChanges,
};
use crate::transition::model::{entries_view, ConversationRowEntry, EntryView, WorkStatus};
use crate::transition::state::{StateView, TransitionState};
use vstd::prelude::*;

verus! {

/// The write that records a session's status and activity times.
pub open spec fn session_update(sid: Seq<char>, status: WorkStatus, now: Seq<char>) -> EffectView {
    EffectView::Persist(
        PersistView::SessionUpdate {
            id: sid,
            status: None,
            work_status: Some(status),
            last_activity_at: Some(now),
            last_progress_at: Some(now),
        },
    )
}

/// The broadcast of a session's changes.
pub open spec fn delta(sid: Seq<char>, changes: ChangesView) -> EffectView {
    EffectView::Emit(MessageView::SessionDelta { session_id: sid, changes })
}

/// A change of status with both activity times.
pub open spec fn status_changes(status: WorkStatus, now: Seq<char>) -> ChangesView {
    ChangesView {
        work_status: Some(status),
        last_activity_at: Some(now),
        last_progress_at: Some(now),
        ..no_changes()
    }
}

/// The broadcast of rows that were added or changed.
pub open spec fn rows_changed(sid: Seq<char>, upserted: Seq<EntryView>, total: u64) -> EffectView {
    EffectView::Emit(
        MessageView::ConversationRowsChanged {
            session_id: sid,
            upserted,
            removed_row_ids: Seq::empty(),
            total_row_count: total,
        },
    )
}

/// The state with both activity times set to `now`.
pub open spec fn touched(s: StateView, now: Seq<char>) -> StateView {
    StateView { last_activity_at: Some(now), last_progress_at: Some(now), ..s }
}

/// The sequence a new row gets: one past the last row's, or zero.
pub open spec fn next_sequence(rows: Seq<EntryView>) -> int {
    if rows.len() == 0 {
        0
    } else {
        rows.last().sequence + 1
    }
}

/// Whether a new row's sequence fits in `u64`.
pub open spec fn sequence_fits(rows: Seq<EntryView>) -> bool {
    next_sequence(rows) <= u64::MAX
}

pub fn session_update_effect(sid: &str, status: WorkStatus, now: &str) -> (r: Effect)
    ensures
        r@ == session_update(sid@, status, now@),
{
    Effect::Persist(
        Box::new(
            PersistOp::SessionUpdate {
                id: sid.to_string(),
                status: None,
                work_status: Some(status),
                last_activity_at: Some(now.to_string()),
                last_progress_at: Some(now.to_string()),
            },
        ),
    )
}

pub fn status_changes_of(status: WorkStatus, now: &str) -> (r: StateChanges)
    ensures
        r@ == status_changes(status, now@),
{
    let mut c = StateChanges::none();
    c.work_status = Some(status);
    c.last_activity_at = Some(now.to_string());
    c.last_progress_at = Some(now.to_string());
    c
}

pub fn delta_effect(sid: &str, changes: StateChanges) -> (r: Effect)
    ensures
        r@ == delta(sid@, changes@),
{
    Effect::Emit(Box::new(ServerMessage::SessionDelta { session_id: sid.to_string(), changes }))
}

pub fn rows_changed_effect(sid: &str, upserted: Vec<ConversationRowEntry>, total: u64) -> (r:
    Effect)
    ensures
        r@ == rows_changed(sid@, entries_view(upserted@), total),
{
    let removed: Vec<String> = Vec::new();
    let r = Effect::Emit(
        Box::new(
            ServerMessage::ConversationRowsChanged {
                session_id: sid.to_string(),
                upserted,
                removed_row_ids: removed,
                total_row_count: total,
            },
        ),
    );
    assert(crate::text::strs_view(removed@) =~= Seq::<Seq<char>>::empty());
    r
}

pub fn touch(state: &mut TransitionState, now: &str)
    ensures
        final(state)@ == touched(old(state)@, now@),
{
    state.last_activity_at = Some(now.to_string());
    state.last_progress_at = Some(now.to_string());
}

pub fn next_row_sequence(rows: &Vec<ConversationRowEntry>) -> (r: u64)
    requires
        sequence_fits(entries_view(rows@)),
    ensures
        r == next_sequence(entries_view(rows@)),
{
    if rows.len() == 0 {
        0
    } else {
        assert(entries_view(rows@).last() == rows@[rows.len() - 1]@);
        rows[rows.len() - 1].sequence + 1
    }
}

} // verus!
