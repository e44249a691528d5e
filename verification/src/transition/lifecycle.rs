//! Turns, approvals, undo and the end of a session.

use crate::text::{concat_str, decimal, decimal_string, opt_string_view};
use crate::transition::common::{
    delta, delta_effect, session_update, session_update_effect, status_changes, status_changes_of,
    touch, touched,
};
use crate::transition::effects::{
    effects_view, no_changes, ChangesView, Effect, EffectView, MessageView, PersistOp,
    PersistView, ServerMessage, StateChanges,
};
use crate::transition::finalize::{
    finalize_effects, finalize_in_progress_rows, finalize_rows,
};
use crate::transition::model::{
    entries_view, turn_diffs_view, TokenUsage, TokenUsageSnapshotKind, TurnDiff, TurnDiffView,
    WorkStatus,
};
use crate::transition::state::{PhaseView, StateView, TransitionState, WorkPhase};
use vstd::prelude::*;

verus! {

// ---------------------------------------------------------------------------
// Turn started
// ---------------------------------------------------------------------------

/// The id of the `n`th turn.
pub open spec fn turn_id_of(n: nat) -> Seq<char> {
    "turn-"@ + decimal(n)
}

/// A turn starts: the session works, counts the turn, names it, and resets
/// the turn's token counts.
pub open spec fn turn_started_step(s: StateView, now: Seq<char>) -> (StateView, Seq<EffectView>) {
    let n = (s.turn_count + 1) as u64;
    let tid = turn_id_of(n as nat);
    (
        StateView {
            phase: PhaseView::Working,
            turn_count: n,
            current_turn_id: Some(tid),
            turn_input_tokens: 0,
            turn_output_tokens: 0,
            turn_cached_tokens: 0,
            turn_usage_snapshot: None,
            turn_usage_snapshot_kind: None,
            ..touched(s, now)
        },
        seq![
            session_update(s.id, WorkStatus::Working, now),
            delta(
                s.id,
                ChangesView {
                    current_turn_id: Some(Some(tid)),
                    turn_count: Some(n),
                    ..status_changes(WorkStatus::Working, now)
                },
            ),
        ],
    )
}

pub fn handle_turn_started(state: &mut TransitionState, sid: &str, now: &str, effects: &mut Vec<Effect>)
    requires
        old(state).turn_count < u64::MAX,
        sid@ == old(state).id@,
    ensures
        final(state)@ == turn_started_step(old(state)@, now@).0,
        effects_view(final(effects)@) == effects_view(old(effects)@) + turn_started_step(old(state)@, now@).1,
{
    let ghost s0 = state@;
    let ghost e0 = effects_view(effects@);
    state.phase = WorkPhase::Working;
    touch(state, now);
    state.turn_count = state.turn_count + 1;
    let count = decimal_string(state.turn_count);
    let turn_id = concat_str("turn-", count.as_str());
    state.current_turn_id = Some(turn_id.clone());
    state.turn_input_tokens = 0;
    state.turn_output_tokens = 0;
    state.turn_cached_tokens = 0;
    state.turn_usage_snapshot = None;
    state.turn_usage_snapshot_kind = None;
    let first = session_update_effect(sid, WorkStatus::Working, now);
    let mut changes = status_changes_of(WorkStatus::Working, now);
    changes.current_turn_id = Some(Some(turn_id));
    changes.turn_count = Some(state.turn_count);
    let second = delta_effect(sid, changes);
    effects.push(first);
    effects.push(second);
    assert(effects_view(effects@) =~= e0 + turn_started_step(s0, now@).1);
}

// ---------------------------------------------------------------------------
// Turn completed
// ---------------------------------------------------------------------------

/// The usage a finished turn records: the provider's own snapshot, else
/// the counts gathered during the turn.
pub open spec fn turn_usage(s: StateView) -> TokenUsage {
    match s.turn_usage_snapshot {
        Some(u) => u,
        None => TokenUsage {
            input_tokens: s.turn_input_tokens,
            output_tokens: s.turn_output_tokens,
            cached_tokens: s.turn_cached_tokens,
            context_window: s.token_usage.context_window,
        },
    }
}

/// What the turn's usage measures.
pub open spec fn turn_kind(s: StateView) -> TokenUsageSnapshotKind {
    match s.turn_usage_snapshot_kind {
        Some(k) => k,
        None => s.token_usage_snapshot_kind,
    }
}

/// Archiving the current turn: its diff joins the turn diffs, and its
/// usage and diff are written and, when there is a diff, broadcast.
pub open spec fn archive_turn(s: StateView) -> (Seq<TurnDiffView>, Seq<EffectView>) {
    match s.current_turn_id {
        None => (s.turn_diffs, Seq::empty()),
        Some(tid) => {
            let u = turn_usage(s);
            let k = turn_kind(s);
            let insert = EffectView::Persist(
                PersistView::TurnDiffInsert {
                    session_id: s.id,
                    turn_id: tid,
                    turn_seq: s.turn_count,
                    diff: s.current_diff,
                    input_tokens: u.input_tokens,
                    output_tokens: u.output_tokens,
                    cached_tokens: u.cached_tokens,
                    context_window: u.context_window,
                    snapshot_kind: k,
                },
            );
            match s.current_diff {
                Some(d) => (
                    s.turn_diffs.push(
                        TurnDiffView {
                            turn_id: tid,
                            diff: d,
                            token_usage: Some(u),
                            snapshot_kind: Some(k),
                        },
                    ),
                    seq![
                        insert,
                        EffectView::Emit(
                            MessageView::TurnDiffSnapshot {
                                session_id: s.id,
                                turn_id: tid,
                                diff: d,
                                input_tokens: Some(u.input_tokens),
                                output_tokens: Some(u.output_tokens),
                                cached_tokens: Some(u.cached_tokens),
                                context_window: Some(u.context_window),
                                snapshot_kind: k,
                            },
                        ),
                    ],
                ),
                None => (s.turn_diffs, seq![insert]),
            }
        },
    }
}

/// A turn completes: it is archived, its rows finalized, its counts reset,
/// and a working session waits.
pub open spec fn turn_completed_step(s: StateView, now: Seq<char>) -> (StateView, Seq<EffectView>) {
    let archived = archive_turn(s);
    (
        StateView {
            turn_diffs: archived.0,
            turn_input_tokens: 0,
            turn_output_tokens: 0,
            turn_cached_tokens: 0,
            turn_usage_snapshot: None,
            turn_usage_snapshot_kind: None,
            current_diff: None,
            rows: finalize_rows(s.rows),
            phase: if s.phase is Working {
                PhaseView::Idle
            } else {
                s.phase
            },
            current_turn_id: None,
            ..touched(s, now)
        },
        archived.1 + finalize_effects(s.id, s.rows, s.total_row_count) + seq![
            session_update(s.id, WorkStatus::Waiting, now),
            delta(
                s.id,
                ChangesView {
                    current_turn_id: Some(None),
                    current_diff: Some(None),
                    ..status_changes(WorkStatus::Waiting, now)
                },
            ),
        ],
    )
}

fn archive_current_turn(state: &mut TransitionState, sid: &str, effects: &mut Vec<Effect>)
    requires
        sid@ == old(state).id@,
    ensures
        final(state)@ == (StateView { turn_diffs: archive_turn(old(state)@).0, ..old(state)@ }),
        effects_view(final(effects)@) == effects_view(old(effects)@) + archive_turn(old(state)@).1,
{
    let ghost s0 = state@;
    let ghost e0 = effects_view(effects@);
    let turn_id = match &state.current_turn_id {
        Some(t) => t.clone(),
        None => {
            assert(effects_view(effects@) =~= e0 + archive_turn(s0).1);
            return;
        },
    };
    let usage = match &state.turn_usage_snapshot {
        Some(u) => *u,
        None => TokenUsage {
            input_tokens: state.turn_input_tokens,
            output_tokens: state.turn_output_tokens,
            cached_tokens: state.turn_cached_tokens,
            context_window: state.token_usage.context_window,
        },
    };
    let kind = match state.turn_usage_snapshot_kind {
        Some(k) => k,
        None => state.token_usage_snapshot_kind,
    };
    let diff = crate::text::copy_opt_string(&state.current_diff);
    effects.push(
        Effect::Persist(
            Box::new(
                PersistOp::TurnDiffInsert {
                    session_id: sid.to_string(),
                    turn_id: turn_id.clone(),
                    turn_seq: state.turn_count,
                    diff: crate::text::copy_opt_string(&diff),
                    input_tokens: usage.input_tokens,
                    output_tokens: usage.output_tokens,
                    cached_tokens: usage.cached_tokens,
                    context_window: usage.context_window,
                    snapshot_kind: kind,
                },
            ),
        ),
    );
    if let Some(d) = diff {
        let ghost before = turn_diffs_view(state.turn_diffs@);
        let snapshot = TurnDiff {
            turn_id: turn_id.clone(),
            diff: d.clone(),
            token_usage: Some(usage),
            snapshot_kind: Some(kind),
        };
        state.turn_diffs.push(snapshot);
        assert(turn_diffs_view(state.turn_diffs@) =~= before.push(snapshot@));
        effects.push(
            Effect::Emit(
                Box::new(
                    ServerMessage::TurnDiffSnapshot {
                        session_id: sid.to_string(),
                        turn_id,
                        diff: d,
                        input_tokens: Some(usage.input_tokens),
                        output_tokens: Some(usage.output_tokens),
                        cached_tokens: Some(usage.cached_tokens),
                        context_window: Some(usage.context_window),
                        snapshot_kind: kind,
                    },
                ),
            ),
        );
    }
    assert(effects_view(effects@) =~= e0 + archive_turn(s0).1);
}

fn append_effects(effects: &mut Vec<Effect>, more: Vec<Effect>)
    ensures
        effects_view(final(effects)@) == effects_view(old(effects)@) + effects_view(more@),
{
    let mut more = more;
    let ghost a = effects_view(effects@);
    let ghost b = effects_view(more@);
    effects.append(&mut more);
    assert(effects_view(effects@) =~= a + b);
}

pub fn handle_turn_completed(state: &mut TransitionState, sid: &str, now: &str, effects: &mut Vec<Effect>)
    requires
        sid@ == old(state).id@,
    ensures
        final(state)@ == turn_completed_step(old(state)@, now@).0,
        effects_view(final(effects)@) == effects_view(old(effects)@) + turn_completed_step(old(state)@, now@).1,
{
    let ghost s0 = state@;
    let ghost e0 = effects_view(effects@);
    archive_current_turn(state, sid, effects);
    let ghost e1 = effects_view(effects@);
    state.turn_input_tokens = 0;
    state.turn_output_tokens = 0;
    state.turn_cached_tokens = 0;
    state.turn_usage_snapshot = None;
    state.turn_usage_snapshot_kind = None;
    state.current_diff = None;
    let total = state.total_row_count;
    let finalized = finalize_in_progress_rows(sid, &mut state.rows, total);
    append_effects(effects, finalized);
    let ghost e2 = effects_view(effects@);
    if matches!(state.phase, WorkPhase::Working) {
        state.phase = WorkPhase::Idle;
    }
    touch(state, now);
    state.current_turn_id = None;
    let first = session_update_effect(sid, WorkStatus::Waiting, now);
    let mut changes = status_changes_of(WorkStatus::Waiting, now);
    changes.current_turn_id = Some(None);
    changes.current_diff = Some(None);
    let second = delta_effect(sid, changes);
    let ghost tail = seq![first@, second@];
    effects.push(first);
    effects.push(second);
    assert(state@ =~= turn_completed_step(s0, now@).0);
    let ghost fin = finalize_effects(s0.id, s0.rows, s0.total_row_count);
    assert(e2 == e1 + fin);
    assert(effects_view(effects@) =~= e2 + tail);
    assert(e0 + (archive_turn(s0).1 + fin + tail) =~= e0 + archive_turn(s0).1 + fin + tail);
}

// ---------------------------------------------------------------------------
// Turn aborted
// ---------------------------------------------------------------------------

/// A turn is aborted: unless the session is idle or over, its rows are
/// finalized and it waits; otherwise nothing happens.
pub open spec fn turn_aborted_step(s: StateView, now: Seq<char>) -> (StateView, Seq<EffectView>) {
    if s.phase is Idle || s.phase is Ended {
        (s, Seq::empty())
    } else {
        (
            StateView {
                rows: finalize_rows(s.rows),
                phase: PhaseView::Idle,
                current_turn_id: None,
                turn_input_tokens: 0,
                turn_output_tokens: 0,
                turn_cached_tokens: 0,
                turn_usage_snapshot: None,
                turn_usage_snapshot_kind: None,
                ..touched(s, now)
            },
            finalize_effects(s.id, s.rows, s.total_row_count) + seq![
                session_update(s.id, WorkStatus::Waiting, now),
                delta(
                    s.id,
                    ChangesView {
                        current_turn_id: Some(None),
                        ..status_changes(WorkStatus::Waiting, now)
                    },
                ),
            ],
        )
    }
}

pub fn handle_turn_aborted(state: &mut TransitionState, sid: &str, now: &str, effects: &mut Vec<Effect>)
    requires
        sid@ == old(state).id@,
    ensures
        final(state)@ == turn_aborted_step(old(state)@, now@).0,
        effects_view(final(effects)@) == effects_view(old(effects)@) + turn_aborted_step(old(state)@, now@).1,
{
    let ghost s0 = state@;
    let ghost e0 = effects_view(effects@);
    if matches!(state.phase, WorkPhase::Idle | WorkPhase::Ended { .. }) {
        assert(effects_view(effects@) =~= e0 + turn_aborted_step(s0, now@).1);
        return;
    }
    let total = state.total_row_count;
    let finalized = finalize_in_progress_rows(sid, &mut state.rows, total);
    append_effects(effects, finalized);
    state.phase = WorkPhase::Idle;
    touch(state, now);
    state.current_turn_id = None;
    state.turn_input_tokens = 0;
    state.turn_output_tokens = 0;
    state.turn_cached_tokens = 0;
    state.turn_usage_snapshot = None;
    state.turn_usage_snapshot_kind = None;
    let first = session_update_effect(sid, WorkStatus::Waiting, now);
    let mut changes = status_changes_of(WorkStatus::Waiting, now);
    changes.current_turn_id = Some(None);
    let second = delta_effect(sid, changes);
    let ghost tail = seq![first@, second@];
    let ghost e1 = effects_view(effects@);
    effects.push(first);
    effects.push(second);
    assert(effects_view(effects@) =~= e1 + tail);
    assert(state@ =~= turn_aborted_step(s0, now@).0);
    assert(effects_view(effects@) =~= e0 + turn_aborted_step(s0, now@).1);
}

// ---------------------------------------------------------------------------
// Approval cancelled, session ended, undo, rollback
// ---------------------------------------------------------------------------

/// An approval is cancelled: when it is the one the session awaits, the
/// session works again without a pending approval; otherwise nothing
/// happens.
pub open spec fn approval_cancelled_step(s: StateView, now: Seq<char>, request_id: Seq<char>) -> (
    StateView,
    Seq<EffectView>,
) {
    if s.phase matches PhaseView::AwaitingApproval { request_id: pending, .. } && pending
        == request_id {
        (
            StateView { phase: PhaseView::Working, pending_approval: None, ..touched(s, now) },
            seq![
                session_update(s.id, WorkStatus::Working, now),
                delta(
                    s.id,
                    ChangesView {
                        pending_approval: Some(None),
                        ..status_changes(WorkStatus::Working, now)
                    },
                ),
            ],
        )
    } else {
        (s, Seq::empty())
    }
}

pub fn handle_approval_cancelled(
    state: &mut TransitionState,
    sid: &str,
    now: &str,
    effects: &mut Vec<Effect>,
    request_id: String,
)
    requires
        sid@ == old(state).id@,
    ensures
        final(state)@ == approval_cancelled_step(old(state)@, now@, request_id@).0,
        effects_view(final(effects)@) == effects_view(old(effects)@) + approval_cancelled_step(
            old(state)@,
            now@,
            request_id@,
        ).1,
{
    let ghost s0 = state@;
    let ghost e0 = effects_view(effects@);
    let is_current = match &state.phase {
        WorkPhase::AwaitingApproval { request_id: pending, .. } => crate::text::str_eq(
            pending.as_str(),
            request_id.as_str(),
        ),
        _ => false,
    };
    if !is_current {
        assert(effects_view(effects@) =~= e0 + approval_cancelled_step(s0, now@, request_id@).1);
        return;
    }
    state.phase = WorkPhase::Working;
    state.pending_approval = None;
    touch(state, now);
    let first = session_update_effect(sid, WorkStatus::Working, now);
    let mut changes = status_changes_of(WorkStatus::Working, now);
    changes.pending_approval = Some(None);
    let second = delta_effect(sid, changes);
    effects.push(first);
    effects.push(second);
    assert(effects_view(effects@) =~= e0 + approval_cancelled_step(s0, now@, request_id@).1);
}

/// The session ends: its rows are finalized and it records why.
pub open spec fn session_ended_step(s: StateView, now: Seq<char>, reason: Seq<char>) -> (
    StateView,
    Seq<EffectView>,
) {
    (
        StateView {
            rows: finalize_rows(s.rows),
            phase: PhaseView::Ended { reason },
            ..touched(s, now)
        },
        finalize_effects(s.id, s.rows, s.total_row_count) + seq![
            EffectView::Persist(PersistView::SessionEnd { id: s.id, reason }),
            EffectView::Emit(MessageView::SessionEnded { session_id: s.id, reason }),
        ],
    )
}

pub fn handle_session_ended(
    state: &mut TransitionState,
    sid: &str,
    now: &str,
    effects: &mut Vec<Effect>,
    reason: String,
)
    requires
        sid@ == old(state).id@,
    ensures
        final(state)@ == session_ended_step(old(state)@, now@, reason@).0,
        effects_view(final(effects)@) == effects_view(old(effects)@) + session_ended_step(
            old(state)@,
            now@,
            reason@,
        ).1,
{
    let ghost s0 = state@;
    let ghost e0 = effects_view(effects@);
    let total = state.total_row_count;
    let finalized = finalize_in_progress_rows(sid, &mut state.rows, total);
    append_effects(effects, finalized);
    let ghost e1 = effects_view(effects@);
    state.phase = WorkPhase::Ended { reason: reason.clone() };
    touch(state, now);
    let first = Effect::Persist(Box::new(PersistOp::SessionEnd { id: sid.to_string(), reason: reason.clone() }));
    let second = Effect::Emit(Box::new(ServerMessage::SessionEnded { session_id: sid.to_string(), reason }));
    let ghost tail = seq![first@, second@];
    effects.push(first);
    effects.push(second);
    assert(effects_view(effects@) =~= e1 + tail);
    assert(state@ =~= session_ended_step(s0, now@, reason@).0);
    assert(effects_view(effects@) =~= e0 + session_ended_step(s0, now@, reason@).1);
}

/// The phase, status and closing message of an undo or a rollback.
pub open spec fn settled_step(
    s: StateView,
    now: Seq<char>,
    phase: PhaseView,
    status: WorkStatus,
    last: EffectView,
) -> (StateView, Seq<EffectView>) {
    (
        StateView { phase, ..touched(s, now) },
        seq![session_update(s.id, status, now), delta(s.id, status_changes(status, now)), last],
    )
}

/// An undo starts: the session works.
pub open spec fn undo_started_step(s: StateView, now: Seq<char>, message: Option<Seq<char>>) -> (
    StateView,
    Seq<EffectView>,
) {
    settled_step(
        s,
        now,
        PhaseView::Working,
        WorkStatus::Working,
        EffectView::Emit(MessageView::UndoStarted { session_id: s.id, message }),
    )
}

/// An undo completes: the session waits.
pub open spec fn undo_completed_step(
    s: StateView,
    now: Seq<char>,
    success: bool,
    message: Option<Seq<char>>,
) -> (StateView, Seq<EffectView>) {
    settled_step(
        s,
        now,
        PhaseView::Idle,
        WorkStatus::Waiting,
        EffectView::Emit(MessageView::UndoCompleted { session_id: s.id, success, message }),
    )
}

/// Turns are rolled back: the session waits.
pub open spec fn thread_rolled_back_step(s: StateView, now: Seq<char>, num_turns: u32) -> (
    StateView,
    Seq<EffectView>,
) {
    settled_step(
        s,
        now,
        PhaseView::Idle,
        WorkStatus::Waiting,
        EffectView::Emit(MessageView::ThreadRolledBack { session_id: s.id, num_turns }),
    )
}

fn settle(
    state: &mut TransitionState,
    sid: &str,
    now: &str,
    effects: &mut Vec<Effect>,
    phase: WorkPhase,
    status: WorkStatus,
    last: Effect,
)
    requires
        sid@ == old(state).id@,
    ensures
        final(state)@ == settled_step(old(state)@, now@, phase@, status, last@).0,
        effects_view(final(effects)@) == effects_view(old(effects)@) + settled_step(
            old(state)@,
            now@,
            phase@,
            status,
            last@,
        ).1,
{
    let ghost s0 = state@;
    let ghost e0 = effects_view(effects@);
    let ghost p = phase@;
    let ghost l = last@;
    state.phase = phase;
    touch(state, now);
    effects.push(session_update_effect(sid, status, now));
    effects.push(delta_effect(sid, status_changes_of(status, now)));
    effects.push(last);
    assert(effects_view(effects@) =~= e0 + settled_step(s0, now@, p, status, l).1);
}

pub fn handle_undo_started(
    state: &mut TransitionState,
    sid: &str,
    now: &str,
    effects: &mut Vec<Effect>,
    message: Option<String>,
)
    requires
        sid@ == old(state).id@,
    ensures
        final(state)@ == undo_started_step(old(state)@, now@, opt_string_view(message)).0,
        effects_view(final(effects)@) == effects_view(old(effects)@) + undo_started_step(
            old(state)@,
            now@,
            opt_string_view(message),
        ).1,
{
    let last = Effect::Emit(Box::new(ServerMessage::UndoStarted { session_id: sid.to_string(), message }));
    settle(state, sid, now, effects, WorkPhase::Working, WorkStatus::Working, last);
}

pub fn handle_undo_completed(
    state: &mut TransitionState,
    sid: &str,
    now: &str,
    effects: &mut Vec<Effect>,
    success: bool,
    message: Option<String>,
)
    requires
        sid@ == old(state).id@,
    ensures
        final(state)@ == undo_completed_step(old(state)@, now@, success, opt_string_view(message)).0,
        effects_view(final(effects)@) == effects_view(old(effects)@) + undo_completed_step(
            old(state)@,
            now@,
            success,
            opt_string_view(message),
        ).1,
{
    let last = Effect::Emit(
        Box::new(ServerMessage::UndoCompleted { session_id: sid.to_string(), success, message }),
    );
    settle(state, sid, now, effects, WorkPhase::Idle, WorkStatus::Waiting, last);
}

pub fn handle_thread_rolled_back(
    state: &mut TransitionState,
    sid: &str,
    now: &str,
    effects: &mut Vec<Effect>,
    num_turns: u32,
)
    requires
        sid@ == old(state).id@,
    ensures
        final(state)@ == thread_rolled_back_step(old(state)@, now@, num_turns).0,
        effects_view(final(effects)@) == effects_view(old(effects)@) + thread_rolled_back_step(
            old(state)@,
            now@,
            num_turns,
        ).1,
{
    let last = Effect::Emit(
        Box::new(ServerMessage::ThreadRolledBack { session_id: sid.to_string(), num_turns }),
    );
    settle(state, sid, now, effects, WorkPhase::Idle, WorkStatus::Waiting, last);
}

} // verus!
