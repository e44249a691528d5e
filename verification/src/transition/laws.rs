//! What holds of every transition, and of transitions in sequence.

use crate::approval::ApprovalType;
use crate::transition::approvals::ApprovalInputView;
use crate::transition::effects::{EffectView, MessageView, PersistView};
use crate::transition::finalize::{finalize_rows, finalized, in_progress};
use crate::transition::lifecycle::turn_id_of;
use crate::transition::model::{TokenUsage, ConversationRowEntry, EntryView, RowView, ToolStatus};
use crate::transition::reducer::{dispatch, transition_fits, transition_spec};
use crate::transition::rows::{is_echo, position_of_id, row_created_step, row_room};
use crate::transition::state::{Input, PhaseView, StateView};
use vstd::prelude::*;

verus! {

/// After any transition, an approval is pending only while the session
/// awaits one.
pub proof fn law_pending_approval_only_while_awaiting(
    s: StateView,
    input: Input,
    now: Seq<char>,
    fresh: Seq<char>,
)
    ensures
        transition_spec(s, input, now, fresh).0.pending_approval is Some
            ==> transition_spec(s, input, now, fresh).0.phase is AwaitingApproval,
{
}

/// A request for approval makes the session await it: the phase names the
/// request, and the request is the one pending.
pub proof fn law_approval_request_is_awaited(s: StateView, input: Input, now: Seq<char>, fresh: Seq<char>)
    requires
        input is ApprovalRequested,
    ensures
        ({
            let r = transition_spec(s, input, now, fresh).0;
            input matches Input::ApprovalRequested { request_id, approval_type, .. } ==> {
                &&& r.phase matches PhaseView::AwaitingApproval { request_id: p, approval_type: t, .. } && p
                    == request_id@ && t == approval_type
                &&& r.pending_approval is Some
                &&& r.pending_approval.unwrap().id == request_id@
            }
        }),
{
}

/// A transition is a function of the state, the event, the time and the
/// name given to a new system row: the same arguments give the same state
/// and effects.
pub proof fn law_transition_is_deterministic(
    s1: StateView,
    s2: StateView,
    i1: Input,
    i2: Input,
    now: Seq<char>,
    fresh: Seq<char>,
)
    requires
        s1 == s2,
        i1 == i2,
    ensures
        transition_spec(s1, i1, now, fresh) == transition_spec(s2, i2, now, fresh),
{
}

/// When a turn with a diff completes, the usage it archives with the diff,
/// the usage it writes and the usage it broadcasts are one and the same:
/// the turn's own usage snapshot when the provider gave one, else the
/// tokens counted during the turn with the session's context window —
/// never the session's running totals.
pub proof fn law_completed_turn_records_its_own_usage(s: StateView, now: Seq<char>, fresh: Seq<char>)
    requires
        s.current_turn_id is Some,
        s.current_diff is Some,
    ensures
        ({
            let r = transition_spec(s, Input::TurnCompleted, now, fresh);
            let u = match s.turn_usage_snapshot {
                Some(x) => x,
                None => TokenUsage {
                    input_tokens: s.turn_input_tokens,
                    output_tokens: s.turn_output_tokens,
                    cached_tokens: s.turn_cached_tokens,
                    context_window: s.token_usage.context_window,
                },
            };
            &&& r.0.turn_diffs.len() == s.turn_diffs.len() + 1
            &&& r.0.turn_diffs.drop_last() == s.turn_diffs
            &&& r.0.turn_diffs.last().turn_id == s.current_turn_id.unwrap()
            &&& r.0.turn_diffs.last().diff == s.current_diff.unwrap()
            &&& r.0.turn_diffs.last().token_usage == Some(u)
            &&& r.1.len() >= 2
            &&& r.1[0] matches EffectView::Persist(
                PersistView::TurnDiffInsert { turn_id, input_tokens, output_tokens, cached_tokens, context_window, .. },
            ) && turn_id == s.current_turn_id.unwrap() && input_tokens == u.input_tokens && output_tokens
                == u.output_tokens && cached_tokens == u.cached_tokens && context_window == u.context_window
            &&& r.1[1] matches EffectView::Emit(
                MessageView::TurnDiffSnapshot { turn_id, diff, input_tokens, output_tokens, cached_tokens, context_window, .. },
            ) && turn_id == s.current_turn_id.unwrap() && diff == s.current_diff.unwrap() && input_tokens == Some(
                u.input_tokens,
            ) && output_tokens == Some(u.output_tokens) && cached_tokens == Some(u.cached_tokens)
                && context_window == Some(u.context_window)
        }),
{
    let r = transition_spec(s, Input::TurnCompleted, now, fresh);
    assert(r.0.turn_diffs.drop_last() =~= s.turn_diffs);
}

/// A started turn is counted and named after its count, the session works,
/// and the per-turn token accumulators and usage snapshot start afresh.
pub proof fn law_turn_started_counts_turns(s: StateView, now: Seq<char>, fresh: Seq<char>)
    requires
        s.turn_count < u64::MAX,
    ensures
        ({
            let r = transition_spec(s, Input::TurnStarted, now, fresh).0;
            &&& r.turn_count == s.turn_count + 1
            &&& r.current_turn_id == Some(turn_id_of((s.turn_count + 1) as nat))
            &&& r.phase is Working
            &&& r.turn_input_tokens == 0
            &&& r.turn_output_tokens == 0
            &&& r.turn_cached_tokens == 0
            &&& r.turn_usage_snapshot is None
            &&& r.turn_usage_snapshot_kind is None
        }),
{
}

/// A finalized row is no longer in progress.
pub proof fn lemma_finalized_not_in_progress(e: EntryView)
    ensures
        !in_progress(finalized(e)),
{
}

/// When a turn completes, a session ends, or a turn of a working session
/// is aborted, no row is left in progress.
pub proof fn law_turn_end_leaves_no_row_in_progress(
    s: StateView,
    input: Input,
    now: Seq<char>,
    fresh: Seq<char>,
)
    requires
        input is TurnCompleted || input is SessionEnded || (input is TurnAborted && !(s.phase is Idle
            || s.phase is Ended)),
    ensures
        forall|i: int|
            0 <= i < transition_spec(s, input, now, fresh).0.rows.len() ==> !in_progress(
                #[trigger] transition_spec(s, input, now, fresh).0.rows[i],
            ),
{
    let rows = transition_spec(s, input, now, fresh).0.rows;
    assert(rows == finalize_rows(s.rows));
    assert forall|i: int| 0 <= i < rows.len() implies !in_progress(#[trigger] rows[i]) by {
        lemma_finalized_not_in_progress(s.rows[i]);
    }
}

/// Updating a row with another of the same id keeps the first row with
/// that id where it was.
proof fn lemma_position_after_update(rows: Seq<EntryView>, id: Seq<char>, p: nat, x: EntryView)
    requires
        position_of_id(rows, id) == Some(p),
        x.row.id() == id,
    ensures
        position_of_id(rows.update(p as int, x), id) == Some(p),
    decreases rows.len(),
{
    crate::transition::rows::lemma_position_bound(rows, id);
    if p == rows.len() - 1 {
        assert(rows.update(p as int, x).drop_last() =~= rows.drop_last());
        crate::transition::rows::lemma_position_bound(rows.drop_last(), id);
    } else {
        assert(rows.update(p as int, x).drop_last() =~= rows.drop_last().update(p as int, x));
        lemma_position_after_update(rows.drop_last(), id, p, x);
    }
}

/// Appending a row whose id no row has puts it first with that id.
proof fn lemma_position_after_push(rows: Seq<EntryView>, id: Seq<char>, x: EntryView)
    requires
        position_of_id(rows, id) is None,
        x.row.id() == id,
    ensures
        position_of_id(rows.push(x), id) == Some(rows.len()),
{
    assert(rows.push(x).drop_last() =~= rows);
}

/// Creating the same row twice changes nothing the second time: no effect,
/// and the state is as the first creation left it (the row's sequence is
/// left for the reducer to assign).
pub proof fn law_row_created_is_idempotent(
    s: StateView,
    entry: ConversationRowEntry,
    now: Seq<char>,
    fresh: Seq<char>,
)
    requires
        entry.sequence == 0,
        row_room(s.rows),
        row_room(transition_spec(s, Input::RowCreated(entry), now, fresh).0.rows),
    ensures
        ({
            let first = transition_spec(s, Input::RowCreated(entry), now, fresh);
            let second = transition_spec(first.0, Input::RowCreated(entry), now, fresh);
            &&& second.0 == first.0
            &&& second.1 == Seq::<EffectView>::empty()
        }),
{
    let e = entry@;
    let e1 = EntryView { session_id: s.id, ..e };
    let id = e1.row.id();
    let first = transition_spec(s, Input::RowCreated(entry), now, fresh);
    let d1 = row_created_step(s, now, e);
    let s1 = first.0;
    assert(s1.id == s.id);
    assert(s1.phase == s.phase);
    crate::transition::rows::lemma_position_bound(s.rows, id);
    if is_echo(s.rows, e1) {
        assert(s1.rows == s.rows);
    } else {
        match position_of_id(s.rows, id) {
            Some(p) => {
                let e2 = if e1.sequence == 0 {
                    EntryView { sequence: s.rows[p as int].sequence, ..e1 }
                } else {
                    e1
                };
                if s.rows[p as int] != e2 {
                    assert(s1.rows == s.rows.update(p as int, e2));
                    lemma_position_after_update(s.rows, id, p, e2);
                }
            },
            None => {
                let q = crate::transition::common::next_sequence(s.rows) as u64;
                let e2 = EntryView { sequence: q, ..e1 };
                assert(s1.rows == s.rows.push(e2));
                lemma_position_after_push(s.rows, id, e2);
            },
        }
    }
}

/// Cancelling the approval the session awaits makes it work again with
/// nothing pending; cancelling any other request has no effect and changes
/// nothing but dropping a pending approval the session does not await.
pub proof fn law_approval_cancelled(s: StateView, request_id: String, now: Seq<char>, fresh: Seq<char>)
    ensures
        ({
            let r = transition_spec(s, Input::ApprovalCancelled { request_id }, now, fresh);
            if s.phase matches PhaseView::AwaitingApproval { request_id: pending, .. } && pending
                == request_id@ {
                &&& r.0.phase is Working
                &&& r.0.pending_approval is None
                &&& r.1.len() == 2
            } else {
                &&& r.1 == Seq::<EffectView>::empty()
                &&& r.0 == (if s.phase is AwaitingApproval {
                    s
                } else {
                    StateView { pending_approval: None, ..s }
                })
            }
        }),
{
}

/// A request for approval that is then cancelled leaves the session
/// working with nothing pending.
pub proof fn law_cancel_after_request_resumes_work(
    s: StateView,
    input: Input,
    now: Seq<char>,
    later: Seq<char>,
    fresh: Seq<char>,
)
    requires
        input is ApprovalRequested,
    ensures
        ({
            let requested = transition_spec(s, input, now, fresh).0;
            let cancel = Input::ApprovalCancelled { request_id: input->ApprovalRequested_request_id };
            let r = transition_spec(requested, cancel, later, fresh).0;
            &&& requested.phase is AwaitingApproval
            &&& requested.pending_approval is Some
            &&& r.phase is Working
            &&& r.pending_approval is None
        }),
{
}

/// The provider's own usage of a turn is recorded without any effect.
pub proof fn law_turn_usage_is_silent(
    s: StateView,
    usage: crate::transition::model::TokenUsage,
    kind: crate::transition::model::TokenUsageSnapshotKind,
    now: Seq<char>,
    fresh: Seq<char>,
)
    ensures
        ({
            let r = transition_spec(s, Input::TurnUsageUpdated { usage, snapshot_kind: kind }, now, fresh);
            &&& r.1 == Seq::<EffectView>::empty()
            &&& r.0.turn_usage_snapshot == Some(usage)
            &&& r.0.turn_usage_snapshot_kind == Some(kind)
            &&& r.0.token_usage == s.token_usage
        }),
{
}

} // verus!
