//! How the runtime's turns start and end and how a session is configured:
//! streamed text left over when a turn ends is sent as it stands.

use crate::codex::runtime_tools::{git_view, reports_environment, EnvironmentTracker, GitInfo, env_view};
use crate::codex::signals::{replaces_row, row_updated_output, state_output, text_pairs, thinking_entry, thinking_row_entry, DeltaBuffers};
use crate::keyed::{distinct_keys, first_wins};
use crate::text::{copy_opt_string, copy_string, opt_string_view};
use crate::transition::connector::{ConnectorOutput, ConnectorStateEvent};
use vstd::prelude::*;

verus! {

/// The outputs from position `k` on update the thinking row of each
/// pending text, in order, stamped `now`.
pub open spec fn pending_updates(r: Seq<ConnectorOutput>, k: int, pending: Seq<(Seq<char>, Seq<char>)>, now: Seq<char>) -> bool {
    &&& r.len() == k + pending.len()
    &&& forall|i: int|
        0 <= i < pending.len() ==> replaces_row(
            #[trigger] r[k + i],
            pending[i].0,
            thinking_entry(pending[i].0, pending[i].1, now),
        )
}

/// What is left of the streamed texts when a turn ends: each id once,
/// with its text.
pub open spec fn leftover(buffers: Map<Seq<char>, Seq<char>>, pending: Seq<(Seq<char>, Seq<char>)>) -> bool {
    distinct_keys(pending) && first_wins(pending) == buffers
}

fn push_pending_updates(out: &mut Vec<ConnectorOutput>, pending: Vec<(String, String)>, now: &str)
    ensures
        final(out)@.take(old(out)@.len() as int) == old(out)@,
        pending_updates(final(out)@, old(out)@.len() as int, text_pairs(pending@), now@),
{
    let ghost k = out@.len() as int;
    let ghost start = out@;
    let ghost pv = pending@;
    let ghost p = text_pairs(pending@);
    let mut rest = pending;
    let n = rest.len();
    let mut i: usize = 0;
    assert(rest@ =~= pv.skip(0));
    while rest.len() > 0
        invariant
            p == text_pairs(pv),
            k == start.len(),
            pv.len() == n,
            i + rest.len() == n,
            rest@ == pv.skip(i as int),
            out@.len() == k + i,
            out@.take(k) == start,
            forall|j: int|
                0 <= j < i ==> replaces_row(#[trigger] out@[k + j], p[j].0, thinking_entry(p[j].0, p[j].1, now@)),
        decreases rest.len(),
    {
        let (id, content) = rest.remove(0);
        assert(rest@ =~= pv.skip(i + 1));
        assert(p[i as int] == (id@, content@));
        let entry = thinking_row_entry(copy_string(&id), content, now);
        let ghost before = out@;
        out.push(row_updated_output(id, entry));
        assert(forall|t: int| 0 <= t < before.len() ==> out@[t] == before[t]);
        assert(out@.take(k) =~= before.take(k));
        assert(forall|j: int| 0 <= j < i ==> #[trigger] out@[k + j] == before[k + j]);
        i = i + 1;
    }
}

/// A turn starts: nothing streamed before it is kept.
pub fn handle_turn_started(buffers: &mut DeltaBuffers) -> (r: Vec<ConnectorOutput>)
    ensures
        final(buffers)@ == Map::<Seq<char>, Seq<char>>::empty(),
        r@.len() == 1,
        r@[0] == ConnectorOutput::State(ConnectorStateEvent::TurnStarted),
{
    let _ = buffers.drain();
    vec![state_output(ConnectorStateEvent::TurnStarted)]
}

/// A turn completes: the turn's end, then the thinking row of each text
/// still streamed, which the buffers give up.
pub fn handle_turn_complete(buffers: &mut DeltaBuffers, now: &str) -> (r: Vec<ConnectorOutput>)
    ensures
        final(buffers)@ == Map::<Seq<char>, Seq<char>>::empty(),
        r@[0] == ConnectorOutput::State(ConnectorStateEvent::TurnCompleted),
        exists|pending: Seq<(Seq<char>, Seq<char>)>|
            leftover(old(buffers)@, pending) && pending_updates(r@, 1, pending, now@),
{
    let pending = buffers.drain();
    let ghost p = text_pairs(pending@);
    let mut out = vec![state_output(ConnectorStateEvent::TurnCompleted)];
    push_pending_updates(&mut out, pending, now);
    assert(out@[0] == out@.take(1)[0]);
    assert(leftover(old(buffers)@, p) && pending_updates(out@, 1, p, now@));
    out
}

/// A turn is aborted (`reason` is the name of why): the abort, then the
/// thinking row of each text still streamed, which the buffers give up.
pub fn handle_turn_aborted(reason: String, buffers: &mut DeltaBuffers, now: &str) -> (r: Vec<ConnectorOutput>)
    ensures
        final(buffers)@ == Map::<Seq<char>, Seq<char>>::empty(),
        r@[0] == ConnectorOutput::State(ConnectorStateEvent::TurnAborted { reason }),
        exists|pending: Seq<(Seq<char>, Seq<char>)>|
            leftover(old(buffers)@, pending) && pending_updates(r@, 1, pending, now@),
{
    let pending = buffers.drain();
    let ghost p = text_pairs(pending@);
    let mut out = vec![state_output(ConnectorStateEvent::TurnAborted { reason })];
    push_pending_updates(&mut out, pending, now);
    assert(out@[0] == out@.take(1)[0]);
    assert(leftover(old(buffers)@, p) && pending_updates(out@, 1, p, now@));
    out
}

/// A session is configured: its model and reasoning effort (by name)
/// become the current ones, and its directory, with what git says of it,
/// becomes the known environment and is reported.
pub fn handle_session_configured(
    tracker: &mut EnvironmentTracker,
    current_model: &mut Option<String>,
    current_reasoning_effort: &mut Option<String>,
    model: String,
    cwd: String,
    reasoning_effort: Option<String>,
    git_info: Option<GitInfo>,
) -> (r: Vec<ConnectorOutput>)
    ensures
        opt_string_view(*final(current_model)) == Some(model@),
        *final(current_reasoning_effort) == reasoning_effort,
        env_view(*final(tracker)) == (Some(cwd@), git_view(git_info).0, git_view(git_info).1),
        r@.len() == 1,
        reports_environment(r@[0], cwd@, git_view(git_info)),
{
    *current_model = Some(model);
    *current_reasoning_effort = reasoning_effort;
    let (branch, sha) = match git_info {
        Some(info) => (info.branch, info.commit_hash),
        None => (None, None),
    };
    tracker.cwd = Some(copy_string(&cwd));
    tracker.branch = copy_opt_string(&branch);
    tracker.sha = copy_opt_string(&sha);
    vec![
        state_output(
            ConnectorStateEvent::EnvironmentChanged { cwd: Some(cwd), git_branch: branch, git_sha: sha },
        ),
    ]
}

} // verus!
