//! Session metadata: tokens, diff and plan, names, environment, model,
//! attention, subagents, summary, effort and first prompt.

use crate::text::{copy_opt_string, opt_string_view, str_eq};
use crate::transition::common::{delta, delta_effect};
use crate::transition::copies::copy_subagents;
use crate::transition::effects::{
    effects_view, no_changes, ChangesView, Effect, EffectView, MessageView, PersistOp,
    PersistView, ServerMessage, StateChanges,
};
use crate::transition::model::{
    opt_opt_view, subagents_view, SubagentInfo, TokenUsage, TokenUsageSnapshotKind,
};
use crate::transition::state::{StateView, TransitionState};
use crate::transition::subagents::{merge_subagent_updates, merged_subagents};
use vstd::prelude::*;

verus! {

// ---------------------------------------------------------------------------
// Tokens
// ---------------------------------------------------------------------------

/// Whether a mixed snapshot can be added to the session's and the turn's
/// counts without overflow.
pub open spec fn tokens_fit(s: StateView, usage: TokenUsage, kind: TokenUsageSnapshotKind) -> bool {
    kind == TokenUsageSnapshotKind::Mixed ==> {
        &&& s.token_usage.output_tokens + usage.output_tokens <= u64::MAX
        &&& s.turn_input_tokens + usage.input_tokens <= u64::MAX
        &&& s.turn_output_tokens + usage.output_tokens <= u64::MAX
        &&& s.turn_cached_tokens + usage.cached_tokens <= u64::MAX
    }
}

/// New token usage: a mixed snapshot replaces the input, cached and window
/// counts and adds its output, and adds to the turn's counts; any other
/// replaces the usage.
pub open spec fn tokens_updated_step(
    s: StateView,
    usage: TokenUsage,
    kind: TokenUsageSnapshotKind,
) -> (StateView, Seq<EffectView>) {
    let s1 = if kind == TokenUsageSnapshotKind::Mixed {
        StateView {
            token_usage: TokenUsage {
                input_tokens: usage.input_tokens,
                output_tokens: (s.token_usage.output_tokens + usage.output_tokens) as u64,
                cached_tokens: usage.cached_tokens,
                context_window: usage.context_window,
            },
            turn_input_tokens: (s.turn_input_tokens + usage.input_tokens) as u64,
            turn_output_tokens: (s.turn_output_tokens + usage.output_tokens) as u64,
            turn_cached_tokens: (s.turn_cached_tokens + usage.cached_tokens) as u64,
            ..s
        }
    } else {
        StateView { token_usage: usage, ..s }
    };
    (
        StateView { token_usage_snapshot_kind: kind, ..s1 },
        seq![
            EffectView::Persist(
                PersistView::TokensUpdate {
                    session_id: s.id,
                    usage: s1.token_usage,
                    snapshot_kind: kind,
                },
            ),
            EffectView::Emit(
                MessageView::TokensUpdated {
                    session_id: s.id,
                    usage: s1.token_usage,
                    snapshot_kind: kind,
                },
            ),
        ],
    )
}

pub fn handle_tokens_updated(
    state: &mut TransitionState,
    sid: &str,
    effects: &mut Vec<Effect>,
    usage: TokenUsage,
    snapshot_kind: TokenUsageSnapshotKind,
)
    requires
        sid@ == old(state).id@,
        tokens_fit(old(state)@, usage, snapshot_kind),
    ensures
        final(state)@ == tokens_updated_step(old(state)@, usage, snapshot_kind).0,
        effects_view(final(effects)@) == effects_view(old(effects)@) + tokens_updated_step(
            old(state)@,
            usage,
            snapshot_kind,
        ).1,
{
    let ghost s0 = state@;
    let ghost e0 = effects_view(effects@);
    match snapshot_kind {
        TokenUsageSnapshotKind::Mixed => {
            state.token_usage.input_tokens = usage.input_tokens;
            state.token_usage.output_tokens = state.token_usage.output_tokens + usage.output_tokens;
            state.token_usage.cached_tokens = usage.cached_tokens;
            state.token_usage.context_window = usage.context_window;
            state.turn_input_tokens = state.turn_input_tokens + usage.input_tokens;
            state.turn_output_tokens = state.turn_output_tokens + usage.output_tokens;
            state.turn_cached_tokens = state.turn_cached_tokens + usage.cached_tokens;
        },
        _ => {
            state.token_usage = usage;
        },
    }
    state.token_usage_snapshot_kind = snapshot_kind;
    effects.push(
        Effect::Persist(
            Box::new(
                PersistOp::TokensUpdate {
                    session_id: sid.to_string(),
                    usage: state.token_usage,
                    snapshot_kind,
                },
            ),
        ),
    );
    effects.push(
        Effect::Emit(
            Box::new(
                ServerMessage::TokensUpdated {
                    session_id: sid.to_string(),
                    usage: state.token_usage,
                    snapshot_kind,
                },
            ),
        ),
    );
    assert(state@ =~= tokens_updated_step(s0, usage, snapshot_kind).0);
    assert(effects_view(effects@) =~= e0 + tokens_updated_step(s0, usage, snapshot_kind).1);
}

/// The provider's usage of the turn is recorded, with no effect.
pub open spec fn turn_usage_updated_step(
    s: StateView,
    usage: TokenUsage,
    kind: TokenUsageSnapshotKind,
) -> StateView {
    StateView { turn_usage_snapshot: Some(usage), turn_usage_snapshot_kind: Some(kind), ..s }
}

pub fn handle_turn_usage_updated(
    state: &mut TransitionState,
    usage: TokenUsage,
    snapshot_kind: TokenUsageSnapshotKind,
)
    ensures
        final(state)@ == turn_usage_updated_step(old(state)@, usage, snapshot_kind),
{
    state.turn_usage_snapshot = Some(usage);
    state.turn_usage_snapshot_kind = Some(snapshot_kind);
}

// ---------------------------------------------------------------------------
// Values that are set and broadcast
// ---------------------------------------------------------------------------

/// The write and broadcast of a value that was set.
pub open spec fn write_and_delta(s: StateView, write: PersistView, changes: ChangesView) -> Seq<
    EffectView,
> {
    seq![EffectView::Persist(write), delta(s.id, changes)]
}

/// The current diff is set.
pub open spec fn diff_updated_step(s: StateView, diff: Seq<char>) -> (StateView, Seq<EffectView>) {
    (
        StateView { current_diff: Some(diff), ..s },
        write_and_delta(
            s,
            PersistView::TurnStateUpdate { session_id: s.id, diff: Some(diff), plan: None },
            ChangesView { current_diff: Some(Some(diff)), ..no_changes() },
        ),
    )
}

/// The current plan is set.
pub open spec fn plan_updated_step(s: StateView, plan: Seq<char>) -> (StateView, Seq<EffectView>) {
    (
        StateView { current_plan: Some(plan), ..s },
        write_and_delta(
            s,
            PersistView::TurnStateUpdate { session_id: s.id, diff: None, plan: Some(plan) },
            ChangesView { current_plan: Some(Some(plan)), ..no_changes() },
        ),
    )
}

/// The session's name is set; it counts as activity.
pub open spec fn thread_name_updated_step(s: StateView, now: Seq<char>, name: Seq<char>) -> (
    StateView,
    Seq<EffectView>,
) {
    (
        StateView { custom_name: Some(name), last_activity_at: Some(now), ..s },
        write_and_delta(
            s,
            PersistView::SetCustomName { session_id: s.id, custom_name: Some(name) },
            ChangesView { custom_name: Some(Some(name)), ..no_changes() },
        ),
    )
}

/// The model is set.
pub open spec fn model_updated_step(s: StateView, model: Seq<char>) -> (StateView, Seq<EffectView>) {
    (
        StateView { model: Some(model), ..s },
        write_and_delta(
            s,
            PersistView::ModelUpdate { session_id: s.id, model },
            ChangesView { model: Some(Some(model)), ..no_changes() },
        ),
    )
}

/// The first prompt is recorded.
pub open spec fn first_prompt_captured_step(s: StateView, prompt: Seq<char>) -> (
    StateView,
    Seq<EffectView>,
) {
    (
        StateView { first_prompt: Some(prompt), ..s },
        write_and_delta(
            s,
            PersistView::FirstPromptCaptured { session_id: s.id, first_prompt: prompt },
            ChangesView { first_prompt: Some(Some(prompt)), ..no_changes() },
        ),
    )
}

/// The permission mode changed; the session keeps no copy of it.
pub open spec fn permission_mode_changed_step(s: StateView, mode: Seq<char>) -> Seq<EffectView> {
    write_and_delta(
        s,
        PersistView::PermissionModeUpdate { session_id: s.id, permission_mode: mode },
        ChangesView { permission_mode: Some(Some(mode)), ..no_changes() },
    )
}

/// The transcript path is set and written, not broadcast.
pub open spec fn transcript_path_updated_step(s: StateView, path: Option<Seq<char>>) -> (
    StateView,
    Seq<EffectView>,
) {
    (
        StateView { transcript_path: path, ..s },
        seq![
            EffectView::Persist(
                PersistView::SetTranscriptPath { session_id: s.id, transcript_path: path },
            ),
        ],
    )
}

fn push_two(effects: &mut Vec<Effect>, a: Effect, b: Effect)
    ensures
        effects_view(final(effects)@) == effects_view(old(effects)@) + seq![a@, b@],
{
    let ghost e0 = effects_view(effects@);
    let ghost t = seq![a@, b@];
    effects.push(a);
    effects.push(b);
    assert(effects_view(effects@) =~= e0 + t);
}

pub fn handle_diff_updated(state: &mut TransitionState, sid: &str, effects: &mut Vec<Effect>, diff: String)
    requires
        sid@ == old(state).id@,
    ensures
        final(state)@ == diff_updated_step(old(state)@, diff@).0,
        effects_view(final(effects)@) == effects_view(old(effects)@) + diff_updated_step(
            old(state)@,
            diff@,
        ).1,
{
    state.current_diff = Some(diff.clone());
    let write = Effect::Persist(
        Box::new(
            PersistOp::TurnStateUpdate {
                session_id: sid.to_string(),
                diff: Some(diff.clone()),
                plan: None,
            },
        ),
    );
    let mut changes = StateChanges::none();
    changes.current_diff = Some(Some(diff));
    push_two(effects, write, delta_effect(sid, changes));
}

pub fn handle_plan_updated(state: &mut TransitionState, sid: &str, effects: &mut Vec<Effect>, plan: String)
    requires
        sid@ == old(state).id@,
    ensures
        final(state)@ == plan_updated_step(old(state)@, plan@).0,
        effects_view(final(effects)@) == effects_view(old(effects)@) + plan_updated_step(
            old(state)@,
            plan@,
        ).1,
{
    state.current_plan = Some(plan.clone());
    let write = Effect::Persist(
        Box::new(
            PersistOp::TurnStateUpdate {
                session_id: sid.to_string(),
                diff: None,
                plan: Some(plan.clone()),
            },
        ),
    );
    let mut changes = StateChanges::none();
    changes.current_plan = Some(Some(plan));
    push_two(effects, write, delta_effect(sid, changes));
}

pub fn handle_thread_name_updated(
    state: &mut TransitionState,
    sid: &str,
    now: &str,
    effects: &mut Vec<Effect>,
    name: String,
)
    requires
        sid@ == old(state).id@,
    ensures
        final(state)@ == thread_name_updated_step(old(state)@, now@, name@).0,
        effects_view(final(effects)@) == effects_view(old(effects)@) + thread_name_updated_step(
            old(state)@,
            now@,
            name@,
        ).1,
{
    state.custom_name = Some(name.clone());
    state.last_activity_at = Some(now.to_string());
    let write = Effect::Persist(
        Box::new(
            PersistOp::SetCustomName { session_id: sid.to_string(), custom_name: Some(name.clone()) },
        ),
    );
    let mut changes = StateChanges::none();
    changes.custom_name = Some(Some(name));
    push_two(effects, write, delta_effect(sid, changes));
}

pub fn handle_model_updated(state: &mut TransitionState, sid: &str, effects: &mut Vec<Effect>, model: String)
    requires
        sid@ == old(state).id@,
    ensures
        final(state)@ == model_updated_step(old(state)@, model@).0,
        effects_view(final(effects)@) == effects_view(old(effects)@) + model_updated_step(
            old(state)@,
            model@,
        ).1,
{
    state.model = Some(model.clone());
    let write = Effect::Persist(
        Box::new(PersistOp::ModelUpdate { session_id: sid.to_string(), model: model.clone() }),
    );
    let mut changes = StateChanges::none();
    changes.model = Some(Some(model));
    push_two(effects, write, delta_effect(sid, changes));
}

pub fn handle_first_prompt_captured(
    state: &mut TransitionState,
    sid: &str,
    effects: &mut Vec<Effect>,
    prompt: String,
)
    requires
        sid@ == old(state).id@,
    ensures
        final(state)@ == first_prompt_captured_step(old(state)@, prompt@).0,
        effects_view(final(effects)@) == effects_view(old(effects)@) + first_prompt_captured_step(
            old(state)@,
            prompt@,
        ).1,
{
    state.first_prompt = Some(prompt.clone());
    let write = Effect::Persist(
        Box::new(
            PersistOp::FirstPromptCaptured { session_id: sid.to_string(), first_prompt: prompt.clone() },
        ),
    );
    let mut changes = StateChanges::none();
    changes.first_prompt = Some(Some(prompt));
    push_two(effects, write, delta_effect(sid, changes));
}

pub fn handle_permission_mode_changed(
    state: &TransitionState,
    sid: &str,
    effects: &mut Vec<Effect>,
    mode: String,
)
    requires
        sid@ == state.id@,
    ensures
        effects_view(final(effects)@) == effects_view(old(effects)@) + permission_mode_changed_step(
            state@,
            mode@,
        ),
{
    let write = Effect::Persist(
        Box::new(
            PersistOp::PermissionModeUpdate { session_id: sid.to_string(), permission_mode: mode.clone() },
        ),
    );
    let mut changes = StateChanges::none();
    changes.permission_mode = Some(Some(mode));
    push_two(effects, write, delta_effect(sid, changes));
}

pub fn handle_transcript_path_updated(
    state: &mut TransitionState,
    sid: &str,
    effects: &mut Vec<Effect>,
    path: Option<String>,
)
    requires
        sid@ == old(state).id@,
    ensures
        final(state)@ == transcript_path_updated_step(old(state)@, opt_string_view(path)).0,
        effects_view(final(effects)@) == effects_view(old(effects)@) + transcript_path_updated_step(
            old(state)@,
            opt_string_view(path),
        ).1,
{
    let ghost e0 = effects_view(effects@);
    state.transcript_path = copy_opt_string(&path);
    let write = Effect::Persist(
        Box::new(PersistOp::SetTranscriptPath { session_id: sid.to_string(), transcript_path: path }),
    );
    let ghost w = write@;
    effects.push(write);
    assert(effects_view(effects@) =~= e0.push(w));
}

// ---------------------------------------------------------------------------
// Environment
// ---------------------------------------------------------------------------

/// A field of the environment: a given value that differs replaces the
/// current one.
pub open spec fn env_field(given: Option<Seq<char>>, current: Option<Seq<char>>) -> Option<Seq<char>> {
    if given is Some && given != current {
        given
    } else {
        current
    }
}

/// Whether a given value differs from the current one.
pub open spec fn env_changes(given: Option<Seq<char>>, current: Option<Seq<char>>) -> bool {
    given is Some && given != current
}

/// The environment changed: fields that are given and differ are taken;
/// when any was, it counts as activity and the environment is written and
/// broadcast.
pub open spec fn environment_changed_step(
    s: StateView,
    now: Seq<char>,
    cwd: Option<Seq<char>>,
    git_branch: Option<Seq<char>>,
    git_sha: Option<Seq<char>>,
    repository_root: Option<Seq<char>>,
    is_worktree: Option<bool>,
) -> (StateView, Seq<EffectView>) {
    let wt = match is_worktree {
        Some(w) => w,
        None => s.is_worktree,
    };
    let changed = env_changes(cwd, s.current_cwd) || env_changes(git_branch, s.git_branch)
        || env_changes(git_sha, s.git_sha) || env_changes(repository_root, s.repository_root) || (
    is_worktree is Some && wt != s.is_worktree);
    let s1 = StateView {
        current_cwd: env_field(cwd, s.current_cwd),
        git_branch: env_field(git_branch, s.git_branch),
        git_sha: env_field(git_sha, s.git_sha),
        repository_root: env_field(repository_root, s.repository_root),
        is_worktree: wt,
        ..s
    };
    if changed {
        (
            StateView { last_activity_at: Some(now), last_progress_at: Some(now), ..s1 },
            seq![
                EffectView::Persist(
                    PersistView::EnvironmentUpdate {
                        session_id: s.id,
                        cwd: s1.current_cwd,
                        git_branch: s1.git_branch,
                        git_sha: s1.git_sha,
                        repository_root: s1.repository_root,
                        is_worktree: Some(wt),
                    },
                ),
                delta(
                    s.id,
                    ChangesView {
                        current_cwd: Some(s1.current_cwd),
                        git_branch: Some(s1.git_branch),
                        git_sha: Some(s1.git_sha),
                        last_activity_at: Some(now),
                        last_progress_at: Some(now),
                        repository_root: Some(s1.repository_root),
                        is_worktree: Some(wt),
                        ..no_changes()
                    },
                ),
            ],
        )
    } else {
        (s1, Seq::empty())
    }
}

fn opt_eq(a: &Option<String>, b: &Option<String>) -> (r: bool)
    ensures
        r == (opt_string_view(*a) == opt_string_view(*b)),
{
    match (a, b) {
        (Some(x), Some(y)) => str_eq(x.as_str(), y.as_str()),
        (None, None) => true,
        _ => false,
    }
}

fn take_if_changed(current: &mut Option<String>, given: Option<String>) -> (changed: bool)
    ensures
        opt_string_view(*final(current)) == env_field(opt_string_view(given), opt_string_view(*old(current))),
        changed == env_changes(opt_string_view(given), opt_string_view(*old(current))),
{
    if given.is_some() && !opt_eq(&given, current) {
        *current = given;
        true
    } else {
        false
    }
}

pub fn handle_environment_changed(
    state: &mut TransitionState,
    sid: &str,
    now: &str,
    effects: &mut Vec<Effect>,
    cwd: Option<String>,
    git_branch: Option<String>,
    git_sha: Option<String>,
    repository_root: Option<String>,
    is_worktree: Option<bool>,
)
    requires
        sid@ == old(state).id@,
    ensures
        final(state)@ == environment_changed_step(
            old(state)@,
            now@,
            opt_string_view(cwd),
            opt_string_view(git_branch),
            opt_string_view(git_sha),
            opt_string_view(repository_root),
            is_worktree,
        ).0,
        effects_view(final(effects)@) == effects_view(old(effects)@) + environment_changed_step(
            old(state)@,
            now@,
            opt_string_view(cwd),
            opt_string_view(git_branch),
            opt_string_view(git_sha),
            opt_string_view(repository_root),
            is_worktree,
        ).1,
{
    let ghost s0 = state@;
    let ghost e0 = effects_view(effects@);
    let ghost args = (
        opt_string_view(cwd),
        opt_string_view(git_branch),
        opt_string_view(git_sha),
        opt_string_view(repository_root),
    );
    let c1 = take_if_changed(&mut state.current_cwd, cwd);
    let c2 = take_if_changed(&mut state.git_branch, git_branch);
    let c3 = take_if_changed(&mut state.git_sha, git_sha);
    let c4 = take_if_changed(&mut state.repository_root, repository_root);
    let mut c5 = false;
    if let Some(wt) = is_worktree {
        if wt != state.is_worktree {
            state.is_worktree = wt;
            c5 = true;
        }
    }
    let ghost step = environment_changed_step(s0, now@, args.0, args.1, args.2, args.3, is_worktree);
    if c1 || c2 || c3 || c4 || c5 {
        state.last_activity_at = Some(now.to_string());
        state.last_progress_at = Some(now.to_string());
        let write = Effect::Persist(
            Box::new(
                PersistOp::EnvironmentUpdate {
                    session_id: sid.to_string(),
                    cwd: copy_opt_string(&state.current_cwd),
                    git_branch: copy_opt_string(&state.git_branch),
                    git_sha: copy_opt_string(&state.git_sha),
                    repository_root: copy_opt_string(&state.repository_root),
                    is_worktree: Some(state.is_worktree),
                },
            ),
        );
        let mut changes = StateChanges::none();
        changes.current_cwd = Some(copy_opt_string(&state.current_cwd));
        changes.git_branch = Some(copy_opt_string(&state.git_branch));
        changes.git_sha = Some(copy_opt_string(&state.git_sha));
        changes.last_activity_at = Some(now.to_string());
        changes.last_progress_at = Some(now.to_string());
        changes.repository_root = Some(copy_opt_string(&state.repository_root));
        changes.is_worktree = Some(state.is_worktree);
        push_two(effects, write, delta_effect(sid, changes));
        assert(state@ =~= step.0);
        assert(effects_view(effects@) =~= e0 + step.1);
    } else {
        assert(state@ =~= step.0);
        assert(effects_view(effects@) =~= e0 + step.1);
    }
}

// ---------------------------------------------------------------------------
// Attention
// ---------------------------------------------------------------------------

/// Attention changed: the last tool and the pending tool, input and
/// question are taken where given, and the change is written with the time
/// of the last tool.
pub open spec fn attention_updated_step(
    s: StateView,
    now: Seq<char>,
    attention_reason: Option<Option<Seq<char>>>,
    last_tool: Option<Seq<char>>,
    pending_tool_name: Option<Option<Seq<char>>>,
    pending_tool_input: Option<Option<Seq<char>>>,
    pending_question: Option<Option<Seq<char>>>,
) -> (StateView, Seq<EffectView>) {
    (
        StateView {
            last_tool: if last_tool is Some {
                last_tool
            } else {
                s.last_tool
            },
            pending_tool_name: match pending_tool_name {
                Some(n) => n,
                None => s.pending_tool_name,
            },
            pending_tool_input: match pending_tool_input {
                Some(i) => i,
                None => s.pending_tool_input,
            },
            pending_question: match pending_question {
                Some(q) => q,
                None => s.pending_question,
            },
            ..s
        },
        seq![
            EffectView::Persist(
                PersistView::AttentionUpdate {
                    session_id: s.id,
                    attention_reason,
                    last_tool: match last_tool {
                        Some(t) => Some(Some(t)),
                        None => None,
                    },
                    last_tool_at: if last_tool is Some {
                        Some(Some(now))
                    } else {
                        None
                    },
                    pending_tool_name,
                    pending_tool_input,
                    pending_question,
                },
            ),
        ],
    )
}

fn copy_opt_opt(o: &Option<Option<String>>) -> (r: Option<Option<String>>)
    ensures
        opt_opt_view(r) == opt_opt_view(*o),
{
    match o {
        Some(inner) => Some(copy_opt_string(inner)),
        None => None,
    }
}

pub fn handle_attention_updated(
    state: &mut TransitionState,
    sid: &str,
    now: &str,
    effects: &mut Vec<Effect>,
    attention_reason: Option<Option<String>>,
    last_tool: Option<String>,
    pending_tool_name: Option<Option<String>>,
    pending_tool_input: Option<Option<String>>,
    pending_question: Option<Option<String>>,
)
    requires
        sid@ == old(state).id@,
    ensures
        final(state)@ == attention_updated_step(
            old(state)@,
            now@,
            opt_opt_view(attention_reason),
            opt_string_view(last_tool),
            opt_opt_view(pending_tool_name),
            opt_opt_view(pending_tool_input),
            opt_opt_view(pending_question),
        ).0,
        effects_view(final(effects)@) == effects_view(old(effects)@) + attention_updated_step(
            old(state)@,
            now@,
            opt_opt_view(attention_reason),
            opt_string_view(last_tool),
            opt_opt_view(pending_tool_name),
            opt_opt_view(pending_tool_input),
            opt_opt_view(pending_question),
        ).1,
{
    let ghost e0 = effects_view(effects@);
    let has_last_tool = last_tool.is_some();
    if let Some(tool) = &last_tool {
        state.last_tool = Some(tool.clone());
    }
    if let Some(name) = &pending_tool_name {
        state.pending_tool_name = copy_opt_string(name);
    }
    if let Some(input) = &pending_tool_input {
        state.pending_tool_input = copy_opt_string(input);
    }
    if let Some(question) = &pending_question {
        state.pending_question = copy_opt_string(question);
    }
    let last = match last_tool {
        Some(t) => Some(Some(t)),
        None => None,
    };
    let write = Effect::Persist(
        Box::new(
            PersistOp::AttentionUpdate {
                session_id: sid.to_string(),
                attention_reason,
                last_tool: last,
                last_tool_at: if has_last_tool {
                    Some(Some(now.to_string()))
                } else {
                    None
                },
                pending_tool_name,
                pending_tool_input,
                pending_question,
            },
        ),
    );
    let ghost w = write@;
    effects.push(write);
    assert(effects_view(effects@) =~= e0.push(w));
}

// ---------------------------------------------------------------------------
// Subagents, summary, effort
// ---------------------------------------------------------------------------

/// Subagent updates are merged; when the list changed it is written and
/// broadcast.
pub open spec fn subagents_updated_step(s: StateView, incoming: Seq<crate::transition::model::SubagentView>) -> (
    StateView,
    Seq<EffectView>,
) {
    let merged = merged_subagents(s.subagents, incoming);
    if merged != s.subagents {
        (
            StateView { subagents: merged, ..s },
            write_and_delta(
                s,
                PersistView::UpsertSubagents { session_id: s.id, subagents: merged },
                ChangesView { subagents: Some(merged), ..no_changes() },
            ),
        )
    } else {
        (s, Seq::empty())
    }
}

fn subagent_lists_equal(a: &Vec<SubagentInfo>, b: &Vec<SubagentInfo>) -> (r: bool)
    ensures
        r == (subagents_view(a@) == subagents_view(b@)),
{
    if a.len() != b.len() {
        proof {
            if subagents_view(a@) == subagents_view(b@) {
                assert(subagents_view(a@).len() == subagents_view(b@).len());
            }
        }
        return false;
    }
    let mut i: usize = 0;
    while i < a.len()
        invariant
            i <= a.len(),
            a.len() == b.len(),
            forall|j: int| 0 <= j < i ==> #[trigger] a@[j]@ == b@[j]@,
        decreases a.len() - i,
    {
        let x = &a[i];
        let y = &b[i];
        let same = str_eq(x.id.as_str(), y.id.as_str()) && str_eq(
            x.agent_type.as_str(),
            y.agent_type.as_str(),
        ) && str_eq(x.started_at.as_str(), y.started_at.as_str()) && opt_eq(&x.ended_at, &y.ended_at)
            && x.provider == y.provider && opt_eq(&x.label, &y.label) && x.status == y.status
            && opt_eq(&x.task_summary, &y.task_summary) && opt_eq(
            &x.result_summary,
            &y.result_summary,
        ) && opt_eq(&x.error_summary, &y.error_summary) && opt_eq(
            &x.parent_subagent_id,
            &y.parent_subagent_id,
        ) && opt_eq(&x.model, &y.model) && opt_eq(&x.last_activity_at, &y.last_activity_at);
        if !same {
            proof {
                assert(subagents_view(a@)[i as int] != subagents_view(b@)[i as int]);
            }
            return false;
        }
        i = i + 1;
    }
    assert(subagents_view(a@) =~= subagents_view(b@));
    true
}

pub fn handle_subagents_updated(
    state: &mut TransitionState,
    sid: &str,
    effects: &mut Vec<Effect>,
    subagents: Vec<SubagentInfo>,
)
    requires
        sid@ == old(state).id@,
    ensures
        final(state)@ == subagents_updated_step(old(state)@, subagents_view(subagents@)).0,
        effects_view(final(effects)@) == effects_view(old(effects)@) + subagents_updated_step(
            old(state)@,
            subagents_view(subagents@),
        ).1,
{
    let ghost e0 = effects_view(effects@);
    let merged = merge_subagent_updates(state.subagents.as_slice(), subagents);
    if !subagent_lists_equal(&merged, &state.subagents) {
        state.subagents = copy_subagents(&merged);
        let write = Effect::Persist(
            Box::new(
                PersistOp::UpsertSubagents {
                    session_id: sid.to_string(),
                    subagents: copy_subagents(&merged),
                },
            ),
        );
        let mut changes = StateChanges::none();
        changes.subagents = Some(merged);
        push_two(effects, write, delta_effect(sid, changes));
    } else {
        assert(effects_view(effects@) =~= e0);
    }
}

/// A summary that differs from the current one is set, written and
/// broadcast.
pub open spec fn summary_updated_step(s: StateView, summary: Seq<char>) -> (StateView, Seq<EffectView>) {
    if s.summary != Some(summary) {
        (
            StateView { summary: Some(summary), ..s },
            write_and_delta(
                s,
                PersistView::SetSummary { session_id: s.id, summary },
                ChangesView { summary: Some(Some(summary)), ..no_changes() },
            ),
        )
    } else {
        (s, Seq::empty())
    }
}

pub fn handle_summary_updated(
    state: &mut TransitionState,
    sid: &str,
    effects: &mut Vec<Effect>,
    summary: String,
)
    requires
        sid@ == old(state).id@,
    ensures
        final(state)@ == summary_updated_step(old(state)@, summary@).0,
        effects_view(final(effects)@) == effects_view(old(effects)@) + summary_updated_step(
            old(state)@,
            summary@,
        ).1,
{
    let ghost e0 = effects_view(effects@);
    let given = Some(summary.clone());
    if !opt_eq(&state.summary, &given) {
        state.summary = given;
        let write = Effect::Persist(
            Box::new(PersistOp::SetSummary { session_id: sid.to_string(), summary: summary.clone() }),
        );
        let mut changes = StateChanges::none();
        changes.summary = Some(Some(summary));
        push_two(effects, write, delta_effect(sid, changes));
    } else {
        assert(effects_view(effects@) =~= e0);
    }
}

/// An effort that differs from the current one is set, written and
/// broadcast.
pub open spec fn effort_updated_step(s: StateView, effort: Option<Seq<char>>) -> (
    StateView,
    Seq<EffectView>,
) {
    if s.effort != effort {
        (
            StateView { effort, ..s },
            write_and_delta(
                s,
                PersistView::EffortUpdate { session_id: s.id, effort },
                ChangesView { effort: Some(effort), ..no_changes() },
            ),
        )
    } else {
        (s, Seq::empty())
    }
}

pub fn handle_effort_updated(
    state: &mut TransitionState,
    sid: &str,
    effects: &mut Vec<Effect>,
    effort: Option<String>,
)
    requires
        sid@ == old(state).id@,
    ensures
        final(state)@ == effort_updated_step(old(state)@, opt_string_view(effort)).0,
        effects_view(final(effects)@) == effects_view(old(effects)@) + effort_updated_step(
            old(state)@,
            opt_string_view(effort),
        ).1,
{
    let ghost e0 = effects_view(effects@);
    if !opt_eq(&state.effort, &effort) {
        state.effort = copy_opt_string(&effort);
        let write = Effect::Persist(
            Box::new(
                PersistOp::EffortUpdate { session_id: sid.to_string(), effort: copy_opt_string(&effort) },
            ),
        );
        let mut changes = StateChanges::none();
        changes.effort = Some(effort);
        push_two(effects, write, delta_effect(sid, changes));
    } else {
        assert(effects_view(effects@) =~= e0);
    }
}

} // verus!
