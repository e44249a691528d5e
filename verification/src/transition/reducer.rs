//! `transition`: one event applied to a session's state.

use crate::text::{opt_string_view, strs_view};
use crate::transition::approvals::{
    approval_requested_step, handle_approval_requested, ApprovalInputView, ApprovalRequestedInput,
};
use crate::transition::effects::{effects_view, Effect, EffectView, MessageView, ServerMessage};
use crate::transition::events::{
    context_compacted_step, emit, error_step, handle_context_compacted, handle_error,
};
use crate::transition::lifecycle::{
    approval_cancelled_step, handle_approval_cancelled, handle_session_ended,
    handle_thread_rolled_back, handle_turn_aborted, handle_turn_completed, handle_turn_started,
    handle_undo_completed, handle_undo_started, session_ended_step, thread_rolled_back_step,
    turn_aborted_step, turn_completed_step, turn_started_step, undo_completed_step,
    undo_started_step,
};
use crate::transition::metadata::{
    attention_updated_step, diff_updated_step, effort_updated_step, environment_changed_step,
    first_prompt_captured_step, handle_attention_updated, handle_diff_updated,
    handle_effort_updated, handle_environment_changed, handle_first_prompt_captured,
    handle_model_updated, handle_permission_mode_changed, handle_plan_updated,
    handle_subagents_updated, handle_summary_updated, handle_thread_name_updated,
    handle_tokens_updated, handle_transcript_path_updated, handle_turn_usage_updated,
    model_updated_step, permission_mode_changed_step, plan_updated_step, subagents_updated_step,
    summary_updated_step, thread_name_updated_step, tokens_fit, tokens_updated_step,
    transcript_path_updated_step, turn_usage_updated_step,
};
use crate::transition::model::{opt_opt_view, opt_strs_view, subagents_view};
use crate::transition::rows::{
    handle_row_created, handle_row_updated, row_created_step, row_room, row_updated_step,
};
use crate::transition::state::{Input, StateView, TransitionState, WorkPhase};
use vstd::prelude::*;

verus! {

/// One pass-through event: the state stays, clients are told.
pub open spec fn told(s: StateView, m: MessageView) -> (StateView, Seq<EffectView>) {
    (s, seq![EffectView::Emit(m)])
}

/// What one event does to a state, before a pending approval is dropped;
/// `fresh` names the system row an error or a compaction adds.
pub open spec fn dispatch(s: StateView, input: Input, now: Seq<char>, fresh: Seq<char>) -> (
    StateView,
    Seq<EffectView>,
) {
    match input {
        Input::TurnStarted => turn_started_step(s, now),
        Input::TurnCompleted => turn_completed_step(s, now),
        Input::TurnAborted { .. } => turn_aborted_step(s, now),
        Input::Error(message) => error_step(s, now, message@, fresh),
        Input::RowCreated(entry) => row_created_step(s, now, entry@),
        Input::RowUpdated { row_id, entry } => row_updated_step(s, now, row_id@, entry@),
        Input::ApprovalRequested {
            request_id,
            approval_type,
            tool_name,
            tool_input,
            command,
            file_path,
            diff,
            question,
            permission_reason,
            requested_permissions,
            proposed_amendment,
            permission_suggestions,
            elicitation_mode,
            elicitation_schema,
            elicitation_url,
            elicitation_message,
            mcp_server_name,
            network_host,
            network_protocol,
        } => approval_requested_step(
            s,
            now,
            ApprovalInputView {
                request_id: request_id@,
                approval_type,
                tool_name: opt_string_view(tool_name),
                tool_input: opt_string_view(tool_input),
                command: opt_string_view(command),
                file_path: opt_string_view(file_path),
                diff: opt_string_view(diff),
                question: opt_string_view(question),
                permission_reason: opt_string_view(permission_reason),
                requested_permissions: opt_string_view(requested_permissions),
                proposed_amendment: opt_strs_view(proposed_amendment),
                permission_suggestions: opt_string_view(permission_suggestions),
                elicitation_mode: opt_string_view(elicitation_mode),
                elicitation_schema: opt_string_view(elicitation_schema),
                elicitation_url: opt_string_view(elicitation_url),
                elicitation_message: opt_string_view(elicitation_message),
                mcp_server_name: opt_string_view(mcp_server_name),
                network_host: opt_string_view(network_host),
                network_protocol: opt_string_view(network_protocol),
            },
        ),
        Input::ApprovalCancelled { request_id } => approval_cancelled_step(s, now, request_id@),
        Input::PermissionModeChanged { mode } => (s, permission_mode_changed_step(s, mode@)),
        Input::TokensUpdated { usage, snapshot_kind } => tokens_updated_step(s, usage, snapshot_kind),
        Input::TurnUsageUpdated { usage, snapshot_kind } => (
            turn_usage_updated_step(s, usage, snapshot_kind),
            Seq::empty(),
        ),
        Input::DiffUpdated(diff) => diff_updated_step(s, diff@),
        Input::PlanUpdated(plan) => plan_updated_step(s, plan@),
        Input::ThreadNameUpdated(name) => thread_name_updated_step(s, now, name@),
        Input::SessionEnded { reason } => session_ended_step(s, now, reason@),
        Input::UndoStarted { message } => undo_started_step(s, now, opt_string_view(message)),
        Input::UndoCompleted { success, message } => undo_completed_step(
            s,
            now,
            success,
            opt_string_view(message),
        ),
        Input::ThreadRolledBack { num_turns } => thread_rolled_back_step(s, now, num_turns),
        Input::EnvironmentChanged { cwd, git_branch, git_sha, repository_root, is_worktree } =>
            environment_changed_step(
            s,
            now,
            opt_string_view(cwd),
            opt_string_view(git_branch),
            opt_string_view(git_sha),
            opt_string_view(repository_root),
            is_worktree,
        ),
        Input::ModelUpdated(model) => model_updated_step(s, model@),
        Input::TranscriptPathUpdated(path) => transcript_path_updated_step(s, opt_string_view(path)),
        Input::AttentionUpdated {
            attention_reason,
            last_tool,
            pending_tool_name,
            pending_tool_input,
            pending_question,
        } => attention_updated_step(
            s,
            now,
            opt_opt_view(attention_reason),
            opt_string_view(last_tool),
            opt_opt_view(pending_tool_name),
            opt_opt_view(pending_tool_input),
            opt_opt_view(pending_question),
        ),
        Input::SubagentsUpdated { subagents } => subagents_updated_step(s, subagents_view(subagents@)),
        Input::SummaryUpdated(summary) => summary_updated_step(s, summary@),
        Input::EffortUpdated(effort) => effort_updated_step(s, opt_string_view(effort)),
        Input::FirstPromptCaptured(prompt) => first_prompt_captured_step(s, prompt@),
        Input::ClaudeInitialized { slash_commands, skills, tools, models } => told(
            s,
            MessageView::ClaudeCapabilities {
                session_id: s.id,
                slash_commands: strs_view(slash_commands@),
                skills: strs_view(skills@),
                tools: strs_view(tools@),
                models: strs_view(models@),
            },
        ),
        Input::ContextCompacted => context_compacted_step(s, now, fresh),
        Input::SkillsList { skills, errors } => told(
            s,
            MessageView::SkillsList {
                session_id: s.id,
                skills: strs_view(skills@),
                errors: strs_view(errors@),
            },
        ),
        Input::SkillsUpdateAvailable => told(
            s,
            MessageView::SkillsUpdateAvailable { session_id: s.id },
        ),
        Input::McpToolsList { tools, resources, resource_templates, auth_statuses } => told(
            s,
            MessageView::McpToolsList {
                session_id: s.id,
                tools: tools@,
                resources: resources@,
                resource_templates: resource_templates@,
                auth_statuses: auth_statuses@,
            },
        ),
        Input::McpStartupUpdate { server, status } => told(
            s,
            MessageView::McpStartupUpdate { session_id: s.id, server: server@, status: status@ },
        ),
        Input::McpStartupComplete { ready, failed, cancelled } => told(
            s,
            MessageView::McpStartupComplete {
                session_id: s.id,
                ready: strs_view(ready@),
                failed: strs_view(failed@),
                cancelled: strs_view(cancelled@),
            },
        ),
        Input::RateLimitEvent { info } => told(
            s,
            MessageView::RateLimitEvent { session_id: s.id, info: info@ },
        ),
        Input::PromptSuggestion { suggestion } => told(
            s,
            MessageView::PromptSuggestion { session_id: s.id, suggestion: suggestion@ },
        ),
        Input::FilesPersisted { files } => told(
            s,
            MessageView::FilesPersisted { session_id: s.id, files: strs_view(files@) },
        ),
    }
}

/// What one event does to a state: `dispatch`, after which a pending
/// approval is dropped unless the session awaits one.
pub open spec fn transition_spec(s: StateView, input: Input, now: Seq<char>, fresh: Seq<char>) -> (
    StateView,
    Seq<EffectView>,
) {
    let r = dispatch(s, input, now, fresh);
    if r.0.phase is AwaitingApproval {
        r
    } else {
        (StateView { pending_approval: None, ..r.0 }, r.1)
    }
}

/// Whether the counters an event raises stay within `u64`: the turn count,
/// the sequence of a new row, and mixed token counts.
pub open spec fn transition_fits(s: StateView, input: Input) -> bool {
    match input {
        Input::TurnStarted => s.turn_count < u64::MAX,
        Input::RowCreated(_) => row_room(s.rows),
        Input::RowUpdated { .. } => row_room(s.rows),
        Input::Error(_) => row_room(s.rows),
        Input::ContextCompacted => row_room(s.rows),
        Input::TokensUpdated { usage, snapshot_kind } => tokens_fit(s, usage, snapshot_kind),
        _ => true,
    }
}

/// Whether an event adds a system row, which needs a fresh id.
pub open spec fn needs_fresh_id(input: Input) -> bool {
    input is Error || input is ContextCompacted
}

fn dispatch_exec(
    state: &mut TransitionState,
    sid: &str,
    input: Input,
    now: &str,
    fresh: &str,
    effects: &mut Vec<Effect>,
)
    requires
        sid@ == old(state).id@,
        transition_fits(old(state)@, input),
        effects_view(old(effects)@) == Seq::<EffectView>::empty(),
    ensures
        (final(state)@, effects_view(final(effects)@)) == dispatch(old(state)@, input, now@, fresh@),
{
    let ghost s0 = state@;
    let ghost d = dispatch(s0, input, now@, fresh@);
    match input {
        Input::TurnStarted => handle_turn_started(state, sid, now, effects),
        Input::TurnCompleted => handle_turn_completed(state, sid, now, effects),
        Input::TurnAborted { .. } => handle_turn_aborted(state, sid, now, effects),
        Input::Error(message) => handle_error(state, sid, now, effects, message, fresh),
        Input::RowCreated(entry) => handle_row_created(state, sid, entry, now, effects),
        Input::RowUpdated { row_id, entry } => handle_row_updated(state, sid, row_id, entry, now, effects),
        Input::ApprovalRequested {
            request_id,
            approval_type,
            tool_name,
            tool_input,
            command,
            file_path,
            diff,
            question,
            permission_reason,
            requested_permissions,
            proposed_amendment,
            permission_suggestions,
            elicitation_mode,
            elicitation_schema,
            elicitation_url,
            elicitation_message,
            mcp_server_name,
            network_host,
            network_protocol,
        } => handle_approval_requested(
            state,
            sid,
            now,
            effects,
            ApprovalRequestedInput {
                request_id,
                approval_type,
                tool_name,
                tool_input,
                command,
                file_path,
                diff,
                question,
                permission_reason,
                requested_permissions,
                proposed_amendment,
                permission_suggestions,
                elicitation_mode,
                elicitation_schema,
                elicitation_url,
                elicitation_message,
                mcp_server_name,
                network_host,
                network_protocol,
            },
        ),
        Input::ApprovalCancelled { request_id } => handle_approval_cancelled(
            state,
            sid,
            now,
            effects,
            request_id,
        ),
        Input::PermissionModeChanged { mode } => handle_permission_mode_changed(
            state,
            sid,
            effects,
            mode,
        ),
        Input::TokensUpdated { usage, snapshot_kind } => handle_tokens_updated(
            state,
            sid,
            effects,
            usage,
            snapshot_kind,
        ),
        Input::TurnUsageUpdated { usage, snapshot_kind } => handle_turn_usage_updated(
            state,
            usage,
            snapshot_kind,
        ),
        Input::DiffUpdated(diff) => handle_diff_updated(state, sid, effects, diff),
        Input::PlanUpdated(plan) => handle_plan_updated(state, sid, effects, plan),
        Input::ThreadNameUpdated(name) => handle_thread_name_updated(state, sid, now, effects, name),
        Input::SessionEnded { reason } => handle_session_ended(state, sid, now, effects, reason),
        Input::UndoStarted { message } => handle_undo_started(state, sid, now, effects, message),
        Input::UndoCompleted { success, message } => handle_undo_completed(
            state,
            sid,
            now,
            effects,
            success,
            message,
        ),
        Input::ThreadRolledBack { num_turns } => handle_thread_rolled_back(
            state,
            sid,
            now,
            effects,
            num_turns,
        ),
        Input::EnvironmentChanged { cwd, git_branch, git_sha, repository_root, is_worktree } =>
            handle_environment_changed(
            state,
            sid,
            now,
            effects,
            cwd,
            git_branch,
            git_sha,
            repository_root,
            is_worktree,
        ),
        Input::ModelUpdated(model) => handle_model_updated(state, sid, effects, model),
        Input::TranscriptPathUpdated(path) => handle_transcript_path_updated(state, sid, effects, path),
        Input::AttentionUpdated {
            attention_reason,
            last_tool,
            pending_tool_name,
            pending_tool_input,
            pending_question,
        } => handle_attention_updated(
            state,
            sid,
            now,
            effects,
            attention_reason,
            last_tool,
            pending_tool_name,
            pending_tool_input,
            pending_question,
        ),
        Input::SubagentsUpdated { subagents } => handle_subagents_updated(state, sid, effects, subagents),
        Input::SummaryUpdated(summary) => handle_summary_updated(state, sid, effects, summary),
        Input::EffortUpdated(effort) => handle_effort_updated(state, sid, effects, effort),
        Input::FirstPromptCaptured(prompt) => handle_first_prompt_captured(state, sid, effects, prompt),
        Input::ClaudeInitialized { slash_commands, skills, tools, models } => emit(
            effects,
            ServerMessage::ClaudeCapabilities {
                session_id: sid.to_string(),
                slash_commands,
                skills,
                tools,
                models,
            },
        ),
        Input::ContextCompacted => handle_context_compacted(state, sid, now, effects, fresh),
        Input::SkillsList { skills, errors } => emit(
            effects,
            ServerMessage::SkillsList { session_id: sid.to_string(), skills, errors },
        ),
        Input::SkillsUpdateAvailable => emit(
            effects,
            ServerMessage::SkillsUpdateAvailable { session_id: sid.to_string() },
        ),
        Input::McpToolsList { tools, resources, resource_templates, auth_statuses } => emit(
            effects,
            ServerMessage::McpToolsList {
                session_id: sid.to_string(),
                tools,
                resources,
                resource_templates,
                auth_statuses,
            },
        ),
        Input::McpStartupUpdate { server, status } => emit(
            effects,
            ServerMessage::McpStartupUpdate { session_id: sid.to_string(), server, status },
        ),
        Input::McpStartupComplete { ready, failed, cancelled } => emit(
            effects,
            ServerMessage::McpStartupComplete {
                session_id: sid.to_string(),
                ready,
                failed,
                cancelled,
            },
        ),
        Input::RateLimitEvent { info } => emit(
            effects,
            ServerMessage::RateLimitEvent { session_id: sid.to_string(), info },
        ),
        Input::PromptSuggestion { suggestion } => emit(
            effects,
            ServerMessage::PromptSuggestion { session_id: sid.to_string(), suggestion },
        ),
        Input::FilesPersisted { files } => emit(
            effects,
            ServerMessage::FilesPersisted { session_id: sid.to_string(), files },
        ),
    }
    assert(effects_view(effects@) =~= d.1);
}

/// Applies one event to a session's state, with `fresh` naming the system
/// row that an error or a compaction adds; returns the next state and the
/// effects its caller performs. The transition is pure: its result depends
/// on its arguments alone.
pub fn transition(state: TransitionState, input: Input, now: &str, fresh: &str) -> (r: (
    TransitionState,
    Vec<Effect>,
))
    requires
        transition_fits(state@, input),
    ensures
        (r.0@, effects_view(r.1@)) == transition_spec(state@, input, now@, fresh@),
{
    let mut state = state;
    let sid = state.id.clone();
    let mut effects: Vec<Effect> = Vec::new();
    assert(effects_view(effects@) =~= Seq::<EffectView>::empty());
    dispatch_exec(&mut state, sid.as_str(), input, now, fresh, &mut effects);
    if !matches!(state.phase, WorkPhase::AwaitingApproval { .. }) {
        state.pending_approval = None;
    }
    (state, effects)
}

/// `uuid::Uuid::new_v4()` as text: a random version-4 UUID, which `Display`
/// writes in its hyphenated form of 36 characters. What the characters are
/// is left unsaid: they are random.
#[verifier::external_body]
fn new_row_id() -> (r: String)
    ensures
        r@.len() == 36,
{
    uuid::Uuid::new_v4().to_string()
}

/// Applies one event to a session's state, naming the system row that an
/// error or a compaction adds with a random UUID drawn here; returns the
/// next state and the effects its caller performs.
pub fn transition_with_new_id(state: TransitionState, input: Input, now: &str) -> (r: (
    TransitionState,
    Vec<Effect>,
))
    requires
        transition_fits(state@, input),
    ensures
        needs_fresh_id(input) ==> exists|fresh: Seq<char>|
            fresh.len() == 36 && (r.0@, effects_view(r.1@)) == transition_spec(
                state@,
                input,
                now@,
                fresh,
            ),
        !needs_fresh_id(input) ==> (r.0@, effects_view(r.1@)) == transition_spec(
            state@,
            input,
            now@,
            Seq::empty(),
        ),
{
    let fresh = if matches!(input, Input::Error(_) | Input::ContextCompacted) {
        new_row_id()
    } else {
        String::new()
    };
    let ghost f = fresh@;
    let r = transition(state, input, now, fresh.as_str());
    assert((r.0@, effects_view(r.1@)) == transition_spec(state@, input, now@, f));
    r
}

} // verus!
