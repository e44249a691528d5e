//! A request for approval: the session waits, and the request is stored and
//! broadcast with its questions and preview.

use crate::approval::preview::{approval_preview, preview_of, ApprovalPreviewInput, PreviewInputSpec};
use crate::approval::questions::{approval_question_prompts, question_prompts};
use crate::approval::{prompts_view, ApprovalType};
use crate::text::{copy_opt_string, opt_as_str, opt_string_view};
use crate::transition::common::{session_update, session_update_effect, touch, touched};
use crate::transition::copies::{copy_opt_strings, copy_preview, copy_prompts, copy_request};
use crate::transition::effects::{
    effects_view, ApprovalRequest, Effect, EffectView, MessageView, PersistOp, PersistView,
    RequestView, ServerMessage,
};
use crate::transition::model::opt_strs_view;
use crate::transition::state::{work_status_of, PhaseView, StateView, TransitionState, WorkPhase};
use vstd::prelude::*;

verus! {

/// What a request for approval says. Permission payloads and schemas are
/// JSON text.
pub struct ApprovalRequestedInput {
    pub request_id: String,
    pub approval_type: ApprovalType,
    pub tool_name: Option<String>,
    pub tool_input: Option<String>,
    pub command: Option<String>,
    pub file_path: Option<String>,
    pub diff: Option<String>,
    pub question: Option<String>,
    pub permission_reason: Option<String>,
    pub requested_permissions: Option<String>,
    pub proposed_amendment: Option<Vec<String>>,
    pub permission_suggestions: Option<String>,
    pub elicitation_mode: Option<String>,
    pub elicitation_schema: Option<String>,
    pub elicitation_url: Option<String>,
    pub elicitation_message: Option<String>,
    pub mcp_server_name: Option<String>,
    pub network_host: Option<String>,
    pub network_protocol: Option<String>,
}

pub struct ApprovalInputView {
    pub request_id: Seq<char>,
    pub approval_type: ApprovalType,
    pub tool_name: Option<Seq<char>>,
    pub tool_input: Option<Seq<char>>,
    pub command: Option<Seq<char>>,
    pub file_path: Option<Seq<char>>,
    pub diff: Option<Seq<char>>,
    pub question: Option<Seq<char>>,
    pub permission_reason: Option<Seq<char>>,
    pub requested_permissions: Option<Seq<char>>,
    pub proposed_amendment: Option<Seq<Seq<char>>>,
    pub permission_suggestions: Option<Seq<char>>,
    pub elicitation_mode: Option<Seq<char>>,
    pub elicitation_schema: Option<Seq<char>>,
    pub elicitation_url: Option<Seq<char>>,
    pub elicitation_message: Option<Seq<char>>,
    pub mcp_server_name: Option<Seq<char>>,
    pub network_host: Option<Seq<char>>,
    pub network_protocol: Option<Seq<char>>,
}

impl View for ApprovalRequestedInput {
    type V = ApprovalInputView;

    open spec fn view(&self) -> ApprovalInputView {
        ApprovalInputView {
            request_id: self.request_id@,
            approval_type: self.approval_type,
            tool_name: opt_string_view(self.tool_name),
            tool_input: opt_string_view(self.tool_input),
            command: opt_string_view(self.command),
            file_path: opt_string_view(self.file_path),
            diff: opt_string_view(self.diff),
            question: opt_string_view(self.question),
            permission_reason: opt_string_view(self.permission_reason),
            requested_permissions: opt_string_view(self.requested_permissions),
            proposed_amendment: opt_strs_view(self.proposed_amendment),
            permission_suggestions: opt_string_view(self.permission_suggestions),
            elicitation_mode: opt_string_view(self.elicitation_mode),
            elicitation_schema: opt_string_view(self.elicitation_schema),
            elicitation_url: opt_string_view(self.elicitation_url),
            elicitation_message: opt_string_view(self.elicitation_message),
            mcp_server_name: opt_string_view(self.mcp_server_name),
            network_host: opt_string_view(self.network_host),
            network_protocol: opt_string_view(self.network_protocol),
        }
    }
}

/// The tool named when a request names none.
pub open spec fn default_tool_name(t: ApprovalType) -> Seq<char> {
    match t {
        ApprovalType::Exec => "Bash"@,
        ApprovalType::Patch => "Edit"@,
        ApprovalType::Question => "Question"@,
        ApprovalType::Permissions => "Permissions"@,
    }
}

/// The request the session stores: the named or default tool, the
/// questions of the tool input, the question given or else that of the
/// first prompt, and the preview.
pub open spec fn approval_request_of(sid: Seq<char>, a: ApprovalInputView) -> RequestView {
    let tool = match a.tool_name {
        Some(t) => t,
        None => default_tool_name(a.approval_type),
    };
    let prompts = question_prompts(a.tool_input, a.question);
    let question = match a.question {
        Some(q) => Some(q),
        None => if prompts.len() > 0 && prompts[0].question.len() > 0 {
            Some(prompts[0].question)
        } else {
            None
        },
    };
    let preview = preview_of(
        PreviewInputSpec {
            request_id: a.request_id,
            approval_type: a.approval_type,
            tool_name: Some(tool),
            tool_input: a.tool_input,
            command: a.command,
            file_path: a.file_path,
            diff: a.diff,
            question,
            permission_reason: a.permission_reason,
        },
    );
    RequestView {
        id: a.request_id,
        session_id: sid,
        approval_type: a.approval_type,
        tool_name: Some(tool),
        tool_input: a.tool_input,
        command: a.command,
        file_path: a.file_path,
        diff: a.diff,
        question,
        question_prompts: prompts,
        preview: Some(preview),
        permission_reason: a.permission_reason,
        requested_permissions: a.requested_permissions,
        granted_permissions: None,
        proposed_amendment: a.proposed_amendment,
        permission_suggestions: a.permission_suggestions,
        elicitation_mode: a.elicitation_mode,
        elicitation_schema: a.elicitation_schema,
        elicitation_url: a.elicitation_url,
        elicitation_message: a.elicitation_message,
        mcp_server_name: a.mcp_server_name,
        network_host: a.network_host,
        network_protocol: a.network_protocol,
    }
}

/// An approval is requested: the session awaits it, holds it as pending,
/// and writes and broadcasts it.
pub open spec fn approval_requested_step(s: StateView, now: Seq<char>, a: ApprovalInputView) -> (
    StateView,
    Seq<EffectView>,
) {
    let phase = PhaseView::AwaitingApproval {
        request_id: a.request_id,
        approval_type: a.approval_type,
        proposed_amendment: a.proposed_amendment,
    };
    let request = approval_request_of(s.id, a);
    (
        StateView { phase, pending_approval: Some(request), ..touched(s, now) },
        seq![
            session_update(s.id, work_status_of(phase), now),
            EffectView::Persist(
                PersistView::ApprovalRequested {
                    session_id: s.id,
                    cwd: Some(s.project_path),
                    request,
                },
            ),
            EffectView::Emit(
                MessageView::ApprovalRequested { session_id: s.id, request, approval_version: None },
            ),
        ],
    )
}

fn default_tool(t: ApprovalType) -> (r: String)
    ensures
        r@ == default_tool_name(t),
{
    match t {
        ApprovalType::Exec => "Bash".to_string(),
        ApprovalType::Patch => "Edit".to_string(),
        ApprovalType::Question => "Question".to_string(),
        ApprovalType::Permissions => "Permissions".to_string(),
    }
}

fn build_request(sid: &str, input: &ApprovalRequestedInput) -> (r: ApprovalRequest)
    ensures
        r@ == approval_request_of(sid@, input@),
{
    let tool = match &input.tool_name {
        Some(t) => t.clone(),
        None => default_tool(input.approval_type),
    };
    let prompts = approval_question_prompts(opt_as_str(&input.tool_input), opt_as_str(&input.question));
    let question = match &input.question {
        Some(q) => Some(q.clone()),
        None => {
            if prompts.len() > 0 {
                assert(prompts_view(prompts@)[0] == prompts@[0].prompt_view());
                if prompts[0].question.as_str().unicode_len() > 0 {
                    Some(prompts[0].question.clone())
                } else {
                    None
                }
            } else {
                None
            }
        },
    };
    let preview = approval_preview(
        ApprovalPreviewInput {
            request_id: input.request_id.as_str(),
            approval_type: input.approval_type,
            tool_name: Some(tool.as_str()),
            tool_input: opt_as_str(&input.tool_input),
            command: opt_as_str(&input.command),
            file_path: opt_as_str(&input.file_path),
            diff: opt_as_str(&input.diff),
            question: opt_as_str(&question),
            permission_reason: opt_as_str(&input.permission_reason),
        },
    );
    ApprovalRequest {
        id: input.request_id.clone(),
        session_id: sid.to_string(),
        approval_type: input.approval_type,
        tool_name: Some(tool),
        tool_input: copy_opt_string(&input.tool_input),
        command: copy_opt_string(&input.command),
        file_path: copy_opt_string(&input.file_path),
        diff: copy_opt_string(&input.diff),
        question,
        question_prompts: prompts,
        preview,
        permission_reason: copy_opt_string(&input.permission_reason),
        requested_permissions: copy_opt_string(&input.requested_permissions),
        granted_permissions: None,
        proposed_amendment: copy_opt_strings(&input.proposed_amendment),
        permission_suggestions: copy_opt_string(&input.permission_suggestions),
        elicitation_mode: copy_opt_string(&input.elicitation_mode),
        elicitation_schema: copy_opt_string(&input.elicitation_schema),
        elicitation_url: copy_opt_string(&input.elicitation_url),
        elicitation_message: copy_opt_string(&input.elicitation_message),
        mcp_server_name: copy_opt_string(&input.mcp_server_name),
        network_host: copy_opt_string(&input.network_host),
        network_protocol: copy_opt_string(&input.network_protocol),
    }
}

fn persist_request(request: &ApprovalRequest, cwd: &String) -> (r: Effect)
    ensures
        r@ == EffectView::Persist(
            PersistView::ApprovalRequested {
                session_id: request@.session_id,
                cwd: Some(cwd@),
                request: request@,
            },
        ),
{
    Effect::Persist(
        Box::new(
            PersistOp::ApprovalRequested {
                session_id: request.session_id.clone(),
                request_id: request.id.clone(),
                approval_type: request.approval_type,
                tool_name: copy_opt_string(&request.tool_name),
                tool_input: copy_opt_string(&request.tool_input),
                command: copy_opt_string(&request.command),
                file_path: copy_opt_string(&request.file_path),
                diff: copy_opt_string(&request.diff),
                question: copy_opt_string(&request.question),
                question_prompts: copy_prompts(&request.question_prompts),
                preview: Box::new(copy_preview(&request.preview)),
                permission_reason: copy_opt_string(&request.permission_reason),
                requested_permissions: copy_opt_string(&request.requested_permissions),
                granted_permissions: copy_opt_string(&request.granted_permissions),
                cwd: Some(cwd.clone()),
                proposed_amendment: copy_opt_strings(&request.proposed_amendment),
                permission_suggestions: copy_opt_string(&request.permission_suggestions),
                elicitation_mode: copy_opt_string(&request.elicitation_mode),
                elicitation_schema: copy_opt_string(&request.elicitation_schema),
                elicitation_url: copy_opt_string(&request.elicitation_url),
                elicitation_message: copy_opt_string(&request.elicitation_message),
                mcp_server_name: copy_opt_string(&request.mcp_server_name),
                network_host: copy_opt_string(&request.network_host),
                network_protocol: copy_opt_string(&request.network_protocol),
            },
        ),
    )
}

pub fn handle_approval_requested(
    state: &mut TransitionState,
    sid: &str,
    now: &str,
    effects: &mut Vec<Effect>,
    input: ApprovalRequestedInput,
)
    requires
        sid@ == old(state).id@,
    ensures
        final(state)@ == approval_requested_step(old(state)@, now@, input@).0,
        effects_view(final(effects)@) == effects_view(old(effects)@) + approval_requested_step(
            old(state)@,
            now@,
            input@,
        ).1,
{
    let ghost s0 = state@;
    let ghost e0 = effects_view(effects@);
    state.phase = WorkPhase::AwaitingApproval {
        request_id: input.request_id.clone(),
        approval_type: input.approval_type,
        proposed_amendment: copy_opt_strings(&input.proposed_amendment),
    };
    touch(state, now);
    let request = build_request(sid, &input);
    state.pending_approval = Some(copy_request(&request));
    let first = session_update_effect(sid, state.phase.to_work_status(), now);
    let second = persist_request(&request, &state.project_path);
    let third = Effect::Emit(
        Box::new(
            ServerMessage::ApprovalRequested {
                session_id: sid.to_string(),
                request,
                approval_version: None,
            },
        ),
    );
    effects.push(first);
    effects.push(second);
    effects.push(third);
    assert(state@ =~= approval_requested_step(s0, now@, input@).0);
    assert(effects_view(effects@) =~= e0 + approval_requested_step(s0, now@, input@).1);
}

} // verus!
