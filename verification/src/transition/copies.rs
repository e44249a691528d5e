//! Copies of session data that provably equal what they copy.

use crate::approval::preview::ApprovalPreview;
use crate::approval::{
    options_view, prompts_view, segments_view, ApprovalPreviewSegment, ApprovalQuestionOption,
    ApprovalQuestionPrompt,
};
use crate::text::{copy_opt_string, copy_strings, opt_string_view, strs_view};
use crate::transition::effects::{opt_preview_view, ApprovalRequest};
use crate::transition::model::{
    entries_view, opt_strs_view, subagents_view, ConversationRow, ConversationRowEntry,
    MessageRow, NoticeRow, OpaqueRow, SubagentInfo, ToolRow,
};
use vstd::prelude::*;

verus! {

fn copy_message(m: &MessageRow) -> (r: MessageRow)
    ensures
        r == *m,
{
    MessageRow {
        id: m.id.clone(),
        content: m.content.clone(),
        turn_id: copy_opt_string(&m.turn_id),
        timestamp: copy_opt_string(&m.timestamp),
        is_streaming: m.is_streaming,
    }
}

/// A copy of a tool row.
pub fn copy_tool(t: &ToolRow) -> (r: ToolRow)
    ensures
        r == *t,
{
    ToolRow {
        id: t.id.clone(),
        provider: t.provider,
        family: t.family,
        kind: t.kind,
        status: t.status,
        title: t.title.clone(),
        subtitle: copy_opt_string(&t.subtitle),
        summary: copy_opt_string(&t.summary),
        started_at: copy_opt_string(&t.started_at),
        ended_at: copy_opt_string(&t.ended_at),
        duration_ms: t.duration_ms,
        invocation: t.invocation.clone(),
        result: copy_opt_string(&t.result),
    }
}

fn copy_notice(n: &NoticeRow) -> (r: NoticeRow)
    ensures
        r == *n,
{
    NoticeRow {
        id: n.id.clone(),
        severity: n.severity,
        title: n.title.clone(),
        summary: copy_opt_string(&n.summary),
        body: copy_opt_string(&n.body),
    }
}

fn copy_opaque(o: &OpaqueRow) -> (r: OpaqueRow)
    ensures
        r == *o,
{
    OpaqueRow { id: o.id.clone(), payload: o.payload.clone() }
}

/// A copy of a row.
pub fn copy_row(row: &ConversationRow) -> (r: ConversationRow)
    ensures
        r == *row,
{
    match row {
        ConversationRow::User(m) => ConversationRow::User(copy_message(m)),
        ConversationRow::Assistant(m) => ConversationRow::Assistant(copy_message(m)),
        ConversationRow::Thinking(m) => ConversationRow::Thinking(copy_message(m)),
        ConversationRow::System(m) => ConversationRow::System(copy_message(m)),
        ConversationRow::Tool(t) => ConversationRow::Tool(copy_tool(t)),
        ConversationRow::Notice(n) => ConversationRow::Notice(copy_notice(n)),
        ConversationRow::Hook(o) => ConversationRow::Hook(copy_opaque(o)),
        ConversationRow::Handoff(o) => ConversationRow::Handoff(copy_opaque(o)),
    }
}

/// A copy of an entry.
pub fn copy_entry(e: &ConversationRowEntry) -> (r: ConversationRowEntry)
    ensures
        r == *e,
{
    ConversationRowEntry {
        session_id: e.session_id.clone(),
        sequence: e.sequence,
        turn_id: copy_opt_string(&e.turn_id),
        turn_status: e.turn_status,
        row: copy_row(&e.row),
    }
}

/// A copy of a subagent.
pub fn copy_subagent(s: &SubagentInfo) -> (r: SubagentInfo)
    ensures
        r == *s,
{
    SubagentInfo {
        id: s.id.clone(),
        agent_type: s.agent_type.clone(),
        started_at: s.started_at.clone(),
        ended_at: copy_opt_string(&s.ended_at),
        provider: s.provider,
        label: copy_opt_string(&s.label),
        status: s.status,
        task_summary: copy_opt_string(&s.task_summary),
        result_summary: copy_opt_string(&s.result_summary),
        error_summary: copy_opt_string(&s.error_summary),
        parent_subagent_id: copy_opt_string(&s.parent_subagent_id),
        model: copy_opt_string(&s.model),
        last_activity_at: copy_opt_string(&s.last_activity_at),
    }
}

/// A copy of a list of subagents.
pub fn copy_subagents(v: &Vec<SubagentInfo>) -> (r: Vec<SubagentInfo>)
    ensures
        r@ == v@,
        subagents_view(r@) == subagents_view(v@),
{
    let mut r: Vec<SubagentInfo> = Vec::new();
    let mut i: usize = 0;
    while i < v.len()
        invariant
            i <= v.len(),
            r@ =~= v@.take(i as int),
        decreases v.len() - i,
    {
        r.push(copy_subagent(&v[i]));
        i = i + 1;
    }
    assert(v@.take(v.len() as int) =~= v@);
    r
}

/// A copy of an optional list of strings.
pub fn copy_opt_strings(o: &Option<Vec<String>>) -> (r: Option<Vec<String>>)
    ensures
        opt_strs_view(r) == opt_strs_view(*o),
{
    match o {
        Some(v) => Some(copy_strings(v)),
        None => None,
    }
}

fn copy_options(v: &Vec<ApprovalQuestionOption>) -> (r: Vec<ApprovalQuestionOption>)
    ensures
        options_view(r@) == options_view(v@),
{
    let mut r: Vec<ApprovalQuestionOption> = Vec::new();
    let mut i: usize = 0;
    while i < v.len()
        invariant
            i <= v.len(),
            options_view(r@) =~= options_view(v@.take(i as int)),
        decreases v.len() - i,
    {
        let o = ApprovalQuestionOption {
            label: v[i].label.clone(),
            description: copy_opt_string(&v[i].description),
        };
        r.push(o);
        assert(options_view(v@.take(i + 1)) =~= options_view(v@.take(i as int)).push(
            v@[i as int].view_pair(),
        ));
        i = i + 1;
    }
    assert(v@.take(v.len() as int) =~= v@);
    r
}

/// A copy of a list of question prompts.
pub fn copy_prompts(v: &Vec<ApprovalQuestionPrompt>) -> (r: Vec<ApprovalQuestionPrompt>)
    ensures
        prompts_view(r@) == prompts_view(v@),
{
    let mut r: Vec<ApprovalQuestionPrompt> = Vec::new();
    let mut i: usize = 0;
    while i < v.len()
        invariant
            i <= v.len(),
            prompts_view(r@) =~= prompts_view(v@.take(i as int)),
        decreases v.len() - i,
    {
        let p = &v[i];
        let c = ApprovalQuestionPrompt {
            id: p.id.clone(),
            header: copy_opt_string(&p.header),
            question: p.question.clone(),
            options: copy_options(&p.options),
            allows_multiple_selection: p.allows_multiple_selection,
            allows_other: p.allows_other,
            is_secret: p.is_secret,
        };
        r.push(c);
        assert(prompts_view(v@.take(i + 1)) =~= prompts_view(v@.take(i as int)).push(
            v@[i as int].prompt_view(),
        ));
        i = i + 1;
    }
    assert(v@.take(v.len() as int) =~= v@);
    r
}

fn copy_segments(v: &Vec<ApprovalPreviewSegment>) -> (r: Vec<ApprovalPreviewSegment>)
    ensures
        segments_view(r@) == segments_view(v@),
{
    let mut r: Vec<ApprovalPreviewSegment> = Vec::new();
    let mut i: usize = 0;
    while i < v.len()
        invariant
            i <= v.len(),
            segments_view(r@) =~= segments_view(v@.take(i as int)),
        decreases v.len() - i,
    {
        let s = ApprovalPreviewSegment {
            command: v[i].command.clone(),
            leading_operator: copy_opt_string(&v[i].leading_operator),
        };
        r.push(s);
        assert(segments_view(v@.take(i + 1)) =~= segments_view(v@.take(i as int)).push(
            v@[i as int].view_pair(),
        ));
        i = i + 1;
    }
    assert(v@.take(v.len() as int) =~= v@);
    r
}

/// A copy of an optional preview.
pub fn copy_preview(p: &Option<ApprovalPreview>) -> (r: Option<ApprovalPreview>)
    ensures
        opt_preview_view(r) == opt_preview_view(*p),
{
    match p {
        Some(p) => Some(
            ApprovalPreview {
                preview_type: p.preview_type,
                value: p.value.clone(),
                shell_segments: copy_segments(&p.shell_segments),
                compact: copy_opt_string(&p.compact),
                decision_scope: copy_opt_string(&p.decision_scope),
                risk_level: p.risk_level,
                risk_findings: copy_strings(&p.risk_findings),
                manifest: copy_opt_string(&p.manifest),
            },
        ),
        None => None,
    }
}

/// A copy of an approval request.
pub fn copy_request(q: &ApprovalRequest) -> (r: ApprovalRequest)
    ensures
        r@ == q@,
{
    ApprovalRequest {
        id: q.id.clone(),
        session_id: q.session_id.clone(),
        approval_type: q.approval_type,
        tool_name: copy_opt_string(&q.tool_name),
        tool_input: copy_opt_string(&q.tool_input),
        command: copy_opt_string(&q.command),
        file_path: copy_opt_string(&q.file_path),
        diff: copy_opt_string(&q.diff),
        question: copy_opt_string(&q.question),
        question_prompts: copy_prompts(&q.question_prompts),
        preview: copy_preview(&q.preview),
        permission_reason: copy_opt_string(&q.permission_reason),
        requested_permissions: copy_opt_string(&q.requested_permissions),
        granted_permissions: copy_opt_string(&q.granted_permissions),
        proposed_amendment: copy_opt_strings(&q.proposed_amendment),
        permission_suggestions: copy_opt_string(&q.permission_suggestions),
        elicitation_mode: copy_opt_string(&q.elicitation_mode),
        elicitation_schema: copy_opt_string(&q.elicitation_schema),
        elicitation_url: copy_opt_string(&q.elicitation_url),
        elicitation_message: copy_opt_string(&q.elicitation_message),
        mcp_server_name: copy_opt_string(&q.mcp_server_name),
        network_host: copy_opt_string(&q.network_host),
        network_protocol: copy_opt_string(&q.network_protocol),
    }
}

} // verus!
