//! How the runtime's requests for approval become approval requests: a
//! command to run, a patch to apply, questions for the user, permissions
//! and an MCP server's elicitation. Questions and elicitations also add a
//! tool row to the timeline.

use crate::approval::ApprovalType;
use crate::codex::app_server::{approval_request_view, bare_approval, ApprovalRequestView};
use crate::codex::items::{change_diff, file_change_unified_diff, protocol_label, network_protocol_label, FileChange, NetworkApprovalProtocol};
use crate::codex::signals::{adds_row, bare_entry, bumped, next_seq, numbered_id, numbered_row_id, row_created_output, row_entry, state_output};
use crate::json::{json_object, json_object_text, json_opt_str, json_opt_string, json_quote, members_view, spec_json_quote};
use crate::text::{concat3, concat_str, copy_string, join, join_strings, opt_string_view, strs_view};
use crate::transition::connector::{ConnectorOutput, ConnectorStateEvent};
use crate::transition::model::{ConversationRow, Provider, RowView, ToolFamily, ToolKind, ToolRow, ToolRowView, ToolStatus};
use vstd::prelude::*;

verus! {

// ---------------------------------------------------------------------------
// Commands
// ---------------------------------------------------------------------------

/// The network access a command asks for.
#[derive(Debug, Clone)]
pub struct ExecNetworkContext {
    pub host: String,
    pub protocol: NetworkApprovalProtocol,
}

/// The runtime asks to run a command. The working directory is as
/// displayed; the policy amendments, decisions and permissions it offers
/// are JSON text, when it sends them.
#[derive(Debug, Clone)]
pub struct ExecApprovalRequest {
    pub call_id: String,
    pub approval_id: Option<String>,
    pub command: Vec<String>,
    pub cwd: String,
    pub proposed_execpolicy_amendment: Option<Vec<String>>,
    pub network_approval_context: Option<ExecNetworkContext>,
    pub proposed_network_policy_amendments: Option<String>,
    pub available_decisions: Option<String>,
    pub additional_permissions: Option<String>,
}

/// What a command approval offers besides yes and no, as JSON text; none
/// when the runtime offers nothing.
pub open spec fn exec_suggestions(
    amendments: Option<Seq<char>>,
    decisions: Option<Seq<char>>,
    permissions: Option<Seq<char>>,
) -> Option<Seq<char>> {
    if amendments is None && decisions is None && permissions is None {
        None
    } else {
        Some(
            json_object(
                seq![
                    ("source"@, spec_json_quote("codex_exec_approval_request"@)),
                    ("proposed_network_policy_amendments"@, json_or_null(amendments)),
                    ("available_decisions"@, json_or_null(decisions)),
                    ("additional_permissions"@, json_or_null(permissions)),
                ],
            ),
        )
    }
}

/// A JSON text, or null when there is none.
pub open spec fn json_or_null(o: Option<Seq<char>>) -> Seq<char> {
    match o {
        Some(t) => t,
        None => "null"@,
    }
}

fn json_or_null_text(o: Option<String>) -> (r: String)
    ensures
        r@ == json_or_null(opt_string_view(o)),
{
    match o {
        Some(t) => t,
        None => "null".to_string(),
    }
}

fn exec_suggestions_text(
    amendments: Option<String>,
    decisions: Option<String>,
    permissions: Option<String>,
) -> (r: Option<String>)
    ensures
        opt_string_view(r) == exec_suggestions(
            opt_string_view(amendments),
            opt_string_view(decisions),
            opt_string_view(permissions),
        ),
{
    if amendments.is_none() && decisions.is_none() && permissions.is_none() {
        return None;
    }
    let ghost expected = seq![
        ("source"@, spec_json_quote("codex_exec_approval_request"@)),
        ("proposed_network_policy_amendments"@, json_or_null(opt_string_view(amendments))),
        ("available_decisions"@, json_or_null(opt_string_view(decisions))),
        ("additional_permissions"@, json_or_null(opt_string_view(permissions))),
    ];
    let members = vec![
        ("source".to_string(), json_quote("codex_exec_approval_request")),
        ("proposed_network_policy_amendments".to_string(), json_or_null_text(amendments)),
        ("available_decisions".to_string(), json_or_null_text(decisions)),
        ("additional_permissions".to_string(), json_or_null_text(permissions)),
    ];
    assert(members_view(members@) == expected);
    Some(json_object_text(members.as_slice()))
}

/// The approval request of a command: under its approval id, else its call
/// id; the command's words joined by spaces, in its directory.
pub open spec fn exec_approval(e: ExecApprovalRequest) -> ApprovalRequestView {
    ApprovalRequestView {
        command: Some(join(strs_view(e.command@), " "@)),
        file_path: Some(e.cwd@),
        proposed_amendment: match e.proposed_execpolicy_amendment {
            Some(v) => Some(strs_view(v@)),
            None => None,
        },
        permission_suggestions: exec_suggestions(
            opt_string_view(e.proposed_network_policy_amendments),
            opt_string_view(e.available_decisions),
            opt_string_view(e.additional_permissions),
        ),
        network_host: match e.network_approval_context {
            Some(c) => Some(c.host@),
            None => None,
        },
        network_protocol: match e.network_approval_context {
            Some(c) => Some(protocol_label(c.protocol)),
            None => None,
        },
        ..bare_approval(
            match e.approval_id {
                Some(a) => a@,
                None => e.call_id@,
            },
            ApprovalType::Exec,
        )
    }
}

/// The runtime asks to run a command.
pub fn handle_exec_approval_request(event: ExecApprovalRequest) -> (r: Vec<ConnectorOutput>)
    ensures
        r@.len() == 1,
        approval_request_view(r@[0]) == Some(exec_approval(event)),
{
    let ghost e = event;
    let command = join_strings(event.command.as_slice(), " ");
    let (network_host, network_protocol) = match event.network_approval_context {
        Some(c) => (Some(c.host), Some(network_protocol_label(c.protocol).to_string())),
        None => (None, None),
    };
    let suggestions = exec_suggestions_text(
        event.proposed_network_policy_amendments,
        event.available_decisions,
        event.additional_permissions,
    );
    let request_id = match event.approval_id {
        Some(a) => a,
        None => event.call_id,
    };
    vec![
        state_output(
            ConnectorStateEvent::ApprovalRequested {
                request_id,
                approval_type: ApprovalType::Exec,
                tool_name: None,
                tool_input: None,
                command: Some(command),
                file_path: Some(event.cwd),
                diff: None,
                question: None,
                permission_reason: None,
                requested_permissions: None,
                proposed_amendment: event.proposed_execpolicy_amendment,
                permission_suggestions: suggestions,
                elicitation_mode: None,
                elicitation_schema: None,
                elicitation_url: None,
                elicitation_message: None,
                mcp_server_name: None,
                network_host,
                network_protocol,
            },
        ),
    ]
}

// ---------------------------------------------------------------------------
// Patches
// ---------------------------------------------------------------------------

/// The diffs of changed files, in the order given.
pub open spec fn change_diffs(changes: Seq<(String, FileChange)>) -> Seq<Seq<char>> {
    changes.map_values(|c: (String, FileChange)| change_diff(c.0@, c.1))
}

/// The approval request of a patch: under its call id, naming its first
/// file, with the diff of every file one after another, a blank line
/// between.
pub open spec fn patch_approval(call_id: Seq<char>, changes: Seq<(String, FileChange)>) -> ApprovalRequestView {
    ApprovalRequestView {
        file_path: if changes.len() > 0 {
            Some(changes[0].0@)
        } else {
            None
        },
        diff: Some(join(change_diffs(changes), "\n\n"@)),
        ..bare_approval(call_id, ApprovalType::Patch)
    }
}

/// The diffs of changed files, in the order given, a blank line between.
pub(crate) fn joined_change_diffs(changes: &Vec<(String, FileChange)>) -> (r: String)
    ensures
        r@ == join(change_diffs(changes@), "\n\n"@),
{
    let mut diffs: Vec<String> = Vec::new();
    let mut i: usize = 0;
    while i < changes.len()
        invariant
            i <= changes.len(),
            strs_view(diffs@) == change_diffs(changes@.take(i as int)),
        decreases changes.len() - i,
    {
        let d = file_change_unified_diff(changes[i].0.as_str(), &changes[i].1);
        let ghost before = strs_view(diffs@);
        diffs.push(d);
        assert(strs_view(diffs@) =~= before.push(change_diff(changes@[i as int].0@, changes@[i as int].1)));
        assert(change_diffs(changes@.take(i + 1)) =~= change_diffs(changes@.take(i as int)).push(
            change_diff(changes@[i as int].0@, changes@[i as int].1),
        ));
        i = i + 1;
    }
    assert(changes@.take(changes.len() as int) =~= changes@);
    join_strings(diffs.as_slice(), "\n\n")
}

/// The runtime asks to apply a patch; its changed files (displayed paths)
/// come in the order the runtime listed them.
pub fn handle_apply_patch_approval_request(call_id: String, changes: Vec<(String, FileChange)>) -> (r: Vec<
    ConnectorOutput,
>)
    ensures
        r@.len() == 1,
        approval_request_view(r@[0]) == Some(patch_approval(call_id@, changes@)),
{
    let diff = joined_change_diffs(&changes);
    let first_file = if changes.len() > 0 {
        Some(copy_string(&changes[0].0))
    } else {
        None
    };
    vec![
        state_output(
            ConnectorStateEvent::ApprovalRequested {
                request_id: call_id,
                approval_type: ApprovalType::Patch,
                tool_name: None,
                tool_input: None,
                command: None,
                file_path: first_file,
                diff: Some(diff),
                question: None,
                permission_reason: None,
                requested_permissions: None,
                proposed_amendment: None,
                permission_suggestions: None,
                elicitation_mode: None,
                elicitation_schema: None,
                elicitation_url: None,
                elicitation_message: None,
                mcp_server_name: None,
                network_host: None,
                network_protocol: None,
            },
        ),
    ]
}

// ---------------------------------------------------------------------------
// Questions, permissions, elicitations
// ---------------------------------------------------------------------------

/// A completed tool row stamped `now`, with no subtitle, summary or result.
pub open spec fn asked_row(
    id: Seq<char>,
    family: ToolFamily,
    kind: ToolKind,
    title: Seq<char>,
    subtitle: Option<Seq<char>>,
    invocation: Seq<char>,
    now: Seq<char>,
) -> ToolRowView {
    ToolRowView {
        id,
        provider: Provider::Codex,
        family,
        kind,
        status: ToolStatus::Completed,
        title,
        subtitle,
        summary: None,
        started_at: Some(now),
        ended_at: Some(now),
        duration_ms: None,
        invocation,
        result: None,
    }
}

/// The outputs of questions for the user: a question row numbered after
/// the event, titled with the first question, and the approval request
/// under the event's id with the questions as input.
pub open spec fn user_input_outputs(
    event_id: Seq<char>,
    questions: Seq<Seq<char>>,
    questions_json: Seq<char>,
    seq: u64,
    now: Seq<char>,
    r: Seq<ConnectorOutput>,
) -> bool {
    let question = if questions.len() > 0 {
        Some(questions[0])
    } else {
        None
    };
    &&& r.len() == 2
    &&& adds_row(
        r[0],
        bare_entry(
            RowView::Tool(
                asked_row(
                    numbered_id("ask-user-question-"@, event_id, seq),
                    ToolFamily::Question,
                    ToolKind::AskUserQuestion,
                    match question {
                        Some(q) => q,
                        None => "Question requested"@,
                    },
                    None,
                    json_object(seq![("prompt"@, json_opt_str(question))]),
                    now,
                ),
            ),
        ),
    )
    &&& approval_request_view(r[1]) == Some(
        ApprovalRequestView {
            tool_input: Some(json_object(seq![("questions"@, questions_json)])),
            question,
            ..bare_approval(event_id, ApprovalType::Question)
        },
    )
}

/// The runtime asks the user questions; `questions` holds the text of each
/// and `questions_json` all of them as JSON text. The counter numbers the
/// question row.
pub fn handle_request_user_input(
    event_id: &str,
    questions: Vec<String>,
    questions_json: String,
    counter: &mut u64,
    now: &str,
) -> (r: Vec<ConnectorOutput>)
    ensures
        *final(counter) == bumped(*old(counter)),
        user_input_outputs(event_id@, strs_view(questions@), questions_json@, *old(counter), now@, r@),
{
    let question = if questions.len() > 0 {
        Some(copy_string(&questions[0]))
    } else {
        None
    };
    let ghost q = opt_string_view(question);
    let seq = next_seq(counter);
    let prompt = match &question {
        Some(t) => json_opt_string(Some(t.as_str())),
        None => json_opt_string(None),
    };
    let ghost inv_seq = seq![("prompt"@, json_opt_str(q))];
    let inv_members = vec![("prompt".to_string(), prompt)];
    assert(members_view(inv_members@) == inv_seq);
    let invocation = json_object_text(inv_members.as_slice());
    let ghost input_seq = seq![("questions"@, questions_json@)];
    let input_members = vec![("questions".to_string(), questions_json)];
    assert(members_view(input_members@) == input_seq);
    let tool_input = json_object_text(input_members.as_slice());
    let title = match &question {
        Some(t) => copy_string(t),
        None => "Question requested".to_string(),
    };
    let row = ToolRow {
        id: numbered_row_id("ask-user-question-", event_id, seq),
        provider: Provider::Codex,
        family: ToolFamily::Question,
        kind: ToolKind::AskUserQuestion,
        status: ToolStatus::Completed,
        title,
        subtitle: None,
        summary: None,
        started_at: Some(now.to_string()),
        ended_at: Some(now.to_string()),
        duration_ms: None,
        invocation,
        result: None,
    };
    let approval = state_output(
        ConnectorStateEvent::ApprovalRequested {
            request_id: event_id.to_string(),
            approval_type: ApprovalType::Question,
            tool_name: None,
            tool_input: Some(tool_input),
            command: None,
            file_path: None,
            diff: None,
            question,
            permission_reason: None,
            requested_permissions: None,
            proposed_amendment: None,
            permission_suggestions: None,
            elicitation_mode: None,
            elicitation_schema: None,
            elicitation_url: None,
            elicitation_message: None,
            mcp_server_name: None,
            network_host: None,
            network_protocol: None,
        },
    );
    vec![row_created_output(row_entry(ConversationRow::Tool(row))), approval]
}

/// The approval request of permissions the runtime asks for: under its call
/// id, with the reason as question and the permissions (JSON text) as
/// input together with the reason.
pub open spec fn permissions_approval(
    call_id: Seq<char>,
    reason: Option<Seq<char>>,
    permissions: Seq<char>,
) -> ApprovalRequestView {
    ApprovalRequestView {
        tool_name: Some("request_permissions"@),
        tool_input: Some(
            json_object(seq![("reason"@, json_opt_str(reason)), ("permissions"@, permissions)]),
        ),
        question: reason,
        permission_reason: reason,
        requested_permissions: Some(permissions),
        ..bare_approval(call_id, ApprovalType::Permissions)
    }
}

/// The runtime asks for permissions, given as JSON text.
pub fn handle_request_permissions(call_id: String, reason: Option<String>, permissions: String) -> (r: Vec<
    ConnectorOutput,
>)
    ensures
        r@.len() == 1,
        approval_request_view(r@[0]) == Some(permissions_approval(call_id@, opt_string_view(reason), permissions@)),
{
    let reason_json = match &reason {
        Some(t) => json_opt_string(Some(t.as_str())),
        None => json_opt_string(None),
    };
    let ghost input_seq = seq![("reason"@, json_opt_str(opt_string_view(reason))), ("permissions"@, permissions@)];
    let input_members = vec![("reason".to_string(), reason_json), ("permissions".to_string(), copy_string(&permissions))];
    assert(members_view(input_members@) == input_seq);
    let tool_input = json_object_text(input_members.as_slice());
    let question = crate::text::copy_opt_string(&reason);
    vec![
        state_output(
            ConnectorStateEvent::ApprovalRequested {
                request_id: call_id,
                approval_type: ApprovalType::Permissions,
                tool_name: Some("request_permissions".to_string()),
                tool_input: Some(tool_input),
                command: None,
                file_path: None,
                diff: None,
                question,
                permission_reason: reason,
                requested_permissions: Some(permissions),
                proposed_amendment: None,
                permission_suggestions: None,
                elicitation_mode: None,
                elicitation_schema: None,
                elicitation_url: None,
                elicitation_message: None,
                mcp_server_name: None,
                network_host: None,
                network_protocol: None,
            },
        ),
    ]
}

/// An MCP server asks the user something through the runtime. The
/// request's id and the whole event are JSON text, when they could be
/// written.
#[derive(Debug, Clone)]
pub struct ElicitationRequest {
    pub server_name: String,
    pub id_json: Option<String>,
    pub message: String,
    pub event_json: Option<String>,
}

/// The question of an elicitation: its message, else a request of the
/// server.
pub open spec fn elicitation_question(e: ElicitationRequest) -> Seq<char> {
    if e.message@.len() > 0 {
        e.message@
    } else {
        e.server_name@ + " request"@
    }
}

/// The outputs of an elicitation: an MCP row numbered after the event,
/// titled with the question, and a form question for the user under a key
/// made of the server's name and the request's id.
pub open spec fn elicitation_outputs(
    event_id: Seq<char>,
    e: ElicitationRequest,
    seq: u64,
    now: Seq<char>,
    r: Seq<ConnectorOutput>,
) -> bool {
    let question = elicitation_question(e);
    &&& r.len() == 2
    &&& adds_row(
        r[0],
        bare_entry(
            RowView::Tool(
                asked_row(
                    numbered_id("mcp-approval-"@, event_id, seq),
                    ToolFamily::Mcp,
                    ToolKind::McpToolCall,
                    question,
                    Some(e.server_name@),
                    json_object(
                        seq![
                            ("tool_name"@, spec_json_quote("mcp_approval"@)),
                            ("raw_input"@, json_or_null(opt_string_view(e.event_json))),
                        ],
                    ),
                    now,
                ),
            ),
        ),
    )
    &&& approval_request_view(r[1]) == Some(
        ApprovalRequestView {
            tool_name: Some("mcp_approval"@),
            tool_input: opt_string_view(e.event_json),
            question: Some(question),
            elicitation_mode: Some("form"@),
            elicitation_message: if e.message@.len() > 0 {
                Some(e.message@)
            } else {
                None
            },
            mcp_server_name: Some(e.server_name@),
            ..bare_approval(
                "elicitation-"@ + e.server_name@ + "-"@ + match e.id_json {
                    Some(i) => i@,
                    None => "request"@,
                },
                ApprovalType::Question,
            )
        },
    )
}

/// An MCP server asks the user something; the counter numbers its row.
pub fn handle_elicitation_request(event_id: &str, event: ElicitationRequest, counter: &mut u64, now: &str) -> (r:
    Vec<ConnectorOutput>)
    ensures
        *final(counter) == bumped(*old(counter)),
        elicitation_outputs(event_id@, event, *old(counter), now@, r@),
{
    let ghost e = event;
    let has_message = event.message.as_str().unicode_len() > 0;
    let question = if has_message {
        copy_string(&event.message)
    } else {
        concat_str(event.server_name.as_str(), " request")
    };
    let seq = next_seq(counter);
    let raw = match &event.event_json {
        Some(t) => copy_string(t),
        None => "null".to_string(),
    };
    let ghost inv_seq = seq![
        ("tool_name"@, spec_json_quote("mcp_approval"@)),
        ("raw_input"@, json_or_null(opt_string_view(e.event_json))),
    ];
    let inv_members = vec![("tool_name".to_string(), json_quote("mcp_approval")), ("raw_input".to_string(), raw)];
    assert(members_view(inv_members@) == inv_seq);
    let invocation = json_object_text(inv_members.as_slice());
    let row = ToolRow {
        id: numbered_row_id("mcp-approval-", event_id, seq),
        provider: Provider::Codex,
        family: ToolFamily::Mcp,
        kind: ToolKind::McpToolCall,
        status: ToolStatus::Completed,
        title: copy_string(&question),
        subtitle: Some(copy_string(&event.server_name)),
        summary: None,
        started_at: Some(now.to_string()),
        ended_at: Some(now.to_string()),
        duration_ms: None,
        invocation,
        result: None,
    };
    let id_text = match event.id_json {
        Some(i) => i,
        None => "request".to_string(),
    };
    let a = concat3("elicitation-", event.server_name.as_str(), "-");
    let request_id = concat_str(a.as_str(), id_text.as_str());
    let message = if has_message {
        Some(event.message)
    } else {
        None
    };
    let approval = state_output(
        ConnectorStateEvent::ApprovalRequested {
            request_id,
            approval_type: ApprovalType::Question,
            tool_name: Some("mcp_approval".to_string()),
            tool_input: event.event_json,
            command: None,
            file_path: None,
            diff: None,
            question: Some(question),
            permission_reason: None,
            requested_permissions: None,
            proposed_amendment: None,
            permission_suggestions: None,
            elicitation_mode: Some("form".to_string()),
            elicitation_schema: None,
            elicitation_url: None,
            elicitation_message: message,
            mcp_server_name: Some(event.server_name),
            network_host: None,
            network_protocol: None,
        },
    );
    vec![row_created_output(row_entry(ConversationRow::Tool(row))), approval]
}

} // verus!
