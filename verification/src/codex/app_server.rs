//! What the app server asks of a session and tells it. Its requests wait
//! under a key until they are answered and become approval requests or
//! tool calls; its notifications become connector outputs, with the state a
//! session route keeps between them.

use crate::approval::ApprovalType;
use crate::json::{json_int, json_int_text, json_object, json_object_text, json_quote, members_view, spec_json_quote};
use crate::keyed::TextMap;
use crate::text::{copy_string, opt_string_view, strs_view};
use crate::transition::connector::{ConnectorOutput, ConnectorRuntimeDirective, ConnectorStateEvent};
use vstd::prelude::*;

verus! {

// ---------------------------------------------------------------------------
// Requests
// ---------------------------------------------------------------------------

/// The id of a request of the app server: a number or a text.
#[derive(Debug, Clone, PartialEq, Eq)]
pub enum RequestId {
    Integer(i64),
    String(String),
}

/// The key under which a request waits: its number in decimal, or its text.
pub open spec fn key_of(id: RequestId) -> Seq<char> {
    match id {
        RequestId::Integer(n) => json_int(n as int),
        RequestId::String(s) => s@,
    }
}

/// The key under which a request waits for its answer.
pub fn request_key(request_id: &RequestId) -> (r: String)
    ensures
        r@ == key_of(*request_id),
{
    match request_id {
        RequestId::Integer(n) => json_int_text(*n),
        RequestId::String(s) => copy_string(s),
    }
}

fn copy_request_id(id: &RequestId) -> (r: RequestId)
    ensures
        r == *id,
{
    match id {
        RequestId::Integer(n) => RequestId::Integer(*n),
        RequestId::String(s) => RequestId::String(copy_string(s)),
    }
}

/// The protocol of a network access a command asks for.
#[derive(Debug, Clone, Copy, PartialEq, Eq, Structural)]
pub enum NetworkProtocol {
    Http,
    Https,
    Socks5Tcp,
    Socks5Udp,
}

/// The name of a protocol in a request: its name in lower case.
pub open spec fn protocol_name(protocol: NetworkProtocol) -> Seq<char> {
    match protocol {
        NetworkProtocol::Http => "http"@,
        NetworkProtocol::Https => "https"@,
        NetworkProtocol::Socks5Tcp => "socks5tcp"@,
        NetworkProtocol::Socks5Udp => "socks5udp"@,
    }
}

fn network_protocol_name(protocol: NetworkProtocol) -> (r: &'static str)
    ensures
        r@ == protocol_name(protocol),
{
    match protocol {
        NetworkProtocol::Http => "http",
        NetworkProtocol::Https => "https",
        NetworkProtocol::Socks5Tcp => "socks5tcp",
        NetworkProtocol::Socks5Udp => "socks5udp",
    }
}

/// The network access a command asks for.
#[derive(Debug, Clone)]
pub struct NetworkApprovalContext {
    pub host: String,
    pub protocol: NetworkProtocol,
}

/// How an MCP server asks the user: a form with its schema (JSON text,
/// when it could be written), or a link to open.
#[derive(Debug, Clone)]
pub enum McpElicitation {
    Form { message: String, requested_schema: Option<String> },
    Url { message: String, url: String },
}

/// A request of the app server. Values it sends as structured data that
/// are only passed on are JSON text; one that could not be written is
/// `None`.
#[derive(Debug, Clone)]
pub enum ServerRequest {
    CommandExecutionRequestApproval {
        id: RequestId,
        command: Option<String>,
        /// The working directory as displayed.
        cwd: Option<String>,
        reason: Option<String>,
        proposed_execpolicy_amendment: Option<Vec<String>>,
        available_decisions: String,
        additional_permissions: String,
        proposed_network_policy_amendments: String,
        network_approval_context: Option<NetworkApprovalContext>,
    },
    FileChangeRequestApproval {
        id: RequestId,
        /// The root asked for as displayed.
        grant_root: Option<String>,
        reason: Option<String>,
    },
    ToolRequestUserInput {
        id: RequestId,
        /// The text of each question, in order.
        questions: Vec<String>,
        questions_json: Option<String>,
    },
    McpServerElicitationRequest {
        id: RequestId,
        server_name: String,
        request: McpElicitation,
        request_json: Option<String>,
    },
    PermissionsRequestApproval { id: RequestId, reason: Option<String>, permissions_json: Option<String> },
    DynamicToolCall { id: RequestId, tool: String, arguments: String },
    Other { id: RequestId },
}

/// The id of a request.
pub open spec fn id_of(request: ServerRequest) -> RequestId {
    match request {
        ServerRequest::CommandExecutionRequestApproval { id, .. } => id,
        ServerRequest::FileChangeRequestApproval { id, .. } => id,
        ServerRequest::ToolRequestUserInput { id, .. } => id,
        ServerRequest::McpServerElicitationRequest { id, .. } => id,
        ServerRequest::PermissionsRequestApproval { id, .. } => id,
        ServerRequest::DynamicToolCall { id, .. } => id,
        ServerRequest::Other { id } => id,
    }
}

/// An approval request as values.
pub struct ApprovalRequestView {
    pub request_id: Seq<char>,
    pub approval_type: ApprovalType,
    pub tool_name: Option<Seq<char>>,
    pub tool_input: Option<Seq<char>>,
    pub command: Option<Seq<char>>,
    pub file_path: Option<Seq<char>>,
    pub diff: Option<Seq<char>>,
    pub question: Option<Seq<char>>,
    pub permission_reason: Option<Seq<char>>,
    pub requested_permissions: Option<Seq<char>>,
    pub proposed_amendment: Option<Seq<Seq<char>>>,
    pub permission_suggestions: Option<Seq<char>>,
    pub elicitation_mode: Option<Seq<char>>,
    pub elicitation_schema: Option<Seq<char>>,
    pub elicitation_url: Option<Seq<char>>,
    pub elicitation_message: Option<Seq<char>>,
    pub mcp_server_name: Option<Seq<char>>,
    pub network_host: Option<Seq<char>>,
    pub network_protocol: Option<Seq<char>>,
}

/// A list of texts that may be missing, as values.
pub open spec fn opt_strs_view(o: Option<Vec<String>>) -> Option<Seq<Seq<char>>> {
    match o {
        Some(v) => Some(strs_view(v@)),
        None => None,
    }
}

/// The approval request an output carries, if it carries one.
pub open spec fn approval_request_view(o: ConnectorOutput) -> Option<ApprovalRequestView> {
    match o {
        ConnectorOutput::State(
            ConnectorStateEvent::ApprovalRequested {
                request_id,
                approval_type,
                tool_name,
                tool_input,
                command,
                file_path,
                diff,
                question,
                permission_reason,
                requested_permissions,
                proposed_amendment,
                permission_suggestions,
                elicitation_mode,
                elicitation_schema,
                elicitation_url,
                elicitation_message,
                mcp_server_name,
                network_host,
                network_protocol,
            },
        ) => Some(
            ApprovalRequestView {
                request_id: request_id@,
                approval_type,
                tool_name: opt_string_view(tool_name),
                tool_input: opt_string_view(tool_input),
                command: opt_string_view(command),
                file_path: opt_string_view(file_path),
                diff: opt_string_view(diff),
                question: opt_string_view(question),
                permission_reason: opt_string_view(permission_reason),
                requested_permissions: opt_string_view(requested_permissions),
                proposed_amendment: opt_strs_view(proposed_amendment),
                permission_suggestions: opt_string_view(permission_suggestions),
                elicitation_mode: opt_string_view(elicitation_mode),
                elicitation_schema: opt_string_view(elicitation_schema),
                elicitation_url: opt_string_view(elicitation_url),
                elicitation_message: opt_string_view(elicitation_message),
                mcp_server_name: opt_string_view(mcp_server_name),
                network_host: opt_string_view(network_host),
                network_protocol: opt_string_view(network_protocol),
            },
        ),
        _ => None,
    }
}

/// An approval request of the given kind that says nothing more.
pub open spec fn bare_approval(key: Seq<char>, approval_type: ApprovalType) -> ApprovalRequestView {
    ApprovalRequestView {
        request_id: key,
        approval_type,
        tool_name: None,
        tool_input: None,
        command: None,
        file_path: None,
        diff: None,
        question: None,
        permission_reason: None,
        requested_permissions: None,
        proposed_amendment: None,
        permission_suggestions: None,
        elicitation_mode: None,
        elicitation_schema: None,
        elicitation_url: None,
        elicitation_message: None,
        mcp_server_name: None,
        network_host: None,
        network_protocol: None,
    }
}

/// What a command approval offers besides yes and no, as JSON text: where
/// it comes from, the decisions on offer, the extra permissions and the
/// network policy changes it proposes.
pub open spec fn command_suggestions(
    available_decisions: Seq<char>,
    additional_permissions: Seq<char>,
    network_amendments: Seq<char>,
) -> Seq<char> {
    json_object(
        seq![
            ("source"@, spec_json_quote("codex_app_server_command_approval"@)),
            ("available_decisions"@, available_decisions),
            ("additional_permissions"@, additional_permissions),
            ("proposed_network_policy_amendments"@, network_amendments),
        ],
    )
}

/// The approval request a request of the app server asks for; `None` for
/// a tool call and for a request the connector does not take.
pub open spec fn expected_approval(request: ServerRequest) -> Option<ApprovalRequestView> {
    let key = key_of(id_of(request));
    match request {
        ServerRequest::CommandExecutionRequestApproval {
            command,
            cwd,
            reason,
            proposed_execpolicy_amendment,
            available_decisions,
            additional_permissions,
            proposed_network_policy_amendments,
            network_approval_context,
            ..
        } => Some(
            ApprovalRequestView {
                command: opt_string_view(command),
                file_path: opt_string_view(cwd),
                question: opt_string_view(reason),
                permission_reason: opt_string_view(reason),
                proposed_amendment: opt_strs_view(proposed_execpolicy_amendment),
                permission_suggestions: Some(
                    command_suggestions(
                        available_decisions@,
                        additional_permissions@,
                        proposed_network_policy_amendments@,
                    ),
                ),
                network_host: match network_approval_context {
                    Some(c) => Some(c.host@),
                    None => None,
                },
                network_protocol: match network_approval_context {
                    Some(c) => Some(protocol_name(c.protocol)),
                    None => None,
                },
                ..bare_approval(key, ApprovalType::Exec)
            },
        ),
        ServerRequest::FileChangeRequestApproval { grant_root, reason, .. } => Some(
            ApprovalRequestView {
                file_path: opt_string_view(grant_root),
                question: opt_string_view(reason),
                permission_reason: opt_string_view(reason),
                ..bare_approval(key, ApprovalType::Patch)
            },
        ),
        ServerRequest::ToolRequestUserInput { questions, questions_json, .. } => Some(
            ApprovalRequestView {
                tool_name: Some("request_user_input"@),
                tool_input: opt_string_view(questions_json),
                question: if questions@.len() > 0 {
                    Some(questions@[0]@)
                } else {
                    None
                },
                ..bare_approval(key, ApprovalType::Question)
            },
        ),
        ServerRequest::McpServerElicitationRequest { server_name, request, request_json, .. } => {
            let (mode, schema, url, message) = match request {
                McpElicitation::Form { message, requested_schema } => (
                    "form"@,
                    opt_string_view(requested_schema),
                    None,
                    message@,
                ),
                McpElicitation::Url { message, url } => ("url"@, None, Some(url@), message@),
            };
            Some(
                ApprovalRequestView {
                    tool_name: Some("mcp_approval"@),
                    tool_input: opt_string_view(request_json),
                    question: Some(message),
                    elicitation_mode: Some(mode),
                    elicitation_schema: schema,
                    elicitation_url: url,
                    elicitation_message: Some(message),
                    mcp_server_name: Some(server_name@),
                    ..bare_approval(key, ApprovalType::Question)
                },
            )
        },
        ServerRequest::PermissionsRequestApproval { reason, permissions_json, .. } => Some(
            ApprovalRequestView {
                tool_name: Some("request_permissions"@),
                tool_input: opt_string_view(permissions_json),
                question: opt_string_view(reason),
                permission_reason: opt_string_view(reason),
                requested_permissions: opt_string_view(permissions_json),
                ..bare_approval(key, ApprovalType::Permissions)
            },
        ),
        _ => None,
    }
}

/// What a request of the app server becomes: an approval request, a
/// dynamic tool call for the runtime under the request's key, or nothing.
pub open spec fn request_outputs(request: ServerRequest, r: Seq<ConnectorOutput>) -> bool {
    match request {
        ServerRequest::DynamicToolCall { id, tool, arguments } => {
            &&& r.len() == 1
            &&& r[0] matches ConnectorOutput::Runtime(
                ConnectorRuntimeDirective::DynamicToolCallRequested { call_id, tool_name, arguments: a },
            )
            &&& r[0]->Runtime_0->DynamicToolCallRequested_call_id@ == key_of(id)
            &&& r[0]->Runtime_0->DynamicToolCallRequested_tool_name == tool
            &&& r[0]->Runtime_0->DynamicToolCallRequested_arguments == arguments
        },
        ServerRequest::Other { .. } => r.len() == 0,
        _ => r.len() == 1 && approval_request_view(r[0]) == expected_approval(request),
    }
}

fn command_suggestions_text(
    available_decisions: String,
    additional_permissions: String,
    network_amendments: String,
) -> (r: String)
    ensures
        r@ == command_suggestions(available_decisions@, additional_permissions@, network_amendments@),
{
    let ghost expected = seq![
        ("source"@, spec_json_quote("codex_app_server_command_approval"@)),
        ("available_decisions"@, available_decisions@),
        ("additional_permissions"@, additional_permissions@),
        ("proposed_network_policy_amendments"@, network_amendments@),
    ];
    let members = vec![
        ("source".to_string(), json_quote("codex_app_server_command_approval")),
        ("available_decisions".to_string(), available_decisions),
        ("additional_permissions".to_string(), additional_permissions),
        ("proposed_network_policy_amendments".to_string(), network_amendments),
    ];
    assert(members_view(members@) == expected);
    json_object_text(members.as_slice())
}

/// An approval request event with the given fields.
fn approval_output(
    request_id: String,
    approval_type: ApprovalType,
    tool_name: Option<String>,
    tool_input: Option<String>,
    question: Option<String>,
    permission_reason: Option<String>,
) -> (r: ConnectorOutput)
    ensures
        approval_request_view(r) == Some(
            ApprovalRequestView {
                tool_name: opt_string_view(tool_name),
                tool_input: opt_string_view(tool_input),
                question: opt_string_view(question),
                permission_reason: opt_string_view(permission_reason),
                ..bare_approval(request_id@, approval_type)
            },
        ),
{
    ConnectorOutput::State(
        ConnectorStateEvent::ApprovalRequested {
            request_id,
            approval_type,
            tool_name,
            tool_input,
            command: None,
            file_path: None,
            diff: None,
            question,
            permission_reason,
            requested_permissions: None,
            proposed_amendment: None,
            permission_suggestions: None,
            elicitation_mode: None,
            elicitation_schema: None,
            elicitation_url: None,
            elicitation_message: None,
            mcp_server_name: None,
            network_host: None,
            network_protocol: None,
        },
    )
}

/// A request of the app server: it waits under its key until it is
/// answered, and becomes an approval request, a dynamic tool call for the
/// runtime, or nothing when the connector does not take it.
pub fn map_server_request(pending: &mut TextMap<RequestId>, request: ServerRequest) -> (r: Vec<ConnectorOutput>)
    ensures
        final(pending)@ == old(pending)@.insert(key_of(id_of(request)), id_of(request)),
        request_outputs(request, r@),
{
    let ghost req = request;
    let key = match &request {
        ServerRequest::CommandExecutionRequestApproval { id, .. } => {
            let k = request_key(id);
            pending.insert(copy_string(&k), copy_request_id(id));
            k
        },
        ServerRequest::FileChangeRequestApproval { id, .. } => {
            let k = request_key(id);
            pending.insert(copy_string(&k), copy_request_id(id));
            k
        },
        ServerRequest::ToolRequestUserInput { id, .. } => {
            let k = request_key(id);
            pending.insert(copy_string(&k), copy_request_id(id));
            k
        },
        ServerRequest::McpServerElicitationRequest { id, .. } => {
            let k = request_key(id);
            pending.insert(copy_string(&k), copy_request_id(id));
            k
        },
        ServerRequest::PermissionsRequestApproval { id, .. } => {
            let k = request_key(id);
            pending.insert(copy_string(&k), copy_request_id(id));
            k
        },
        ServerRequest::DynamicToolCall { id, .. } => {
            let k = request_key(id);
            pending.insert(copy_string(&k), copy_request_id(id));
            k
        },
        ServerRequest::Other { id } => {
            let k = request_key(id);
            pending.insert(copy_string(&k), copy_request_id(id));
            k
        },
    };
    assert(key@ == key_of(id_of(req)));
    match request {
        ServerRequest::CommandExecutionRequestApproval {
            command,
            cwd,
            reason,
            proposed_execpolicy_amendment,
            available_decisions,
            additional_permissions,
            proposed_network_policy_amendments,
            network_approval_context,
            ..
        } => {
            let suggestions = command_suggestions_text(
                available_decisions,
                additional_permissions,
                proposed_network_policy_amendments,
            );
            let (network_host, network_protocol) = match network_approval_context {
                Some(c) => (Some(c.host), Some(network_protocol_name(c.protocol).to_string())),
                None => (None, None),
            };
            let question = crate::text::copy_opt_string(&reason);
            vec![
                ConnectorOutput::State(
                    ConnectorStateEvent::ApprovalRequested {
                        request_id: key,
                        approval_type: ApprovalType::Exec,
                        tool_name: None,
                        tool_input: None,
                        command,
                        file_path: cwd,
                        diff: None,
                        question,
                        permission_reason: reason,
                        requested_permissions: None,
                        proposed_amendment: proposed_execpolicy_amendment,
                        permission_suggestions: Some(suggestions),
                        elicitation_mode: None,
                        elicitation_schema: None,
                        elicitation_url: None,
                        elicitation_message: None,
                        mcp_server_name: None,
                        network_host,
                        network_protocol,
                    },
                ),
            ]
        },
        ServerRequest::FileChangeRequestApproval { grant_root, reason, .. } => {
            let question = crate::text::copy_opt_string(&reason);
            vec![
                ConnectorOutput::State(
                    ConnectorStateEvent::ApprovalRequested {
                        request_id: key,
                        approval_type: ApprovalType::Patch,
                        tool_name: None,
                        tool_input: None,
                        command: None,
                        file_path: grant_root,
                        diff: None,
                        question,
                        permission_reason: reason,
                        requested_permissions: None,
                        proposed_amendment: None,
                        permission_suggestions: None,
                        elicitation_mode: None,
                        elicitation_schema: None,
                        elicitation_url: None,
                        elicitation_message: None,
                        mcp_server_name: None,
                        network_host: None,
                        network_protocol: None,
                    },
                ),
            ]
        },
        ServerRequest::ToolRequestUserInput { questions, questions_json, .. } => {
            let question = if questions.len() > 0 {
                Some(copy_string(&questions[0]))
            } else {
                None
            };
            vec![
                approval_output(
                    key,
                    ApprovalType::Question,
                    Some("request_user_input".to_string()),
                    questions_json,
                    question,
                    None,
                ),
            ]
        },
        ServerRequest::McpServerElicitationRequest { server_name, request, request_json, .. } => {
            let (mode, schema, url, message) = match request {
                McpElicitation::Form { message, requested_schema } => (
                    "form".to_string(),
                    requested_schema,
                    None,
                    message,
                ),
                McpElicitation::Url { message, url } => ("url".to_string(), None, Some(url), message),
            };
            let question = copy_string(&message);
            vec![
                ConnectorOutput::State(
                    ConnectorStateEvent::ApprovalRequested {
                        request_id: key,
                        approval_type: ApprovalType::Question,
                        tool_name: Some("mcp_approval".to_string()),
                        tool_input: request_json,
                        command: None,
                        file_path: None,
                        diff: None,
                        question: Some(question),
                        permission_reason: None,
                        requested_permissions: None,
                        proposed_amendment: None,
                        permission_suggestions: None,
                        elicitation_mode: Some(mode),
                        elicitation_schema: schema,
                        elicitation_url: url,
                        elicitation_message: Some(message),
                        mcp_server_name: Some(server_name),
                        network_host: None,
                        network_protocol: None,
                    },
                ),
            ]
        },
        ServerRequest::PermissionsRequestApproval { reason, permissions_json, .. } => {
            let question = crate::text::copy_opt_string(&reason);
            let input = crate::text::copy_opt_string(&permissions_json);
            vec![
                ConnectorOutput::State(
                    ConnectorStateEvent::ApprovalRequested {
                        request_id: key,
                        approval_type: ApprovalType::Permissions,
                        tool_name: Some("request_permissions".to_string()),
                        tool_input: input,
                        command: None,
                        file_path: None,
                        diff: None,
                        question,
                        permission_reason: reason,
                        requested_permissions: permissions_json,
                        proposed_amendment: None,
                        permission_suggestions: None,
                        elicitation_mode: None,
                        elicitation_schema: None,
                        elicitation_url: None,
                        elicitation_message: None,
                        mcp_server_name: None,
                        network_host: None,
                        network_protocol: None,
                    },
                ),
            ]
        },
        ServerRequest::DynamicToolCall { tool, arguments, .. } => {
            vec![
                ConnectorOutput::Runtime(
                    ConnectorRuntimeDirective::DynamicToolCallRequested {
                        call_id: key,
                        tool_name: tool,
                        arguments,
                    },
                ),
            ]
        },
        ServerRequest::Other { .. } => Vec::new(),
    }
}

// ---------------------------------------------------------------------------
// Answers
// ---------------------------------------------------------------------------

/// What `str::parse::<i64>` makes of a text.
pub uninterp spec fn spec_parse_i64(s: Seq<char>) -> Option<i64>;

/// `str::parse::<i64>`, named by `spec_parse_i64`: the decimal form of a
/// number (a minus sign before the digits of a negative one) gives that
/// number back; of other texts nothing more is claimed.
#[verifier::external_body]
fn parse_i64(s: &str) -> (r: Option<i64>)
    ensures
        r == spec_parse_i64(s@),
        forall|n: i64| #[trigger] json_int(n as int) == s@ ==> r == Some(n),
{
    s.parse::<i64>().ok()
}

/// The request id a key stands for when the request is no longer known: a
/// number when the key reads as one, else the key itself. The key of a
/// numbered request gives that request back.
pub fn app_server_request_id(value: &str) -> (r: RequestId)
    ensures
        match spec_parse_i64(value@) {
            Some(n) => r == RequestId::Integer(n),
            None => r matches RequestId::String(s) && s@ == value@,
        },
        forall|n: i64| #[trigger] key_of(RequestId::Integer(n)) == value@ ==> r == RequestId::Integer(n),
{
    match parse_i64(value) {
        Some(n) => RequestId::Integer(n),
        None => RequestId::String(value.to_string()),
    }
}

/// The request waiting under a key, which stops waiting; when none waits
/// under it, the request the key stands for.
pub fn take_pending_request(pending: &mut TextMap<RequestId>, request_id: &str) -> (r: RequestId)
    ensures
        final(pending)@ == old(pending)@.remove(request_id@),
        old(pending)@.contains_key(request_id@) ==> r == old(pending)@[request_id@],
        !old(pending)@.contains_key(request_id@) ==> match spec_parse_i64(request_id@) {
            Some(n) => r == RequestId::Integer(n),
            None => r matches RequestId::String(s) && s@ == request_id@,
        },
{
    match pending.take(request_id) {
        Some(id) => id,
        None => app_server_request_id(request_id),
    }
}

/// How the user decided on a command.
#[derive(Debug, Clone)]
pub enum CodexExecApproval {
    Approved,
    ApprovedForSession,
    ApprovedAlways { proposed_amendment: Option<Vec<String>> },
    /// The network policy change accepted, as JSON text.
    NetworkPolicyAmendment { network_policy_amendment: String },
    Abort,
    Denied,
}

/// The app server's decision on a command.
#[derive(Debug, Clone)]
pub enum CommandExecutionApprovalDecision {
    Accept,
    AcceptForSession,
    AcceptWithExecpolicyAmendment { command: Vec<String> },
    ApplyNetworkPolicyAmendment { network_policy_amendment: String },
    Cancel,
    Decline,
}

/// The app server's decision for the user's: approving always with an
/// amendment accepts with it, without one for the session; aborting
/// cancels and denying declines.
pub open spec fn exec_decision(decision: CodexExecApproval) -> CommandExecutionApprovalDecision {
    match decision {
        CodexExecApproval::Approved => CommandExecutionApprovalDecision::Accept,
        CodexExecApproval::ApprovedForSession => CommandExecutionApprovalDecision::AcceptForSession,
        CodexExecApproval::ApprovedAlways { proposed_amendment } => match proposed_amendment {
            Some(command) => CommandExecutionApprovalDecision::AcceptWithExecpolicyAmendment { command },
            None => CommandExecutionApprovalDecision::AcceptForSession,
        },
        CodexExecApproval::NetworkPolicyAmendment { network_policy_amendment } =>
            CommandExecutionApprovalDecision::ApplyNetworkPolicyAmendment { network_policy_amendment },
        CodexExecApproval::Abort => CommandExecutionApprovalDecision::Cancel,
        CodexExecApproval::Denied => CommandExecutionApprovalDecision::Decline,
    }
}

/// The answer to a command approval request.
pub fn exec_approval_response(decision: CodexExecApproval) -> (r: CommandExecutionApprovalDecision)
    ensures
        r == exec_decision(decision),
{
    match decision {
        CodexExecApproval::Approved => CommandExecutionApprovalDecision::Accept,
        CodexExecApproval::ApprovedForSession => CommandExecutionApprovalDecision::AcceptForSession,
        CodexExecApproval::ApprovedAlways { proposed_amendment } => match proposed_amendment {
            Some(command) => CommandExecutionApprovalDecision::AcceptWithExecpolicyAmendment { command },
            None => CommandExecutionApprovalDecision::AcceptForSession,
        },
        CodexExecApproval::NetworkPolicyAmendment { network_policy_amendment } =>
            CommandExecutionApprovalDecision::ApplyNetworkPolicyAmendment { network_policy_amendment },
        CodexExecApproval::Abort => CommandExecutionApprovalDecision::Cancel,
        CodexExecApproval::Denied => CommandExecutionApprovalDecision::Decline,
    }
}

/// How the user decided on a patch.
#[derive(Debug, Clone, Copy, PartialEq, Eq, Structural)]
pub enum CodexPatchApproval {
    Approved,
    ApprovedForSession,
    Abort,
    Denied,
}

/// The app server's decision on a patch.
#[derive(Debug, Clone, Copy, PartialEq, Eq, Structural)]
pub enum FileChangeApprovalDecision {
    Accept,
    AcceptForSession,
    Cancel,
    Decline,
}

/// The answer to a patch approval request: aborting cancels and denying
/// declines.
pub fn patch_approval_response(decision: CodexPatchApproval) -> (r: FileChangeApprovalDecision)
    ensures
        r == match decision {
            CodexPatchApproval::Approved => FileChangeApprovalDecision::Accept,
            CodexPatchApproval::ApprovedForSession => FileChangeApprovalDecision::AcceptForSession,
            CodexPatchApproval::Abort => FileChangeApprovalDecision::Cancel,
            CodexPatchApproval::Denied => FileChangeApprovalDecision::Decline,
        },
{
    match decision {
        CodexPatchApproval::Approved => FileChangeApprovalDecision::Accept,
        CodexPatchApproval::ApprovedForSession => FileChangeApprovalDecision::AcceptForSession,
        CodexPatchApproval::Abort => FileChangeApprovalDecision::Cancel,
        CodexPatchApproval::Denied => FileChangeApprovalDecision::Decline,
    }
}

} // verus!
