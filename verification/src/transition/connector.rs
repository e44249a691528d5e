//! The events connectors send, and how the reducer takes them.

use crate::approval::ApprovalType;
use crate::transition::model::{
    ConversationRowEntry, SubagentInfo, TokenUsage, TokenUsageSnapshotKind,
};
use crate::transition::state::Input;
use vstd::prelude::*;

verus! {

/// An event a connector sends that changes session state. Payloads the
/// reducer passes through without reading are JSON text.
#[derive(Debug, Clone)]
pub enum ConnectorStateEvent {
    TurnStarted,
    TurnCompleted,
    TurnAborted { reason: String },
    ConversationRowCreated(ConversationRowEntry),
    ConversationRowUpdated { row_id: String, entry: ConversationRowEntry },
    ApprovalRequested {
        request_id: String,
        approval_type: ApprovalType,
        tool_name: Option<String>,
        tool_input: Option<String>,
        command: Option<String>,
        file_path: Option<String>,
        diff: Option<String>,
        question: Option<String>,
        permission_reason: Option<String>,
        requested_permissions: Option<String>,
        proposed_amendment: Option<Vec<String>>,
        permission_suggestions: Option<String>,
        elicitation_mode: Option<String>,
        elicitation_schema: Option<String>,
        elicitation_url: Option<String>,
        elicitation_message: Option<String>,
        mcp_server_name: Option<String>,
        network_host: Option<String>,
        network_protocol: Option<String>,
    },
    TokensUpdated { usage: TokenUsage, snapshot_kind: TokenUsageSnapshotKind },
    TurnUsageUpdated { usage: TokenUsage, snapshot_kind: TokenUsageSnapshotKind },
    DiffUpdated(String),
    PlanUpdated(String),
    ThreadNameUpdated(String),
    SessionEnded { reason: String },
    SkillsList { skills: Vec<String>, errors: Vec<String> },
    SkillsUpdateAvailable,
    McpToolsList {
        tools: String,
        resources: String,
        resource_templates: String,
        auth_statuses: String,
    },
    McpStartupUpdate { server: String, status: String },
    McpStartupComplete { ready: Vec<String>, failed: Vec<String>, cancelled: Vec<String> },
    ClaudeInitialized {
        slash_commands: Vec<String>,
        skills: Vec<String>,
        tools: Vec<String>,
        models: Vec<String>,
    },
    ModelUpdated(String),
    ContextCompacted,
    UndoStarted { message: Option<String> },
    UndoCompleted { success: bool, message: Option<String> },
    ThreadRolledBack { num_turns: u32 },
    EnvironmentChanged { cwd: Option<String>, git_branch: Option<String>, git_sha: Option<String> },
    ApprovalCancelled { request_id: String },
    PermissionModeChanged { mode: String },
    RateLimitEvent { info: String },
    PromptSuggestion { suggestion: String },
    FilesPersisted { files: Vec<String> },
    Error(String),
    SubagentsUpdated { subagents: Vec<SubagentInfo> },
}

/// A directive for the connector's runtime, not for session state.
#[derive(Debug, Clone)]
pub enum ConnectorRuntimeDirective {
    HookSessionId(String),
    /// A dynamic tool call the runtime must answer; its arguments are JSON
    /// text.
    DynamicToolCallRequested { call_id: String, tool_name: String, arguments: String },
}

/// An effect on a connector's transport, not on session state.
#[derive(Debug, Clone)]
pub enum ConnectorTransportEffect {
    ToolPtyCreated { tool_id: String },
    ToolPtyOutput { tool_id: String, bytes: Vec<u8> },
    ToolPtyExited { tool_id: String, exit_code: Option<i32> },
}

/// What a connector sends, by lane: state events for the reducer, runtime
/// directives and transport effects for others.
#[derive(Debug, Clone)]
pub enum ConnectorOutput {
    State(ConnectorStateEvent),
    Runtime(ConnectorRuntimeDirective),
    Transport(ConnectorTransportEffect),
}

impl ConnectorOutput {
    /// The state event, when the output is one.
    pub fn as_state_event(&self) -> (r: Option<&ConnectorStateEvent>)
        ensures
            match self {
                ConnectorOutput::State(e) => r == Some(e),
                _ => r is None,
            },
    {
        match self {
            ConnectorOutput::State(event) => Some(event),
            _ => None,
        }
    }

    /// The state event, or the output itself when it is of another lane.
    pub fn into_state_event(self) -> (r: Result<ConnectorStateEvent, ConnectorOutput>)
        ensures
            match self {
                ConnectorOutput::State(e) => r == Ok::<ConnectorStateEvent, ConnectorOutput>(e),
                _ => r == Err::<ConnectorStateEvent, ConnectorOutput>(self),
            },
    {
        match self {
            ConnectorOutput::State(event) => Ok(event),
            other => Err(other),
        }
    }
}

impl From<ConnectorStateEvent> for ConnectorOutput {
    fn from(event: ConnectorStateEvent) -> (r: ConnectorOutput) {
        ConnectorOutput::State(event)
    }
}

impl vstd::std_specs::convert::FromSpecImpl<ConnectorStateEvent> for ConnectorOutput {
    open spec fn obeys_from_spec() -> bool {
        true
    }

    open spec fn from_spec(event: ConnectorStateEvent) -> ConnectorOutput {
        ConnectorOutput::State(event)
    }
}

/// The reducer's event for a connector's state event: the same event under
/// the reducer's names; an environment change carries no repository root
/// or worktree flag.
pub open spec fn input_of_event(event: ConnectorStateEvent) -> Input {
    match event {
        ConnectorStateEvent::TurnStarted => Input::TurnStarted,
        ConnectorStateEvent::TurnCompleted => Input::TurnCompleted,
        ConnectorStateEvent::TurnAborted { reason } => Input::TurnAborted { reason },
        ConnectorStateEvent::ConversationRowCreated(entry) => Input::RowCreated(entry),
        ConnectorStateEvent::ConversationRowUpdated { row_id, entry } => Input::RowUpdated { row_id, entry },
        ConnectorStateEvent::ApprovalRequested {
            request_id,
            approval_type,
            tool_name,
            tool_input,
            command,
            file_path,
            diff,
            question,
            permission_reason,
            requested_permissions,
            proposed_amendment,
            permission_suggestions,
            elicitation_mode,
            elicitation_schema,
            elicitation_url,
            elicitation_message,
            mcp_server_name,
            network_host,
            network_protocol,
        } => Input::ApprovalRequested {
            request_id,
            approval_type,
            tool_name,
            tool_input,
            command,
            file_path,
            diff,
            question,
            permission_reason,
            requested_permissions,
            proposed_amendment,
            permission_suggestions,
            elicitation_mode,
            elicitation_schema,
            elicitation_url,
            elicitation_message,
            mcp_server_name,
            network_host,
            network_protocol,
        },
        ConnectorStateEvent::TokensUpdated { usage, snapshot_kind } => Input::TokensUpdated { usage, snapshot_kind },
        ConnectorStateEvent::TurnUsageUpdated { usage, snapshot_kind } => Input::TurnUsageUpdated { usage, snapshot_kind },
        ConnectorStateEvent::DiffUpdated(diff) => Input::DiffUpdated(diff),
        ConnectorStateEvent::PlanUpdated(plan) => Input::PlanUpdated(plan),
        ConnectorStateEvent::ThreadNameUpdated(name) => Input::ThreadNameUpdated(name),
        ConnectorStateEvent::SessionEnded { reason } => Input::SessionEnded { reason },
        ConnectorStateEvent::SkillsList { skills, errors } => Input::SkillsList { skills, errors },
        ConnectorStateEvent::SkillsUpdateAvailable => Input::SkillsUpdateAvailable,
        ConnectorStateEvent::McpToolsList { tools, resources, resource_templates, auth_statuses } => Input::McpToolsList { tools, resources, resource_templates, auth_statuses },
        ConnectorStateEvent::McpStartupUpdate { server, status } => Input::McpStartupUpdate { server, status },
        ConnectorStateEvent::McpStartupComplete { ready, failed, cancelled } => Input::McpStartupComplete { ready, failed, cancelled },
        ConnectorStateEvent::ClaudeInitialized { slash_commands, skills, tools, models } => Input::ClaudeInitialized { slash_commands, skills, tools, models },
        ConnectorStateEvent::ModelUpdated(model) => Input::ModelUpdated(model),
        ConnectorStateEvent::ContextCompacted => Input::ContextCompacted,
        ConnectorStateEvent::UndoStarted { message } => Input::UndoStarted { message },
        ConnectorStateEvent::UndoCompleted { success, message } => Input::UndoCompleted { success, message },
        ConnectorStateEvent::ThreadRolledBack { num_turns } => Input::ThreadRolledBack { num_turns },
        ConnectorStateEvent::EnvironmentChanged { cwd, git_branch, git_sha } => Input::EnvironmentChanged {
            cwd,
            git_branch,
            git_sha,
            repository_root: None,
            is_worktree: None,
        },
        ConnectorStateEvent::ApprovalCancelled { request_id } => Input::ApprovalCancelled { request_id },
        ConnectorStateEvent::PermissionModeChanged { mode } => Input::PermissionModeChanged { mode },
        ConnectorStateEvent::RateLimitEvent { info } => Input::RateLimitEvent { info },
        ConnectorStateEvent::PromptSuggestion { suggestion } => Input::PromptSuggestion { suggestion },
        ConnectorStateEvent::FilesPersisted { files } => Input::FilesPersisted { files },
        ConnectorStateEvent::Error(message) => Input::Error(message),
        ConnectorStateEvent::SubagentsUpdated { subagents } => Input::SubagentsUpdated { subagents },
    }
}

impl From<ConnectorStateEvent> for Input {
    fn from(event: ConnectorStateEvent) -> (r: Input) {
        match event {
            ConnectorStateEvent::TurnStarted => Input::TurnStarted,
            ConnectorStateEvent::TurnCompleted => Input::TurnCompleted,
            ConnectorStateEvent::TurnAborted { reason } => Input::TurnAborted { reason },
            ConnectorStateEvent::ConversationRowCreated(entry) => Input::RowCreated(entry),
            ConnectorStateEvent::ConversationRowUpdated { row_id, entry } => Input::RowUpdated { row_id, entry },
            ConnectorStateEvent::ApprovalRequested {
                request_id,
                approval_type,
                tool_name,
                tool_input,
                command,
                file_path,
                diff,
                question,
                permission_reason,
                requested_permissions,
                proposed_amendment,
                permission_suggestions,
                elicitation_mode,
                elicitation_schema,
                elicitation_url,
                elicitation_message,
                mcp_server_name,
                network_host,
                network_protocol,
            } => Input::ApprovalRequested {
                request_id,
                approval_type,
                tool_name,
                tool_input,
                command,
                file_path,
                diff,
                question,
                permission_reason,
                requested_permissions,
                proposed_amendment,
                permission_suggestions,
                elicitation_mode,
                elicitation_schema,
                elicitation_url,
                elicitation_message,
                mcp_server_name,
                network_host,
                network_protocol,
            },
            ConnectorStateEvent::TokensUpdated { usage, snapshot_kind } => Input::TokensUpdated { usage, snapshot_kind },
            ConnectorStateEvent::TurnUsageUpdated { usage, snapshot_kind } => Input::TurnUsageUpdated { usage, snapshot_kind },
            ConnectorStateEvent::DiffUpdated(diff) => Input::DiffUpdated(diff),
            ConnectorStateEvent::PlanUpdated(plan) => Input::PlanUpdated(plan),
            ConnectorStateEvent::ThreadNameUpdated(name) => Input::ThreadNameUpdated(name),
            ConnectorStateEvent::SessionEnded { reason } => Input::SessionEnded { reason },
            ConnectorStateEvent::SkillsList { skills, errors } => Input::SkillsList { skills, errors },
            ConnectorStateEvent::SkillsUpdateAvailable => Input::SkillsUpdateAvailable,
            ConnectorStateEvent::McpToolsList { tools, resources, resource_templates, auth_statuses } => Input::McpToolsList { tools, resources, resource_templates, auth_statuses },
            ConnectorStateEvent::McpStartupUpdate { server, status } => Input::McpStartupUpdate { server, status },
            ConnectorStateEvent::McpStartupComplete { ready, failed, cancelled } => Input::McpStartupComplete { ready, failed, cancelled },
            ConnectorStateEvent::ClaudeInitialized { slash_commands, skills, tools, models } => Input::ClaudeInitialized { slash_commands, skills, tools, models },
            ConnectorStateEvent::ModelUpdated(model) => Input::ModelUpdated(model),
            ConnectorStateEvent::ContextCompacted => Input::ContextCompacted,
            ConnectorStateEvent::UndoStarted { message } => Input::UndoStarted { message },
            ConnectorStateEvent::UndoCompleted { success, message } => Input::UndoCompleted { success, message },
            ConnectorStateEvent::ThreadRolledBack { num_turns } => Input::ThreadRolledBack { num_turns },
            ConnectorStateEvent::EnvironmentChanged { cwd, git_branch, git_sha } => Input::EnvironmentChanged {
            cwd,
            git_branch,
            git_sha,
            repository_root: None,
            is_worktree: None,
        },
            ConnectorStateEvent::ApprovalCancelled { request_id } => Input::ApprovalCancelled { request_id },
            ConnectorStateEvent::PermissionModeChanged { mode } => Input::PermissionModeChanged { mode },
            ConnectorStateEvent::RateLimitEvent { info } => Input::RateLimitEvent { info },
            ConnectorStateEvent::PromptSuggestion { suggestion } => Input::PromptSuggestion { suggestion },
            ConnectorStateEvent::FilesPersisted { files } => Input::FilesPersisted { files },
            ConnectorStateEvent::Error(message) => Input::Error(message),
            ConnectorStateEvent::SubagentsUpdated { subagents } => Input::SubagentsUpdated { subagents },
        }
    }
}

impl vstd::std_specs::convert::FromSpecImpl<ConnectorStateEvent> for Input {
    open spec fn obeys_from_spec() -> bool {
        true
    }

    open spec fn from_spec(event: ConnectorStateEvent) -> Input {
        input_of_event(event)
    }
}

impl TryFrom<ConnectorOutput> for Input {
    type Error = ConnectorOutput;

    fn try_from(output: ConnectorOutput) -> (r: Result<Input, ConnectorOutput>) {
        match output.into_state_event() {
            Ok(event) => Ok(Input::from(event)),
            Err(other) => Err(other),
        }
    }
}

impl vstd::std_specs::convert::TryFromSpecImpl<ConnectorOutput> for Input {
    open spec fn obeys_try_from_spec() -> bool {
        true
    }

    open spec fn try_from_spec(output: ConnectorOutput) -> Result<Input, ConnectorOutput> {
        match output {
            ConnectorOutput::State(e) => Ok(input_of_event(e)),
            _ => Err(output),
        }
    }
}

} // verus!
