//! What a transition asks its caller to do: writes to persist and messages
//! to broadcast, each with its view.

use crate::approval::preview::{ApprovalPreview, PreviewSpec};
use crate::approval::{prompts_view, ApprovalQuestionPrompt, ApprovalType, PromptSpec};
use crate::text::{opt_string_view, strs_view};
use crate::transition::model::{
    entries_view, opt_opt_view, opt_strs_view, subagents_view, ConversationRowEntry, EntryView,
    SessionStatus, SubagentInfo, SubagentView, TokenUsage, TokenUsageSnapshotKind, WorkStatus,
};
use vstd::prelude::*;

verus! {

/// A request for approval, as stored and broadcast. Permission payloads
/// and schemas are JSON text.
#[derive(Debug, Clone)]
pub struct ApprovalRequest {
    pub id: String,
    pub session_id: String,
    pub approval_type: ApprovalType,
    pub tool_name: Option<String>,
    pub tool_input: Option<String>,
    pub command: Option<String>,
    pub file_path: Option<String>,
    pub diff: Option<String>,
    pub question: Option<String>,
    pub question_prompts: Vec<ApprovalQuestionPrompt>,
    pub preview: Option<ApprovalPreview>,
    pub permission_reason: Option<String>,
    pub requested_permissions: Option<String>,
    pub granted_permissions: Option<String>,
    pub proposed_amendment: Option<Vec<String>>,
    pub permission_suggestions: Option<String>,
    pub elicitation_mode: Option<String>,
    pub elicitation_schema: Option<String>,
    pub elicitation_url: Option<String>,
    pub elicitation_message: Option<String>,
    pub mcp_server_name: Option<String>,
    pub network_host: Option<String>,
    pub network_protocol: Option<String>,
}

/// The changes of a session broadcast to clients; `None` leaves a field
/// as it is.
#[derive(Debug, Clone)]
pub struct StateChanges {
    pub work_status: Option<WorkStatus>,
    pub last_activity_at: Option<String>,
    pub last_progress_at: Option<String>,
    pub current_turn_id: Option<Option<String>>,
    pub turn_count: Option<u64>,
    pub current_diff: Option<Option<String>>,
    pub current_plan: Option<Option<String>>,
    pub pending_approval: Option<Option<ApprovalRequest>>,
    pub permission_mode: Option<Option<String>>,
    pub custom_name: Option<Option<String>>,
    pub current_cwd: Option<Option<String>>,
    pub git_branch: Option<Option<String>>,
    pub git_sha: Option<Option<String>>,
    pub repository_root: Option<Option<String>>,
    pub is_worktree: Option<bool>,
    pub model: Option<Option<String>>,
    pub subagents: Option<Vec<SubagentInfo>>,
    pub summary: Option<Option<String>>,
    pub effort: Option<Option<String>>,
    pub first_prompt: Option<Option<String>>,
}

/// A message broadcast to the clients of a session. Payloads the reducer
/// passes through without reading are JSON text.
#[derive(Debug, Clone)]
pub enum ServerMessage {
    SessionDelta { session_id: String, changes: StateChanges },
    ConversationRowsChanged {
        session_id: String,
        upserted: Vec<ConversationRowEntry>,
        removed_row_ids: Vec<String>,
        total_row_count: u64,
    },
    TokensUpdated {
        session_id: String,
        usage: TokenUsage,
        snapshot_kind: TokenUsageSnapshotKind,
    },
    TurnDiffSnapshot {
        session_id: String,
        turn_id: String,
        diff: String,
        input_tokens: Option<u64>,
        output_tokens: Option<u64>,
        cached_tokens: Option<u64>,
        context_window: Option<u64>,
        snapshot_kind: TokenUsageSnapshotKind,
    },
    ApprovalRequested {
        session_id: String,
        request: ApprovalRequest,
        approval_version: Option<u64>,
    },
    SessionEnded { session_id: String, reason: String },
    UndoStarted { session_id: String, message: Option<String> },
    UndoCompleted { session_id: String, success: bool, message: Option<String> },
    ThreadRolledBack { session_id: String, num_turns: u32 },
    ContextCompacted { session_id: String },
    ClaudeCapabilities {
        session_id: String,
        slash_commands: Vec<String>,
        skills: Vec<String>,
        tools: Vec<String>,
        models: Vec<String>,
    },
    SkillsList { session_id: String, skills: Vec<String>, errors: Vec<String> },
    SkillsUpdateAvailable { session_id: String },
    McpToolsList {
        session_id: String,
        tools: String,
        resources: String,
        resource_templates: String,
        auth_statuses: String,
    },
    McpStartupUpdate { session_id: String, server: String, status: String },
    McpStartupComplete {
        session_id: String,
        ready: Vec<String>,
        failed: Vec<String>,
        cancelled: Vec<String>,
    },
    RateLimitEvent { session_id: String, info: String },
    PromptSuggestion { session_id: String, suggestion: String },
    FilesPersisted { session_id: String, files: Vec<String> },
}

/// A write to the session store.
#[derive(Debug, Clone)]
pub enum PersistOp {
    SessionUpdate {
        id: String,
        status: Option<SessionStatus>,
        work_status: Option<WorkStatus>,
        last_activity_at: Option<String>,
        last_progress_at: Option<String>,
    },
    SessionEnd { id: String, reason: String },
    RowAppend { session_id: String, entry: ConversationRowEntry },
    RowUpsert { session_id: String, entry: ConversationRowEntry },
    TokensUpdate {
        session_id: String,
        usage: TokenUsage,
        snapshot_kind: TokenUsageSnapshotKind,
    },
    TurnStateUpdate { session_id: String, diff: Option<String>, plan: Option<String> },
    TurnDiffInsert {
        session_id: String,
        turn_id: String,
        turn_seq: u64,
        diff: Option<String>,
        input_tokens: u64,
        output_tokens: u64,
        cached_tokens: u64,
        context_window: u64,
        snapshot_kind: TokenUsageSnapshotKind,
    },
    SetCustomName { session_id: String, custom_name: Option<String> },
    ApprovalRequested {
        session_id: String,
        request_id: String,
        approval_type: ApprovalType,
        tool_name: Option<String>,
        tool_input: Option<String>,
        command: Option<String>,
        file_path: Option<String>,
        diff: Option<String>,
        question: Option<String>,
        question_prompts: Vec<ApprovalQuestionPrompt>,
        preview: Box<Option<ApprovalPreview>>,
        permission_reason: Option<String>,
        requested_permissions: Option<String>,
        granted_permissions: Option<String>,
        cwd: Option<String>,
        proposed_amendment: Option<Vec<String>>,
        permission_suggestions: Option<String>,
        elicitation_mode: Option<String>,
        elicitation_schema: Option<String>,
        elicitation_url: Option<String>,
        elicitation_message: Option<String>,
        mcp_server_name: Option<String>,
        network_host: Option<String>,
        network_protocol: Option<String>,
    },
    EnvironmentUpdate {
        session_id: String,
        cwd: Option<String>,
        git_branch: Option<String>,
        git_sha: Option<String>,
        repository_root: Option<String>,
        is_worktree: Option<bool>,
    },
    ToolCountIncrement { session_id: String },
    ModelUpdate { session_id: String, model: String },
    PermissionModeUpdate { session_id: String, permission_mode: String },
    SetTranscriptPath { session_id: String, transcript_path: Option<String> },
    AttentionUpdate {
        session_id: String,
        attention_reason: Option<Option<String>>,
        last_tool: Option<Option<String>>,
        last_tool_at: Option<Option<String>>,
        pending_tool_name: Option<Option<String>>,
        pending_tool_input: Option<Option<String>>,
        pending_question: Option<Option<String>>,
    },
    UpsertSubagents { session_id: String, subagents: Vec<SubagentInfo> },
    SetSummary { session_id: String, summary: String },
    EffortUpdate { session_id: String, effort: Option<String> },
    FirstPromptCaptured { session_id: String, first_prompt: String },
}

/// One thing the caller of a transition does.
#[derive(Debug, Clone)]
pub enum Effect {
    Persist(Box<PersistOp>),
    Emit(Box<ServerMessage>),
}

// ---------------------------------------------------------------------------
// Views
// ---------------------------------------------------------------------------

pub struct RequestView {
    pub id: Seq<char>,
    pub session_id: Seq<char>,
    pub approval_type: ApprovalType,
    pub tool_name: Option<Seq<char>>,
    pub tool_input: Option<Seq<char>>,
    pub command: Option<Seq<char>>,
    pub file_path: Option<Seq<char>>,
    pub diff: Option<Seq<char>>,
    pub question: Option<Seq<char>>,
    pub question_prompts: Seq<PromptSpec>,
    pub preview: Option<PreviewSpec>,
    pub permission_reason: Option<Seq<char>>,
    pub requested_permissions: Option<Seq<char>>,
    pub granted_permissions: Option<Seq<char>>,
    pub proposed_amendment: Option<Seq<Seq<char>>>,
    pub permission_suggestions: Option<Seq<char>>,
    pub elicitation_mode: Option<Seq<char>>,
    pub elicitation_schema: Option<Seq<char>>,
    pub elicitation_url: Option<Seq<char>>,
    pub elicitation_message: Option<Seq<char>>,
    pub mcp_server_name: Option<Seq<char>>,
    pub network_host: Option<Seq<char>>,
    pub network_protocol: Option<Seq<char>>,
}

/// The view of an optional preview.
pub open spec fn opt_preview_view(p: Option<ApprovalPreview>) -> Option<PreviewSpec> {
    match p {
        Some(p) => Some(p.preview_view()),
        None => None,
    }
}

impl View for ApprovalRequest {
    type V = RequestView;

    open spec fn view(&self) -> RequestView {
        RequestView {
            id: self.id@,
            session_id: self.session_id@,
            approval_type: self.approval_type,
            tool_name: opt_string_view(self.tool_name),
            tool_input: opt_string_view(self.tool_input),
            command: opt_string_view(self.command),
            file_path: opt_string_view(self.file_path),
            diff: opt_string_view(self.diff),
            question: opt_string_view(self.question),
            question_prompts: prompts_view(self.question_prompts@),
            preview: opt_preview_view(self.preview),
            permission_reason: opt_string_view(self.permission_reason),
            requested_permissions: opt_string_view(self.requested_permissions),
            granted_permissions: opt_string_view(self.granted_permissions),
            proposed_amendment: opt_strs_view(self.proposed_amendment),
            permission_suggestions: opt_string_view(self.permission_suggestions),
            elicitation_mode: opt_string_view(self.elicitation_mode),
            elicitation_schema: opt_string_view(self.elicitation_schema),
            elicitation_url: opt_string_view(self.elicitation_url),
            elicitation_message: opt_string_view(self.elicitation_message),
            mcp_server_name: opt_string_view(self.mcp_server_name),
            network_host: opt_string_view(self.network_host),
            network_protocol: opt_string_view(self.network_protocol),
        }
    }
}

/// The view of an optional request.
pub open spec fn opt_request_view(r: Option<ApprovalRequest>) -> Option<RequestView> {
    match r {
        Some(r) => Some(r@),
        None => None,
    }
}

pub struct ChangesView {
    pub work_status: Option<WorkStatus>,
    pub last_activity_at: Option<Seq<char>>,
    pub last_progress_at: Option<Seq<char>>,
    pub current_turn_id: Option<Option<Seq<char>>>,
    pub turn_count: Option<u64>,
    pub current_diff: Option<Option<Seq<char>>>,
    pub current_plan: Option<Option<Seq<char>>>,
    pub pending_approval: Option<Option<RequestView>>,
    pub permission_mode: Option<Option<Seq<char>>>,
    pub custom_name: Option<Option<Seq<char>>>,
    pub current_cwd: Option<Option<Seq<char>>>,
    pub git_branch: Option<Option<Seq<char>>>,
    pub git_sha: Option<Option<Seq<char>>>,
    pub repository_root: Option<Option<Seq<char>>>,
    pub is_worktree: Option<bool>,
    pub model: Option<Option<Seq<char>>>,
    pub subagents: Option<Seq<SubagentView>>,
    pub summary: Option<Option<Seq<char>>>,
    pub effort: Option<Option<Seq<char>>>,
    pub first_prompt: Option<Option<Seq<char>>>,
}

impl View for StateChanges {
    type V = ChangesView;

    open spec fn view(&self) -> ChangesView {
        ChangesView {
            work_status: self.work_status,
            last_activity_at: opt_string_view(self.last_activity_at),
            last_progress_at: opt_string_view(self.last_progress_at),
            current_turn_id: opt_opt_view(self.current_turn_id),
            turn_count: self.turn_count,
            current_diff: opt_opt_view(self.current_diff),
            current_plan: opt_opt_view(self.current_plan),
            pending_approval: match self.pending_approval {
                Some(p) => Some(opt_request_view(p)),
                None => None,
            },
            permission_mode: opt_opt_view(self.permission_mode),
            custom_name: opt_opt_view(self.custom_name),
            current_cwd: opt_opt_view(self.current_cwd),
            git_branch: opt_opt_view(self.git_branch),
            git_sha: opt_opt_view(self.git_sha),
            repository_root: opt_opt_view(self.repository_root),
            is_worktree: self.is_worktree,
            model: opt_opt_view(self.model),
            subagents: match self.subagents {
                Some(v) => Some(subagents_view(v@)),
                None => None,
            },
            summary: opt_opt_view(self.summary),
            effort: opt_opt_view(self.effort),
            first_prompt: opt_opt_view(self.first_prompt),
        }
    }
}

/// Changes that change nothing.
pub open spec fn no_changes() -> ChangesView {
    ChangesView {
        work_status: None,
        last_activity_at: None,
        last_progress_at: None,
        current_turn_id: None,
        turn_count: None,
        current_diff: None,
        current_plan: None,
        pending_approval: None,
        permission_mode: None,
        custom_name: None,
        current_cwd: None,
        git_branch: None,
        git_sha: None,
        repository_root: None,
        is_worktree: None,
        model: None,
        subagents: None,
        summary: None,
        effort: None,
        first_prompt: None,
    }
}

impl StateChanges {
    /// Changes that change nothing.
    pub fn none() -> (r: StateChanges)
        ensures
            r@ == no_changes(),
    {
        StateChanges {
            work_status: None,
            last_activity_at: None,
            last_progress_at: None,
            current_turn_id: None,
            turn_count: None,
            current_diff: None,
            current_plan: None,
            pending_approval: None,
            permission_mode: None,
            custom_name: None,
            current_cwd: None,
            git_branch: None,
            git_sha: None,
            repository_root: None,
            is_worktree: None,
            model: None,
            subagents: None,
            summary: None,
            effort: None,
            first_prompt: None,
        }
    }
}

pub enum MessageView {
    SessionDelta { session_id: Seq<char>, changes: ChangesView },
    ConversationRowsChanged {
        session_id: Seq<char>,
        upserted: Seq<EntryView>,
        removed_row_ids: Seq<Seq<char>>,
        total_row_count: u64,
    },
    TokensUpdated {
        session_id: Seq<char>,
        usage: TokenUsage,
        snapshot_kind: TokenUsageSnapshotKind,
    },
    TurnDiffSnapshot {
        session_id: Seq<char>,
        turn_id: Seq<char>,
        diff: Seq<char>,
        input_tokens: Option<u64>,
        output_tokens: Option<u64>,
        cached_tokens: Option<u64>,
        context_window: Option<u64>,
        snapshot_kind: TokenUsageSnapshotKind,
    },
    ApprovalRequested {
        session_id: Seq<char>,
        request: RequestView,
        approval_version: Option<u64>,
    },
    SessionEnded { session_id: Seq<char>, reason: Seq<char> },
    UndoStarted { session_id: Seq<char>, message: Option<Seq<char>> },
    UndoCompleted { session_id: Seq<char>, success: bool, message: Option<Seq<char>> },
    ThreadRolledBack { session_id: Seq<char>, num_turns: u32 },
    ContextCompacted { session_id: Seq<char> },
    ClaudeCapabilities {
        session_id: Seq<char>,
        slash_commands: Seq<Seq<char>>,
        skills: Seq<Seq<char>>,
        tools: Seq<Seq<char>>,
        models: Seq<Seq<char>>,
    },
    SkillsList { session_id: Seq<char>, skills: Seq<Seq<char>>, errors: Seq<Seq<char>> },
    SkillsUpdateAvailable { session_id: Seq<char> },
    McpToolsList {
        session_id: Seq<char>,
        tools: Seq<char>,
        resources: Seq<char>,
        resource_templates: Seq<char>,
        auth_statuses: Seq<char>,
    },
    McpStartupUpdate { session_id: Seq<char>, server: Seq<char>, status: Seq<char> },
    McpStartupComplete {
        session_id: Seq<char>,
        ready: Seq<Seq<char>>,
        failed: Seq<Seq<char>>,
        cancelled: Seq<Seq<char>>,
    },
    RateLimitEvent { session_id: Seq<char>, info: Seq<char> },
    PromptSuggestion { session_id: Seq<char>, suggestion: Seq<char> },
    FilesPersisted { session_id: Seq<char>, files: Seq<Seq<char>> },
}

impl View for ServerMessage {
    type V = MessageView;

    open spec fn view(&self) -> MessageView {
        match self {
            ServerMessage::SessionDelta { session_id, changes } => MessageView::SessionDelta {
                session_id: session_id@,
                changes: changes@,
            },
            ServerMessage::ConversationRowsChanged {
                session_id,
                upserted,
                removed_row_ids,
                total_row_count,
            } => MessageView::ConversationRowsChanged {
                session_id: session_id@,
                upserted: entries_view(upserted@),
                removed_row_ids: strs_view(removed_row_ids@),
                total_row_count: *total_row_count,
            },
            ServerMessage::TokensUpdated { session_id, usage, snapshot_kind } =>
                MessageView::TokensUpdated {
                    session_id: session_id@,
                    usage: *usage,
                    snapshot_kind: *snapshot_kind,
                },
            ServerMessage::TurnDiffSnapshot {
                session_id,
                turn_id,
                diff,
                input_tokens,
                output_tokens,
                cached_tokens,
                context_window,
                snapshot_kind,
            } => MessageView::TurnDiffSnapshot {
                session_id: session_id@,
                turn_id: turn_id@,
                diff: diff@,
                input_tokens: *input_tokens,
                output_tokens: *output_tokens,
                cached_tokens: *cached_tokens,
                context_window: *context_window,
                snapshot_kind: *snapshot_kind,
            },
            ServerMessage::ApprovalRequested { session_id, request, approval_version } =>
                MessageView::ApprovalRequested {
                    session_id: session_id@,
                    request: request@,
                    approval_version: *approval_version,
                },
            ServerMessage::SessionEnded { session_id, reason } => MessageView::SessionEnded {
                session_id: session_id@,
                reason: reason@,
            },
            ServerMessage::UndoStarted { session_id, message } => MessageView::UndoStarted {
                session_id: session_id@,
                message: opt_string_view(*message),
            },
            ServerMessage::UndoCompleted { session_id, success, message } =>
                MessageView::UndoCompleted {
                    session_id: session_id@,
                    success: *success,
                    message: opt_string_view(*message),
                },
            ServerMessage::ThreadRolledBack { session_id, num_turns } =>
                MessageView::ThreadRolledBack { session_id: session_id@, num_turns: *num_turns },
            ServerMessage::ContextCompacted { session_id } => MessageView::ContextCompacted {
                session_id: session_id@,
            },
            ServerMessage::ClaudeCapabilities {
                session_id,
                slash_commands,
                skills,
                tools,
                models,
            } => MessageView::ClaudeCapabilities {
                session_id: session_id@,
                slash_commands: strs_view(slash_commands@),
                skills: strs_view(skills@),
                tools: strs_view(tools@),
                models: strs_view(models@),
            },
            ServerMessage::SkillsList { session_id, skills, errors } => MessageView::SkillsList {
                session_id: session_id@,
                skills: strs_view(skills@),
                errors: strs_view(errors@),
            },
            ServerMessage::SkillsUpdateAvailable { session_id } =>
                MessageView::SkillsUpdateAvailable { session_id: session_id@ },
            ServerMessage::McpToolsList {
                session_id,
                tools,
                resources,
                resource_templates,
                auth_statuses,
            } => MessageView::McpToolsList {
                session_id: session_id@,
                tools: tools@,
                resources: resources@,
                resource_templates: resource_templates@,
                auth_statuses: auth_statuses@,
            },
            ServerMessage::McpStartupUpdate { session_id, server, status } =>
                MessageView::McpStartupUpdate {
                    session_id: session_id@,
                    server: server@,
                    status: status@,
                },
            ServerMessage::McpStartupComplete { session_id, ready, failed, cancelled } =>
                MessageView::McpStartupComplete {
                    session_id: session_id@,
                    ready: strs_view(ready@),
                    failed: strs_view(failed@),
                    cancelled: strs_view(cancelled@),
                },
            ServerMessage::RateLimitEvent { session_id, info } => MessageView::RateLimitEvent {
                session_id: session_id@,
                info: info@,
            },
            ServerMessage::PromptSuggestion { session_id, suggestion } =>
                MessageView::PromptSuggestion { session_id: session_id@, suggestion: suggestion@ },
            ServerMessage::FilesPersisted { session_id, files } => MessageView::FilesPersisted {
                session_id: session_id@,
                files: strs_view(files@),
            },
        }
    }
}

pub enum PersistView {
    SessionUpdate {
        id: Seq<char>,
        status: Option<SessionStatus>,
        work_status: Option<WorkStatus>,
        last_activity_at: Option<Seq<char>>,
        last_progress_at: Option<Seq<char>>,
    },
    SessionEnd { id: Seq<char>, reason: Seq<char> },
    RowAppend { session_id: Seq<char>, entry: EntryView },
    RowUpsert { session_id: Seq<char>, entry: EntryView },
    TokensUpdate {
        session_id: Seq<char>,
        usage: TokenUsage,
        snapshot_kind: TokenUsageSnapshotKind,
    },
    TurnStateUpdate {
        session_id: Seq<char>,
        diff: Option<Seq<char>>,
        plan: Option<Seq<char>>,
    },
    TurnDiffInsert {
        session_id: Seq<char>,
        turn_id: Seq<char>,
        turn_seq: u64,
        diff: Option<Seq<char>>,
        input_tokens: u64,
        output_tokens: u64,
        cached_tokens: u64,
        context_window: u64,
        snapshot_kind: TokenUsageSnapshotKind,
    },
    SetCustomName { session_id: Seq<char>, custom_name: Option<Seq<char>> },
    /// The request is persisted field by field; its view gathers them.
    ApprovalRequested {
        session_id: Seq<char>,
        cwd: Option<Seq<char>>,
        request: RequestView,
    },
    EnvironmentUpdate {
        session_id: Seq<char>,
        cwd: Option<Seq<char>>,
        git_branch: Option<Seq<char>>,
        git_sha: Option<Seq<char>>,
        repository_root: Option<Seq<char>>,
        is_worktree: Option<bool>,
    },
    ToolCountIncrement { session_id: Seq<char> },
    ModelUpdate { session_id: Seq<char>, model: Seq<char> },
    PermissionModeUpdate { session_id: Seq<char>, permission_mode: Seq<char> },
    SetTranscriptPath { session_id: Seq<char>, transcript_path: Option<Seq<char>> },
    AttentionUpdate {
        session_id: Seq<char>,
        attention_reason: Option<Option<Seq<char>>>,
        last_tool: Option<Option<Seq<char>>>,
        last_tool_at: Option<Option<Seq<char>>>,
        pending_tool_name: Option<Option<Seq<char>>>,
        pending_tool_input: Option<Option<Seq<char>>>,
        pending_question: Option<Option<Seq<char>>>,
    },
    UpsertSubagents { session_id: Seq<char>, subagents: Seq<SubagentView> },
    SetSummary { session_id: Seq<char>, summary: Seq<char> },
    EffortUpdate { session_id: Seq<char>, effort: Option<Seq<char>> },
    FirstPromptCaptured { session_id: Seq<char>, first_prompt: Seq<char> },
}

impl View for PersistOp {
    type V = PersistView;

    open spec fn view(&self) -> PersistView {
        match self {
            PersistOp::SessionUpdate {
                id,
                status,
                work_status,
                last_activity_at,
                last_progress_at,
            } => PersistView::SessionUpdate {
                id: id@,
                status: *status,
                work_status: *work_status,
                last_activity_at: opt_string_view(*last_activity_at),
                last_progress_at: opt_string_view(*last_progress_at),
            },
            PersistOp::SessionEnd { id, reason } => PersistView::SessionEnd {
                id: id@,
                reason: reason@,
            },
            PersistOp::RowAppend { session_id, entry } => PersistView::RowAppend {
                session_id: session_id@,
                entry: entry@,
            },
            PersistOp::RowUpsert { session_id, entry } => PersistView::RowUpsert {
                session_id: session_id@,
                entry: entry@,
            },
            PersistOp::TokensUpdate { session_id, usage, snapshot_kind } =>
                PersistView::TokensUpdate {
                    session_id: session_id@,
                    usage: *usage,
                    snapshot_kind: *snapshot_kind,
                },
            PersistOp::TurnStateUpdate { session_id, diff, plan } => PersistView::TurnStateUpdate {
                session_id: session_id@,
                diff: opt_string_view(*diff),
                plan: opt_string_view(*plan),
            },
            PersistOp::TurnDiffInsert {
                session_id,
                turn_id,
                turn_seq,
                diff,
                input_tokens,
                output_tokens,
                cached_tokens,
                context_window,
                snapshot_kind,
            } => PersistView::TurnDiffInsert {
                session_id: session_id@,
                turn_id: turn_id@,
                turn_seq: *turn_seq,
                diff: opt_string_view(*diff),
                input_tokens: *input_tokens,
                output_tokens: *output_tokens,
                cached_tokens: *cached_tokens,
                context_window: *context_window,
                snapshot_kind: *snapshot_kind,
            },
            PersistOp::SetCustomName { session_id, custom_name } => PersistView::SetCustomName {
                session_id: session_id@,
                custom_name: opt_string_view(*custom_name),
            },
            PersistOp::ApprovalRequested {
                session_id,
                request_id,
                approval_type,
                tool_name,
                tool_input,
                command,
                file_path,
                diff,
                question,
                question_prompts,
                preview,
                permission_reason,
                requested_permissions,
                granted_permissions,
                cwd,
                proposed_amendment,
                permission_suggestions,
                elicitation_mode,
                elicitation_schema,
                elicitation_url,
                elicitation_message,
                mcp_server_name,
                network_host,
                network_protocol,
            } => PersistView::ApprovalRequested {
                session_id: session_id@,
                cwd: opt_string_view(*cwd),
                request: RequestView {
                    id: request_id@,
                    session_id: session_id@,
                    approval_type: *approval_type,
                    tool_name: opt_string_view(*tool_name),
                    tool_input: opt_string_view(*tool_input),
                    command: opt_string_view(*command),
                    file_path: opt_string_view(*file_path),
                    diff: opt_string_view(*diff),
                    question: opt_string_view(*question),
                    question_prompts: prompts_view(question_prompts@),
                    preview: opt_preview_view(**preview),
                    permission_reason: opt_string_view(*permission_reason),
                    requested_permissions: opt_string_view(*requested_permissions),
                    granted_permissions: opt_string_view(*granted_permissions),
                    proposed_amendment: opt_strs_view(*proposed_amendment),
                    permission_suggestions: opt_string_view(*permission_suggestions),
                    elicitation_mode: opt_string_view(*elicitation_mode),
                    elicitation_schema: opt_string_view(*elicitation_schema),
                    elicitation_url: opt_string_view(*elicitation_url),
                    elicitation_message: opt_string_view(*elicitation_message),
                    mcp_server_name: opt_string_view(*mcp_server_name),
                    network_host: opt_string_view(*network_host),
                    network_protocol: opt_string_view(*network_protocol),
                },
            },
            PersistOp::EnvironmentUpdate {
                session_id,
                cwd,
                git_branch,
                git_sha,
                repository_root,
                is_worktree,
            } => PersistView::EnvironmentUpdate {
                session_id: session_id@,
                cwd: opt_string_view(*cwd),
                git_branch: opt_string_view(*git_branch),
                git_sha: opt_string_view(*git_sha),
                repository_root: opt_string_view(*repository_root),
                is_worktree: *is_worktree,
            },
            PersistOp::ToolCountIncrement { session_id } => PersistView::ToolCountIncrement {
                session_id: session_id@,
            },
            PersistOp::ModelUpdate { session_id, model } => PersistView::ModelUpdate {
                session_id: session_id@,
                model: model@,
            },
            PersistOp::PermissionModeUpdate { session_id, permission_mode } =>
                PersistView::PermissionModeUpdate {
                    session_id: session_id@,
                    permission_mode: permission_mode@,
                },
            PersistOp::SetTranscriptPath { session_id, transcript_path } =>
                PersistView::SetTranscriptPath {
                    session_id: session_id@,
                    transcript_path: opt_string_view(*transcript_path),
                },
            PersistOp::AttentionUpdate {
                session_id,
                attention_reason,
                last_tool,
                last_tool_at,
                pending_tool_name,
                pending_tool_input,
                pending_question,
            } => PersistView::AttentionUpdate {
                session_id: session_id@,
                attention_reason: opt_opt_view(*attention_reason),
                last_tool: opt_opt_view(*last_tool),
                last_tool_at: opt_opt_view(*last_tool_at),
                pending_tool_name: opt_opt_view(*pending_tool_name),
                pending_tool_input: opt_opt_view(*pending_tool_input),
                pending_question: opt_opt_view(*pending_question),
            },
            PersistOp::UpsertSubagents { session_id, subagents } => PersistView::UpsertSubagents {
                session_id: session_id@,
                subagents: subagents_view(subagents@),
            },
            PersistOp::SetSummary { session_id, summary } => PersistView::SetSummary {
                session_id: session_id@,
                summary: summary@,
            },
            PersistOp::EffortUpdate { session_id, effort } => PersistView::EffortUpdate {
                session_id: session_id@,
                effort: opt_string_view(*effort),
            },
            PersistOp::FirstPromptCaptured { session_id, first_prompt } =>
                PersistView::FirstPromptCaptured {
                    session_id: session_id@,
                    first_prompt: first_prompt@,
                },
        }
    }
}

pub enum EffectView {
    Persist(PersistView),
    Emit(MessageView),
}

impl View for Effect {
    type V = EffectView;

    open spec fn view(&self) -> EffectView {
        match self {
            Effect::Persist(op) => EffectView::Persist((**op)@),
            Effect::Emit(msg) => EffectView::Emit((**msg)@),
        }
    }
}

/// The views of a list of effects.
pub open spec fn effects_view(v: Seq<Effect>) -> Seq<EffectView> {
    v.map_values(|e: Effect| e@)
}

} // verus!
