//! The state the reducer keeps of one session, and the events it reads.

use crate::approval::ApprovalType;
use crate::text::{opt_string_view, strs_view};
use crate::transition::effects::{opt_request_view, ApprovalRequest, RequestView};
use crate::transition::model::{
    entries_view, opt_strs_view, subagents_view, turn_diffs_view, ConversationRowEntry, EntryView,
    Provider, SubagentInfo, SubagentView, TokenUsage, TokenUsageSnapshotKind, TurnDiff,
    TurnDiffView, WorkStatus,
};
use vstd::prelude::*;

verus! {

/// What a session is doing.
#[derive(Debug, Clone, PartialEq, Eq)]
pub enum WorkPhase {
    Idle,
    Working,
    AwaitingApproval {
        request_id: String,
        approval_type: ApprovalType,
        proposed_amendment: Option<Vec<String>>,
    },
    Ended { reason: String },
}

pub enum PhaseView {
    Idle,
    Working,
    AwaitingApproval {
        request_id: Seq<char>,
        approval_type: ApprovalType,
        proposed_amendment: Option<Seq<Seq<char>>>,
    },
    Ended { reason: Seq<char> },
}

impl View for WorkPhase {
    type V = PhaseView;

    open spec fn view(&self) -> PhaseView {
        match self {
            WorkPhase::Idle => PhaseView::Idle,
            WorkPhase::Working => PhaseView::Working,
            WorkPhase::AwaitingApproval { request_id, approval_type, proposed_amendment } =>
                PhaseView::AwaitingApproval {
                    request_id: request_id@,
                    approval_type: *approval_type,
                    proposed_amendment: opt_strs_view(*proposed_amendment),
                },
            WorkPhase::Ended { reason } => PhaseView::Ended { reason: reason@ },
        }
    }
}

/// The status clients see for a phase: an approval asks a question or a
/// permission.
pub open spec fn work_status_of(phase: PhaseView) -> WorkStatus {
    match phase {
        PhaseView::Idle => WorkStatus::Waiting,
        PhaseView::Working => WorkStatus::Working,
        PhaseView::AwaitingApproval { approval_type, .. } => match approval_type {
            ApprovalType::Question => WorkStatus::Question,
            _ => WorkStatus::Permission,
        },
        PhaseView::Ended { .. } => WorkStatus::Ended,
    }
}

impl WorkPhase {
    /// The status clients see for this phase.
    pub fn to_work_status(&self) -> (r: WorkStatus)
        ensures
            r == work_status_of(self@),
    {
        match self {
            WorkPhase::Idle => WorkStatus::Waiting,
            WorkPhase::Working => WorkStatus::Working,
            WorkPhase::AwaitingApproval { approval_type, .. } => match approval_type {
                ApprovalType::Question => WorkStatus::Question,
                _ => WorkStatus::Permission,
            },
            WorkPhase::Ended { .. } => WorkStatus::Ended,
        }
    }
}

/// Everything the reducer knows of one session.
#[derive(Debug, Clone)]
pub struct TransitionState {
    pub id: String,
    pub provider: Provider,
    pub revision: u64,
    pub phase: WorkPhase,
    pub rows: Vec<ConversationRowEntry>,
    pub total_row_count: u64,
    pub token_usage: TokenUsage,
    pub token_usage_snapshot_kind: TokenUsageSnapshotKind,
    pub current_diff: Option<String>,
    pub current_plan: Option<String>,
    pub custom_name: Option<String>,
    pub project_path: String,
    pub last_activity_at: Option<String>,
    pub last_progress_at: Option<String>,
    pub current_turn_id: Option<String>,
    pub turn_count: u64,
    pub turn_diffs: Vec<TurnDiff>,
    pub git_branch: Option<String>,
    pub git_sha: Option<String>,
    pub current_cwd: Option<String>,
    pub pending_approval: Option<ApprovalRequest>,
    pub repository_root: Option<String>,
    pub is_worktree: bool,
    pub model: Option<String>,
    pub transcript_path: Option<String>,
    pub last_tool: Option<String>,
    pub pending_tool_name: Option<String>,
    pub pending_tool_input: Option<String>,
    pub pending_question: Option<String>,
    pub subagents: Vec<SubagentInfo>,
    pub summary: Option<String>,
    pub effort: Option<String>,
    pub first_prompt: Option<String>,
    /// Token counts of the current turn, reset when a turn starts; apart
    /// from `token_usage`, which counts the whole session.
    pub turn_input_tokens: u64,
    pub turn_output_tokens: u64,
    pub turn_cached_tokens: u64,
    /// The provider's own usage of the turn, when it gives one that is more
    /// accurate than the live snapshots.
    pub turn_usage_snapshot: Option<TokenUsage>,
    pub turn_usage_snapshot_kind: Option<TokenUsageSnapshotKind>,
}

pub struct StateView {
    pub id: Seq<char>,
    pub provider: Provider,
    pub revision: u64,
    pub phase: PhaseView,
    pub rows: Seq<EntryView>,
    pub total_row_count: u64,
    pub token_usage: TokenUsage,
    pub token_usage_snapshot_kind: TokenUsageSnapshotKind,
    pub current_diff: Option<Seq<char>>,
    pub current_plan: Option<Seq<char>>,
    pub custom_name: Option<Seq<char>>,
    pub project_path: Seq<char>,
    pub last_activity_at: Option<Seq<char>>,
    pub last_progress_at: Option<Seq<char>>,
    pub current_turn_id: Option<Seq<char>>,
    pub turn_count: u64,
    pub turn_diffs: Seq<TurnDiffView>,
    pub git_branch: Option<Seq<char>>,
    pub git_sha: Option<Seq<char>>,
    pub current_cwd: Option<Seq<char>>,
    pub pending_approval: Option<RequestView>,
    pub repository_root: Option<Seq<char>>,
    pub is_worktree: bool,
    pub model: Option<Seq<char>>,
    pub transcript_path: Option<Seq<char>>,
    pub last_tool: Option<Seq<char>>,
    pub pending_tool_name: Option<Seq<char>>,
    pub pending_tool_input: Option<Seq<char>>,
    pub pending_question: Option<Seq<char>>,
    pub subagents: Seq<SubagentView>,
    pub summary: Option<Seq<char>>,
    pub effort: Option<Seq<char>>,
    pub first_prompt: Option<Seq<char>>,
    pub turn_input_tokens: u64,
    pub turn_output_tokens: u64,
    pub turn_cached_tokens: u64,
    pub turn_usage_snapshot: Option<TokenUsage>,
    pub turn_usage_snapshot_kind: Option<TokenUsageSnapshotKind>,
}

impl View for TransitionState {
    type V = StateView;

    open spec fn view(&self) -> StateView {
        StateView {
            id: self.id@,
            provider: self.provider,
            revision: self.revision,
            phase: self.phase@,
            rows: entries_view(self.rows@),
            total_row_count: self.total_row_count,
            token_usage: self.token_usage,
            token_usage_snapshot_kind: self.token_usage_snapshot_kind,
            current_diff: opt_string_view(self.current_diff),
            current_plan: opt_string_view(self.current_plan),
            custom_name: opt_string_view(self.custom_name),
            project_path: self.project_path@,
            last_activity_at: opt_string_view(self.last_activity_at),
            last_progress_at: opt_string_view(self.last_progress_at),
            current_turn_id: opt_string_view(self.current_turn_id),
            turn_count: self.turn_count,
            turn_diffs: turn_diffs_view(self.turn_diffs@),
            git_branch: opt_string_view(self.git_branch),
            git_sha: opt_string_view(self.git_sha),
            current_cwd: opt_string_view(self.current_cwd),
            pending_approval: opt_request_view(self.pending_approval),
            repository_root: opt_string_view(self.repository_root),
            is_worktree: self.is_worktree,
            model: opt_string_view(self.model),
            transcript_path: opt_string_view(self.transcript_path),
            last_tool: opt_string_view(self.last_tool),
            pending_tool_name: opt_string_view(self.pending_tool_name),
            pending_tool_input: opt_string_view(self.pending_tool_input),
            pending_question: opt_string_view(self.pending_question),
            subagents: subagents_view(self.subagents@),
            summary: opt_string_view(self.summary),
            effort: opt_string_view(self.effort),
            first_prompt: opt_string_view(self.first_prompt),
            turn_input_tokens: self.turn_input_tokens,
            turn_output_tokens: self.turn_output_tokens,
            turn_cached_tokens: self.turn_cached_tokens,
            turn_usage_snapshot: self.turn_usage_snapshot,
            turn_usage_snapshot_kind: self.turn_usage_snapshot_kind,
        }
    }
}

/// One event for the reducer. Payloads it passes through without reading
/// are JSON text.
#[derive(Debug, Clone)]
pub enum Input {
    TurnStarted,
    TurnCompleted,
    TurnAborted { reason: String },
    RowCreated(ConversationRowEntry),
    RowUpdated { row_id: String, entry: ConversationRowEntry },
    ApprovalRequested {
        request_id: String,
        approval_type: ApprovalType,
        tool_name: Option<String>,
        tool_input: Option<String>,
        command: Option<String>,
        file_path: Option<String>,
        diff: Option<String>,
        question: Option<String>,
        permission_reason: Option<String>,
        requested_permissions: Option<String>,
        proposed_amendment: Option<Vec<String>>,
        permission_suggestions: Option<String>,
        elicitation_mode: Option<String>,
        elicitation_schema: Option<String>,
        elicitation_url: Option<String>,
        elicitation_message: Option<String>,
        mcp_server_name: Option<String>,
        network_host: Option<String>,
        network_protocol: Option<String>,
    },
    TokensUpdated { usage: TokenUsage, snapshot_kind: TokenUsageSnapshotKind },
    TurnUsageUpdated { usage: TokenUsage, snapshot_kind: TokenUsageSnapshotKind },
    DiffUpdated(String),
    PlanUpdated(String),
    ThreadNameUpdated(String),
    SessionEnded { reason: String },
    SkillsList { skills: Vec<String>, errors: Vec<String> },
    SkillsUpdateAvailable,
    McpToolsList {
        tools: String,
        resources: String,
        resource_templates: String,
        auth_statuses: String,
    },
    McpStartupUpdate { server: String, status: String },
    McpStartupComplete { ready: Vec<String>, failed: Vec<String>, cancelled: Vec<String> },
    ClaudeInitialized {
        slash_commands: Vec<String>,
        skills: Vec<String>,
        tools: Vec<String>,
        models: Vec<String>,
    },
    ModelUpdated(String),
    TranscriptPathUpdated(Option<String>),
    AttentionUpdated {
        attention_reason: Option<Option<String>>,
        last_tool: Option<String>,
        pending_tool_name: Option<Option<String>>,
        pending_tool_input: Option<Option<String>>,
        pending_question: Option<Option<String>>,
    },
    SubagentsUpdated { subagents: Vec<SubagentInfo> },
    SummaryUpdated(String),
    EffortUpdated(Option<String>),
    FirstPromptCaptured(String),
    ContextCompacted,
    UndoStarted { message: Option<String> },
    UndoCompleted { success: bool, message: Option<String> },
    ThreadRolledBack { num_turns: u32 },
    ApprovalCancelled { request_id: String },
    PermissionModeChanged { mode: String },
    EnvironmentChanged {
        cwd: Option<String>,
        git_branch: Option<String>,
        git_sha: Option<String>,
        repository_root: Option<String>,
        is_worktree: Option<bool>,
    },
    RateLimitEvent { info: String },
    PromptSuggestion { suggestion: String },
    FilesPersisted { files: Vec<String> },
    Error(String),
}

} // verus!
