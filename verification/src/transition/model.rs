//! The session data that the reducer reads and writes: conversation rows,
//! token usage, turn diffs and subagents, each with its view.

use crate::text::{opt_string_view, strs_view};
use vstd::prelude::*;

verus! {

/// The provider that runs a session.
#[derive(Debug, Clone, Copy, PartialEq, Eq, Structural)]
pub enum Provider {
    Claude,
    Codex,
}

/// The status of a session as clients see it.
#[derive(Debug, Clone, Copy, PartialEq, Eq, Structural)]
pub enum WorkStatus {
    Working,
    Waiting,
    Permission,
    Question,
    Ended,
}

/// Whether a session is open or closed.
#[derive(Debug, Clone, Copy, PartialEq, Eq, Structural)]
pub enum SessionStatus {
    Active,
    Ended,
}

/// What a token usage snapshot measures.
#[derive(Debug, Clone, Copy, PartialEq, Eq, Structural)]
pub enum TokenUsageSnapshotKind {
    Unknown,
    ContextTurn,
    LifetimeTotals,
    Mixed,
    CompactionReset,
}

/// Token counts of a session or a turn.
#[derive(Debug, Clone, Copy, PartialEq, Eq, Structural, Default)]
pub struct TokenUsage {
    pub input_tokens: u64,
    pub output_tokens: u64,
    pub cached_tokens: u64,
    pub context_window: u64,
}

/// The state of a turn a row belongs to.
#[derive(Debug, Clone, Copy, PartialEq, Eq, Structural)]
pub enum TurnStatus {
    Active,
    InProgress,
    Completed,
    Failed,
    Interrupted,
}

/// The progress of a tool call.
#[derive(Debug, Clone, Copy, PartialEq, Eq, Structural)]
pub enum ToolStatus {
    Pending,
    Running,
    Completed,
    Failed,
    Cancelled,
    NeedsInput,
    Blocked,
}

/// What a tool call does.
#[derive(Debug, Clone, Copy, PartialEq, Eq, Structural)]
pub enum ToolKind {
    Generic,
    Bash,
    Read,
    Edit,
    Write,
    WebSearch,
    ViewImage,
    ImageGeneration,
    McpToolCall,
    DynamicToolCall,
    GuardianAssessment,
    SpawnAgent,
    SendAgentInput,
    ResumeAgent,
    WaitAgent,
    CloseAgent,
    UpdatePlan,
    CompactContext,
    AskUserQuestion,
}

/// The family a tool kind belongs to.
#[derive(Debug, Clone, Copy, PartialEq, Eq, Structural)]
pub enum ToolFamily {
    Generic,
    Shell,
    FileRead,
    FileChange,
    Web,
    Image,
    Mcp,
    Agent,
    Plan,
    Approval,
    Question,
    Context,
}

/// A message row: what a user, the assistant or the system said.
#[derive(Debug, Clone, PartialEq, Eq)]
pub struct MessageRow {
    pub id: String,
    pub content: String,
    pub turn_id: Option<String>,
    pub timestamp: Option<String>,
    pub is_streaming: bool,
}

/// A tool call row. Its invocation and result are JSON text.
#[derive(Debug, Clone, PartialEq, Eq)]
pub struct ToolRow {
    pub id: String,
    pub provider: Provider,
    pub family: ToolFamily,
    pub kind: ToolKind,
    pub status: ToolStatus,
    pub title: String,
    pub subtitle: Option<String>,
    pub summary: Option<String>,
    pub started_at: Option<String>,
    pub ended_at: Option<String>,
    pub duration_ms: Option<u64>,
    pub invocation: String,
    pub result: Option<String>,
}

/// How loud a notice is.
#[derive(Debug, Clone, Copy, PartialEq, Eq, Structural)]
pub enum NoticeRowSeverity {
    Info,
    Warning,
}

/// A notice on the timeline: a title, an optional summary and body.
#[derive(Debug, Clone, PartialEq, Eq)]
pub struct NoticeRow {
    pub id: String,
    pub severity: NoticeRowSeverity,
    pub title: String,
    pub summary: Option<String>,
    pub body: Option<String>,
}

/// A row the reducer carries without reading: its id and its content as
/// JSON text.
#[derive(Debug, Clone, PartialEq, Eq)]
pub struct OpaqueRow {
    pub id: String,
    pub payload: String,
}

/// One row of a conversation.
#[derive(Debug, Clone, PartialEq, Eq)]
pub enum ConversationRow {
    User(MessageRow),
    Assistant(MessageRow),
    Thinking(MessageRow),
    System(MessageRow),
    Tool(ToolRow),
    Notice(NoticeRow),
    Hook(OpaqueRow),
    Handoff(OpaqueRow),
}

/// A row with its place in the session.
#[derive(Debug, Clone, PartialEq, Eq)]
pub struct ConversationRowEntry {
    pub session_id: String,
    pub sequence: u64,
    pub turn_id: Option<String>,
    pub turn_status: TurnStatus,
    pub row: ConversationRow,
}

/// The diff a finished turn left, with its usage.
#[derive(Debug, Clone, PartialEq, Eq)]
pub struct TurnDiff {
    pub turn_id: String,
    pub diff: String,
    pub token_usage: Option<TokenUsage>,
    pub snapshot_kind: Option<TokenUsageSnapshotKind>,
}

/// The state of a subagent.
#[derive(Debug, Clone, Copy, PartialEq, Eq, Structural)]
pub enum SubagentStatus {
    Pending,
    Running,
    Interrupted,
    Completed,
    Failed,
    Shutdown,
    NotFound,
}

/// A subagent of a session.
#[derive(Debug, Clone, PartialEq, Eq)]
pub struct SubagentInfo {
    pub id: String,
    pub agent_type: String,
    pub started_at: String,
    pub ended_at: Option<String>,
    pub provider: Option<Provider>,
    pub label: Option<String>,
    pub status: SubagentStatus,
    pub task_summary: Option<String>,
    pub result_summary: Option<String>,
    pub error_summary: Option<String>,
    pub parent_subagent_id: Option<String>,
    pub model: Option<String>,
    pub last_activity_at: Option<String>,
}

// ---------------------------------------------------------------------------
// Views
// ---------------------------------------------------------------------------

pub struct MessageRowView {
    pub id: Seq<char>,
    pub content: Seq<char>,
    pub turn_id: Option<Seq<char>>,
    pub timestamp: Option<Seq<char>>,
    pub is_streaming: bool,
}

impl View for MessageRow {
    type V = MessageRowView;

    open spec fn view(&self) -> MessageRowView {
        MessageRowView {
            id: self.id@,
            content: self.content@,
            turn_id: opt_string_view(self.turn_id),
            timestamp: opt_string_view(self.timestamp),
            is_streaming: self.is_streaming,
        }
    }
}

pub struct ToolRowView {
    pub id: Seq<char>,
    pub provider: Provider,
    pub family: ToolFamily,
    pub kind: ToolKind,
    pub status: ToolStatus,
    pub title: Seq<char>,
    pub subtitle: Option<Seq<char>>,
    pub summary: Option<Seq<char>>,
    pub started_at: Option<Seq<char>>,
    pub ended_at: Option<Seq<char>>,
    pub duration_ms: Option<u64>,
    pub invocation: Seq<char>,
    pub result: Option<Seq<char>>,
}

impl View for ToolRow {
    type V = ToolRowView;

    open spec fn view(&self) -> ToolRowView {
        ToolRowView {
            id: self.id@,
            provider: self.provider,
            family: self.family,
            kind: self.kind,
            status: self.status,
            title: self.title@,
            subtitle: opt_string_view(self.subtitle),
            summary: opt_string_view(self.summary),
            started_at: opt_string_view(self.started_at),
            ended_at: opt_string_view(self.ended_at),
            duration_ms: self.duration_ms,
            invocation: self.invocation@,
            result: opt_string_view(self.result),
        }
    }
}

pub struct NoticeRowView {
    pub id: Seq<char>,
    pub severity: NoticeRowSeverity,
    pub title: Seq<char>,
    pub summary: Option<Seq<char>>,
    pub body: Option<Seq<char>>,
}

impl View for NoticeRow {
    type V = NoticeRowView;

    open spec fn view(&self) -> NoticeRowView {
        NoticeRowView {
            id: self.id@,
            severity: self.severity,
            title: self.title@,
            summary: opt_string_view(self.summary),
            body: opt_string_view(self.body),
        }
    }
}

pub enum RowView {
    User(MessageRowView),
    Assistant(MessageRowView),
    Thinking(MessageRowView),
    System(MessageRowView),
    Tool(ToolRowView),
    Notice(NoticeRowView),
    Hook(Seq<char>, Seq<char>),
    Handoff(Seq<char>, Seq<char>),
}

impl View for ConversationRow {
    type V = RowView;

    open spec fn view(&self) -> RowView {
        match self {
            ConversationRow::User(m) => RowView::User(m@),
            ConversationRow::Assistant(m) => RowView::Assistant(m@),
            ConversationRow::Thinking(m) => RowView::Thinking(m@),
            ConversationRow::System(m) => RowView::System(m@),
            ConversationRow::Tool(t) => RowView::Tool(t@),
            ConversationRow::Notice(n) => RowView::Notice(n@),
            ConversationRow::Hook(o) => RowView::Hook(o.id@, o.payload@),
            ConversationRow::Handoff(o) => RowView::Handoff(o.id@, o.payload@),
        }
    }
}

impl RowView {
    /// The id of the row.
    pub open spec fn id(self) -> Seq<char> {
        match self {
            RowView::User(m) => m.id,
            RowView::Assistant(m) => m.id,
            RowView::Thinking(m) => m.id,
            RowView::System(m) => m.id,
            RowView::Tool(t) => t.id,
            RowView::Notice(n) => n.id,
            RowView::Hook(id, _) => id,
            RowView::Handoff(id, _) => id,
        }
    }
}

pub struct EntryView {
    pub session_id: Seq<char>,
    pub sequence: u64,
    pub turn_id: Option<Seq<char>>,
    pub turn_status: TurnStatus,
    pub row: RowView,
}

impl View for ConversationRowEntry {
    type V = EntryView;

    open spec fn view(&self) -> EntryView {
        EntryView {
            session_id: self.session_id@,
            sequence: self.sequence,
            turn_id: opt_string_view(self.turn_id),
            turn_status: self.turn_status,
            row: self.row@,
        }
    }
}

impl ConversationRow {
    /// The id of the row.
    pub fn id(&self) -> (r: &str)
        ensures
            r@ == self@.id(),
    {
        match self {
            ConversationRow::User(m) => m.id.as_str(),
            ConversationRow::Assistant(m) => m.id.as_str(),
            ConversationRow::Thinking(m) => m.id.as_str(),
            ConversationRow::System(m) => m.id.as_str(),
            ConversationRow::Tool(t) => t.id.as_str(),
            ConversationRow::Notice(n) => n.id.as_str(),
            ConversationRow::Hook(o) => o.id.as_str(),
            ConversationRow::Handoff(o) => o.id.as_str(),
        }
    }
}

impl ConversationRowEntry {
    /// The id of the entry's row.
    pub fn id(&self) -> (r: &str)
        ensures
            r@ == self@.row.id(),
    {
        self.row.id()
    }
}

/// The views of a list of entries.
pub open spec fn entries_view(v: Seq<ConversationRowEntry>) -> Seq<EntryView> {
    v.map_values(|e: ConversationRowEntry| e@)
}

pub struct TurnDiffView {
    pub turn_id: Seq<char>,
    pub diff: Seq<char>,
    pub token_usage: Option<TokenUsage>,
    pub snapshot_kind: Option<TokenUsageSnapshotKind>,
}

impl View for TurnDiff {
    type V = TurnDiffView;

    open spec fn view(&self) -> TurnDiffView {
        TurnDiffView {
            turn_id: self.turn_id@,
            diff: self.diff@,
            token_usage: self.token_usage,
            snapshot_kind: self.snapshot_kind,
        }
    }
}

/// The views of a list of turn diffs.
pub open spec fn turn_diffs_view(v: Seq<TurnDiff>) -> Seq<TurnDiffView> {
    v.map_values(|d: TurnDiff| d@)
}

pub struct SubagentView {
    pub id: Seq<char>,
    pub agent_type: Seq<char>,
    pub started_at: Seq<char>,
    pub ended_at: Option<Seq<char>>,
    pub provider: Option<Provider>,
    pub label: Option<Seq<char>>,
    pub status: SubagentStatus,
    pub task_summary: Option<Seq<char>>,
    pub result_summary: Option<Seq<char>>,
    pub error_summary: Option<Seq<char>>,
    pub parent_subagent_id: Option<Seq<char>>,
    pub model: Option<Seq<char>>,
    pub last_activity_at: Option<Seq<char>>,
}

impl View for SubagentInfo {
    type V = SubagentView;

    open spec fn view(&self) -> SubagentView {
        SubagentView {
            id: self.id@,
            agent_type: self.agent_type@,
            started_at: self.started_at@,
            ended_at: opt_string_view(self.ended_at),
            provider: self.provider,
            label: opt_string_view(self.label),
            status: self.status,
            task_summary: opt_string_view(self.task_summary),
            result_summary: opt_string_view(self.result_summary),
            error_summary: opt_string_view(self.error_summary),
            parent_subagent_id: opt_string_view(self.parent_subagent_id),
            model: opt_string_view(self.model),
            last_activity_at: opt_string_view(self.last_activity_at),
        }
    }
}

/// The views of a list of subagents.
pub open spec fn subagents_view(v: Seq<SubagentInfo>) -> Seq<SubagentView> {
    v.map_values(|s: SubagentInfo| s@)
}

/// The view of an optional list of strings.
pub open spec fn opt_strs_view(o: Option<Vec<String>>) -> Option<Seq<Seq<char>>> {
    match o {
        Some(v) => Some(strs_view(v@)),
        None => None,
    }
}

/// The view of a field that may set a value, clear it, or leave it.
pub open spec fn opt_opt_view(o: Option<Option<String>>) -> Option<Option<Seq<char>>> {
    match o {
        Some(inner) => Some(opt_string_view(inner)),
        None => None,
    }
}

} // verus!
