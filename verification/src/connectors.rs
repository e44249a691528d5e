//! What every connector shares: the kinds of approval it asks for, the
//! messages it creates and the events it emits.

use crate::text::opt_string_view;
use crate::transition::model::TokenUsage;
use vstd::prelude::*;

verus! {

/// The kind of approval a connector asks for.
#[derive(Debug, Clone, Copy, PartialEq, Eq, Structural)]
pub enum ApprovalType {
    Exec,
    Patch,
    Question,
}

/// The approval type the session reducer uses for a connector's request.
pub fn session_approval_type(t: ApprovalType) -> (r: crate::approval::ApprovalType)
    ensures
        r == match t {
            ApprovalType::Exec => crate::approval::ApprovalType::Exec,
            ApprovalType::Patch => crate::approval::ApprovalType::Patch,
            ApprovalType::Question => crate::approval::ApprovalType::Question,
        },
{
    match t {
        ApprovalType::Exec => crate::approval::ApprovalType::Exec,
        ApprovalType::Patch => crate::approval::ApprovalType::Patch,
        ApprovalType::Question => crate::approval::ApprovalType::Question,
    }
}

/// Who wrote a message, or what it records.
#[derive(Debug, Clone, Copy, PartialEq, Eq, Structural)]
pub enum MessageType {
    User,
    Assistant,
    Thinking,
    Tool,
}

/// A message of a conversation, as a connector creates it.
#[derive(Debug, Clone)]
pub struct Message {
    pub id: String,
    pub session_id: String,
    pub message_type: MessageType,
    pub content: String,
    pub tool_name: Option<String>,
    pub tool_input: Option<String>,
    pub tool_output: Option<String>,
    pub is_error: bool,
    pub timestamp: String,
    pub duration_ms: Option<u64>,
}

/// A message as values.
pub struct MessageView {
    pub id: Seq<char>,
    pub session_id: Seq<char>,
    pub message_type: MessageType,
    pub content: Seq<char>,
    pub tool_name: Option<Seq<char>>,
    pub tool_input: Option<Seq<char>>,
    pub tool_output: Option<Seq<char>>,
    pub is_error: bool,
    pub timestamp: Seq<char>,
    pub duration_ms: Option<u64>,
}

impl View for Message {
    type V = MessageView;

    open spec fn view(&self) -> MessageView {
        MessageView {
            id: self.id@,
            session_id: self.session_id@,
            message_type: self.message_type,
            content: self.content@,
            tool_name: opt_string_view(self.tool_name),
            tool_input: opt_string_view(self.tool_input),
            tool_output: opt_string_view(self.tool_output),
            is_error: self.is_error,
            timestamp: self.timestamp@,
            duration_ms: self.duration_ms,
        }
    }
}

/// An event a connector emits.
#[derive(Debug, Clone)]
pub enum ConnectorEvent {
    TurnStarted,
    TurnCompleted,
    TurnAborted { reason: String },
    MessageCreated(Message),
    MessageUpdated {
        message_id: String,
        content: Option<String>,
        tool_output: Option<String>,
        is_error: Option<bool>,
        duration_ms: Option<u64>,
    },
    ApprovalRequested {
        request_id: String,
        approval_type: ApprovalType,
        command: Option<String>,
        file_path: Option<String>,
        diff: Option<String>,
        question: Option<String>,
    },
    TokensUpdated(TokenUsage),
    DiffUpdated(String),
    PlanUpdated(String),
    SessionEnded { reason: String },
    Error(String),
}

/// A connector event as values.
pub enum EventView {
    TurnStarted,
    TurnCompleted,
    TurnAborted { reason: Seq<char> },
    MessageCreated(MessageView),
    MessageUpdated {
        message_id: Seq<char>,
        content: Option<Seq<char>>,
        tool_output: Option<Seq<char>>,
        is_error: Option<bool>,
        duration_ms: Option<u64>,
    },
    ApprovalRequested {
        request_id: Seq<char>,
        approval_type: ApprovalType,
        command: Option<Seq<char>>,
        file_path: Option<Seq<char>>,
        diff: Option<Seq<char>>,
        question: Option<Seq<char>>,
    },
    TokensUpdated(TokenUsage),
    DiffUpdated(Seq<char>),
    PlanUpdated(Seq<char>),
    SessionEnded { reason: Seq<char> },
    Error(Seq<char>),
}

impl View for ConnectorEvent {
    type V = EventView;

    open spec fn view(&self) -> EventView {
        match self {
            ConnectorEvent::TurnStarted => EventView::TurnStarted,
            ConnectorEvent::TurnCompleted => EventView::TurnCompleted,
            ConnectorEvent::TurnAborted { reason } => EventView::TurnAborted { reason: reason@ },
            ConnectorEvent::MessageCreated(m) => EventView::MessageCreated(m@),
            ConnectorEvent::MessageUpdated { message_id, content, tool_output, is_error, duration_ms } =>
                EventView::MessageUpdated {
                message_id: message_id@,
                content: opt_string_view(*content),
                tool_output: opt_string_view(*tool_output),
                is_error: *is_error,
                duration_ms: *duration_ms,
            },
            ConnectorEvent::ApprovalRequested { request_id, approval_type, command, file_path, diff, question } =>
                EventView::ApprovalRequested {
                request_id: request_id@,
                approval_type: *approval_type,
                command: opt_string_view(*command),
                file_path: opt_string_view(*file_path),
                diff: opt_string_view(*diff),
                question: opt_string_view(*question),
            },
            ConnectorEvent::TokensUpdated(u) => EventView::TokensUpdated(*u),
            ConnectorEvent::DiffUpdated(d) => EventView::DiffUpdated(d@),
            ConnectorEvent::PlanUpdated(p) => EventView::PlanUpdated(p@),
            ConnectorEvent::SessionEnded { reason } => EventView::SessionEnded { reason: reason@ },
            ConnectorEvent::Error(m) => EventView::Error(m@),
        }
    }
}

/// Events as values, in order.
pub open spec fn events_view(v: Seq<ConnectorEvent>) -> Seq<EventView> {
    v.map_values(|e: ConnectorEvent| e@)
}

} // verus!
