//! How the app server's notifications change a session route and what they
//! send: turns start and end, streamed text is buffered and shown, items
//! become rows, answered requests stop waiting.

use crate::codex::app_server::{
    approval_request_view, expected_approval, id_of, key_of, request_key, request_outputs, RequestId, ServerRequest,
};
use crate::codex::format::output_buffer_key;
use crate::codex::item_mapping::{after_output, buffer_key, buffered_output, item_outputs, map_item, StreamingMessage, ThreadItem};
use crate::codex::item_rows::{map_terminal_interaction, string_bytes, tool_output, tool_row_outputs};
use crate::codex::notification_rows::{
    guardian_review_tool_row, guardian_row, hook_row_json, hook_row_text, plan_text,
    run_went_wrong, startup_status_json, startup_status_text, turn_plan_text, AppServerHookRun,
    GuardianApprovalReview, McpServerStartupState, TurnPlanStep,
};
use crate::codex::signals::{
    adds_row, apply_delta_thinking, bare_entry, clamped, map_token_usage, replaces_row,
    reroute_text, row_created_output, row_entry, row_updated_output, stamped_message,
    state_output, thinking_entry, usage_outputs, DeltaBuffers, ThreadTokenUsage,
};
use crate::codex::warnings::{map_warning, suppressed_warning, warning_entry};
use crate::json::{json_int, json_int_text};
use crate::keyed::TextMap;
use crate::text::{concat3, concat_str, copy_string, opt_string_view, trim, trim_str};
use crate::transition::connector::{ConnectorOutput, ConnectorStateEvent, ConnectorTransportEffect};
use crate::transition::model::{
    ConversationRow, MessageRow, MessageRowView, OpaqueRow, RowView, ToolFamily, ToolKind,
};
use vstd::prelude::*;

verus! {

/// How long streamed assistant text waits before it is sent again, in
/// milliseconds.
pub const STREAM_THROTTLE_MS: u64 = 50;

/// How a turn ended, as the app server reports it.
#[derive(Debug, Clone)]
pub enum TurnOutcome {
    Completed,
    Interrupted,
    Failed { error: Option<String> },
    InProgress,
}

/// A notification of the app server, with what the connector reads of it.
/// The action an automatic review looked at is JSON text; the reason of a
/// model reroute is its name.
#[derive(Debug)]
pub enum ServerNotification {
    TurnStarted { turn_id: String },
    TurnCompleted { status: TurnOutcome },
    HookStarted { run: AppServerHookRun },
    HookCompleted { run: AppServerHookRun },
    ThreadStatusChanged,
    ThreadClosed,
    ThreadNameUpdated { thread_name: Option<String> },
    ThreadTokenUsageUpdated { token_usage: ThreadTokenUsage },
    TurnDiffUpdated { diff: String },
    TurnPlanUpdated { explanation: Option<String>, plan: Vec<TurnPlanStep> },
    AgentMessageDelta { item_id: String, delta: String },
    PlanDelta { item_id: String, delta: String },
    ReasoningSummaryTextDelta { item_id: String, summary_index: i64, delta: String },
    ReasoningTextDelta { item_id: String, content_index: i64, delta: String },
    ItemStarted { item: ThreadItem },
    ItemCompleted { item: ThreadItem },
    ItemGuardianApprovalReviewStarted {
        review_id: String,
        target_item_id: Option<String>,
        review: GuardianApprovalReview,
        action: String,
    },
    ItemGuardianApprovalReviewCompleted {
        review_id: String,
        target_item_id: Option<String>,
        review: GuardianApprovalReview,
        action: String,
    },
    ReasoningSummaryPartAdded,
    CommandExecutionOutputDelta { item_id: String, delta: String },
    TerminalInteraction { item_id: String, stdin: String },
    FileChangeOutputDelta { item_id: String, delta: String },
    ServerRequestResolved { request_id: RequestId },
    SkillsChanged,
    McpServerStatusUpdated { name: String, status: McpServerStartupState, error: Option<String> },
    Error { message: String, will_retry: bool },
    ContextCompacted,
    ModelRerouted { turn_id: String, from_model: String, to_model: String, reason: String },
    Warning { message: String },
    Other,
}

/// What a session route keeps between the app server's messages: the turn
/// under way, the requests waiting for an answer, the text streamed so far
/// and the assistant message being streamed.
pub struct AppServerRoute {
    pub active_turn_id: Option<String>,
    pub pending_requests: TextMap<RequestId>,
    pub buffers: DeltaBuffers,
    pub streaming_message: Option<StreamingMessage>,
}

/// The assistant message being streamed, as values.
pub struct StreamView {
    pub message_id: Seq<char>,
    pub content: Seq<char>,
    pub last_broadcast_ms: u64,
}

/// A session route as values.
pub struct RouteView {
    pub active_turn_id: Option<Seq<char>>,
    pub pending: Map<Seq<char>, RequestId>,
    pub buffers: Map<Seq<char>, Seq<char>>,
    pub streaming: Option<StreamView>,
}

/// The streamed message, as values.
pub open spec fn stream_view(o: Option<StreamingMessage>) -> Option<StreamView> {
    match o {
        Some(s) => Some(
            StreamView { message_id: s.message_id@, content: s.content@, last_broadcast_ms: s.last_broadcast_ms },
        ),
        None => None,
    }
}

impl View for AppServerRoute {
    type V = RouteView;

    open spec fn view(&self) -> RouteView {
        RouteView {
            active_turn_id: opt_string_view(self.active_turn_id),
            pending: self.pending_requests@,
            buffers: self.buffers@,
            streaming: stream_view(self.streaming_message),
        }
    }
}

impl AppServerRoute {
    /// A route with no turn, no request waiting and nothing streamed.
    pub fn new() -> (r: Self)
        ensures
            r@.active_turn_id is None,
            r@.pending == Map::<Seq<char>, RequestId>::empty(),
            r@.buffers == Map::<Seq<char>, Seq<char>>::empty(),
            r@.streaming is None,
    {
        AppServerRoute {
            active_turn_id: None,
            pending_requests: TextMap::new(),
            buffers: DeltaBuffers::new(),
            streaming_message: None,
        }
    }
}

/// A piece of streamed thinking text under `id`: the first piece adds its
/// row, a later one replaces the row with all the text so far.
pub open spec fn thinking_delta(
    b0: Map<Seq<char>, Seq<char>>,
    b1: Map<Seq<char>, Seq<char>>,
    id: Seq<char>,
    delta: Seq<char>,
    now: Seq<char>,
    r: Seq<ConnectorOutput>,
) -> bool {
    &&& r.len() == 1
    &&& b0.contains_key(id) ==> {
        let text = b0[id] + delta;
        &&& b1 == b0.insert(id, text)
        &&& replaces_row(r[0], id, thinking_entry(id, text, now))
    }
    &&& !b0.contains_key(id) ==> {
        &&& b1 == b0.insert(id, delta)
        &&& adds_row(r[0], thinking_entry(id, delta, now))
    }
}

/// The buffers with `delta` added to the text under `key`, which starts
/// empty.
pub open spec fn appended(b: Map<Seq<char>, Seq<char>>, key: Seq<char>, delta: Seq<char>) -> Map<
    Seq<char>,
    Seq<char>,
> {
    b.insert(
        key,
        if b.contains_key(key) {
            b[key] + delta
        } else {
            delta
        },
    )
}

/// The row of streamed assistant text.
pub open spec fn streaming_entry(id: Seq<char>, content: Seq<char>, now: Seq<char>) -> crate::transition::model::EntryView {
    bare_entry(RowView::Assistant(stamped_message(id, content, now, true)))
}

/// A streamed piece of the assistant's message. The first piece adds the
/// message's row and starts streaming it; a later one is added to the
/// message being streamed, and its row is sent again when the last send
/// is at least the throttle's time ago.
pub open spec fn agent_delta_step(
    before: RouteView,
    item_id: Seq<char>,
    delta: Seq<char>,
    after: RouteView,
    r: Seq<ConnectorOutput>,
    now: Seq<char>,
    clock_ms: u64,
) -> bool {
    match before.streaming {
        None => {
            &&& after == RouteView {
                streaming: Some(StreamView { message_id: item_id, content: delta, last_broadcast_ms: clock_ms }),
                ..before
            }
            &&& r.len() == 1
            &&& adds_row(r[0], streaming_entry(item_id, delta, now))
        },
        Some(s) => {
            let content = s.content + delta;
            let due = clock_ms >= s.last_broadcast_ms + STREAM_THROTTLE_MS;
            &&& after == RouteView {
                streaming: Some(
                    StreamView {
                        message_id: s.message_id,
                        content,
                        last_broadcast_ms: if due {
                            clock_ms
                        } else {
                            s.last_broadcast_ms
                        },
                    },
                ),
                ..before
            }
            &&& due ==> r.len() == 1 && replaces_row(r[0], s.message_id, streaming_entry(s.message_id, content, now))
            &&& !due ==> r.len() == 0
        },
    }
}

/// The key of streamed reasoning text: its kind, the item and the part.
pub open spec fn reasoning_key(kind: Seq<char>, item_id: Seq<char>, index: i64) -> Seq<char> {
    kind + item_id + "-"@ + json_int(index as int)
}

/// The row of a hook run that went wrong.
pub open spec fn hook_entry(run: AppServerHookRun, phase: Seq<char>) -> crate::transition::model::EntryView {
    bare_entry(RowView::Hook("hook-"@ + run.id@, hook_row_json(run, phase)))
}

/// The outputs of a turn's end.
pub open spec fn turn_end_outputs(status: TurnOutcome, r: Seq<ConnectorOutput>) -> bool {
    match status {
        TurnOutcome::Completed => r.len() == 1 && r[0] == ConnectorOutput::State(ConnectorStateEvent::TurnCompleted),
        TurnOutcome::Interrupted => r.len() == 1 && (r[0] matches ConnectorOutput::State(
            ConnectorStateEvent::TurnAborted { reason },
        ) && reason@ == "interrupted"@),
        TurnOutcome::Failed { error } => r.len() == 1 && (r[0] matches ConnectorOutput::State(
            ConnectorStateEvent::TurnAborted { reason },
        ) && reason@ == match error {
            Some(m) => m@,
            None => "failed"@,
        }),
        TurnOutcome::InProgress => r.len() == 0,
    }
}

/// What a notification does to a session route and sends. `web` is how a
/// web search is classified, `now` the time rows are stamped with and
/// `clock_ms` the monotonic clock at the notification. Unless said
/// otherwise, the route is left as it was.
pub open spec fn notification_step(
    before: RouteView,
    n: ServerNotification,
    after: RouteView,
    r: Seq<ConnectorOutput>,
    web: (ToolFamily, ToolKind),
    now: Seq<char>,
    clock_ms: u64,
) -> bool {
    match n {
        ServerNotification::TurnStarted { turn_id } => {
            &&& after == RouteView { active_turn_id: Some(turn_id@), ..before }
            &&& r.len() == 1 && r[0] == ConnectorOutput::State(ConnectorStateEvent::TurnStarted)
        },
        ServerNotification::TurnCompleted { status } => {
            &&& after == RouteView { active_turn_id: None, ..before }
            &&& turn_end_outputs(status, r)
        },
        ServerNotification::HookStarted { run } => {
            &&& after == before
            &&& run_went_wrong(run.status) ==> r.len() == 1 && adds_row(r[0], hook_entry(run, "started"@))
            &&& !run_went_wrong(run.status) ==> r.len() == 0
        },
        ServerNotification::HookCompleted { run } => {
            &&& after == before
            &&& run_went_wrong(run.status) ==> r.len() == 1 && replaces_row(
                r[0],
                "hook-"@ + run.id@,
                hook_entry(run, "completed"@),
            )
            &&& !run_went_wrong(run.status) ==> r.len() == 0
        },
        ServerNotification::ThreadClosed => {
            &&& after == before
            &&& r.len() == 1
            &&& r[0] matches ConnectorOutput::State(ConnectorStateEvent::SessionEnded { reason })
            &&& r[0]->State_0->SessionEnded_reason@ == "closed"@
        },
        ServerNotification::ThreadNameUpdated { thread_name } => {
            &&& after == before
            &&& match thread_name {
                Some(name) => r.len() == 1 && r[0] == ConnectorOutput::State(ConnectorStateEvent::ThreadNameUpdated(name)),
                None => r.len() == 0,
            }
        },
        ServerNotification::ThreadTokenUsageUpdated { token_usage } => {
            &&& after == before
            &&& r == usage_outputs(
                token_usage,
                clamped(
                    match token_usage.model_context_window {
                        Some(w) => w,
                        None => 0,
                    },
                ),
            )
        },
        ServerNotification::TurnDiffUpdated { diff } => {
            &&& after == before
            &&& r.len() == 1 && r[0] == ConnectorOutput::State(ConnectorStateEvent::DiffUpdated(diff))
        },
        ServerNotification::TurnPlanUpdated { explanation, plan } => {
            let text = plan_text(opt_string_view(explanation), plan@);
            &&& after == before
            &&& trim(text).len() == 0 ==> r.len() == 0
            &&& trim(text).len() > 0 ==> r.len() == 1 && (r[0] matches ConnectorOutput::State(
                ConnectorStateEvent::PlanUpdated(p),
            ) && p@ == text)
        },
        ServerNotification::AgentMessageDelta { item_id, delta } => agent_delta_step(
            before,
            item_id@,
            delta@,
            after,
            r,
            now,
            clock_ms,
        ),
        ServerNotification::PlanDelta { item_id, delta } => {
            &&& after == RouteView { buffers: after.buffers, ..before }
            &&& thinking_delta(before.buffers, after.buffers, "plan-"@ + item_id@, delta@, now, r)
        },
        ServerNotification::ReasoningSummaryTextDelta { item_id, summary_index, delta } => {
            &&& after == RouteView { buffers: after.buffers, ..before }
            &&& thinking_delta(
                before.buffers,
                after.buffers,
                reasoning_key("reasoning-summary-"@, item_id@, summary_index),
                delta@,
                now,
                r,
            )
        },
        ServerNotification::ReasoningTextDelta { item_id, content_index, delta } => {
            &&& after == RouteView { buffers: after.buffers, ..before }
            &&& thinking_delta(
                before.buffers,
                after.buffers,
                reasoning_key("reasoning-raw-"@, item_id@, content_index),
                delta@,
                now,
                r,
            )
        },
        ServerNotification::ItemStarted { item } => {
            &&& after == RouteView { buffers: after.buffers, ..before }
            &&& item_outputs(item, true, before.buffers, after.buffers, web, now, r)
        },
        ServerNotification::ItemCompleted { item } => {
            &&& after == RouteView {
                buffers: after.buffers,
                streaming: if item is AgentMessage {
                    None
                } else {
                    before.streaming
                },
                ..before
            }
            &&& item_outputs(item, false, before.buffers, after.buffers, web, now, r)
        },
        ServerNotification::ItemGuardianApprovalReviewStarted { review_id, target_item_id, review, action } => {
            &&& after == before
            &&& r.len() == 1
            &&& tool_output(
                r[0],
                "guardian-"@ + review_id@,
                guardian_row(review_id@, opt_string_view(target_item_id), review, action@, true, now),
                true,
            )
        },
        ServerNotification::ItemGuardianApprovalReviewCompleted { review_id, target_item_id, review, action } => {
            &&& after == before
            &&& r.len() == 1
            &&& tool_output(
                r[0],
                "guardian-"@ + review_id@,
                guardian_row(review_id@, opt_string_view(target_item_id), review, action@, false, now),
                false,
            )
        },
        ServerNotification::CommandExecutionOutputDelta { item_id, delta } => {
            &&& after == RouteView {
                buffers: appended(before.buffers, buffer_key("command"@, item_id@), delta@),
                ..before
            }
            &&& r.len() == 1
            &&& r[0] matches ConnectorOutput::Transport(ConnectorTransportEffect::ToolPtyOutput { tool_id, bytes })
            &&& r[0]->Transport_0->ToolPtyOutput_tool_id == item_id
            &&& r[0]->Transport_0->ToolPtyOutput_bytes@ == vstd::utf8::encode_utf8(delta@)
        },
        ServerNotification::TerminalInteraction { item_id, stdin } => {
            &&& after == before
            &&& stdin@.len() == 0 ==> r.len() == 0
            &&& stdin@.len() > 0 ==> r.len() == 1 && (r[0] matches ConnectorOutput::Transport(
                ConnectorTransportEffect::ToolPtyOutput { tool_id, bytes },
            ) && tool_id == item_id && bytes@ == vstd::utf8::encode_utf8(stdin@))
        },
        ServerNotification::FileChangeOutputDelta { item_id, delta } => {
            &&& after == RouteView {
                buffers: appended(before.buffers, buffer_key("file-change"@, item_id@), delta@),
                ..before
            }
            &&& r.len() == 0
        },
        ServerNotification::ServerRequestResolved { request_id } => {
            &&& after == RouteView { pending: before.pending.remove(key_of(request_id)), ..before }
            &&& r.len() == 1
            &&& r[0] matches ConnectorOutput::State(ConnectorStateEvent::ApprovalCancelled { request_id: k })
            &&& r[0]->State_0->ApprovalCancelled_request_id@ == key_of(request_id)
        },
        ServerNotification::SkillsChanged => {
            &&& after == before
            &&& r.len() == 1 && r[0] == ConnectorOutput::State(ConnectorStateEvent::SkillsUpdateAvailable)
        },
        ServerNotification::McpServerStatusUpdated { name, status, error } => {
            &&& after == before
            &&& r.len() == 1
            &&& r[0] matches ConnectorOutput::State(ConnectorStateEvent::McpStartupUpdate { server, status: s })
            &&& r[0]->State_0->McpStartupUpdate_server == name
            &&& r[0]->State_0->McpStartupUpdate_status@ == startup_status_json(status, opt_string_view(error))
        },
        ServerNotification::Error { message, will_retry } => {
            &&& after == before
            &&& r.len() == (if will_retry {
                1int
            } else {
                2int
            })
            &&& r[0] == ConnectorOutput::State(ConnectorStateEvent::Error(message))
            &&& !will_retry ==> (r[1] matches ConnectorOutput::State(ConnectorStateEvent::TurnAborted { reason })
                && reason == message)
        },
        ServerNotification::ContextCompacted => {
            &&& after == before
            &&& r.len() == 1 && r[0] == ConnectorOutput::State(ConnectorStateEvent::ContextCompacted)
        },
        ServerNotification::ModelRerouted { turn_id, from_model, to_model, reason } => {
            &&& after == before
            &&& r.len() == 1
            &&& adds_row(
                r[0],
                bare_entry(
                    RowView::System(
                        MessageRowView {
                            id: "model-reroute-"@ + turn_id@,
                            content: reroute_text(from_model@, to_model@, reason@),
                            turn_id: Some(turn_id@),
                            timestamp: Some(now),
                            is_streaming: false,
                        },
                    ),
                ),
            )
        },
        ServerNotification::Warning { message } => {
            &&& after == before
            &&& suppressed_warning(message@) ==> r.len() == 0
            &&& !suppressed_warning(message@) ==> r.len() == 1 && (r[0] matches ConnectorOutput::State(
                ConnectorStateEvent::ConversationRowCreated(e),
            ) && e@ == warning_entry(message@))
        },
        _ => after == before && r.len() == 0,
    }
}

// ---------------------------------------------------------------------------
// Steps
// ---------------------------------------------------------------------------

fn agent_message_delta(
    streaming: &mut Option<StreamingMessage>,
    item_id: String,
    delta: String,
    now: &str,
    clock_ms: u64,
) -> (r: Vec<ConnectorOutput>)
    ensures
        ({
            let before = RouteView {
                active_turn_id: None,
                pending: Map::empty(),
                buffers: Map::empty(),
                streaming: stream_view(*old(streaming)),
            };
            agent_delta_step(
                before,
                item_id@,
                delta@,
                RouteView { streaming: stream_view(*final(streaming)), ..before },
                r@,
                now@,
                clock_ms,
            )
        }),
{
    match streaming.take() {
        None => {
            let row = MessageRow {
                id: copy_string(&item_id),
                content: copy_string(&delta),
                turn_id: None,
                timestamp: Some(now.to_string()),
                is_streaming: true,
            };
            *streaming = Some(StreamingMessage { message_id: item_id, content: delta, last_broadcast_ms: clock_ms });
            vec![row_created_output(row_entry(ConversationRow::Assistant(row)))]
        },
        Some(s) => {
            let content = concat_str(s.content.as_str(), delta.as_str());
            let due = clock_ms >= s.last_broadcast_ms && clock_ms - s.last_broadcast_ms >= STREAM_THROTTLE_MS;
            if due {
                let row = MessageRow {
                    id: copy_string(&s.message_id),
                    content: copy_string(&content),
                    turn_id: None,
                    timestamp: Some(now.to_string()),
                    is_streaming: true,
                };
                let id = copy_string(&s.message_id);
                *streaming = Some(StreamingMessage { message_id: s.message_id, content, last_broadcast_ms: clock_ms });
                vec![row_updated_output(id, row_entry(ConversationRow::Assistant(row)))]
            } else {
                *streaming = Some(
                    StreamingMessage { message_id: s.message_id, content, last_broadcast_ms: s.last_broadcast_ms },
                );
                Vec::new()
            }
        },
    }
}

fn reasoning_buffer_key(kind: &str, item_id: &str, index: i64) -> (r: String)
    ensures
        r@ == reasoning_key(kind@, item_id@, index),
{
    let n = json_int_text(index);
    let a = concat3(kind, item_id, "-");
    concat_str(a.as_str(), n.as_str())
}

fn hook_outputs(run: AppServerHookRun, started: bool) -> (r: Vec<ConnectorOutput>)
    ensures
        started && run_went_wrong(run.status) ==> r@.len() == 1 && adds_row(r@[0], hook_entry(run, "started"@)),
        !started && run_went_wrong(run.status) ==> r@.len() == 1 && replaces_row(
            r@[0],
            "hook-"@ + run.id@,
            hook_entry(run, "completed"@),
        ),
        !run_went_wrong(run.status) ==> r@.len() == 0,
{
    if !crate::codex::timeline::hook_run_is_error(run.status) {
        return Vec::new();
    }
    let id = concat_str("hook-", run.id.as_str());
    if started {
        let payload = hook_row_text(&run, "started");
        vec![row_created_output(row_entry(ConversationRow::Hook(OpaqueRow { id, payload })))]
    } else {
        let payload = hook_row_text(&run, "completed");
        let row_id = copy_string(&id);
        vec![row_updated_output(row_id, row_entry(ConversationRow::Hook(OpaqueRow { id, payload })))]
    }
}

fn turn_end(status: TurnOutcome) -> (r: Vec<ConnectorOutput>)
    ensures
        turn_end_outputs(status, r@),
{
    match status {
        TurnOutcome::Completed => vec![state_output(ConnectorStateEvent::TurnCompleted)],
        TurnOutcome::Interrupted => vec![
            state_output(ConnectorStateEvent::TurnAborted { reason: "interrupted".to_string() }),
        ],
        TurnOutcome::Failed { error } => {
            let reason = match error {
                Some(m) => m,
                None => "failed".to_string(),
            };
            vec![state_output(ConnectorStateEvent::TurnAborted { reason })]
        },
        TurnOutcome::InProgress => Vec::new(),
    }
}

fn model_reroute(turn_id: String, from_model: String, to_model: String, reason: String, now: &str) -> (r: Vec<
    ConnectorOutput,
>)
    ensures
        r@.len() == 1,
        adds_row(
            r@[0],
            bare_entry(
                RowView::System(
                    MessageRowView {
                        id: "model-reroute-"@ + turn_id@,
                        content: reroute_text(from_model@, to_model@, reason@),
                        turn_id: Some(turn_id@),
                        timestamp: Some(now@),
                        is_streaming: false,
                    },
                ),
            ),
        ),
{
    let a = concat3("Model rerouted from ", from_model.as_str(), " to ");
    let b = concat3(a.as_str(), to_model.as_str(), " (");
    let content = concat3(b.as_str(), reason.as_str(), ")");
    let row = MessageRow {
        id: concat_str("model-reroute-", turn_id.as_str()),
        content,
        turn_id: Some(turn_id),
        timestamp: Some(now.to_string()),
        is_streaming: false,
    };
    vec![row_created_output(row_entry(ConversationRow::System(row)))]
}

fn plan_updated(explanation: Option<String>, plan: Vec<TurnPlanStep>) -> (r: Vec<ConnectorOutput>)
    ensures
        ({
            let text = plan_text(opt_string_view(explanation), plan@);
            &&& trim(text).len() == 0 ==> r@.len() == 0
            &&& trim(text).len() > 0 ==> r@.len() == 1 && (r@[0] matches ConnectorOutput::State(
                ConnectorStateEvent::PlanUpdated(p),
            ) && p@ == text)
        }),
{
    let text = turn_plan_text(explanation, &plan);
    if trim_str(text.as_str()).as_str().unicode_len() == 0 {
        Vec::new()
    } else {
        vec![state_output(ConnectorStateEvent::PlanUpdated(text))]
    }
}

fn error_outputs(message: String, will_retry: bool) -> (r: Vec<ConnectorOutput>)
    ensures
        r@.len() == (if will_retry {
            1int
        } else {
            2int
        }),
        r@[0] == ConnectorOutput::State(ConnectorStateEvent::Error(message)),
        !will_retry ==> (r@[1] matches ConnectorOutput::State(ConnectorStateEvent::TurnAborted { reason })
            && reason == message),
{
    let mut out = vec![state_output(ConnectorStateEvent::Error(copy_string(&message)))];
    if !will_retry {
        out.push(state_output(ConnectorStateEvent::TurnAborted { reason: message }));
    }
    out
}

/// A notification of the app server: what it does to the session route and
/// what it sends, as `notification_step` says.
pub fn map_notification(
    route: &mut AppServerRoute,
    notification: ServerNotification,
    web_search_identity: (ToolFamily, ToolKind),
    now: &str,
    clock_ms: u64,
) -> (r: Vec<ConnectorOutput>)
    ensures
        notification_step(old(route)@, notification, final(route)@, r@, web_search_identity, now@, clock_ms),
{
    match notification {
        ServerNotification::TurnStarted { turn_id } => {
            route.active_turn_id = Some(turn_id);
            vec![state_output(ConnectorStateEvent::TurnStarted)]
        },
        ServerNotification::TurnCompleted { status } => {
            route.active_turn_id = None;
            turn_end(status)
        },
        ServerNotification::HookStarted { run } => hook_outputs(run, true),
        ServerNotification::HookCompleted { run } => hook_outputs(run, false),
        ServerNotification::ThreadStatusChanged => Vec::new(),
        ServerNotification::ThreadClosed => vec![
            state_output(ConnectorStateEvent::SessionEnded { reason: "closed".to_string() }),
        ],
        ServerNotification::ThreadNameUpdated { thread_name } => match thread_name {
            Some(name) => vec![state_output(ConnectorStateEvent::ThreadNameUpdated(name))],
            None => Vec::new(),
        },
        ServerNotification::ThreadTokenUsageUpdated { token_usage } => map_token_usage(token_usage),
        ServerNotification::TurnDiffUpdated { diff } => vec![state_output(ConnectorStateEvent::DiffUpdated(diff))],
        ServerNotification::TurnPlanUpdated { explanation, plan } => plan_updated(explanation, plan),
        ServerNotification::AgentMessageDelta { item_id, delta } => agent_message_delta(
            &mut route.streaming_message,
            item_id,
            delta,
            now,
            clock_ms,
        ),
        ServerNotification::PlanDelta { item_id, delta } => apply_delta_thinking(
            &mut route.buffers,
            concat_str("plan-", item_id.as_str()),
            delta,
            now,
        ),
        ServerNotification::ReasoningSummaryTextDelta { item_id, summary_index, delta } => {
            let key = reasoning_buffer_key("reasoning-summary-", item_id.as_str(), summary_index);
            apply_delta_thinking(&mut route.buffers, key, delta, now)
        },
        ServerNotification::ReasoningTextDelta { item_id, content_index, delta } => {
            let key = reasoning_buffer_key("reasoning-raw-", item_id.as_str(), content_index);
            apply_delta_thinking(&mut route.buffers, key, delta, now)
        },
        ServerNotification::ItemStarted { item } => map_item(
            item,
            true,
            &mut route.buffers,
            &mut route.streaming_message,
            web_search_identity,
            now,
        ),
        ServerNotification::ItemCompleted { item } => map_item(
            item,
            false,
            &mut route.buffers,
            &mut route.streaming_message,
            web_search_identity,
            now,
        ),
        ServerNotification::ItemGuardianApprovalReviewStarted { review_id, target_item_id, review, action } => {
            let row_id = concat_str("guardian-", review_id.as_str());
            tool_row_outputs(row_id, guardian_review_tool_row(review_id, target_item_id, review, action, true, now), true)
        },
        ServerNotification::ItemGuardianApprovalReviewCompleted { review_id, target_item_id, review, action } => {
            let row_id = concat_str("guardian-", review_id.as_str());
            tool_row_outputs(
                row_id,
                guardian_review_tool_row(review_id, target_item_id, review, action, false, now),
                false,
            )
        },
        ServerNotification::ReasoningSummaryPartAdded => Vec::new(),
        ServerNotification::CommandExecutionOutputDelta { item_id, delta } => {
            route.buffers.append(output_buffer_key("command", item_id.as_str()), delta.as_str());
            vec![
                ConnectorOutput::Transport(
                    ConnectorTransportEffect::ToolPtyOutput { tool_id: item_id, bytes: string_bytes(delta) },
                ),
            ]
        },
        ServerNotification::TerminalInteraction { item_id, stdin } => map_terminal_interaction(item_id, stdin),
        ServerNotification::FileChangeOutputDelta { item_id, delta } => {
            route.buffers.append(output_buffer_key("file-change", item_id.as_str()), delta.as_str());
            Vec::new()
        },
        ServerNotification::ServerRequestResolved { request_id } => {
            let key = request_key(&request_id);
            route.pending_requests.remove(key.as_str());
            vec![state_output(ConnectorStateEvent::ApprovalCancelled { request_id: key })]
        },
        ServerNotification::SkillsChanged => vec![state_output(ConnectorStateEvent::SkillsUpdateAvailable)],
        ServerNotification::McpServerStatusUpdated { name, status, error } => vec![
            state_output(
                ConnectorStateEvent::McpStartupUpdate { server: name, status: startup_status_text(status, error) },
            ),
        ],
        ServerNotification::Error { message, will_retry } => error_outputs(message, will_retry),
        ServerNotification::ContextCompacted => vec![state_output(ConnectorStateEvent::ContextCompacted)],
        ServerNotification::ModelRerouted { turn_id, from_model, to_model, reason } => model_reroute(
            turn_id,
            from_model,
            to_model,
            reason,
            now,
        ),
        ServerNotification::Warning { message } => map_warning(message),
        ServerNotification::Other => Vec::new(),
    }
}

// ---------------------------------------------------------------------------
// Laws
// ---------------------------------------------------------------------------

/// A request of the app server that is answered no longer waits: after the
/// request is taken and then resolved, the waiting requests are those from
/// before it without its key, and the connector is told that the approval
/// it asked for under that key is cancelled.
pub proof fn law_resolved_request_stops_waiting(
    waiting: Map<Seq<char>, RequestId>,
    request: ServerRequest,
    asked: Seq<ConnectorOutput>,
    before: RouteView,
    after: RouteView,
    r: Seq<ConnectorOutput>,
    web: (ToolFamily, ToolKind),
    now: Seq<char>,
    clock_ms: u64,
)
    requires
        before.pending == waiting.insert(key_of(id_of(request)), id_of(request)),
        request_outputs(request, asked),
        notification_step(
            before,
            ServerNotification::ServerRequestResolved { request_id: id_of(request) },
            after,
            r,
            web,
            now,
            clock_ms,
        ),
    ensures
        after.pending == waiting.remove(key_of(id_of(request))),
        !after.pending.contains_key(key_of(id_of(request))),
        r.len() == 1,
        r[0] matches ConnectorOutput::State(ConnectorStateEvent::ApprovalCancelled { request_id: k })
            && k@ == key_of(id_of(request)),
        expected_approval(request) is Some ==> approval_request_view(asked[0]) is Some
            && approval_request_view(asked[0]).unwrap().request_id == key_of(id_of(request)),
{
    assert(waiting.insert(key_of(id_of(request)), id_of(request)).remove(key_of(id_of(request)))
        =~= waiting.remove(key_of(id_of(request))));
}

/// Output a command streams is what its completed item reads: after a
/// piece of output for a command with nothing buffered yet, the output
/// buffered for the command's completion is exactly that piece, and the
/// buffer is emptied when it completes.
pub proof fn law_streamed_command_output_is_buffered(
    before: RouteView,
    item_id: String,
    delta: String,
    after: RouteView,
    r: Seq<ConnectorOutput>,
    web: (ToolFamily, ToolKind),
    now: Seq<char>,
    clock_ms: u64,
)
    requires
        !before.buffers.contains_key(buffer_key("command"@, item_id@)),
        notification_step(
            before,
            ServerNotification::CommandExecutionOutputDelta { item_id, delta },
            after,
            r,
            web,
            now,
            clock_ms,
        ),
    ensures
        buffered_output(after.buffers, buffer_key("command"@, item_id@), false) == Some(delta@),
        !after_output(after.buffers, buffer_key("command"@, item_id@), false).contains_key(
            buffer_key("command"@, item_id@),
        ),
{
}

/// A turn that ends is no longer under way, however it ended, and a turn
/// that starts is the one under way.
pub proof fn law_turn_start_and_end_track_the_active_turn(
    before: RouteView,
    n: ServerNotification,
    after: RouteView,
    r: Seq<ConnectorOutput>,
    web: (ToolFamily, ToolKind),
    now: Seq<char>,
    clock_ms: u64,
)
    requires
        notification_step(before, n, after, r, web, now, clock_ms),
    ensures
        n matches ServerNotification::TurnCompleted { .. } ==> after.active_turn_id is None,
        n matches ServerNotification::TurnStarted { turn_id } ==> after.active_turn_id == Some(turn_id@),
        !(n is TurnCompleted || n is TurnStarted) ==> after.active_turn_id == before.active_turn_id,
{
}

} // verus!
