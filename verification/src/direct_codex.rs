//! The direct Codex connector's translation of runtime events into
//! connector events: messages created and updated, approvals asked, token
//! counts, diffs and plans. Command output and the assistant message being
//! streamed are kept from one event to the next.

use crate::codex::approvals::{change_diffs, joined_change_diffs};
use crate::codex::items::FileChange;
use crate::codex::notifications::STREAM_THROTTLE_MS;
use crate::codex::runtime_tools::{spec_utf8_lossy, utf8_lossy};
use crate::codex::signals::{bumped, next_seq, numbered_id, numbered_row_id};
use crate::connectors::{
    events_view, ApprovalType, ConnectorEvent, EventView, Message, MessageType, MessageView,
};
use crate::json::{json_object, json_object_text, json_quote, members_view, spec_json_quote};
use crate::keyed::TextMap;
use crate::text::{concat3, concat_str, copy_string, join, join_strings, opt_string_view, strs_view};
use crate::transition::model::TokenUsage;
use vstd::prelude::*;

verus! {

// ---------------------------------------------------------------------------
// Events of the runtime
// ---------------------------------------------------------------------------

/// Token counts the runtime reports for the last request; counts may be
/// negative where the runtime has none.
#[derive(Debug, Clone, Copy)]
pub struct TokenCountInfo {
    pub input_tokens: i64,
    pub output_tokens: i64,
    pub cached_input_tokens: i64,
    pub model_context_window: Option<i64>,
}

/// What the runtime reports. Paths are as displayed; changed files come in
/// the order the runtime listed them; a JSON text stands for a value the
/// runtime serialised; a turn's abort reason is its name; durations are in
/// milliseconds.
pub enum CodexEventMsg {
    UserMessage { message: String },
    TurnStarted,
    TurnComplete,
    TurnAborted { reason: String },
    AgentMessage { message: String },
    AgentReasoning { text: String },
    ExecCommandBegin { call_id: String, command: Vec<String> },
    ExecCommandOutputDelta { call_id: String, chunk: Vec<u8> },
    ExecCommandEnd { call_id: String, aggregated_output: String, exit_code: i32, duration_ms: u64 },
    PatchApplyBegin { call_id: String, changes: Vec<(String, FileChange)> },
    PatchApplyEnd { call_id: String, success: bool, stderr: String },
    McpToolCallBegin { call_id: String, server: String, tool: String, arguments: Option<String> },
    McpToolCallEnd { call_id: String, result: Result<String, String>, duration_ms: u64 },
    ExecApprovalRequest { command: Vec<String>, cwd: String },
    ApplyPatchApprovalRequest { changes: Vec<(String, FileChange)> },
    RequestUserInput { call_id: String, questions: Vec<String> },
    TokenCount { info: Option<TokenCountInfo> },
    TurnDiff { unified_diff: String },
    PlanUpdate { plan: String },
    ShutdownComplete,
    Error { message: String },
    AgentMessageContentDelta { item_id: String, delta: String },
    AgentMessageDelta { delta: String },
    Other,
}

// ---------------------------------------------------------------------------
// State kept between events
// ---------------------------------------------------------------------------

/// The assistant message being streamed: its id, its text so far, when its
/// text was last sent (milliseconds of a monotonic clock) and whether the
/// newer kind of delta started it.
pub struct DirectStream {
    pub message_id: String,
    pub content: String,
    pub last_broadcast_ms: u64,
    pub from_content_delta: bool,
}

/// The streamed message as values.
pub struct DirectStreamView {
    pub message_id: Seq<char>,
    pub content: Seq<char>,
    pub last_broadcast_ms: u64,
    pub from_content_delta: bool,
}

/// What the connector keeps between events: the output of running
/// commands by call id, the message being streamed and the message counter.
pub struct EventTranslator {
    pub output_buffers: TextMap<String>,
    pub streaming: Option<DirectStream>,
    pub counter: u64,
}

/// The state as values.
#[verifier::ext_equal]
pub struct TranslatorView {
    pub buffers: Map<Seq<char>, Seq<char>>,
    pub streaming: Option<DirectStreamView>,
    pub counter: u64,
}

/// The streamed message, as values.
pub open spec fn direct_stream_view(o: Option<DirectStream>) -> Option<DirectStreamView> {
    match o {
        Some(s) => Some(
            DirectStreamView {
                message_id: s.message_id@,
                content: s.content@,
                last_broadcast_ms: s.last_broadcast_ms,
                from_content_delta: s.from_content_delta,
            },
        ),
        None => None,
    }
}

impl View for EventTranslator {
    type V = TranslatorView;

    open spec fn view(&self) -> TranslatorView {
        TranslatorView {
            buffers: self.output_buffers@.map_values(|s: String| s@),
            streaming: direct_stream_view(self.streaming),
            counter: self.counter,
        }
    }
}

// ---------------------------------------------------------------------------
// What each event gives
// ---------------------------------------------------------------------------

/// A new message with no tool, created now.
pub open spec fn plain_message(id: Seq<char>, t: MessageType, content: Seq<char>, now: Seq<char>) -> MessageView {
    MessageView {
        id,
        session_id: Seq::empty(),
        message_type: t,
        content,
        tool_name: None,
        tool_input: None,
        tool_output: None,
        is_error: false,
        timestamp: now,
        duration_ms: None,
    }
}

/// A new tool message, created now.
pub open spec fn tool_message(
    id: Seq<char>,
    content: Seq<char>,
    tool_name: Seq<char>,
    tool_input: Option<Seq<char>>,
    now: Seq<char>,
) -> MessageView {
    MessageView {
        tool_name: Some(tool_name),
        tool_input,
        ..plain_message(id, MessageType::Tool, content, now)
    }
}

/// An update of a message's text.
pub open spec fn text_update(id: Seq<char>, content: Seq<char>) -> EventView {
    EventView::MessageUpdated {
        message_id: id,
        content: Some(content),
        tool_output: None,
        is_error: None,
        duration_ms: None,
    }
}

/// An update of a tool message's output.
pub open spec fn output_update(id: Seq<char>, output: Seq<char>, is_error: bool, duration_ms: Option<u64>) -> EventView {
    EventView::MessageUpdated {
        message_id: id,
        content: None,
        tool_output: Some(output),
        is_error: Some(is_error),
        duration_ms,
    }
}

/// An approval request with only its id and kind set.
pub open spec fn approval_asked(request_id: Seq<char>, t: ApprovalType) -> EventView {
    EventView::ApprovalRequested {
        request_id,
        approval_type: t,
        command: None,
        file_path: None,
        diff: None,
        question: None,
    }
}

/// The words of a command, separated by spaces.
pub open spec fn command_line(command: Seq<String>) -> Seq<char> {
    join(strs_view(command), " "@)
}

/// The paths of changed files, in order.
pub open spec fn change_paths(changes: Seq<(String, FileChange)>) -> Seq<Seq<char>> {
    changes.map_values(|c: (String, FileChange)| c.0@)
}

/// The first changed file, if any.
pub open spec fn first_path(changes: Seq<(String, FileChange)>) -> Option<Seq<char>> {
    if changes.len() > 0 {
        Some(changes[0].0@)
    } else {
        None
    }
}

/// The diff of a patch: each file's diff, a blank line between.
pub open spec fn patch_diff(changes: Seq<(String, FileChange)>) -> Seq<char> {
    join(change_diffs(changes), "\n\n"@)
}

/// The tool input of a patch being applied: its first file (empty when
/// there is none) and its diff.
pub open spec fn patch_input(changes: Seq<(String, FileChange)>) -> Seq<char> {
    json_object(
        seq![
            ("file_path"@, spec_json_quote(
                match first_path(changes) {
                    Some(p) => p,
                    None => Seq::empty(),
                },
            )),
            ("unified_diff"@, spec_json_quote(patch_diff(changes))),
        ],
    )
}

/// A count as reported, or zero where it is negative.
pub open spec fn clamped(n: i64) -> u64 {
    if n < 0 {
        0
    } else {
        n as u64
    }
}

/// The token usage of a report; a missing context window counts as
/// 200 000 tokens.
pub open spec fn usage_of(info: TokenCountInfo) -> TokenUsage {
    TokenUsage {
        input_tokens: clamped(info.input_tokens),
        output_tokens: clamped(info.output_tokens),
        cached_tokens: clamped(info.cached_input_tokens),
        context_window: clamped(
            match info.model_context_window {
                Some(w) => w,
                None => 200_000,
            },
        ),
    }
}

/// Whether the streamed text is due to be sent again: the throttle's time
/// has passed since it was last sent.
pub open spec fn stream_due(s: DirectStreamView, clock_ms: u64) -> bool {
    clock_ms >= s.last_broadcast_ms + STREAM_THROTTLE_MS
}

/// The streamed message after a piece of text is added to it.
pub open spec fn grown(s: DirectStreamView, delta: Seq<char>, clock_ms: u64) -> DirectStreamView {
    DirectStreamView {
        content: s.content + delta,
        last_broadcast_ms: if stream_due(s, clock_ms) {
            clock_ms
        } else {
            s.last_broadcast_ms
        },
        ..s
    }
}

/// The events of a piece of streamed text added to a message: the text so
/// far when it is due to be sent, else nothing.
pub open spec fn grown_events(s: DirectStreamView, delta: Seq<char>, clock_ms: u64) -> Seq<EventView> {
    if stream_due(s, clock_ms) {
        seq![text_update(s.message_id, s.content + delta)]
    } else {
        Seq::empty()
    }
}

/// The state after an event. User messages and reasoning take a number from
/// the counter; a full assistant message ends the stream; a command's
/// output is buffered from its start (empty) to its end (dropped), output
/// for a command not started being ignored; the newer kind of delta starts
/// or grows the stream; the older kind does so only for a stream it
/// started, or when there is none.
pub open spec fn next_state(s: TranslatorView, event_id: Seq<char>, msg: CodexEventMsg, clock_ms: u64) -> TranslatorView {
    match msg {
        CodexEventMsg::UserMessage { .. } => TranslatorView { counter: bumped(s.counter), ..s },
        CodexEventMsg::AgentReasoning { .. } => TranslatorView { counter: bumped(s.counter), ..s },
        CodexEventMsg::AgentMessage { .. } => TranslatorView { streaming: None, ..s },
        CodexEventMsg::ExecCommandBegin { call_id, .. } => TranslatorView {
            buffers: s.buffers.insert(call_id@, Seq::empty()),
            ..s
        },
        CodexEventMsg::ExecCommandOutputDelta { call_id, chunk } => if s.buffers.contains_key(call_id@) {
            TranslatorView {
                buffers: s.buffers.insert(call_id@, s.buffers[call_id@] + spec_utf8_lossy(chunk@)),
                ..s
            }
        } else {
            s
        },
        CodexEventMsg::ExecCommandEnd { call_id, .. } => TranslatorView {
            buffers: s.buffers.remove(call_id@),
            ..s
        },
        CodexEventMsg::AgentMessageContentDelta { item_id, delta } => TranslatorView {
            streaming: Some(
                match s.streaming {
                    Some(st) => grown(st, delta@, clock_ms),
                    None => DirectStreamView {
                        message_id: item_id@,
                        content: delta@,
                        last_broadcast_ms: clock_ms,
                        from_content_delta: true,
                    },
                },
            ),
            ..s
        },
        CodexEventMsg::AgentMessageDelta { delta } => TranslatorView {
            streaming: Some(
                match s.streaming {
                    Some(st) => if st.from_content_delta {
                        st
                    } else {
                        grown(st, delta@, clock_ms)
                    },
                    None => DirectStreamView {
                        message_id: event_id,
                        content: delta@,
                        last_broadcast_ms: clock_ms,
                        from_content_delta: false,
                    },
                },
            ),
            ..s
        },
        _ => s,
    }
}

/// The events the connector emits for a runtime event, created `now`.
pub open spec fn step_events(
    s: TranslatorView,
    event_id: Seq<char>,
    msg: CodexEventMsg,
    now: Seq<char>,
    clock_ms: u64,
) -> Seq<EventView> {
    match msg {
        CodexEventMsg::UserMessage { message } => seq![
            EventView::MessageCreated(
                plain_message(numbered_id("user-"@, event_id, s.counter), MessageType::User, message@, now),
            ),
        ],
        CodexEventMsg::TurnStarted => seq![EventView::TurnStarted],
        CodexEventMsg::TurnComplete => seq![EventView::TurnCompleted],
        CodexEventMsg::TurnAborted { reason } => seq![EventView::TurnAborted { reason: reason@ }],
        CodexEventMsg::AgentMessage { message } => match s.streaming {
            Some(st) => seq![text_update(st.message_id, message@)],
            None => seq![EventView::MessageCreated(plain_message(event_id, MessageType::Assistant, message@, now))],
        },
        CodexEventMsg::AgentReasoning { text } => seq![
            EventView::MessageCreated(
                plain_message(numbered_id("thinking-"@, event_id, s.counter), MessageType::Thinking, text@, now),
            ),
        ],
        CodexEventMsg::ExecCommandBegin { call_id, command } => seq![
            EventView::MessageCreated(
                tool_message(
                    call_id@,
                    command_line(command@),
                    "Bash"@,
                    Some(json_object(seq![("command"@, spec_json_quote(command_line(command@)))])),
                    now,
                ),
            ),
        ],
        CodexEventMsg::ExecCommandOutputDelta { .. } => Seq::empty(),
        CodexEventMsg::ExecCommandEnd { call_id, aggregated_output, exit_code, duration_ms } => {
            let buffered = if s.buffers.contains_key(call_id@) {
                s.buffers[call_id@]
            } else {
                aggregated_output@
            };
            let output = if buffered.len() == 0 {
                aggregated_output@
            } else {
                buffered
            };
            seq![output_update(call_id@, output, exit_code != 0, Some(duration_ms))]
        },
        CodexEventMsg::PatchApplyBegin { call_id, changes } => seq![
            EventView::MessageCreated(
                tool_message(
                    call_id@,
                    join(change_paths(changes@), ", "@),
                    "Edit"@,
                    Some(patch_input(changes@)),
                    now,
                ),
            ),
        ],
        CodexEventMsg::PatchApplyEnd { call_id, success, stderr } => seq![
            output_update(
                call_id@,
                if success {
                    "Applied successfully"@
                } else {
                    "Failed: "@ + stderr@
                },
                !success,
                None,
            ),
        ],
        CodexEventMsg::McpToolCallBegin { call_id, server, tool, arguments } => seq![
            EventView::MessageCreated(
                tool_message(call_id@, tool@, server@ + ":"@ + tool@, opt_string_view(arguments), now),
            ),
        ],
        CodexEventMsg::McpToolCallEnd { call_id, result, duration_ms } => seq![
            match result {
                Ok(text) => output_update(call_id@, text@, false, Some(duration_ms)),
                Err(message) => output_update(call_id@, message@, true, Some(duration_ms)),
            },
        ],
        CodexEventMsg::ExecApprovalRequest { command, cwd } => seq![
            EventView::ApprovalRequested {
                request_id: event_id,
                approval_type: ApprovalType::Exec,
                command: Some(command_line(command@)),
                file_path: Some(cwd@),
                diff: None,
                question: None,
            },
        ],
        CodexEventMsg::ApplyPatchApprovalRequest { changes } => seq![
            EventView::ApprovalRequested {
                request_id: event_id,
                approval_type: ApprovalType::Patch,
                command: None,
                file_path: first_path(changes@),
                diff: Some(patch_diff(changes@)),
                question: None,
            },
        ],
        CodexEventMsg::RequestUserInput { call_id, questions } => seq![
            EventView::ApprovalRequested {
                request_id: call_id@,
                approval_type: ApprovalType::Question,
                command: None,
                file_path: None,
                diff: None,
                question: if questions.len() > 0 {
                    Some(questions@[0]@)
                } else {
                    None
                },
            },
        ],
        CodexEventMsg::TokenCount { info } => match info {
            Some(i) => seq![EventView::TokensUpdated(usage_of(i))],
            None => Seq::empty(),
        },
        CodexEventMsg::TurnDiff { unified_diff } => seq![EventView::DiffUpdated(unified_diff@)],
        CodexEventMsg::PlanUpdate { plan } => seq![EventView::PlanUpdated(plan@)],
        CodexEventMsg::ShutdownComplete => seq![EventView::SessionEnded { reason: "shutdown"@ }],
        CodexEventMsg::Error { message } => seq![EventView::Error(message@)],
        CodexEventMsg::AgentMessageContentDelta { item_id, delta } => match s.streaming {
            Some(st) => grown_events(st, delta@, clock_ms),
            None => seq![EventView::MessageCreated(plain_message(item_id@, MessageType::Assistant, delta@, now))],
        },
        CodexEventMsg::AgentMessageDelta { delta } => match s.streaming {
            Some(st) => if st.from_content_delta {
                Seq::empty()
            } else {
                grown_events(st, delta@, clock_ms)
            },
            None => seq![EventView::MessageCreated(plain_message(event_id, MessageType::Assistant, delta@, now))],
        },
        CodexEventMsg::Other => Seq::empty(),
    }
}

// ---------------------------------------------------------------------------
// Building events
// ---------------------------------------------------------------------------

fn one(e: ConnectorEvent) -> (r: Vec<ConnectorEvent>)
    ensures
        events_view(r@) == seq![e@],
{
    let r = vec![e];
    assert(events_view(r@) =~= seq![e@]);
    r
}

fn no_events() -> (r: Vec<ConnectorEvent>)
    ensures
        events_view(r@) == Seq::<EventView>::empty(),
{
    let r: Vec<ConnectorEvent> = Vec::new();
    assert(events_view(r@) =~= Seq::<EventView>::empty());
    r
}

fn plain_created(id: String, t: MessageType, content: String, now: &str) -> (r: ConnectorEvent)
    ensures
        r@ == EventView::MessageCreated(plain_message(id@, t, content@, now@)),
{
    ConnectorEvent::MessageCreated(
        Message {
            id,
            session_id: String::new(),
            message_type: t,
            content,
            tool_name: None,
            tool_input: None,
            tool_output: None,
            is_error: false,
            timestamp: now.to_string(),
            duration_ms: None,
        },
    )
}

fn tool_created(id: String, content: String, tool_name: String, tool_input: Option<String>, now: &str) -> (r:
    ConnectorEvent)
    ensures
        r@ == EventView::MessageCreated(tool_message(id@, content@, tool_name@, opt_string_view(tool_input), now@)),
{
    ConnectorEvent::MessageCreated(
        Message {
            id,
            session_id: String::new(),
            message_type: MessageType::Tool,
            content,
            tool_name: Some(tool_name),
            tool_input,
            tool_output: None,
            is_error: false,
            timestamp: now.to_string(),
            duration_ms: None,
        },
    )
}

fn text_updated(id: String, content: String) -> (r: ConnectorEvent)
    ensures
        r@ == text_update(id@, content@),
{
    ConnectorEvent::MessageUpdated {
        message_id: id,
        content: Some(content),
        tool_output: None,
        is_error: None,
        duration_ms: None,
    }
}

fn output_updated(id: String, output: String, is_error: bool, duration_ms: Option<u64>) -> (r: ConnectorEvent)
    ensures
        r@ == output_update(id@, output@, is_error, duration_ms),
{
    ConnectorEvent::MessageUpdated {
        message_id: id,
        content: None,
        tool_output: Some(output),
        is_error: Some(is_error),
        duration_ms,
    }
}

fn join_command(command: &Vec<String>) -> (r: String)
    ensures
        r@ == command_line(command@),
{
    join_strings(command.as_slice(), " ")
}

fn paths_of(changes: &Vec<(String, FileChange)>) -> (r: Vec<String>)
    ensures
        strs_view(r@) == change_paths(changes@),
{
    let mut paths: Vec<String> = Vec::new();
    let mut i: usize = 0;
    while i < changes.len()
        invariant
            i <= changes.len(),
            strs_view(paths@) == change_paths(changes@.take(i as int)),
        decreases changes.len() - i,
    {
        let ghost before = strs_view(paths@);
        paths.push(copy_string(&changes[i].0));
        assert(strs_view(paths@) =~= before.push(changes@[i as int].0@));
        assert(change_paths(changes@.take(i + 1)) =~= change_paths(changes@.take(i as int)).push(
            changes@[i as int].0@,
        ));
        i = i + 1;
    }
    assert(changes@.take(changes.len() as int) =~= changes@);
    paths
}

fn first_change_path(changes: &Vec<(String, FileChange)>) -> (r: Option<String>)
    ensures
        opt_string_view(r) == first_path(changes@),
{
    if changes.len() > 0 {
        Some(copy_string(&changes[0].0))
    } else {
        None
    }
}

fn patch_tool_input(changes: &Vec<(String, FileChange)>) -> (r: String)
    ensures
        r@ == patch_input(changes@),
{
    let first = match first_change_path(changes) {
        Some(p) => p,
        None => String::new(),
    };
    let diff = joined_change_diffs(changes);
    let members = vec![
        ("file_path".to_string(), json_quote(first.as_str())),
        ("unified_diff".to_string(), json_quote(diff.as_str())),
    ];
    proof {
        reveal_strlit("file_path");
        reveal_strlit("unified_diff");
        assert(members_view(members@) =~= seq![
            ("file_path"@, spec_json_quote(match first_path(changes@) {
                Some(p) => p,
                None => Seq::empty(),
            })),
            ("unified_diff"@, spec_json_quote(patch_diff(changes@))),
        ]);
    }
    json_object_text(members.as_slice())
}

fn command_tool_input(command_str: &str) -> (r: String)
    ensures
        r@ == json_object(seq![("command"@, spec_json_quote(command_str@))]),
{
    let members = vec![("command".to_string(), json_quote(command_str))];
    assert(members_view(members@) =~= seq![("command"@, spec_json_quote(command_str@))]);
    json_object_text(members.as_slice())
}

fn clamp_count(n: i64) -> (r: u64)
    ensures
        r == clamped(n),
{
    if n < 0 {
        0
    } else {
        n as u64
    }
}

fn stream_is_due(last_broadcast_ms: u64, clock_ms: u64) -> (r: bool)
    ensures
        r == (clock_ms >= last_broadcast_ms + STREAM_THROTTLE_MS),
{
    clock_ms >= last_broadcast_ms && clock_ms - last_broadcast_ms >= STREAM_THROTTLE_MS
}

// ---------------------------------------------------------------------------
// The translation
// ---------------------------------------------------------------------------

impl EventTranslator {
    /// No output buffered, nothing streamed, the counter at zero.
    pub fn new() -> (r: Self)
        ensures
            r@.buffers == Map::<Seq<char>, Seq<char>>::empty(),
            r@.streaming is None,
            r@.counter == 0,
    {
        let r = EventTranslator { output_buffers: TextMap::new(), streaming: None, counter: 0 };
        assert(r@.buffers =~= Map::<Seq<char>, Seq<char>>::empty());
        r
    }

    /// Adds a piece of streamed text to the stream in progress, sending the
    /// text so far when the throttle's time has passed.
    fn grow_stream(&mut self, mut st: DirectStream, delta: &str, clock_ms: u64) -> (r: Vec<ConnectorEvent>)
        ensures
            final(self)@ == (TranslatorView {
                streaming: Some(grown(direct_stream_view(Some(st)).unwrap(), delta@, clock_ms)),
                ..old(self)@
            }),
            events_view(r@) == grown_events(direct_stream_view(Some(st)).unwrap(), delta@, clock_ms),
    {
        let ghost sv = direct_stream_view(Some(st)).unwrap();
        st.content.append(delta);
        let r = if stream_is_due(st.last_broadcast_ms, clock_ms) {
            st.last_broadcast_ms = clock_ms;
            one(text_updated(copy_string(&st.message_id), copy_string(&st.content)))
        } else {
            no_events()
        };
        self.streaming = Some(st);
        assert(self@.buffers =~= old(self)@.buffers);
        r
    }

    /// The connector events for one runtime event with id `event_id`;
    /// messages are stamped `now`, and `clock_ms` (milliseconds of a
    /// monotonic clock) paces the streamed text.
    pub fn translate(&mut self, event_id: String, msg: CodexEventMsg, now: &str, clock_ms: u64) -> (r: Vec<
        ConnectorEvent,
    >)
        ensures
            final(self)@ == next_state(old(self)@, event_id@, msg, clock_ms),
            events_view(r@) == step_events(old(self)@, event_id@, msg, now@, clock_ms),
    {
        let ghost s0 = self@;
        let ghost m = msg;
        match msg {
            CodexEventMsg::UserMessage { message } => {
                let seq = next_seq(&mut self.counter);
                let id = numbered_row_id("user-", event_id.as_str(), seq);
                proof {
                    reveal_strlit("user-");
                }
                assert(self@ =~= next_state(s0, event_id@, m, clock_ms));
                one(plain_created(id, MessageType::User, message, now))
            },
            CodexEventMsg::TurnStarted => one(ConnectorEvent::TurnStarted),
            CodexEventMsg::TurnComplete => one(ConnectorEvent::TurnCompleted),
            CodexEventMsg::TurnAborted { reason } => one(ConnectorEvent::TurnAborted { reason }),
            CodexEventMsg::AgentMessage { message } => {
                let current = self.streaming.take();
                assert(self@ =~= next_state(s0, event_id@, m, clock_ms));
                match current {
                    Some(st) => one(text_updated(st.message_id, message)),
                    None => one(plain_created(event_id, MessageType::Assistant, message, now)),
                }
            },
            CodexEventMsg::AgentReasoning { text } => {
                let seq = next_seq(&mut self.counter);
                let id = numbered_row_id("thinking-", event_id.as_str(), seq);
                proof {
                    reveal_strlit("thinking-");
                }
                assert(self@ =~= next_state(s0, event_id@, m, clock_ms));
                one(plain_created(id, MessageType::Thinking, text, now))
            },
            CodexEventMsg::ExecCommandBegin { call_id, command } => {
                let command_str = join_command(&command);
                self.output_buffers.insert(copy_string(&call_id), String::new());
                assert(self@.buffers =~= s0.buffers.insert(call_id@, Seq::empty()));
                let input = command_tool_input(command_str.as_str());
                let name = "Bash".to_string();
                proof {
                    reveal_strlit("Bash");
                }
                one(tool_created(call_id, copy_string(&command_str), name, Some(input), now))
            },
            CodexEventMsg::ExecCommandOutputDelta { call_id, chunk } => {
                let ghost key = call_id@;
                let grown_text = match self.output_buffers.get(call_id.as_str()) {
                    Some(b) => {
                        let text = utf8_lossy(chunk.as_slice());
                        Some(concat_str(b.as_str(), text.as_str()))
                    },
                    None => None,
                };
                match grown_text {
                    Some(t) => {
                        let ghost tv = t@;
                        self.output_buffers.insert(call_id, t);
                        assert(self@.buffers =~= s0.buffers.insert(key, tv));
                    },
                    None => {},
                }
                no_events()
            },
            CodexEventMsg::ExecCommandEnd { call_id, aggregated_output, exit_code, duration_ms } => {
                let buffered = self.output_buffers.take(call_id.as_str());
                assert(self@.buffers =~= s0.buffers.remove(call_id@));
                let output = match buffered {
                    Some(b) => b,
                    None => copy_string(&aggregated_output),
                };
                let output_str = if output.as_str().unicode_len() == 0 {
                    aggregated_output
                } else {
                    output
                };
                one(output_updated(call_id, output_str, exit_code != 0, Some(duration_ms)))
            },
            CodexEventMsg::PatchApplyBegin { call_id, changes } => {
                let files = paths_of(&changes);
                let content = join_strings(files.as_slice(), ", ");
                let input = patch_tool_input(&changes);
                let name = "Edit".to_string();
                proof {
                    reveal_strlit("Edit");
                }
                one(tool_created(call_id, content, name, Some(input), now))
            },
            CodexEventMsg::PatchApplyEnd { call_id, success, stderr } => {
                let output = if success {
                    "Applied successfully".to_string()
                } else {
                    concat_str("Failed: ", stderr.as_str())
                };
                one(output_updated(call_id, output, !success, None))
            },
            CodexEventMsg::McpToolCallBegin { call_id, server, tool, arguments } => {
                let name = concat3(server.as_str(), ":", tool.as_str());
                one(tool_created(call_id, tool, name, arguments, now))
            },
            CodexEventMsg::McpToolCallEnd { call_id, result, duration_ms } => {
                match result {
                    Ok(text) => one(output_updated(call_id, text, false, Some(duration_ms))),
                    Err(message) => one(output_updated(call_id, message, true, Some(duration_ms))),
                }
            },
            CodexEventMsg::ExecApprovalRequest { command, cwd } => {
                one(
                    ConnectorEvent::ApprovalRequested {
                        request_id: event_id,
                        approval_type: ApprovalType::Exec,
                        command: Some(join_command(&command)),
                        file_path: Some(cwd),
                        diff: None,
                        question: None,
                    },
                )
            },
            CodexEventMsg::ApplyPatchApprovalRequest { changes } => {
                let first_file = first_change_path(&changes);
                let diff = joined_change_diffs(&changes);
                one(
                    ConnectorEvent::ApprovalRequested {
                        request_id: event_id,
                        approval_type: ApprovalType::Patch,
                        command: None,
                        file_path: first_file,
                        diff: Some(diff),
                        question: None,
                    },
                )
            },
            CodexEventMsg::RequestUserInput { call_id, questions } => {
                let question = if questions.len() > 0 {
                    Some(copy_string(&questions[0]))
                } else {
                    None
                };
                one(
                    ConnectorEvent::ApprovalRequested {
                        request_id: call_id,
                        approval_type: ApprovalType::Question,
                        command: None,
                        file_path: None,
                        diff: None,
                        question,
                    },
                )
            },
            CodexEventMsg::TokenCount { info } => match info {
                Some(i) => {
                    let window = match i.model_context_window {
                        Some(w) => w,
                        None => 200_000,
                    };
                    one(
                        ConnectorEvent::TokensUpdated(
                            TokenUsage {
                                input_tokens: clamp_count(i.input_tokens),
                                output_tokens: clamp_count(i.output_tokens),
                                cached_tokens: clamp_count(i.cached_input_tokens),
                                context_window: clamp_count(window),
                            },
                        ),
                    )
                },
                None => no_events(),
            },
            CodexEventMsg::TurnDiff { unified_diff } => one(ConnectorEvent::DiffUpdated(unified_diff)),
            CodexEventMsg::PlanUpdate { plan } => one(ConnectorEvent::PlanUpdated(plan)),
            CodexEventMsg::ShutdownComplete => {
                let reason = "shutdown".to_string();
                proof {
                    reveal_strlit("shutdown");
                }
                one(ConnectorEvent::SessionEnded { reason })
            },
            CodexEventMsg::Error { message } => one(ConnectorEvent::Error(message)),
            CodexEventMsg::AgentMessageContentDelta { item_id, delta } => {
                match self.streaming.take() {
                    None => {
                        self.streaming = Some(
                            DirectStream {
                                message_id: copy_string(&item_id),
                                content: copy_string(&delta),
                                last_broadcast_ms: clock_ms,
                                from_content_delta: true,
                            },
                        );
                        assert(self@ =~= next_state(s0, event_id@, m, clock_ms));
                        one(plain_created(item_id, MessageType::Assistant, delta, now))
                    },
                    Some(st) => self.grow_stream(st, delta.as_str(), clock_ms),
                }
            },
            CodexEventMsg::AgentMessageDelta { delta } => {
                match self.streaming.take() {
                    None => {
                        self.streaming = Some(
                            DirectStream {
                                message_id: copy_string(&event_id),
                                content: copy_string(&delta),
                                last_broadcast_ms: clock_ms,
                                from_content_delta: false,
                            },
                        );
                        assert(self@ =~= next_state(s0, event_id@, m, clock_ms));
                        one(plain_created(event_id, MessageType::Assistant, delta, now))
                    },
                    Some(st) => if st.from_content_delta {
                        self.streaming = Some(st);
                        assert(self@ =~= s0);
                        no_events()
                    } else {
                        self.grow_stream(st, delta.as_str(), clock_ms)
                    },
                }
            },
            CodexEventMsg::Other => no_events(),
        }
    }
}

// ---------------------------------------------------------------------------
// Laws
// ---------------------------------------------------------------------------

/// A command's output, printed between its start and its end, is what its
/// end reports (when anything was printed), and nothing of it stays
/// buffered afterwards.
pub proof fn law_command_output_reported_at_end(
    s: TranslatorView,
    begin_id: Seq<char>,
    delta_id: Seq<char>,
    end_id: Seq<char>,
    call_id: String,
    command: Vec<String>,
    chunk: Vec<u8>,
    aggregated_output: String,
    exit_code: i32,
    duration_ms: u64,
    now: Seq<char>,
    clock_ms: u64,
)
    requires
        spec_utf8_lossy(chunk@).len() > 0,
    ensures
        ({
            let s1 = next_state(s, begin_id, CodexEventMsg::ExecCommandBegin { call_id, command }, clock_ms);
            let s2 = next_state(s1, delta_id, CodexEventMsg::ExecCommandOutputDelta { call_id, chunk }, clock_ms);
            let end = CodexEventMsg::ExecCommandEnd { call_id, aggregated_output, exit_code, duration_ms };
            &&& step_events(s2, end_id, end, now, clock_ms) == seq![
                output_update(call_id@, spec_utf8_lossy(chunk@), exit_code != 0, Some(duration_ms)),
            ]
            &&& next_state(s2, end_id, end, clock_ms).buffers == s.buffers.remove(call_id@)
        }),
{
    let s1 = next_state(s, begin_id, CodexEventMsg::ExecCommandBegin { call_id, command }, clock_ms);
    let s2 = next_state(s1, delta_id, CodexEventMsg::ExecCommandOutputDelta { call_id, chunk }, clock_ms);
    assert(s2.buffers[call_id@] =~= spec_utf8_lossy(chunk@));
    assert(s2.buffers.remove(call_id@) =~= s.buffers.remove(call_id@));
}

/// A full assistant message ends the message being streamed: it updates
/// the streamed message's text to the full text, and afterwards nothing is
/// streamed.
pub proof fn law_full_message_ends_stream(
    s: TranslatorView,
    event_id: Seq<char>,
    message: String,
    now: Seq<char>,
    clock_ms: u64,
)
    requires
        s.streaming is Some,
    ensures
        step_events(s, event_id, CodexEventMsg::AgentMessage { message }, now, clock_ms) == seq![
            text_update(s.streaming.unwrap().message_id, message@),
        ],
        next_state(s, event_id, CodexEventMsg::AgentMessage { message }, clock_ms).streaming is None,
{
}

/// Streamed text accumulates: after a stream starts, each further piece of
/// the same kind is added to its text, whether or not it is sent.
pub proof fn law_streamed_text_accumulates(
    s: TranslatorView,
    first_id: Seq<char>,
    second_id: Seq<char>,
    item_id: String,
    first: String,
    second: String,
    clock1: u64,
    clock2: u64,
)
    requires
        s.streaming is None,
    ensures
        ({
            let s1 = next_state(
                s,
                first_id,
                CodexEventMsg::AgentMessageContentDelta { item_id, delta: first },
                clock1,
            );
            let s2 = next_state(
                s1,
                second_id,
                CodexEventMsg::AgentMessageContentDelta { item_id, delta: second },
                clock2,
            );
            &&& s2.streaming.unwrap().message_id == item_id@
            &&& s2.streaming.unwrap().content == first@ + second@
        }),
{
}

} // verus!
