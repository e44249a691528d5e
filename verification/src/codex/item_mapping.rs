//! How the app server's thread items become connector outputs: messages,
//! plans and reasoning, commands, patches and tool calls.

use crate::codex::format::output_buffer_key;
use crate::codex::item_rows::{
    collab_row, dynamic_row, file_change_tool_row, items_view, map_collab_agent_tool,
    map_dynamic_tool, map_tool_row, millis, patch_row, plain_row, plain_tool_row, stamp_if, tool_output,
    tool_row_outputs, agent_states_view, CollabAgentState, CollabAgentToolCallArgs,
    CollabAgentToolCallStatus, DynamicToolCallArgs, DynamicToolCallOutputContentItem, ToolRowArgs,
};
use crate::codex::items::{
    changes_view, command_execution_tool_status, command_status, CollabAgentTool,
    CommandExecutionStatus, FileUpdateChange, PatchApplyStatus,
};
use crate::codex::signals::{
    adds_row, apply_delta_thinking, bare_entry, finalized_thinking_entry,
    finalized_thinking_row_entry, replaces_row, row_created_output, row_entry, row_updated_output,
    stamped_message, thinking_entry, DeltaBuffers,
};
use crate::json::{
    json_int, json_int_text, json_object, json_object_text, json_opt_str, json_quote, members_view,
    spec_json_quote,
};
use crate::text::{
    concat3, concat_str, copy_string, decimal, decimal_string, join, join_strings, opt_string_view,
    strs_view, trim, trim_str,
};
use crate::transition::connector::{ConnectorOutput, ConnectorStateEvent, ConnectorTransportEffect};
use crate::transition::model::{
    ConversationRow, MessageRow, NoticeRow, NoticeRowSeverity, NoticeRowView, Provider, RowView,
    ToolFamily, ToolKind, ToolRow, ToolRowView, ToolStatus,
};
use vstd::prelude::*;

verus! {

// ---------------------------------------------------------------------------
// Thread items
// ---------------------------------------------------------------------------

/// A piece of what a user sent: text, or something else the timeline does
/// not show as text.
#[derive(Debug, Clone, PartialEq, Eq)]
pub enum UserInput {
    Text { text: String },
    Other,
}

/// Where an MCP tool call stands.
#[derive(Debug, Clone, Copy, PartialEq, Eq, Structural)]
pub enum McpToolCallStatus {
    InProgress,
    Completed,
    Failed,
}

/// Where a dynamic tool call stands.
#[derive(Debug, Clone, Copy, PartialEq, Eq, Structural)]
pub enum DynamicToolCallStatus {
    InProgress,
    Completed,
    Failed,
}

/// An item of a thread as the app server reports it when it starts or
/// completes. Values the app server sends as structured data that the
/// mapping only passes on are JSON text.
#[derive(Debug)]
pub enum ThreadItem {
    UserMessage { id: String, content: Vec<UserInput> },
    AgentMessage { id: String, text: String },
    Plan { id: String, text: String },
    Reasoning { id: String, summary: Vec<String>, content: Vec<String> },
    CommandExecution {
        id: String,
        command: String,
        /// The working directory as displayed.
        cwd: String,
        process_id: Option<String>,
        status: CommandExecutionStatus,
        /// JSON text.
        command_actions: String,
        aggregated_output: Option<String>,
        exit_code: Option<i32>,
        duration_ms: Option<i64>,
    },
    FileChange { id: String, changes: Vec<FileUpdateChange>, status: PatchApplyStatus },
    McpToolCall {
        id: String,
        server: String,
        tool: String,
        status: McpToolCallStatus,
        /// JSON text.
        arguments: String,
        /// JSON text.
        result: Option<String>,
        /// The error's message.
        error: Option<String>,
        duration_ms: Option<i64>,
    },
    DynamicToolCall {
        id: String,
        namespace: Option<String>,
        tool: String,
        /// JSON text.
        arguments: String,
        status: DynamicToolCallStatus,
        content_items: Option<Vec<DynamicToolCallOutputContentItem>>,
        success: Option<bool>,
        duration_ms: Option<i64>,
    },
    CollabAgentToolCall {
        id: String,
        tool: CollabAgentTool,
        status: CollabAgentToolCallStatus,
        sender_thread_id: String,
        receiver_thread_ids: Vec<String>,
        prompt: Option<String>,
        model: Option<String>,
        /// The name of the reasoning effort asked for.
        reasoning_effort: Option<String>,
        agents_states: Vec<(String, CollabAgentState)>,
    },
    WebSearch {
        id: String,
        query: String,
        /// JSON text.
        action: String,
    },
    ImageView {
        id: String,
        /// The image's path as displayed.
        path: String,
    },
    ImageGeneration {
        id: String,
        /// JSON text.
        status: String,
        revised_prompt: Option<String>,
        /// JSON text.
        result: String,
        /// JSON text.
        saved_path: String,
    },
    EnteredReviewMode { id: String, review: String },
    ExitedReviewMode { id: String, review: String },
    ContextCompaction { id: String },
    Other,
}

/// The assistant message being streamed, with the time its text was last
/// sent (milliseconds of a monotonic clock).
#[derive(Debug)]
pub struct StreamingMessage {
    pub message_id: String,
    pub content: String,
    pub last_broadcast_ms: u64,
}

// ---------------------------------------------------------------------------
// Messages
// ---------------------------------------------------------------------------

/// The texts a user sent, in order.
pub open spec fn user_texts(content: Seq<UserInput>) -> Seq<Seq<char>>
    decreases content.len(),
{
    if content.len() == 0 {
        Seq::empty()
    } else {
        let prev = user_texts(content.drop_last());
        match content.last() {
            UserInput::Text { text } => prev.push(text@),
            UserInput::Other => prev,
        }
    }
}

fn user_text(content: &[UserInput]) -> (r: String)
    ensures
        r@ == join(user_texts(content@), "\n"@),
{
    let mut parts: Vec<String> = Vec::new();
    let mut i: usize = 0;
    while i < content.len()
        invariant
            i <= content.len(),
            strs_view(parts@) == user_texts(content@.take(i as int)),
        decreases content.len() - i,
    {
        assert(content@.take(i + 1).drop_last() =~= content@.take(i as int));
        assert(content@.take(i + 1).last() == content@[i as int]);
        let ghost before = strs_view(parts@);
        match &content[i] {
            UserInput::Text { text } => {
                let t = copy_string(text);
                let ghost tv = t@;
                parts.push(t);
                assert(strs_view(parts@) =~= before.push(tv));
            },
            UserInput::Other => {},
        }
        i = i + 1;
    }
    assert(content@.take(content.len() as int) =~= content@);
    join_strings(parts.as_slice(), "\n")
}

fn message_row(id: String, content: String, now: &str) -> (r: MessageRow)
    ensures
        r@ == stamped_message(id@, content@, now@, false),
{
    MessageRow { id, content, turn_id: None, timestamp: Some(now.to_string()), is_streaming: false }
}

/// The id of the thinking row of a plan.
pub open spec fn plan_row_id(id: Seq<char>) -> Seq<char> {
    "plan-"@ + id
}

/// The outputs of a completed plan: its finished thinking row, and the
/// plan itself when it is not blank.
pub open spec fn plan_done(r: Seq<ConnectorOutput>, id: Seq<char>, text: Seq<char>, now: Seq<char>) -> bool {
    let rid = plan_row_id(id);
    &&& r.len() == (if trim(text).len() > 0 {
        2int
    } else {
        1int
    })
    &&& replaces_row(r[0], rid, finalized_thinking_entry(rid, text, now))
    &&& trim(text).len() > 0 ==> (r[1] matches ConnectorOutput::State(
        ConnectorStateEvent::PlanUpdated(p),
    ) && p@ == text)
}

fn map_plan(id: String, text: String, started: bool, buffers: &mut DeltaBuffers, now: &str) -> (r: Vec<
    ConnectorOutput,
>)
    ensures
        ({
            let rid = plan_row_id(id@);
            if started {
                &&& r@.len() == 1
                &&& old(buffers)@.contains_key(rid) ==> {
                    let t = old(buffers)@[rid] + text@;
                    &&& final(buffers)@ == old(buffers)@.insert(rid, t)
                    &&& replaces_row(r@[0], rid, thinking_entry(rid, t, now@))
                }
                &&& !old(buffers)@.contains_key(rid) ==> {
                    &&& final(buffers)@ == old(buffers)@.insert(rid, text@)
                    &&& adds_row(r@[0], thinking_entry(rid, text@, now@))
                }
            } else {
                &&& final(buffers)@ == old(buffers)@.remove(rid)
                &&& plan_done(r@, id@, text@, now@)
            }
        }),
{
    let message_id = concat_str("plan-", id.as_str());
    if started {
        return apply_delta_thinking(buffers, message_id, text, now);
    }
    buffers.remove(message_id.as_str());
    let blank = trim_str(text.as_str()).as_str().unicode_len() == 0;
    let entry = finalized_thinking_row_entry(copy_string(&message_id), copy_string(&text), now);
    let mut outputs = vec![row_updated_output(message_id, entry)];
    if !blank {
        outputs.push(ConnectorOutput::State(ConnectorStateEvent::PlanUpdated(text)));
    }
    outputs
}

/// The id of the row of a piece of reasoning.
pub open spec fn reasoning_row_id(kind: Seq<char>, id: Seq<char>, idx: nat) -> Seq<char> {
    "reasoning-"@ + kind + "-"@ + id + "-"@ + decimal(idx)
}

/// The ids of the rows of a reasoning item's pieces of one kind.
pub open spec fn reasoning_ids(kind: Seq<char>, id: Seq<char>, n: nat) -> Seq<Seq<char>> {
    Seq::new(n, |i: int| reasoning_row_id(kind, id, i as nat))
}

/// The buffers without the texts of the given ids.
pub open spec fn without_ids(m: Map<Seq<char>, Seq<char>>, ids: Seq<Seq<char>>) -> Map<Seq<char>, Seq<char>>
    decreases ids.len(),
{
    if ids.len() == 0 {
        m
    } else {
        without_ids(m, ids.drop_last()).remove(ids.last())
    }
}

/// The outputs of finished reasoning pieces: the row of each piece, in
/// order, with its text.
pub open spec fn reasoning_done(
    r: Seq<ConnectorOutput>,
    from: int,
    ids: Seq<Seq<char>>,
    texts: Seq<Seq<char>>,
    now: Seq<char>,
) -> bool {
    forall|k: int|
        0 <= k < texts.len() ==> replaces_row(
            #[trigger] r[from + k],
            ids[k],
            finalized_thinking_entry(ids[k], texts[k], now),
        )
}

fn push_reasoning(
    outputs: &mut Vec<ConnectorOutput>,
    buffers: &mut DeltaBuffers,
    kind: &str,
    id: &str,
    texts: Vec<String>,
    now: &str,
)
    ensures
        final(outputs)@.len() == old(outputs)@.len() + texts@.len(),
        final(outputs)@.take(old(outputs)@.len() as int) == old(outputs)@,
        reasoning_done(
            final(outputs)@,
            old(outputs)@.len() as int,
            reasoning_ids(kind@, id@, texts@.len()),
            strs_view(texts@),
            now@,
        ),
        final(buffers)@ == without_ids(old(buffers)@, reasoning_ids(kind@, id@, texts@.len())),
{
    let ghost start = outputs@.len() as int;
    let ghost o0 = outputs@;
    let ghost b0 = buffers@;
    let ghost all = strs_view(texts@);
    let mut i: usize = 0;
    let mut rest = texts;
    let n = rest.len();
    assert(all.len() == n);
    assert(strs_view(rest@) =~= all.skip(0));
    while rest.len() > 0
        invariant
            start == o0.len(),
            all.len() <= usize::MAX,
            i + rest@.len() == all.len(),
            strs_view(rest@) == all.skip(i as int),
            outputs@.len() == start + i,
            outputs@.take(start) == o0,
            reasoning_done(outputs@, start, reasoning_ids(kind@, id@, all.len()), all.take(i as int), now@),
            buffers@ == without_ids(b0, reasoning_ids(kind@, id@, i as nat)),
        decreases rest.len(),
    {
        let ghost rb = rest@;
        let text = rest.remove(0);
        assert(strs_view(rb)[0] == rb[0]@);
        assert(all.skip(i as int)[0] == all[i as int]);
        assert(text@ == all[i as int]);
        assert(rest@ =~= rb.subrange(1, rb.len() as int));
        assert(strs_view(rest@) =~= strs_view(rb).subrange(1, rb.len() as int));
        assert(strs_view(rest@) =~= all.skip(i + 1));
        let head = concat3("reasoning-", kind, "-");
        let head2 = concat3(head.as_str(), id, "-");
        let n = decimal_string(i as u64);
        let message_id = concat_str(head2.as_str(), n.as_str());
        assert(message_id@ == reasoning_row_id(kind@, id@, i as nat));
        buffers.remove(message_id.as_str());
        let entry = finalized_thinking_row_entry(copy_string(&message_id), text, now);
        let ghost before = outputs@;
        outputs.push(row_updated_output(message_id, entry));
        proof {
            let ids_all = reasoning_ids(kind@, id@, all.len());
            assert(reasoning_ids(kind@, id@, (i + 1) as nat).drop_last() =~= reasoning_ids(kind@, id@, i as nat));
            assert(reasoning_ids(kind@, id@, (i + 1) as nat).last() == reasoning_row_id(kind@, id@, i as nat));
            assert(outputs@.take(start) =~= o0) by {
                assert(outputs@.take(start) =~= before.take(start));
            }
            assert forall|k: int| 0 <= k < all.take(i + 1).len() implies replaces_row(
                #[trigger] outputs@[start + k],
                ids_all[k],
                finalized_thinking_entry(ids_all[k], all.take(i + 1)[k], now@),
            ) by {
                if k < i {
                    assert(outputs@[start + k] == before[start + k]);
                    assert(all.take(i + 1)[k] == all.take(i as int)[k]);
                }
            }
        }
        i = i + 1;
    }
    assert(all.take(all.len() as int) =~= all);
}

// ---------------------------------------------------------------------------
// Commands
// ---------------------------------------------------------------------------

/// An optional integer as JSON.
pub open spec fn json_opt_int(o: Option<i32>) -> Seq<char> {
    match o {
        Some(c) => json_int(c as int),
        None => "null"@,
    }
}

/// The row of a command execution: the command as title and its working
/// directory as subtitle; its output, when there is any, as summary and
/// in its result with the exit code.
pub open spec fn command_row(
    id: Seq<char>,
    command: Seq<char>,
    cwd: Seq<char>,
    status: CommandExecutionStatus,
    command_actions: Seq<char>,
    output: Option<Seq<char>>,
    exit_code: Option<i32>,
    duration_ms: Option<i64>,
    started: bool,
    now: Seq<char>,
) -> ToolRowView {
    let is_running = started || status == CommandExecutionStatus::InProgress;
    ToolRowView {
        id,
        provider: Provider::Codex,
        family: ToolFamily::Shell,
        kind: ToolKind::Bash,
        status: command_status(status, is_running, exit_code),
        title: command,
        subtitle: Some(cwd),
        summary: output,
        started_at: stamp_if(started, now),
        ended_at: stamp_if(!is_running, now),
        duration_ms: millis(duration_ms),
        invocation: json_object(
            seq![
                ("command"@, spec_json_quote(command)),
                ("cwd"@, spec_json_quote(cwd)),
                ("command_actions"@, command_actions),
            ],
        ),
        result: match output {
            Some(o) => Some(
                json_object(seq![("output"@, spec_json_quote(o)), ("exit_code"@, json_opt_int(exit_code))]),
            ),
            None => None,
        },
    }
}

/// The key under which a kind of item's streamed output is buffered.
pub open spec fn buffer_key(kind: Seq<char>, id: Seq<char>) -> Seq<char> {
    kind + "-output-"@ + id
}

/// The output buffered for an item that completes; none while it starts.
pub open spec fn buffered_output(b: Map<Seq<char>, Seq<char>>, key: Seq<char>, started: bool) -> Option<Seq<char>> {
    if started || !b.contains_key(key) {
        None
    } else {
        Some(b[key])
    }
}

/// The buffers once a completed item's output is taken.
pub open spec fn after_output(b: Map<Seq<char>, Seq<char>>, key: Seq<char>, started: bool) -> Map<Seq<char>, Seq<char>> {
    if started {
        b
    } else {
        b.remove(key)
    }
}

fn take_output(buffers: &mut DeltaBuffers, kind: &str, id: &str, started: bool) -> (r: Option<String>)
    ensures
        opt_string_view(r) == buffered_output(old(buffers)@, buffer_key(kind@, id@), started),
        final(buffers)@ == after_output(old(buffers)@, buffer_key(kind@, id@), started),
{
    if started {
        None
    } else {
        let key = output_buffer_key(kind, id);
        buffers.take(key.as_str())
    }
}

fn opt_int_text(o: Option<i32>) -> (r: String)
    ensures
        r@ == json_opt_int(o),
{
    match o {
        Some(c) => json_int_text(c as i64),
        None => "null".to_string(),
    }
}

/// The outputs of a command execution: its row, then the opening of its
/// terminal while it starts, or the exit of its terminal when it completes.
pub open spec fn command_done(
    r: Seq<ConnectorOutput>,
    id: Seq<char>,
    row: ToolRowView,
    started: bool,
    exit_code: Option<i32>,
) -> bool {
    &&& r.len() == 2
    &&& tool_output(r[0], id, row, started)
    &&& started ==> (r[1] matches ConnectorOutput::Transport(
        ConnectorTransportEffect::ToolPtyCreated { tool_id },
    ) && tool_id@ == id)
    &&& !started ==> (r[1] matches ConnectorOutput::Transport(
        ConnectorTransportEffect::ToolPtyExited { tool_id, exit_code: code },
    ) && tool_id@ == id && code == exit_code)
}

fn map_command_execution(
    id: String,
    command: String,
    cwd: String,
    status: CommandExecutionStatus,
    command_actions: String,
    aggregated_output: Option<String>,
    exit_code: Option<i32>,
    duration_ms: Option<i64>,
    started: bool,
    buffers: &mut DeltaBuffers,
    now: &str,
) -> (r: Vec<ConnectorOutput>)
    ensures
        ({
            let key = buffer_key("command"@, id@);
            let output = match opt_string_view(aggregated_output) {
                Some(o) => Some(o),
                None => buffered_output(old(buffers)@, key, started),
            };
            &&& final(buffers)@ == after_output(old(buffers)@, key, started)
            &&& command_done(
                r@,
                id@,
                command_row(
                    id@,
                    command@,
                    cwd@,
                    status,
                    command_actions@,
                    output,
                    exit_code,
                    duration_ms,
                    started,
                    now@,
                ),
                started,
                exit_code,
            )
        }),
{
    let ghost expected_output = match opt_string_view(aggregated_output) {
        Some(o) => Some(o),
        None => buffered_output(buffers@, buffer_key("command"@, id@), started),
    };
    let buffered = take_output(buffers, "command", id.as_str(), started);
    let output = match aggregated_output {
        Some(o) => Some(o),
        None => buffered,
    };
    assert(opt_string_view(output) == expected_output);
    let is_running = started || status == CommandExecutionStatus::InProgress;
    let invocation_members = vec![
        ("command".to_string(), json_quote(command.as_str())),
        ("cwd".to_string(), json_quote(cwd.as_str())),
        ("command_actions".to_string(), command_actions),
    ];
    assert(members_view(invocation_members@) =~= seq![
        ("command"@, spec_json_quote(command@)),
        ("cwd"@, spec_json_quote(cwd@)),
        ("command_actions"@, invocation_members@[2].1@),
    ]);
    let invocation = json_object_text(invocation_members.as_slice());
    let result = match &output {
        Some(o) => {
            let members = vec![
                ("output".to_string(), json_quote(o.as_str())),
                ("exit_code".to_string(), opt_int_text(exit_code)),
            ];
            assert(members_view(members@) =~= seq![
                ("output"@, spec_json_quote(o@)),
                ("exit_code"@, json_opt_int(exit_code)),
            ]);
            Some(json_object_text(members.as_slice()))
        },
        None => None,
    };
    let row = ToolRow {
        id: copy_string(&id),
        provider: Provider::Codex,
        family: ToolFamily::Shell,
        kind: ToolKind::Bash,
        status: command_execution_tool_status(status, is_running, exit_code),
        title: command,
        subtitle: Some(cwd),
        summary: output,
        started_at: if started {
            Some(now.to_string())
        } else {
            None
        },
        ended_at: if !is_running {
            Some(now.to_string())
        } else {
            None
        },
        duration_ms: crate::codex::format::duration_millis(duration_ms),
        invocation,
        result,
    };
    let mut outputs = tool_row_outputs(copy_string(&id), row, started);
    if started {
        outputs.push(ConnectorOutput::Transport(ConnectorTransportEffect::ToolPtyCreated { tool_id: id }));
    } else {
        outputs.push(
            ConnectorOutput::Transport(ConnectorTransportEffect::ToolPtyExited { tool_id: id, exit_code }),
        );
    }
    outputs
}

// ---------------------------------------------------------------------------
// MCP tool calls
// ---------------------------------------------------------------------------

/// The row of an MCP tool call: the tool as title and its server as
/// subtitle; failed when it reports an error, whose message is the
/// summary; its result as sent, or `null`.
pub open spec fn mcp_row(
    id: Seq<char>,
    server: Seq<char>,
    tool: Seq<char>,
    status: McpToolCallStatus,
    arguments: Seq<char>,
    result: Option<Seq<char>>,
    error: Option<Seq<char>>,
    duration_ms: Option<i64>,
    started: bool,
    now: Seq<char>,
) -> ToolRowView {
    let is_running = started || status == McpToolCallStatus::InProgress;
    ToolRowView {
        id,
        provider: Provider::Codex,
        family: ToolFamily::Mcp,
        kind: ToolKind::McpToolCall,
        status: if is_running {
            ToolStatus::Running
        } else if error is None {
            ToolStatus::Completed
        } else {
            ToolStatus::Failed
        },
        title: tool,
        subtitle: Some(server),
        summary: error,
        started_at: stamp_if(started, now),
        ended_at: stamp_if(!is_running, now),
        duration_ms: millis(duration_ms),
        invocation: json_object(
            seq![
                ("server"@, spec_json_quote(server)),
                ("tool"@, spec_json_quote(tool)),
                ("arguments"@, arguments),
            ],
        ),
        result: Some(
            match result {
                Some(v) => v,
                None => "null"@,
            },
        ),
    }
}

fn map_mcp_tool_call(
    id: String,
    server: String,
    tool: String,
    status: McpToolCallStatus,
    arguments: String,
    result: Option<String>,
    error: Option<String>,
    duration_ms: Option<i64>,
    started: bool,
    now: &str,
) -> (r: Vec<ConnectorOutput>)
    ensures
        r@.len() == 1,
        tool_output(
            r@[0],
            id@,
            mcp_row(
                id@,
                server@,
                tool@,
                status,
                arguments@,
                opt_string_view(result),
                opt_string_view(error),
                duration_ms,
                started,
                now@,
            ),
            started,
        ),
{
    let is_running = started || status == McpToolCallStatus::InProgress;
    let tool_status = if is_running {
        ToolStatus::Running
    } else if error.is_none() {
        ToolStatus::Completed
    } else {
        ToolStatus::Failed
    };
    let invocation_members = vec![
        ("server".to_string(), json_quote(server.as_str())),
        ("tool".to_string(), json_quote(tool.as_str())),
        ("arguments".to_string(), arguments),
    ];
    assert(members_view(invocation_members@) =~= seq![
        ("server"@, spec_json_quote(server@)),
        ("tool"@, spec_json_quote(tool@)),
        ("arguments"@, invocation_members@[2].1@),
    ]);
    let invocation = json_object_text(invocation_members.as_slice());
    let result_text = match result {
        Some(v) => v,
        None => "null".to_string(),
    };
    let row = ToolRow {
        id: copy_string(&id),
        provider: Provider::Codex,
        family: ToolFamily::Mcp,
        kind: ToolKind::McpToolCall,
        status: tool_status,
        title: tool,
        subtitle: Some(server),
        summary: error,
        started_at: if started {
            Some(now.to_string())
        } else {
            None
        },
        ended_at: if !is_running {
            Some(now.to_string())
        } else {
            None
        },
        duration_ms: crate::codex::format::duration_millis(duration_ms),
        invocation,
        result: Some(result_text),
    };
    tool_row_outputs(id, row, started)
}

// ---------------------------------------------------------------------------
// Items
// ---------------------------------------------------------------------------

/// The result of a compacted context.
pub open spec fn compaction_result() -> Seq<char> {
    json_object(seq![("summary"@, spec_json_quote("Context compacted"@))])
}

/// What a thread item sends, and what becomes of the streamed-text
/// buffers (`b0` before, `b1` after), given the classification of web
/// searches.
pub open spec fn item_outputs(
    item: ThreadItem,
    started: bool,
    b0: Map<Seq<char>, Seq<char>>,
    b1: Map<Seq<char>, Seq<char>>,
    web: (ToolFamily, ToolKind),
    now: Seq<char>,
    r: Seq<ConnectorOutput>,
) -> bool {
    match item {
        ThreadItem::UserMessage { id, content } => b1 == b0 && if started {
            r.len() == 0
        } else {
            r.len() == 1 && adds_row(
                r[0],
                bare_entry(
                    RowView::User(stamped_message(id@, join(user_texts(content@), "\n"@), now, false)),
                ),
            )
        },
        ThreadItem::AgentMessage { id, text } => b1 == b0 && if started {
            r.len() == 0
        } else {
            r.len() == 1 && replaces_row(
                r[0],
                id@,
                bare_entry(RowView::Assistant(stamped_message(id@, text@, now, false))),
            )
        },
        ThreadItem::Plan { id, text } => {
            let rid = plan_row_id(id@);
            if started {
                &&& r.len() == 1
                &&& b0.contains_key(rid) ==> {
                    &&& b1 == b0.insert(rid, b0[rid] + text@)
                    &&& replaces_row(r[0], rid, thinking_entry(rid, b0[rid] + text@, now))
                }
                &&& !b0.contains_key(rid) ==> {
                    &&& b1 == b0.insert(rid, text@)
                    &&& adds_row(r[0], thinking_entry(rid, text@, now))
                }
            } else {
                &&& b1 == b0.remove(rid)
                &&& plan_done(r, id@, text@, now)
            }
        },
        ThreadItem::Reasoning { id, summary, content } => if started {
            b1 == b0 && r.len() == 0
        } else {
            let s_ids = reasoning_ids("summary"@, id@, summary@.len());
            let c_ids = reasoning_ids("raw"@, id@, content@.len());
            &&& r.len() == summary@.len() + content@.len()
            &&& reasoning_done(r, 0, s_ids, strs_view(summary@), now)
            &&& reasoning_done(r, summary@.len() as int, c_ids, strs_view(content@), now)
            &&& b1 == without_ids(without_ids(b0, s_ids), c_ids)
        },
        ThreadItem::CommandExecution {
            id,
            command,
            cwd,
            status,
            command_actions,
            aggregated_output,
            exit_code,
            duration_ms,
            ..
        } => {
            let key = buffer_key("command"@, id@);
            let output = match opt_string_view(aggregated_output) {
                Some(o) => Some(o),
                None => buffered_output(b0, key, started),
            };
            &&& b1 == after_output(b0, key, started)
            &&& command_done(
                r,
                id@,
                command_row(
                    id@,
                    command@,
                    cwd@,
                    status,
                    command_actions@,
                    output,
                    exit_code,
                    duration_ms,
                    started,
                    now,
                ),
                started,
                exit_code,
            )
        },
        ThreadItem::FileChange { id, changes, status } => {
            let key = buffer_key("file-change"@, id@);
            &&& b1 == after_output(b0, key, started)
            &&& r.len() == 1
            &&& tool_output(
                r[0],
                id@,
                patch_row(
                    id@,
                    changes_view(changes@),
                    status,
                    started,
                    buffered_output(b0, key, started),
                    now,
                ),
                started,
            )
        },
        ThreadItem::McpToolCall {
            id,
            server,
            tool,
            status,
            arguments,
            result,
            error,
            duration_ms,
        } => b1 == b0 && r.len() == 1 && tool_output(
            r[0],
            id@,
            mcp_row(
                id@,
                server@,
                tool@,
                status,
                arguments@,
                opt_string_view(result),
                opt_string_view(error),
                duration_ms,
                started,
                now,
            ),
            started,
        ),
        ThreadItem::DynamicToolCall {
            id,
            namespace,
            tool,
            arguments,
            status,
            content_items,
            success,
            duration_ms,
        } => b1 == b0 && r.len() == 1 && tool_output(
            r[0],
            id@,
            dynamic_row(
                id@,
                opt_string_view(namespace),
                tool@,
                arguments@,
                items_view(content_items),
                match success {
                    Some(b) => b,
                    None => status != DynamicToolCallStatus::Failed,
                },
                duration_ms,
                started,
                now,
            ),
            started,
        ),
        ThreadItem::CollabAgentToolCall {
            id,
            tool,
            status,
            sender_thread_id,
            receiver_thread_ids,
            prompt,
            model,
            reasoning_effort,
            agents_states,
        } => {
            let states = agent_states_view(agents_states@);
            &&& b1 == b0
            &&& r.len() == (if states.len() > 0 {
                2int
            } else {
                1int
            })
            &&& tool_output(
                r[0],
                id@,
                collab_row(
                    id@,
                    tool,
                    status,
                    sender_thread_id@,
                    strs_view(receiver_thread_ids@),
                    opt_string_view(prompt),
                    opt_string_view(model),
                    opt_string_view(reasoning_effort),
                    states,
                    started,
                    now,
                ),
                started,
            )
            &&& states.len() > 0 ==> (r[1] matches ConnectorOutput::State(
                ConnectorStateEvent::SubagentsUpdated { subagents },
            ) && subagents_view_of(subagents) == states.map_values(
                |st: (Seq<char>, crate::codex::items::CollabAgentStatus, Option<Seq<char>>, Seq<char>)|
                    crate::codex::item_rows::collab_subagent(
                        st,
                        sender_thread_id@,
                        opt_string_view(prompt),
                        opt_string_view(model),
                        now,
                    ),
            ))
        },
        ThreadItem::WebSearch { id, query, action } => b1 == b0 && r.len() == 1 && tool_output(
            r[0],
            id@,
            plain_row(
                id@,
                web.0,
                web.1,
                "web_search"@,
                None,
                json_object(seq![("query"@, spec_json_quote(query@)), ("action"@, action@)]),
                None,
                started,
                true,
                None,
                now,
            ),
            started,
        ),
        ThreadItem::ImageView { id, path } => b1 == b0 && r.len() == 1 && tool_output(
            r[0],
            id@,
            plain_row(
                id@,
                ToolFamily::Image,
                ToolKind::ViewImage,
                path@,
                None,
                json_object(seq![("path"@, spec_json_quote(path@))]),
                None,
                started,
                true,
                None,
                now,
            ),
            started,
        ),
        ThreadItem::ImageGeneration { id, status, revised_prompt, result, saved_path } => b1 == b0
            && r.len() == 1 && tool_output(
            r[0],
            id@,
            plain_row(
                id@,
                ToolFamily::Image,
                ToolKind::ImageGeneration,
                "Image generation"@,
                opt_string_view(revised_prompt),
                json_object(seq![("status"@, status@)]),
                Some(json_object(seq![("result"@, result@), ("saved_path"@, saved_path@)])),
                started,
                true,
                None,
                now,
            ),
            started,
        ),
        ThreadItem::EnteredReviewMode { id, review } => b1 == b0 && if started {
            r.len() == 0
        } else {
            r.len() == 1 && adds_row(
                r[0],
                bare_entry(
                    RowView::Notice(
                        NoticeRowView {
                            id: id@,
                            severity: NoticeRowSeverity::Info,
                            title: "Review mode"@,
                            summary: Some(review@),
                            body: Some(review@),
                        },
                    ),
                ),
            )
        },
        ThreadItem::ExitedReviewMode { id, review } => b1 == b0 && if started {
            r.len() == 0
        } else {
            r.len() == 1 && adds_row(
                r[0],
                bare_entry(RowView::Assistant(stamped_message(id@, review@, now, false))),
            )
        },
        ThreadItem::ContextCompaction { id } => b1 == b0 && r.len() == 1 && tool_output(
            r[0],
            id@,
            plain_row(
                id@,
                ToolFamily::Context,
                ToolKind::CompactContext,
                if started {
                    "Compacting context"@
                } else {
                    "Context compacted"@
                },
                None,
                json_object(Seq::empty()),
                if started {
                    None
                } else {
                    Some(compaction_result())
                },
                started,
                true,
                None,
                now,
            ),
            started,
        ),
        ThreadItem::Other => b1 == b0 && r.len() == 0,
    }
}

/// The views of a list of subagents.
pub open spec fn subagents_view_of(v: Vec<crate::transition::model::SubagentInfo>) -> Seq<
    crate::transition::model::SubagentView,
> {
    crate::transition::model::subagents_view(v@)
}

fn map_reasoning(id: &str, summary: Vec<String>, content: Vec<String>, buffers: &mut DeltaBuffers, now: &str) -> (r:
    Vec<ConnectorOutput>)
    ensures
        ({
            let s_ids = reasoning_ids("summary"@, id@, summary@.len());
            let c_ids = reasoning_ids("raw"@, id@, content@.len());
            &&& r@.len() == summary@.len() + content@.len()
            &&& reasoning_done(r@, 0, s_ids, strs_view(summary@), now@)
            &&& reasoning_done(r@, summary@.len() as int, c_ids, strs_view(content@), now@)
            &&& final(buffers)@ == without_ids(without_ids(old(buffers)@, s_ids), c_ids)
        }),
{
    let ghost sv = strs_view(summary@);
    let ghost s_len = summary@.len();
    let ghost cv = strs_view(content@);
    let mut outputs: Vec<ConnectorOutput> = Vec::new();
    push_reasoning(&mut outputs, buffers, "summary", id, summary, now);
    let ghost mid = outputs@;
    push_reasoning(&mut outputs, buffers, "raw", id, content, now);
    proof {
        let s_ids = reasoning_ids("summary"@, id@, s_len);
        assert forall|k: int| 0 <= k < sv.len() implies replaces_row(
            #[trigger] outputs@[0 + k],
            s_ids[k],
            finalized_thinking_entry(s_ids[k], sv[k], now@),
        ) by {
            assert(outputs@.take(mid.len() as int)[k] == outputs@[k]);
            assert(mid[0 + k] == mid[k]);
        }
    }
    outputs
}

fn map_file_change(
    id: String,
    changes: Vec<FileUpdateChange>,
    status: PatchApplyStatus,
    started: bool,
    buffers: &mut DeltaBuffers,
    now: &str,
) -> (r: Vec<ConnectorOutput>)
    ensures
        ({
            let key = buffer_key("file-change"@, id@);
            &&& final(buffers)@ == after_output(old(buffers)@, key, started)
            &&& r@.len() == 1
            &&& tool_output(
                r@[0],
                id@,
                patch_row(
                    id@,
                    changes_view(changes@),
                    status,
                    started,
                    buffered_output(old(buffers)@, key, started),
                    now@,
                ),
                started,
            )
        }),
{
    let output = take_output(buffers, "file-change", id.as_str(), started);
    let row = file_change_tool_row(copy_string(&id), changes, status, started, output, now);
    tool_row_outputs(id, row, started)
}

fn plain_outputs(
    id: String,
    family: ToolFamily,
    kind: ToolKind,
    title: String,
    summary: Option<String>,
    invocation: String,
    result: Option<String>,
    started: bool,
    now: &str,
) -> (r: Vec<ConnectorOutput>)
    ensures
        r@.len() == 1,
        tool_output(
            r@[0],
            id@,
            plain_row(
                id@,
                family,
                kind,
                title@,
                opt_string_view(summary),
                invocation@,
                opt_string_view(result),
                started,
                true,
                None,
                now@,
            ),
            started,
        ),
{
    map_tool_row(
        ToolRowArgs {
            id,
            family,
            kind,
            title,
            summary,
            invocation,
            result,
            started,
            success: true,
            duration_ms: None,
        },
        now,
    )
}

fn one_member(key: &str, value: String) -> (r: String)
    ensures
        r@ == json_object(seq![(key@, value@)]),
{
    let members = vec![(key.to_string(), value)];
    assert(members_view(members@) =~= seq![(key@, members@[0].1@)]);
    json_object_text(members.as_slice())
}

fn two_members(k1: &str, v1: String, k2: &str, v2: String) -> (r: String)
    ensures
        r@ == json_object(seq![(k1@, v1@), (k2@, v2@)]),
{
    let ghost a = v1@;
    let ghost b = v2@;
    let members = vec![(k1.to_string(), v1), (k2.to_string(), v2)];
    assert(members_view(members@) =~= seq![(k1@, a), (k2@, b)]);
    json_object_text(members.as_slice())
}

/// The outputs of a thread item when it starts (`started`) or completes.
/// Web searches are classified as `web_search_identity` says; `now` stamps
/// the rows. Streamed text of items that complete leaves the buffers, and
/// a completed assistant message ends the message being streamed.
pub fn map_item(
    item: ThreadItem,
    started: bool,
    buffers: &mut DeltaBuffers,
    streaming_message: &mut Option<StreamingMessage>,
    web_search_identity: (ToolFamily, ToolKind),
    now: &str,
) -> (r: Vec<ConnectorOutput>)
    ensures
        item_outputs(item, started, old(buffers)@, final(buffers)@, web_search_identity, now@, r@),
        (item matches ThreadItem::AgentMessage { .. } && !started) ==> *final(streaming_message) is None,
        !(item matches ThreadItem::AgentMessage { .. } && !started) ==> *final(streaming_message)
            == *old(streaming_message),
{
    match item {
        ThreadItem::UserMessage { id, content } => {
            if started {
                return Vec::new();
            }
            let text = user_text(content.as_slice());
            let row = message_row(id, text, now);
            vec![row_created_output(row_entry(ConversationRow::User(row)))]
        },
        ThreadItem::AgentMessage { id, text } => {
            if started {
                return Vec::new();
            }
            *streaming_message = None;
            let row = message_row(copy_string(&id), text, now);
            vec![row_updated_output(id, row_entry(ConversationRow::Assistant(row)))]
        },
        ThreadItem::Plan { id, text } => map_plan(id, text, started, buffers, now),
        ThreadItem::Reasoning { id, summary, content } => {
            if started {
                return Vec::new();
            }
            map_reasoning(id.as_str(), summary, content, buffers, now)
        },
        ThreadItem::CommandExecution {
            id,
            command,
            cwd,
            process_id,
            status,
            command_actions,
            aggregated_output,
            exit_code,
            duration_ms,
        } => map_command_execution(
            id,
            command,
            cwd,
            status,
            command_actions,
            aggregated_output,
            exit_code,
            duration_ms,
            started,
            buffers,
            now,
        ),
        ThreadItem::FileChange { id, changes, status } => map_file_change(
            id,
            changes,
            status,
            started,
            buffers,
            now,
        ),
        ThreadItem::McpToolCall {
            id,
            server,
            tool,
            status,
            arguments,
            result,
            error,
            duration_ms,
        } => map_mcp_tool_call(
            id,
            server,
            tool,
            status,
            arguments,
            result,
            error,
            duration_ms,
            started,
            now,
        ),
        ThreadItem::DynamicToolCall {
            id,
            namespace,
            tool,
            arguments,
            status,
            content_items,
            success,
            duration_ms,
        } => {
            let succeeded = match success {
                Some(b) => b,
                None => status != DynamicToolCallStatus::Failed,
            };
            map_dynamic_tool(
                DynamicToolCallArgs {
                    id,
                    namespace,
                    tool,
                    arguments,
                    content_items,
                    success: succeeded,
                    duration_ms,
                    started,
                },
                now,
            )
        },
        ThreadItem::CollabAgentToolCall {
            id,
            tool,
            status,
            sender_thread_id,
            receiver_thread_ids,
            prompt,
            model,
            reasoning_effort,
            agents_states,
        } => map_collab_agent_tool(
            CollabAgentToolCallArgs {
                id,
                tool,
                status,
                sender_thread_id,
                receiver_thread_ids,
                prompt,
                model,
                reasoning_effort,
                agents_states,
                started,
            },
            now,
        ),
        ThreadItem::WebSearch { id, query, action } => {
            let invocation = two_members("query", json_quote(query.as_str()), "action", action);
            plain_outputs(
                id,
                web_search_identity.0,
                web_search_identity.1,
                "web_search".to_string(),
                None,
                invocation,
                None,
                started,
                now,
            )
        },
        ThreadItem::ImageView { id, path } => {
            let invocation = one_member("path", json_quote(path.as_str()));
            plain_outputs(
                id,
                ToolFamily::Image,
                ToolKind::ViewImage,
                path,
                None,
                invocation,
                None,
                started,
                now,
            )
        },
        ThreadItem::ImageGeneration { id, status, revised_prompt, result, saved_path } => {
            let invocation = one_member("status", status);
            let result_json = two_members("result", result, "saved_path", saved_path);
            plain_outputs(
                id,
                ToolFamily::Image,
                ToolKind::ImageGeneration,
                "Image generation".to_string(),
                revised_prompt,
                invocation,
                Some(result_json),
                started,
                now,
            )
        },
        ThreadItem::EnteredReviewMode { id, review } => {
            if started {
                return Vec::new();
            }
            let summary = copy_string(&review);
            let row = NoticeRow {
                id,
                severity: NoticeRowSeverity::Info,
                title: "Review mode".to_string(),
                summary: Some(summary),
                body: Some(review),
            };
            vec![row_created_output(row_entry(ConversationRow::Notice(row)))]
        },
        ThreadItem::ExitedReviewMode { id, review } => {
            if started {
                return Vec::new();
            }
            let row = message_row(id, review, now);
            vec![row_created_output(row_entry(ConversationRow::Assistant(row)))]
        },
        ThreadItem::ContextCompaction { id } => {
            let title = if started {
                "Compacting context".to_string()
            } else {
                "Context compacted".to_string()
            };
            let empty: Vec<(String, String)> = Vec::new();
            let invocation = json_object_text(empty.as_slice());
            assert(members_view(empty@) =~= Seq::<(Seq<char>, Seq<char>)>::empty());
            let result = if started {
                None
            } else {
                Some(one_member("summary", json_quote("Context compacted")))
            };
            plain_outputs(
                id,
                ToolFamily::Context,
                ToolKind::CompactContext,
                title,
                None,
                invocation,
                result,
                started,
                now,
            )
        },
        ThreadItem::Other => Vec::new(),
    }
}

} // verus!
