//! How the runtime's tool events become tool rows: shell commands with
//! their streamed output and the environment they run in, patches, MCP
//! calls, web searches, images and dynamic tools.

use crate::codex::buffers::{tail_within, OutputBufferState, OUTPUT_PREVIEW_CHAR_LIMIT};
use crate::codex::item_rows::{stamp_if, string_bytes};
use crate::codex::signals::{adds_row, bare_entry, replaces_row, row_created_output, row_entry, row_updated_output, state_output};
use crate::codex::tools::{
    display_command, display_command_from_exec_tokens, final_output, output_summary, stdin_echo,
    summarize_shell_output, terminal_exec_output, terminal_stdin_echo, tool_status_from_exec_end,
    ExecCommandStatus,
};
use crate::json::{json_int, json_int_text, json_object, json_object_text, json_quote, members_view, spec_json_quote};
use crate::keyed::TextMap;
use crate::text::{copy_opt_string, copy_string, opt_string_view, str_eq, strs_view, trim, trim_str};
use crate::transition::connector::{ConnectorOutput, ConnectorStateEvent, ConnectorTransportEffect};
use crate::transition::model::{ConversationRow, EntryView, Provider, RowView, ToolFamily, ToolKind, ToolRow, ToolRowView, ToolStatus};
use vstd::prelude::*;

verus! {

/// How long streamed command output waits before its row is sent again,
/// in milliseconds.
pub const OUTPUT_STREAM_THROTTLE_MS: u64 = 120;

// ---------------------------------------------------------------------------
// Bytes
// ---------------------------------------------------------------------------

/// What `String::from_utf8_lossy` makes of bytes.
pub uninterp spec fn spec_utf8_lossy(bytes: Seq<u8>) -> Seq<char>;

/// `String::from_utf8_lossy`, named by `spec_utf8_lossy`: bytes that are
/// valid UTF-8 give the text they encode; of others (whose invalid parts
/// become replacement characters) nothing more is claimed.
#[verifier::external_body]
pub(crate) fn utf8_lossy(bytes: &[u8]) -> (r: String)
    ensures
        r@ == spec_utf8_lossy(bytes@),
        vstd::utf8::valid_utf8(bytes@) ==> r@ == vstd::utf8::decode_utf8(bytes@),
{
    String::from_utf8_lossy(bytes).to_string()
}

// ---------------------------------------------------------------------------
// Environment
// ---------------------------------------------------------------------------

/// Where the session last ran: its directory and the branch and commit
/// there.
#[derive(Debug, Clone)]
pub struct EnvironmentTracker {
    pub cwd: Option<String>,
    pub branch: Option<String>,
    pub sha: Option<String>,
}

/// What git says of a directory: its branch and commit, when known.
#[derive(Debug, Clone)]
pub struct GitInfo {
    pub branch: Option<String>,
    pub commit_hash: Option<String>,
}

/// The environment as values: directory, branch and commit.
pub open spec fn env_view(t: EnvironmentTracker) -> (Option<Seq<char>>, Option<Seq<char>>, Option<Seq<char>>) {
    (opt_string_view(t.cwd), opt_string_view(t.branch), opt_string_view(t.sha))
}

/// The branch and commit git reports, none when it reports nothing.
pub open spec fn git_view(g: Option<GitInfo>) -> (Option<Seq<char>>, Option<Seq<char>>) {
    match g {
        Some(i) => (opt_string_view(i.branch), opt_string_view(i.commit_hash)),
        None => (None, None),
    }
}

// ---------------------------------------------------------------------------
// Shell commands
// ---------------------------------------------------------------------------

/// The invocation of a shell call: its command and directory.
pub open spec fn shell_invocation(command: Seq<char>, cwd: Seq<char>) -> Seq<char> {
    json_object(seq![("command"@, spec_json_quote(command)), ("cwd"@, spec_json_quote(cwd))])
}

fn shell_invocation_text(command: &str, cwd: &str) -> (r: String)
    ensures
        r@ == shell_invocation(command@, cwd@),
{
    let ghost expected = seq![("command"@, spec_json_quote(command@)), ("cwd"@, spec_json_quote(cwd@))];
    let members = vec![("command".to_string(), json_quote(command)), ("cwd".to_string(), json_quote(cwd))];
    assert(members_view(members@) == expected);
    json_object_text(members.as_slice())
}

/// The row of a shell call: titled with its command, its directory as
/// subtitle.
pub open spec fn shell_row(
    id: Seq<char>,
    status: ToolStatus,
    command: Seq<char>,
    cwd: Seq<char>,
    summary: Option<Seq<char>>,
    started_at: Option<Seq<char>>,
    ended_at: Option<Seq<char>>,
    duration_ms: Option<u64>,
    result: Option<Seq<char>>,
) -> ToolRowView {
    ToolRowView {
        id,
        provider: Provider::Codex,
        family: ToolFamily::Shell,
        kind: ToolKind::Bash,
        status,
        title: command,
        subtitle: Some(cwd),
        summary,
        started_at,
        ended_at,
        duration_ms,
        invocation: shell_invocation(command, cwd),
        result,
    }
}

fn shell_tool_row(
    id: String,
    status: ToolStatus,
    command: &str,
    cwd: &str,
    summary: Option<String>,
    started_at: Option<String>,
    ended_at: Option<String>,
    duration_ms: Option<u64>,
    result: Option<String>,
) -> (r: ToolRow)
    ensures
        r@ == shell_row(
            id@,
            status,
            command@,
            cwd@,
            opt_string_view(summary),
            opt_string_view(started_at),
            opt_string_view(ended_at),
            duration_ms,
            opt_string_view(result),
        ),
{
    ToolRow {
        id,
        provider: Provider::Codex,
        family: ToolFamily::Shell,
        kind: ToolKind::Bash,
        status,
        title: command.to_string(),
        subtitle: Some(cwd.to_string()),
        summary,
        started_at,
        ended_at,
        duration_ms,
        invocation: shell_invocation_text(command, cwd),
        result,
    }
}

/// The row of a running shell call that is sent again, unstamped.
pub open spec fn running_shell_entry(id: Seq<char>, b: OutputBufferState) -> EntryView {
    bare_entry(RowView::Tool(shell_row(id, ToolStatus::Running, b.command@, b.cwd@, None, None, None, None, None)))
}

/// A shell call begins.
#[derive(Debug, Clone)]
pub struct ExecCommandBegin {
    pub call_id: String,
    pub command: Vec<String>,
    /// The directory as displayed.
    pub cwd: String,
    pub process_id: Option<String>,
}

/// Whether the environment a call runs in differs from the one known.
pub open spec fn env_differs(
    known: (Option<Seq<char>>, Option<Seq<char>>, Option<Seq<char>>),
    cwd: Seq<char>,
    git: (Option<Seq<char>>, Option<Seq<char>>),
) -> bool {
    known.0 != Some(cwd) || known.1 != git.0 || known.2 != git.1
}

/// `o` reports the environment: directory, branch and commit.
pub open spec fn reports_environment(
    o: ConnectorOutput,
    cwd: Seq<char>,
    git: (Option<Seq<char>>, Option<Seq<char>>),
) -> bool {
    &&& o matches ConnectorOutput::State(ConnectorStateEvent::EnvironmentChanged { cwd: c, git_branch, git_sha })
    &&& opt_string_view(o->State_0->EnvironmentChanged_cwd) == Some(cwd)
    &&& opt_string_view(o->State_0->EnvironmentChanged_git_branch) == git.0
    &&& opt_string_view(o->State_0->EnvironmentChanged_git_sha) == git.1
}

/// What a shell call's begin sends: the environment when it changed, the
/// creation of the call's terminal, and its running row stamped `now`.
pub open spec fn exec_begin_outputs(
    id: Seq<char>,
    command: Seq<char>,
    cwd: Seq<char>,
    git: (Option<Seq<char>>, Option<Seq<char>>),
    changed: bool,
    now: Seq<char>,
    r: Seq<ConnectorOutput>,
) -> bool {
    let k: int = if changed {
        1
    } else {
        0
    };
    &&& r.len() == k + 2
    &&& changed ==> reports_environment(r[0], cwd, git)
    &&& r[k] matches ConnectorOutput::Transport(ConnectorTransportEffect::ToolPtyCreated { tool_id })
    &&& r[k]->Transport_0->ToolPtyCreated_tool_id@ == id
    &&& adds_row(
        r[k + 1],
        bare_entry(
            RowView::Tool(shell_row(id, ToolStatus::Running, command, cwd, None, Some(now), None, None, None)),
        ),
    )
}

/// A shell call begins: its output starts buffering under its call id
/// (the send clock set to `clock_ms`), the session's directory becomes the
/// call's, and the environment (with what git says of the directory) is
/// reported when it changed.
pub fn handle_exec_command_begin(
    buffers: &mut TextMap<OutputBufferState>,
    tracker: &mut EnvironmentTracker,
    current_cwd: &mut String,
    event: ExecCommandBegin,
    git_info: Option<GitInfo>,
    now: &str,
    clock_ms: u64,
) -> (r: Vec<ConnectorOutput>)
    ensures
        ({
            let id = event.call_id@;
            let command = display_command(strs_view(event.command@));
            let git = git_view(git_info);
            let changed = env_differs(env_view(*old(tracker)), event.cwd@, git);
            &&& final(buffers)@.remove(id) == old(buffers)@.remove(id)
            &&& final(buffers)@.contains_key(id)
            &&& final(buffers)@[id].command@ == command
            &&& final(buffers)@[id].cwd@ == event.cwd@
            &&& final(buffers)@[id].process_id == event.process_id
            &&& final(buffers)@[id].full_output@.len() == 0
            &&& final(buffers)@[id].preview_output@.len() == 0
            &&& final(buffers)@[id].last_broadcast_ms == clock_ms
            &&& final(current_cwd)@ == event.cwd@
            &&& env_view(*final(tracker)) == (if changed {
                (Some(event.cwd@), git.0, git.1)
            } else {
                env_view(*old(tracker))
            })
            &&& exec_begin_outputs(id, command, event.cwd@, git, changed, now@, r@)
        }),
{
    let ghost e = event;
    let ghost old_buffers = buffers@;
    let command = display_command_from_exec_tokens(event.command.as_slice());
    let state = OutputBufferState {
        command: copy_string(&command),
        cwd: copy_string(&event.cwd),
        process_id: event.process_id,
        full_output: String::new(),
        preview_output: String::new(),
        last_broadcast_ms: clock_ms,
    };
    buffers.insert(copy_string(&event.call_id), state);
    assert(buffers@.remove(e.call_id@) =~= old_buffers.remove(e.call_id@));
    *current_cwd = copy_string(&event.cwd);
    let (branch, sha) = match git_info {
        Some(info) => (info.branch, info.commit_hash),
        None => (None, None),
    };
    let cwd_same = match &tracker.cwd {
        Some(c) => str_eq(c.as_str(), event.cwd.as_str()),
        None => false,
    };
    let branch_same = match (&tracker.branch, &branch) {
        (Some(a), Some(b)) => str_eq(a.as_str(), b.as_str()),
        (None, None) => true,
        _ => false,
    };
    let sha_same = match (&tracker.sha, &sha) {
        (Some(a), Some(b)) => str_eq(a.as_str(), b.as_str()),
        (None, None) => true,
        _ => false,
    };
    let mut out: Vec<ConnectorOutput> = Vec::new();
    if !cwd_same || !branch_same || !sha_same {
        tracker.cwd = Some(copy_string(&event.cwd));
        tracker.branch = copy_opt_string(&branch);
        tracker.sha = copy_opt_string(&sha);
        out.push(
            state_output(
                ConnectorStateEvent::EnvironmentChanged {
                    cwd: Some(copy_string(&event.cwd)),
                    git_branch: branch,
                    git_sha: sha,
                },
            ),
        );
    }
    out.push(
        ConnectorOutput::Transport(ConnectorTransportEffect::ToolPtyCreated { tool_id: copy_string(&event.call_id) }),
    );
    let row = shell_tool_row(
        event.call_id,
        ToolStatus::Running,
        command.as_str(),
        event.cwd.as_str(),
        None,
        Some(now.to_string()),
        None,
        None,
        None,
    );
    out.push(row_created_output(row_entry(ConversationRow::Tool(row))));
    out
}

/// What a piece of a shell call's output does: its bytes go to the call's
/// terminal when there are any; when the call's output is buffered, the
/// text is added to it and, once the throttle's time since the last send
/// has passed, the running row is sent again if there is a preview.
pub open spec fn exec_delta_step(
    b0: Map<Seq<char>, OutputBufferState>,
    id: Seq<char>,
    chunk: Seq<u8>,
    b1: Map<Seq<char>, OutputBufferState>,
    r: Seq<ConnectorOutput>,
    clock_ms: u64,
) -> bool {
    let k: int = if chunk.len() > 0 {
        1
    } else {
        0
    };
    let text = spec_utf8_lossy(chunk);
    &&& chunk.len() > 0 ==> (r[0] matches ConnectorOutput::Transport(
        ConnectorTransportEffect::ToolPtyOutput { tool_id, bytes },
    ) && tool_id@ == id && bytes@ == chunk)
    &&& !b0.contains_key(id) ==> b1 == b0 && r.len() == k
    &&& b0.contains_key(id) ==> {
        let s = b0[id];
        let due = clock_ms >= s.last_broadcast_ms + OUTPUT_STREAM_THROTTLE_MS;
        let preview = tail_within(s.preview_output@ + text, OUTPUT_PREVIEW_CHAR_LIMIT as nat);
        &&& b1.remove(id) == b0.remove(id)
        &&& b1.contains_key(id)
        &&& b1[id].command == s.command
        &&& b1[id].cwd == s.cwd
        &&& b1[id].process_id == s.process_id
        &&& b1[id].full_output@ == s.full_output@ + text
        &&& b1[id].preview_output@ == preview
        &&& b1[id].last_broadcast_ms == (if due {
            clock_ms
        } else {
            s.last_broadcast_ms
        })
        &&& r.len() == k + (if due && preview.len() > 0 {
            1int
        } else {
            0int
        })
        &&& due && preview.len() > 0 ==> replaces_row(r[k], id, running_shell_entry(id, s))
    }
}

/// A piece of a shell call's output.
pub fn handle_exec_command_output_delta(
    buffers: &mut TextMap<OutputBufferState>,
    call_id: String,
    chunk: Vec<u8>,
    clock_ms: u64,
) -> (r: Vec<ConnectorOutput>)
    ensures
        exec_delta_step(old(buffers)@, call_id@, chunk@, final(buffers)@, r@, clock_ms),
{
    let ghost b0 = buffers@;
    let ghost chunk_v = chunk@;
    let mut events: Vec<ConnectorOutput> = Vec::new();
    let text = utf8_lossy(chunk.as_slice());
    if chunk.len() > 0 {
        events.push(
            ConnectorOutput::Transport(
                ConnectorTransportEffect::ToolPtyOutput { tool_id: copy_string(&call_id), bytes: chunk },
            ),
        );
    }
    let taken = buffers.take(call_id.as_str());
    match taken {
        None => {
            assert(buffers@ =~= b0);
            events
        },
        Some(mut state) => {
            let ghost s = state;
            state.append(text.as_str());
            let due = clock_ms >= state.last_broadcast_ms && clock_ms - state.last_broadcast_ms
                >= OUTPUT_STREAM_THROTTLE_MS;
            if !due {
                buffers.insert(copy_string(&call_id), state);
                assert(buffers@.remove(call_id@) =~= b0.remove(call_id@));
                return events;
            }
            state.last_broadcast_ms = clock_ms;
            let preview = state.preview();
            let has_preview = preview.is_some();
            let row = shell_tool_row(
                copy_string(&call_id),
                ToolStatus::Running,
                state.command.as_str(),
                state.cwd.as_str(),
                None,
                None,
                None,
                None,
                None,
            );
            buffers.insert(copy_string(&call_id), state);
            assert(buffers@.remove(call_id@) =~= b0.remove(call_id@));
            if has_preview {
                events.push(row_updated_output(call_id, row_entry(ConversationRow::Tool(row))));
            }
            events
        },
    }
}

/// A shell call ends. Its directory is as displayed; its duration is in
/// milliseconds.
#[derive(Debug, Clone)]
pub struct ExecCommandEnd {
    pub call_id: String,
    pub command: Vec<String>,
    pub cwd: String,
    pub exit_code: i32,
    pub duration_ms: u64,
    pub status: ExecCommandStatus,
    pub aggregated_output: String,
    pub formatted_output: String,
    pub stdout: String,
    pub stderr: String,
}

/// The status of a finished shell call.
pub open spec fn exec_end_status(status: ExecCommandStatus, exit_code: i32) -> ToolStatus {
    match status {
        ExecCommandStatus::Declined => ToolStatus::Cancelled,
        ExecCommandStatus::Failed => ToolStatus::Failed,
        ExecCommandStatus::Completed => if exit_code == 0 {
            ToolStatus::Completed
        } else {
            ToolStatus::Failed
        },
    }
}

/// The result of a finished shell call with output: the tool, the output
/// and the exit code.
pub open spec fn exec_result(output: Seq<char>, exit_code: i32) -> Seq<char> {
    json_object(
        seq![
            ("tool_name"@, spec_json_quote("Bash"@)),
            ("output"@, spec_json_quote(output)),
            ("exit_code"@, json_int(exit_code as int)),
        ],
    )
}

/// The row of a finished shell call, given the output streamed while it
/// ran: its output (what it reported, or the streamed output when that is
/// richer) summarised and as result, stamped `now` with its duration.
pub open spec fn exec_end_row(e: ExecCommandEnd, streamed: Seq<char>, now: Seq<char>) -> ToolRowView {
    let output = final_output(e.aggregated_output@, e.formatted_output@, e.stdout@, e.stderr@, streamed);
    shell_row(
        e.call_id@,
        exec_end_status(e.status, e.exit_code),
        display_command(strs_view(e.command@)),
        e.cwd@,
        match output {
            Some(o) => Some(output_summary(o)),
            None => None,
        },
        None,
        Some(now),
        Some(e.duration_ms),
        match output {
            Some(o) => Some(exec_result(o, e.exit_code)),
            None => None,
        },
    )
}

fn exec_result_text(output: &str, exit_code: i32) -> (r: String)
    ensures
        r@ == exec_result(output@, exit_code),
{
    let ghost expected = seq![
        ("tool_name"@, spec_json_quote("Bash"@)),
        ("output"@, spec_json_quote(output@)),
        ("exit_code"@, json_int(exit_code as int)),
    ];
    let members = vec![
        ("tool_name".to_string(), json_quote("Bash")),
        ("output".to_string(), json_quote(output)),
        ("exit_code".to_string(), json_int_text(exit_code as i64)),
    ];
    assert(members_view(members@) == expected);
    json_object_text(members.as_slice())
}

/// A shell call ends: its buffered output is dropped and used for its
/// row; its terminal exits with its code and its row is updated.
pub fn handle_exec_command_end(buffers: &mut TextMap<OutputBufferState>, event: ExecCommandEnd, now: &str) -> (r:
    Vec<ConnectorOutput>)
    ensures
        final(buffers)@ == old(buffers)@.remove(event.call_id@),
        r@.len() == 2,
        r@[0] matches ConnectorOutput::Transport(ConnectorTransportEffect::ToolPtyExited { tool_id, exit_code })
            && tool_id@ == event.call_id@ && exit_code == Some(event.exit_code),
        replaces_row(
            r@[1],
            event.call_id@,
            bare_entry(
                RowView::Tool(
                    exec_end_row(
                        event,
                        if old(buffers)@.contains_key(event.call_id@) {
                            old(buffers)@[event.call_id@].full_output@
                        } else {
                            Seq::empty()
                        },
                        now@,
                    ),
                ),
            ),
        ),
{
    let ghost e = event;
    let streamed = match buffers.take(event.call_id.as_str()) {
        Some(state) => state.full_output,
        None => String::new(),
    };
    let status = tool_status_from_exec_end(event.status, event.exit_code);
    let command = display_command_from_exec_tokens(event.command.as_slice());
    let output = terminal_exec_output(
        event.aggregated_output.as_str(),
        event.formatted_output.as_str(),
        event.stdout.as_str(),
        event.stderr.as_str(),
        streamed,
    );
    let (summary, result) = match &output {
        Some(o) => (Some(summarize_shell_output(o.as_str())), Some(exec_result_text(o.as_str(), event.exit_code))),
        None => (None, None),
    };
    let row = shell_tool_row(
        copy_string(&event.call_id),
        status,
        command.as_str(),
        event.cwd.as_str(),
        summary,
        None,
        Some(now.to_string()),
        Some(event.duration_ms),
        result,
    );
    let exited = ConnectorOutput::Transport(
        ConnectorTransportEffect::ToolPtyExited { tool_id: copy_string(&event.call_id), exit_code: Some(event.exit_code) },
    );
    vec![exited, row_updated_output(event.call_id, row_entry(ConversationRow::Tool(row)))]
}

/// Input typed into a running shell call: when the call's output is
/// buffered with a command and a directory that are not blank, the input
/// (ending in a newline) is added to its output, its send clock is set and
/// its running row is sent again; otherwise nothing happens.
pub fn handle_terminal_interaction(
    buffers: &mut TextMap<OutputBufferState>,
    call_id: String,
    stdin: &str,
    clock_ms: u64,
) -> (r: Vec<ConnectorOutput>)
    ensures
        ({
            let id = call_id@;
            let known = old(buffers)@.contains_key(id) && trim(old(buffers)@[id].command@).len() > 0 && trim(
                old(buffers)@[id].cwd@,
            ).len() > 0;
            &&& !known ==> final(buffers)@ == old(buffers)@ && r@.len() == 0
            &&& known ==> {
                let s = old(buffers)@[id];
                let echo = stdin_echo(stdin@);
                &&& final(buffers)@.remove(id) == old(buffers)@.remove(id)
                &&& final(buffers)@.contains_key(id)
                &&& final(buffers)@[id].command == s.command
                &&& final(buffers)@[id].cwd == s.cwd
                &&& final(buffers)@[id].process_id == s.process_id
                &&& final(buffers)@[id].full_output@ == s.full_output@ + echo
                &&& final(buffers)@[id].preview_output@ == tail_within(
                    s.preview_output@ + echo,
                    OUTPUT_PREVIEW_CHAR_LIMIT as nat,
                )
                &&& final(buffers)@[id].last_broadcast_ms == clock_ms
                &&& r@.len() == 1
                &&& replaces_row(r@[0], id, running_shell_entry(id, s))
            }
        }),
{
    let ghost b0 = buffers@;
    let snippet = terminal_stdin_echo(stdin);
    let usable = match buffers.get(call_id.as_str()) {
        Some(state) => trim_str(state.command.as_str()).as_str().unicode_len() > 0 && trim_str(
            state.cwd.as_str(),
        ).as_str().unicode_len() > 0,
        None => false,
    };
    if !usable {
        return Vec::new();
    }
    let taken = buffers.take(call_id.as_str());
    match taken {
        None => {
            assert(false);
            Vec::new()
        },
        Some(mut state) => {
            state.append(snippet.as_str());
            state.last_broadcast_ms = clock_ms;
            let row = shell_tool_row(
                copy_string(&call_id),
                ToolStatus::Running,
                state.command.as_str(),
                state.cwd.as_str(),
                None,
                None,
                None,
                None,
                None,
            );
            buffers.insert(copy_string(&call_id), state);
            assert(buffers@.remove(call_id@) =~= b0.remove(call_id@));
            vec![row_updated_output(call_id, row_entry(ConversationRow::Tool(row)))]
        },
    }
}

} // verus!
