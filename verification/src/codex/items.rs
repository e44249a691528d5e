//! The status of the items the app server reports, and the diffs of file
//! changes.

use crate::codex::format::{marked_lines, prefixed_lines};
use crate::json::{
    chars_lt, json_array, json_array_text, json_object, json_object_text, json_quote, members_view,
    spec_json_quote,
};
use crate::text::{concat3, concat_str, has_prefix, join, str_starts_with, strs_view, join_strings};
use crate::transition::model::{SubagentStatus, ToolKind, ToolStatus};
use crate::transition::subagents::str_lt;
use vstd::prelude::*;

verus! {

// ---------------------------------------------------------------------------
// Statuses
// ---------------------------------------------------------------------------

/// Where a command execution stands.
#[derive(Debug, Clone, Copy, PartialEq, Eq, Structural)]
pub enum CommandExecutionStatus {
    InProgress,
    Completed,
    Failed,
    Declined,
}

/// The tool status of a command execution: running while it runs; when it
/// is reported in progress but no longer runs, its exit code decides.
pub open spec fn command_status(status: CommandExecutionStatus, is_running: bool, exit_code: Option<i32>) -> ToolStatus {
    if is_running {
        ToolStatus::Running
    } else {
        match status {
            CommandExecutionStatus::Completed => ToolStatus::Completed,
            CommandExecutionStatus::Failed => ToolStatus::Failed,
            CommandExecutionStatus::Declined => ToolStatus::Cancelled,
            CommandExecutionStatus::InProgress => if exit_code == Some(0i32) {
                ToolStatus::Completed
            } else {
                ToolStatus::Failed
            },
        }
    }
}

/// A command's tool status follows how it ended: a running command is
/// shown running; once stopped, one that completed is shown completed, one
/// that failed is shown failed, one that was declined is shown cancelled,
/// and one still reported in progress is shown completed exactly when it
/// exited with code 0 (failed otherwise). A command that failed or was
/// declined is never shown completed.
pub proof fn law_command_status_follows_its_outcome(status: CommandExecutionStatus, exit_code: Option<i32>)
    ensures
        command_status(status, true, exit_code) == ToolStatus::Running,
        command_status(CommandExecutionStatus::Completed, false, exit_code) == ToolStatus::Completed,
        command_status(CommandExecutionStatus::Failed, false, exit_code) == ToolStatus::Failed,
        command_status(CommandExecutionStatus::Declined, false, exit_code) == ToolStatus::Cancelled,
        command_status(CommandExecutionStatus::InProgress, false, exit_code) == (if exit_code == Some(0i32) {
            ToolStatus::Completed
        } else {
            ToolStatus::Failed
        }),
        (status == CommandExecutionStatus::Failed || status == CommandExecutionStatus::Declined)
            ==> command_status(status, false, exit_code) != ToolStatus::Completed,
{
}

/// The tool status of a command execution.
pub fn command_execution_tool_status(
    status: CommandExecutionStatus,
    is_running: bool,
    exit_code: Option<i32>,
) -> (r: ToolStatus)
    ensures
        r == command_status(status, is_running, exit_code),
{
    if is_running {
        return ToolStatus::Running;
    }
    match status {
        CommandExecutionStatus::Completed => ToolStatus::Completed,
        CommandExecutionStatus::Failed => ToolStatus::Failed,
        CommandExecutionStatus::Declined => ToolStatus::Cancelled,
        CommandExecutionStatus::InProgress => {
            let code = match exit_code {
                Some(c) => c,
                None => 1,
            };
            if code == 0 {
                ToolStatus::Completed
            } else {
                ToolStatus::Failed
            }
        },
    }
}

/// Where applying a patch stands.
#[derive(Debug, Clone, Copy, PartialEq, Eq, Structural)]
pub enum PatchApplyStatus {
    InProgress,
    Completed,
    Failed,
    Declined,
}

/// The tool status of a file change: running while it starts or is in
/// progress.
pub open spec fn patch_status(status: PatchApplyStatus, started: bool) -> ToolStatus {
    if started {
        ToolStatus::Running
    } else {
        match status {
            PatchApplyStatus::InProgress => ToolStatus::Running,
            PatchApplyStatus::Completed => ToolStatus::Completed,
            PatchApplyStatus::Failed => ToolStatus::Failed,
            PatchApplyStatus::Declined => ToolStatus::Cancelled,
        }
    }
}

/// The tool status of a file change.
pub fn file_change_tool_status(status: PatchApplyStatus, started: bool) -> (r: ToolStatus)
    ensures
        r == patch_status(status, started),
{
    if started {
        return ToolStatus::Running;
    }
    match status {
        PatchApplyStatus::InProgress => ToolStatus::Running,
        PatchApplyStatus::Completed => ToolStatus::Completed,
        PatchApplyStatus::Failed => ToolStatus::Failed,
        PatchApplyStatus::Declined => ToolStatus::Cancelled,
    }
}

/// Where an automatic review of an approval stands.
#[derive(Debug, Clone, Copy, PartialEq, Eq, Structural)]
pub enum GuardianApprovalReviewStatus {
    InProgress,
    Approved,
    Denied,
    TimedOut,
    Aborted,
}

/// The tool status of an automatic review: denied and timed-out reviews
/// fail, aborted ones are cancelled.
pub open spec fn review_status(status: GuardianApprovalReviewStatus, started: bool) -> ToolStatus {
    if started {
        ToolStatus::Running
    } else {
        match status {
            GuardianApprovalReviewStatus::InProgress => ToolStatus::Running,
            GuardianApprovalReviewStatus::Approved => ToolStatus::Completed,
            GuardianApprovalReviewStatus::Denied => ToolStatus::Failed,
            GuardianApprovalReviewStatus::TimedOut => ToolStatus::Failed,
            GuardianApprovalReviewStatus::Aborted => ToolStatus::Cancelled,
        }
    }
}

/// The tool status of an automatic review.
pub fn guardian_review_status(status: GuardianApprovalReviewStatus, started: bool) -> (r: ToolStatus)
    ensures
        r == review_status(status, started),
{
    if started {
        return ToolStatus::Running;
    }
    match status {
        GuardianApprovalReviewStatus::InProgress => ToolStatus::Running,
        GuardianApprovalReviewStatus::Approved => ToolStatus::Completed,
        GuardianApprovalReviewStatus::Denied => ToolStatus::Failed,
        GuardianApprovalReviewStatus::TimedOut => ToolStatus::Failed,
        GuardianApprovalReviewStatus::Aborted => ToolStatus::Cancelled,
    }
}

/// How an automatic review's status reads.
pub open spec fn review_label(status: GuardianApprovalReviewStatus) -> Seq<char> {
    match status {
        GuardianApprovalReviewStatus::InProgress => "reviewing"@,
        GuardianApprovalReviewStatus::Approved => "approved"@,
        GuardianApprovalReviewStatus::Denied => "denied"@,
        GuardianApprovalReviewStatus::TimedOut => "timed out"@,
        GuardianApprovalReviewStatus::Aborted => "aborted"@,
    }
}

/// The label of an automatic review's status.
pub fn guardian_review_status_label(status: GuardianApprovalReviewStatus) -> (r: &'static str)
    ensures
        r@ == review_label(status),
{
    match status {
        GuardianApprovalReviewStatus::InProgress => "reviewing",
        GuardianApprovalReviewStatus::Approved => "approved",
        GuardianApprovalReviewStatus::Denied => "denied",
        GuardianApprovalReviewStatus::TimedOut => "timed out",
        GuardianApprovalReviewStatus::Aborted => "aborted",
    }
}

// ---------------------------------------------------------------------------
// Diffs of file changes
// ---------------------------------------------------------------------------

/// What a change does to a file, as the app server reports it.
#[derive(Debug, Clone, PartialEq, Eq)]
pub enum PatchChangeKind {
    Add,
    Delete,
    Update { move_path: Option<String> },
}

/// One changed file: its path, what happens to it, and its text (the new
/// content, the removed content or a diff).
#[derive(Debug, Clone, PartialEq, Eq)]
pub struct FileUpdateChange {
    pub path: String,
    pub kind: PatchChangeKind,
    pub diff: String,
    /// The change as the app server sent it, as JSON text.
    pub raw: String,
}

/// The unified diff of a changed file: a text that already is a diff stays
/// as it is; added and deleted content becomes a diff against nothing; an
/// update gets the headers of its old and new path.
pub open spec fn update_diff(path: Seq<char>, kind: PatchChangeKind, diff: Seq<char>) -> Seq<char> {
    if has_prefix(diff, "--- "@) || has_prefix(diff, "diff --git "@) {
        diff
    } else {
        match kind {
            PatchChangeKind::Add => "--- /dev/null\n+++ "@ + path + "\n"@ + marked_lines(diff, '+'),
            PatchChangeKind::Delete => "--- "@ + path + "\n+++ /dev/null\n"@ + marked_lines(diff, '-'),
            PatchChangeKind::Update { move_path } => "--- "@ + path + "\n+++ "@ + (match move_path {
                Some(p) => p@,
                None => path,
            }) + "\n"@ + diff,
        }
    }
}

/// The unified diff of one changed file.
pub fn file_update_change_unified_diff(change: &FileUpdateChange) -> (r: String)
    ensures
        r@ == update_diff(change.path@, change.kind, change.diff@),
{
    let diff = change.diff.as_str();
    if str_starts_with(diff, "--- ") || str_starts_with(diff, "diff --git ") {
        return diff.to_string();
    }
    let path = change.path.as_str();
    match &change.kind {
        PatchChangeKind::Add => {
            let content = prefixed_lines(diff, '+');
            let head = concat3("--- /dev/null\n+++ ", path, "\n");
            concat_str(head.as_str(), content.as_str())
        },
        PatchChangeKind::Delete => {
            let content = prefixed_lines(diff, '-');
            let head = concat3("--- ", path, "\n+++ /dev/null\n");
            concat_str(head.as_str(), content.as_str())
        },
        PatchChangeKind::Update { move_path } => {
            let new_path = match move_path {
                Some(p) => p.as_str(),
                None => path,
            };
            let head = concat3("--- ", path, "\n+++ ");
            let head2 = concat3(head.as_str(), new_path, "\n");
            concat_str(head2.as_str(), diff)
        },
    }
}

/// What a change does to a file, as the runtime reports it.
#[derive(Debug, Clone, PartialEq, Eq)]
pub enum FileChange {
    Add { content: String },
    Delete { content: String },
    Update { unified_diff: String, move_path: Option<String> },
}

/// The unified diff of a file change of the runtime: added and deleted
/// content becomes a diff against nothing, an update gets headers naming
/// its path twice.
pub open spec fn change_diff(path: Seq<char>, change: FileChange) -> Seq<char> {
    match change {
        FileChange::Add { content } => "--- /dev/null\n+++ "@ + path + "\n"@ + marked_lines(content@, '+'),
        FileChange::Delete { content } => "--- "@ + path + "\n+++ /dev/null\n"@ + marked_lines(content@, '-'),
        FileChange::Update { unified_diff, .. } => "--- "@ + path + "\n+++ "@ + path + "\n"@ + unified_diff@,
    }
}

/// The unified diff of a file change of the runtime; `path` is the file's
/// path as displayed.
pub fn file_change_unified_diff(path: &str, change: &FileChange) -> (r: String)
    ensures
        r@ == change_diff(path@, *change),
{
    match change {
        FileChange::Add { content } => {
            let body = prefixed_lines(content.as_str(), '+');
            let head = concat3("--- /dev/null\n+++ ", path, "\n");
            concat_str(head.as_str(), body.as_str())
        },
        FileChange::Delete { content } => {
            let body = prefixed_lines(content.as_str(), '-');
            let head = concat3("--- ", path, "\n+++ /dev/null\n");
            concat_str(head.as_str(), body.as_str())
        },
        FileChange::Update { unified_diff, .. } => {
            let head = concat3("--- ", path, "\n+++ ");
            let head2 = concat3(head.as_str(), path, "\n");
            concat_str(head2.as_str(), unified_diff.as_str())
        },
    }
}

/// A changed file as the invocation sees it: path, kind, text, and the
/// change as the app server sent it.
pub struct ChangeView {
    pub path: Seq<char>,
    pub kind: PatchChangeKind,
    pub diff: Seq<char>,
    pub raw: Seq<char>,
}

/// The view of a changed file.
pub open spec fn change_view(c: FileUpdateChange) -> ChangeView {
    ChangeView { path: c.path@, kind: c.kind, diff: c.diff@, raw: c.raw@ }
}

/// `a` placed after every change whose path does not sort after its own.
pub open spec fn insert_by_path(
    sorted: Seq<ChangeView>,
    a: ChangeView,
) -> Seq<ChangeView>
    decreases sorted.len(),
{
    if sorted.len() == 0 {
        seq![a]
    } else if !chars_lt(a.path, sorted.last().path) {
        sorted.push(a)
    } else {
        insert_by_path(sorted.drop_last(), a).push(sorted.last())
    }
}

/// The changes stably sorted by path.
pub open spec fn sort_by_path(list: Seq<ChangeView>) -> Seq<
    ChangeView,
>
    decreases list.len(),
{
    if list.len() == 0 {
        list
    } else {
        insert_by_path(sort_by_path(list.drop_last()), list.last())
    }
}

/// The changed files sorted by path, the diff of all of them (one file's
/// diff after another with a blank line between), and the invocation: the
/// first file's path (empty when there is none), the diff, and the changes
/// as sent, in the same order.
pub open spec fn change_invocation(changes: Seq<ChangeView>) -> (Seq<Seq<char>>, Seq<char>, Seq<char>) {
    let sorted = sort_by_path(changes);
    let files = sorted.map_values(|c: ChangeView| c.path);
    let diff = join(sorted.map_values(|c: ChangeView| update_diff(c.path, c.kind, c.diff)), "\n\n"@);
    let first = if files.len() > 0 {
        files[0]
    } else {
        Seq::empty()
    };
    (
        files,
        diff,
        json_object(
            seq![
                ("path"@, spec_json_quote(first)),
                ("diff"@, spec_json_quote(diff)),
                ("changes"@, json_array(sorted.map_values(|c: ChangeView| c.raw))),
            ],
        ),
    )
}

proof fn lemma_insert_by_path_at(
    sorted: Seq<ChangeView>,
    a: ChangeView,
    j: int,
)
    requires
        0 <= j <= sorted.len(),
        j == 0 || !chars_lt(a.path, sorted[j - 1].path),
        forall|k: int| j <= k < sorted.len() ==> chars_lt(a.path, (#[trigger] sorted[k]).path),
    ensures
        insert_by_path(sorted, a) == sorted.take(j) + seq![a] + sorted.skip(j),
    decreases sorted.len(),
{
    if j == sorted.len() {
        assert(sorted.take(j) =~= sorted);
        assert(sorted.skip(j) =~= Seq::<ChangeView>::empty());
        if sorted.len() > 0 {
            assert(sorted.last() == sorted[j - 1]);
        }
        assert(insert_by_path(sorted, a) =~= sorted.take(j) + seq![a] + sorted.skip(j));
    } else {
        let last = sorted.last();
        assert(chars_lt(a.path, sorted[sorted.len() - 1].path));
        lemma_insert_by_path_at(sorted.drop_last(), a, j);
        assert(sorted.drop_last().take(j) =~= sorted.take(j));
        assert(sorted.drop_last().skip(j).push(last) =~= sorted.skip(j));
        assert(insert_by_path(sorted, a) =~= sorted.take(j) + seq![a] + sorted.skip(j));
    }
}

fn copy_change(c: &FileUpdateChange) -> (r: FileUpdateChange)
    ensures
        change_view(r) == change_view(*c),
{
    let kind = match &c.kind {
        PatchChangeKind::Add => PatchChangeKind::Add,
        PatchChangeKind::Delete => PatchChangeKind::Delete,
        PatchChangeKind::Update { move_path } => PatchChangeKind::Update {
            move_path: crate::text::copy_opt_string(move_path),
        },
    };
    FileUpdateChange {
        path: crate::text::copy_string(&c.path),
        kind,
        diff: crate::text::copy_string(&c.diff),
        raw: crate::text::copy_string(&c.raw),
    }
}

/// The views of a list of changes.
pub open spec fn changes_view(v: Seq<FileUpdateChange>) -> Seq<ChangeView> {
    v.map_values(|c: FileUpdateChange| change_view(c))
}

fn insert_change_sorted(sorted: &mut Vec<FileUpdateChange>, a: FileUpdateChange)
    ensures
        changes_view(final(sorted)@) == insert_by_path(changes_view(old(sorted)@), change_view(a)),
{
    let ghost v = changes_view(sorted@);
    let mut j = sorted.len();
    while j > 0 && str_lt(a.path.as_str(), sorted[j - 1].path.as_str())
        invariant
            j <= sorted.len(),
            v == changes_view(sorted@),
            forall|k: int| j <= k < v.len() ==> chars_lt(a.path@, (#[trigger] v[k]).path),
        decreases j,
    {
        assert(v[j - 1] == change_view(sorted@[j - 1]));
        j = j - 1;
    }
    proof {
        if j > 0 {
            assert(v[j - 1] == change_view(sorted@[j - 1]));
        }
        lemma_insert_by_path_at(v, change_view(a), j as int);
    }
    let ghost av = change_view(a);
    sorted.insert(j, a);
    assert(changes_view(sorted@) =~= v.take(j as int) + seq![av] + v.skip(j as int));
}

/// The files a patch changes, sorted by path, the diff of all of them, and
/// the patch's invocation as JSON text.
pub fn file_change_invocation(changes: &[FileUpdateChange]) -> (r: (Vec<String>, String, String))
    ensures
        (strs_view(r.0@), r.1@, r.2@) == change_invocation(changes_view(changes@)),
{
    let ghost cv = changes_view(changes@);
    let mut sorted: Vec<FileUpdateChange> = Vec::new();
    let mut m: usize = 0;
    assert(sort_by_path(cv.take(0)) =~= changes_view(sorted@));
    while m < changes.len()
        invariant
            m <= changes.len(),
            cv == changes_view(changes@),
            changes_view(sorted@) == sort_by_path(cv.take(m as int)),
        decreases changes.len() - m,
    {
        assert(cv.take(m + 1).drop_last() =~= cv.take(m as int));
        assert(cv.take(m + 1).last() == change_view(changes@[m as int]));
        insert_change_sorted(&mut sorted, copy_change(&changes[m]));
        m = m + 1;
    }
    assert(cv.take(changes.len() as int) =~= cv);
    let ghost sv = changes_view(sorted@);
    let mut files: Vec<String> = Vec::new();
    let mut diffs: Vec<String> = Vec::new();
    let mut raws: Vec<String> = Vec::new();
    let mut i: usize = 0;
    while i < sorted.len()
        invariant
            i <= sorted.len(),
            sv == changes_view(sorted@),
            strs_view(files@) =~= sv.take(i as int).map_values(|c: ChangeView| c.path),
            strs_view(diffs@) =~= sv.take(i as int).map_values(
                |c: ChangeView| update_diff(c.path, c.kind, c.diff),
            ),
            strs_view(raws@) =~= sv.take(i as int).map_values(|c: ChangeView| c.raw),
        decreases sorted.len() - i,
    {
        let path = crate::text::copy_string(&sorted[i].path);
        let d = file_update_change_unified_diff(&sorted[i]);
        let raw = crate::text::copy_string(&sorted[i].raw);
        assert(sv[i as int] == change_view(sorted@[i as int]));
        let ghost f0 = strs_view(files@);
        let ghost d0 = strs_view(diffs@);
        let ghost r0 = strs_view(raws@);
        let ghost pv = path@;
        let ghost dv = d@;
        let ghost rv = raw@;
        files.push(path);
        diffs.push(d);
        raws.push(raw);
        assert(strs_view(files@) =~= f0.push(pv));
        assert(strs_view(diffs@) =~= d0.push(dv));
        assert(strs_view(raws@) =~= r0.push(rv));
        let ghost c = sv[i as int];
        assert(sv.take(i + 1).map_values(|c: ChangeView| c.path) =~= sv.take(i as int).map_values(
            |c: ChangeView| c.path,
        ).push(c.path));
        assert(sv.take(i + 1).map_values(|c: ChangeView| update_diff(c.path, c.kind, c.diff))
            =~= sv.take(i as int).map_values(
            |c: ChangeView| update_diff(c.path, c.kind, c.diff),
        ).push(update_diff(c.path, c.kind, c.diff)));
        assert(sv.take(i + 1).map_values(|c: ChangeView| c.raw) =~= sv.take(i as int).map_values(
            |c: ChangeView| c.raw,
        ).push(c.raw));
        i = i + 1;
    }
    assert(sv.take(sorted.len() as int) =~= sv);
    let diff = join_strings(diffs.as_slice(), "\n\n");
    let first = if files.len() > 0 {
        crate::text::copy_string(&files[0])
    } else {
        String::new()
    };
    let changes_text = json_array_text(raws.as_slice());
    let members = vec![
        ("path".to_string(), json_quote(first.as_str())),
        ("diff".to_string(), json_quote(diff.as_str())),
        ("changes".to_string(), changes_text),
    ];
    let invocation = json_object_text(members.as_slice());
    assert(members_view(members@) =~= seq![
        ("path"@, spec_json_quote(first@)),
        ("diff"@, spec_json_quote(diff@)),
        ("changes"@, json_array(sv.map_values(|c: ChangeView| c.raw))),
    ]);
    (files, diff, invocation)
}

// ---------------------------------------------------------------------------
// Collaboration with other agents
// ---------------------------------------------------------------------------

/// What a call to another agent does.
#[derive(Debug, Clone, Copy, PartialEq, Eq, Structural)]
pub enum CollabAgentTool {
    SpawnAgent,
    SendInput,
    ResumeAgent,
    Wait,
    CloseAgent,
}

/// The tool kind and title of a call to another agent.
pub open spec fn collab_identity(tool: CollabAgentTool) -> (ToolKind, Seq<char>) {
    match tool {
        CollabAgentTool::SpawnAgent => (ToolKind::SpawnAgent, "Agent"@),
        CollabAgentTool::SendInput => (ToolKind::SendAgentInput, "Agent interaction"@),
        CollabAgentTool::ResumeAgent => (ToolKind::ResumeAgent, "Resume agent"@),
        CollabAgentTool::Wait => (ToolKind::WaitAgent, "Waiting for agents"@),
        CollabAgentTool::CloseAgent => (ToolKind::CloseAgent, "Close agent"@),
    }
}

/// The tool kind and title of a call to another agent.
pub fn collab_agent_tool_identity(tool: &CollabAgentTool) -> (r: (ToolKind, &'static str))
    ensures
        (r.0, r.1@) == collab_identity(*tool),
{
    match tool {
        CollabAgentTool::SpawnAgent => (ToolKind::SpawnAgent, "Agent"),
        CollabAgentTool::SendInput => (ToolKind::SendAgentInput, "Agent interaction"),
        CollabAgentTool::ResumeAgent => (ToolKind::ResumeAgent, "Resume agent"),
        CollabAgentTool::Wait => (ToolKind::WaitAgent, "Waiting for agents"),
        CollabAgentTool::CloseAgent => (ToolKind::CloseAgent, "Close agent"),
    }
}

/// The name of a call to another agent.
pub open spec fn collab_name(tool: CollabAgentTool) -> Seq<char> {
    match tool {
        CollabAgentTool::SpawnAgent => "spawn_agent"@,
        CollabAgentTool::SendInput => "send_input"@,
        CollabAgentTool::ResumeAgent => "resume_agent"@,
        CollabAgentTool::Wait => "wait"@,
        CollabAgentTool::CloseAgent => "close_agent"@,
    }
}

/// The name of a call to another agent.
pub fn collab_agent_tool_name(tool: &CollabAgentTool) -> (r: &'static str)
    ensures
        r@ == collab_name(*tool),
{
    match tool {
        CollabAgentTool::SpawnAgent => "spawn_agent",
        CollabAgentTool::SendInput => "send_input",
        CollabAgentTool::ResumeAgent => "resume_agent",
        CollabAgentTool::Wait => "wait",
        CollabAgentTool::CloseAgent => "close_agent",
    }
}

/// Where another agent stands, as the app server reports it.
#[derive(Debug, Clone, Copy, PartialEq, Eq, Structural)]
pub enum CollabAgentStatus {
    PendingInit,
    Running,
    Interrupted,
    Completed,
    Errored,
    Shutdown,
    NotFound,
}

/// The subagent status of another agent: an agent that errored failed.
pub open spec fn collab_status(status: CollabAgentStatus) -> SubagentStatus {
    match status {
        CollabAgentStatus::PendingInit => SubagentStatus::Pending,
        CollabAgentStatus::Running => SubagentStatus::Running,
        CollabAgentStatus::Interrupted => SubagentStatus::Interrupted,
        CollabAgentStatus::Completed => SubagentStatus::Completed,
        CollabAgentStatus::Errored => SubagentStatus::Failed,
        CollabAgentStatus::Shutdown => SubagentStatus::Shutdown,
        CollabAgentStatus::NotFound => SubagentStatus::NotFound,
    }
}

/// The subagent status of another agent.
pub fn map_collab_agent_status(status: CollabAgentStatus) -> (r: SubagentStatus)
    ensures
        r == collab_status(status),
{
    match status {
        CollabAgentStatus::PendingInit => SubagentStatus::Pending,
        CollabAgentStatus::Running => SubagentStatus::Running,
        CollabAgentStatus::Interrupted => SubagentStatus::Interrupted,
        CollabAgentStatus::Completed => SubagentStatus::Completed,
        CollabAgentStatus::Errored => SubagentStatus::Failed,
        CollabAgentStatus::Shutdown => SubagentStatus::Shutdown,
        CollabAgentStatus::NotFound => SubagentStatus::NotFound,
    }
}

// ---------------------------------------------------------------------------
// Network approvals
// ---------------------------------------------------------------------------

/// The protocol of a network access that needs approval.
#[derive(Debug, Clone, Copy, PartialEq, Eq, Structural)]
pub enum NetworkApprovalProtocol {
    Http,
    Https,
    Socks5Tcp,
    Socks5Udp,
}

/// How a network protocol is named in approval requests.
pub open spec fn protocol_label(protocol: NetworkApprovalProtocol) -> Seq<char> {
    match protocol {
        NetworkApprovalProtocol::Http => "http"@,
        NetworkApprovalProtocol::Https => "https"@,
        NetworkApprovalProtocol::Socks5Tcp => "socks5_tcp"@,
        NetworkApprovalProtocol::Socks5Udp => "socks5_udp"@,
    }
}

/// The name of a network protocol in approval requests.
pub fn network_protocol_label(protocol: NetworkApprovalProtocol) -> (r: &'static str)
    ensures
        r@ == protocol_label(protocol),
{
    match protocol {
        NetworkApprovalProtocol::Http => "http",
        NetworkApprovalProtocol::Https => "https",
        NetworkApprovalProtocol::Socks5Tcp => "socks5_tcp",
        NetworkApprovalProtocol::Socks5Udp => "socks5_udp",
    }
}

} // verus!
