//! The tool rows of the runtime's other tool events: patches (with what
//! their begin recorded), MCP calls, web searches, images and dynamic
//! tools.

use crate::codex::item_rows::stamp_if;
use crate::codex::items::{change_diff, file_change_unified_diff, FileChange, PatchApplyStatus};
use crate::codex::signals::{adds_row, bare_entry, replaces_row, row_created_output, row_entry, row_updated_output};
use crate::codex::tools::{
    dynamic_tool_identity_from_name, identity_named, image_generation_output, image_generation_status,
    image_generation_summary, image_output, image_status_named, image_summary,
};
use crate::json::{chars_lt, json_array, json_array_text, json_object, json_object_text, json_quote, members_view, spec_json_quote};
use crate::keyed::TextMap;
use crate::text::{concat_str, copy_string, join, join_strings, opt_str_view, opt_string_view, strs_view, trim, trim_str};
use crate::transition::connector::{ConnectorOutput, ConnectorRuntimeDirective};
use crate::transition::model::{ConversationRow, Provider, RowView, ToolFamily, ToolKind, ToolRow, ToolRowView, ToolStatus};
use crate::transition::subagents::str_lt;
use vstd::prelude::*;

verus! {

/// A tool row of the runtime, as values.
pub open spec fn runtime_row(
    id: Seq<char>,
    family: ToolFamily,
    kind: ToolKind,
    status: ToolStatus,
    title: Seq<char>,
    subtitle: Option<Seq<char>>,
    summary: Option<Seq<char>>,
    started_at: Option<Seq<char>>,
    ended_at: Option<Seq<char>>,
    duration_ms: Option<u64>,
    invocation: Seq<char>,
    result: Option<Seq<char>>,
) -> ToolRowView {
    ToolRowView {
        id,
        provider: Provider::Codex,
        family,
        kind,
        status,
        title,
        subtitle,
        summary,
        started_at,
        ended_at,
        duration_ms,
        invocation,
        result,
    }
}

/// Members of a JSON object with one more at the end when there is a value
/// for it.
pub open spec fn with_member(
    members: Seq<(Seq<char>, Seq<char>)>,
    key: Seq<char>,
    value: Option<Seq<char>>,
) -> Seq<(Seq<char>, Seq<char>)> {
    match value {
        Some(v) => members.push((key, v)),
        None => members,
    }
}

fn push_member(members: &mut Vec<(String, String)>, key: &str, value: Option<String>)
    ensures
        members_view(final(members)@) == with_member(members_view(old(members)@), key@, opt_string_view(value)),
{
    let ghost before = members_view(members@);
    match value {
        Some(v) => {
            let ghost vv = v@;
            members.push((key.to_string(), v));
            assert(members_view(members@) =~= before.push((key@, vv)));
        },
        None => {},
    }
}

// ---------------------------------------------------------------------------
// Patches
// ---------------------------------------------------------------------------

/// The changes of a patch as values: each path with its change.
pub open spec fn keyed_changes(v: Seq<(String, FileChange)>) -> Seq<(Seq<char>, FileChange)> {
    v.map_values(|c: (String, FileChange)| (c.0@, c.1))
}

/// A change put among changes sorted by path, after those with the same
/// path.
pub open spec fn insert_change(sorted: Seq<(Seq<char>, FileChange)>, a: (Seq<char>, FileChange)) -> Seq<
    (Seq<char>, FileChange),
>
    decreases sorted.len(),
{
    if sorted.len() == 0 {
        seq![a]
    } else if !chars_lt(a.0, sorted.last().0) {
        sorted.push(a)
    } else {
        insert_change(sorted.drop_last(), a).push(sorted.last())
    }
}

/// The changes stably sorted by path.
pub open spec fn sort_changes(list: Seq<(Seq<char>, FileChange)>) -> Seq<(Seq<char>, FileChange)>
    decreases list.len(),
{
    if list.len() == 0 {
        list
    } else {
        insert_change(sort_changes(list.drop_last()), list.last())
    }
}

/// What a patch's begin records and shows: its files sorted by path, the
/// first of them (empty when there is none), and the diff of all of them,
/// a blank line between.
pub open spec fn patch_context(changes: Seq<(Seq<char>, FileChange)>) -> (Seq<Seq<char>>, Seq<char>, Seq<char>) {
    let sorted = sort_changes(changes);
    let files = sorted.map_values(|c: (Seq<char>, FileChange)| c.0);
    let diff = join(sorted.map_values(|c: (Seq<char>, FileChange)| change_diff(c.0, c.1)), "\n\n"@);
    let first = if files.len() > 0 {
        files[0]
    } else {
        Seq::empty()
    };
    (files, first, diff)
}

proof fn lemma_insert_change_at(sorted: Seq<(Seq<char>, FileChange)>, a: (Seq<char>, FileChange), j: int)
    requires
        0 <= j <= sorted.len(),
        j == 0 || !chars_lt(a.0, sorted[j - 1].0),
        forall|k: int| j <= k < sorted.len() ==> chars_lt(a.0, (#[trigger] sorted[k]).0),
    ensures
        insert_change(sorted, a) == sorted.take(j) + seq![a] + sorted.skip(j),
    decreases sorted.len(),
{
    if j == sorted.len() {
        assert(sorted.take(j) =~= sorted);
        assert(sorted.skip(j) =~= Seq::<(Seq<char>, FileChange)>::empty());
        if sorted.len() > 0 {
            assert(sorted.last() == sorted[j - 1]);
        }
        assert(insert_change(sorted, a) =~= sorted.take(j) + seq![a] + sorted.skip(j));
    } else {
        let last = sorted.last();
        assert(chars_lt(a.0, sorted[sorted.len() - 1].0));
        lemma_insert_change_at(sorted.drop_last(), a, j);
        assert(sorted.drop_last().take(j) =~= sorted.take(j));
        assert(sorted.drop_last().skip(j).push(last) =~= sorted.skip(j));
        assert(insert_change(sorted, a) =~= sorted.take(j) + seq![a] + sorted.skip(j));
    }
}

fn copy_file_change(c: &FileChange) -> (r: FileChange)
    ensures
        r == *c,
{
    match c {
        FileChange::Add { content } => FileChange::Add { content: copy_string(content) },
        FileChange::Delete { content } => FileChange::Delete { content: copy_string(content) },
        FileChange::Update { unified_diff, move_path } => FileChange::Update {
            unified_diff: copy_string(unified_diff),
            move_path: crate::text::copy_opt_string(move_path),
        },
    }
}

fn insert_sorted(sorted: &mut Vec<(String, FileChange)>, a: (String, FileChange))
    ensures
        keyed_changes(final(sorted)@) == insert_change(keyed_changes(old(sorted)@), (a.0@, a.1)),
{
    let ghost v = keyed_changes(sorted@);
    let mut j = sorted.len();
    while j > 0 && str_lt(a.0.as_str(), sorted[j - 1].0.as_str())
        invariant
            j <= sorted.len(),
            v == keyed_changes(sorted@),
            forall|k: int| j <= k < v.len() ==> chars_lt(a.0@, (#[trigger] v[k]).0),
        decreases j,
    {
        assert(v[j - 1] == (sorted@[j - 1].0@, sorted@[j - 1].1));
        j = j - 1;
    }
    proof {
        if j > 0 {
            assert(v[j - 1] == (sorted@[j - 1].0@, sorted@[j - 1].1));
        }
        lemma_insert_change_at(v, (a.0@, a.1), j as int);
    }
    let ghost av = (a.0@, a.1);
    sorted.insert(j, a);
    assert(keyed_changes(sorted@) =~= v.take(j as int) + seq![av] + v.skip(j as int));
}

fn patch_context_of(changes: &[(String, FileChange)]) -> (r: (Vec<String>, String, String))
    ensures
        (strs_view(r.0@), r.1@, r.2@) == patch_context(keyed_changes(changes@)),
{
    let ghost cv = keyed_changes(changes@);
    let mut sorted: Vec<(String, FileChange)> = Vec::new();
    let mut m: usize = 0;
    assert(sort_changes(cv.take(0)) =~= keyed_changes(sorted@));
    while m < changes.len()
        invariant
            m <= changes.len(),
            cv == keyed_changes(changes@),
            keyed_changes(sorted@) == sort_changes(cv.take(m as int)),
        decreases changes.len() - m,
    {
        assert(cv.take(m + 1).drop_last() =~= cv.take(m as int));
        assert(cv.take(m + 1).last() == (changes@[m as int].0@, changes@[m as int].1));
        insert_sorted(&mut sorted, (copy_string(&changes[m].0), copy_file_change(&changes[m].1)));
        m = m + 1;
    }
    assert(cv.take(changes.len() as int) =~= cv);
    let ghost sv = keyed_changes(sorted@);
    let mut files: Vec<String> = Vec::new();
    let mut diffs: Vec<String> = Vec::new();
    let mut i: usize = 0;
    while i < sorted.len()
        invariant
            i <= sorted.len(),
            sv == keyed_changes(sorted@),
            strs_view(files@) == sv.take(i as int).map_values(|c: (Seq<char>, FileChange)| c.0),
            strs_view(diffs@) == sv.take(i as int).map_values(
                |c: (Seq<char>, FileChange)| change_diff(c.0, c.1),
            ),
        decreases sorted.len() - i,
    {
        let ghost f0 = strs_view(files@);
        let ghost d0 = strs_view(diffs@);
        files.push(copy_string(&sorted[i].0));
        diffs.push(file_change_unified_diff(sorted[i].0.as_str(), &sorted[i].1));
        assert(sv[i as int] == (sorted@[i as int].0@, sorted@[i as int].1));
        assert(strs_view(files@) =~= f0.push(sv[i as int].0));
        assert(strs_view(diffs@) =~= d0.push(change_diff(sv[i as int].0, sv[i as int].1)));
        assert(sv.take(i + 1).map_values(|c: (Seq<char>, FileChange)| c.0) =~= sv.take(i as int).map_values(
            |c: (Seq<char>, FileChange)| c.0,
        ).push(sv[i as int].0));
        assert(sv.take(i + 1).map_values(|c: (Seq<char>, FileChange)| change_diff(c.0, c.1)) =~= sv.take(
            i as int,
        ).map_values(|c: (Seq<char>, FileChange)| change_diff(c.0, c.1)).push(
            change_diff(sv[i as int].0, sv[i as int].1),
        ));
        i = i + 1;
    }
    assert(sv.take(sorted.len() as int) =~= sv);
    let diff = join_strings(diffs.as_slice(), "\n\n");
    let first = if files.len() > 0 {
        copy_string(&files[0])
    } else {
        String::new()
    };
    (files, first, diff)
}

/// What a patch's begin recorded for its end: the first file and the
/// diff.
#[derive(Debug, Clone)]
pub struct PatchContext {
    pub path: String,
    pub diff: String,
}

/// The invocation of a running patch: its first file and its diff.
pub open spec fn patch_invocation(path: Seq<char>, diff: Seq<char>) -> Seq<char> {
    json_object(seq![("path"@, spec_json_quote(path)), ("diff"@, spec_json_quote(diff))])
}

fn patch_invocation_text(path: &str, diff: &str) -> (r: String)
    ensures
        r@ == patch_invocation(path@, diff@),
{
    let ghost expected = seq![("path"@, spec_json_quote(path@)), ("diff"@, spec_json_quote(diff@))];
    let members = vec![("path".to_string(), json_quote(path)), ("diff".to_string(), json_quote(diff))];
    assert(members_view(members@) == expected);
    json_object_text(members.as_slice())
}

/// The row of a running patch: titled with its first file, its files as
/// subtitle.
pub open spec fn running_patch_row(
    id: Seq<char>,
    changes: Seq<(Seq<char>, FileChange)>,
    summary: Option<Seq<char>>,
    started_at: Option<Seq<char>>,
) -> ToolRowView {
    let (files, first, diff) = patch_context(changes);
    runtime_row(
        id,
        ToolFamily::FileChange,
        ToolKind::Edit,
        ToolStatus::Running,
        first,
        Some(join(files, ", "@)),
        summary,
        started_at,
        None,
        None,
        patch_invocation(first, diff),
        None,
    )
}

fn running_patch(
    contexts: &mut TextMap<PatchContext>,
    call_id: &String,
    changes: &[(String, FileChange)],
    summary: Option<String>,
    started_at: Option<String>,
) -> (r: ToolRow)
    ensures
        ({
            let (files, first, diff) = patch_context(keyed_changes(changes@));
            &&& final(contexts)@.remove(call_id@) == old(contexts)@.remove(call_id@)
            &&& final(contexts)@.contains_key(call_id@)
            &&& final(contexts)@[call_id@].path@ == first
            &&& final(contexts)@[call_id@].diff@ == diff
            &&& r@ == running_patch_row(
                call_id@,
                keyed_changes(changes@),
                opt_string_view(summary),
                opt_string_view(started_at),
            )
        }),
{
    let ghost c0 = contexts@;
    let (files, first, diff) = patch_context_of(changes);
    let invocation = patch_invocation_text(first.as_str(), diff.as_str());
    contexts.insert(copy_string(call_id), PatchContext { path: copy_string(&first), diff });
    assert(contexts@.remove(call_id@) =~= c0.remove(call_id@));
    ToolRow {
        id: copy_string(call_id),
        provider: Provider::Codex,
        family: ToolFamily::FileChange,
        kind: ToolKind::Edit,
        status: ToolStatus::Running,
        title: first,
        subtitle: Some(join_strings(files.as_slice(), ", ")),
        summary,
        started_at,
        ended_at: None,
        duration_ms: None,
        invocation,
        result: None,
    }
}

/// A patch begins: what it changes is recorded under its call id and its
/// running row is added, stamped `now`. Its files are displayed paths, in
/// any order.
pub fn handle_patch_apply_begin(
    contexts: &mut TextMap<PatchContext>,
    call_id: String,
    changes: Vec<(String, FileChange)>,
    now: &str,
) -> (r: Vec<ConnectorOutput>)
    ensures
        ({
            let (files, first, diff) = patch_context(keyed_changes(changes@));
            &&& final(contexts)@.remove(call_id@) == old(contexts)@.remove(call_id@)
            &&& final(contexts)@.contains_key(call_id@)
            &&& final(contexts)@[call_id@].path@ == first
            &&& final(contexts)@[call_id@].diff@ == diff
            &&& r@.len() == 1
            &&& adds_row(
                r@[0],
                bare_entry(RowView::Tool(running_patch_row(call_id@, keyed_changes(changes@), None, Some(now@)))),
            )
        }),
{
    let row = running_patch(contexts, &call_id, changes.as_slice(), None, Some(now.to_string()));
    vec![row_created_output(row_entry(ConversationRow::Tool(row)))]
}

/// A running patch changes: what it changes is recorded again and its row
/// is updated, saying the patch was updated.
pub fn handle_patch_apply_updated(
    contexts: &mut TextMap<PatchContext>,
    call_id: String,
    changes: Vec<(String, FileChange)>,
) -> (r: Vec<ConnectorOutput>)
    ensures
        ({
            let (files, first, diff) = patch_context(keyed_changes(changes@));
            &&& final(contexts)@.remove(call_id@) == old(contexts)@.remove(call_id@)
            &&& final(contexts)@.contains_key(call_id@)
            &&& final(contexts)@[call_id@].path@ == first
            &&& final(contexts)@[call_id@].diff@ == diff
            &&& r@.len() == 1
            &&& replaces_row(
                r@[0],
                call_id@,
                bare_entry(
                    RowView::Tool(
                        running_patch_row(call_id@, keyed_changes(changes@), Some("Patch updated"@), None),
                    ),
                ),
            )
        }),
{
    let row = running_patch(contexts, &call_id, changes.as_slice(), Some("Patch updated".to_string()), None);
    vec![row_updated_output(call_id, row_entry(ConversationRow::Tool(row)))]
}

/// The name of a patch's status.
pub open spec fn patch_status_name(s: PatchApplyStatus) -> Seq<char> {
    match s {
        PatchApplyStatus::InProgress => "InProgress"@,
        PatchApplyStatus::Completed => "Completed"@,
        PatchApplyStatus::Failed => "Failed"@,
        PatchApplyStatus::Declined => "Declined"@,
    }
}

fn patch_status_str(s: PatchApplyStatus) -> (r: &'static str)
    ensures
        r@ == patch_status_name(s),
{
    match s {
        PatchApplyStatus::InProgress => "InProgress",
        PatchApplyStatus::Completed => "Completed",
        PatchApplyStatus::Failed => "Failed",
        PatchApplyStatus::Declined => "Declined",
    }
}

/// The report of a finished patch: its status, whether it applied, and
/// what it printed on each stream that is not blank.
pub open spec fn patch_report(status: PatchApplyStatus, success: bool, stdout: Seq<char>, stderr: Seq<char>) -> Seq<
    char,
> {
    let head = seq![
        "status: "@ + patch_status_name(status),
        if success {
            "result: applied successfully"@
        } else {
            "result: failed"@
        },
    ];
    let with_out = if trim(stdout).len() > 0 {
        head + seq![Seq::empty(), "stdout:"@, stdout]
    } else {
        head
    };
    let all = if trim(stderr).len() > 0 {
        with_out + seq![Seq::empty(), "stderr:"@, stderr]
    } else {
        with_out
    };
    join(all, "\n"@)
}

/// The row of a finished patch: completed or failed, summarised by its
/// report, its invocation holding what its begin recorded (when it did)
/// and the report.
pub open spec fn patch_end_row(
    id: Seq<char>,
    context: Option<(Seq<char>, Seq<char>)>,
    success: bool,
    report: Seq<char>,
    now: Seq<char>,
) -> ToolRowView {
    runtime_row(
        id,
        ToolFamily::FileChange,
        ToolKind::Edit,
        if success {
            ToolStatus::Completed
        } else {
            ToolStatus::Failed
        },
        Seq::empty(),
        None,
        Some(report),
        None,
        Some(now),
        None,
        match context {
            Some((p, d)) => json_object(
                seq![
                    ("path"@, spec_json_quote(p)),
                    ("diff"@, spec_json_quote(d)),
                    ("summary"@, spec_json_quote(report)),
                ],
            ),
            None => json_object(seq![("summary"@, spec_json_quote(report))]),
        },
        Some(json_object(seq![("tool_name"@, spec_json_quote("Edit"@)), ("output"@, spec_json_quote(report))])),
    )
}

fn patch_report_text(status: PatchApplyStatus, success: bool, stdout: String, stderr: String) -> (r: String)
    ensures
        r@ == patch_report(status, success, stdout@, stderr@),
{
    let mut lines: Vec<String> = Vec::new();
    lines.push(concat_str("status: ", patch_status_str(status)));
    lines.push(
        if success {
            "result: applied successfully".to_string()
        } else {
            "result: failed".to_string()
        },
    );
    let ghost l0 = strs_view(lines@);
    assert(l0 =~= seq![
        "status: "@ + patch_status_name(status),
        if success {
            "result: applied successfully"@
        } else {
            "result: failed"@
        },
    ]);
    let out_blank = trim_str(stdout.as_str()).as_str().unicode_len() == 0;
    let err_blank = trim_str(stderr.as_str()).as_str().unicode_len() == 0;
    let ghost so = stdout@;
    let ghost se = stderr@;
    if !out_blank {
        lines.push(String::new());
        lines.push("stdout:".to_string());
        lines.push(stdout);
    }
    let ghost l1 = strs_view(lines@);
    assert(l1 =~= if trim(so).len() > 0 {
        l0 + seq![Seq::empty(), "stdout:"@, so]
    } else {
        l0
    });
    if !err_blank {
        lines.push(String::new());
        lines.push("stderr:".to_string());
        lines.push(stderr);
    }
    assert(strs_view(lines@) =~= if trim(se).len() > 0 {
        l1 + seq![Seq::empty(), "stderr:"@, se]
    } else {
        l1
    });
    join_strings(lines.as_slice(), "\n")
}

/// A patch ends: what its begin recorded is dropped and used for its
/// invocation, and its row is updated with the report.
pub fn handle_patch_apply_end(
    contexts: &mut TextMap<PatchContext>,
    call_id: String,
    status: PatchApplyStatus,
    success: bool,
    stdout: String,
    stderr: String,
    now: &str,
) -> (r: Vec<ConnectorOutput>)
    ensures
        final(contexts)@ == old(contexts)@.remove(call_id@),
        r@.len() == 1,
        replaces_row(
            r@[0],
            call_id@,
            bare_entry(
                RowView::Tool(
                    patch_end_row(
                        call_id@,
                        if old(contexts)@.contains_key(call_id@) {
                            Some((old(contexts)@[call_id@].path@, old(contexts)@[call_id@].diff@))
                        } else {
                            None
                        },
                        success,
                        patch_report(status, success, stdout@, stderr@),
                        now@,
                    ),
                ),
            ),
        ),
{
    let context = contexts.take(call_id.as_str());
    let report = patch_report_text(status, success, stdout, stderr);
    let invocation = match &context {
        Some(c) => {
            let ghost expected = seq![
                ("path"@, spec_json_quote(c.path@)),
                ("diff"@, spec_json_quote(c.diff@)),
                ("summary"@, spec_json_quote(report@)),
            ];
            let members = vec![
                ("path".to_string(), json_quote(c.path.as_str())),
                ("diff".to_string(), json_quote(c.diff.as_str())),
                ("summary".to_string(), json_quote(report.as_str())),
            ];
            assert(members_view(members@) == expected);
            json_object_text(members.as_slice())
        },
        None => {
            let ghost expected = seq![("summary"@, spec_json_quote(report@))];
            let members = vec![("summary".to_string(), json_quote(report.as_str()))];
            assert(members_view(members@) == expected);
            json_object_text(members.as_slice())
        },
    };
    let ghost result_seq = seq![("tool_name"@, spec_json_quote("Edit"@)), ("output"@, spec_json_quote(report@))];
    let result_members = vec![("tool_name".to_string(), json_quote("Edit")), ("output".to_string(), json_quote(report.as_str()))];
    assert(members_view(result_members@) == result_seq);
    let result = json_object_text(result_members.as_slice());
    let row = ToolRow {
        id: copy_string(&call_id),
        provider: Provider::Codex,
        family: ToolFamily::FileChange,
        kind: ToolKind::Edit,
        status: if success {
            ToolStatus::Completed
        } else {
            ToolStatus::Failed
        },
        title: String::new(),
        subtitle: None,
        summary: Some(report),
        started_at: None,
        ended_at: Some(now.to_string()),
        duration_ms: None,
        invocation,
        result: Some(result),
    };
    vec![row_updated_output(call_id, row_entry(ConversationRow::Tool(row)))]
}

// ---------------------------------------------------------------------------
// MCP calls
// ---------------------------------------------------------------------------

/// A JSON text, or null when there is none.
pub open spec fn json_value_or_null(o: Option<Seq<char>>) -> Seq<char> {
    match o {
        Some(t) => t,
        None => "null"@,
    }
}

fn value_or_null(o: Option<String>) -> (r: String)
    ensures
        r@ == json_value_or_null(opt_string_view(o)),
{
    match o {
        Some(t) => t,
        None => "null".to_string(),
    }
}

/// The invocation of an MCP call as it begins: server, tool and input
/// (JSON text), with the app resource it names when it names one.
pub open spec fn mcp_begin_invocation(
    server: Seq<char>,
    tool: Seq<char>,
    arguments: Option<Seq<char>>,
    resource_uri: Option<Seq<char>>,
) -> Seq<char> {
    json_object(
        with_member(
            seq![
                ("server"@, spec_json_quote(server)),
                ("tool_name"@, spec_json_quote(tool)),
                ("input"@, json_value_or_null(arguments)),
            ],
            "mcp_app_resource_uri"@,
            match resource_uri {
                Some(u) => Some(spec_json_quote(u)),
                None => None,
            },
        ),
    )
}

fn quoted_opt(o: &Option<String>) -> (r: Option<String>)
    ensures
        opt_string_view(r) == match *o {
            Some(u) => Some(spec_json_quote(u@)),
            None => None,
        },
{
    match o {
        Some(u) => Some(json_quote(u.as_str())),
        None => None,
    }
}

/// An MCP call begins: its running row, titled with the tool, the server
/// as subtitle, stamped `now`. The arguments are JSON text, when there are
/// any.
pub fn handle_mcp_tool_call_begin(
    call_id: String,
    server: String,
    tool: String,
    arguments: Option<String>,
    mcp_app_resource_uri: Option<String>,
    now: &str,
) -> (r: Vec<ConnectorOutput>)
    ensures
        r@.len() == 1,
        adds_row(
            r@[0],
            bare_entry(
                RowView::Tool(
                    runtime_row(
                        call_id@,
                        ToolFamily::Mcp,
                        ToolKind::McpToolCall,
                        ToolStatus::Running,
                        tool@,
                        Some(server@),
                        None,
                        Some(now@),
                        None,
                        None,
                        mcp_begin_invocation(
                            server@,
                            tool@,
                            opt_string_view(arguments),
                            opt_string_view(mcp_app_resource_uri),
                        ),
                        None,
                    ),
                ),
            ),
        ),
{
    let ghost args = opt_string_view(arguments);
    let mut members = vec![
        ("server".to_string(), json_quote(server.as_str())),
        ("tool_name".to_string(), json_quote(tool.as_str())),
        ("input".to_string(), value_or_null(arguments)),
    ];
    assert(members_view(members@) == seq![
        ("server"@, spec_json_quote(server@)),
        ("tool_name"@, spec_json_quote(tool@)),
        ("input"@, json_value_or_null(args)),
    ]);
    push_member(&mut members, "mcp_app_resource_uri", quoted_opt(&mcp_app_resource_uri));
    let invocation = json_object_text(members.as_slice());
    let row = ToolRow {
        id: call_id,
        provider: Provider::Codex,
        family: ToolFamily::Mcp,
        kind: ToolKind::McpToolCall,
        status: ToolStatus::Running,
        title: tool,
        subtitle: Some(server),
        summary: None,
        started_at: Some(now.to_string()),
        ended_at: None,
        duration_ms: None,
        invocation,
        result: None,
    };
    vec![row_created_output(row_entry(ConversationRow::Tool(row)))]
}

/// The output of a finished MCP call as JSON text: its result when it
/// could be written, or its error as a string; whether it failed.
pub open spec fn mcp_output(result: Result<Option<String>, String>) -> (Option<Seq<char>>, bool) {
    match result {
        Ok(v) => (opt_string_view(v), false),
        Err(m) => (Some(spec_json_quote(m@)), true),
    }
}

/// The row of a finished MCP call.
pub open spec fn mcp_end_row(
    id: Seq<char>,
    server: Seq<char>,
    tool: Seq<char>,
    result: Result<Option<String>, String>,
    duration_ms: u64,
    resource_uri: Option<Seq<char>>,
    now: Seq<char>,
) -> ToolRowView {
    let (output, failed) = mcp_output(result);
    let uri = match resource_uri {
        Some(u) => Some(spec_json_quote(u)),
        None => None,
    };
    runtime_row(
        id,
        ToolFamily::Mcp,
        ToolKind::McpToolCall,
        if failed {
            ToolStatus::Failed
        } else {
            ToolStatus::Completed
        },
        Seq::empty(),
        None,
        None,
        None,
        Some(now),
        Some(duration_ms),
        json_object(
            with_member(
                seq![
                    ("server"@, spec_json_quote(server)),
                    ("tool_name"@, spec_json_quote(tool)),
                    ("output"@, json_value_or_null(output)),
                ],
                "mcp_app_resource_uri"@,
                uri,
            ),
        ),
        Some(
            json_object(
                with_member(
                    seq![("tool_name"@, spec_json_quote(tool)), ("raw_output"@, json_value_or_null(output))],
                    "mcp_app_resource_uri"@,
                    uri,
                ),
            ),
        ),
    )
}

/// An MCP call ends with its result (JSON text, when it could be written)
/// or its error; its row is updated, failed on an error.
pub fn handle_mcp_tool_call_end(
    call_id: String,
    server: String,
    tool: String,
    result: Result<Option<String>, String>,
    duration_ms: u64,
    mcp_app_resource_uri: Option<String>,
    now: &str,
) -> (r: Vec<ConnectorOutput>)
    ensures
        r@.len() == 1,
        replaces_row(
            r@[0],
            call_id@,
            bare_entry(
                RowView::Tool(
                    mcp_end_row(
                        call_id@,
                        server@,
                        tool@,
                        result,
                        duration_ms,
                        opt_string_view(mcp_app_resource_uri),
                        now@,
                    ),
                ),
            ),
        ),
{
    let ghost res = result;
    let (output, failed) = match result {
        Ok(v) => (v, false),
        Err(m) => (Some(json_quote(m.as_str())), true),
    };
    assert(opt_string_view(output) == mcp_output(res).0);
    let output_text = value_or_null(output);
    let mut invocation_members = vec![
        ("server".to_string(), json_quote(server.as_str())),
        ("tool_name".to_string(), json_quote(tool.as_str())),
        ("output".to_string(), copy_string(&output_text)),
    ];
    assert(members_view(invocation_members@) == seq![
        ("server"@, spec_json_quote(server@)),
        ("tool_name"@, spec_json_quote(tool@)),
        ("output"@, json_value_or_null(mcp_output(res).0)),
    ]);
    push_member(&mut invocation_members, "mcp_app_resource_uri", quoted_opt(&mcp_app_resource_uri));
    let mut result_members = vec![
        ("tool_name".to_string(), json_quote(tool.as_str())),
        ("raw_output".to_string(), output_text),
    ];
    assert(members_view(result_members@) == seq![
        ("tool_name"@, spec_json_quote(tool@)),
        ("raw_output"@, json_value_or_null(mcp_output(res).0)),
    ]);
    push_member(&mut result_members, "mcp_app_resource_uri", quoted_opt(&mcp_app_resource_uri));
    let row = ToolRow {
        id: copy_string(&call_id),
        provider: Provider::Codex,
        family: ToolFamily::Mcp,
        kind: ToolKind::McpToolCall,
        status: if failed {
            ToolStatus::Failed
        } else {
            ToolStatus::Completed
        },
        title: String::new(),
        subtitle: None,
        summary: None,
        started_at: None,
        ended_at: Some(now.to_string()),
        duration_ms: Some(duration_ms),
        invocation: json_object_text(invocation_members.as_slice()),
        result: Some(json_object_text(result_members.as_slice())),
    };
    vec![row_updated_output(call_id, row_entry(ConversationRow::Tool(row)))]
}

// ---------------------------------------------------------------------------
// Web searches and images
// ---------------------------------------------------------------------------

/// The invocation of a web search.
pub open spec fn search_invocation(query: Seq<char>) -> Seq<char> {
    json_object(seq![("query"@, spec_json_quote(query)), ("results"@, "[]"@)])
}

fn search_invocation_text(query: &str) -> (r: String)
    ensures
        r@ == search_invocation(query@),
{
    let ghost expected = seq![("query"@, spec_json_quote(query@)), ("results"@, "[]"@)];
    let members = vec![("query".to_string(), json_quote(query)), ("results".to_string(), "[]".to_string())];
    assert(members_view(members@) == expected);
    json_object_text(members.as_slice())
}

/// A web search begins: a running row with no query yet.
pub fn handle_web_search_begin(call_id: String, now: &str) -> (r: Vec<ConnectorOutput>)
    ensures
        r@.len() == 1,
        adds_row(
            r@[0],
            bare_entry(
                RowView::Tool(
                    runtime_row(
                        call_id@,
                        ToolFamily::Web,
                        ToolKind::WebSearch,
                        ToolStatus::Running,
                        "Searching the web"@,
                        None,
                        None,
                        Some(now@),
                        None,
                        None,
                        search_invocation(Seq::empty()),
                        None,
                    ),
                ),
            ),
        ),
{
    let row = ToolRow {
        id: call_id,
        provider: Provider::Codex,
        family: ToolFamily::Web,
        kind: ToolKind::WebSearch,
        status: ToolStatus::Running,
        title: "Searching the web".to_string(),
        subtitle: None,
        summary: None,
        started_at: Some(now.to_string()),
        ended_at: None,
        duration_ms: None,
        invocation: search_invocation_text(String::new().as_str()),
        result: None,
    };
    vec![row_created_output(row_entry(ConversationRow::Tool(row)))]
}

/// A web search ends: its row, titled with the query, holds the action it
/// took as output (`action` is that action as pretty JSON text).
pub fn handle_web_search_end(call_id: String, query: String, action: String, now: &str) -> (r: Vec<ConnectorOutput>)
    ensures
        r@.len() == 1,
        replaces_row(
            r@[0],
            call_id@,
            bare_entry(
                RowView::Tool(
                    runtime_row(
                        call_id@,
                        ToolFamily::Web,
                        ToolKind::WebSearch,
                        ToolStatus::Completed,
                        query@,
                        None,
                        None,
                        None,
                        Some(now@),
                        None,
                        search_invocation(query@),
                        Some(
                            json_object(
                                seq![
                                    ("tool_name"@, spec_json_quote("websearch"@)),
                                    ("output"@, spec_json_quote(action@)),
                                ],
                            ),
                        ),
                    ),
                ),
            ),
        ),
{
    let ghost expected = seq![("tool_name"@, spec_json_quote("websearch"@)), ("output"@, spec_json_quote(action@))];
    let members = vec![("tool_name".to_string(), json_quote("websearch")), ("output".to_string(), json_quote(action.as_str()))];
    assert(members_view(members@) == expected);
    let row = ToolRow {
        id: copy_string(&call_id),
        provider: Provider::Codex,
        family: ToolFamily::Web,
        kind: ToolKind::WebSearch,
        status: ToolStatus::Completed,
        title: copy_string(&query),
        subtitle: None,
        summary: None,
        started_at: None,
        ended_at: Some(now.to_string()),
        duration_ms: None,
        invocation: search_invocation_text(query.as_str()),
        result: Some(json_object_text(members.as_slice())),
    };
    vec![row_updated_output(call_id, row_entry(ConversationRow::Tool(row)))]
}

/// An image was looked at: a completed row titled with its path.
pub fn handle_view_image_tool_call(call_id: String, path: String, now: &str) -> (r: Vec<ConnectorOutput>)
    ensures
        r@.len() == 1,
        adds_row(
            r@[0],
            bare_entry(
                RowView::Tool(
                    runtime_row(
                        call_id@,
                        ToolFamily::Image,
                        ToolKind::ViewImage,
                        ToolStatus::Completed,
                        path@,
                        None,
                        Some("Image loaded"@),
                        Some(now@),
                        Some(now@),
                        None,
                        json_object(seq![("image_paths"@, json_array(seq![spec_json_quote(path@)]))]),
                        Some(
                            json_object(
                                seq![
                                    ("image_paths"@, json_array(seq![spec_json_quote(path@)])),
                                    ("caption"@, spec_json_quote("Image loaded"@)),
                                ],
                            ),
                        ),
                    ),
                ),
            ),
        ),
{
    let paths_items = vec![json_quote(path.as_str())];
    assert(strs_view(paths_items@) =~= seq![spec_json_quote(path@)]);
    let paths = json_array_text(paths_items.as_slice());
    let ghost inv_seq = seq![("image_paths"@, paths@)];
    let inv_members = vec![("image_paths".to_string(), copy_string(&paths))];
    assert(members_view(inv_members@) == inv_seq);
    let ghost res_seq = seq![("image_paths"@, paths@), ("caption"@, spec_json_quote("Image loaded"@))];
    let res_members = vec![("image_paths".to_string(), paths), ("caption".to_string(), json_quote("Image loaded"))];
    assert(members_view(res_members@) == res_seq);
    let row = ToolRow {
        id: call_id,
        provider: Provider::Codex,
        family: ToolFamily::Image,
        kind: ToolKind::ViewImage,
        status: ToolStatus::Completed,
        title: path,
        subtitle: None,
        summary: Some("Image loaded".to_string()),
        started_at: Some(now.to_string()),
        ended_at: Some(now.to_string()),
        duration_ms: None,
        invocation: json_object_text(inv_members.as_slice()),
        result: Some(json_object_text(res_members.as_slice())),
    };
    vec![row_created_output(row_entry(ConversationRow::Tool(row)))]
}

/// An image generation begins: a running row.
pub fn handle_image_generation_begin(call_id: String, now: &str) -> (r: Vec<ConnectorOutput>)
    ensures
        r@.len() == 1,
        adds_row(
            r@[0],
            bare_entry(
                RowView::Tool(
                    runtime_row(
                        call_id@,
                        ToolFamily::Image,
                        ToolKind::ImageGeneration,
                        ToolStatus::Running,
                        "Image generation"@,
                        None,
                        Some("Generating image"@),
                        Some(now@),
                        None,
                        None,
                        json_object(
                            seq![
                                ("tool_name"@, spec_json_quote("image_generation"@)),
                                ("status"@, spec_json_quote("in_progress"@)),
                            ],
                        ),
                        None,
                    ),
                ),
            ),
        ),
{
    let ghost expected = seq![
        ("tool_name"@, spec_json_quote("image_generation"@)),
        ("status"@, spec_json_quote("in_progress"@)),
    ];
    let members = vec![
        ("tool_name".to_string(), json_quote("image_generation")),
        ("status".to_string(), json_quote("in_progress")),
    ];
    assert(members_view(members@) == expected);
    let row = ToolRow {
        id: call_id,
        provider: Provider::Codex,
        family: ToolFamily::Image,
        kind: ToolKind::ImageGeneration,
        status: ToolStatus::Running,
        title: "Image generation".to_string(),
        subtitle: None,
        summary: Some("Generating image".to_string()),
        started_at: Some(now.to_string()),
        ended_at: None,
        duration_ms: None,
        invocation: json_object_text(members.as_slice()),
        result: None,
    };
    vec![row_created_output(row_entry(ConversationRow::Tool(row)))]
}

/// A text that is not empty.
pub open spec fn non_empty(o: Option<Seq<char>>) -> Option<Seq<char>> {
    match o {
        Some(t) => if t.len() > 0 {
            Some(t)
        } else {
            None
        },
        None => None,
    }
}

/// The row of a finished image generation: its status as reported, the
/// saved image (when there is a path) as subtitle and only image path, and
/// the revised prompt when there is one.
pub open spec fn image_end_row(
    id: Seq<char>,
    status: Seq<char>,
    saved_path: Option<Seq<char>>,
    revised_prompt: Option<Seq<char>>,
    now: Seq<char>,
) -> ToolRowView {
    let s = image_status_named(status);
    let saved = non_empty(saved_path);
    let paths = json_array(
        match saved {
            Some(p) => seq![spec_json_quote(p)],
            None => Seq::empty(),
        },
    );
    let prompt = match non_empty(revised_prompt) {
        Some(p) => Some(spec_json_quote(p)),
        None => None,
    };
    runtime_row(
        id,
        ToolFamily::Image,
        ToolKind::ImageGeneration,
        s,
        "Image generation"@,
        saved,
        Some(image_summary(s, saved)),
        None,
        Some(now),
        None,
        json_object(
            with_member(
                seq![
                    ("tool_name"@, spec_json_quote("image_generation"@)),
                    ("status"@, spec_json_quote(status)),
                    ("image_paths"@, paths),
                ],
                "revised_prompt"@,
                prompt,
            ),
        ),
        Some(
            json_object(
                with_member(
                    seq![
                        ("tool_name"@, spec_json_quote("image_generation"@)),
                        ("status"@, spec_json_quote(status)),
                        ("image_paths"@, paths),
                        ("output"@, spec_json_quote(image_output(s, saved))),
                    ],
                    "revised_prompt"@,
                    prompt,
                ),
            ),
        ),
    )
}

fn non_empty_text(o: Option<String>) -> (r: Option<String>)
    ensures
        opt_string_view(r) == non_empty(opt_string_view(o)),
{
    match o {
        Some(t) => if t.as_str().unicode_len() > 0 {
            Some(t)
        } else {
            None
        },
        None => None,
    }
}

/// An image generation ends with its reported status, the path it saved
/// to and its revised prompt (each when there is one).
pub fn handle_image_generation_end(
    call_id: String,
    status: String,
    saved_path: Option<String>,
    revised_prompt: Option<String>,
    now: &str,
) -> (r: Vec<ConnectorOutput>)
    ensures
        r@.len() == 1,
        replaces_row(
            r@[0],
            call_id@,
            bare_entry(
                RowView::Tool(
                    image_end_row(
                        call_id@,
                        status@,
                        opt_string_view(saved_path),
                        opt_string_view(revised_prompt),
                        now@,
                    ),
                ),
            ),
        ),
{
    let s = image_generation_status(status.as_str());
    let saved = non_empty_text(saved_path);
    let prompt = non_empty_text(revised_prompt);
    let summary = match &saved {
        Some(p) => image_generation_summary(s, Some(p.as_str())),
        None => image_generation_summary(s, None),
    };
    let output = match &saved {
        Some(p) => image_generation_output(s, Some(p.as_str())),
        None => image_generation_output(s, None),
    };
    let path_items = match &saved {
        Some(p) => vec![json_quote(p.as_str())],
        None => Vec::new(),
    };
    assert(strs_view(path_items@) =~= match opt_string_view(saved) {
        Some(p) => seq![spec_json_quote(p)],
        None => Seq::<Seq<char>>::empty(),
    });
    let paths = json_array_text(path_items.as_slice());
    let quoted_prompt = quoted_opt(&prompt);
    let mut inv_members = vec![
        ("tool_name".to_string(), json_quote("image_generation")),
        ("status".to_string(), json_quote(status.as_str())),
        ("image_paths".to_string(), copy_string(&paths)),
    ];
    assert(members_view(inv_members@) == seq![
        ("tool_name"@, spec_json_quote("image_generation"@)),
        ("status"@, spec_json_quote(status@)),
        ("image_paths"@, paths@),
    ]);
    push_member(&mut inv_members, "revised_prompt", crate::text::copy_opt_string(&quoted_prompt));
    let ghost pv = paths@;
    let mut res_members = vec![
        ("tool_name".to_string(), json_quote("image_generation")),
        ("status".to_string(), json_quote(status.as_str())),
        ("image_paths".to_string(), paths),
        ("output".to_string(), json_quote(output.as_str())),
    ];
    assert(members_view(res_members@) == seq![
        ("tool_name"@, spec_json_quote("image_generation"@)),
        ("status"@, spec_json_quote(status@)),
        ("image_paths"@, pv),
        ("output"@, spec_json_quote(output@)),
    ]);
    push_member(&mut res_members, "revised_prompt", quoted_prompt);
    let row = ToolRow {
        id: copy_string(&call_id),
        provider: Provider::Codex,
        family: ToolFamily::Image,
        kind: ToolKind::ImageGeneration,
        status: s,
        title: "Image generation".to_string(),
        subtitle: saved,
        summary: Some(summary),
        started_at: None,
        ended_at: Some(now.to_string()),
        duration_ms: None,
        invocation: json_object_text(inv_members.as_slice()),
        result: Some(json_object_text(res_members.as_slice())),
    };
    vec![row_updated_output(call_id, row_entry(ConversationRow::Tool(row)))]
}

// ---------------------------------------------------------------------------
// Dynamic tools
// ---------------------------------------------------------------------------

/// The family, kind and title of a dynamic tool by its name; a generic
/// dynamic tool call named after the tool otherwise.
pub open spec fn requested_identity(tool: Seq<char>) -> (ToolFamily, ToolKind, Seq<char>) {
    match identity_named(tool) {
        Some(i) => i,
        None => (ToolFamily::Generic, ToolKind::DynamicToolCall, tool),
    }
}

/// The runtime asks for a dynamic tool call (its arguments are JSON
/// text): a running row, and the call handed to the connector's runtime.
pub fn handle_dynamic_tool_call_request(call_id: String, tool: String, arguments: String, now: &str) -> (r: Vec<
    ConnectorOutput,
>)
    ensures
        ({
            let (family, kind, title) = requested_identity(tool@);
            &&& r@.len() == 2
            &&& adds_row(
                r@[0],
                bare_entry(
                    RowView::Tool(
                        runtime_row(
                            call_id@,
                            family,
                            kind,
                            ToolStatus::Running,
                            title,
                            None,
                            None,
                            Some(now@),
                            None,
                            None,
                            json_object(seq![("tool_name"@, spec_json_quote(tool@)), ("raw_input"@, arguments@)]),
                            None,
                        ),
                    ),
                ),
            )
            &&& r@[1] matches ConnectorOutput::Runtime(
                ConnectorRuntimeDirective::DynamicToolCallRequested { call_id: c, tool_name: t, arguments: a },
            )
            &&& r@[1]->Runtime_0->DynamicToolCallRequested_call_id == call_id
            &&& r@[1]->Runtime_0->DynamicToolCallRequested_tool_name == tool
            &&& r@[1]->Runtime_0->DynamicToolCallRequested_arguments == arguments
        }),
{
    let (family, kind, title) = match dynamic_tool_identity_from_name(tool.as_str()) {
        Some((f, k, t)) => (f, k, t.to_string()),
        None => (ToolFamily::Generic, ToolKind::DynamicToolCall, copy_string(&tool)),
    };
    let ghost expected = seq![("tool_name"@, spec_json_quote(tool@)), ("raw_input"@, arguments@)];
    let members = vec![("tool_name".to_string(), json_quote(tool.as_str())), ("raw_input".to_string(), copy_string(&arguments))];
    assert(members_view(members@) == expected);
    let row = ToolRow {
        id: copy_string(&call_id),
        provider: Provider::Codex,
        family,
        kind,
        status: ToolStatus::Running,
        title,
        subtitle: None,
        summary: None,
        started_at: Some(now.to_string()),
        ended_at: None,
        duration_ms: None,
        invocation: json_object_text(members.as_slice()),
        result: None,
    };
    vec![
        row_created_output(row_entry(ConversationRow::Tool(row))),
        ConnectorOutput::Runtime(
            ConnectorRuntimeDirective::DynamicToolCallRequested { call_id, tool_name: tool, arguments },
        ),
    ]
}

} // verus!
