//! The tool rows of the app server's thread items: plain tool calls,
//! patches and dynamic tools, as JSON texts for their invocation and result.

use crate::codex::format::duration_millis;
use crate::codex::format::{collab_agent_worker_summary, worker_summary};
use crate::codex::items::{
    change_invocation, changes_view, collab_agent_tool_identity, collab_agent_tool_name,
    collab_identity, collab_name, collab_status, file_change_invocation, file_change_tool_status,
    map_collab_agent_status, patch_status, CollabAgentStatus, CollabAgentTool, FileUpdateChange,
    PatchApplyStatus,
};
use crate::codex::signals::{adds_row, bare_entry, replaces_row, row_created_output, row_entry, row_updated_output};
use crate::codex::tools::{
    dynamic_tool_identity_from_name, dynamic_tool_identity_from_output, identity_from_output,
    identity_named,
};
use crate::json::{
    json_bool, json_bool_text, json_lookup, json_object, json_object_text, json_opt_str,
    json_opt_string, json_quote, members_view, spec_json_lookup, spec_json_quote, JsonNode,
    JsonNodeView,
};
use crate::text::{
    concat3, concat_str, decimal, decimal_string, join, join_strings, opt_str_view, opt_string_view,
    str_eq, strs_view, trim, trim_non_empty, trim_str, trimmed_non_empty,
};
use crate::transition::connector::{ConnectorOutput, ConnectorStateEvent, ConnectorTransportEffect};
use crate::transition::model::{
    subagents_view, ConversationRow, Provider, RowView, SubagentInfo, SubagentStatus, SubagentView,
    ToolFamily, ToolKind, ToolRow, ToolRowView, ToolStatus,
};
use vstd::prelude::*;

verus! {

// ---------------------------------------------------------------------------
// Tool rows
// ---------------------------------------------------------------------------

/// The output of a tool row: a new row when the call starts, else the
/// update of the row with its id.
pub open spec fn tool_output(o: ConnectorOutput, id: Seq<char>, row: ToolRowView, started: bool) -> bool {
    if started {
        adds_row(o, bare_entry(RowView::Tool(row)))
    } else {
        replaces_row(o, id, bare_entry(RowView::Tool(row)))
    }
}

/// The output of a tool row: a new row when the call starts, else the
/// update of the row with its id.
pub fn tool_row_outputs(id: String, row: ToolRow, started: bool) -> (r: Vec<ConnectorOutput>)
    ensures
        r@.len() == 1,
        tool_output(r@[0], id@, row@, started),
{
    if started {
        vec![row_created_output(row_entry(ConversationRow::Tool(row)))]
    } else {
        vec![row_updated_output(id, row_entry(ConversationRow::Tool(row)))]
    }
}

/// What a plain tool row is made of.
pub struct ToolRowArgs {
    pub id: String,
    pub family: ToolFamily,
    pub kind: ToolKind,
    pub title: String,
    pub summary: Option<String>,
    /// JSON text.
    pub invocation: String,
    /// JSON text.
    pub result: Option<String>,
    pub started: bool,
    pub success: bool,
    pub duration_ms: Option<u64>,
}

/// `now`, when the condition holds.
pub open spec fn stamp_if(cond: bool, now: Seq<char>) -> Option<Seq<char>> {
    if cond {
        Some(now)
    } else {
        None
    }
}

/// A plain tool row: running while it starts, then completed or failed;
/// stamped `now` when it starts or ends.
pub open spec fn plain_row(
    id: Seq<char>,
    family: ToolFamily,
    kind: ToolKind,
    title: Seq<char>,
    summary: Option<Seq<char>>,
    invocation: Seq<char>,
    result: Option<Seq<char>>,
    started: bool,
    success: bool,
    duration_ms: Option<u64>,
    now: Seq<char>,
) -> ToolRowView {
    ToolRowView {
        id,
        provider: Provider::Codex,
        family,
        kind,
        status: if started {
            ToolStatus::Running
        } else if success {
            ToolStatus::Completed
        } else {
            ToolStatus::Failed
        },
        title,
        subtitle: None,
        summary,
        started_at: stamp_if(started, now),
        ended_at: stamp_if(!started, now),
        duration_ms,
        invocation,
        result,
    }
}

/// The plain tool row of the given parts.
pub open spec fn plain_tool_row(args: ToolRowArgs, now: Seq<char>) -> ToolRowView {
    plain_row(
        args.id@,
        args.family,
        args.kind,
        args.title@,
        opt_string_view(args.summary),
        args.invocation@,
        opt_string_view(args.result),
        args.started,
        args.success,
        args.duration_ms,
        now,
    )
}

fn stamp(cond: bool, now: &str) -> (r: Option<String>)
    ensures
        opt_string_view(r) == stamp_if(cond, now@),
{
    if cond {
        Some(now.to_string())
    } else {
        None
    }
}

/// The output of a plain tool row.
pub fn map_tool_row(args: ToolRowArgs, now: &str) -> (r: Vec<ConnectorOutput>)
    ensures
        r@.len() == 1,
        tool_output(r@[0], args.id@, plain_tool_row(args, now@), args.started),
{
    let ghost expected = plain_tool_row(args, now@);
    let ToolRowArgs {
        id,
        family,
        kind,
        title,
        summary,
        invocation,
        result,
        started,
        success,
        duration_ms,
    } = args;
    let status = if started {
        ToolStatus::Running
    } else if success {
        ToolStatus::Completed
    } else {
        ToolStatus::Failed
    };
    let row = ToolRow {
        id: crate::text::copy_string(&id),
        provider: Provider::Codex,
        family,
        kind,
        status,
        title,
        subtitle: None,
        summary,
        started_at: stamp(started, now),
        ended_at: stamp(!started, now),
        duration_ms,
        invocation,
        result,
    };
    assert(row@ == expected);
    tool_row_outputs(id, row, started)
}

// ---------------------------------------------------------------------------
// Patches
// ---------------------------------------------------------------------------

/// The summary of a patch's row: none while it runs; the output, or a
/// fixed text, once it is applied, declined or failed.
pub open spec fn patch_summary(status: ToolStatus, output: Option<Seq<char>>) -> Option<Seq<char>> {
    match status {
        ToolStatus::Completed => match output {
            Some(o) => Some(o),
            None => Some("Patch applied"@),
        },
        ToolStatus::Cancelled => Some("Patch declined"@),
        ToolStatus::Failed => match output {
            Some(o) => Some(o),
            None => Some("Patch failed"@),
        },
        _ => None,
    }
}

/// Output that is not blank.
pub open spec fn non_blank_output(output: Option<Seq<char>>) -> Option<Seq<char>> {
    match output {
        Some(o) => if trim(o).len() > 0 {
            Some(o)
        } else {
            None
        },
        None => None,
    }
}

/// The row of a patch: titled by its first file, with all files as
/// subtitle; its result holds the summary, the output and the diff when
/// there is output or a diff.
pub open spec fn patch_row(
    id: Seq<char>,
    changes: Seq<crate::codex::items::ChangeView>,
    status: PatchApplyStatus,
    started: bool,
    output: Option<Seq<char>>,
    now: Seq<char>,
) -> ToolRowView {
    let (files, diff, invocation) = change_invocation(changes);
    let tool_status = patch_status(status, started);
    let out = non_blank_output(output);
    let summary = patch_summary(tool_status, out);
    ToolRowView {
        id,
        provider: Provider::Codex,
        family: ToolFamily::FileChange,
        kind: ToolKind::Edit,
        status: tool_status,
        title: if files.len() > 0 {
            files[0]
        } else {
            "Apply patch"@
        },
        subtitle: if files.len() > 0 {
            Some(join(files, ", "@))
        } else {
            None
        },
        summary,
        started_at: stamp_if(started, now),
        ended_at: stamp_if(tool_status != ToolStatus::Running, now),
        duration_ms: None,
        invocation,
        result: if out is Some || diff.len() > 0 {
            Some(
                json_object(
                    seq![
                        ("tool_name"@, spec_json_quote("Edit"@)),
                        ("summary"@, json_opt_str(summary)),
                        ("output"@, spec_json_quote(
                            match out {
                                Some(o) => o,
                                None => Seq::empty(),
                            },
                        )),
                        ("diff"@, spec_json_quote(diff)),
                    ],
                ),
            )
        } else {
            None
        },
    }
}

fn patch_summary_text(status: ToolStatus, output: &Option<String>) -> (r: Option<String>)
    ensures
        opt_string_view(r) == patch_summary(status, opt_string_view(*output)),
{
    match status {
        ToolStatus::Completed => match output {
            Some(o) => Some(crate::text::copy_string(o)),
            None => Some("Patch applied".to_string()),
        },
        ToolStatus::Cancelled => Some("Patch declined".to_string()),
        ToolStatus::Failed => match output {
            Some(o) => Some(crate::text::copy_string(o)),
            None => Some("Patch failed".to_string()),
        },
        _ => None,
    }
}

/// The row of a patch.
pub fn file_change_tool_row(
    id: String,
    changes: Vec<FileUpdateChange>,
    status: PatchApplyStatus,
    started: bool,
    output: Option<String>,
    now: &str,
) -> (r: ToolRow)
    ensures
        r@ == patch_row(id@, changes_view(changes@), status, started, opt_string_view(output), now@),
{
    let (files, diff, invocation) = file_change_invocation(changes.as_slice());
    let tool_status = file_change_tool_status(status, started);
    let out = match output {
        Some(o) => if trim_str(o.as_str()).as_str().unicode_len() > 0 {
            Some(o)
        } else {
            None
        },
        None => None,
    };
    let summary = patch_summary_text(tool_status, &out);
    let title = if files.len() > 0 {
        crate::text::copy_string(&files[0])
    } else {
        "Apply patch".to_string()
    };
    let subtitle = if files.len() > 0 {
        Some(join_strings(files.as_slice(), ", "))
    } else {
        None
    };
    let has_out = out.is_some();
    let result = if has_out || diff.as_str().unicode_len() > 0 {
        let summary_json = match &summary {
            Some(s) => json_quote(s.as_str()),
            None => "null".to_string(),
        };
        let out_text = match &out {
            Some(o) => crate::text::copy_string(o),
            None => String::new(),
        };
        let members = vec![
            ("tool_name".to_string(), json_quote("Edit")),
            ("summary".to_string(), summary_json),
            ("output".to_string(), json_quote(out_text.as_str())),
            ("diff".to_string(), json_quote(diff.as_str())),
        ];
        proof {
            reveal_strlit("");
        }
        let j = json_object_text(members.as_slice());
        let ghost pr = patch_row(
            id@,
            changes_view(changes@),
            status,
            started,
            opt_string_view(output),
            now@,
        );
        let ghost ci = change_invocation(changes_view(changes@));
        let ghost so = non_blank_output(opt_string_view(output));
        let ghost sp = patch_summary(patch_status(status, started), so);
        assert(opt_string_view(out) == so);
        assert(opt_string_view(summary) == sp);
        assert(diff@ == ci.1);
        let ghost expected = seq![
            ("tool_name"@, spec_json_quote("Edit"@)),
            ("summary"@, json_opt_str(sp)),
            ("output"@, spec_json_quote(
                match so {
                    Some(o) => o,
                    None => Seq::empty(),
                },
            )),
            ("diff"@, spec_json_quote(ci.1)),
        ];
        assert(pr.result == Some(json_object(expected)));
        assert(members_view(members@) == expected);
        Some(j)
    } else {
        None
    };
    let ended = tool_status != ToolStatus::Running;
    ToolRow {
        id,
        provider: Provider::Codex,
        family: ToolFamily::FileChange,
        kind: ToolKind::Edit,
        status: tool_status,
        title,
        subtitle,
        summary,
        started_at: stamp(started, now),
        ended_at: stamp(ended, now),
        duration_ms: None,
        invocation,
        result,
    }
}

// ---------------------------------------------------------------------------
// Terminal input
// ---------------------------------------------------------------------------

/// Input typed into a running command goes to its terminal as bytes;
/// nothing when there is none.
pub fn map_terminal_interaction(item_id: String, stdin: String) -> (r: Vec<ConnectorOutput>)
    ensures
        stdin@.len() == 0 ==> r@.len() == 0,
        stdin@.len() > 0 ==> r@.len() == 1 && (r@[0] matches ConnectorOutput::Transport(
            ConnectorTransportEffect::ToolPtyOutput { tool_id, bytes },
        ) && tool_id == item_id && bytes@ == vstd::utf8::encode_utf8(stdin@)),
{
    if stdin.as_str().unicode_len() == 0 {
        return Vec::new();
    }
    vec![ConnectorOutput::Transport(
        ConnectorTransportEffect::ToolPtyOutput { tool_id: item_id, bytes: string_bytes(stdin) },
    )]
}

/// `String::into_bytes`: the UTF-8 form of the text.
#[verifier::external_body]
pub(crate) fn string_bytes(s: String) -> (r: Vec<u8>)
    ensures
        r@ == vstd::utf8::encode_utf8(s@),
{
    s.into_bytes()
}

// ---------------------------------------------------------------------------
// Dynamic tools
// ---------------------------------------------------------------------------

/// A piece of what a dynamic tool returned.
#[derive(Debug, Clone, PartialEq, Eq)]
pub enum DynamicToolCallOutputContentItem {
    InputText { text: String },
    InputImage { image_url: String },
}

/// The lines of a dynamic tool's output: its non-empty texts, and a line
/// for each image.
pub open spec fn output_lines(items: Seq<DynamicToolCallOutputContentItem>) -> Seq<Seq<char>>
    decreases items.len(),
{
    if items.len() == 0 {
        Seq::empty()
    } else {
        let prev = output_lines(items.drop_last());
        match items.last() {
            DynamicToolCallOutputContentItem::InputText { text } => if text@.len() > 0 {
                prev.push(text@)
            } else {
                prev
            },
            DynamicToolCallOutputContentItem::InputImage { image_url } => prev.push(
                "[image] "@ + image_url@,
            ),
        }
    }
}

/// A dynamic tool's output as text: its lines, or none.
pub open spec fn output_text(items: Option<Seq<DynamicToolCallOutputContentItem>>) -> Option<Seq<char>> {
    let lines = match items {
        Some(v) => output_lines(v),
        None => Seq::empty(),
    };
    if lines.len() == 0 {
        None
    } else {
        Some(join(lines, "\n"@))
    }
}

/// A dynamic tool's output as text.
pub fn dynamic_tool_output_to_text(content_items: Option<&[DynamicToolCallOutputContentItem]>) -> (r:
    Option<String>)
    ensures
        opt_string_view(r) == output_text(
            match content_items {
                Some(v) => Some(v@),
                None => None,
            },
        ),
{
    let items: &[DynamicToolCallOutputContentItem] = match content_items {
        Some(v) => v,
        None => &[],
    };
    let mut lines: Vec<String> = Vec::new();
    let mut i: usize = 0;
    while i < items.len()
        invariant
            i <= items.len(),
            strs_view(lines@) == output_lines(items@.take(i as int)),
        decreases items.len() - i,
    {
        assert(items@.take(i + 1).drop_last() =~= items@.take(i as int));
        assert(items@.take(i + 1).last() == items@[i as int]);
        let ghost before = strs_view(lines@);
        match &items[i] {
            DynamicToolCallOutputContentItem::InputText { text } => {
                if text.as_str().unicode_len() > 0 {
                    let t = crate::text::copy_string(text);
                    let ghost tv = t@;
                    lines.push(t);
                    assert(strs_view(lines@) =~= before.push(tv));
                }
            },
            DynamicToolCallOutputContentItem::InputImage { image_url } => {
                let line = concat_str("[image] ", image_url.as_str());
                let ghost lv = line@;
                lines.push(line);
                assert(strs_view(lines@) =~= before.push(lv));
            },
        }
        i = i + 1;
    }
    assert(items@.take(items.len() as int) =~= items@);
    proof {
        if content_items is None {
            assert(items@ =~= Seq::<DynamicToolCallOutputContentItem>::empty());
        }
    }
    if lines.len() == 0 {
        None
    } else {
        Some(join_strings(lines.as_slice(), "\n"))
    }
}

/// The invocation of a dynamic tool: its namespace, name and raw input.
pub open spec fn dynamic_invocation(namespace: Option<Seq<char>>, tool: Seq<char>, arguments: Seq<char>) -> Seq<char> {
    json_object(
        seq![
            ("namespace"@, json_opt_str(namespace)),
            ("tool_name"@, spec_json_quote(tool)),
            ("raw_input"@, arguments),
        ],
    )
}

/// The invocation of a dynamic tool; `arguments` is JSON text.
pub fn dynamic_tool_invocation(namespace: Option<String>, tool_name: String, arguments: String) -> (r:
    String)
    ensures
        r@ == dynamic_invocation(opt_string_view(namespace), tool_name@, arguments@),
{
    let ns = match &namespace {
        Some(n) => json_quote(n.as_str()),
        None => "null".to_string(),
    };
    let members = vec![
        ("namespace".to_string(), ns),
        ("tool_name".to_string(), json_quote(tool_name.as_str())),
        ("raw_input".to_string(), arguments),
    ];
    assert(members_view(members@) =~= seq![
        ("namespace"@, json_opt_str(opt_string_view(namespace))),
        ("tool_name"@, spec_json_quote(tool_name@)),
        ("raw_input"@, arguments@),
    ]);
    json_object_text(members.as_slice())
}

/// A dynamic tool's output as JSON: the output itself when it is JSON, the
/// JSON a string holds when it holds some, and otherwise the text as a JSON
/// string.
pub open spec fn raw_output_json(output: Option<Seq<char>>) -> Option<Seq<char>> {
    match output {
        None => None,
        Some(o) => Some(
            match spec_json_lookup(o, Seq::empty()) {
                Some(JsonNodeView::Str(inner)) => if spec_json_lookup(inner, Seq::empty()) is Some {
                    inner
                } else {
                    spec_json_quote(inner)
                },
                Some(_) => o,
                None => spec_json_quote(o),
            },
        ),
    }
}

fn raw_output_value(output: Option<&String>) -> (r: Option<String>)
    ensures
        opt_string_view(r) == raw_output_json(
            match output {
                Some(o) => Some(o@),
                None => None,
            },
        ),
{
    proof {
        reveal_strlit("");
        assert(""@ =~= Seq::<char>::empty());
    }
    let o = match output {
        Some(o) => o,
        None => {
            return None;
        },
    };
    match json_lookup(o.as_str(), "") {
        Some(JsonNode::Str(inner)) => if json_lookup(inner.as_str(), "").is_some() {
            Some(inner)
        } else {
            Some(json_quote(inner.as_str()))
        },
        Some(_) => Some(crate::text::copy_string(o)),
        None => Some(json_quote(o.as_str())),
    }
}

/// The string member `key` of the JSON text, if any.
pub open spec fn str_member(json: Option<Seq<char>>, pointer: Seq<char>) -> Option<Seq<char>> {
    match json {
        Some(t) => match spec_json_lookup(t, pointer) {
            Some(JsonNodeView::Str(s)) => Some(s),
            _ => None,
        },
        None => None,
    }
}

/// The non-negative integer member at `pointer` of the JSON text, if any.
pub open spec fn count_member(json: Option<Seq<char>>, pointer: Seq<char>) -> Option<u64> {
    match json {
        Some(t) => match spec_json_lookup(t, pointer) {
            Some(JsonNodeView::Number(Some(n))) => Some(n),
            _ => None,
        },
        None => None,
    }
}

/// The boolean member at `pointer` of the JSON text, if any.
pub open spec fn bool_member(json: Option<Seq<char>>, pointer: Seq<char>) -> Option<bool> {
    match json {
        Some(t) => match spec_json_lookup(t, pointer) {
            Some(JsonNodeView::Bool(b)) => Some(b),
            _ => None,
        },
        None => None,
    }
}

fn str_member_of(json: &Option<String>, pointer: &str) -> (r: Option<String>)
    ensures
        opt_string_view(r) == str_member(opt_string_view(*json), pointer@),
{
    match json {
        Some(t) => match json_lookup(t.as_str(), pointer) {
            Some(JsonNode::Str(s)) => Some(s),
            _ => None,
        },
        None => None,
    }
}

fn count_member_of(json: &Option<String>, pointer: &str) -> (r: Option<u64>)
    ensures
        r == count_member(opt_string_view(*json), pointer@),
{
    match json {
        Some(t) => match json_lookup(t.as_str(), pointer) {
            Some(JsonNode::Number(Some(n))) => Some(n),
            _ => None,
        },
        None => None,
    }
}

fn bool_member_of(json: &Option<String>, pointer: &str) -> (r: Option<bool>)
    ensures
        r == bool_member(opt_string_view(*json), pointer@),
{
    match json {
        Some(t) => match json_lookup(t.as_str(), pointer) {
            Some(JsonNode::Bool(b)) => Some(b),
            _ => None,
        },
        None => None,
    }
}

/// The text of a write: how many bytes went where (a saved plan for the
/// plan tool).
pub open spec fn write_text(tool: Seq<char>, count: u64, path: Option<Seq<char>>) -> Seq<char> {
    if tool == "plan_write"@ {
        match path {
            Some(p) => "Saved plan ("@ + decimal(count as nat) + " bytes) to "@ + p,
            None => "Saved plan ("@ + decimal(count as nat) + " bytes)"@,
        }
    } else {
        match path {
            Some(p) => "Wrote "@ + decimal(count as nat) + " bytes to "@ + p,
            None => "Wrote "@ + decimal(count as nat) + " bytes"@,
        }
    }
}

/// The text of an edit: how many replacements, and where.
pub open spec fn edit_text(count: u64, path: Option<Seq<char>>) -> Seq<char> {
    match path {
        Some(p) => "Applied "@ + decimal(count as nat) + " replacement(s) in "@ + p,
        None => "Applied "@ + decimal(count as nat) + " replacement(s)"@,
    }
}

/// The output shown for a dynamic tool of the given kind: the content read,
/// the bytes written or the replacements applied, else the raw output.
pub open spec fn shown_output(
    tool: Seq<char>,
    kind: ToolKind,
    raw: Option<Seq<char>>,
    output: Option<Seq<char>>,
) -> Option<Seq<char>> {
    match kind {
        ToolKind::Read => str_member(raw, "/content"@),
        ToolKind::Write => match count_member(raw, "/bytes_written"@) {
            Some(c) => Some(write_text(tool, c, str_member(raw, "/path"@))),
            None => output,
        },
        ToolKind::Edit => match count_member(raw, "/replacements"@) {
            Some(c) => Some(edit_text(c, str_member(raw, "/path"@))),
            None => output,
        },
        _ => output,
    }
}

/// The summary of a dynamic tool's row.
pub open spec fn dynamic_summary(
    kind: ToolKind,
    raw: Option<Seq<char>>,
    output: Option<Seq<char>>,
    shown: Option<Seq<char>>,
) -> Option<Seq<char>> {
    match kind {
        ToolKind::Read => match str_member(raw, "/path"@) {
            Some(p) => Some("Read "@ + p),
            None => Some("Read file"@),
        },
        ToolKind::Write | ToolKind::Edit => match shown {
            Some(t) => Some(t),
            None => output,
        },
        _ => output,
    }
}

/// A member that is there only when it has a value.
pub open spec fn opt_member(key: Seq<char>, value: Option<Seq<char>>) -> Seq<(Seq<char>, Seq<char>)> {
    match value {
        Some(v) => seq![(key, v)],
        None => Seq::empty(),
    }
}

/// The optional text as a JSON string.
pub open spec fn quoted(o: Option<Seq<char>>) -> Option<Seq<char>> {
    match o {
        Some(s) => Some(spec_json_quote(s)),
        None => None,
    }
}

/// The summary and result of a finished dynamic tool: the tool's name, its
/// raw input and output, and what the output tells (summary, shown
/// output, path, bytes written, replacements, truncation), each when known.
pub open spec fn dynamic_result(
    tool: Seq<char>,
    kind: ToolKind,
    arguments: Seq<char>,
    output: Option<Seq<char>>,
) -> (Option<Seq<char>>, Seq<char>) {
    let raw = raw_output_json(output);
    let shown = shown_output(tool, kind, raw, output);
    let summary = dynamic_summary(kind, raw, output, shown);
    let members = seq![("tool_name"@, spec_json_quote(tool)), ("raw_input"@, arguments)]
        + opt_member("raw_output"@, raw)
        + opt_member("summary"@, quoted(summary))
        + opt_member("output"@, quoted(shown))
        + opt_member("path"@, quoted(str_member(raw, "/path"@)))
        + opt_member(
        "bytes_written"@,
        match count_member(raw, "/bytes_written"@) {
            Some(c) => Some(decimal(c as nat)),
            None => None,
        },
    ) + opt_member(
        "replacements"@,
        match count_member(raw, "/replacements"@) {
            Some(c) => Some(decimal(c as nat)),
            None => None,
        },
    ) + opt_member(
        "truncated"@,
        match bool_member(raw, "/truncated"@) {
            Some(b) => Some(json_bool(b)),
            None => None,
        },
    );
    (summary, json_object(members))
}

fn push_member(members: &mut Vec<(String, String)>, key: &str, value: Option<String>)
    ensures
        members_view(final(members)@) == members_view(old(members)@) + opt_member(
            key@,
            opt_string_view(value),
        ),
{
    let ghost before = members_view(members@);
    match value {
        Some(v) => {
            let ghost vv = v@;
            members.push((key.to_string(), v));
            assert(members_view(members@) =~= before + seq![(key@, vv)]);
        },
        None => {
            assert(members_view(members@) =~= before + Seq::<(Seq<char>, Seq<char>)>::empty());
        },
    }
}

fn quote_opt(o: &Option<String>) -> (r: Option<String>)
    ensures
        opt_string_view(r) == quoted(opt_string_view(*o)),
{
    match o {
        Some(s) => Some(json_quote(s.as_str())),
        None => None,
    }
}

fn write_summary_text(tool: &str, count: u64, path: &Option<String>) -> (r: String)
    ensures
        r@ == write_text(tool@, count, opt_string_view(*path)),
{
    let n = decimal_string(count);
    if str_eq(tool, "plan_write") {
        match path {
            Some(p) => {
                let head = concat3("Saved plan (", n.as_str(), " bytes) to ");
                concat_str(head.as_str(), p.as_str())
            },
            None => concat3("Saved plan (", n.as_str(), " bytes)"),
        }
    } else {
        match path {
            Some(p) => {
                let head = concat3("Wrote ", n.as_str(), " bytes to ");
                concat_str(head.as_str(), p.as_str())
            },
            None => concat3("Wrote ", n.as_str(), " bytes"),
        }
    }
}

fn edit_summary_text(count: u64, path: &Option<String>) -> (r: String)
    ensures
        r@ == edit_text(count, opt_string_view(*path)),
{
    let n = decimal_string(count);
    match path {
        Some(p) => {
            let head = concat3("Applied ", n.as_str(), " replacement(s) in ");
            concat_str(head.as_str(), p.as_str())
        },
        None => concat3("Applied ", n.as_str(), " replacement(s)"),
    }
}

/// The summary and result of a finished dynamic tool; `arguments` is JSON
/// text.
pub fn dynamic_tool_result_payload(
    tool_name: &str,
    kind: ToolKind,
    arguments: &str,
    output: Option<&String>,
) -> (r: (Option<String>, String))
    ensures
        (opt_string_view(r.0), r.1@) == dynamic_result(
            tool_name@,
            kind,
            arguments@,
            match output {
                Some(o) => Some(o@),
                None => None,
            },
        ),
{
    let ghost ov = match output {
        Some(o) => Some(o@),
        None => None,
    };
    let out: Option<String> = match output {
        Some(o) => Some(crate::text::copy_string(o)),
        None => None,
    };
    assert(opt_string_view(out) == ov);
    let raw = raw_output_value(output);
    let path = str_member_of(&raw, "/path");
    let replacements = count_member_of(&raw, "/replacements");
    let bytes_written = count_member_of(&raw, "/bytes_written");
    let read_content = str_member_of(&raw, "/content");
    let read_truncated = bool_member_of(&raw, "/truncated");
    let shown: Option<String> = match kind {
        ToolKind::Read => read_content,
        ToolKind::Write => match bytes_written {
            Some(c) => Some(write_summary_text(tool_name, c, &path)),
            None => crate::text::copy_opt_string(&out),
        },
        ToolKind::Edit => match replacements {
            Some(c) => Some(edit_summary_text(c, &path)),
            None => crate::text::copy_opt_string(&out),
        },
        _ => crate::text::copy_opt_string(&out),
    };
    let ghost rv = raw_output_json(ov);
    assert(opt_string_view(shown) == shown_output(tool_name@, kind, rv, ov));
    let summary: Option<String> = match kind {
        ToolKind::Read => match &path {
            Some(p) => Some(concat_str("Read ", p.as_str())),
            None => Some("Read file".to_string()),
        },
        ToolKind::Write | ToolKind::Edit => match &shown {
            Some(t) => Some(crate::text::copy_string(t)),
            None => crate::text::copy_opt_string(&out),
        },
        _ => crate::text::copy_opt_string(&out),
    };
    assert(opt_string_view(summary) == dynamic_summary(
        kind,
        rv,
        ov,
        shown_output(tool_name@, kind, rv, ov),
    ));
    let mut members: Vec<(String, String)> = vec![
        ("tool_name".to_string(), json_quote(tool_name)),
        ("raw_input".to_string(), arguments.to_string()),
    ];
    assert(members_view(members@) =~= seq![
        ("tool_name"@, spec_json_quote(tool_name@)),
        ("raw_input"@, arguments@),
    ]);
    push_member(&mut members, "raw_output", raw);
    push_member(&mut members, "summary", quote_opt(&summary));
    push_member(&mut members, "output", quote_opt(&shown));
    push_member(&mut members, "path", quote_opt(&path));
    push_member(
        &mut members,
        "bytes_written",
        match bytes_written {
            Some(c) => Some(decimal_string(c)),
            None => None,
        },
    );
    push_member(
        &mut members,
        "replacements",
        match replacements {
            Some(c) => Some(decimal_string(c)),
            None => None,
        },
    );
    push_member(
        &mut members,
        "truncated",
        match read_truncated {
            Some(b) => Some(json_bool_text(b)),
            None => None,
        },
    );
    let result = json_object_text(members.as_slice());
    (summary, result)
}

/// What a dynamic tool call is made of; `arguments` is JSON text.
pub struct DynamicToolCallArgs {
    pub id: String,
    pub namespace: Option<String>,
    pub tool: String,
    pub arguments: String,
    pub content_items: Option<Vec<DynamicToolCallOutputContentItem>>,
    pub success: bool,
    pub duration_ms: Option<i64>,
    pub started: bool,
}

/// A duration in milliseconds, when it is not negative.
pub open spec fn millis(value: Option<i64>) -> Option<u64> {
    match value {
        Some(v) => if v >= 0 {
            Some(v as u64)
        } else {
            None
        },
        None => None,
    }
}

/// The family, kind and title of a dynamic tool: what its name tells, and
/// once it has finished what its output tells, except for the plan tool;
/// a generic dynamic tool call named after the tool otherwise.
pub open spec fn dynamic_identity(tool: Seq<char>, started: bool, output: Option<Seq<char>>) -> (
    ToolFamily,
    ToolKind,
    Seq<char>,
) {
    let from_name = identity_named(tool);
    let resolved = if started || tool == "plan_write"@ {
        from_name
    } else {
        match identity_from_output(output) {
            Some(i) => Some(i),
            None => from_name,
        }
    };
    match resolved {
        Some(i) => i,
        None => (ToolFamily::Generic, ToolKind::DynamicToolCall, tool),
    }
}

/// The row of a dynamic tool call: while it starts, its invocation only;
/// once it finished, the summary and result its output gives.
pub open spec fn dynamic_row(
    id: Seq<char>,
    namespace: Option<Seq<char>>,
    tool: Seq<char>,
    arguments: Seq<char>,
    content_items: Option<Seq<DynamicToolCallOutputContentItem>>,
    success: bool,
    duration_ms: Option<i64>,
    started: bool,
    now: Seq<char>,
) -> ToolRowView {
    let output = if started {
        None
    } else {
        output_text(content_items)
    };
    let (family, kind, title) = dynamic_identity(tool, started, output);
    let (summary, result) = dynamic_result(tool, kind, arguments, output);
    ToolRowView {
        id,
        provider: Provider::Codex,
        family,
        kind,
        status: if started {
            ToolStatus::Running
        } else if success {
            ToolStatus::Completed
        } else {
            ToolStatus::Failed
        },
        title,
        subtitle: None,
        summary: if started {
            None
        } else {
            summary
        },
        started_at: stamp_if(started, now),
        ended_at: stamp_if(!started, now),
        duration_ms: millis(duration_ms),
        invocation: dynamic_invocation(namespace, tool, arguments),
        result: if started {
            None
        } else {
            Some(result)
        },
    }
}

/// The content items as a sequence, when there are any.
pub open spec fn items_view(items: Option<Vec<DynamicToolCallOutputContentItem>>) -> Option<
    Seq<DynamicToolCallOutputContentItem>,
> {
    match items {
        Some(v) => Some(v@),
        None => None,
    }
}

fn identity_or_generic(
    identity: Option<(ToolFamily, ToolKind, &'static str)>,
    tool: &String,
) -> (r: (ToolFamily, ToolKind, String))
    ensures
        (r.0, r.1, r.2@) == (match identity {
            Some((f, k, t)) => (f, k, t@),
            None => (ToolFamily::Generic, ToolKind::DynamicToolCall, tool@),
        }),
{
    match identity {
        Some((f, k, t)) => (f, k, t.to_string()),
        None => (ToolFamily::Generic, ToolKind::DynamicToolCall, crate::text::copy_string(tool)),
    }
}

/// The output of a dynamic tool call.
pub fn map_dynamic_tool(args: DynamicToolCallArgs, now: &str) -> (r: Vec<ConnectorOutput>)
    ensures
        r@.len() == 1,
        tool_output(
            r@[0],
            args.id@,
            dynamic_row(
                args.id@,
                opt_string_view(args.namespace),
                args.tool@,
                args.arguments@,
                items_view(args.content_items),
                args.success,
                args.duration_ms,
                args.started,
                now@,
            ),
            args.started,
        ),
{
    let ghost expected = dynamic_row(
        args.id@,
        opt_string_view(args.namespace),
        args.tool@,
        args.arguments@,
        items_view(args.content_items),
        args.success,
        args.duration_ms,
        args.started,
        now@,
    );
    let DynamicToolCallArgs {
        id,
        namespace,
        tool,
        arguments,
        content_items,
        success,
        duration_ms,
        started,
    } = args;
    if started {
        let (family, kind, title) = identity_or_generic(
            dynamic_tool_identity_from_name(tool.as_str()),
            &tool,
        );
        let invocation = dynamic_tool_invocation(namespace, crate::text::copy_string(&tool), arguments);
        let row_args = ToolRowArgs {
            id,
            family,
            kind,
            title,
            summary: None,
            invocation,
            result: None,
            started,
            success,
            duration_ms: duration_millis(duration_ms),
        };
        assert(plain_tool_row(row_args, now@) == expected);
        return map_tool_row(row_args, now);
    }
    let output = dynamic_tool_output_to_text(
        match &content_items {
            Some(v) => Some(v.as_slice()),
            None => None,
        },
    );
    let from_name = dynamic_tool_identity_from_name(tool.as_str());
    let resolved = if str_eq(tool.as_str(), "plan_write") {
        from_name
    } else {
        match dynamic_tool_identity_from_output(output.as_ref()) {
            Some(i) => Some(i),
            None => from_name,
        }
    };
    let (family, kind, title) = identity_or_generic(resolved, &tool);
    let (summary, result) = dynamic_tool_result_payload(
        tool.as_str(),
        kind,
        arguments.as_str(),
        output.as_ref(),
    );
    let invocation = dynamic_tool_invocation(namespace, crate::text::copy_string(&tool), arguments);
    let row_args = ToolRowArgs {
        id,
        family,
        kind,
        title,
        summary,
        invocation,
        result: Some(result),
        started,
        success,
        duration_ms: duration_millis(duration_ms),
    };
    assert(plain_tool_row(row_args, now@) == expected);
    map_tool_row(row_args, now)
}

// ---------------------------------------------------------------------------
// Calls to other agents
// ---------------------------------------------------------------------------

/// Where a call to another agent stands.
#[derive(Debug, Clone, Copy, PartialEq, Eq, Structural)]
pub enum CollabAgentToolCallStatus {
    InProgress,
    Completed,
    Failed,
}

/// What the app server reports of another agent: its status, its last
/// message, and the state as sent (JSON text).
#[derive(Debug, Clone, PartialEq, Eq)]
pub struct CollabAgentState {
    pub status: CollabAgentStatus,
    pub message: Option<String>,
    pub raw: String,
}

/// The agent type of the subagents a collaboration call reports.
pub const GENERAL_PURPOSE_AGENT_TYPE: &'static str = "general_purpose";

/// What a call to another agent is made of; the agents' states come in the
/// order the app server listed them.
pub struct CollabAgentToolCallArgs {
    pub id: String,
    pub tool: CollabAgentTool,
    pub status: CollabAgentToolCallStatus,
    pub sender_thread_id: String,
    pub receiver_thread_ids: Vec<String>,
    pub prompt: Option<String>,
    pub model: Option<String>,
    /// The name of the reasoning effort asked for.
    pub reasoning_effort: Option<String>,
    pub agents_states: Vec<(String, CollabAgentState)>,
    pub started: bool,
}

/// An agent's state as the subagent list sees it: id, status, message and
/// the state as sent.
pub open spec fn agent_state_view(p: (String, CollabAgentState)) -> (Seq<char>, CollabAgentStatus, Option<Seq<char>>, Seq<char>) {
    (p.0@, p.1.status, opt_string_view(p.1.message), p.1.raw@)
}

/// The views of the agents' states.
pub open spec fn agent_states_view(v: Seq<(String, CollabAgentState)>) -> Seq<(Seq<char>, CollabAgentStatus, Option<Seq<char>>, Seq<char>)> {
    v.map_values(|p: (String, CollabAgentState)| agent_state_view(p))
}

/// Whether a subagent status is final.
pub open spec fn is_terminal(status: SubagentStatus) -> bool {
    status == SubagentStatus::Completed || status == SubagentStatus::Failed || status
        == SubagentStatus::Shutdown || status == SubagentStatus::NotFound
}

/// The subagent another agent's state stands for: a general-purpose
/// Codex agent labelled by its id, seen `now`, ended when its status is
/// final, with its message as result or error.
pub open spec fn collab_subagent(
    state: (Seq<char>, CollabAgentStatus, Option<Seq<char>>, Seq<char>),
    sender: Seq<char>,
    prompt: Option<Seq<char>>,
    model: Option<Seq<char>>,
    now: Seq<char>,
) -> SubagentView {
    let status = collab_status(state.1);
    SubagentView {
        id: state.0,
        agent_type: GENERAL_PURPOSE_AGENT_TYPE@,
        started_at: now,
        ended_at: if is_terminal(status) {
            Some(now)
        } else {
            None
        },
        provider: Some(Provider::Codex),
        label: Some(state.0),
        status,
        task_summary: trimmed_non_empty(prompt),
        result_summary: if status == SubagentStatus::Completed {
            state.2
        } else {
            None
        },
        error_summary: if status == SubagentStatus::Failed {
            Some(
                match state.2 {
                    Some(m) => m,
                    None => "Agent failed"@,
                },
            )
        } else {
            None
        },
        parent_subagent_id: Some(sender),
        model,
        last_activity_at: Some(now),
    }
}

/// The subagents of a collaboration call, one for each agent state.
pub fn collab_agent_subagents(
    sender_thread_id: &str,
    prompt: Option<&str>,
    model: Option<&str>,
    agents_states: &[(String, CollabAgentState)],
    now: &str,
) -> (r: Vec<SubagentInfo>)
    ensures
        subagents_view(r@) == agent_states_view(agents_states@).map_values(
            |st: (Seq<char>, CollabAgentStatus, Option<Seq<char>>, Seq<char>)|
                collab_subagent(st, sender_thread_id@, opt_str_view(prompt), opt_str_view(model), now@),
        ),
{
    let ghost sv = agent_states_view(agents_states@);
    let mut out: Vec<SubagentInfo> = Vec::new();
    let mut i: usize = 0;
    while i < agents_states.len()
        invariant
            i <= agents_states.len(),
            sv == agent_states_view(agents_states@),
            subagents_view(out@) =~= sv.take(i as int).map_values(
                |st: (Seq<char>, CollabAgentStatus, Option<Seq<char>>, Seq<char>)|
                    collab_subagent(st, sender_thread_id@, opt_str_view(prompt), opt_str_view(model), now@),
            ),
        decreases agents_states.len() - i,
    {
        let (agent_id, state) = (&agents_states[i].0, &agents_states[i].1);
        let status = map_collab_agent_status(state.status);
        let terminal = status == SubagentStatus::Completed || status == SubagentStatus::Failed
            || status == SubagentStatus::Shutdown || status == SubagentStatus::NotFound;
        let info = SubagentInfo {
            id: crate::text::copy_string(agent_id),
            agent_type: GENERAL_PURPOSE_AGENT_TYPE.to_string(),
            started_at: now.to_string(),
            ended_at: if terminal {
                Some(now.to_string())
            } else {
                None
            },
            provider: Some(Provider::Codex),
            label: Some(crate::text::copy_string(agent_id)),
            status,
            task_summary: trim_non_empty(prompt),
            result_summary: if status == SubagentStatus::Completed {
                crate::text::copy_opt_string(&state.message)
            } else {
                None
            },
            error_summary: if status == SubagentStatus::Failed {
                match &state.message {
                    Some(m) => Some(crate::text::copy_string(m)),
                    None => Some("Agent failed".to_string()),
                }
            } else {
                None
            },
            parent_subagent_id: Some(sender_thread_id.to_string()),
            model: match model {
                Some(m) => Some(m.to_string()),
                None => None,
            },
            last_activity_at: Some(now.to_string()),
        };
        let ghost before = subagents_view(out@);
        let ghost iv = info@;
        assert(sv[i as int] == agent_state_view(agents_states@[i as int]));
        assert(iv == collab_subagent(
            sv[i as int],
            sender_thread_id@,
            opt_str_view(prompt),
            opt_str_view(model),
            now@,
        ));
        out.push(info);
        assert(subagents_view(out@) =~= before.push(iv));
        assert(sv.take(i + 1) =~= sv.take(i as int).push(sv[i as int]));
        i = i + 1;
    }
    assert(sv.take(agents_states.len() as int) =~= sv);
    out
}

/// The JSON array of the given texts as JSON strings.
pub open spec fn quoted_list(items: Seq<Seq<char>>) -> Seq<char> {
    crate::json::json_array(items.map_values(|s: Seq<char>| spec_json_quote(s)))
}

fn quoted_list_text(items: &[String]) -> (r: String)
    ensures
        r@ == quoted_list(strs_view(items@)),
{
    let mut quoted: Vec<String> = Vec::new();
    let mut i: usize = 0;
    while i < items.len()
        invariant
            i <= items.len(),
            strs_view(quoted@) =~= strs_view(items@).take(i as int).map_values(
                |s: Seq<char>| spec_json_quote(s),
            ),
        decreases items.len() - i,
    {
        let q = json_quote(items[i].as_str());
        let ghost before = strs_view(quoted@);
        let ghost qv = q@;
        quoted.push(q);
        assert(strs_view(quoted@) =~= before.push(qv));
        assert(strs_view(items@).take(i + 1) =~= strs_view(items@).take(i as int).push(items@[i as int]@));
        i = i + 1;
    }
    assert(strs_view(items@).take(items.len() as int) =~= strs_view(items@));
    crate::json::json_array_text(quoted.as_slice())
}

/// The JSON object of the agents' states, by agent id.
pub open spec fn states_object(states: Seq<(Seq<char>, CollabAgentStatus, Option<Seq<char>>, Seq<char>)>) -> Seq<char> {
    json_object(
        states.map_values(
            |st: (Seq<char>, CollabAgentStatus, Option<Seq<char>>, Seq<char>)| (st.0, st.3),
        ),
    )
}

fn states_object_text(states: &[(String, CollabAgentState)]) -> (r: String)
    ensures
        r@ == states_object(agent_states_view(states@)),
{
    let ghost sv = agent_states_view(states@);
    let mut members: Vec<(String, String)> = Vec::new();
    let mut i: usize = 0;
    while i < states.len()
        invariant
            i <= states.len(),
            sv == agent_states_view(states@),
            members_view(members@) =~= sv.take(i as int).map_values(
                |st: (Seq<char>, CollabAgentStatus, Option<Seq<char>>, Seq<char>)| (st.0, st.3),
            ),
        decreases states.len() - i,
    {
        let k = crate::text::copy_string(&states[i].0);
        let v = crate::text::copy_string(&states[i].1.raw);
        let ghost before = members_view(members@);
        let ghost mv = (k@, v@);
        assert(sv[i as int] == agent_state_view(states@[i as int]));
        members.push((k, v));
        assert(members_view(members@) =~= before.push(mv));
        assert(sv.take(i + 1) =~= sv.take(i as int).push(sv[i as int]));
        i = i + 1;
    }
    assert(sv.take(states.len() as int) =~= sv);
    json_object_text(members.as_slice())
}

/// The row of a call to another agent: running until it completes or
/// fails; its invocation names the workers and the task, its result the
/// outcome and the agents' states.
pub open spec fn collab_row(
    id: Seq<char>,
    tool: CollabAgentTool,
    status: CollabAgentToolCallStatus,
    sender: Seq<char>,
    receivers: Seq<Seq<char>>,
    prompt: Option<Seq<char>>,
    model: Option<Seq<char>>,
    effort: Option<Seq<char>>,
    states: Seq<(Seq<char>, CollabAgentStatus, Option<Seq<char>>, Seq<char>)>,
    started: bool,
    now: Seq<char>,
) -> ToolRowView {
    let (kind, title) = collab_identity(tool);
    let running = started || status == CollabAgentToolCallStatus::InProgress;
    let success = status != CollabAgentToolCallStatus::Failed;
    let summary = if running {
        None
    } else {
        Some(
            title + " "@ + if success {
                "completed"@
            } else {
                "failed"@
            },
        )
    };
    let workers = quoted_list(receivers);
    ToolRowView {
        id,
        provider: Provider::Codex,
        family: ToolFamily::Agent,
        kind,
        status: if running {
            ToolStatus::Running
        } else if success {
            ToolStatus::Completed
        } else {
            ToolStatus::Failed
        },
        title,
        subtitle: match prompt {
            Some(p) => Some(p),
            None => worker_summary(receivers),
        },
        summary,
        started_at: stamp_if(started, now),
        ended_at: stamp_if(!running, now),
        duration_ms: None,
        invocation: json_object(
            seq![
                ("agent_type"@, spec_json_quote(collab_name(tool))),
                ("worker_ids"@, workers),
                ("worker_id"@, json_opt_str(
                    if receivers.len() > 0 {
                        Some(receivers[0])
                    } else {
                        None
                    },
                )),
                ("sender_thread_id"@, spec_json_quote(sender)),
                ("task_summary"@, json_opt_str(prompt)),
                ("model"@, json_opt_str(model)),
                ("reasoning_effort"@, json_opt_str(effort)),
            ],
        ),
        result: if running {
            None
        } else {
            Some(
                json_object(
                    seq![
                        ("summary"@, json_opt_str(summary)),
                        ("worker_ids"@, workers),
                        ("agents_states"@, states_object(states)),
                    ],
                ),
            )
        },
    }
}

/// The outputs of a call to another agent: its row, then the subagents it
/// reports when there are any.
pub fn map_collab_agent_tool(args: CollabAgentToolCallArgs, now: &str) -> (r: Vec<ConnectorOutput>)
    ensures
        ({
            let states = agent_states_view(args.agents_states@);
            &&& r@.len() == (if states.len() > 0 {
                2int
            } else {
                1int
            })
            &&& tool_output(
                r@[0],
                args.id@,
                collab_row(
                    args.id@,
                    args.tool,
                    args.status,
                    args.sender_thread_id@,
                    strs_view(args.receiver_thread_ids@),
                    opt_string_view(args.prompt),
                    opt_string_view(args.model),
                    opt_string_view(args.reasoning_effort),
                    states,
                    args.started,
                    now@,
                ),
                args.started,
            )
            &&& states.len() > 0 ==> (r@[1] matches ConnectorOutput::State(
                ConnectorStateEvent::SubagentsUpdated { subagents },
            ) && subagents_view(subagents@) == states.map_values(
                |st: (Seq<char>, CollabAgentStatus, Option<Seq<char>>, Seq<char>)|
                    collab_subagent(
                        st,
                        args.sender_thread_id@,
                        opt_string_view(args.prompt),
                        opt_string_view(args.model),
                        now@,
                    ),
            ))
        }),
{
    let ghost expected = collab_row(
        args.id@,
        args.tool,
        args.status,
        args.sender_thread_id@,
        strs_view(args.receiver_thread_ids@),
        opt_string_view(args.prompt),
        opt_string_view(args.model),
        opt_string_view(args.reasoning_effort),
        agent_states_view(args.agents_states@),
        args.started,
        now@,
    );
    let CollabAgentToolCallArgs {
        id,
        tool,
        status,
        sender_thread_id,
        receiver_thread_ids,
        prompt,
        model,
        reasoning_effort,
        agents_states,
        started,
    } = args;
    let (kind, title) = collab_agent_tool_identity(&tool);
    let running = started || status == CollabAgentToolCallStatus::InProgress;
    let success = status != CollabAgentToolCallStatus::Failed;
    let worker_summary_text = collab_agent_worker_summary(receiver_thread_ids.as_slice());
    let summary = if running {
        None
    } else {
        let outcome = if success {
            "completed"
        } else {
            "failed"
        };
        Some(concat3(title, " ", outcome))
    };
    let workers = quoted_list_text(receiver_thread_ids.as_slice());
    let worker_id = if receiver_thread_ids.len() > 0 {
        json_quote(receiver_thread_ids[0].as_str())
    } else {
        "null".to_string()
    };
    let invocation_members = vec![
        ("agent_type".to_string(), json_quote(collab_agent_tool_name(&tool))),
        ("worker_ids".to_string(), crate::text::copy_string(&workers)),
        ("worker_id".to_string(), worker_id),
        ("sender_thread_id".to_string(), json_quote(sender_thread_id.as_str())),
        ("task_summary".to_string(), json_opt_string(crate::text::opt_as_str(&prompt))),
        ("model".to_string(), json_opt_string(crate::text::opt_as_str(&model))),
        ("reasoning_effort".to_string(), json_opt_string(crate::text::opt_as_str(&reasoning_effort))),
    ];
    proof {
        let receivers = strs_view(receiver_thread_ids@);
        if receiver_thread_ids@.len() > 0 {
            assert(receivers[0] == receiver_thread_ids@[0]@);
        }
        assert(members_view(invocation_members@) =~= seq![
            ("agent_type"@, spec_json_quote(collab_name(tool))),
            ("worker_ids"@, quoted_list(receivers)),
            ("worker_id"@, json_opt_str(
                if receivers.len() > 0 {
                    Some(receivers[0])
                } else {
                    None
                },
            )),
            ("sender_thread_id"@, spec_json_quote(sender_thread_id@)),
            ("task_summary"@, json_opt_str(opt_string_view(prompt))),
            ("model"@, json_opt_str(opt_string_view(model))),
            ("reasoning_effort"@, json_opt_str(opt_string_view(reasoning_effort))),
        ]);
    }
    let invocation = json_object_text(invocation_members.as_slice());
    let result = if running {
        None
    } else {
        let summary_json = match &summary {
            Some(s) => json_quote(s.as_str()),
            None => "null".to_string(),
        };
        let result_members = vec![
            ("summary".to_string(), summary_json),
            ("worker_ids".to_string(), workers),
            ("agents_states".to_string(), states_object_text(agents_states.as_slice())),
        ];
        assert(members_view(result_members@) =~= seq![
            ("summary"@, json_opt_str(opt_string_view(summary))),
            ("worker_ids"@, quoted_list(strs_view(receiver_thread_ids@))),
            ("agents_states"@, states_object(agent_states_view(agents_states@))),
        ]);
        Some(json_object_text(result_members.as_slice()))
    };
    let subtitle = match &prompt {
        Some(p) => Some(crate::text::copy_string(p)),
        None => worker_summary_text,
    };
    let tool_status = if running {
        ToolStatus::Running
    } else if success {
        ToolStatus::Completed
    } else {
        ToolStatus::Failed
    };
    let row = ToolRow {
        id: crate::text::copy_string(&id),
        provider: Provider::Codex,
        family: ToolFamily::Agent,
        kind,
        status: tool_status,
        title: title.to_string(),
        subtitle,
        summary,
        started_at: stamp(started, now),
        ended_at: stamp(!running, now),
        duration_ms: None,
        invocation,
        result,
    };
    assert(row@ == expected);
    let mut outputs = tool_row_outputs(id, row, started);
    let subagents = collab_agent_subagents(
        sender_thread_id.as_str(),
        crate::text::opt_as_str(&prompt),
        crate::text::opt_as_str(&model),
        agents_states.as_slice(),
        now,
    );
    assert(subagents_view(subagents@).len() == subagents@.len());
    assert(agent_states_view(agents_states@).len() == agents_states@.len());
    if subagents.len() > 0 {
        outputs.push(ConnectorOutput::State(ConnectorStateEvent::SubagentsUpdated { subagents }));
    }
    outputs
}

} // verus!
