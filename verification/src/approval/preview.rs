//! The preview of an approval request: what it will do, shown compactly, in
//! full, and as a manifest read before deciding.

use crate::approval::patch_diff::{
    diff_compact_summary, diff_from_patch_input, diff_manifest, diff_manifest_lines,
    diff_preview_from_patch_input, diff_summary, normalize_diff_preview, normalized_diff,
};
use crate::approval::questions::{parse_tool_input_object, tool_input_object};
use crate::approval::risk::{
    approval_type_label, approval_type_text, assess_approval_risk, risk_level_label,
    risk_level_text, risk_of, ApprovalRiskAssessment,
};
use crate::approval::shell::{
    operator_prefix, shell_operator_prefix, shell_segments, shell_segments_for_preview,
};
use crate::approval::{
    segments_view, ApprovalPreviewSegment, ApprovalPreviewType, ApprovalRiskLevel, ApprovalType,
};
use crate::json::{json_has, 
    element_pointer, element_ptr, first_present, json_lookup, json_str, json_str_at,
    member_pointer, member_ptr, spec_json_lookup, JsonNode, JsonNodeView,
};
use crate::text::{
    chars_eq, concat3, concat_str, copy_string, copy_strings, decimal, decimal_string,
    from_chars, join, join_strings, opt_str_view, opt_string_view, path_file_name,
    prefix_each, push_prefixed, spec_file_name, spec_to_lowercase, str_eq, strs_view,
    take_chars, to_chars, to_lowercase, trim_non_empty, trimmed_non_empty,
};
use vstd::prelude::*;

verus! {

/// The preview of an approval request.
#[derive(Debug, Clone)]
pub struct ApprovalPreview {
    pub preview_type: ApprovalPreviewType,
    pub value: String,
    pub shell_segments: Vec<ApprovalPreviewSegment>,
    pub compact: Option<String>,
    pub decision_scope: Option<String>,
    pub risk_level: ApprovalRiskLevel,
    pub risk_findings: Vec<String>,
    pub manifest: Option<String>,
}

/// The view of a preview.
pub struct PreviewSpec {
    pub preview_type: ApprovalPreviewType,
    pub value: Seq<char>,
    pub shell_segments: Seq<(Seq<char>, Option<Seq<char>>)>,
    pub compact: Option<Seq<char>>,
    pub decision_scope: Option<Seq<char>>,
    pub risk_level: ApprovalRiskLevel,
    pub risk_findings: Seq<Seq<char>>,
    pub manifest: Option<Seq<char>>,
}

impl ApprovalPreview {
    pub open spec fn preview_view(&self) -> PreviewSpec {
        PreviewSpec {
            preview_type: self.preview_type,
            value: self.value@,
            shell_segments: segments_view(self.shell_segments@),
            compact: opt_string_view(self.compact),
            decision_scope: opt_string_view(self.decision_scope),
            risk_level: self.risk_level,
            risk_findings: strs_view(self.risk_findings@),
            manifest: opt_string_view(self.manifest),
        }
    }
}

/// What an approval request says about itself.
pub struct ApprovalPreviewInput<'a> {
    pub request_id: &'a str,
    pub approval_type: ApprovalType,
    pub tool_name: Option<&'a str>,
    pub tool_input: Option<&'a str>,
    pub command: Option<&'a str>,
    pub file_path: Option<&'a str>,
    pub diff: Option<&'a str>,
    pub question: Option<&'a str>,
    pub permission_reason: Option<&'a str>,
}

/// The view of a preview input.
pub struct PreviewInputSpec {
    pub request_id: Seq<char>,
    pub approval_type: ApprovalType,
    pub tool_name: Option<Seq<char>>,
    pub tool_input: Option<Seq<char>>,
    pub command: Option<Seq<char>>,
    pub file_path: Option<Seq<char>>,
    pub diff: Option<Seq<char>>,
    pub question: Option<Seq<char>>,
    pub permission_reason: Option<Seq<char>>,
}

impl<'a> ApprovalPreviewInput<'a> {
    pub open spec fn input_view(&self) -> PreviewInputSpec {
        PreviewInputSpec {
            request_id: self.request_id@,
            approval_type: self.approval_type,
            tool_name: opt_str_view(self.tool_name),
            tool_input: opt_str_view(self.tool_input),
            command: opt_str_view(self.command),
            file_path: opt_str_view(self.file_path),
            diff: opt_str_view(self.diff),
            question: opt_str_view(self.question),
            permission_reason: opt_str_view(self.permission_reason),
        }
    }
}

// ---------------------------------------------------------------------------
// Reading the tool input
// ---------------------------------------------------------------------------

/// The strings of the first `k` elements of the array at `p`, when all of
/// them are strings.
pub open spec fn string_elements(x: Seq<char>, p: Seq<char>, k: nat) -> Option<Seq<Seq<char>>>
    decreases k,
{
    if k == 0 {
        Some(Seq::empty())
    } else {
        match string_elements(x, p, (k - 1) as nat) {
            None => None,
            Some(prev) => match json_str(x, element_pointer(p, (k - 1) as nat)) {
                Some(s) => Some(prev.push(s)),
                None => None,
            },
        }
    }
}

/// A shell command given as a JSON string, or as an array of strings joined
/// by spaces; trimmed, and `None` when blank or of another shape.
pub open spec fn shell_command_at(x: Seq<char>, p: Seq<char>) -> Option<Seq<char>> {
    match spec_json_lookup(x, p) {
        Some(JsonNodeView::Str(s)) => trimmed_non_empty(Some(s)),
        Some(JsonNodeView::Array(n)) => match string_elements(x, p, n) {
            Some(ts) => trimmed_non_empty(Some(join(ts, " "@))),
            None => None,
        },
        _ => None,
    }
}

fn shell_command_from_json(x: &str, p: &str) -> (r: Option<String>)
    ensures
        opt_string_view(r) == shell_command_at(x@, p@),
{
    match json_lookup(x, p) {
        Some(JsonNode::Str(s)) => trim_non_empty(Some(s.as_str())),
        Some(JsonNode::Array(n)) => {
            let mut tokens: Vec<String> = Vec::new();
            let mut i: usize = 0;
            assert(strs_view(tokens@) =~= Seq::<Seq<char>>::empty());
            while i < n
                invariant
                    i <= n,
                    spec_json_lookup(x@, p@) == Some(JsonNodeView::Array(n as nat)),
                    string_elements(x@, p@, i as nat) == Some(strs_view(tokens@)),
                decreases n - i,
            {
                let ep = element_ptr(p, i);
                let item = json_str_at(x, ep.as_str());
                assert(string_elements(x@, p@, (i + 1) as nat) == match item {
                    Some(t) => Some(strs_view(tokens@).push(t@)),
                    None => None::<Seq<Seq<char>>>,
                });
                match item {
                    Some(t) => {
                        let ghost before = strs_view(tokens@);
                        tokens.push(t);
                        assert(strs_view(tokens@) =~= before.push(t@));
                    },
                    None => {
                        proof {
                            lemma_string_elements_none(x@, p@, (i + 1) as nat, n as nat);
                        }
                        return None;
                    },
                }
                i = i + 1;
            }
            let joined = join_strings(tokens.as_slice(), " ");
            trim_non_empty(Some(joined.as_str()))
        },
        _ => None,
    }
}

proof fn lemma_string_elements_none(x: Seq<char>, p: Seq<char>, k: nat, m: nat)
    requires
        k <= m,
        string_elements(x, p, k) is None,
    ensures
        string_elements(x, p, m) is None,
    decreases m - k,
{
    if k < m {
        lemma_string_elements_none(x, p, k, (m - 1) as nat);
    }
}

/// The first non-blank string among the first `k` members of the object,
/// in key order.
pub open spec fn first_value_upto(x: Seq<char>, keys: Seq<Seq<char>>, k: nat) -> Option<Seq<char>>
    decreases k,
{
    if k == 0 {
        None
    } else {
        match first_value_upto(x, keys, (k - 1) as nat) {
            Some(v) => Some(v),
            None => trimmed_non_empty(json_str(x, member_pointer(Seq::empty(), keys[k - 1]))),
        }
    }
}

/// The first non-blank string member of the object `x`, trimmed, in key
/// order (the keys of a parsed object come sorted).
pub open spec fn first_string_value(x: Seq<char>) -> Option<Seq<char>> {
    match spec_json_lookup(x, Seq::empty()) {
        Some(JsonNodeView::Object(keys)) => first_value_upto(x, keys, keys.len()),
        _ => None,
    }
}

proof fn lemma_first_value_stable(x: Seq<char>, keys: Seq<Seq<char>>, k: nat, m: nat)
    requires
        k <= m,
        first_value_upto(x, keys, k) is Some,
    ensures
        first_value_upto(x, keys, m) == first_value_upto(x, keys, k),
    decreases m - k,
{
    if k < m {
        lemma_first_value_stable(x, keys, k, (m - 1) as nat);
    }
}

fn first_string_value_from_json_object(x: &str) -> (r: Option<String>)
    ensures
        opt_string_view(r) == first_string_value(x@),
{
    proof {
        reveal_strlit("");
        assert(""@ =~= Seq::<char>::empty());
    }
    let keys = match json_lookup(x, "") {
        Some(JsonNode::Object(keys)) => keys,
        _ => {
            return None;
        },
    };
    let ghost kv = keys@.map_values(|k: String| k@);
    let mut i: usize = 0;
    while i < keys.len()
        invariant
            i <= keys.len(),
            kv == keys@.map_values(|k: String| k@),
            spec_json_lookup(x@, Seq::empty()) == Some(JsonNodeView::Object(kv)),
            first_value_upto(x@, kv, i as nat) is None,
        decreases keys.len() - i,
    {
        proof {
            reveal_strlit("");
            assert(""@ =~= Seq::<char>::empty());
        }
        let mp = member_ptr("", keys[i].as_str());
        let value = json_str_at(x, mp.as_str());
        let found = match value {
            Some(v) => trim_non_empty(Some(v.as_str())),
            None => None,
        };
        assert(kv[i as int] == keys@[i as int]@);
        assert(trimmed_non_empty(json_str(x@, mp@)) == opt_string_view(found));
        assert(first_value_upto(x@, kv, (i + 1) as nat) == opt_string_view(found));
        if found.is_some() {
            proof {
                lemma_first_value_stable(x@, kv, (i + 1) as nat, kv.len());
            }
            return found;
        }
        i = i + 1;
    }
    None
}

// ---------------------------------------------------------------------------
// Compact detail
// ---------------------------------------------------------------------------

/// `text` cut to at most `max` characters; a cut text of more than three
/// characters ends with `...`.
pub open spec fn truncated(text: Seq<char>, max: nat) -> Seq<char> {
    if max == 0 {
        Seq::empty()
    } else if max <= 3 {
        text.take(if max <= text.len() { max as int } else { text.len() as int })
    } else if text.len() <= max {
        text
    } else {
        text.take(max - 3) + "..."@
    }
}

/// A cut text never exceeds its limit, and a text within the limit is kept
/// whole.
pub proof fn law_truncated_fits(text: Seq<char>, max: nat)
    ensures
        truncated(text, max).len() <= max,
        text.len() <= max ==> truncated(text, max) == text,
{
    reveal_strlit("...");
    if text.len() <= max {
        assert(text.take(text.len() as int) =~= text);
    }
}

/// Cuts `text` to at most `max_length` characters.
pub fn compact_truncate(text: String, max_length: usize) -> (r: String)
    ensures
        r@ == truncated(text@, max_length as nat),
{
    if max_length == 0 {
        return String::new();
    }
    let c = to_chars(text.as_str());
    if max_length <= 3 {
        let t = take_chars(c.as_slice(), max_length);
        return from_chars(t.as_slice());
    }
    if c.len() <= max_length {
        return text;
    }
    let t = take_chars(c.as_slice(), max_length - 3);
    let head = from_chars(t.as_slice());
    concat_str(head.as_str(), "...")
}

/// Whether a tool edits or reads one file, so that a file path preview
/// shows the file's name only.
pub open spec fn is_file_tool(name: Seq<char>) -> bool {
    name == "edit"@ || name == "write"@ || name == "read"@ || name == "notebookedit"@
}

/// The one-line summary of a preview before it is trimmed and cut.
pub open spec fn compact_summary(
    preview_type: ApprovalPreviewType,
    value: Seq<char>,
    segs: Seq<(Seq<char>, Option<Seq<char>>)>,
    tool: Seq<char>,
) -> Seq<char> {
    match preview_type {
        ApprovalPreviewType::ShellCommand => if segs.len() > 1 {
            let remaining = (segs.len() - 1) as nat;
            segs[0].0 + " +"@ + decimal(remaining) + (if remaining == 1 {
                " segment"@
            } else {
                " segments"@
            })
        } else {
            value
        },
        ApprovalPreviewType::Diff => diff_summary(value),
        ApprovalPreviewType::Url => "url: "@ + value,
        ApprovalPreviewType::SearchQuery => "query: "@ + value,
        ApprovalPreviewType::Pattern => "pattern: "@ + value,
        ApprovalPreviewType::Prompt => "prompt: "@ + value,
        ApprovalPreviewType::FilePath => if is_file_tool(tool) {
            match spec_file_name(value) {
                Some(f) => f,
                None => value,
            }
        } else {
            value
        },
        ApprovalPreviewType::Value | ApprovalPreviewType::Action => value,
    }
}

/// The compact detail of a preview: its summary, trimmed and cut to fifty
/// characters; `None` when blank.
pub open spec fn compact_detail(
    preview_type: ApprovalPreviewType,
    value: Seq<char>,
    segs: Seq<(Seq<char>, Option<Seq<char>>)>,
    tool: Seq<char>,
) -> Option<Seq<char>> {
    match trimmed_non_empty(Some(compact_summary(preview_type, value, segs, tool))) {
        Some(t) => Some(truncated(t, 50)),
        None => None,
    }
}

fn lit_is(a: &str, lit: &str) -> (r: bool)
    ensures
        r == (a@ == lit@),
{
    str_eq(a, lit)
}

fn compact_detail_for_preview(
    preview_type: ApprovalPreviewType,
    value: &str,
    shell_segments: &Vec<ApprovalPreviewSegment>,
    normalized_tool_name: &str,
) -> (r: Option<String>)
    ensures
        opt_string_view(r) == compact_detail(
            preview_type,
            value@,
            segments_view(shell_segments@),
            normalized_tool_name@,
        ),
{
    let summary = match preview_type {
        ApprovalPreviewType::ShellCommand => {
            if shell_segments.len() > 1 {
                let remaining = shell_segments.len() - 1;
                let noun = if remaining == 1 {
                    " segment"
                } else {
                    " segments"
                };
                let count = decimal_string(remaining as u64);
                assert(segments_view(shell_segments@)[0] == shell_segments@[0].view_pair());
                let a = concat3(shell_segments[0].command.as_str(), " +", count.as_str());
                concat_str(a.as_str(), noun)
            } else {
                value.to_string()
            }
        },
        ApprovalPreviewType::Diff => diff_compact_summary(value),
        ApprovalPreviewType::Url => concat_str("url: ", value),
        ApprovalPreviewType::SearchQuery => concat_str("query: ", value),
        ApprovalPreviewType::Pattern => concat_str("pattern: ", value),
        ApprovalPreviewType::Prompt => concat_str("prompt: ", value),
        ApprovalPreviewType::FilePath => {
            if lit_is(normalized_tool_name, "edit") || lit_is(normalized_tool_name, "write")
                || lit_is(normalized_tool_name, "read") || lit_is(
                normalized_tool_name,
                "notebookedit",
            ) {
                match path_file_name(value) {
                    Some(f) => f,
                    None => value.to_string(),
                }
            } else {
                value.to_string()
            }
        },
        ApprovalPreviewType::Value | ApprovalPreviewType::Action => value.to_string(),
    };
    match trim_non_empty(Some(summary.as_str())) {
        Some(t) => Some(compact_truncate(t, 50)),
        None => None,
    }
}

// ---------------------------------------------------------------------------
// Decision scope and manifest
// ---------------------------------------------------------------------------

/// What approving or denying the request covers.
pub open spec fn decision_scope(preview_type: ApprovalPreviewType) -> Seq<char> {
    match preview_type {
        ApprovalPreviewType::ShellCommand => "approve/deny applies to all command segments in this request."@,
        ApprovalPreviewType::Diff | ApprovalPreviewType::FilePath => "approve/deny applies to this full file action."@,
        _ => "approve/deny applies to this full tool action."@,
    }
}

fn decision_scope_for_preview(preview_type: ApprovalPreviewType) -> (r: &'static str)
    ensures
        r@ == decision_scope(preview_type),
{
    match preview_type {
        ApprovalPreviewType::ShellCommand => "approve/deny applies to all command segments in this request.",
        ApprovalPreviewType::Diff | ApprovalPreviewType::FilePath => "approve/deny applies to this full file action.",
        _ => "approve/deny applies to this full tool action.",
    }
}

/// The numbered manifest lines of the first `k` segments.
pub open spec fn segment_lines(segs: Seq<(Seq<char>, Option<Seq<char>>)>, k: nat) -> Seq<Seq<char>>
    decreases k,
{
    if k == 0 {
        Seq::empty()
    } else {
        segment_lines(segs, (k - 1) as nat).push(
            "["@ + decimal(k) + "] "@ + operator_prefix(segs[k - 1].1) + segs[k - 1].0,
        )
    }
}

/// The manifest lines that describe what the request does.
pub open spec fn content_lines(
    preview_type: ApprovalPreviewType,
    value: Seq<char>,
    segs: Seq<(Seq<char>, Option<Seq<char>>)>,
) -> Seq<Seq<char>> {
    match preview_type {
        ApprovalPreviewType::ShellCommand => {
            let count: nat = if segs.len() == 0 {
                1
            } else {
                segs.len()
            };
            let head = seq!["command_segments: "@ + decimal(count), "segments:"@];
            if segs.len() == 0 {
                head.push("[1] "@ + value)
            } else {
                head + segment_lines(segs, segs.len())
            }
        },
        ApprovalPreviewType::Diff => diff_manifest(value),
        ApprovalPreviewType::FilePath => seq!["target_file: "@ + value],
        ApprovalPreviewType::Url => seq!["target_url: "@ + value],
        ApprovalPreviewType::SearchQuery => seq!["search_query: "@ + value],
        ApprovalPreviewType::Pattern => seq!["pattern: "@ + value],
        ApprovalPreviewType::Prompt => seq!["prompt: "@ + value],
        ApprovalPreviewType::Value => seq!["value: "@ + value],
        ApprovalPreviewType::Action => seq!["action: "@ + value],
    }
}

fn manifest_content_lines(
    preview_type: ApprovalPreviewType,
    value: &str,
    shell_segments: &Vec<ApprovalPreviewSegment>,
) -> (r: Vec<String>)
    ensures
        strs_view(r@) == content_lines(preview_type, value@, segments_view(shell_segments@)),
{
    let mut lines: Vec<String> = Vec::new();
    match preview_type {
        ApprovalPreviewType::ShellCommand => {
            let count = if shell_segments.len() == 0 {
                1
            } else {
                shell_segments.len()
            };
            lines.push(concat_str("command_segments: ", decimal_string(count as u64).as_str()));
            lines.push("segments:".to_string());
            let ghost head = strs_view(lines@);
            if shell_segments.len() == 0 {
                let l = concat_str("[1] ", value);
                lines.push(l);
                assert(strs_view(lines@) =~= head.push(l@));
                return lines;
            }
            let ghost segs = segments_view(shell_segments@);
            let mut i: usize = 0;
            assert(strs_view(lines@) =~= head + segment_lines(segs, 0));
            while i < shell_segments.len()
                invariant
                    i <= shell_segments.len(),
                    segs == segments_view(shell_segments@),
                    strs_view(lines@) == head + segment_lines(segs, i as nat),
                decreases shell_segments.len() - i,
            {
                let seg = &shell_segments[i];
                let prefix = shell_operator_prefix(
                    match &seg.leading_operator {
                        Some(o) => Some(o.as_str()),
                        None => None,
                    },
                );
                assert(segs[i as int] == seg.view_pair());
                let a = concat3("[", decimal_string((i + 1) as u64).as_str(), "] ");
                let l = concat3(a.as_str(), prefix.as_str(), seg.command.as_str());
                let ghost before = strs_view(lines@);
                lines.push(l);
                assert(strs_view(lines@) =~= before.push(l@));
                i = i + 1;
            }
            lines
        },
        ApprovalPreviewType::Diff => diff_manifest_lines(value),
        _ => {
            let label = match preview_type {
                ApprovalPreviewType::FilePath => "target_file: ",
                ApprovalPreviewType::Url => "target_url: ",
                ApprovalPreviewType::SearchQuery => "search_query: ",
                ApprovalPreviewType::Pattern => "pattern: ",
                ApprovalPreviewType::Prompt => "prompt: ",
                ApprovalPreviewType::Value => "value: ",
                _ => "action: ",
            };
            let l = concat_str(label, value);
            lines.push(l);
            assert(strs_view(lines@) =~= seq![l@]);
            lines
        },
    }
}

/// The text before a manifest's content: request, tool and risk.
pub open spec fn manifest_head(
    request_id: Seq<char>,
    approval_type: ApprovalType,
    tool_name: Option<Seq<char>>,
    level: ApprovalRiskLevel,
    findings: Seq<Seq<char>>,
    scope: Seq<char>,
) -> Seq<Seq<char>> {
    let resolved_request = match trimmed_non_empty(Some(request_id)) {
        Some(r) => r,
        None => "unknown"@,
    };
    let resolved_tool = match trimmed_non_empty(tool_name) {
        Some(t) => t,
        None => "unknown"@,
    };
    let head = seq![
        "APPROVAL MANIFEST"@,
        "request_id: "@ + resolved_request,
        "approval_type: "@ + approval_type_text(approval_type),
        "tool: "@ + resolved_tool,
        "risk_tier: "@ + risk_level_text(level),
    ];
    let with_signals = if findings.len() > 0 {
        head.push("risk_signals:"@) + prefix_each(findings, "- "@)
    } else {
        head
    };
    with_signals.push(Seq::empty()).push("decision_scope: "@ + scope)
}

/// The manifest read before deciding: one line per fact, joined by newlines.
pub open spec fn manifest(
    request_id: Seq<char>,
    approval_type: ApprovalType,
    tool_name: Option<Seq<char>>,
    level: ApprovalRiskLevel,
    findings: Seq<Seq<char>>,
    preview_type: ApprovalPreviewType,
    value: Seq<char>,
    segs: Seq<(Seq<char>, Option<Seq<char>>)>,
) -> Seq<char> {
    join(
        manifest_head(
            request_id,
            approval_type,
            tool_name,
            level,
            findings,
            decision_scope(preview_type),
        ) + content_lines(preview_type, value, segs),
        "\n"@,
    )
}

// ---------------------------------------------------------------------------
// Composition
// ---------------------------------------------------------------------------

/// The preview of one kind of content, with the request's risk.
pub open spec fn composed(
    inp: PreviewInputSpec,
    tool: Seq<char>,
    preview_type: ApprovalPreviewType,
    value: Seq<char>,
    segs: Seq<(Seq<char>, Option<Seq<char>>)>,
    risk: (ApprovalRiskLevel, Seq<Seq<char>>),
) -> PreviewSpec {
    PreviewSpec {
        preview_type,
        value,
        shell_segments: segs,
        compact: compact_detail(preview_type, value, segs, tool),
        decision_scope: Some(decision_scope(preview_type)),
        risk_level: risk.0,
        risk_findings: risk.1,
        manifest: Some(
            manifest(
                inp.request_id,
                inp.approval_type,
                inp.tool_name,
                risk.0,
                risk.1,
                preview_type,
                value,
                segs,
            ),
        ),
    }
}

/// A text read from the tool input object when there is one.
pub open spec fn input_str(input: Option<Seq<char>>, p: Seq<char>) -> Option<Seq<char>> {
    match input {
        Some(x) => trimmed_non_empty(json_str(x, p)),
        None => None,
    }
}

/// The command a request runs: from its tool input, else its command.
pub open spec fn request_command(inp: PreviewInputSpec) -> Option<Seq<char>> {
    let from_input = match tool_input_object(inp.tool_input) {
        Some(x) => shell_command_at(x, first_present(x, "/command"@, "/cmd"@)),
        None => None,
    };
    match from_input {
        Some(c) => Some(c),
        None => trimmed_non_empty(inp.command),
    }
}

/// The file a request touches: from its tool input, else its file path.
pub open spec fn request_file_path(inp: PreviewInputSpec) -> Option<Seq<char>> {
    let input = tool_input_object(inp.tool_input);
    match input_str(input, "/path"@) {
        Some(p) => Some(p),
        None => match input_str(input, "/file_path"@) {
            Some(p) => Some(p),
            None => trimmed_non_empty(inp.file_path),
        },
    }
}

/// The diff a request applies: its own, else one read from its tool input.
pub open spec fn request_diff(inp: PreviewInputSpec) -> Option<Seq<char>> {
    match trimmed_non_empty(inp.diff) {
        Some(d) => Some(d),
        None => match tool_input_object(inp.tool_input) {
            Some(x) => diff_from_patch_input(x, request_file_path(inp)),
            None => None,
        },
    }
}

/// The action named when nothing more specific is known.
pub open spec fn fallback_action(approval_type: ApprovalType, tool_name: Option<Seq<char>>) -> Seq<char> {
    match approval_type {
        ApprovalType::Question => match trimmed_non_empty(tool_name) {
            Some(t) => t,
            None => "Question"@,
        },
        ApprovalType::Permissions => match trimmed_non_empty(tool_name) {
            Some(t) => t,
            None => "Review requested permissions"@,
        },
        _ => match trimmed_non_empty(tool_name) {
            Some(t) => "Approve "@ + t + " action"@,
            None => "Approve action"@,
        },
    }
}

/// What a preview reads from a request's tool input and tool name: the
/// lower-cased tool name, the command, the file path, the URL, the search
/// query, the pattern, the prompt, the first string of the tool input and
/// the diff.
pub struct PreviewFieldsView {
    pub tool: Seq<char>,
    pub command: Option<Seq<char>>,
    pub file_path: Option<Seq<char>>,
    pub url: Option<Seq<char>>,
    pub query: Option<Seq<char>>,
    pub pattern: Option<Seq<char>>,
    pub prompt: Option<Seq<char>>,
    pub fallback_value: Option<Seq<char>>,
    pub diff: Option<Seq<char>>,
}

/// What a request's preview reads from its tool input (JSON) and its tool
/// name (lower-cased).
pub open spec fn preview_fields(inp: PreviewInputSpec) -> PreviewFieldsView {
    let input = tool_input_object(inp.tool_input);
    PreviewFieldsView {
        tool: normalized_tool(inp.tool_name),
        command: request_command(inp),
        file_path: request_file_path(inp),
        url: input_str(input, "/url"@),
        query: input_str(input, "/query"@),
        pattern: input_str(input, "/pattern"@),
        prompt: input_str(input, "/prompt"@),
        fallback_value: match input {
            Some(x) => first_string_value(x),
            None => None,
        },
        diff: request_diff(inp),
    }
}

/// What a preview shows, given what was read from the request: its type,
/// its value and its shell segments. It shows, in this order of
/// preference: the diff of a patch, the shell command, the URL, the search
/// query, the pattern, the prompt, the question of a question or
/// permissions request, the file path, the first string of the tool input,
/// and else the action.
pub open spec fn choice_from(inp: PreviewInputSpec, f: PreviewFieldsView) -> (
    ApprovalPreviewType,
    Seq<char>,
    Seq<(Seq<char>, Option<Seq<char>>)>,
) {
    let question = match trimmed_non_empty(inp.question) {
        Some(q) => Some(q),
        None => inp.permission_reason,
    };
    if inp.approval_type == ApprovalType::Patch && f.diff is Some {
        (ApprovalPreviewType::Diff, normalized_diff(f.diff->0), Seq::empty())
    } else if f.command is Some {
        (ApprovalPreviewType::ShellCommand, f.command->0, shell_segments(f.command->0))
    } else if f.url is Some {
        (ApprovalPreviewType::Url, f.url->0, Seq::empty())
    } else if f.query is Some {
        (ApprovalPreviewType::SearchQuery, f.query->0, Seq::empty())
    } else if f.pattern is Some {
        (ApprovalPreviewType::Pattern, f.pattern->0, Seq::empty())
    } else if f.prompt is Some {
        (ApprovalPreviewType::Prompt, f.prompt->0, Seq::empty())
    } else if (inp.approval_type == ApprovalType::Question || inp.approval_type
        == ApprovalType::Permissions) && question is Some {
        (ApprovalPreviewType::Prompt, question->0, Seq::empty())
    } else if f.file_path is Some {
        (ApprovalPreviewType::FilePath, f.file_path->0, Seq::empty())
    } else if f.fallback_value is Some {
        (ApprovalPreviewType::Value, f.fallback_value->0, Seq::empty())
    } else {
        (
            ApprovalPreviewType::Action,
            fallback_action(inp.approval_type, inp.tool_name),
            Seq::empty(),
        )
    }
}

/// What a request's preview shows: its type, its value and its shell
/// segments, chosen from what is read from the request.
pub open spec fn preview_choice(inp: PreviewInputSpec) -> (
    ApprovalPreviewType,
    Seq<char>,
    Seq<(Seq<char>, Option<Seq<char>>)>,
) {
    choice_from(inp, preview_fields(inp))
}

/// The preview of a request, given what was read from it: what
/// `choice_from` picks, with the risk of the command read.
pub open spec fn preview_from(inp: PreviewInputSpec, f: PreviewFieldsView) -> PreviewSpec {
    let choice = choice_from(inp, f);
    composed(inp, f.tool, choice.0, choice.1, choice.2, risk_of(inp.approval_type, f.command))
}

/// The lowercased, trimmed tool name; empty when there is none.
pub open spec fn normalized_tool(tool_name: Option<Seq<char>>) -> Seq<char> {
    match trimmed_non_empty(tool_name) {
        Some(n) => spec_to_lowercase(n),
        None => Seq::empty(),
    }
}

/// The preview of a request: what `preview_from` shows with what is read
/// from the request.
pub open spec fn preview_of(inp: PreviewInputSpec) -> PreviewSpec {
    preview_from(inp, preview_fields(inp))
}

// ---------------------------------------------------------------------------
// Building the preview
// ---------------------------------------------------------------------------

fn unknown_if_blank(value: Option<&str>) -> (r: String)
    ensures
        r@ == match trimmed_non_empty(opt_str_view(value)) {
            Some(t) => t,
            None => "unknown"@,
        },
{
    match trim_non_empty(value) {
        Some(t) => t,
        None => "unknown".to_string(),
    }
}

fn build_manifest_for_preview(
    inp: &ApprovalPreviewInput,
    risk: &ApprovalRiskAssessment,
    preview_type: ApprovalPreviewType,
    value: &str,
    shell_segments: &Vec<ApprovalPreviewSegment>,
    decision_scope: &str,
) -> (r: String)
    ensures
        r@ == join(
            manifest_head(
                inp.request_id@,
                inp.approval_type,
                opt_str_view(inp.tool_name),
                risk.level,
                strs_view(risk.findings@),
                decision_scope@,
            ) + content_lines(preview_type, value@, segments_view(shell_segments@)),
            "\n"@,
        ),
{
    let resolved_tool = unknown_if_blank(inp.tool_name);
    let resolved_request = unknown_if_blank(Some(inp.request_id));
    let mut lines: Vec<String> = Vec::new();
    lines.push("APPROVAL MANIFEST".to_string());
    lines.push(concat_str("request_id: ", resolved_request.as_str()));
    lines.push(concat_str("approval_type: ", approval_type_label(inp.approval_type)));
    lines.push(concat_str("tool: ", resolved_tool.as_str()));
    lines.push(concat_str("risk_tier: ", risk_level_label(risk.level)));
    let ghost head = strs_view(lines@);
    assert(head =~= seq![
        "APPROVAL MANIFEST"@,
        "request_id: "@ + resolved_request@,
        "approval_type: "@ + approval_type_text(inp.approval_type),
        "tool: "@ + resolved_tool@,
        "risk_tier: "@ + risk_level_text(risk.level),
    ]);
    if risk.findings.len() > 0 {
        lines.push("risk_signals:".to_string());
        let ghost marked = strs_view(lines@);
        assert(marked =~= head.push("risk_signals:"@));
        push_prefixed(&mut lines, &risk.findings, "- ");
    }
    let ghost with_signals = strs_view(lines@);
    assert(with_signals == if risk.findings@.len() > 0 {
        head.push("risk_signals:"@) + prefix_each(strs_view(risk.findings@), "- "@)
    } else {
        head
    });
    lines.push(String::new());
    lines.push(concat_str("decision_scope: ", decision_scope));
    let ghost closed = strs_view(lines@);
    assert(closed =~= with_signals.push(Seq::empty()).push("decision_scope: "@ + decision_scope@));
    let mut content = manifest_content_lines(preview_type, value, shell_segments);
    let ghost content_view = strs_view(content@);
    lines.append(&mut content);
    assert(strs_view(lines@) =~= closed + content_view);
    join_strings(lines.as_slice(), "\n")
}

fn compose_approval_preview(
    inp: &ApprovalPreviewInput,
    normalized_tool_name: &str,
    risk: &ApprovalRiskAssessment,
    preview_type: ApprovalPreviewType,
    value: String,
    shell_segments: Vec<ApprovalPreviewSegment>,
) -> (r: ApprovalPreview)
    ensures
        r.preview_view() == composed(
            inp.input_view(),
            normalized_tool_name@,
            preview_type,
            value@,
            segments_view(shell_segments@),
            (risk.level, strs_view(risk.findings@)),
        ),
{
    let compact = compact_detail_for_preview(
        preview_type,
        value.as_str(),
        &shell_segments,
        normalized_tool_name,
    );
    let scope = decision_scope_for_preview(preview_type);
    let manifest = build_manifest_for_preview(
        inp,
        risk,
        preview_type,
        value.as_str(),
        &shell_segments,
        scope,
    );
    ApprovalPreview {
        preview_type,
        value,
        shell_segments,
        compact,
        decision_scope: Some(scope.to_string()),
        risk_level: risk.level,
        risk_findings: copy_strings(&risk.findings),
        manifest: Some(manifest),
    }
}

fn input_str_at(input: &Option<String>, p: &str) -> (r: Option<String>)
    ensures
        opt_string_view(r) == input_str(opt_string_view(*input), p@),
{
    match input {
        Some(x) => match json_str_at(x.as_str(), p) {
            Some(v) => trim_non_empty(Some(v.as_str())),
            None => None,
        },
        None => None,
    }
}

fn command_from_request(inp: &ApprovalPreviewInput, input: &Option<String>) -> (r: Option<String>)
    requires
        opt_string_view(*input) == tool_input_object(opt_str_view(inp.tool_input)),
    ensures
        opt_string_view(r) == request_command(inp.input_view()),
{
    let from_input = match input {
        Some(x) => {
            let key = if json_lookup(x.as_str(), "/command").is_some() {
                "/command"
            } else {
                "/cmd"
            };
            shell_command_from_json(x.as_str(), key)
        },
        None => None,
    };
    match from_input {
        Some(c) => Some(c),
        None => trim_non_empty(inp.command),
    }
}

fn file_path_from_request(inp: &ApprovalPreviewInput, input: &Option<String>) -> (r: Option<String>)
    requires
        opt_string_view(*input) == tool_input_object(opt_str_view(inp.tool_input)),
    ensures
        opt_string_view(r) == request_file_path(inp.input_view()),
{
    match input_str_at(input, "/path") {
        Some(p) => Some(p),
        None => match input_str_at(input, "/file_path") {
            Some(p) => Some(p),
            None => trim_non_empty(inp.file_path),
        },
    }
}

fn diff_from_request(
    inp: &ApprovalPreviewInput,
    input: &Option<String>,
    file_path: &Option<String>,
) -> (r: Option<String>)
    requires
        opt_string_view(*input) == tool_input_object(opt_str_view(inp.tool_input)),
        opt_string_view(*file_path) == request_file_path(inp.input_view()),
    ensures
        opt_string_view(r) == request_diff(inp.input_view()),
{
    match trim_non_empty(inp.diff) {
        Some(d) => Some(d),
        None => match input {
            Some(x) => diff_preview_from_patch_input(
                x.as_str(),
                match file_path {
                    Some(f) => Some(f.as_str()),
                    None => None,
                },
            ),
            None => None,
        },
    }
}

fn fallback_action_text(approval_type: ApprovalType, tool_name: Option<&str>) -> (r: String)
    ensures
        r@ == fallback_action(approval_type, opt_str_view(tool_name)),
{
    let name = trim_non_empty(tool_name);
    match approval_type {
        ApprovalType::Question => match name {
            Some(t) => t,
            None => "Question".to_string(),
        },
        ApprovalType::Permissions => match name {
            Some(t) => t,
            None => "Review requested permissions".to_string(),
        },
        _ => match name {
            Some(t) => concat3("Approve ", t.as_str(), " action"),
            None => "Approve action".to_string(),
        },
    }
}

/// The preview of an approval request; see `preview_of` for what it shows.
pub fn approval_preview(input: ApprovalPreviewInput) -> (r: Option<ApprovalPreview>)
    ensures
        r is Some,
        r->0.preview_view() == preview_of(input.input_view()),
{
    build_approval_preview(input)
}

/// What a preview reads from a request's tool input and tool name.
#[derive(Debug)]
pub struct PreviewFields {
    pub tool: String,
    pub command: Option<String>,
    pub file_path: Option<String>,
    pub url: Option<String>,
    pub query: Option<String>,
    pub pattern: Option<String>,
    pub prompt: Option<String>,
    pub fallback_value: Option<String>,
    pub diff: Option<String>,
}

impl View for PreviewFields {
    type V = PreviewFieldsView;

    open spec fn view(&self) -> PreviewFieldsView {
        PreviewFieldsView {
            tool: self.tool@,
            command: opt_string_view(self.command),
            file_path: opt_string_view(self.file_path),
            url: opt_string_view(self.url),
            query: opt_string_view(self.query),
            pattern: opt_string_view(self.pattern),
            prompt: opt_string_view(self.prompt),
            fallback_value: opt_string_view(self.fallback_value),
            diff: opt_string_view(self.diff),
        }
    }
}

/// Reads from a request what its preview needs: the tool input parsed as
/// JSON, and the tool name lower-cased.
pub fn read_preview_fields(inp: &ApprovalPreviewInput) -> (r: PreviewFields)
    ensures
        r@ == preview_fields(inp.input_view()),
{
    let input = parse_tool_input_object(inp.tool_input);
    let tool = match trim_non_empty(inp.tool_name) {
        Some(name) => to_lowercase(name.as_str()),
        None => String::new(),
    };
    let command = command_from_request(inp, &input);
    let file_path = file_path_from_request(inp, &input);
    let url = input_str_at(&input, "/url");
    let query = input_str_at(&input, "/query");
    let pattern = input_str_at(&input, "/pattern");
    let prompt = input_str_at(&input, "/prompt");
    let fallback_value = match &input {
        Some(x) => first_string_value_from_json_object(x.as_str()),
        None => None,
    };
    let diff = diff_from_request(inp, &input, &file_path);
    PreviewFields { tool, command, file_path, url, query, pattern, prompt, fallback_value, diff }
}

/// The preview of a request, given what was read from it; see
/// `preview_from` for what it shows.
pub fn preview_from_fields(inp: &ApprovalPreviewInput, fields: PreviewFields) -> (r: ApprovalPreview)
    ensures
        r.preview_view() == preview_from(inp.input_view(), fields@),
{
    let ghost spec_inp = inp.input_view();
    let ghost f = fields@;
    let PreviewFields { tool, command, file_path, url, query, pattern, prompt, fallback_value, diff } =
        fields;
    let risk = assess_approval_risk(
        inp.approval_type,
        match &command {
            Some(c) => Some(c.as_str()),
            None => None,
        },
    );
    let question = match trim_non_empty(inp.question) {
        Some(q) => Some(q),
        None => match inp.permission_reason {
            Some(reason) => Some(reason.to_string()),
            None => None,
        },
    };
    let is_patch = inp.approval_type == ApprovalType::Patch;
    let asks = inp.approval_type == ApprovalType::Question || inp.approval_type
        == ApprovalType::Permissions;
    let (preview_type, value, segments) = if is_patch && diff.is_some() {
        let d = diff.unwrap();
        (ApprovalPreviewType::Diff, normalize_diff_preview(d.as_str()), Vec::new())
    } else if command.is_some() {
        let c = command.unwrap();
        let segments = shell_segments_for_preview(c.as_str());
        (ApprovalPreviewType::ShellCommand, c, segments)
    } else if url.is_some() {
        (ApprovalPreviewType::Url, url.unwrap(), Vec::new())
    } else if query.is_some() {
        (ApprovalPreviewType::SearchQuery, query.unwrap(), Vec::new())
    } else if pattern.is_some() {
        (ApprovalPreviewType::Pattern, pattern.unwrap(), Vec::new())
    } else if prompt.is_some() {
        (ApprovalPreviewType::Prompt, prompt.unwrap(), Vec::new())
    } else if asks && question.is_some() {
        (ApprovalPreviewType::Prompt, question.unwrap(), Vec::new())
    } else if file_path.is_some() {
        (ApprovalPreviewType::FilePath, file_path.unwrap(), Vec::new())
    } else if fallback_value.is_some() {
        (ApprovalPreviewType::Value, fallback_value.unwrap(), Vec::new())
    } else {
        (
            ApprovalPreviewType::Action,
            fallback_action_text(inp.approval_type, inp.tool_name),
            Vec::new(),
        )
    };
    proof {
        assert(segments_view(Seq::<ApprovalPreviewSegment>::empty()) =~= Seq::empty());
        assert((preview_type, value@, segments_view(segments@)) == choice_from(spec_inp, f));
    }
    compose_approval_preview(inp, tool.as_str(), &risk, preview_type, value, segments)
}

/// The preview of an approval request; see `preview_of` for what it shows.
pub fn build_approval_preview(input_data: ApprovalPreviewInput) -> (r: Option<ApprovalPreview>)
    ensures
        r is Some,
        r->0.preview_view() == preview_of(input_data.input_view()),
{
    let fields = read_preview_fields(&input_data);
    Some(preview_from_fields(&input_data, fields))
}

} // verus!
