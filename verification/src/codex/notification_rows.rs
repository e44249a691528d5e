//! The rows and texts of the app server's notifications that are not thread
//! items: hook runs that went wrong, the plan of a turn, automatic reviews
//! and the status of MCP servers.

use crate::codex::format::duration_millis;
use crate::codex::items::{
    guardian_review_status, guardian_review_status_label, review_label, review_status,
    GuardianApprovalReviewStatus,
};
use crate::codex::item_rows::stamp_if;
use crate::codex::timeline::{HookEventName, HookRunStatus};
use crate::json::{
    json_array, json_array_text, json_object, json_object_text, json_opt_str, json_opt_string,
    json_quote, members_view, spec_json_quote,
};
use crate::text::{
    concat3, concat_str, copy_opt_string, copy_string, decimal, decimal_string, join, join_strings,
    opt_str_view, opt_string_view, spec_to_lowercase, strs_view, to_lowercase, trim,
    trim_non_empty, trimmed_non_empty,
};
use crate::transition::model::{Provider, ToolFamily, ToolKind, ToolRow, ToolRowView, ToolStatus};
use vstd::prelude::*;

verus! {

// ---------------------------------------------------------------------------
// Hook runs
// ---------------------------------------------------------------------------

/// A text a hook printed, with the name of its kind.
#[derive(Debug, Clone)]
pub struct HookOutputEntry {
    pub kind: String,
    pub text: String,
}

/// One run of a hook as the app server reports it. The handler type and
/// the source are their names; the source path is as displayed.
#[derive(Debug, Clone)]
pub struct AppServerHookRun {
    pub id: String,
    pub event_name: HookEventName,
    pub handler_type: String,
    pub status: HookRunStatus,
    pub status_message: Option<String>,
    pub source_path: String,
    pub source: String,
    pub duration_ms: Option<i64>,
    pub entries: Vec<HookOutputEntry>,
}

/// The name of a hook's event.
pub open spec fn event_name_text(e: HookEventName) -> Seq<char> {
    match e {
        HookEventName::PreToolUse => "PreToolUse"@,
        HookEventName::PermissionRequest => "PermissionRequest"@,
        HookEventName::PostToolUse => "PostToolUse"@,
        HookEventName::SessionStart => "SessionStart"@,
        HookEventName::UserPromptSubmit => "UserPromptSubmit"@,
        HookEventName::Stop => "Stop"@,
    }
}

pub(crate) fn event_name_str(e: HookEventName) -> (r: &'static str)
    ensures
        r@ == event_name_text(e),
{
    match e {
        HookEventName::PreToolUse => "PreToolUse",
        HookEventName::PermissionRequest => "PermissionRequest",
        HookEventName::PostToolUse => "PostToolUse",
        HookEventName::SessionStart => "SessionStart",
        HookEventName::UserPromptSubmit => "UserPromptSubmit",
        HookEventName::Stop => "Stop",
    }
}

/// The name of a hook run's status.
pub open spec fn run_status_text(s: HookRunStatus) -> Seq<char> {
    match s {
        HookRunStatus::Running => "Running"@,
        HookRunStatus::Completed => "Completed"@,
        HookRunStatus::Failed => "Failed"@,
        HookRunStatus::Blocked => "Blocked"@,
        HookRunStatus::Stopped => "Stopped"@,
    }
}

pub(crate) fn run_status_str(s: HookRunStatus) -> (r: &'static str)
    ensures
        r@ == run_status_text(s),
{
    match s {
        HookRunStatus::Running => "Running",
        HookRunStatus::Completed => "Completed",
        HookRunStatus::Failed => "Failed",
        HookRunStatus::Blocked => "Blocked",
        HookRunStatus::Stopped => "Stopped",
    }
}

/// The title of a hook run: what became of it, and its event.
pub open spec fn hook_title(run: AppServerHookRun) -> Seq<char> {
    let head = match run.status {
        HookRunStatus::Running => "Hook running: "@,
        HookRunStatus::Failed => "Hook failed: "@,
        HookRunStatus::Blocked => "Hook blocked: "@,
        HookRunStatus::Stopped => "Hook stopped: "@,
        HookRunStatus::Completed => "Hook completed: "@,
    };
    head + event_name_text(run.event_name)
}

fn hook_title_text(run: &AppServerHookRun) -> (r: String)
    ensures
        r@ == hook_title(*run),
{
    let head = match run.status {
        HookRunStatus::Running => "Hook running: ",
        HookRunStatus::Failed => "Hook failed: ",
        HookRunStatus::Blocked => "Hook blocked: ",
        HookRunStatus::Stopped => "Hook stopped: ",
        HookRunStatus::Completed => "Hook completed: ",
    };
    concat_str(head, event_name_str(run.event_name))
}

/// Whether a hook run went wrong: it failed, was blocked or was stopped.
pub open spec fn run_went_wrong(status: HookRunStatus) -> bool {
    status == HookRunStatus::Failed || status == HookRunStatus::Blocked || status
        == HookRunStatus::Stopped
}

/// The trimmed texts of the entries that are not blank, in order.
pub open spec fn run_entry_texts(entries: Seq<HookOutputEntry>) -> Seq<Seq<char>>
    decreases entries.len(),
{
    if entries.len() == 0 {
        Seq::empty()
    } else {
        let prev = run_entry_texts(entries.drop_last());
        match trimmed_non_empty(Some(entries.last().text@)) {
            Some(t) => prev.push(t),
            None => prev,
        }
    }
}

/// What a hook run printed, one part per line: its trimmed message first,
/// then its entries; `None` when there is nothing.
pub open spec fn run_output(run: AppServerHookRun) -> Option<Seq<char>> {
    let parts = run_entry_texts(run.entries@);
    let all = match trimmed_non_empty(opt_string_view(run.status_message)) {
        Some(m) => seq![m] + parts,
        None => parts,
    };
    if all.len() > 0 {
        Some(join(all, "\n"@))
    } else {
        None
    }
}

fn run_output_text(run: &AppServerHookRun) -> (r: Option<String>)
    ensures
        opt_string_view(r) == run_output(*run),
{
    let mut parts: Vec<String> = Vec::new();
    let mut i: usize = 0;
    while i < run.entries.len()
        invariant
            i <= run.entries.len(),
            strs_view(parts@) == run_entry_texts(run.entries@.take(i as int)),
        decreases run.entries.len() - i,
    {
        assert(run.entries@.take(i + 1).drop_last() =~= run.entries@.take(i as int));
        assert(run.entries@.take(i + 1).last() == run.entries@[i as int]);
        match trim_non_empty(Some(run.entries[i].text.as_str())) {
            Some(t) => {
                let ghost before = strs_view(parts@);
                parts.push(t);
                assert(strs_view(parts@) =~= before.push(t@));
            },
            None => {},
        }
        i = i + 1;
    }
    assert(run.entries@.take(run.entries.len() as int) =~= run.entries@);
    let message = match &run.status_message {
        Some(m) => trim_non_empty(Some(m.as_str())),
        None => trim_non_empty(None),
    };
    if let Some(m) = message {
        let ghost before = strs_view(parts@);
        parts.insert(0, m);
        assert(strs_view(parts@) =~= seq![m@] + before);
    }
    if parts.len() == 0 {
        None
    } else {
        Some(join_strings(parts.as_slice(), "\n"))
    }
}

/// A count of milliseconds that may be missing, as JSON.
pub open spec fn json_opt_count(n: Option<u64>) -> Seq<char> {
    match n {
        Some(v) => decimal(v as nat),
        None => "null"@,
    }
}

/// One printed text of a hook as JSON: its kind, no label, its text.
pub open spec fn entry_json(e: HookOutputEntry) -> Seq<char> {
    json_object(
        seq![
            ("kind"@, spec_json_quote(e.kind@)),
            ("label"@, "null"@),
            ("value"@, spec_json_quote(e.text@)),
        ],
    )
}

/// The hook row of a run as JSON text: its id, title, event as subtitle,
/// output as summary, and what is known of the run in the given phase.
pub open spec fn hook_row_json(run: AppServerHookRun, phase: Seq<char>) -> Seq<char> {
    let output = run_output(run);
    let event = event_name_text(run.event_name);
    json_object(
        seq![
            ("id"@, spec_json_quote("hook-"@ + run.id@)),
            ("title"@, spec_json_quote(hook_title(run))),
            ("subtitle"@, spec_json_quote(event)),
            ("summary"@, json_opt_str(output)),
            (
                "payload"@,
                json_object(
                    seq![
                        ("hook_name"@, spec_json_quote(run.handler_type@)),
                        ("event_name"@, spec_json_quote(event)),
                        ("phase"@, spec_json_quote(phase)),
                        ("status"@, spec_json_quote(run_status_text(run.status))),
                        ("source_path"@, spec_json_quote(run.source_path@)),
                        ("source"@, spec_json_quote(run.source@)),
                        ("summary"@, json_opt_str(output)),
                        ("output"@, json_opt_str(output)),
                        ("duration_ms"@, json_opt_count(duration_millis_of(run.duration_ms))),
                        ("entries"@, json_array(run.entries@.map_values(|e: HookOutputEntry| entry_json(e)))),
                    ],
                ),
            ),
        ],
    )
}

/// A duration in milliseconds, when it is not negative.
pub open spec fn duration_millis_of(value: Option<i64>) -> Option<u64> {
    match value {
        Some(v) => if v >= 0 {
            Some(v as u64)
        } else {
            None
        },
        None => None,
    }
}

fn entry_json_text(e: &HookOutputEntry) -> (r: String)
    ensures
        r@ == entry_json(*e),
{
    let ghost expected = seq![
        ("kind"@, spec_json_quote(e.kind@)),
        ("label"@, "null"@),
        ("value"@, spec_json_quote(e.text@)),
    ];
    let members = vec![
        ("kind".to_string(), json_quote(e.kind.as_str())),
        ("label".to_string(), "null".to_string()),
        ("value".to_string(), json_quote(e.text.as_str())),
    ];
    assert(members_view(members@) == expected);
    json_object_text(members.as_slice())
}

fn opt_count_text(n: Option<u64>) -> (r: String)
    ensures
        r@ == json_opt_count(n),
{
    match n {
        Some(v) => decimal_string(v),
        None => "null".to_string(),
    }
}

fn hook_payload_text(run: &AppServerHookRun, phase: &str, output: &Option<String>) -> (r: String)
    requires
        opt_string_view(*output) == run_output(*run),
    ensures
        r@ == json_object(
            seq![
                ("hook_name"@, spec_json_quote(run.handler_type@)),
                ("event_name"@, spec_json_quote(event_name_text(run.event_name))),
                ("phase"@, spec_json_quote(phase@)),
                ("status"@, spec_json_quote(run_status_text(run.status))),
                ("source_path"@, spec_json_quote(run.source_path@)),
                ("source"@, spec_json_quote(run.source@)),
                ("summary"@, json_opt_str(run_output(*run))),
                ("output"@, json_opt_str(run_output(*run))),
                ("duration_ms"@, json_opt_count(duration_millis_of(run.duration_ms))),
                ("entries"@, json_array(run.entries@.map_values(|e: HookOutputEntry| entry_json(e)))),
            ],
        ),
{
    let mut items: Vec<String> = Vec::new();
    let mut i: usize = 0;
    while i < run.entries.len()
        invariant
            i <= run.entries.len(),
            strs_view(items@) == run.entries@.take(i as int).map_values(|e: HookOutputEntry| entry_json(e)),
        decreases run.entries.len() - i,
    {
        let t = entry_json_text(&run.entries[i]);
        let ghost before = strs_view(items@);
        items.push(t);
        assert(strs_view(items@) =~= before.push(entry_json(run.entries@[i as int])));
        assert(run.entries@.take(i + 1).map_values(|e: HookOutputEntry| entry_json(e))
            =~= run.entries@.take(i as int).map_values(|e: HookOutputEntry| entry_json(e)).push(
            entry_json(run.entries@[i as int]),
        ));
        i = i + 1;
    }
    assert(run.entries@.take(run.entries.len() as int) =~= run.entries@);
    let entries = json_array_text(items.as_slice());
    let out = match output {
        Some(o) => json_opt_string(Some(o.as_str())),
        None => json_opt_string(None),
    };
    let event = event_name_str(run.event_name);
    let ghost expected = seq![
        ("hook_name"@, spec_json_quote(run.handler_type@)),
        ("event_name"@, spec_json_quote(event_name_text(run.event_name))),
        ("phase"@, spec_json_quote(phase@)),
        ("status"@, spec_json_quote(run_status_text(run.status))),
        ("source_path"@, spec_json_quote(run.source_path@)),
        ("source"@, spec_json_quote(run.source@)),
        ("summary"@, json_opt_str(run_output(*run))),
        ("output"@, json_opt_str(run_output(*run))),
        ("duration_ms"@, json_opt_count(duration_millis_of(run.duration_ms))),
        ("entries"@, json_array(run.entries@.map_values(|e: HookOutputEntry| entry_json(e)))),
    ];
    let members = vec![
        ("hook_name".to_string(), json_quote(run.handler_type.as_str())),
        ("event_name".to_string(), json_quote(event)),
        ("phase".to_string(), json_quote(phase)),
        ("status".to_string(), json_quote(run_status_str(run.status))),
        ("source_path".to_string(), json_quote(run.source_path.as_str())),
        ("source".to_string(), json_quote(run.source.as_str())),
        ("summary".to_string(), copy_string(&out)),
        ("output".to_string(), out),
        ("duration_ms".to_string(), opt_count_text(duration_millis(run.duration_ms))),
        ("entries".to_string(), entries),
    ];
    assert(members_view(members@) == expected);
    json_object_text(members.as_slice())
}

/// The hook row of a run, as JSON text, in the given phase.
pub fn hook_row_text(run: &AppServerHookRun, phase: &str) -> (r: String)
    ensures
        r@ == hook_row_json(*run, phase@),
{
    let output = run_output_text(run);
    let payload = hook_payload_text(run, phase, &output);
    let out = match &output {
        Some(o) => json_opt_string(Some(o.as_str())),
        None => json_opt_string(None),
    };
    let event = event_name_str(run.event_name);
    let id = concat_str("hook-", run.id.as_str());
    let title = hook_title_text(run);
    let ghost expected = seq![
        ("id"@, spec_json_quote("hook-"@ + run.id@)),
        ("title"@, spec_json_quote(hook_title(*run))),
        ("subtitle"@, spec_json_quote(event_name_text(run.event_name))),
        ("summary"@, json_opt_str(run_output(*run))),
        ("payload"@, payload@),
    ];
    let members = vec![
        ("id".to_string(), json_quote(id.as_str())),
        ("title".to_string(), json_quote(title.as_str())),
        ("subtitle".to_string(), json_quote(event)),
        ("summary".to_string(), out),
        ("payload".to_string(), payload),
    ];
    assert(members_view(members@) == expected);
    json_object_text(members.as_slice())
}

// ---------------------------------------------------------------------------
// The plan of a turn
// ---------------------------------------------------------------------------

/// Where a step of a turn's plan stands.
#[derive(Debug, Clone, Copy, PartialEq, Eq, Structural)]
pub enum TurnPlanStepStatus {
    Pending,
    InProgress,
    Completed,
}

/// One step of a turn's plan.
#[derive(Debug, Clone)]
pub struct TurnPlanStep {
    pub step: String,
    pub status: TurnPlanStepStatus,
}

/// The line of a step: checked when it is done.
pub open spec fn step_line(s: TurnPlanStep) -> Seq<char> {
    "- ["@ + (if s.status == TurnPlanStepStatus::Completed {
        "x"@
    } else {
        " "@
    }) + "] "@ + s.step@ + "\n"@
}

/// The lines of the steps, in order.
pub open spec fn steps_text(steps: Seq<TurnPlanStep>) -> Seq<char>
    decreases steps.len(),
{
    if steps.len() == 0 {
        Seq::empty()
    } else {
        steps_text(steps.drop_last()) + step_line(steps.last())
    }
}

/// The text of a turn's plan: its explanation and a blank line when the
/// explanation is not blank, then a checklist line per step.
pub open spec fn plan_text(explanation: Option<Seq<char>>, steps: Seq<TurnPlanStep>) -> Seq<char> {
    let head = match explanation {
        Some(e) => if trim(e).len() > 0 {
            e + "\n\n"@
        } else {
            Seq::empty()
        },
        None => Seq::empty(),
    };
    head + steps_text(steps)
}

/// The text of a turn's plan.
pub fn turn_plan_text(explanation: Option<String>, plan: &Vec<TurnPlanStep>) -> (r: String)
    ensures
        r@ == plan_text(opt_string_view(explanation), plan@),
{
    let mut text = match explanation {
        Some(e) => if crate::text::trim_str(e.as_str()).as_str().unicode_len() > 0 {
            concat_str(e.as_str(), "\n\n")
        } else {
            String::new()
        },
        None => String::new(),
    };
    let ghost head = text@;
    let mut i: usize = 0;
    while i < plan.len()
        invariant
            i <= plan.len(),
            text@ == head + steps_text(plan@.take(i as int)),
        decreases plan.len() - i,
    {
        assert(plan@.take(i + 1).drop_last() =~= plan@.take(i as int));
        assert(plan@.take(i + 1).last() == plan@[i as int]);
        let mark = if plan[i].status == TurnPlanStepStatus::Completed {
            "x"
        } else {
            " "
        };
        let a = concat3("- [", mark, "] ");
        let line = concat3(a.as_str(), plan[i].step.as_str(), "\n");
        text = concat_str(text.as_str(), line.as_str());
        proof {
            assert(text@ =~= head + steps_text(plan@.take(i + 1)));
        }
        i = i + 1;
    }
    assert(plan@.take(plan.len() as int) =~= plan@);
    text
}

// ---------------------------------------------------------------------------
// Automatic reviews
// ---------------------------------------------------------------------------

/// What an automatic review found: its status, the name of the risk it
/// saw, and why.
#[derive(Debug, Clone)]
pub struct GuardianApprovalReview {
    pub status: GuardianApprovalReviewStatus,
    pub risk_level: Option<String>,
    pub rationale: Option<String>,
}

/// The risk level of a review, in lower case.
pub open spec fn risk_text(review: GuardianApprovalReview) -> Option<Seq<char>> {
    match review.risk_level {
        Some(l) => Some(spec_to_lowercase(l@)),
        None => None,
    }
}

/// What a review found, as JSON text: the action reviewed, the risk level,
/// no risk score, the rationale and the status label.
pub open spec fn assessment_json(review: GuardianApprovalReview, action: Seq<char>) -> Seq<char> {
    json_object(
        seq![
            ("action"@, action),
            ("risk_level"@, json_opt_str(risk_text(review))),
            ("risk_score"@, "null"@),
            ("rationale"@, json_opt_str(opt_string_view(review.rationale))),
            ("status_label"@, spec_json_quote(review_label(review.status))),
        ],
    )
}

/// The tool row of an automatic review of an action (JSON text) for the
/// item with the given id: running while it starts, then as the review
/// ended; its subtitle is the risk level, its summary the rationale or the
/// status label.
pub open spec fn guardian_row(
    review_id: Seq<char>,
    target_item_id: Option<Seq<char>>,
    review: GuardianApprovalReview,
    action: Seq<char>,
    started: bool,
    now: Seq<char>,
) -> ToolRowView {
    let status = review_status(review.status, started);
    let label = review_label(review.status);
    ToolRowView {
        id: "guardian-"@ + review_id,
        provider: Provider::Codex,
        family: ToolFamily::Approval,
        kind: ToolKind::GuardianAssessment,
        status,
        title: "Auto-review"@,
        subtitle: match risk_text(review) {
            Some(l) => Some(l + " risk"@),
            None => None,
        },
        summary: match review.rationale {
            Some(r) => Some(r@),
            None => Some(label),
        },
        started_at: stamp_if(started, now),
        ended_at: stamp_if(status != ToolStatus::Running, now),
        duration_ms: None,
        invocation: json_object(
            seq![("action"@, action), ("target_item_id"@, json_opt_str(target_item_id))],
        ),
        result: Some(
            json_object(
                seq![
                    ("output"@, spec_json_quote(assessment_json(review, action))),
                    ("action"@, action),
                    ("risk_level"@, json_opt_str(risk_text(review))),
                    ("rationale"@, json_opt_str(opt_string_view(review.rationale))),
                    ("status_label"@, spec_json_quote(label)),
                ],
            ),
        ),
    }
}

fn opt_text_json(o: &Option<String>) -> (r: String)
    ensures
        r@ == json_opt_str(opt_string_view(*o)),
{
    match o {
        Some(s) => json_opt_string(Some(s.as_str())),
        None => json_opt_string(None),
    }
}

/// The tool row of an automatic review; `action` is the action reviewed,
/// as JSON text.
pub fn guardian_review_tool_row(
    review_id: String,
    target_item_id: Option<String>,
    review: GuardianApprovalReview,
    action: String,
    started: bool,
    now: &str,
) -> (r: ToolRow)
    ensures
        r@ == guardian_row(review_id@, opt_string_view(target_item_id), review, action@, started, now@),
{
    let status = guardian_review_status(review.status, started);
    let label = guardian_review_status_label(review.status);
    let risk = match &review.risk_level {
        Some(l) => Some(to_lowercase(l.as_str())),
        None => None,
    };
    let risk_json = opt_text_json(&risk);
    let rationale_json = opt_text_json(&review.rationale);
    let ghost assessment = seq![
        ("action"@, action@),
        ("risk_level"@, json_opt_str(risk_text(review))),
        ("risk_score"@, "null"@),
        ("rationale"@, json_opt_str(opt_string_view(review.rationale))),
        ("status_label"@, spec_json_quote(review_label(review.status))),
    ];
    let assessment_members = vec![
        ("action".to_string(), copy_string(&action)),
        ("risk_level".to_string(), copy_string(&risk_json)),
        ("risk_score".to_string(), "null".to_string()),
        ("rationale".to_string(), copy_string(&rationale_json)),
        ("status_label".to_string(), json_quote(label)),
    ];
    assert(members_view(assessment_members@) == assessment);
    let payload = json_object_text(assessment_members.as_slice());
    let ghost result_seq = seq![
        ("output"@, spec_json_quote(assessment_json(review, action@))),
        ("action"@, action@),
        ("risk_level"@, json_opt_str(risk_text(review))),
        ("rationale"@, json_opt_str(opt_string_view(review.rationale))),
        ("status_label"@, spec_json_quote(review_label(review.status))),
    ];
    let result_members = vec![
        ("output".to_string(), json_quote(payload.as_str())),
        ("action".to_string(), copy_string(&action)),
        ("risk_level".to_string(), risk_json),
        ("rationale".to_string(), rationale_json),
        ("status_label".to_string(), json_quote(label)),
    ];
    assert(members_view(result_members@) == result_seq);
    let result = json_object_text(result_members.as_slice());
    let target_json = opt_text_json(&target_item_id);
    let ghost invocation_seq = seq![("action"@, action@), ("target_item_id"@, json_opt_str(opt_string_view(target_item_id)))];
    let invocation_members = vec![("action".to_string(), action), ("target_item_id".to_string(), target_json)];
    assert(members_view(invocation_members@) == invocation_seq);
    let invocation = json_object_text(invocation_members.as_slice());
    let subtitle = match &risk {
        Some(l) => Some(concat_str(l.as_str(), " risk")),
        None => None,
    };
    let summary = match review.rationale {
        Some(r) => Some(r),
        None => Some(label.to_string()),
    };
    let running = status == ToolStatus::Running;
    ToolRow {
        id: concat_str("guardian-", review_id.as_str()),
        provider: Provider::Codex,
        family: ToolFamily::Approval,
        kind: ToolKind::GuardianAssessment,
        status,
        title: "Auto-review".to_string(),
        subtitle,
        summary,
        started_at: if started {
            Some(now.to_string())
        } else {
            None
        },
        ended_at: if !running {
            Some(now.to_string())
        } else {
            None
        },
        duration_ms: None,
        invocation,
        result: Some(result),
    }
}

// ---------------------------------------------------------------------------
// MCP servers
// ---------------------------------------------------------------------------

/// Where the start of an MCP server stands.
#[derive(Debug, Clone, Copy, PartialEq, Eq, Structural)]
pub enum McpServerStartupState {
    Starting,
    Ready,
    Failed,
    Cancelled,
}

/// The status of an MCP server's start as JSON text: the state's name, or
/// for a failure an object with the error (the server's message, else "MCP
/// server failed").
pub open spec fn startup_status_json(state: McpServerStartupState, error: Option<Seq<char>>) -> Seq<char> {
    match state {
        McpServerStartupState::Starting => spec_json_quote("starting"@),
        McpServerStartupState::Ready => spec_json_quote("ready"@),
        McpServerStartupState::Cancelled => spec_json_quote("cancelled"@),
        McpServerStartupState::Failed => json_object(
            seq![
                (
                    "failed"@,
                    json_object(
                        seq![
                            (
                                "error"@,
                                spec_json_quote(
                                    match error {
                                        Some(e) => e,
                                        None => "MCP server failed"@,
                                    },
                                ),
                            ),
                        ],
                    ),
                ),
            ],
        ),
    }
}

/// The status of an MCP server's start, as JSON text.
pub fn startup_status_text(state: McpServerStartupState, error: Option<String>) -> (r: String)
    ensures
        r@ == startup_status_json(state, opt_string_view(error)),
{
    match state {
        McpServerStartupState::Starting => json_quote("starting"),
        McpServerStartupState::Ready => json_quote("ready"),
        McpServerStartupState::Cancelled => json_quote("cancelled"),
        McpServerStartupState::Failed => {
            let message = match error {
                Some(e) => e,
                None => "MCP server failed".to_string(),
            };
            let ghost inner_seq = seq![("error"@, spec_json_quote(message@))];
            let inner_members = vec![("error".to_string(), json_quote(message.as_str()))];
            assert(members_view(inner_members@) == inner_seq);
            let inner = json_object_text(inner_members.as_slice());
            let ghost outer_seq = seq![("failed"@, inner@)];
            let outer_members = vec![("failed".to_string(), inner)];
            assert(members_view(outer_members@) == outer_seq);
            json_object_text(outer_members.as_slice())
        },
    }
}

} // verus!
