//! Rows for the runtime's other signals: automatic reviews, plan updates,
//! realtime conversations and hook runs that went wrong.

use crate::codex::items::{review_label, review_status, guardian_review_status, guardian_review_status_label, GuardianApprovalReviewStatus};
use crate::codex::item_rows::stamp_if;
use crate::codex::notification_rows::{
    event_name_text, run_status_text, json_opt_count, entry_json, duration_millis_of, HookOutputEntry,
};
use crate::codex::signals::{adds_row, bare_entry, bumped, next_seq, numbered_id, numbered_row_id, replaces_row, row_created_output, row_entry, row_updated_output, state_output, stamped_message};
use crate::codex::timeline::{
    completed_text, handoff_text, hook_completed_text, hook_output_text, hook_run_is_error, hook_started_text,
    output_text, realtime_text_from_handoff_request, started_text, HookEventName, HookRunStatus,
    HookRunSummary, RealtimeHandoffRequested,
};
use crate::codex::format::duration_millis;
use crate::json::{json_array, json_array_text, json_object, json_object_text, json_opt_str, json_opt_string, json_quote, members_view, spec_json_quote};
use crate::text::{concat3, concat_str, copy_opt_string, copy_string, decimal, decimal_string, opt_string_view, strs_view, trim, trim_str, trimmed_non_empty};
use crate::transition::connector::{ConnectorOutput, ConnectorStateEvent};
use crate::transition::model::{ConversationRow, MessageRow, MessageRowView, OpaqueRow, Provider, RowView, ToolFamily, ToolKind, ToolRow, ToolRowView, ToolStatus};
use vstd::prelude::*;

verus! {

// ---------------------------------------------------------------------------
// Automatic reviews
// ---------------------------------------------------------------------------

/// How risky an automatic review found an action.
#[derive(Debug, Clone, Copy, PartialEq, Eq, Structural)]
pub enum GuardianRiskLevel {
    Low,
    Medium,
    High,
    Critical,
}

/// The name of a risk level.
pub open spec fn risk_name(r: GuardianRiskLevel) -> Seq<char> {
    match r {
        GuardianRiskLevel::Low => "low"@,
        GuardianRiskLevel::Medium => "medium"@,
        GuardianRiskLevel::High => "high"@,
        GuardianRiskLevel::Critical => "critical"@,
    }
}

fn risk_str(r: GuardianRiskLevel) -> (s: &'static str)
    ensures
        s@ == risk_name(r),
{
    match r {
        GuardianRiskLevel::Low => "low",
        GuardianRiskLevel::Medium => "medium",
        GuardianRiskLevel::High => "high",
        GuardianRiskLevel::Critical => "critical",
    }
}

/// An automatic review of the runtime: its status, risk, rationale, and
/// the action reviewed as JSON text when it could be written.
#[derive(Debug, Clone)]
pub struct GuardianAssessmentEvent {
    pub id: String,
    pub status: GuardianApprovalReviewStatus,
    pub risk_level: Option<GuardianRiskLevel>,
    pub rationale: Option<String>,
    pub action: Option<String>,
}

/// What a review found, as JSON text.
pub open spec fn assessment_payload(e: GuardianAssessmentEvent) -> Seq<char> {
    json_object(
        seq![
            (
                "action"@,
                match e.action {
                    Some(a) => a@,
                    None => "null"@,
                },
            ),
            (
                "risk_level"@,
                json_opt_str(
                    match e.risk_level {
                        Some(r) => Some(risk_name(r)),
                        None => None,
                    },
                ),
            ),
            ("risk_score"@, "null"@),
            ("rationale"@, json_opt_str(opt_string_view(e.rationale))),
            ("status_label"@, spec_json_quote(review_label(e.status))),
        ],
    )
}

/// The row of a review: its status, its risk as subtitle and its rationale
/// as summary; what it found is both invocation and result.
pub open spec fn assessment_row(e: GuardianAssessmentEvent, now: Seq<char>) -> ToolRowView {
    let status = review_status(e.status, false);
    ToolRowView {
        id: "guardian-"@ + e.id@,
        provider: Provider::Codex,
        family: ToolFamily::Approval,
        kind: ToolKind::GuardianAssessment,
        status,
        title: "Auto-review"@,
        subtitle: match e.risk_level {
            Some(r) => Some(risk_name(r) + " risk"@),
            None => None,
        },
        summary: opt_string_view(e.rationale),
        started_at: None,
        ended_at: stamp_if(status != ToolStatus::Running, now),
        duration_ms: None,
        invocation: assessment_payload(e),
        result: Some(assessment_payload(e)),
    }
}

/// A review of the runtime: a new row while it is under way, else the
/// update of its row.
pub fn handle_guardian_assessment(event: GuardianAssessmentEvent, now: &str) -> (r: Vec<ConnectorOutput>)
    ensures
        r@.len() == 1,
        event.status == GuardianApprovalReviewStatus::InProgress ==> adds_row(
            r@[0],
            bare_entry(RowView::Tool(assessment_row(event, now@))),
        ),
        event.status != GuardianApprovalReviewStatus::InProgress ==> replaces_row(
            r@[0],
            "guardian-"@ + event.id@,
            bare_entry(RowView::Tool(assessment_row(event, now@))),
        ),
{
    let ghost e = event;
    let status = guardian_review_status(event.status, false);
    let label = guardian_review_status_label(event.status);
    let risk = match event.risk_level {
        Some(r) => Some(risk_str(r)),
        None => None,
    };
    let risk_json = match risk {
        Some(r) => json_opt_string(Some(r)),
        None => json_opt_string(None),
    };
    let rationale_json = match &event.rationale {
        Some(t) => json_opt_string(Some(t.as_str())),
        None => json_opt_string(None),
    };
    let action = match &event.action {
        Some(a) => copy_string(a),
        None => "null".to_string(),
    };
    let ghost action_v = action@;
    let ghost expected = seq![
        ("action"@, action@),
        ("risk_level"@, risk_json@),
        ("risk_score"@, "null"@),
        ("rationale"@, rationale_json@),
        ("status_label"@, spec_json_quote(review_label(e.status))),
    ];
    let members = vec![
        ("action".to_string(), action),
        ("risk_level".to_string(), risk_json),
        ("risk_score".to_string(), "null".to_string()),
        ("rationale".to_string(), rationale_json),
        ("status_label".to_string(), json_quote(label)),
    ];
    assert(members_view(members@) == expected);
    assert(risk_json@ == json_opt_str(
        match e.risk_level {
            Some(r) => Some(risk_name(r)),
            None => None,
        },
    ));
    assert(rationale_json@ == json_opt_str(opt_string_view(e.rationale)));
    assert(action_v == match e.action {
        Some(a) => a@,
        None => "null"@,
    });
    assert(expected =~= seq![
        (
            "action"@,
            match e.action {
                Some(a) => a@,
                None => "null"@,
            },
        ),
        (
            "risk_level"@,
            json_opt_str(
                match e.risk_level {
                    Some(r) => Some(risk_name(r)),
                    None => None,
                },
            ),
        ),
        ("risk_score"@, "null"@),
        ("rationale"@, json_opt_str(opt_string_view(e.rationale))),
        ("status_label"@, spec_json_quote(review_label(e.status))),
    ]);
    let payload = json_object_text(members.as_slice());
    assert(payload@ == assessment_payload(e));
    let id = concat_str("guardian-", event.id.as_str());
    let row = ToolRow {
        id: copy_string(&id),
        provider: Provider::Codex,
        family: ToolFamily::Approval,
        kind: ToolKind::GuardianAssessment,
        status,
        title: "Auto-review".to_string(),
        subtitle: match risk {
            Some(r) => Some(concat_str(r, " risk")),
            None => None,
        },
        summary: event.rationale,
        started_at: None,
        ended_at: if status != ToolStatus::Running {
            Some(now.to_string())
        } else {
            None
        },
        duration_ms: None,
        invocation: copy_string(&payload),
        result: Some(payload),
    };
    let entry = row_entry(ConversationRow::Tool(row));
    if event.status == GuardianApprovalReviewStatus::InProgress {
        vec![row_created_output(entry)]
    } else {
        vec![row_updated_output(id, entry)]
    }
}

// ---------------------------------------------------------------------------
// Plan updates
// ---------------------------------------------------------------------------

/// The title of a plan update: its trimmed explanation (else "Plan
/// updated") and how many steps it has.
pub open spec fn plan_title(explanation: Option<Seq<char>>, steps: nat) -> Seq<char> {
    let head = match trimmed_non_empty(explanation) {
        Some(e) => e,
        None => "Plan updated"@,
    };
    head + " ("@ + decimal(steps) + " steps)"@
}

/// A step of a plan as the timeline lists it: pending, with its title.
pub open spec fn plan_step_json(step: Seq<char>) -> Seq<char> {
    json_object(
        seq![
            ("id"@, "null"@),
            ("title"@, spec_json_quote(step)),
            ("status"@, spec_json_quote("pending"@)),
            ("detail"@, "null"@),
        ],
    )
}

/// The invocation of a plan update: the plan mode, the explanation as
/// summary and explanation, and the steps.
pub open spec fn plan_invocation(explanation: Option<Seq<char>>, steps: Seq<Seq<char>>) -> Seq<char> {
    json_object(
        seq![
            ("mode"@, spec_json_quote("plan"@)),
            ("summary"@, json_opt_str(explanation)),
            ("steps"@, json_array(steps.map_values(|s: Seq<char>| plan_step_json(s)))),
            ("explanation"@, json_opt_str(explanation)),
        ],
    )
}

fn plan_step_text(step: &str) -> (r: String)
    ensures
        r@ == plan_step_json(step@),
{
    let ghost expected = seq![
        ("id"@, "null"@),
        ("title"@, spec_json_quote(step@)),
        ("status"@, spec_json_quote("pending"@)),
        ("detail"@, "null"@),
    ];
    let members = vec![
        ("id".to_string(), "null".to_string()),
        ("title".to_string(), json_quote(step)),
        ("status".to_string(), json_quote("pending")),
        ("detail".to_string(), "null".to_string()),
    ];
    assert(members_view(members@) == expected);
    json_object_text(members.as_slice())
}

/// The runtime updates its plan: the plan (as JSON text) is reported, and
/// a completed plan row numbered after the event is added, stamped `now`.
pub fn handle_plan_update(
    event_id: &str,
    explanation: Option<String>,
    steps: Vec<String>,
    plan_json: String,
    counter: &mut u64,
    now: &str,
) -> (r: Vec<ConnectorOutput>)
    ensures
        *final(counter) == bumped(*old(counter)),
        r@.len() == 2,
        r@[0] matches ConnectorOutput::State(ConnectorStateEvent::PlanUpdated(p)) && p == plan_json,
        adds_row(
            r@[1],
            bare_entry(
                RowView::Tool(
                    ToolRowView {
                        id: numbered_id("update-plan-"@, event_id@, *old(counter)),
                        provider: Provider::Codex,
                        family: ToolFamily::Plan,
                        kind: ToolKind::UpdatePlan,
                        status: ToolStatus::Completed,
                        title: plan_title(opt_string_view(explanation), steps@.len()),
                        subtitle: None,
                        summary: None,
                        started_at: Some(now@),
                        ended_at: Some(now@),
                        duration_ms: None,
                        invocation: plan_invocation(opt_string_view(explanation), strs_view(steps@)),
                        result: None,
                    },
                ),
            ),
        ),
{
    let seq = next_seq(counter);
    let head = match &explanation {
        Some(e) => {
            let t = trim_str(e.as_str());
            if t.as_str().unicode_len() > 0 {
                t
            } else {
                "Plan updated".to_string()
            }
        },
        None => "Plan updated".to_string(),
    };
    let count = decimal_string(steps.len() as u64);
    let a = concat3(head.as_str(), " (", count.as_str());
    let title = concat_str(a.as_str(), " steps)");
    let mut items: Vec<String> = Vec::new();
    let mut i: usize = 0;
    while i < steps.len()
        invariant
            i <= steps.len(),
            strs_view(items@) == strs_view(steps@).take(i as int).map_values(|s: Seq<char>| plan_step_json(s)),
        decreases steps.len() - i,
    {
        let ghost before = strs_view(items@);
        items.push(plan_step_text(steps[i].as_str()));
        assert(strs_view(items@) =~= before.push(plan_step_json(steps@[i as int]@)));
        assert(strs_view(steps@).take(i + 1).map_values(|s: Seq<char>| plan_step_json(s)) =~= strs_view(
            steps@,
        ).take(i as int).map_values(|s: Seq<char>| plan_step_json(s)).push(plan_step_json(steps@[i as int]@)));
        i = i + 1;
    }
    assert(strs_view(steps@).take(steps.len() as int) =~= strs_view(steps@));
    let steps_json = json_array_text(items.as_slice());
    let ex = match &explanation {
        Some(e) => json_opt_string(Some(e.as_str())),
        None => json_opt_string(None),
    };
    let ghost expected = seq![
        ("mode"@, spec_json_quote("plan"@)),
        ("summary"@, json_opt_str(opt_string_view(explanation))),
        ("steps"@, steps_json@),
        ("explanation"@, json_opt_str(opt_string_view(explanation))),
    ];
    let members = vec![
        ("mode".to_string(), json_quote("plan")),
        ("summary".to_string(), copy_string(&ex)),
        ("steps".to_string(), steps_json),
        ("explanation".to_string(), ex),
    ];
    assert(members_view(members@) == expected);
    let row = ToolRow {
        id: numbered_row_id("update-plan-", event_id, seq),
        provider: Provider::Codex,
        family: ToolFamily::Plan,
        kind: ToolKind::UpdatePlan,
        status: ToolStatus::Completed,
        title,
        subtitle: None,
        summary: None,
        started_at: Some(now.to_string()),
        ended_at: Some(now.to_string()),
        duration_ms: None,
        invocation: json_object_text(members.as_slice()),
        result: None,
    };
    vec![
        state_output(ConnectorStateEvent::PlanUpdated(plan_json)),
        row_created_output(row_entry(ConversationRow::Tool(row))),
    ]
}

// ---------------------------------------------------------------------------
// Realtime conversations
// ---------------------------------------------------------------------------

/// What a realtime conversation reports that the timeline shows: a handoff
/// back to text (with the handoff as JSON text, when it could be written),
/// an error, or something else.
#[derive(Debug, Clone)]
pub enum RealtimeEvent {
    HandoffRequested { handoff: RealtimeHandoffRequested, handoff_json: Option<String> },
    Error { message: String },
    Other,
}

/// The handoff row as JSON text: titled "Handoff requested", with its text
/// as summary and the handoff as the payload's summary.
pub open spec fn handoff_row_json(id: Seq<char>, content: Seq<char>, handoff_json: Option<Seq<char>>) -> Seq<char> {
    json_object(
        seq![
            ("id"@, spec_json_quote(id)),
            ("title"@, spec_json_quote("Handoff requested"@)),
            ("subtitle"@, "null"@),
            ("summary"@, spec_json_quote(content)),
            (
                "payload"@,
                json_object(
                    seq![
                        ("target"@, "null"@),
                        ("summary"@, json_opt_str(handoff_json)),
                        ("body"@, "null"@),
                        ("transcript_excerpt"@, "null"@),
                    ],
                ),
            ),
        ],
    )
}

/// What a realtime event sends: a handoff with text adds a handoff row and
/// an error a system message, each numbered after the event; anything else
/// sends nothing. The counter moves only when a row is added.
pub open spec fn realtime_outputs(
    event_id: Seq<char>,
    event: RealtimeEvent,
    seq: u64,
    now: Seq<char>,
    r: Seq<ConnectorOutput>,
    counter_after: u64,
) -> bool {
    match event {
        RealtimeEvent::HandoffRequested { handoff, handoff_json } => match handoff_text(handoff) {
            Some(content) => {
                let id = numbered_id("realtime-handoff-"@, event_id, seq);
                &&& counter_after == bumped(seq)
                &&& r.len() == 1
                &&& adds_row(
                    r[0],
                    bare_entry(RowView::Handoff(id, handoff_row_json(id, content, opt_string_view(handoff_json)))),
                )
            },
            None => counter_after == seq && r.len() == 0,
        },
        RealtimeEvent::Error { message } => {
            &&& counter_after == bumped(seq)
            &&& r.len() == 1
            &&& adds_row(
                r[0],
                bare_entry(
                    RowView::System(
                        stamped_message(
                            numbered_id("realtime-error-"@, event_id, seq),
                            "Realtime conversation error: "@ + message@,
                            now,
                            false,
                        ),
                    ),
                ),
            )
        },
        RealtimeEvent::Other => counter_after == seq && r.len() == 0,
    }
}

/// A realtime conversation's event.
pub fn handle_realtime_conversation_realtime(event_id: &str, event: RealtimeEvent, counter: &mut u64, now: &str) -> (r:
    Vec<ConnectorOutput>)
    ensures
        realtime_outputs(event_id@, event, *old(counter), now@, r@, *final(counter)),
{
    match event {
        RealtimeEvent::HandoffRequested { handoff, handoff_json } => {
            let content = match realtime_text_from_handoff_request(&handoff) {
                Some(c) => c,
                None => return Vec::new(),
            };
            let seq = next_seq(counter);
            let id = numbered_row_id("realtime-handoff-", event_id, seq);
            let summary = match &handoff_json {
                Some(h) => json_opt_string(Some(h.as_str())),
                None => json_opt_string(None),
            };
            let ghost payload_seq = seq![
                ("target"@, "null"@),
                ("summary"@, summary@),
                ("body"@, "null"@),
                ("transcript_excerpt"@, "null"@),
            ];
            let payload_members = vec![
                ("target".to_string(), "null".to_string()),
                ("summary".to_string(), summary),
                ("body".to_string(), "null".to_string()),
                ("transcript_excerpt".to_string(), "null".to_string()),
            ];
            assert(members_view(payload_members@) == payload_seq);
            let payload = json_object_text(payload_members.as_slice());
            let ghost row_seq = seq![
                ("id"@, spec_json_quote(id@)),
                ("title"@, spec_json_quote("Handoff requested"@)),
                ("subtitle"@, "null"@),
                ("summary"@, spec_json_quote(content@)),
                ("payload"@, payload@),
            ];
            let row_members = vec![
                ("id".to_string(), json_quote(id.as_str())),
                ("title".to_string(), json_quote("Handoff requested")),
                ("subtitle".to_string(), "null".to_string()),
                ("summary".to_string(), json_quote(content.as_str())),
                ("payload".to_string(), payload),
            ];
            assert(members_view(row_members@) == row_seq);
            let text = json_object_text(row_members.as_slice());
            vec![row_created_output(row_entry(ConversationRow::Handoff(OpaqueRow { id, payload: text })))]
        },
        RealtimeEvent::Error { message } => {
            let seq = next_seq(counter);
            let row = MessageRow {
                id: numbered_row_id("realtime-error-", event_id, seq),
                content: concat_str("Realtime conversation error: ", message.as_str()),
                turn_id: None,
                timestamp: Some(now.to_string()),
                is_streaming: false,
            };
            vec![row_created_output(row_entry(ConversationRow::System(row)))]
        },
        RealtimeEvent::Other => Vec::new(),
    }
}

// ---------------------------------------------------------------------------
// Hook runs
// ---------------------------------------------------------------------------

/// Where a hook is configured.
#[derive(Debug, Clone, Copy, PartialEq, Eq, Structural)]
pub enum HookSource {
    System,
    User,
    Project,
    Mdm,
    SessionFlags,
    LegacyManagedConfigFile,
    LegacyManagedConfigMdm,
    Unknown,
}

/// The name of where a hook is configured.
pub open spec fn source_name(s: HookSource) -> Seq<char> {
    match s {
        HookSource::System => "system"@,
        HookSource::User => "user"@,
        HookSource::Project => "project"@,
        HookSource::Mdm => "mdm"@,
        HookSource::SessionFlags => "session_flags"@,
        HookSource::LegacyManagedConfigFile => "legacy_managed_config_file"@,
        HookSource::LegacyManagedConfigMdm => "legacy_managed_config_mdm"@,
        HookSource::Unknown => "unknown"@,
    }
}

fn source_str(s: HookSource) -> (r: &'static str)
    ensures
        r@ == source_name(s),
{
    match s {
        HookSource::System => "system",
        HookSource::User => "user",
        HookSource::Project => "project",
        HookSource::Mdm => "mdm",
        HookSource::SessionFlags => "session_flags",
        HookSource::LegacyManagedConfigFile => "legacy_managed_config_file",
        HookSource::LegacyManagedConfigMdm => "legacy_managed_config_mdm",
        HookSource::Unknown => "unknown",
    }
}

/// A hook run of the runtime: its id, event, status, script (path as
/// displayed), configuration source, message, duration and printed texts.
#[derive(Debug, Clone)]
pub struct RuntimeHookRun {
    pub id: String,
    pub event_name: HookEventName,
    pub status: HookRunStatus,
    pub source_path: String,
    pub source: HookSource,
    pub status_message: Option<String>,
    pub duration_ms: Option<i64>,
    pub entries: Vec<HookOutputEntry>,
}

/// The run as the timeline's texts read it.
pub open spec fn summary_of(run: RuntimeHookRun) -> (HookEventName, HookRunStatus, Seq<char>, Option<Seq<char>>, Seq<Seq<char>>) {
    (
        run.event_name,
        run.status,
        run.source_path@,
        opt_string_view(run.status_message),
        run.entries@.map_values(|e: HookOutputEntry| e.text@),
    )
}

/// Whether a timeline summary matches a run.
pub open spec fn summarizes(s: HookRunSummary, run: RuntimeHookRun) -> bool {
    (s.event_name, s.status, s.source_path@, opt_string_view(s.status_message), strs_view(s.entries@))
        == summary_of(run)
}

fn summary_for(run: &RuntimeHookRun) -> (r: HookRunSummary)
    ensures
        summarizes(r, *run),
{
    let mut entries: Vec<String> = Vec::new();
    let mut i: usize = 0;
    while i < run.entries.len()
        invariant
            i <= run.entries.len(),
            strs_view(entries@) == run.entries@.take(i as int).map_values(|e: HookOutputEntry| e.text@),
        decreases run.entries.len() - i,
    {
        let ghost before = strs_view(entries@);
        entries.push(copy_string(&run.entries[i].text));
        assert(strs_view(entries@) =~= before.push(run.entries@[i as int].text@));
        assert(run.entries@.take(i + 1).map_values(|e: HookOutputEntry| e.text@) =~= run.entries@.take(
            i as int,
        ).map_values(|e: HookOutputEntry| e.text@).push(run.entries@[i as int].text@));
        i = i + 1;
    }
    assert(run.entries@.take(run.entries.len() as int) =~= run.entries@);
    HookRunSummary {
        event_name: run.event_name,
        status: run.status,
        source_path: copy_string(&run.source_path),
        status_message: copy_opt_string(&run.status_message),
        entries,
    }
}

/// The hook row of a runtime hook run as JSON text, in the given phase:
/// the title and output the timeline gives, and what is known of the run
/// (nothing of its output, duration or entries while it starts).
pub open spec fn runtime_hook_json(
    run: RuntimeHookRun,
    title: Seq<char>,
    output: Option<Seq<char>>,
    phase: Seq<char>,
    started: bool,
) -> Seq<char> {
    let event = spec_json_quote(event_name_text(run.event_name));
    json_object(
        seq![
            ("id"@, spec_json_quote("hook-"@ + run.id@)),
            ("title"@, spec_json_quote(title)),
            ("subtitle"@, "null"@),
            ("summary"@, json_opt_str(output)),
            (
                "payload"@,
                json_object(
                    seq![
                        ("hook_name"@, event),
                        ("event_name"@, event),
                        ("phase"@, spec_json_quote(phase)),
                        ("status"@, spec_json_quote(run_status_text(run.status))),
                        ("source_path"@, spec_json_quote(run.source_path@)),
                        ("source"@, spec_json_quote(source_name(run.source))),
                        ("summary"@, json_opt_str(output)),
                        ("output"@, json_opt_str(output)),
                        (
                            "duration_ms"@,
                            if started {
                                "null"@
                            } else {
                                json_opt_count(duration_millis_of(run.duration_ms))
                            },
                        ),
                        (
                            "entries"@,
                            json_array(
                                if started {
                                    Seq::empty()
                                } else {
                                    run.entries@.map_values(|e: HookOutputEntry| entry_json(e))
                                },
                            ),
                        ),
                    ],
                ),
            ),
        ],
    )
}

fn entry_text(e: &HookOutputEntry) -> (r: String)
    ensures
        r@ == entry_json(*e),
{
    let ghost expected = seq![
        ("kind"@, spec_json_quote(e.kind@)),
        ("label"@, "null"@),
        ("value"@, spec_json_quote(e.text@)),
    ];
    let members = vec![
        ("kind".to_string(), json_quote(e.kind.as_str())),
        ("label".to_string(), "null".to_string()),
        ("value".to_string(), json_quote(e.text.as_str())),
    ];
    assert(members_view(members@) == expected);
    json_object_text(members.as_slice())
}

fn runtime_hook_text(run: &RuntimeHookRun, title: &str, output: &Option<String>, phase: &str, started: bool) -> (r:
    String)
    ensures
        r@ == runtime_hook_json(*run, title@, opt_string_view(*output), phase@, started),
{
    let mut items: Vec<String> = Vec::new();
    if !started {
        let mut i: usize = 0;
        while i < run.entries.len()
            invariant
                i <= run.entries.len(),
                strs_view(items@) == run.entries@.take(i as int).map_values(|e: HookOutputEntry| entry_json(e)),
            decreases run.entries.len() - i,
        {
            let ghost before = strs_view(items@);
            items.push(entry_text(&run.entries[i]));
            assert(strs_view(items@) =~= before.push(entry_json(run.entries@[i as int])));
            assert(run.entries@.take(i + 1).map_values(|e: HookOutputEntry| entry_json(e)) =~= run.entries@.take(
                i as int,
            ).map_values(|e: HookOutputEntry| entry_json(e)).push(entry_json(run.entries@[i as int])));
            i = i + 1;
        }
        assert(run.entries@.take(run.entries.len() as int) =~= run.entries@);
    } else {
        assert(strs_view(items@) =~= Seq::<Seq<char>>::empty());
    }
    let entries = json_array_text(items.as_slice());
    let out = match output {
        Some(o) => json_opt_string(Some(o.as_str())),
        None => json_opt_string(None),
    };
    let duration = if started {
        "null".to_string()
    } else {
        match duration_millis(run.duration_ms) {
            Some(v) => decimal_string(v),
            None => "null".to_string(),
        }
    };
    let event = json_quote(crate::codex::notification_rows::event_name_str(run.event_name));
    let ghost payload_seq = seq![
        ("hook_name"@, event@),
        ("event_name"@, event@),
        ("phase"@, spec_json_quote(phase@)),
        ("status"@, spec_json_quote(run_status_text(run.status))),
        ("source_path"@, spec_json_quote(run.source_path@)),
        ("source"@, spec_json_quote(source_name(run.source))),
        ("summary"@, out@),
        ("output"@, out@),
        ("duration_ms"@, duration@),
        ("entries"@, entries@),
    ];
    let payload_members = vec![
        ("hook_name".to_string(), copy_string(&event)),
        ("event_name".to_string(), event),
        ("phase".to_string(), json_quote(phase)),
        ("status".to_string(), json_quote(crate::codex::notification_rows::run_status_str(run.status))),
        ("source_path".to_string(), json_quote(run.source_path.as_str())),
        ("source".to_string(), json_quote(source_str(run.source))),
        ("summary".to_string(), copy_string(&out)),
        ("output".to_string(), copy_string(&out)),
        ("duration_ms".to_string(), duration),
        ("entries".to_string(), entries),
    ];
    assert(members_view(payload_members@) == payload_seq);
    let payload = json_object_text(payload_members.as_slice());
    let id = concat_str("hook-", run.id.as_str());
    let ghost row_seq = seq![
        ("id"@, spec_json_quote(id@)),
        ("title"@, spec_json_quote(title@)),
        ("subtitle"@, "null"@),
        ("summary"@, out@),
        ("payload"@, payload@),
    ];
    let row_members = vec![
        ("id".to_string(), json_quote(id.as_str())),
        ("title".to_string(), json_quote(title)),
        ("subtitle".to_string(), "null".to_string()),
        ("summary".to_string(), out),
        ("payload".to_string(), payload),
    ];
    assert(members_view(row_members@) == row_seq);
    json_object_text(row_members.as_slice())
}

/// A runtime hook run that went wrong adds its row as it starts: titled by
/// the timeline's text for a starting hook.
pub fn handle_hook_started(run: RuntimeHookRun) -> (r: Vec<ConnectorOutput>)
    ensures
        !(run.status == HookRunStatus::Failed || run.status == HookRunStatus::Blocked || run.status
            == HookRunStatus::Stopped) ==> r@.len() == 0,
        (run.status == HookRunStatus::Failed || run.status == HookRunStatus::Blocked || run.status
            == HookRunStatus::Stopped) ==> r@.len() == 1 && (exists|s: HookRunSummary|
            summarizes(s, run) && adds_row(
                r@[0],
                bare_entry(
                    RowView::Hook(
                        "hook-"@ + run.id@,
                        runtime_hook_json(run, started_text(s), None, "started"@, true),
                    ),
                ),
            )),
{
    if !hook_run_is_error(run.status) {
        return Vec::new();
    }
    let summary = summary_for(&run);
    let title = hook_started_text(&summary);
    let text = runtime_hook_text(&run, title.as_str(), &None, "started", true);
    let id = concat_str("hook-", run.id.as_str());
    let r = vec![row_created_output(row_entry(ConversationRow::Hook(OpaqueRow { id, payload: text })))];
    assert(summarizes(summary, run) && adds_row(
        r@[0],
        bare_entry(
            RowView::Hook("hook-"@ + run.id@, runtime_hook_json(run, started_text(summary), None, "started"@, true)),
        ),
    ));
    r
}

/// A runtime hook run that went wrong adds its row as it completes: titled
/// by the timeline's text for a finished hook, with its output.
pub fn handle_hook_completed(run: RuntimeHookRun) -> (r: Vec<ConnectorOutput>)
    ensures
        !(run.status == HookRunStatus::Failed || run.status == HookRunStatus::Blocked || run.status
            == HookRunStatus::Stopped) ==> r@.len() == 0,
        (run.status == HookRunStatus::Failed || run.status == HookRunStatus::Blocked || run.status
            == HookRunStatus::Stopped) ==> r@.len() == 1 && (exists|s: HookRunSummary|
            summarizes(s, run) && adds_row(
                r@[0],
                bare_entry(
                    RowView::Hook(
                        "hook-"@ + run.id@,
                        runtime_hook_json(run, completed_text(s), output_text(s), "completed"@, false),
                    ),
                ),
            )),
{
    if !hook_run_is_error(run.status) {
        return Vec::new();
    }
    let summary = summary_for(&run);
    let title = hook_completed_text(&summary);
    let output = hook_output_text(&summary);
    let text = runtime_hook_text(&run, title.as_str(), &output, "completed", false);
    let id = concat_str("hook-", run.id.as_str());
    let r = vec![row_created_output(row_entry(ConversationRow::Hook(OpaqueRow { id, payload: text })))];
    assert(summarizes(summary, run) && adds_row(
        r@[0],
        bare_entry(
            RowView::Hook(
                "hook-"@ + run.id@,
                runtime_hook_json(run, completed_text(summary), output_text(summary), "completed"@, false),
            ),
        ),
    ));
    r
}

} // verus!
