//! Text the Codex connector puts on a session's timeline: hook runs,
//! realtime handoffs, and which warnings it leaves out.

use crate::text::{
    concat3, concat_str, has_prefix, join, join_strings, opt_str_view, opt_string_view,
    path_file_name, spec_file_name, str_eq, str_starts_with, strs_view, trim, trim_non_empty,
    trimmed_non_empty,
};
use vstd::prelude::*;

verus! {

/// Whether a warning says that skills were left out of what the model
/// sees at the start of a thread.
pub open spec fn skills_trimmed_warning(message: Seq<char>) -> bool {
    has_prefix(message, "Some enabled skills were not included in the model-visible skills list"@)
        || has_prefix(message, "Warning: Exceeded skills context budget"@)
}

/// Whether a warning says that skills were left out of what the model
/// sees at the start of a thread.
pub fn is_thread_start_skills_trimmed_warning(message: &str) -> (r: bool)
    ensures
        r == skills_trimmed_warning(message@),
{
    str_starts_with(message, "Some enabled skills were not included in the model-visible skills list")
        || str_starts_with(message, "Warning: Exceeded skills context budget")
}

// ---------------------------------------------------------------------------
// Realtime handoffs
// ---------------------------------------------------------------------------

/// One message of a realtime conversation.
#[derive(Debug, Clone)]
pub struct TranscriptMessage {
    pub role: String,
    pub text: String,
}

/// A realtime conversation handed back to the text session.
#[derive(Debug, Clone)]
pub struct RealtimeHandoffRequested {
    pub active_transcript: Vec<TranscriptMessage>,
    pub input_transcript: String,
}

/// A message as the timeline shows it: trimmed, after its trimmed role.
pub open spec fn transcript_line(role: Seq<char>, text: Seq<char>) -> Seq<char> {
    if trim(role).len() == 0 {
        trim(text)
    } else {
        trim(role) + ": "@ + trim(text)
    }
}

/// The lines of the first `k` messages that are not empty.
pub open spec fn transcript_lines(messages: Seq<TranscriptMessage>, k: nat) -> Seq<Seq<char>>
    decreases k,
{
    if k == 0 || k > messages.len() {
        Seq::empty()
    } else {
        let prev = transcript_lines(messages, (k - 1) as nat);
        let line = transcript_line(messages[k - 1].role@, messages[k - 1].text@);
        if line.len() > 0 {
            prev.push(line)
        } else {
            prev
        }
    }
}

/// The text of a handoff: its messages one per line, else its trimmed
/// input transcript; `None` when both are empty.
pub open spec fn handoff_text(handoff: RealtimeHandoffRequested) -> Option<Seq<char>> {
    let lines = transcript_lines(handoff.active_transcript@, handoff.active_transcript@.len());
    if lines.len() > 0 {
        Some(join(lines, "\n"@))
    } else {
        trimmed_non_empty(Some(handoff.input_transcript@))
    }
}

fn transcript_line_of(m: &TranscriptMessage) -> (r: String)
    ensures
        r@ == transcript_line(m.role@, m.text@),
{
    let role = crate::text::trim_str(m.role.as_str());
    let text = crate::text::trim_str(m.text.as_str());
    if role.as_str().unicode_len() == 0 {
        text
    } else {
        concat3(role.as_str(), ": ", text.as_str())
    }
}

/// The text a realtime handoff puts on the timeline.
pub fn realtime_text_from_handoff_request(handoff: &RealtimeHandoffRequested) -> (r: Option<String>)
    ensures
        opt_string_view(r) == handoff_text(*handoff),
{
    let mut lines: Vec<String> = Vec::new();
    let mut i: usize = 0;
    while i < handoff.active_transcript.len()
        invariant
            i <= handoff.active_transcript.len(),
            strs_view(lines@) == transcript_lines(handoff.active_transcript@, i as nat),
        decreases handoff.active_transcript.len() - i,
    {
        let line = transcript_line_of(&handoff.active_transcript[i]);
        if line.as_str().unicode_len() > 0 {
            let ghost before = strs_view(lines@);
            lines.push(line);
            assert(strs_view(lines@) =~= before.push(line@));
        }
        i = i + 1;
    }
    if lines.len() > 0 {
        return Some(join_strings(lines.as_slice(), "\n"));
    }
    trim_non_empty(Some(handoff.input_transcript.as_str()))
}

// ---------------------------------------------------------------------------
// Hooks
// ---------------------------------------------------------------------------

/// The event a hook runs on.
#[derive(Debug, Clone, Copy, PartialEq, Eq, Structural)]
pub enum HookEventName {
    PreToolUse,
    PermissionRequest,
    PostToolUse,
    SessionStart,
    UserPromptSubmit,
    Stop,
}

/// How a hook run went.
#[derive(Debug, Clone, Copy, PartialEq, Eq, Structural)]
pub enum HookRunStatus {
    Running,
    Completed,
    Failed,
    Blocked,
    Stopped,
}

/// One run of a hook: its event, status, script, message and the texts it
/// printed.
#[derive(Debug, Clone)]
pub struct HookRunSummary {
    pub event_name: HookEventName,
    pub status: HookRunStatus,
    pub source_path: String,
    pub status_message: Option<String>,
    pub entries: Vec<String>,
}

/// How a hook's event reads.
pub open spec fn event_label(e: HookEventName) -> Seq<char> {
    match e {
        HookEventName::PreToolUse => "pre_tool_use"@,
        HookEventName::PermissionRequest => "permission request"@,
        HookEventName::PostToolUse => "post_tool_use"@,
        HookEventName::SessionStart => "session start"@,
        HookEventName::UserPromptSubmit => "prompt submit"@,
        HookEventName::Stop => "stop"@,
    }
}

fn hook_event_label(e: HookEventName) -> (r: &'static str)
    ensures
        r@ == event_label(e),
{
    match e {
        HookEventName::PreToolUse => "pre_tool_use",
        HookEventName::PermissionRequest => "permission request",
        HookEventName::PostToolUse => "post_tool_use",
        HookEventName::SessionStart => "session start",
        HookEventName::UserPromptSubmit => "prompt submit",
        HookEventName::Stop => "stop",
    }
}

/// How a hook's status reads.
pub open spec fn status_label(s: HookRunStatus) -> Seq<char> {
    match s {
        HookRunStatus::Running => "running"@,
        HookRunStatus::Completed => "completed"@,
        HookRunStatus::Failed => "failed"@,
        HookRunStatus::Blocked => "blocked"@,
        HookRunStatus::Stopped => "stopped"@,
    }
}

fn hook_status_label(s: HookRunStatus) -> (r: &'static str)
    ensures
        r@ == status_label(s),
{
    match s {
        HookRunStatus::Running => "running",
        HookRunStatus::Completed => "completed",
        HookRunStatus::Failed => "failed",
        HookRunStatus::Blocked => "blocked",
        HookRunStatus::Stopped => "stopped",
    }
}

/// A hook's script as shown: the name of its file, else its whole path.
pub open spec fn source_label(path: Seq<char>) -> Seq<char> {
    match spec_file_name(path) {
        Some(f) => f,
        None => path,
    }
}

fn hook_source_label(path: &str) -> (r: String)
    ensures
        r@ == source_label(path@),
{
    match path_file_name(path) {
        Some(f) => f,
        None => path.to_string(),
    }
}

/// The text of a hook starting.
pub open spec fn started_text(run: HookRunSummary) -> Seq<char> {
    "Running "@ + event_label(run.event_name) + " hook via "@ + source_label(run.source_path@)
}

/// The text a hook run puts on the timeline when it starts.
pub fn hook_started_text(run: &HookRunSummary) -> (r: String)
    ensures
        r@ == started_text(*run),
{
    let source = hook_source_label(run.source_path.as_str());
    let a = concat3("Running ", hook_event_label(run.event_name), " hook via ");
    concat_str(a.as_str(), source.as_str())
}

/// The text of a finished hook, with its trimmed message when it has one.
pub open spec fn completed_text(run: HookRunSummary) -> Seq<char> {
    let base = event_label(run.event_name) + " hook "@ + status_label(run.status) + " via "@
        + source_label(run.source_path@);
    match trimmed_non_empty(opt_string_view(run.status_message)) {
        Some(m) => base + ": "@ + m,
        None => base,
    }
}

/// The text a hook run puts on the timeline when it ends.
pub fn hook_completed_text(run: &HookRunSummary) -> (r: String)
    ensures
        r@ == completed_text(*run),
{
    let source = hook_source_label(run.source_path.as_str());
    let a = concat3(hook_event_label(run.event_name), " hook ", hook_status_label(run.status));
    let base = concat3(a.as_str(), " via ", source.as_str());
    let message = match &run.status_message {
        Some(m) => trim_non_empty(Some(m.as_str())),
        None => trim_non_empty(None),
    };
    match message {
        Some(m) => concat3(base.as_str(), ": ", m.as_str()),
        None => base,
    }
}

/// The trimmed texts of the first `k` entries that are not blank.
pub open spec fn entry_texts(entries: Seq<String>, k: nat) -> Seq<Seq<char>>
    decreases k,
{
    if k == 0 || k > entries.len() {
        Seq::empty()
    } else {
        let prev = entry_texts(entries, (k - 1) as nat);
        match trimmed_non_empty(Some(entries[k - 1]@)) {
            Some(t) => prev.push(t),
            None => prev,
        }
    }
}

/// What a hook printed, one part per line: its trimmed message first
/// unless an entry already says it, then its entries; `None` when there is
/// nothing.
pub open spec fn output_text(run: HookRunSummary) -> Option<Seq<char>> {
    let parts = entry_texts(run.entries@, run.entries@.len());
    let all = match trimmed_non_empty(opt_string_view(run.status_message)) {
        Some(m) => if parts.contains(m) {
            parts
        } else {
            seq![m] + parts
        },
        None => parts,
    };
    if all.len() > 0 {
        Some(join(all, "\n"@))
    } else {
        None
    }
}

/// The output a hook run shows.
pub fn hook_output_text(run: &HookRunSummary) -> (r: Option<String>)
    ensures
        opt_string_view(r) == output_text(*run),
{
    let mut parts: Vec<String> = Vec::new();
    let mut i: usize = 0;
    while i < run.entries.len()
        invariant
            i <= run.entries.len(),
            strs_view(parts@) == entry_texts(run.entries@, i as nat),
        decreases run.entries.len() - i,
    {
        match trim_non_empty(Some(run.entries[i].as_str())) {
            Some(t) => {
                let ghost before = strs_view(parts@);
                parts.push(t);
                assert(strs_view(parts@) =~= before.push(t@));
            },
            None => {},
        }
        i = i + 1;
    }
    let message = match &run.status_message {
        Some(m) => trim_non_empty(Some(m.as_str())),
        None => trim_non_empty(None),
    };
    if let Some(m) = message {
        if !crate::text::strings_contain(&parts, m.as_str()) {
            let ghost before = strs_view(parts@);
            parts.insert(0, m);
            assert(strs_view(parts@) =~= seq![m@] + before);
        }
    }
    if parts.len() == 0 {
        None
    } else {
        Some(join_strings(parts.as_slice(), "\n"))
    }
}

/// Whether a hook run failed, was blocked or was stopped.
pub fn hook_run_is_error(status: HookRunStatus) -> (r: bool)
    ensures
        r == (status == HookRunStatus::Failed || status == HookRunStatus::Blocked || status
            == HookRunStatus::Stopped),
{
    match status {
        HookRunStatus::Failed | HookRunStatus::Blocked | HookRunStatus::Stopped => true,
        _ => false,
    }
}

} // verus!
