//! Runtime warnings: which are left off the timeline, and how the others
//! read and are named.

use crate::codex::timeline::{is_thread_start_skills_trimmed_warning, skills_trimmed_warning};
use crate::text::{concat_str, decimal, decimal_string, has_infix, has_prefix, str_contains, str_starts_with};
use crate::transition::connector::{ConnectorOutput, ConnectorStateEvent};
use crate::transition::model::{
    ConversationRow, ConversationRowEntry, EntryView, NoticeRow, NoticeRowSeverity, NoticeRowView,
    RowView, TurnStatus,
};
use vstd::prelude::*;
use vstd::utf8::encode_utf8;

verus! {

/// Whether a warning is noise the timeline leaves out: skills left out of
/// the model's list, the fallback from WebSockets to HTTPS, fallback model
/// metadata, and the hooks feature notice.
pub open spec fn suppressed_warning(message: Seq<char>) -> bool {
    skills_trimmed_warning(message) || has_prefix(
        message,
        "Falling back from WebSockets to HTTPS transport"@,
    ) || (has_prefix(message, "Model metadata for `"@) && has_infix(
        message,
        "Defaulting to fallback metadata"@,
    )) || (has_prefix(message, "Under-development features enabled:"@) && has_infix(
        message,
        "codex_hooks"@,
    ))
}

/// Whether a runtime warning is left off the timeline.
pub fn is_suppressed_runtime_warning(message: &str) -> (r: bool)
    ensures
        r == suppressed_warning(message@),
{
    is_thread_start_skills_trimmed_warning(message) || str_starts_with(
        message,
        "Falling back from WebSockets to HTTPS transport",
    ) || (str_starts_with(
        message,
        "Model metadata for `",
    ) && str_contains(message, "Defaulting to fallback metadata")) || (str_starts_with(
        message,
        "Under-development features enabled:",
    ) && str_contains(message, "codex_hooks"))
}

/// The 64-bit FNV-1a hash of some bytes.
pub open spec fn fnv1a(bytes: Seq<u8>) -> u64
    decreases bytes.len(),
{
    if bytes.len() == 0 {
        0xcbf29ce484222325u64
    } else {
        (fnv1a(bytes.drop_last()) ^ (bytes.last() as u64)).wrapping_mul(0x100000001b3u64)
    }
}

/// The 64-bit FNV-1a hash of a text's UTF-8 bytes: the same text gives the
/// same hash in every process.
pub fn stable_hash(value: &str) -> (r: u64)
    ensures
        r == fnv1a(encode_utf8(value@)),
{
    let bytes = value.as_bytes();
    let mut hash: u64 = 0xcbf29ce484222325u64;
    let mut i: usize = 0;
    while i < bytes.len()
        invariant
            i <= bytes.len(),
            bytes@ == encode_utf8(value@),
            hash == fnv1a(bytes@.take(i as int)),
        decreases bytes.len() - i,
    {
        assert(bytes@.take(i + 1).drop_last() =~= bytes@.take(i as int));
        hash = hash ^ (bytes[i] as u64);
        hash = hash.wrapping_mul(0x100000001b3u64);
        i = i + 1;
    }
    assert(bytes@.take(bytes.len() as int) =~= bytes@);
    hash
}

/// The id of a warning's notice: one fixed id for the skills warning, so
/// that it shows once, and otherwise one made of the text's hash.
pub open spec fn warning_notice_id(message: Seq<char>) -> Seq<char> {
    if skills_trimmed_warning(message) {
        "warning-thread-start-skills-trimmed"@
    } else {
        "warning-"@ + decimal(fnv1a(encode_utf8(message)) as nat)
    }
}

/// The id of a warning's notice.
pub fn runtime_warning_notice_id(message: &str) -> (r: String)
    ensures
        r@ == warning_notice_id(message@),
{
    if is_thread_start_skills_trimmed_warning(message) {
        "warning-thread-start-skills-trimmed".to_string()
    } else {
        let h = decimal_string(stable_hash(message));
        concat_str("warning-", h.as_str())
    }
}

/// How a warning's notice reads: the skills warning gets a title and a
/// hint and is informational; any other is a warning that shows its text.
pub open spec fn warning_copy(message: Seq<char>) -> (Seq<char>, Option<Seq<char>>, NoticeRowSeverity) {
    if skills_trimmed_warning(message) {
        (
            "Some skills are outside the model-visible list"@,
            Some("Mention a skill by name or path if Codex needs it."@),
            NoticeRowSeverity::Info,
        )
    } else {
        ("Codex warning"@, Some(message), NoticeRowSeverity::Warning)
    }
}

/// The title, summary and severity of a warning's notice.
pub fn runtime_warning_notice_copy(message: &str) -> (r: (String, Option<String>, NoticeRowSeverity))
    ensures
        (r.0@, crate::text::opt_string_view(r.1), r.2) == warning_copy(message@),
{
    if is_thread_start_skills_trimmed_warning(message) {
        return (
            "Some skills are outside the model-visible list".to_string(),
            Some("Mention a skill by name or path if Codex needs it.".to_string()),
            NoticeRowSeverity::Info,
        );
    }
    ("Codex warning".to_string(), Some(message.to_string()), NoticeRowSeverity::Warning)
}

/// The row a warning adds to the timeline: a notice named after the
/// warning, with its copy and the full text as body.
pub open spec fn warning_entry(message: Seq<char>) -> EntryView {
    let copy = warning_copy(message);
    EntryView {
        session_id: Seq::empty(),
        sequence: 0,
        turn_id: None,
        turn_status: TurnStatus::Active,
        row: RowView::Notice(
            NoticeRowView {
                id: warning_notice_id(message),
                severity: copy.2,
                title: copy.0,
                summary: copy.1,
                body: Some(message),
            },
        ),
    }
}

/// What a runtime warning sends: nothing when it is noise, else the row of
/// its notice.
pub fn map_warning(message: String) -> (r: Vec<ConnectorOutput>)
    ensures
        suppressed_warning(message@) ==> r@.len() == 0,
        !suppressed_warning(message@) ==> r@.len() == 1 && (r@[0] matches ConnectorOutput::State(
            ConnectorStateEvent::ConversationRowCreated(e),
        ) && e@ == warning_entry(message@)),
{
    let mut out: Vec<ConnectorOutput> = Vec::new();
    if is_suppressed_runtime_warning(message.as_str()) {
        return out;
    }
    let (title, summary, severity) = runtime_warning_notice_copy(message.as_str());
    let id = runtime_warning_notice_id(message.as_str());
    let entry = ConversationRowEntry {
        session_id: String::new(),
        sequence: 0,
        turn_id: None,
        turn_status: TurnStatus::Active,
        row: ConversationRow::Notice(NoticeRow { id, severity, title, summary, body: Some(message) }),
    };
    out.push(ConnectorOutput::State(ConnectorStateEvent::ConversationRowCreated(entry)));
    out
}

} // verus!
