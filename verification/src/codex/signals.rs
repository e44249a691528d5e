//! How the runtime's signals become connector outputs: bare row entries,
//! streamed thinking text, token counts, warnings, errors and notices.

use crate::codex::warnings::{is_suppressed_runtime_warning, suppressed_warning};
use crate::keyed::{distinct_keys, first_wins, keyed_pairs, TextMap};
use crate::text::{concat3, concat_str, decimal, decimal_string};
use crate::transition::connector::{
    ConnectorOutput, ConnectorRuntimeDirective, ConnectorStateEvent, ConnectorTransportEffect,
};
use crate::transition::model::{
    ConversationRow, ConversationRowEntry, EntryView, MessageRow, MessageRowView, NoticeRow,
    NoticeRowSeverity, NoticeRowView, RowView, TokenUsage, TokenUsageSnapshotKind, TurnStatus,
};
use vstd::prelude::*;

verus! {

// ---------------------------------------------------------------------------
// Outputs and entries
// ---------------------------------------------------------------------------

/// The entry of a row the connector makes itself: no session, sequence or
/// turn yet.
pub open spec fn bare_entry(row: RowView) -> EntryView {
    EntryView {
        session_id: Seq::empty(),
        sequence: 0,
        turn_id: None,
        turn_status: TurnStatus::Active,
        row,
    }
}

/// Wraps a row in an entry with no session, sequence or turn yet.
pub fn row_entry(row: ConversationRow) -> (r: ConversationRowEntry)
    ensures
        r@ == bare_entry(row@),
        r.row == row,
{
    ConversationRowEntry {
        session_id: String::new(),
        sequence: 0,
        turn_id: None,
        turn_status: TurnStatus::Active,
        row,
    }
}

/// A state event as an output.
pub fn state_output(event: ConnectorStateEvent) -> (r: ConnectorOutput)
    ensures
        r == ConnectorOutput::State(event),
{
    ConnectorOutput::State(event)
}

/// A runtime directive as an output.
pub fn runtime_output(directive: ConnectorRuntimeDirective) -> (r: ConnectorOutput)
    ensures
        r == ConnectorOutput::Runtime(directive),
{
    ConnectorOutput::Runtime(directive)
}

/// A transport effect as an output.
pub fn transport_output(effect: ConnectorTransportEffect) -> (r: ConnectorOutput)
    ensures
        r == ConnectorOutput::Transport(effect),
{
    ConnectorOutput::Transport(effect)
}

/// The output that adds a row.
pub fn row_created_output(entry: ConversationRowEntry) -> (r: ConnectorOutput)
    ensures
        r == ConnectorOutput::State(ConnectorStateEvent::ConversationRowCreated(entry)),
{
    state_output(ConnectorStateEvent::ConversationRowCreated(entry))
}

/// The output that replaces the row with id `row_id`.
pub fn row_updated_output(row_id: String, entry: ConversationRowEntry) -> (r: ConnectorOutput)
    ensures
        r == ConnectorOutput::State(ConnectorStateEvent::ConversationRowUpdated { row_id, entry }),
{
    state_output(ConnectorStateEvent::ConversationRowUpdated { row_id, entry })
}

/// `o` adds the row `e`.
pub open spec fn adds_row(o: ConnectorOutput, e: EntryView) -> bool {
    o matches ConnectorOutput::State(ConnectorStateEvent::ConversationRowCreated(x)) && x@ == e
}

/// `o` replaces the row with id `id` by `e`.
pub open spec fn replaces_row(o: ConnectorOutput, id: Seq<char>, e: EntryView) -> bool {
    &&& o matches ConnectorOutput::State(ConnectorStateEvent::ConversationRowUpdated { row_id, entry })
    &&& o->State_0->ConversationRowUpdated_row_id@ == id
    &&& o->State_0->ConversationRowUpdated_entry@ == e
}

/// A message row stamped `now`.
pub open spec fn stamped_message(id: Seq<char>, content: Seq<char>, now: Seq<char>, streaming: bool) -> MessageRowView {
    MessageRowView { id, content, turn_id: None, timestamp: Some(now), is_streaming: streaming }
}

fn stamped_message_row(id: String, content: String, now: &str, streaming: bool) -> (r: MessageRow)
    ensures
        r@ == stamped_message(id@, content@, now@, streaming),
{
    MessageRow { id, content, turn_id: None, timestamp: Some(now.to_string()), is_streaming: streaming }
}

/// The row of streamed thinking text, still streaming.
pub open spec fn thinking_entry(id: Seq<char>, content: Seq<char>, now: Seq<char>) -> EntryView {
    bare_entry(RowView::Thinking(stamped_message(id, content, now, true)))
}

/// The row of thinking text that is complete.
pub open spec fn finalized_thinking_entry(id: Seq<char>, content: Seq<char>, now: Seq<char>) -> EntryView {
    bare_entry(RowView::Thinking(stamped_message(id, content, now, false)))
}

/// A thinking row that is still streaming, stamped `now`.
pub fn thinking_row_entry(id: String, content: String, now: &str) -> (r: ConversationRowEntry)
    ensures
        r@ == thinking_entry(id@, content@, now@),
{
    row_entry(ConversationRow::Thinking(stamped_message_row(id, content, now, true)))
}

/// A thinking row that is complete, stamped `now`.
pub fn finalized_thinking_row_entry(id: String, content: String, now: &str) -> (r: ConversationRowEntry)
    ensures
        r@ == finalized_thinking_entry(id@, content@, now@),
{
    row_entry(ConversationRow::Thinking(stamped_message_row(id, content, now, false)))
}

// ---------------------------------------------------------------------------
// Row ids numbered by the connector's message counter
// ---------------------------------------------------------------------------

/// The counter after taking one number: it wraps as an atomic counter does.
pub open spec fn bumped(n: u64) -> u64 {
    if n == u64::MAX {
        0
    } else {
        (n + 1) as u64
    }
}

/// Takes the next number of the message counter.
pub(crate) fn next_seq(counter: &mut u64) -> (r: u64)
    ensures
        r == *old(counter),
        *final(counter) == bumped(*old(counter)),
{
    let n = *counter;
    *counter = if n == u64::MAX {
        0
    } else {
        n + 1
    };
    n
}

/// The id of a row an event adds: a prefix, the event's id and the number
/// taken from the counter.
pub open spec fn numbered_id(prefix: Seq<char>, event_id: Seq<char>, seq: u64) -> Seq<char> {
    prefix + event_id + "-"@ + decimal(seq as nat)
}

pub(crate) fn numbered_row_id(prefix: &str, event_id: &str, seq: u64) -> (r: String)
    ensures
        r@ == numbered_id(prefix@, event_id@, seq),
{
    let head = concat3(prefix, event_id, "-");
    let n = decimal_string(seq);
    concat_str(head.as_str(), n.as_str())
}

/// A text followed by details after a blank line, when there are any.
pub open spec fn with_details(text: Seq<char>, details: Option<Seq<char>>) -> Seq<char> {
    match details {
        Some(d) => if d.len() == 0 {
            text
        } else {
            text + "\n\n"@ + d
        },
        None => text,
    }
}

fn text_with_details(text: String, details: Option<String>) -> (r: String)
    ensures
        r@ == with_details(text@, crate::text::opt_string_view(details)),
{
    match details {
        Some(d) => if d.as_str().unicode_len() == 0 {
            text
        } else {
            concat3(text.as_str(), "\n\n", d.as_str())
        },
        None => text,
    }
}

// ---------------------------------------------------------------------------
// State signals
// ---------------------------------------------------------------------------

/// A diff of the turn updates the session's diff.
pub fn handle_turn_diff(unified_diff: String) -> (r: Vec<ConnectorOutput>)
    ensures
        r@ == seq![ConnectorOutput::State(ConnectorStateEvent::DiffUpdated(unified_diff))],
{
    vec![state_output(ConnectorStateEvent::DiffUpdated(unified_diff))]
}

/// A new name of the thread renames the session; no name changes nothing.
pub fn handle_thread_name_updated(thread_name: Option<String>) -> (r: Vec<ConnectorOutput>)
    ensures
        match thread_name {
            Some(name) => r@ == seq![
                ConnectorOutput::State(ConnectorStateEvent::ThreadNameUpdated(name)),
            ],
            None => r@.len() == 0,
        },
{
    match thread_name {
        Some(name) => vec![state_output(ConnectorStateEvent::ThreadNameUpdated(name))],
        None => Vec::new(),
    }
}

/// A completed shutdown ends the session.
pub fn handle_shutdown_complete() -> (r: Vec<ConnectorOutput>)
    ensures
        r@.len() == 1,
        r@[0] matches ConnectorOutput::State(ConnectorStateEvent::SessionEnded { reason }) && reason@
            == "shutdown"@,
{
    vec![state_output(ConnectorStateEvent::SessionEnded { reason: "shutdown".to_string() })]
}

/// An error of the runtime is reported as is.
pub fn handle_error(message: String) -> (r: Vec<ConnectorOutput>)
    ensures
        r@ == seq![ConnectorOutput::State(ConnectorStateEvent::Error(message))],
{
    vec![state_output(ConnectorStateEvent::Error(message))]
}

/// A compacted context is reported.
pub fn handle_context_compacted() -> (r: Vec<ConnectorOutput>)
    ensures
        r@ == seq![ConnectorOutput::State(ConnectorStateEvent::ContextCompacted)],
{
    vec![state_output(ConnectorStateEvent::ContextCompacted)]
}

/// An undo that starts is reported with its message.
pub fn handle_undo_started(message: Option<String>) -> (r: Vec<ConnectorOutput>)
    ensures
        r@ == seq![ConnectorOutput::State(ConnectorStateEvent::UndoStarted { message })],
{
    vec![state_output(ConnectorStateEvent::UndoStarted { message })]
}

/// An undo that ends is reported with its outcome and message.
pub fn handle_undo_completed(success: bool, message: Option<String>) -> (r: Vec<ConnectorOutput>)
    ensures
        r@ == seq![ConnectorOutput::State(ConnectorStateEvent::UndoCompleted { success, message })],
{
    vec![state_output(ConnectorStateEvent::UndoCompleted { success, message })]
}

/// A rollback of the thread is reported with the number of turns undone.
pub fn handle_thread_rolled_back(num_turns: u32) -> (r: Vec<ConnectorOutput>)
    ensures
        r@ == seq![ConnectorOutput::State(ConnectorStateEvent::ThreadRolledBack { num_turns })],
{
    vec![state_output(ConnectorStateEvent::ThreadRolledBack { num_turns })]
}

/// New skills on offer are reported.
pub fn handle_skills_update_available() -> (r: Vec<ConnectorOutput>)
    ensures
        r@ == seq![ConnectorOutput::State(ConnectorStateEvent::SkillsUpdateAvailable)],
{
    vec![state_output(ConnectorStateEvent::SkillsUpdateAvailable)]
}

// ---------------------------------------------------------------------------
// Token counts
// ---------------------------------------------------------------------------

/// Token counts as the runtime reports them, signed.
#[derive(Debug, Clone, Copy)]
pub struct TokenUsageBreakdown {
    pub total_tokens: i64,
    pub input_tokens: i64,
    pub cached_input_tokens: i64,
    pub output_tokens: i64,
    pub reasoning_output_tokens: i64,
}

/// The usage of a thread: its totals, its last request and the model's
/// context window.
#[derive(Debug, Clone, Copy)]
pub struct ThreadTokenUsage {
    pub total: TokenUsageBreakdown,
    pub last: TokenUsageBreakdown,
    pub model_context_window: Option<i64>,
}

/// A count that is never negative.
pub open spec fn clamped(n: i64) -> u64 {
    if n < 0 {
        0
    } else {
        n as u64
    }
}

fn clamp_count(n: i64) -> (r: u64)
    ensures
        r == clamped(n),
{
    if n < 0 {
        0
    } else {
        n as u64
    }
}

/// A reported usage as the session counts it, with the given context window.
pub open spec fn usage_of(b: TokenUsageBreakdown, window: u64) -> TokenUsage {
    TokenUsage {
        input_tokens: clamped(b.input_tokens),
        output_tokens: clamped(b.output_tokens),
        cached_tokens: clamped(b.cached_input_tokens),
        context_window: window,
    }
}

fn usage_from(b: &TokenUsageBreakdown, window: u64) -> (r: TokenUsage)
    ensures
        r == usage_of(*b, window),
{
    TokenUsage {
        input_tokens: clamp_count(b.input_tokens),
        output_tokens: clamp_count(b.output_tokens),
        cached_tokens: clamp_count(b.cached_input_tokens),
        context_window: window,
    }
}

/// The two outputs of a usage report: the last request's usage for the
/// live context, and the totals for accounting.
pub open spec fn usage_outputs(usage: ThreadTokenUsage, window: u64) -> Seq<ConnectorOutput> {
    seq![
        ConnectorOutput::State(
            ConnectorStateEvent::TokensUpdated {
                usage: usage_of(usage.last, window),
                snapshot_kind: TokenUsageSnapshotKind::ContextTurn,
            },
        ),
        ConnectorOutput::State(
            ConnectorStateEvent::TurnUsageUpdated {
                usage: usage_of(usage.total, window),
                snapshot_kind: TokenUsageSnapshotKind::LifetimeTotals,
            },
        ),
    ]
}

fn outputs_for_usage(usage: &ThreadTokenUsage, window: u64) -> (r: Vec<ConnectorOutput>)
    ensures
        r@ == usage_outputs(*usage, window),
{
    let live = usage_from(&usage.last, window);
    let accounting = usage_from(&usage.total, window);
    vec![
        state_output(
            ConnectorStateEvent::TokensUpdated {
                usage: live,
                snapshot_kind: TokenUsageSnapshotKind::ContextTurn,
            },
        ),
        state_output(
            ConnectorStateEvent::TurnUsageUpdated {
                usage: accounting,
                snapshot_kind: TokenUsageSnapshotKind::LifetimeTotals,
            },
        ),
    ]
}

/// The context window when the report names none: 200,000 tokens for the
/// runtime's own events.
pub const DEFAULT_CONTEXT_WINDOW: i64 = 200_000;

/// A token count of the runtime: live usage from the last request and
/// accounting from the totals, with the model's window (200,000 tokens when
/// unknown); nothing when the count carries no usage.
pub fn handle_token_count(info: Option<ThreadTokenUsage>) -> (r: Vec<ConnectorOutput>)
    ensures
        match info {
            Some(u) => r@ == usage_outputs(
                u,
                clamped(
                    match u.model_context_window {
                        Some(w) => w,
                        None => DEFAULT_CONTEXT_WINDOW,
                    },
                ),
            ),
            None => r@.len() == 0,
        },
{
    match info {
        Some(u) => {
            let w = match u.model_context_window {
                Some(w) => w,
                None => DEFAULT_CONTEXT_WINDOW,
            };
            outputs_for_usage(&u, clamp_count(w))
        },
        None => Vec::new(),
    }
}

/// A usage report of the app server: live usage from the last request and
/// accounting from the totals, with the model's window (0 when unknown).
pub fn map_token_usage(usage: ThreadTokenUsage) -> (r: Vec<ConnectorOutput>)
    ensures
        r@ == usage_outputs(
            usage,
            clamped(
                match usage.model_context_window {
                    Some(w) => w,
                    None => 0,
                },
            ),
        ),
{
    let w = match usage.model_context_window {
        Some(w) => w,
        None => 0,
    };
    outputs_for_usage(&usage, clamp_count(w))
}

// ---------------------------------------------------------------------------
// Messages and notices numbered by the counter
// ---------------------------------------------------------------------------

/// The notice a runtime warning adds: numbered after the event, titled
/// "Codex warning", with the text as summary and body.
pub open spec fn warning_notice(event_id: Seq<char>, seq: u64, message: Seq<char>) -> EntryView {
    bare_entry(
        RowView::Notice(
            NoticeRowView {
                id: numbered_id("warning-"@, event_id, seq),
                severity: NoticeRowSeverity::Warning,
                title: "Codex warning"@,
                summary: Some(message),
                body: Some(message),
            },
        ),
    )
}

/// The notice row of a runtime warning.
pub fn runtime_warning_notice_row(event_id: &str, seq: u64, message: String) -> (r: NoticeRow)
    ensures
        RowView::Notice(r@) == warning_notice(event_id@, seq, message@).row,
{
    let summary = message.clone();
    NoticeRow {
        id: numbered_row_id("warning-", event_id, seq),
        severity: NoticeRowSeverity::Warning,
        title: "Codex warning".to_string(),
        summary: Some(summary),
        body: Some(message),
    }
}

/// A runtime warning: noise is left out and takes no number; any other
/// warning takes the next number and adds its notice.
pub fn handle_warning(event_id: &str, message: String, counter: &mut u64) -> (r: Vec<ConnectorOutput>)
    ensures
        suppressed_warning(message@) ==> r@.len() == 0 && *final(counter) == *old(counter),
        !suppressed_warning(message@) ==> {
            &&& *final(counter) == bumped(*old(counter))
            &&& r@.len() == 1
            &&& adds_row(r@[0], warning_notice(event_id@, *old(counter), message@))
        },
{
    if is_suppressed_runtime_warning(message.as_str()) {
        return Vec::new();
    }
    let seq = next_seq(counter);
    let row = runtime_warning_notice_row(event_id, seq, message);
    vec![row_created_output(row_entry(ConversationRow::Notice(row)))]
}

/// A deprecation notice adds a system message: the summary, and the
/// details after a blank line when there are any.
pub fn handle_deprecation_notice(
    event_id: &str,
    summary: String,
    details: Option<String>,
    counter: &mut u64,
    now: &str,
) -> (r: Vec<ConnectorOutput>)
    ensures
        *final(counter) == bumped(*old(counter)),
        r@.len() == 1,
        adds_row(
            r@[0],
            bare_entry(
                RowView::System(
                    stamped_message(
                        numbered_id("deprecation-"@, event_id@, *old(counter)),
                        with_details(summary@, crate::text::opt_string_view(details)),
                        now@,
                        false,
                    ),
                ),
            ),
        ),
{
    let seq = next_seq(counter);
    let content = text_with_details(summary, details);
    let id = numbered_row_id("deprecation-", event_id, seq);
    let row = stamped_message_row(id, content, now, false);
    vec![row_created_output(row_entry(ConversationRow::System(row)))]
}

/// A background event adds an assistant message with its text.
pub fn handle_background_event(event_id: &str, message: String, counter: &mut u64, now: &str) -> (r:
    Vec<ConnectorOutput>)
    ensures
        *final(counter) == bumped(*old(counter)),
        r@.len() == 1,
        adds_row(
            r@[0],
            bare_entry(
                RowView::Assistant(
                    stamped_message(
                        numbered_id("background-event-"@, event_id@, *old(counter)),
                        message@,
                        now@,
                        false,
                    ),
                ),
            ),
        ),
{
    let seq = next_seq(counter);
    let id = numbered_row_id("background-event-", event_id, seq);
    let row = stamped_message_row(id, message, now, false);
    vec![row_created_output(row_entry(ConversationRow::Assistant(row)))]
}

/// Why a stream failed, as far as the connector tells failures apart: a
/// response stream that disconnected (and is retried), or another cause.
#[derive(Debug, Clone, PartialEq, Eq)]
pub enum CodexErrorInfo {
    ResponseStreamDisconnected { http_status_code: Option<u16> },
    Other,
}

/// An error of the response stream.
#[derive(Debug, Clone)]
pub struct StreamErrorEvent {
    pub message: String,
    pub codex_error_info: Option<CodexErrorInfo>,
    pub additional_details: Option<String>,
}

/// Whether a stream error shows on the timeline: not when the response
/// stream disconnected, which the runtime retries.
pub open spec fn surfaces(event: StreamErrorEvent) -> bool {
    !(event.codex_error_info matches Some(CodexErrorInfo::ResponseStreamDisconnected { .. }))
}

/// Whether a stream error shows on the timeline.
pub fn stream_error_should_surface_to_timeline(event: &StreamErrorEvent) -> (r: bool)
    ensures
        r == surfaces(*event),
{
    match &event.codex_error_info {
        Some(CodexErrorInfo::ResponseStreamDisconnected { .. }) => false,
        _ => true,
    }
}

/// A stream error that shows adds a system message with its text and
/// details; a retried disconnect adds nothing and takes no number.
pub fn handle_stream_error(event_id: &str, event: StreamErrorEvent, counter: &mut u64, now: &str) -> (r:
    Vec<ConnectorOutput>)
    ensures
        !surfaces(event) ==> r@.len() == 0 && *final(counter) == *old(counter),
        surfaces(event) ==> {
            &&& *final(counter) == bumped(*old(counter))
            &&& r@.len() == 1
            &&& adds_row(
                r@[0],
                bare_entry(
                    RowView::System(
                        stamped_message(
                            numbered_id("stream-error-"@, event_id@, *old(counter)),
                            with_details(
                                event.message@,
                                crate::text::opt_string_view(event.additional_details),
                            ),
                            now@,
                            false,
                        ),
                    ),
                ),
            )
        },
{
    if !stream_error_should_surface_to_timeline(&event) {
        return Vec::new();
    }
    let content = text_with_details(event.message, event.additional_details);
    let seq = next_seq(counter);
    let id = numbered_row_id("stream-error-", event_id, seq);
    let row = stamped_message_row(id, content, now, false);
    vec![row_created_output(row_entry(ConversationRow::System(row)))]
}

/// The text of a model reroute.
pub open spec fn reroute_text(from_model: Seq<char>, to_model: Seq<char>, reason: Seq<char>) -> Seq<char> {
    "Model rerouted from "@ + from_model + " to "@ + to_model + " ("@ + reason + ")"@
}

/// A model reroute: the session's model becomes the new one, and an
/// assistant message tells from which model to which and why (`reason` is
/// the name of the runtime's reason).
pub fn handle_model_reroute(
    event_id: &str,
    from_model: &str,
    to_model: &str,
    reason: &str,
    current_model: &mut Option<String>,
    counter: &mut u64,
    now: &str,
) -> (r: Vec<ConnectorOutput>)
    ensures
        crate::text::opt_string_view(*final(current_model)) == Some(to_model@),
        *final(counter) == bumped(*old(counter)),
        r@.len() == 1,
        adds_row(
            r@[0],
            bare_entry(
                RowView::Assistant(
                    stamped_message(
                        numbered_id("model-reroute-"@, event_id@, *old(counter)),
                        reroute_text(from_model@, to_model@, reason@),
                        now@,
                        false,
                    ),
                ),
            ),
        ),
{
    *current_model = Some(to_model.to_string());
    let seq = next_seq(counter);
    let id = numbered_row_id("model-reroute-", event_id, seq);
    let a = concat3("Model rerouted from ", from_model, " to ");
    let b = concat3(a.as_str(), to_model, " (");
    let content = concat3(b.as_str(), reason, ")");
    let row = stamped_message_row(id, content, now, false);
    vec![row_created_output(row_entry(ConversationRow::Assistant(row)))]
}

// ---------------------------------------------------------------------------
// Streamed thinking text
// ---------------------------------------------------------------------------

/// Pairs of texts as values.
pub open spec fn text_pairs(v: Seq<(String, String)>) -> Seq<(Seq<char>, Seq<char>)> {
    v.map_values(|p: (String, String)| (p.0@, p.1@))
}

proof fn lemma_text_pairs(v: Seq<(String, String)>)
    ensures
        first_wins(keyed_pairs(v)).map_values(|s: String| s@) =~= first_wins(text_pairs(v)),
    decreases v.len(),
{
    if v.len() > 0 {
        let d = v.drop_last();
        lemma_text_pairs(d);
        assert(keyed_pairs(v).drop_last() =~= keyed_pairs(d));
        assert(text_pairs(v).drop_last() =~= text_pairs(d));
        assert(keyed_pairs(v).last() == (v.last().0@, v.last().1));
        assert(text_pairs(v).last() == (v.last().0@, v.last().1@));
    } else {
        assert(keyed_pairs(v) =~= Seq::<(Seq<char>, String)>::empty());
        assert(text_pairs(v) =~= Seq::<(Seq<char>, Seq<char>)>::empty());
    }
}

/// The texts streamed so far, by message id.
pub struct DeltaBuffers {
    texts: TextMap<String>,
}

impl View for DeltaBuffers {
    type V = Map<Seq<char>, Seq<char>>;

    closed spec fn view(&self) -> Map<Seq<char>, Seq<char>> {
        self.texts@.map_values(|s: String| s@)
    }
}

impl DeltaBuffers {
    /// No text streamed yet.
    pub fn new() -> (r: Self)
        ensures
            r@ == Map::<Seq<char>, Seq<char>>::empty(),
    {
        let r = DeltaBuffers { texts: TextMap::new() };
        assert(r@ =~= Map::<Seq<char>, Seq<char>>::empty());
        r
    }

    /// The text streamed for `id`, dropped from the buffers.
    pub fn take(&mut self, id: &str) -> (r: Option<String>)
        ensures
            final(self)@ == old(self)@.remove(id@),
            match r {
                Some(t) => old(self)@.contains_key(id@) && t@ == old(self)@[id@],
                None => !old(self)@.contains_key(id@),
            },
    {
        let ghost before = self.texts@;
        let r = self.texts.take(id);
        assert(self@ =~= before.map_values(|s: String| s@).remove(id@));
        r
    }

    /// Empties the buffers and hands back each text with its id, each id
    /// once.
    pub fn drain(&mut self) -> (r: Vec<(String, String)>)
        ensures
            final(self)@ == Map::<Seq<char>, Seq<char>>::empty(),
            distinct_keys(text_pairs(r@)),
            first_wins(text_pairs(r@)) == old(self)@,
    {
        let ghost before = self.texts@;
        let r = self.texts.drain();
        proof {
            lemma_text_pairs(r@);
            assert(self@ =~= Map::<Seq<char>, Seq<char>>::empty());
            assert forall|a: int, b: int|
                0 <= a < b < text_pairs(r@).len() implies (#[trigger] text_pairs(r@)[a]).0 != (
                #[trigger] text_pairs(r@)[b]).0 by {
                assert(keyed_pairs(r@)[a].0 == text_pairs(r@)[a].0);
                assert(keyed_pairs(r@)[b].0 == text_pairs(r@)[b].0);
            }
        }
        r
    }

    /// Drops the text streamed for `id`.
    pub fn remove(&mut self, id: &str)
        ensures
            final(self)@ == old(self)@.remove(id@),
    {
        let _ = self.take(id);
    }

    /// Adds `delta` to the text buffered for `id`, which starts empty.
    pub fn append(&mut self, id: String, delta: &str)
        ensures
            final(self)@ == old(self)@.insert(
                id@,
                if old(self)@.contains_key(id@) {
                    old(self)@[id@] + delta@
                } else {
                    delta@
                },
            ),
    {
        let _ = self.extend(&id, delta);
    }

    /// The text streamed for `id`, with `delta` added; the buffered text
    /// becomes the result.
    fn extend(&mut self, id: &String, delta: &str) -> (r: (bool, String))
        ensures
            r.0 == old(self)@.contains_key(id@),
            r.1@ == (if r.0 {
                old(self)@[id@] + delta@
            } else {
                delta@
            }),
            final(self)@ == old(self)@.insert(id@, r.1@),
    {
        let ghost before = self.texts@;
        let existing = match self.texts.get(id.as_str()) {
            Some(t) => Some(crate::text::copy_string(t)),
            None => None,
        };
        let had = existing.is_some();
        let text = match existing {
            Some(mut t) => {
                t.append(delta);
                t
            },
            None => delta.to_string(),
        };
        let content = crate::text::copy_string(&text);
        let ghost tv = text;
        self.texts.insert(crate::text::copy_string(id), text);
        assert(self@ =~= before.map_values(|s: String| s@).insert(id@, tv@));
        (had, content)
    }
}

/// Adds a streamed piece of thinking text: the first piece of a message
/// adds its row, a later one replaces the row with all the text so far.
pub fn apply_delta_thinking(buffers: &mut DeltaBuffers, message_id: String, delta: String, now: &str) -> (r:
    Vec<ConnectorOutput>)
    ensures
        r@.len() == 1,
        old(buffers)@.contains_key(message_id@) ==> {
            let text = old(buffers)@[message_id@] + delta@;
            &&& final(buffers)@ == old(buffers)@.insert(message_id@, text)
            &&& replaces_row(r@[0], message_id@, thinking_entry(message_id@, text, now@))
        },
        !old(buffers)@.contains_key(message_id@) ==> {
            &&& final(buffers)@ == old(buffers)@.insert(message_id@, delta@)
            &&& adds_row(r@[0], thinking_entry(message_id@, delta@, now@))
        },
{
    let (existed, content) = buffers.extend(&message_id, delta.as_str());
    if existed {
        let entry = thinking_row_entry(crate::text::copy_string(&message_id), content, now);
        vec![row_updated_output(message_id, entry)]
    } else {
        let entry = thinking_row_entry(message_id, content, now);
        vec![row_created_output(entry)]
    }
}

/// A streamed piece of a plan: thinking text of the message
/// `plan-<item id>`.
pub fn handle_plan_delta(buffers: &mut DeltaBuffers, item_id: &str, delta: String, now: &str) -> (r: Vec<
    ConnectorOutput,
>)
    ensures
        ({
            let id = "plan-"@ + item_id@;
            &&& r@.len() == 1
            &&& old(buffers)@.contains_key(id) ==> {
                let text = old(buffers)@[id] + delta@;
                &&& final(buffers)@ == old(buffers)@.insert(id, text)
                &&& replaces_row(r@[0], id, thinking_entry(id, text, now@))
            }
            &&& !old(buffers)@.contains_key(id) ==> {
                &&& final(buffers)@ == old(buffers)@.insert(id, delta@)
                &&& adds_row(r@[0], thinking_entry(id, delta@, now@))
            }
        }),
{
    apply_delta_thinking(buffers, concat_str("plan-", item_id), delta, now)
}

} // verus!
