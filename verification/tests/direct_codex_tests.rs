use orbitdock_connector::codex::items::FileChange;
use orbitdock_connector::connectors::{ApprovalType, ConnectorEvent, MessageType};
use orbitdock_connector::direct_codex::{CodexEventMsg, EventTranslator, TokenCountInfo};

const NOW: &str = "2024-01-01T00:00:00Z";

fn created(events: &[ConnectorEvent]) -> &orbitdock_connector::connectors::Message {
    assert_eq!(events.len(), 1);
    match &events[0] {
        ConnectorEvent::MessageCreated(m) => m,
        other => panic!("expected a created message, got {:?}", other),
    }
}

fn updated(events: &[ConnectorEvent]) -> (String, Option<String>, Option<String>, Option<bool>, Option<u64>) {
    assert_eq!(events.len(), 1);
    match &events[0] {
        ConnectorEvent::MessageUpdated { message_id, content, tool_output, is_error, duration_ms } => {
            (message_id.clone(), content.clone(), tool_output.clone(), *is_error, *duration_ms)
        }
        other => panic!("expected an update, got {:?}", other),
    }
}

#[test]
fn user_messages_and_reasoning_share_the_counter() {
    let mut t = EventTranslator::new();
    let a = t.translate("e1".to_string(), CodexEventMsg::UserMessage { message: "hi".to_string() }, NOW, 0);
    let m = created(&a);
    assert_eq!(m.id, "user-e1-0");
    assert_eq!(m.message_type, MessageType::User);
    assert_eq!(m.content, "hi");
    assert_eq!(m.timestamp, NOW);
    assert!(m.session_id.is_empty());
    let b = t.translate("e2".to_string(), CodexEventMsg::AgentReasoning { text: "hmm".to_string() }, NOW, 0);
    let m = created(&b);
    assert_eq!(m.id, "thinking-e2-1");
    assert_eq!(m.message_type, MessageType::Thinking);
}

#[test]
fn command_output_is_buffered_until_the_command_ends() {
    let mut t = EventTranslator::new();
    let begin = t.translate(
        "e".to_string(),
        CodexEventMsg::ExecCommandBegin {
            call_id: "c1".to_string(),
            command: vec!["ls".to_string(), "-la".to_string()],
        },
        NOW,
        0,
    );
    let m = created(&begin);
    assert_eq!(m.id, "c1");
    assert_eq!(m.message_type, MessageType::Tool);
    assert_eq!(m.content, "ls -la");
    assert_eq!(m.tool_name.as_deref(), Some("Bash"));
    assert_eq!(m.tool_input.as_deref(), Some("{\"command\":\"ls -la\"}"));
    let delta = t.translate(
        "e".to_string(),
        CodexEventMsg::ExecCommandOutputDelta { call_id: "c1".to_string(), chunk: b"total 0\n".to_vec() },
        NOW,
        0,
    );
    assert!(delta.is_empty());
    let end = t.translate(
        "e".to_string(),
        CodexEventMsg::ExecCommandEnd {
            call_id: "c1".to_string(),
            aggregated_output: "ignored".to_string(),
            exit_code: 2,
            duration_ms: 15,
        },
        NOW,
        0,
    );
    assert_eq!(
        updated(&end),
        ("c1".to_string(), None, Some("total 0\n".to_string()), Some(true), Some(15))
    );
}

#[test]
fn command_end_falls_back_to_aggregated_output() {
    let mut t = EventTranslator::new();
    let end = t.translate(
        "e".to_string(),
        CodexEventMsg::ExecCommandEnd {
            call_id: "c9".to_string(),
            aggregated_output: "done".to_string(),
            exit_code: 0,
            duration_ms: 3,
        },
        NOW,
        0,
    );
    assert_eq!(updated(&end), ("c9".to_string(), None, Some("done".to_string()), Some(false), Some(3)));

    t.translate(
        "e".to_string(),
        CodexEventMsg::ExecCommandBegin { call_id: "c2".to_string(), command: vec!["true".to_string()] },
        NOW,
        0,
    );
    let end = t.translate(
        "e".to_string(),
        CodexEventMsg::ExecCommandEnd {
            call_id: "c2".to_string(),
            aggregated_output: "from runtime".to_string(),
            exit_code: 0,
            duration_ms: 1,
        },
        NOW,
        0,
    );
    assert_eq!(updated(&end).2, Some("from runtime".to_string()));
}

#[test]
fn output_for_an_unknown_command_is_dropped() {
    let mut t = EventTranslator::new();
    let delta = t.translate(
        "e".to_string(),
        CodexEventMsg::ExecCommandOutputDelta { call_id: "nope".to_string(), chunk: b"x".to_vec() },
        NOW,
        0,
    );
    assert!(delta.is_empty());
    let end = t.translate(
        "e".to_string(),
        CodexEventMsg::ExecCommandEnd {
            call_id: "nope".to_string(),
            aggregated_output: "agg".to_string(),
            exit_code: 0,
            duration_ms: 0,
        },
        NOW,
        0,
    );
    assert_eq!(updated(&end).2, Some("agg".to_string()));
}

fn changes() -> Vec<(String, FileChange)> {
    vec![
        ("a.txt".to_string(), FileChange::Add { content: "one\ntwo".to_string() }),
        (
            "b.rs".to_string(),
            FileChange::Update { unified_diff: "@@ -1 +1 @@\n-x\n+y".to_string(), move_path: None },
        ),
    ]
}

const DIFF: &str = "--- /dev/null\n+++ a.txt\n+one\n+two\n\n--- b.rs\n+++ b.rs\n@@ -1 +1 @@\n-x\n+y";

#[test]
fn patch_begin_creates_an_edit_message() {
    let mut t = EventTranslator::new();
    let events = t.translate(
        "e".to_string(),
        CodexEventMsg::PatchApplyBegin { call_id: "p1".to_string(), changes: changes() },
        NOW,
        0,
    );
    let m = created(&events);
    assert_eq!(m.content, "a.txt, b.rs");
    assert_eq!(m.tool_name.as_deref(), Some("Edit"));
    let input: serde_json::Value = serde_json::from_str(m.tool_input.as_deref().unwrap()).unwrap();
    assert_eq!(input["file_path"], "a.txt");
    assert_eq!(input["unified_diff"], DIFF);
}

#[test]
fn patch_begin_without_files_names_no_file() {
    let mut t = EventTranslator::new();
    let events = t.translate(
        "e".to_string(),
        CodexEventMsg::PatchApplyBegin { call_id: "p0".to_string(), changes: vec![] },
        NOW,
        0,
    );
    let m = created(&events);
    assert_eq!(m.content, "");
    assert_eq!(m.tool_input.as_deref(), Some("{\"file_path\":\"\",\"unified_diff\":\"\"}"));
}

#[test]
fn patch_end_reports_success_or_failure() {
    let mut t = EventTranslator::new();
    let ok = t.translate(
        "e".to_string(),
        CodexEventMsg::PatchApplyEnd { call_id: "p1".to_string(), success: true, stderr: String::new() },
        NOW,
        0,
    );
    assert_eq!(updated(&ok), ("p1".to_string(), None, Some("Applied successfully".to_string()), Some(false), None));
    let bad = t.translate(
        "e".to_string(),
        CodexEventMsg::PatchApplyEnd { call_id: "p1".to_string(), success: false, stderr: "conflict".to_string() },
        NOW,
        0,
    );
    assert_eq!(updated(&bad).2, Some("Failed: conflict".to_string()));
    assert_eq!(updated(&bad).3, Some(true));
}

#[test]
fn mcp_calls_name_server_and_tool() {
    let mut t = EventTranslator::new();
    let begin = t.translate(
        "e".to_string(),
        CodexEventMsg::McpToolCallBegin {
            call_id: "m1".to_string(),
            server: "docs".to_string(),
            tool: "search".to_string(),
            arguments: Some("{\"q\":\"x\"}".to_string()),
        },
        NOW,
        0,
    );
    let m = created(&begin);
    assert_eq!(m.content, "search");
    assert_eq!(m.tool_name.as_deref(), Some("docs:search"));
    assert_eq!(m.tool_input.as_deref(), Some("{\"q\":\"x\"}"));
    let end = t.translate(
        "e".to_string(),
        CodexEventMsg::McpToolCallEnd { call_id: "m1".to_string(), result: Err("boom".to_string()), duration_ms: 9 },
        NOW,
        0,
    );
    assert_eq!(updated(&end), ("m1".to_string(), None, Some("boom".to_string()), Some(true), Some(9)));
}

#[test]
fn approvals_use_the_right_ids() {
    let mut t = EventTranslator::new();
    let exec = t.translate(
        "sub-1".to_string(),
        CodexEventMsg::ExecApprovalRequest {
            command: vec!["rm".to_string(), "-rf".to_string(), "x".to_string()],
            cwd: "/work".to_string(),
        },
        NOW,
        0,
    );
    match &exec[0] {
        ConnectorEvent::ApprovalRequested { request_id, approval_type, command, file_path, diff, question } => {
            assert_eq!(request_id, "sub-1");
            assert_eq!(*approval_type, ApprovalType::Exec);
            assert_eq!(command.as_deref(), Some("rm -rf x"));
            assert_eq!(file_path.as_deref(), Some("/work"));
            assert!(diff.is_none() && question.is_none());
        }
        other => panic!("unexpected {:?}", other),
    }
    let patch = t.translate("sub-2".to_string(), CodexEventMsg::ApplyPatchApprovalRequest { changes: changes() }, NOW, 0);
    match &patch[0] {
        ConnectorEvent::ApprovalRequested { request_id, approval_type, file_path, diff, .. } => {
            assert_eq!(request_id, "sub-2");
            assert_eq!(*approval_type, ApprovalType::Patch);
            assert_eq!(file_path.as_deref(), Some("a.txt"));
            assert_eq!(diff.as_deref(), Some(DIFF));
        }
        other => panic!("unexpected {:?}", other),
    }
    let question = t.translate(
        "sub-3".to_string(),
        CodexEventMsg::RequestUserInput {
            call_id: "q1".to_string(),
            questions: vec!["Which one?".to_string(), "Why?".to_string()],
        },
        NOW,
        0,
    );
    match &question[0] {
        ConnectorEvent::ApprovalRequested { request_id, approval_type, question, .. } => {
            assert_eq!(request_id, "q1");
            assert_eq!(*approval_type, ApprovalType::Question);
            assert_eq!(question.as_deref(), Some("Which one?"));
        }
        other => panic!("unexpected {:?}", other),
    }
}

#[test]
fn token_counts_clamp_negatives_and_default_the_window() {
    let mut t = EventTranslator::new();
    let events = t.translate(
        "e".to_string(),
        CodexEventMsg::TokenCount {
            info: Some(TokenCountInfo {
                input_tokens: 120,
                output_tokens: -5,
                cached_input_tokens: 30,
                model_context_window: None,
            }),
        },
        NOW,
        0,
    );
    match &events[0] {
        ConnectorEvent::TokensUpdated(u) => {
            assert_eq!((u.input_tokens, u.output_tokens, u.cached_tokens, u.context_window), (120, 0, 30, 200_000));
        }
        other => panic!("unexpected {:?}", other),
    }
    assert!(t.translate("e".to_string(), CodexEventMsg::TokenCount { info: None }, NOW, 0).is_empty());
}

#[test]
fn streamed_text_is_throttled_and_finished_by_the_full_message() {
    let mut t = EventTranslator::new();
    let first = t.translate(
        "e".to_string(),
        CodexEventMsg::AgentMessageContentDelta { item_id: "item-1".to_string(), delta: "Hel".to_string() },
        NOW,
        1000,
    );
    let m = created(&first);
    assert_eq!((m.id.as_str(), m.content.as_str()), ("item-1", "Hel"));
    assert_eq!(m.message_type, MessageType::Assistant);
    let quiet = t.translate(
        "e".to_string(),
        CodexEventMsg::AgentMessageContentDelta { item_id: "item-1".to_string(), delta: "lo".to_string() },
        NOW,
        1020,
    );
    assert!(quiet.is_empty());
    let legacy = t.translate("e".to_string(), CodexEventMsg::AgentMessageDelta { delta: "lo".to_string() }, NOW, 2000);
    assert!(legacy.is_empty());
    let sent = t.translate(
        "e".to_string(),
        CodexEventMsg::AgentMessageContentDelta { item_id: "item-1".to_string(), delta: " world".to_string() },
        NOW,
        1050,
    );
    assert_eq!(updated(&sent), ("item-1".to_string(), Some("Hello world".to_string()), None, None, None));
    let done = t.translate("e".to_string(), CodexEventMsg::AgentMessage { message: "Hello world!".to_string() }, NOW, 1060);
    assert_eq!(updated(&done), ("item-1".to_string(), Some("Hello world!".to_string()), None, None, None));
    let fresh = t.translate("e7".to_string(), CodexEventMsg::AgentMessage { message: "Again".to_string() }, NOW, 1070);
    let m = created(&fresh);
    assert_eq!((m.id.as_str(), m.content.as_str()), ("e7", "Again"));
}

#[test]
fn older_deltas_stream_under_the_event_id() {
    let mut t = EventTranslator::new();
    let first = t.translate("ev".to_string(), CodexEventMsg::AgentMessageDelta { delta: "a".to_string() }, NOW, 0);
    assert_eq!(created(&first).id, "ev");
    let later = t.translate("ev".to_string(), CodexEventMsg::AgentMessageDelta { delta: "b".to_string() }, NOW, 50);
    assert_eq!(updated(&later), ("ev".to_string(), Some("ab".to_string()), None, None, None));
}

#[test]
fn lifecycle_events_map_one_for_one() {
    let mut t = EventTranslator::new();
    assert!(matches!(t.translate("e".to_string(), CodexEventMsg::TurnStarted, NOW, 0)[0], ConnectorEvent::TurnStarted));
    assert!(matches!(t.translate("e".to_string(), CodexEventMsg::TurnComplete, NOW, 0)[0], ConnectorEvent::TurnCompleted));
    match &t.translate("e".to_string(), CodexEventMsg::ShutdownComplete, NOW, 0)[0] {
        ConnectorEvent::SessionEnded { reason } => assert_eq!(reason, "shutdown"),
        other => panic!("unexpected {:?}", other),
    }
    match &t.translate("e".to_string(), CodexEventMsg::TurnAborted { reason: "Interrupted".to_string() }, NOW, 0)[0] {
        ConnectorEvent::TurnAborted { reason } => assert_eq!(reason, "Interrupted"),
        other => panic!("unexpected {:?}", other),
    }
    assert!(t.translate("e".to_string(), CodexEventMsg::Other, NOW, 0).is_empty());
}
