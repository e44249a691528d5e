use orbitdock_connector::approval::preview::{preview_from_fields, read_preview_fields, ApprovalPreviewInput};
use orbitdock_connector::approval::questions::flag_of_node;
use orbitdock_connector::approval::risk::assess_normalized_command;
use orbitdock_connector::approval::ApprovalPreviewType;
use orbitdock_connector::json::JsonNode;
use orbitdock_connector::json::{json_object_text, json_quote};
use orbitdock_connector::approval::preview::compact_truncate;
use orbitdock_connector::approval::risk::assess_approval_risk;
use orbitdock_connector::approval::shell::shell_segments_for_preview;
use orbitdock_connector::approval::{ApprovalRiskLevel, ApprovalType};
use orbitdock_connector::codex::buffers::trim_front_to_char_limit;
use orbitdock_connector::codex::format::{
    collab_agent_worker_summary, duration_millis, merge_instruction_text, prefixed_lines,
};
use orbitdock_connector::codex::items::{
    command_execution_tool_status, file_change_invocation, file_change_tool_status,
    file_change_unified_diff, file_update_change_unified_diff, guardian_review_status,
    guardian_review_status_label, CommandExecutionStatus, FileChange, FileUpdateChange,
    GuardianApprovalReviewStatus, PatchApplyStatus, PatchChangeKind,
};
use orbitdock_connector::codex::policy::parse_bool_value;
use orbitdock_connector::codex::sandbox::{
    parse_approval_policy, parse_sandbox_policy, AskForApproval, GranularApprovalConfig,
    NetworkAccess, SandboxPolicy,
};
use orbitdock_connector::codex::signals::{
    apply_delta_thinking, handle_background_event, handle_deprecation_notice, handle_model_reroute,
    handle_plan_delta, handle_stream_error, handle_thread_name_updated, handle_token_count,
    handle_warning, CodexErrorInfo, DeltaBuffers, StreamErrorEvent, ThreadTokenUsage,
    TokenUsageBreakdown,
};
use orbitdock_connector::codex::warnings::{runtime_warning_notice_id, stable_hash};
use orbitdock_connector::codex::workers::iso_from_epoch_secs;
use orbitdock_connector::transition::connector::{ConnectorOutput, ConnectorStateEvent};
use orbitdock_connector::transition::model::{
    ConversationRow, NoticeRowSeverity, Provider, SubagentInfo, SubagentStatus,
    TokenUsageSnapshotKind, ToolStatus,
};
use orbitdock_connector::transition::subagents::merge_subagent_updates;

fn created_row(output: &ConnectorOutput) -> &ConversationRow {
    match output {
        ConnectorOutput::State(ConnectorStateEvent::ConversationRowCreated(entry)) => &entry.row,
        other => panic!("expected a created row, got {other:?}"),
    }
}

fn subagent(id: &str, started_at: &str, label: &str) -> SubagentInfo {
    SubagentInfo {
        id: id.to_string(),
        agent_type: "explore".to_string(),
        started_at: started_at.to_string(),
        ended_at: None,
        provider: Some(Provider::Codex),
        label: Some(label.to_string()),
        status: SubagentStatus::Running,
        task_summary: None,
        result_summary: None,
        error_summary: None,
        parent_subagent_id: None,
        model: None,
        last_activity_at: None,
    }
}

fn breakdown(input: i64, cached: i64, output: i64) -> TokenUsageBreakdown {
    TokenUsageBreakdown {
        total_tokens: input + output,
        input_tokens: input,
        cached_input_tokens: cached,
        output_tokens: output,
        reasoning_output_tokens: 0,
    }
}

#[test]
fn shell_segments_are_trimmed_and_joined_by_operators() {
    let segments = shell_segments_for_preview("  ls -la && echo 'a;b' | wc -l ;; git status  ");
    let shown: Vec<(String, Option<String>)> = segments
        .into_iter()
        .map(|s| (s.command, s.leading_operator))
        .collect();
    assert_eq!(
        shown,
        vec![
            ("ls -la".to_string(), None),
            ("echo 'a;b'".to_string(), Some("&&".to_string())),
            ("wc -l".to_string(), Some("|".to_string())),
            ("git status".to_string(), Some(";".to_string())),
        ]
    );
}

#[test]
fn shell_segments_of_blank_command_are_empty() {
    assert!(shell_segments_for_preview("  ;\n ").is_empty());
}

#[test]
fn merged_instructions_are_not_repeated() {
    let once = merge_instruction_text("  Be brief. ", " Use tools. ");
    assert_eq!(once, "Be brief.\n\nUse tools.");
    let twice = merge_instruction_text(&once, " Use tools. ");
    assert_eq!(twice, once);
    assert_eq!(merge_instruction_text("   ", " Use tools. "), "Use tools.");
}

#[test]
fn risk_is_high_exactly_with_findings_and_findings_are_distinct() {
    let risky = assess_approval_risk(ApprovalType::Exec, Some("git push --force && git push -f"));
    assert_eq!(risky.level, ApprovalRiskLevel::High);
    assert_eq!(risky.findings, vec!["Force-pushes git history.".to_string()]);

    let plain = assess_approval_risk(ApprovalType::Exec, Some("ls -la"));
    assert_eq!(plain.level, ApprovalRiskLevel::Normal);
    assert!(plain.findings.is_empty());

    let question = assess_approval_risk(ApprovalType::Question, Some("sudo rm -rf /"));
    assert_eq!(question.level, ApprovalRiskLevel::Low);
    assert!(question.findings.is_empty());

    let upper = assess_approval_risk(ApprovalType::Exec, Some("SUDO make install"));
    assert_eq!(upper.level, ApprovalRiskLevel::High);
    assert_eq!(upper.findings, vec!["Uses elevated privileges via sudo.".to_string()]);
}

#[test]
fn truncation_fits_the_limit() {
    assert_eq!(compact_truncate("abcdefghij".to_string(), 5), "ab...");
    assert_eq!(compact_truncate("abcdefghij".to_string(), 2), "ab");
    assert_eq!(compact_truncate("abc".to_string(), 0), "");
    assert_eq!(compact_truncate("abc".to_string(), 10), "abc");
}

#[test]
fn merged_subagents_are_upserted_and_sorted_by_start() {
    let existing = vec![
        subagent("b", "2024-01-02T00:00:00Z", "second"),
        subagent("a", "2024-01-01T00:00:00Z", "first"),
    ];
    let incoming = vec![
        subagent("c", "2024-01-01T12:00:00Z", "third"),
        subagent("b", "2024-01-02T00:00:00Z", "second, renamed"),
        subagent("b", "2024-01-02T00:00:00Z", "second, final"),
    ];
    let merged = merge_subagent_updates(&existing, incoming);
    let ids: Vec<&str> = merged.iter().map(|s| s.id.as_str()).collect();
    assert_eq!(ids, vec!["a", "c", "b"]);
    assert_eq!(merged[2].label.as_deref(), Some("second, final"));
}

#[test]
fn preview_tail_cuts_between_characters() {
    let mut value = "h\u{e9}llo".to_string();
    trim_front_to_char_limit(&mut value, 4);
    assert_eq!(value, "llo");

    let mut fits = "h\u{e9}llo".to_string();
    trim_front_to_char_limit(&mut fits, 6);
    assert_eq!(fits, "h\u{e9}llo");

    let mut none = "abc".to_string();
    trim_front_to_char_limit(&mut none, 0);
    assert_eq!(none, "");
}

#[test]
fn streamed_thinking_creates_then_replaces_its_row() {
    let mut buffers = DeltaBuffers::new();
    let first = apply_delta_thinking(&mut buffers, "think-1".to_string(), "Hel".to_string(), "T1");
    match created_row(&first[0]) {
        ConversationRow::Thinking(row) => {
            assert_eq!(row.id, "think-1");
            assert_eq!(row.content, "Hel");
            assert!(row.is_streaming);
            assert_eq!(row.timestamp.as_deref(), Some("T1"));
        }
        other => panic!("expected thinking row, got {other:?}"),
    }
    let second = apply_delta_thinking(&mut buffers, "think-1".to_string(), "lo".to_string(), "T2");
    match &second[0] {
        ConnectorOutput::State(ConnectorStateEvent::ConversationRowUpdated { row_id, entry }) => {
            assert_eq!(row_id, "think-1");
            match &entry.row {
                ConversationRow::Thinking(row) => assert_eq!(row.content, "Hello"),
                other => panic!("expected thinking row, got {other:?}"),
            }
        }
        other => panic!("expected an updated row, got {other:?}"),
    }
    let other = handle_plan_delta(&mut buffers, "item-9", "Step".to_string(), "T3");
    match created_row(&other[0]) {
        ConversationRow::Thinking(row) => assert_eq!(row.id, "plan-item-9"),
        other => panic!("expected thinking row, got {other:?}"),
    }
}

#[test]
fn warnings_are_numbered_and_noise_takes_no_number() {
    let mut counter = 7u64;
    let noise = handle_warning(
        "evt",
        "Falling back from WebSockets to HTTPS transport. retrying".to_string(),
        &mut counter,
    );
    assert!(noise.is_empty());
    assert_eq!(counter, 7);

    let shown = handle_warning("evt", "disk almost full".to_string(), &mut counter);
    assert_eq!(counter, 8);
    match created_row(&shown[0]) {
        ConversationRow::Notice(notice) => {
            assert_eq!(notice.id, "warning-evt-7");
            assert_eq!(notice.title, "Codex warning");
            assert_eq!(notice.severity, NoticeRowSeverity::Warning);
            assert_eq!(notice.summary.as_deref(), Some("disk almost full"));
            assert_eq!(notice.body.as_deref(), Some("disk almost full"));
        }
        other => panic!("expected notice row, got {other:?}"),
    }
}

#[test]
fn counter_wraps_like_an_atomic_counter() {
    let mut counter = u64::MAX;
    let out = handle_background_event("evt", "working".to_string(), &mut counter, "T");
    assert_eq!(counter, 0);
    match created_row(&out[0]) {
        ConversationRow::Assistant(row) => {
            assert_eq!(row.id, format!("background-event-evt-{}", u64::MAX));
            assert_eq!(row.content, "working");
        }
        other => panic!("expected assistant row, got {other:?}"),
    }
}

#[test]
fn stream_errors_carry_their_details() {
    let mut counter = 5u64;
    let out = handle_stream_error(
        "e",
        StreamErrorEvent {
            message: "stream failed".to_string(),
            codex_error_info: Some(CodexErrorInfo::Other),
            additional_details: Some("timeout".to_string()),
        },
        &mut counter,
        "T",
    );
    assert_eq!(counter, 6);
    match created_row(&out[0]) {
        ConversationRow::System(row) => {
            assert_eq!(row.id, "stream-error-e-5");
            assert_eq!(row.content, "stream failed\n\ntimeout");
        }
        other => panic!("expected system row, got {other:?}"),
    }

    let retried = handle_stream_error(
        "e",
        StreamErrorEvent {
            message: "Reconnecting".to_string(),
            codex_error_info: Some(CodexErrorInfo::ResponseStreamDisconnected {
                http_status_code: Some(502),
            }),
            additional_details: None,
        },
        &mut counter,
        "T",
    );
    assert!(retried.is_empty());
    assert_eq!(counter, 6);
}

#[test]
fn deprecation_notice_without_details_is_its_summary() {
    let mut counter = 0u64;
    let out = handle_deprecation_notice("d", "Old flag".to_string(), Some(String::new()), &mut counter, "T");
    match created_row(&out[0]) {
        ConversationRow::System(row) => {
            assert_eq!(row.id, "deprecation-d-0");
            assert_eq!(row.content, "Old flag");
        }
        other => panic!("expected system row, got {other:?}"),
    }
}

#[test]
fn model_reroute_switches_the_model() {
    let mut counter = 2u64;
    let mut model = Some("gpt-5".to_string());
    let out = handle_model_reroute(
        "r",
        "gpt-5",
        "gpt-5-mini",
        "HighRiskCyberActivity",
        &mut model,
        &mut counter,
        "T",
    );
    assert_eq!(model.as_deref(), Some("gpt-5-mini"));
    match created_row(&out[0]) {
        ConversationRow::Assistant(row) => {
            assert_eq!(row.id, "model-reroute-r-2");
            assert_eq!(
                row.content,
                "Model rerouted from gpt-5 to gpt-5-mini (HighRiskCyberActivity)"
            );
        }
        other => panic!("expected assistant row, got {other:?}"),
    }
}

#[test]
fn token_count_defaults_the_window_and_clamps_negative_counts() {
    assert!(handle_token_count(None).is_empty());
    let out = handle_token_count(Some(ThreadTokenUsage {
        total: breakdown(-5, 3, 9),
        last: breakdown(4, -1, 2),
        model_context_window: None,
    }));
    match &out[0] {
        ConnectorOutput::State(ConnectorStateEvent::TokensUpdated { usage, snapshot_kind }) => {
            assert_eq!(*snapshot_kind, TokenUsageSnapshotKind::ContextTurn);
            assert_eq!(usage.input_tokens, 4);
            assert_eq!(usage.cached_tokens, 0);
            assert_eq!(usage.context_window, 200_000);
        }
        other => panic!("expected tokens update, got {other:?}"),
    }
    match &out[1] {
        ConnectorOutput::State(ConnectorStateEvent::TurnUsageUpdated { usage, .. }) => {
            assert_eq!(usage.input_tokens, 0);
            assert_eq!(usage.output_tokens, 9);
        }
        other => panic!("expected turn usage update, got {other:?}"),
    }
}

#[test]
fn thread_name_updates_only_with_a_name() {
    assert!(handle_thread_name_updated(None).is_empty());
    let out = handle_thread_name_updated(Some("Refactor".to_string()));
    assert!(matches!(
        &out[0],
        ConnectorOutput::State(ConnectorStateEvent::ThreadNameUpdated(name)) if name == "Refactor"
    ));
}

#[test]
fn statuses_of_app_server_items() {
    assert_eq!(
        command_execution_tool_status(CommandExecutionStatus::InProgress, false, Some(0)),
        ToolStatus::Completed
    );
    assert_eq!(
        command_execution_tool_status(CommandExecutionStatus::InProgress, false, None),
        ToolStatus::Failed
    );
    assert_eq!(
        command_execution_tool_status(CommandExecutionStatus::Completed, true, Some(1)),
        ToolStatus::Running
    );
    assert_eq!(file_change_tool_status(PatchApplyStatus::Declined, false), ToolStatus::Cancelled);
    assert_eq!(file_change_tool_status(PatchApplyStatus::Completed, true), ToolStatus::Running);
    assert_eq!(
        guardian_review_status(GuardianApprovalReviewStatus::TimedOut, false),
        ToolStatus::Failed
    );
    assert_eq!(guardian_review_status_label(GuardianApprovalReviewStatus::TimedOut), "timed out");
}

#[test]
fn file_change_diffs() {
    let added = FileUpdateChange {
        path: "x.txt".to_string(),
        kind: PatchChangeKind::Add,
        diff: "a\nb".to_string(),
        raw: r#"{"path":"x.txt"}"#.to_string(),
    };
    assert_eq!(file_update_change_unified_diff(&added), "--- /dev/null\n+++ x.txt\n+a\n+b");
    let moved = FileUpdateChange {
        path: "old.rs".to_string(),
        kind: PatchChangeKind::Update { move_path: Some("new.rs".to_string()) },
        diff: "@@ -1 +1 @@\n-a\n+b".to_string(),
        raw: r#"{"path":"old.rs"}"#.to_string(),
    };
    assert_eq!(
        file_update_change_unified_diff(&moved),
        "--- old.rs\n+++ new.rs\n@@ -1 +1 @@\n-a\n+b"
    );
    let already = FileUpdateChange {
        path: "y.txt".to_string(),
        kind: PatchChangeKind::Delete,
        diff: "--- y.txt\n+++ /dev/null\n-z".to_string(),
        raw: "{}".to_string(),
    };
    assert_eq!(file_update_change_unified_diff(&already), "--- y.txt\n+++ /dev/null\n-z");

    let (files, diff, invocation) = file_change_invocation(&[moved.clone(), added.clone()]);
    assert_eq!(files, vec!["old.rs".to_string(), "x.txt".to_string()]);
    assert_eq!(
        diff,
        "--- old.rs\n+++ new.rs\n@@ -1 +1 @@\n-a\n+b\n\n--- /dev/null\n+++ x.txt\n+a\n+b"
    );
    let parsed: serde_json::Value = serde_json::from_str(&invocation).expect("invocation is JSON");
    assert_eq!(parsed["path"], "old.rs");
    assert_eq!(parsed["diff"], serde_json::Value::String(diff.clone()));
    assert_eq!(parsed["changes"][0]["path"], "old.rs");
    assert_eq!(parsed["changes"][1]["path"], "x.txt");

    let removed = FileChange::Delete { content: "gone\n".to_string() };
    assert_eq!(file_change_unified_diff("z.txt", &removed), "--- z.txt\n+++ /dev/null\n-gone");
}

#[test]
fn sandbox_and_approval_names() {
    assert_eq!(parse_sandbox_policy(Some("   ")), Ok(None));
    assert_eq!(
        parse_sandbox_policy(Some(" read-only-network ")),
        Ok(Some(SandboxPolicy::ReadOnly { network_access: true }))
    );
    assert_eq!(
        parse_sandbox_policy(Some("external-sandbox-network")),
        Ok(Some(SandboxPolicy::ExternalSandbox { network_access: NetworkAccess::Enabled }))
    );
    assert_eq!(
        parse_sandbox_policy(Some("open")),
        Err("unsupported sandbox mode `open`; expected danger-full-access, read-only, workspace-write, or external-sandbox (+ optional -network suffix)".to_string())
    );
    assert_eq!(parse_approval_policy(Some("unless-allow-listed")), Ok(Some(AskForApproval::UnlessTrusted)));
    assert_eq!(
        parse_approval_policy(Some("reject")),
        Ok(Some(AskForApproval::Granular(GranularApprovalConfig {
            sandbox_approval: false,
            rules: false,
            skill_approval: false,
            request_permissions: false,
            mcp_elicitations: false,
        })))
    );
    assert_eq!(
        parse_approval_policy(Some(" strict ")),
        Err("unsupported approval policy `strict`; expected untrusted, on-failure, on-request, reject, or never".to_string())
    );
}

#[test]
fn iso_time_of_known_instants() {
    assert_eq!(iso_from_epoch_secs(0), "1970-01-01T00:00:00Z");
    assert_eq!(iso_from_epoch_secs(951_782_400), "2000-02-29T00:00:00Z");
    assert_eq!(iso_from_epoch_secs(1_700_000_000), "2023-11-14T22:13:20Z");
    assert_eq!(iso_from_epoch_secs(86_399), "1970-01-01T23:59:59Z");
}

#[test]
fn fnv_hash_of_known_texts() {
    assert_eq!(stable_hash(""), 14_695_981_039_346_656_037);
    assert_eq!(stable_hash("a"), 0xaf63dc4c8601ec8c);
    assert_eq!(runtime_warning_notice_id(""), "warning-14695981039346656037");
}

#[test]
fn small_texts_of_the_connector() {
    assert_eq!(prefixed_lines("a\r\nb", '+'), "+a\n+b");
    assert_eq!(duration_millis(Some(-3)), None);
    assert_eq!(duration_millis(Some(42)), Some(42));
    assert_eq!(collab_agent_worker_summary(&[]), None);
    assert_eq!(parse_bool_value(" YES "), Some(true));
    assert_eq!(parse_bool_value("off"), Some(false));
    assert_eq!(parse_bool_value("maybe"), None);
}

#[test]
fn json_objects_sort_keys_and_keep_the_last_value() {
    let members = vec![
        ("zeta".to_string(), "1".to_string()),
        ("alpha".to_string(), "\"a\"".to_string()),
        ("mid".to_string(), "true".to_string()),
        ("alpha".to_string(), "2".to_string()),
    ];
    let text = json_object_text(&members);
    assert_eq!(text, "{\"alpha\":2,\"mid\":true,\"zeta\":1}");
    let value: serde_json::Value = serde_json::from_str(&text).unwrap();
    assert_eq!(serde_json::to_string(&value).unwrap(), text);
    assert_eq!(json_object_text(&[]), "{}");
}

#[test]
fn merging_the_same_updates_twice_changes_nothing() {
    let existing = vec![
        subagent("b", "2024-01-02T00:00:00Z", "second"),
        subagent("a", "2024-01-01T00:00:00Z", "first"),
    ];
    let incoming = vec![
        subagent("c", "2024-01-01T12:00:00Z", "third"),
        subagent("b", "2024-01-02T00:00:00Z", "second, renamed"),
        subagent("b", "2024-01-02T00:00:00Z", "second, final"),
    ];
    let once = merge_subagent_updates(&existing, incoming.clone());
    let twice = merge_subagent_updates(&once, incoming);
    let labels = |list: &Vec<_>| -> Vec<(String, Option<String>)> {
        list.iter()
            .map(|s: &orbitdock_connector::transition::model::SubagentInfo| (s.id.clone(), s.label.clone()))
            .collect()
    };
    assert_eq!(labels(&twice), labels(&once));

    let sorted_only = merge_subagent_updates(&existing, Vec::new());
    let ids: Vec<&str> = sorted_only.iter().map(|s| s.id.as_str()).collect();
    assert_eq!(ids, vec!["a", "b"]);
}

#[test]
fn normalized_commands_are_assessed_by_rule() {
    let risky = assess_normalized_command(" sudo rm -rf / ");
    assert_eq!(risky.level, ApprovalRiskLevel::High);
    assert!(risky.findings.contains(&"Uses elevated privileges via sudo.".to_string()));
    let plain = assess_normalized_command(" ls -la ");
    assert_eq!(plain.level, ApprovalRiskLevel::Normal);
    assert!(plain.findings.is_empty());
}

#[test]
fn flags_read_from_json_nodes() {
    assert!(flag_of_node(Some(JsonNode::Bool(true))));
    assert!(!flag_of_node(Some(JsonNode::Bool(false))));
    assert!(flag_of_node(Some(JsonNode::Number(Some(2)))));
    assert!(!flag_of_node(Some(JsonNode::Number(Some(0)))));
    assert!(flag_of_node(Some(JsonNode::Str(" YES ".to_string()))));
    assert!(!flag_of_node(Some(JsonNode::Str("no".to_string()))));
    assert!(!flag_of_node(Some(JsonNode::Null)));
    assert!(!flag_of_node(None));
}

#[test]
fn preview_fields_are_read_then_chosen_from() {
    let input = ApprovalPreviewInput {
        request_id: "req-1",
        approval_type: ApprovalType::Exec,
        tool_name: Some("  WebFetch "),
        tool_input: Some("{\"url\":\"https://example.com\",\"prompt\":\"summarize\"}"),
        command: None,
        file_path: None,
        diff: None,
        question: None,
        permission_reason: None,
    };
    let fields = read_preview_fields(&input);
    assert_eq!(fields.tool, "webfetch");
    assert_eq!(fields.url.as_deref(), Some("https://example.com"));
    assert_eq!(fields.prompt.as_deref(), Some("summarize"));
    assert!(fields.command.is_none());
    let preview = preview_from_fields(&input, fields);
    assert_eq!(preview.preview_type, ApprovalPreviewType::Url);
    assert_eq!(preview.value, "https://example.com");
}

#[test]
fn json_strings_escape_quotes_backslashes_and_controls() {
    assert_eq!(json_quote("plain"), "\"plain\"");
    assert_eq!(json_quote("a\"b\\c"), "\"a\\\"b\\\\c\"");
    assert_eq!(
        json_quote("\u{8}\t\n\u{c}\r"),
        "\"\\b\\t\\n\\f\\r\""
    );
    assert_eq!(json_quote("x\u{1}\u{1f}"), "\"x\\u0001\\u001f\"");
    assert_eq!(json_quote("caf\u{e9}/\u{7f}"), "\"caf\u{e9}/\u{7f}\"");
}
