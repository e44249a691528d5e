use orbitdock_connector::approval::ApprovalType;
use orbitdock_connector::codex::approvals::{
    handle_apply_patch_approval_request, handle_elicitation_request, handle_exec_approval_request,
    handle_request_permissions, handle_request_user_input, ElicitationRequest, ExecApprovalRequest,
    ExecNetworkContext,
};
use orbitdock_connector::codex::buffers::OutputBufferState;
use orbitdock_connector::codex::items::{
    FileChange, GuardianApprovalReviewStatus, NetworkApprovalProtocol, PatchApplyStatus,
};
use orbitdock_connector::codex::notification_rows::HookOutputEntry;
use orbitdock_connector::codex::runtime_items::{
    handle_dynamic_tool_call_request, handle_image_generation_begin, handle_image_generation_end,
    handle_mcp_tool_call_begin, handle_mcp_tool_call_end, handle_patch_apply_begin,
    handle_patch_apply_end, handle_patch_apply_updated, handle_view_image_tool_call,
    handle_web_search_begin, handle_web_search_end, PatchContext,
};
use orbitdock_connector::codex::runtime_lifecycle::{
    handle_session_configured, handle_turn_aborted, handle_turn_complete, handle_turn_started,
};
use orbitdock_connector::codex::runtime_rows::{
    handle_guardian_assessment, handle_hook_completed, handle_hook_started, handle_plan_update,
    handle_realtime_conversation_realtime, GuardianAssessmentEvent, GuardianRiskLevel,
    HookSource, RealtimeEvent, RuntimeHookRun,
};
use orbitdock_connector::codex::runtime_tools::{
    handle_exec_command_begin, handle_exec_command_end, handle_exec_command_output_delta,
    handle_terminal_interaction, EnvironmentTracker, ExecCommandBegin, ExecCommandEnd, GitInfo,
};
use orbitdock_connector::codex::signals::{apply_delta_thinking, DeltaBuffers};
use orbitdock_connector::codex::timeline::{
    HookEventName, HookRunStatus, RealtimeHandoffRequested, TranscriptMessage,
};
use orbitdock_connector::codex::tools::ExecCommandStatus;
use orbitdock_connector::keyed::TextMap;
use orbitdock_connector::transition::connector::{
    ConnectorOutput, ConnectorRuntimeDirective, ConnectorStateEvent, ConnectorTransportEffect,
};
use orbitdock_connector::transition::model::{
    ConversationRow, ConversationRowEntry, ToolFamily, ToolKind, ToolRow, ToolStatus,
};

const NOW: &str = "2024-01-01T00:00:00Z";

fn created_entry(output: ConnectorOutput) -> Option<ConversationRowEntry> {
    match output.into_state_event() {
        Ok(ConnectorStateEvent::ConversationRowCreated(entry)) => Some(entry),
        Ok(_) | Err(_) => None,
    }
}

fn updated_entry(output: ConnectorOutput) -> Option<ConversationRowEntry> {
    match output.into_state_event() {
        Ok(ConnectorStateEvent::ConversationRowUpdated { entry, .. }) => Some(entry),
        Ok(_) | Err(_) => None,
    }
}

fn tool_of(entry: ConversationRowEntry) -> ToolRow {
    match entry.row {
        ConversationRow::Tool(tool) => tool,
        other => panic!("expected tool row, got {other:?}"),
    }
}

fn json(text: &str) -> serde_json::Value {
    serde_json::from_str(text).expect("valid JSON")
}

fn empty_tracker() -> EnvironmentTracker {
    EnvironmentTracker { cwd: None, branch: None, sha: None }
}

fn begin(
    buffers: &mut TextMap<OutputBufferState>,
    call_id: &str,
    command: &[&str],
) -> Vec<ConnectorOutput> {
    let mut tracker = empty_tracker();
    let mut cwd = "/tmp/project".to_string();
    handle_exec_command_begin(
        buffers,
        &mut tracker,
        &mut cwd,
        ExecCommandBegin {
            call_id: call_id.to_string(),
            command: command.iter().map(|s| s.to_string()).collect(),
            cwd: "/tmp/project".to_string(),
            process_id: Some("pty-1".to_string()),
        },
        None,
        NOW,
        0,
    )
}

fn end_event(
    call_id: &str,
    command: &[&str],
    status: ExecCommandStatus,
    exit_code: i32,
    duration_ms: u64,
    aggregated: &str,
    formatted: &str,
    stdout: &str,
    stderr: &str,
) -> ExecCommandEnd {
    ExecCommandEnd {
        call_id: call_id.to_string(),
        command: command.iter().map(|s| s.to_string()).collect(),
        cwd: "/tmp/project".to_string(),
        exit_code,
        duration_ms,
        status,
        aggregated_output: aggregated.to_string(),
        formatted_output: formatted.to_string(),
        stdout: stdout.to_string(),
        stderr: stderr.to_string(),
    }
}

#[test]
fn image_generation_begin_creates_running_image_row() {
    let events = handle_image_generation_begin("ig-1".to_string(), NOW);
    let tool = tool_of(events.into_iter().find_map(created_entry).expect("tool row created"));
    assert_eq!(tool.family, ToolFamily::Image);
    assert_eq!(tool.kind, ToolKind::ImageGeneration);
    assert_eq!(tool.status, ToolStatus::Running);
    assert_eq!(json(&tool.invocation)["status"], "in_progress");
}

#[test]
fn image_generation_end_updates_row_without_base64_payload() {
    let events = handle_image_generation_end(
        "ig-1".to_string(),
        "completed".to_string(),
        Some("/tmp/generated/ig-1.png".to_string()),
        Some("A tiny mission control dashboard".to_string()),
        NOW,
    );
    let tool = tool_of(events.into_iter().find_map(updated_entry).expect("tool row updated"));
    assert_eq!(tool.family, ToolFamily::Image);
    assert_eq!(tool.kind, ToolKind::ImageGeneration);
    assert_eq!(tool.status, ToolStatus::Completed);
    assert_eq!(tool.subtitle.as_deref(), Some("/tmp/generated/ig-1.png"));
    let result = json(tool.result.as_deref().expect("tool result"));
    assert_eq!(result["image_paths"][0], "/tmp/generated/ig-1.png");
    assert_eq!(result["revised_prompt"], "A tiny mission control dashboard");
    assert!(result.get("result").is_none());
    assert_eq!(result["output"], "Saved generated image to /tmp/generated/ig-1.png");
}

#[test]
fn patch_apply_updated_refreshes_running_diff_for_final_row() {
    let mut contexts: TextMap<PatchContext> = TextMap::new();
    let events = handle_patch_apply_updated(
        &mut contexts,
        "patch-1".to_string(),
        vec![(
            "src/main.rs".to_string(),
            FileChange::Update { unified_diff: "@@ -1 +1 @@\n-old\n+new".to_string(), move_path: None },
        )],
    );
    let tool = tool_of(events.into_iter().find_map(updated_entry).expect("tool row updated"));
    assert_eq!(tool.status, ToolStatus::Running);
    let invocation = json(&tool.invocation);
    assert_eq!(invocation["path"], "src/main.rs");
    assert!(invocation["diff"].as_str().expect("diff").contains("+new"));

    let final_events = handle_patch_apply_end(
        &mut contexts,
        "patch-1".to_string(),
        PatchApplyStatus::Completed,
        true,
        String::new(),
        String::new(),
        NOW,
    );
    let tool = tool_of(final_events.into_iter().find_map(updated_entry).expect("final tool row updated"));
    assert_eq!(tool.status, ToolStatus::Completed);
    let invocation = json(&tool.invocation);
    assert_eq!(invocation["path"], "src/main.rs");
    assert!(invocation["diff"].as_str().expect("final diff").contains("+new"));
    assert_eq!(tool.summary.as_deref(), Some("status: Completed\nresult: applied successfully"));
    assert!(!contexts.contains_key("patch-1"));
}

#[test]
fn patch_begin_sorts_files_and_failed_end_reports_streams() {
    let mut contexts: TextMap<PatchContext> = TextMap::new();
    let events = handle_patch_apply_begin(
        &mut contexts,
        "patch-2".to_string(),
        vec![
            ("b.txt".to_string(), FileChange::Delete { content: "gone".to_string() }),
            ("a.txt".to_string(), FileChange::Add { content: "new".to_string() }),
        ],
        NOW,
    );
    let tool = tool_of(events.into_iter().find_map(created_entry).expect("row"));
    assert_eq!(tool.title, "a.txt");
    assert_eq!(tool.subtitle.as_deref(), Some("a.txt, b.txt"));
    let invocation = json(&tool.invocation);
    assert_eq!(
        invocation["diff"],
        "--- /dev/null\n+++ a.txt\n+new\n\n--- b.txt\n+++ /dev/null\n-gone"
    );
    let done = handle_patch_apply_end(
        &mut contexts,
        "patch-2".to_string(),
        PatchApplyStatus::Failed,
        false,
        "  ".to_string(),
        "conflict".to_string(),
        NOW,
    );
    let tool = tool_of(done.into_iter().find_map(updated_entry).expect("row"));
    assert_eq!(tool.status, ToolStatus::Failed);
    assert_eq!(tool.summary.as_deref(), Some("status: Failed\nresult: failed\n\nstderr:\nconflict"));
}

#[test]
fn exec_command_begin_creates_tool_row_with_shell_execution() {
    let mut buffers: TextMap<OutputBufferState> = TextMap::new();
    let mut tracker = empty_tracker();
    let mut current_cwd = "/tmp/old-project".to_string();
    let events = handle_exec_command_begin(
        &mut buffers,
        &mut tracker,
        &mut current_cwd,
        ExecCommandBegin {
            call_id: "cmd-1".to_string(),
            command: vec!["sed".to_string(), "-n".to_string(), "1,40p".to_string()],
            cwd: "/tmp/project".to_string(),
            process_id: Some("pty-1".to_string()),
        },
        Some(GitInfo { branch: Some("main".to_string()), commit_hash: Some("abc".to_string()) }),
        NOW,
        0,
    );
    assert!(matches!(
        &events[0],
        ConnectorOutput::State(ConnectorStateEvent::EnvironmentChanged { cwd, git_branch, git_sha })
            if cwd.as_deref() == Some("/tmp/project")
                && git_branch.as_deref() == Some("main")
                && git_sha.as_deref() == Some("abc")
    ));
    assert!(matches!(
        &events[1],
        ConnectorOutput::Transport(ConnectorTransportEffect::ToolPtyCreated { tool_id }) if tool_id == "cmd-1"
    ));
    let row = tool_of(events.into_iter().find_map(created_entry).expect("tool row"));
    assert_eq!(row.family, ToolFamily::Shell);
    assert_eq!(row.kind, ToolKind::Bash);
    assert_eq!(row.status, ToolStatus::Running);
    assert_eq!(row.title, "sed -n 1,40p");
    assert_eq!(row.subtitle.as_deref(), Some("/tmp/project"));
    assert_eq!(json(&row.invocation)["command"], "sed -n 1,40p");
    assert_eq!(current_cwd, "/tmp/project");
    assert_eq!(tracker.branch.as_deref(), Some("main"));
    let buffered = buffers.get("cmd-1").expect("buffer");
    assert_eq!(buffered.process_id.as_deref(), Some("pty-1"));
    assert!(buffered.full_output.is_empty());
}

#[test]
fn exec_command_end_updates_tool_row_with_shell_output() {
    let mut buffers: TextMap<OutputBufferState> = TextMap::new();
    let _ = begin(&mut buffers, "cmd-2", &["rg", "needle", "src"]);
    let deltas = handle_exec_command_output_delta(&mut buffers, "cmd-2".to_string(), b"src/lib.rs:needle\n".to_vec(), 500);
    assert!(matches!(
        &deltas[0],
        ConnectorOutput::Transport(ConnectorTransportEffect::ToolPtyOutput { tool_id, bytes })
            if tool_id == "cmd-2" && bytes == b"src/lib.rs:needle\n"
    ));
    assert_eq!(deltas.len(), 2);
    let events = handle_exec_command_end(
        &mut buffers,
        end_event(
            "cmd-2",
            &["rg", "needle", "src"],
            ExecCommandStatus::Completed,
            0,
            42,
            "",
            "src/lib.rs:needle\n",
            "src/lib.rs:needle\n",
            "",
        ),
        NOW,
    );
    assert!(matches!(
        &events[0],
        ConnectorOutput::Transport(ConnectorTransportEffect::ToolPtyExited { tool_id, exit_code })
            if tool_id == "cmd-2" && *exit_code == Some(0)
    ));
    let row = tool_of(events.into_iter().find_map(updated_entry).expect("updated row"));
    assert_eq!(row.status, ToolStatus::Completed);
    let result = json(row.result.as_deref().expect("result"));
    assert_eq!(result["output"].as_str().map(|v| v.trim_end_matches('\n')), Some("src/lib.rs:needle"));
    assert_eq!(result["exit_code"], 0);
    assert_eq!(row.title, "rg needle src");
    assert_eq!(row.subtitle.as_deref(), Some("/tmp/project"));
    assert_eq!(row.duration_ms, Some(42));
    assert!(!buffers.contains_key("cmd-2"));
}

#[test]
fn exec_command_end_prefers_richer_stream_output_when_terminal_payload_is_short() {
    let mut buffers: TextMap<OutputBufferState> = TextMap::new();
    let _ = begin(&mut buffers, "cmd-2b", &["cargo", "test"]);
    let streamed = "Compiling crate-a\nCompiling crate-b\nerror: tests failed\n";
    let _ = handle_exec_command_output_delta(&mut buffers, "cmd-2b".to_string(), streamed.as_bytes().to_vec(), 10);
    let events = handle_exec_command_end(
        &mut buffers,
        end_event(
            "cmd-2b",
            &["cargo", "test"],
            ExecCommandStatus::Failed,
            1,
            1337,
            "tests failed",
            "tests failed",
            "",
            "",
        ),
        NOW,
    );
    let row = tool_of(events.into_iter().find_map(updated_entry).expect("updated row"));
    let result = json(row.result.as_deref().expect("result"));
    assert_eq!(
        result["output"].as_str().map(|v| v.trim_end_matches('\n')),
        Some(streamed.trim_end_matches('\n'))
    );
    assert_eq!(row.title, "cargo test");
    assert_eq!(row.status, ToolStatus::Failed);
}

#[test]
fn exec_command_end_prefers_terminal_payloads_when_stream_buffer_is_missing() {
    let mut buffers: TextMap<OutputBufferState> = TextMap::new();
    let events = handle_exec_command_end(
        &mut buffers,
        end_event(
            "cmd-3",
            &["python", "-c", "print('done')"],
            ExecCommandStatus::Completed,
            0,
            9,
            "",
            "done\n",
            "done\n",
            "",
        ),
        NOW,
    );
    let row = tool_of(events.into_iter().find_map(updated_entry).expect("updated row"));
    let result = json(row.result.as_deref().expect("result"));
    assert_eq!(result["output"].as_str().map(|v| v.trim_end_matches('\n')), Some("done"));
    assert_eq!(row.status, ToolStatus::Completed);
    assert_eq!(row.title, "python -c print('done')");
}

#[test]
fn exec_command_end_maps_declined_status_without_collapsing_to_completed() {
    let mut buffers: TextMap<OutputBufferState> = TextMap::new();
    let events = handle_exec_command_end(
        &mut buffers,
        end_event(
            "cmd-4",
            &["rm", "-rf", "/tmp/project"],
            ExecCommandStatus::Declined,
            0,
            12,
            "",
            "permission denied",
            "",
            "permission denied",
        ),
        NOW,
    );
    let row = tool_of(events.into_iter().find_map(updated_entry).expect("updated row"));
    assert_eq!(row.status, ToolStatus::Cancelled);
    let result = json(row.result.as_deref().expect("result"));
    assert_eq!(result["output"], "permission denied");
    assert_eq!(row.title, "rm -rf /tmp/project");
}

#[test]
fn output_deltas_are_throttled() {
    let mut buffers: TextMap<OutputBufferState> = TextMap::new();
    let _ = begin(&mut buffers, "cmd-5", &["ls"]);
    let soon = handle_exec_command_output_delta(&mut buffers, "cmd-5".to_string(), b"a".to_vec(), 50);
    assert_eq!(soon.len(), 1);
    let later = handle_exec_command_output_delta(&mut buffers, "cmd-5".to_string(), b"b".to_vec(), 200);
    assert_eq!(later.len(), 2);
    assert!(handle_exec_command_output_delta(&mut buffers, "other".to_string(), Vec::new(), 999).is_empty());
    assert_eq!(buffers.get("cmd-5").expect("buffer").full_output, "ab");
}

#[test]
fn terminal_interaction_updates_shell_execution_snapshot_with_stdin() {
    let mut buffers: TextMap<OutputBufferState> = TextMap::new();
    let _ = begin(&mut buffers, "cmd-stdin-1", &["python", "-i"]);
    let events = handle_terminal_interaction(&mut buffers, "cmd-stdin-1".to_string(), "print('hello')", 5);
    let row = tool_of(events.into_iter().find_map(updated_entry).expect("updated row"));
    assert_eq!(row.title, "python -i");
    assert_eq!(row.subtitle.as_deref(), Some("/tmp/project"));
    let buffered = buffers.get("cmd-stdin-1").expect("buffer");
    assert!(buffered.full_output.contains("print('hello')"));
    assert!(!buffered.full_output.contains("[stdin]"));
    assert_eq!(buffered.full_output, "print('hello')\n");
}

#[test]
fn terminal_interaction_without_exec_buffer_does_not_create_empty_shell_row() {
    let mut buffers: TextMap<OutputBufferState> = TextMap::new();
    let events = handle_terminal_interaction(&mut buffers, "missing-buffer".to_string(), "print('hello')", 0);
    assert!(events.is_empty());
}

#[test]
fn exec_command_begin_strips_shell_launcher_in_row_command() {
    let mut buffers: TextMap<OutputBufferState> = TextMap::new();
    let events = begin(&mut buffers, "cmd-shell-wrap-1", &["/bin/zsh", "-lc", "swiftc -print-target-info"]);
    let row = tool_of(events.into_iter().find_map(created_entry).expect("tool row"));
    assert_eq!(row.title, "swiftc -print-target-info");
}

#[test]
fn dynamic_tool_request_maps_file_write_to_native_write_kind() {
    let events = handle_dynamic_tool_call_request(
        "call-dynamic-write-1".to_string(),
        "file_write".to_string(),
        r#"{"path":"README.md","content":"hello"}"#.to_string(),
        NOW,
    );
    let tool = tool_of(events.clone().into_iter().find_map(created_entry).expect("tool row created"));
    assert_eq!(tool.family, ToolFamily::FileChange);
    assert_eq!(tool.kind, ToolKind::Write);
    assert_eq!(tool.status, ToolStatus::Running);
    assert_eq!(tool.title, "Write");
    assert!(matches!(
        &events[1],
        ConnectorOutput::Runtime(ConnectorRuntimeDirective::DynamicToolCallRequested { call_id, .. })
            if call_id == "call-dynamic-write-1"
    ));
}

#[test]
fn dynamic_tool_request_maps_plan_write_to_native_write_kind() {
    let events = handle_dynamic_tool_call_request(
        "call-dynamic-plan-write-1".to_string(),
        "plan_write".to_string(),
        r##"{"path":"tooling/plan.md","content":"# Plan\n"}"##.to_string(),
        NOW,
    );
    let tool = tool_of(events.into_iter().find_map(created_entry).expect("tool row created"));
    assert_eq!(tool.family, ToolFamily::Plan);
    assert_eq!(tool.kind, ToolKind::Write);
    assert_eq!(tool.title, "Plan");
    assert_eq!(json(&tool.invocation)["raw_input"]["path"], "tooling/plan.md");
}

#[test]
fn mcp_calls_and_web_searches_and_images() {
    let begin = handle_mcp_tool_call_begin(
        "mcp-1".to_string(),
        "docs".to_string(),
        "search".to_string(),
        Some(r#"{"q":"x"}"#.to_string()),
        None,
        NOW,
    );
    let tool = tool_of(begin.into_iter().find_map(created_entry).expect("row"));
    assert_eq!(tool.title, "search");
    assert_eq!(json(&tool.invocation)["input"]["q"], "x");
    let end = handle_mcp_tool_call_end(
        "mcp-1".to_string(),
        "docs".to_string(),
        "search".to_string(),
        Err("boom".to_string()),
        7,
        Some("ui://app".to_string()),
        NOW,
    );
    let tool = tool_of(end.into_iter().find_map(updated_entry).expect("row"));
    assert_eq!(tool.status, ToolStatus::Failed);
    assert_eq!(tool.duration_ms, Some(7));
    let result = json(tool.result.as_deref().unwrap());
    assert_eq!(result["raw_output"], "boom");
    assert_eq!(result["mcp_app_resource_uri"], "ui://app");

    let search = handle_web_search_begin("ws-1".to_string(), NOW);
    let tool = tool_of(search.into_iter().find_map(created_entry).expect("row"));
    assert_eq!(tool.title, "Searching the web");
    let done = handle_web_search_end("ws-1".to_string(), "rust".to_string(), "{}".to_string(), NOW);
    let tool = tool_of(done.into_iter().find_map(updated_entry).expect("row"));
    assert_eq!(tool.title, "rust");
    assert_eq!(json(tool.result.as_deref().unwrap())["tool_name"], "websearch");

    let image = handle_view_image_tool_call("img-1".to_string(), "/tmp/a.png".to_string(), NOW);
    let tool = tool_of(image.into_iter().find_map(created_entry).expect("row"));
    assert_eq!(tool.summary.as_deref(), Some("Image loaded"));
    assert_eq!(json(&tool.invocation)["image_paths"][0], "/tmp/a.png");
}

#[test]
fn approval_requests_of_the_runtime() {
    let exec = handle_exec_approval_request(ExecApprovalRequest {
        call_id: "call-1".to_string(),
        approval_id: None,
        command: vec!["git".to_string(), "push".to_string()],
        cwd: "/tmp/project".to_string(),
        proposed_execpolicy_amendment: None,
        network_approval_context: Some(ExecNetworkContext {
            host: "github.com".to_string(),
            protocol: NetworkApprovalProtocol::Https,
        }),
        proposed_network_policy_amendments: None,
        available_decisions: None,
        additional_permissions: None,
    });
    let ConnectorOutput::State(ConnectorStateEvent::ApprovalRequested {
        request_id,
        approval_type,
        command,
        permission_suggestions,
        network_protocol,
        ..
    }) = &exec[0]
    else {
        panic!("expected approval");
    };
    assert_eq!(request_id, "call-1");
    assert_eq!(*approval_type, ApprovalType::Exec);
    assert_eq!(command.as_deref(), Some("git push"));
    assert!(permission_suggestions.is_none());
    assert_eq!(network_protocol.as_deref(), Some("https"));

    let patch = handle_apply_patch_approval_request(
        "patch-1".to_string(),
        vec![("x.txt".to_string(), FileChange::Add { content: "a".to_string() })],
    );
    let ConnectorOutput::State(ConnectorStateEvent::ApprovalRequested { file_path, diff, .. }) = &patch[0] else {
        panic!("expected approval");
    };
    assert_eq!(file_path.as_deref(), Some("x.txt"));
    assert_eq!(diff.as_deref(), Some("--- /dev/null\n+++ x.txt\n+a"));

    let mut counter: u64 = 4;
    let asked = handle_request_user_input(
        "ev-1",
        vec!["Proceed?".to_string()],
        r#"[{"question":"Proceed?"}]"#.to_string(),
        &mut counter,
        NOW,
    );
    assert_eq!(counter, 5);
    let tool = tool_of(asked[0].clone().into_state_event().ok().and_then(|e| match e {
        ConnectorStateEvent::ConversationRowCreated(entry) => Some(entry),
        _ => None,
    }).expect("row"));
    assert_eq!(tool.id, "ask-user-question-ev-1-4");
    assert_eq!(tool.title, "Proceed?");
    let ConnectorOutput::State(ConnectorStateEvent::ApprovalRequested { tool_input, question, .. }) = &asked[1] else {
        panic!("expected approval");
    };
    assert_eq!(question.as_deref(), Some("Proceed?"));
    assert_eq!(json(tool_input.as_deref().unwrap())["questions"][0]["question"], "Proceed?");

    let perms = handle_request_permissions("p-1".to_string(), None, r#"{"network":true}"#.to_string());
    let ConnectorOutput::State(ConnectorStateEvent::ApprovalRequested { requested_permissions, tool_input, .. }) =
        &perms[0]
    else {
        panic!("expected approval");
    };
    assert_eq!(requested_permissions.as_deref(), Some(r#"{"network":true}"#));
    assert_eq!(json(tool_input.as_deref().unwrap())["reason"], serde_json::Value::Null);

    let elicited = handle_elicitation_request(
        "ev-2",
        ElicitationRequest {
            server_name: "docs".to_string(),
            id_json: Some("7".to_string()),
            message: String::new(),
            event_json: None,
        },
        &mut counter,
        NOW,
    );
    let ConnectorOutput::State(ConnectorStateEvent::ApprovalRequested {
        request_id,
        question,
        elicitation_message,
        ..
    }) = &elicited[1]
    else {
        panic!("expected approval");
    };
    assert_eq!(request_id, "elicitation-docs-7");
    assert_eq!(question.as_deref(), Some("docs request"));
    assert!(elicitation_message.is_none());
    assert_eq!(counter, 6);
}

#[test]
fn turns_drain_streamed_text() {
    let mut buffers = DeltaBuffers::new();
    let _ = apply_delta_thinking(&mut buffers, "plan-1".to_string(), "Step".to_string(), NOW);
    let done = handle_turn_complete(&mut buffers, NOW);
    assert!(matches!(done[0], ConnectorOutput::State(ConnectorStateEvent::TurnCompleted)));
    assert_eq!(done.len(), 2);
    assert!(matches!(
        &done[1],
        ConnectorOutput::State(ConnectorStateEvent::ConversationRowUpdated { row_id, .. }) if row_id == "plan-1"
    ));
    assert!(buffers.take("plan-1").is_none());
    let aborted = handle_turn_aborted("Interrupted".to_string(), &mut buffers, NOW);
    assert_eq!(aborted.len(), 1);
    let _ = apply_delta_thinking(&mut buffers, "plan-2".to_string(), "x".to_string(), NOW);
    let started = handle_turn_started(&mut buffers);
    assert_eq!(started.len(), 1);
    assert!(buffers.take("plan-2").is_none());

    let mut tracker = empty_tracker();
    let mut model = None;
    let mut effort = None;
    let configured = handle_session_configured(
        &mut tracker,
        &mut model,
        &mut effort,
        "gpt-5".to_string(),
        "/tmp/p".to_string(),
        Some("high".to_string()),
        None,
    );
    assert_eq!(model.as_deref(), Some("gpt-5"));
    assert_eq!(effort.as_deref(), Some("high"));
    assert_eq!(tracker.cwd.as_deref(), Some("/tmp/p"));
    assert_eq!(configured.len(), 1);
}

#[test]
fn guardian_plan_realtime_and_hooks() {
    let review = handle_guardian_assessment(
        GuardianAssessmentEvent {
            id: "g-1".to_string(),
            status: GuardianApprovalReviewStatus::Denied,
            risk_level: Some(GuardianRiskLevel::Critical),
            rationale: Some("Too risky".to_string()),
            action: Some(r#"{"command":"rm -rf /"}"#.to_string()),
        },
        NOW,
    );
    let tool = tool_of(review.into_iter().find_map(updated_entry).expect("row"));
    assert_eq!(tool.id, "guardian-g-1");
    assert_eq!(tool.status, ToolStatus::Failed);
    assert_eq!(tool.subtitle.as_deref(), Some("critical risk"));
    assert_eq!(json(&tool.invocation)["status_label"], "denied");

    let mut counter: u64 = 0;
    let plan = handle_plan_update(
        "ev-9",
        Some("  Ship it  ".to_string()),
        vec!["Build".to_string(), "Test".to_string()],
        "{}".to_string(),
        &mut counter,
        NOW,
    );
    let tool = tool_of(plan.into_iter().find_map(created_entry).expect("row"));
    assert_eq!(tool.title, "Ship it (2 steps)");
    assert_eq!(tool.id, "update-plan-ev-9-0");
    assert_eq!(json(&tool.invocation)["steps"][1]["title"], "Test");

    let handoff = handle_realtime_conversation_realtime(
        "ev-10",
        RealtimeEvent::HandoffRequested {
            handoff: RealtimeHandoffRequested {
                active_transcript: vec![TranscriptMessage { role: "user".to_string(), text: " hi ".to_string() }],
                input_transcript: String::new(),
            },
            handoff_json: None,
        },
        &mut counter,
        NOW,
    );
    let ConnectorOutput::State(ConnectorStateEvent::ConversationRowCreated(entry)) = &handoff[0] else {
        panic!("expected row");
    };
    let ConversationRow::Handoff(row) = &entry.row else {
        panic!("expected handoff row");
    };
    assert_eq!(row.id, "realtime-handoff-ev-10-1");
    assert_eq!(json(&row.payload)["summary"], "user: hi");
    assert!(handle_realtime_conversation_realtime("ev-11", RealtimeEvent::Other, &mut counter, NOW).is_empty());
    assert_eq!(counter, 2);

    let run = RuntimeHookRun {
        id: "h-2".to_string(),
        event_name: HookEventName::Stop,
        status: HookRunStatus::Blocked,
        source_path: "/etc/hooks/guard.sh".to_string(),
        source: HookSource::Project,
        status_message: Some("blocked".to_string()),
        duration_ms: Some(3),
        entries: vec![HookOutputEntry { kind: "Warning".to_string(), text: "blocked".to_string() }],
    };
    let started = handle_hook_started(run.clone());
    let ConnectorOutput::State(ConnectorStateEvent::ConversationRowCreated(entry)) = &started[0] else {
        panic!("expected row");
    };
    let ConversationRow::Hook(row) = &entry.row else {
        panic!("expected hook row");
    };
    let payload = json(&row.payload);
    assert_eq!(payload["title"], "Running stop hook via guard.sh");
    assert_eq!(payload["payload"]["source"], "project");
    let completed = handle_hook_completed(run);
    let ConnectorOutput::State(ConnectorStateEvent::ConversationRowCreated(entry)) = &completed[0] else {
        panic!("expected row");
    };
    let ConversationRow::Hook(row) = &entry.row else {
        panic!("expected hook row");
    };
    let payload = json(&row.payload);
    assert_eq!(payload["title"], "stop hook blocked via guard.sh: blocked");
    assert_eq!(payload["summary"], "blocked");
    assert_eq!(payload["payload"]["duration_ms"], 3);
}
