use orbitdock_connector::codex::item_mapping::{map_item, StreamingMessage, ThreadItem};
use orbitdock_connector::codex::item_rows::{
    file_change_tool_row, map_collab_agent_tool, map_dynamic_tool, map_terminal_interaction,
    CollabAgentState, CollabAgentToolCallArgs, CollabAgentToolCallStatus, DynamicToolCallArgs,
    DynamicToolCallOutputContentItem,
};
use orbitdock_connector::codex::items::{
    CollabAgentStatus, CollabAgentTool, CommandExecutionStatus, FileUpdateChange,
    PatchApplyStatus, PatchChangeKind,
};
use orbitdock_connector::codex::signals::{apply_delta_thinking, DeltaBuffers};
use orbitdock_connector::transition::connector::{
    ConnectorOutput, ConnectorStateEvent, ConnectorTransportEffect,
};
use orbitdock_connector::transition::model::{
    ConversationRow, SubagentStatus, ToolFamily, ToolKind, ToolStatus,
};

const NOW: &str = "2024-01-01T00:00:00Z";

fn web_search() -> (ToolFamily, ToolKind) {
    (ToolFamily::Web, ToolKind::WebSearch)
}

fn command_item(status: CommandExecutionStatus, exit_code: Option<i32>) -> ThreadItem {
    ThreadItem::CommandExecution {
        id: "cmd-1".to_string(),
        command: "cargo test".to_string(),
        cwd: "/tmp/orbitdock".to_string(),
        process_id: None,
        status,
        command_actions: "[]".to_string(),
        aggregated_output: None,
        exit_code,
        duration_ms: Some(1000),
    }
}

#[test]
fn command_execution_creates_pty_without_process_id() {
    let mut buffers = DeltaBuffers::new();
    let mut streaming: Option<StreamingMessage> = None;
    let outputs = map_item(
        command_item(CommandExecutionStatus::InProgress, None),
        true,
        &mut buffers,
        &mut streaming,
        web_search(),
        NOW,
    );
    assert!(outputs.iter().any(|output| {
        matches!(
            output,
            ConnectorOutput::Transport(ConnectorTransportEffect::ToolPtyCreated { tool_id })
                if tool_id == "cmd-1"
        )
    }));
}

#[test]
fn buffered_command_output_lands_in_completed_row() {
    let mut buffers = DeltaBuffers::new();
    let mut streaming: Option<StreamingMessage> = None;
    let _ = apply_delta_thinking(
        &mut buffers,
        "command-output-cmd-1".to_string(),
        "Compiling ring v0.17.14\n".to_string(),
        NOW,
    );
    let outputs = map_item(
        command_item(CommandExecutionStatus::Completed, Some(0)),
        false,
        &mut buffers,
        &mut streaming,
        web_search(),
        NOW,
    );
    let state = outputs.iter().find_map(ConnectorOutput::as_state_event).expect("row update");
    let ConnectorStateEvent::ConversationRowUpdated { entry, .. } = state else {
        panic!("expected row update");
    };
    let ConversationRow::Tool(tool) = &entry.row else {
        panic!("expected tool row");
    };
    assert_eq!(tool.status, ToolStatus::Completed);
    assert_eq!(tool.summary.as_deref(), Some("Compiling ring v0.17.14\n"));
    let result: serde_json::Value =
        serde_json::from_str(tool.result.as_deref().expect("result")).expect("result is JSON");
    assert_eq!(result["output"], "Compiling ring v0.17.14\n");
    assert_eq!(tool.result.as_deref(), Some("{\"exit_code\":0,\"output\":\"Compiling ring v0.17.14\\n\"}"));
    assert_eq!(
        tool.invocation,
        "{\"command\":\"cargo test\",\"command_actions\":[],\"cwd\":\"/tmp/orbitdock\"}"
    );
    assert!(outputs.iter().any(|output| {
        matches!(
            output,
            ConnectorOutput::Transport(ConnectorTransportEffect::ToolPtyExited { tool_id, exit_code })
                if tool_id == "cmd-1" && *exit_code == Some(0)
        )
    }));
    assert!(buffers.take("command-output-cmd-1").is_none());
}

#[test]
fn terminal_interaction_stdin_flows_to_pty_output() {
    let outputs = map_terminal_interaction("cmd-1".to_string(), "y\n".to_string());
    let Some(ConnectorOutput::Transport(ConnectorTransportEffect::ToolPtyOutput { tool_id, bytes })) =
        outputs.first()
    else {
        panic!("expected terminal interaction pty output");
    };
    assert_eq!(tool_id, "cmd-1");
    assert_eq!(bytes, b"y\n");

    assert!(map_terminal_interaction("cmd-1".to_string(), String::new()).is_empty());
}

#[test]
fn collab_agent_item_keeps_agent_tool_and_subagent_state() {
    let outputs = map_collab_agent_tool(
        CollabAgentToolCallArgs {
            id: "collab-1".to_string(),
            tool: CollabAgentTool::SpawnAgent,
            status: CollabAgentToolCallStatus::Completed,
            sender_thread_id: "parent-thread".to_string(),
            receiver_thread_ids: vec!["child-thread".to_string()],
            prompt: Some("Inspect the codebase".to_string()),
            model: Some("gpt-5.4-mini".to_string()),
            reasoning_effort: Some("medium".to_string()),
            agents_states: vec![(
                "child-thread".to_string(),
                CollabAgentState {
                    status: CollabAgentStatus::Completed,
                    message: Some("Done".to_string()),
                    raw: r#"{"status":"completed","message":"Done"}"#.to_string(),
                },
            )],
            started: false,
        },
        NOW,
    );

    let row_event = outputs.first().and_then(ConnectorOutput::as_state_event).expect("row update");
    let ConnectorStateEvent::ConversationRowUpdated { entry, .. } = row_event else {
        panic!("expected collab row update");
    };
    let ConversationRow::Tool(tool) = &entry.row else {
        panic!("expected collab tool row");
    };
    assert_eq!(tool.family, ToolFamily::Agent);
    assert_eq!(tool.kind, ToolKind::SpawnAgent);
    assert_eq!(tool.status, ToolStatus::Completed);
    let invocation: serde_json::Value =
        serde_json::from_str(&tool.invocation).expect("invocation is JSON");
    assert_eq!(invocation["worker_id"], "child-thread");

    let subagents_event =
        outputs.get(1).and_then(ConnectorOutput::as_state_event).expect("subagent update");
    let ConnectorStateEvent::SubagentsUpdated { subagents } = subagents_event else {
        panic!("expected subagents update");
    };
    assert_eq!(subagents.len(), 1);
    assert_eq!(subagents[0].id, "child-thread");
    assert_eq!(subagents[0].status, SubagentStatus::Completed);
    assert_eq!(subagents[0].task_summary.as_deref(), Some("Inspect the codebase"));
}

#[test]
fn review_mode_items_surface_review_text() {
    let mut buffers = DeltaBuffers::new();
    let mut streaming: Option<StreamingMessage> = None;
    let notice = map_item(
        ThreadItem::EnteredReviewMode {
            id: "review-enter".to_string(),
            review: "Review requested".to_string(),
        },
        false,
        &mut buffers,
        &mut streaming,
        web_search(),
        NOW,
    );
    let output = notice
        .into_iter()
        .next()
        .and_then(|output| output.as_state_event().cloned())
        .expect("notice row");
    let ConnectorStateEvent::ConversationRowCreated(entry) = output else {
        panic!("expected created row");
    };
    let ConversationRow::Notice(row) = entry.row else {
        panic!("expected notice row");
    };
    assert_eq!(row.title, "Review mode");
    assert_eq!(row.summary.as_deref(), Some("Review requested"));

    let assistant = map_item(
        ThreadItem::ExitedReviewMode {
            id: "review-exit".to_string(),
            review: "## Code Review Feedback".to_string(),
        },
        false,
        &mut buffers,
        &mut streaming,
        web_search(),
        NOW,
    )
    .into_iter()
    .next()
    .and_then(|output| output.as_state_event().cloned())
    .expect("assistant row");
    let ConnectorStateEvent::ConversationRowCreated(entry) = assistant else {
        panic!("expected created row");
    };
    let ConversationRow::Assistant(row) = entry.row else {
        panic!("expected assistant row");
    };
    assert_eq!(row.content, "## Code Review Feedback");
}

#[test]
fn completed_agent_message_ends_streaming() {
    let mut buffers = DeltaBuffers::new();
    let mut streaming = Some(StreamingMessage {
        message_id: "msg-1".to_string(),
        content: "Hel".to_string(),
        last_broadcast_ms: 0,
    });
    let outputs = map_item(
        ThreadItem::AgentMessage { id: "msg-1".to_string(), text: "Hello".to_string() },
        false,
        &mut buffers,
        &mut streaming,
        web_search(),
        NOW,
    );
    assert!(streaming.is_none());
    assert!(!outputs.is_empty());
}

#[test]
fn dynamic_write_result_summarises_bytes_written() {
    let outputs = map_dynamic_tool(
        DynamicToolCallArgs {
            id: "call-1".to_string(),
            namespace: None,
            tool: "file_write".to_string(),
            arguments: r#"{"path":"/tmp/runtime.js","content":"x"}"#.to_string(),
            content_items: Some(vec![DynamicToolCallOutputContentItem::InputText {
                text: r#"{"path":"/tmp/runtime.js","bytes_written":42}"#.to_string(),
            }]),
            success: true,
            duration_ms: Some(11),
            started: false,
        },
        NOW,
    );
    assert_eq!(outputs.len(), 1);
    let state = outputs[0].as_state_event().expect("row update");
    let ConnectorStateEvent::ConversationRowUpdated { entry, .. } = state else {
        panic!("expected row update");
    };
    let ConversationRow::Tool(tool) = &entry.row else {
        panic!("expected tool row");
    };
    assert_eq!(tool.status, ToolStatus::Completed);
    assert_eq!(tool.duration_ms, Some(11));
    let result: serde_json::Value =
        serde_json::from_str(tool.result.as_deref().expect("result")).expect("result is JSON");
    assert_eq!(result["output"], "Wrote 42 bytes to /tmp/runtime.js");
}

#[test]
fn file_change_row_carries_diff_in_invocation() {
    let row = file_change_tool_row(
        "patch-1".to_string(),
        vec![FileUpdateChange {
            path: "runtime.js".to_string(),
            kind: PatchChangeKind::Add,
            diff: "let ready = true;\nexport { ready };".to_string(),
            raw: r#"{"path":"runtime.js"}"#.to_string(),
        }],
        PatchApplyStatus::Completed,
        false,
        None,
        NOW,
    );
    assert_eq!(row.id, "patch-1");
    assert_eq!(row.family, ToolFamily::FileChange);
    assert_eq!(row.status, ToolStatus::Completed);
    let invocation: serde_json::Value =
        serde_json::from_str(&row.invocation).expect("invocation is JSON");
    let diff = invocation["diff"].as_str().expect("diff");
    assert!(diff.contains("--- /dev/null"));
    assert!(diff.contains("+++ runtime.js"));
    assert!(diff.contains("+let ready = true;"));
    assert_eq!(invocation["path"], "runtime.js");
}
