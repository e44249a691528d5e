use orbitdock_connector::approval::ApprovalType;
use orbitdock_connector::codex::app_server::{
    map_server_request, request_key, McpElicitation, NetworkApprovalContext, NetworkProtocol,
    RequestId, ServerRequest,
};
use orbitdock_connector::codex::item_mapping::ThreadItem;
use orbitdock_connector::codex::items::{CommandExecutionStatus, GuardianApprovalReviewStatus};
use orbitdock_connector::codex::notification_rows::{
    guardian_review_tool_row, startup_status_text, turn_plan_text, AppServerHookRun,
    GuardianApprovalReview, HookOutputEntry, McpServerStartupState, TurnPlanStep,
    TurnPlanStepStatus,
};
use orbitdock_connector::codex::notifications::{
    map_notification, AppServerRoute, ServerNotification, TurnOutcome,
};
use orbitdock_connector::codex::timeline::{HookEventName, HookRunStatus};
use orbitdock_connector::keyed::TextMap;
use orbitdock_connector::transition::connector::{
    ConnectorOutput, ConnectorRuntimeDirective, ConnectorStateEvent, ConnectorTransportEffect,
};
use orbitdock_connector::transition::model::{ConversationRow, ToolFamily, ToolKind, ToolStatus};

const NOW: &str = "2024-01-01T00:00:00Z";

fn web() -> (ToolFamily, ToolKind) {
    (ToolFamily::Web, ToolKind::WebSearch)
}

fn approval(output: &ConnectorOutput) -> (String, ApprovalType, Option<String>, Option<String>) {
    match output {
        ConnectorOutput::State(ConnectorStateEvent::ApprovalRequested {
            request_id,
            approval_type,
            question,
            tool_name,
            ..
        }) => (request_id.clone(), *approval_type, question.clone(), tool_name.clone()),
        other => panic!("expected approval request, got {other:?}"),
    }
}

#[test]
fn request_keys_are_numbers_or_texts() {
    assert_eq!(request_key(&RequestId::Integer(42)), "42");
    assert_eq!(request_key(&RequestId::Integer(-7)), "-7");
    assert_eq!(request_key(&RequestId::String("req-1".to_string())), "req-1");
}

#[test]
fn command_approval_request_waits_and_carries_network_context() {
    let mut pending: TextMap<RequestId> = TextMap::new();
    let outputs = map_server_request(
        &mut pending,
        ServerRequest::CommandExecutionRequestApproval {
            id: RequestId::Integer(7),
            command: Some("curl example.com".to_string()),
            cwd: Some("/tmp/project".to_string()),
            reason: Some("needs network".to_string()),
            proposed_execpolicy_amendment: Some(vec!["curl".to_string()]),
            available_decisions: r#"["accept","decline"]"#.to_string(),
            additional_permissions: "null".to_string(),
            proposed_network_policy_amendments: "[]".to_string(),
            network_approval_context: Some(NetworkApprovalContext {
                host: "example.com".to_string(),
                protocol: NetworkProtocol::Socks5Tcp,
            }),
        },
    );
    assert!(pending.contains_key("7"));
    assert_eq!(outputs.len(), 1);
    let ConnectorOutput::State(ConnectorStateEvent::ApprovalRequested {
        request_id,
        approval_type,
        command,
        file_path,
        question,
        permission_reason,
        proposed_amendment,
        permission_suggestions,
        network_host,
        network_protocol,
        ..
    }) = &outputs[0]
    else {
        panic!("expected approval request");
    };
    assert_eq!(request_id, "7");
    assert_eq!(*approval_type, ApprovalType::Exec);
    assert_eq!(command.as_deref(), Some("curl example.com"));
    assert_eq!(file_path.as_deref(), Some("/tmp/project"));
    assert_eq!(question.as_deref(), Some("needs network"));
    assert_eq!(permission_reason.as_deref(), Some("needs network"));
    assert_eq!(proposed_amendment.as_ref(), Some(&vec!["curl".to_string()]));
    assert_eq!(network_host.as_deref(), Some("example.com"));
    assert_eq!(network_protocol.as_deref(), Some("socks5tcp"));
    let suggestions: serde_json::Value =
        serde_json::from_str(permission_suggestions.as_deref().expect("suggestions")).unwrap();
    assert_eq!(suggestions["source"], "codex_app_server_command_approval");
    assert_eq!(suggestions["available_decisions"][1], "decline");
}

#[test]
fn question_and_elicitation_requests_become_questions() {
    let mut pending: TextMap<RequestId> = TextMap::new();
    let outputs = map_server_request(
        &mut pending,
        ServerRequest::ToolRequestUserInput {
            id: RequestId::String("q-1".to_string()),
            questions: vec!["Which branch?".to_string(), "Why?".to_string()],
            questions_json: Some("[]".to_string()),
        },
    );
    let (key, kind, question, tool) = approval(&outputs[0]);
    assert_eq!(key, "q-1");
    assert_eq!(kind, ApprovalType::Question);
    assert_eq!(question.as_deref(), Some("Which branch?"));
    assert_eq!(tool.as_deref(), Some("request_user_input"));

    let outputs = map_server_request(
        &mut pending,
        ServerRequest::McpServerElicitationRequest {
            id: RequestId::Integer(3),
            server_name: "docs".to_string(),
            request: McpElicitation::Url {
                message: "Sign in".to_string(),
                url: "https://example.com/login".to_string(),
            },
            request_json: None,
        },
    );
    let ConnectorOutput::State(ConnectorStateEvent::ApprovalRequested {
        elicitation_mode,
        elicitation_url,
        elicitation_message,
        mcp_server_name,
        question,
        ..
    }) = &outputs[0]
    else {
        panic!("expected approval request");
    };
    assert_eq!(elicitation_mode.as_deref(), Some("url"));
    assert_eq!(elicitation_url.as_deref(), Some("https://example.com/login"));
    assert_eq!(elicitation_message.as_deref(), Some("Sign in"));
    assert_eq!(question.as_deref(), Some("Sign in"));
    assert_eq!(mcp_server_name.as_deref(), Some("docs"));
    assert!(pending.contains_key("q-1") && pending.contains_key("3"));
}

#[test]
fn dynamic_tool_requests_go_to_the_runtime() {
    let mut pending: TextMap<RequestId> = TextMap::new();
    let outputs = map_server_request(
        &mut pending,
        ServerRequest::DynamicToolCall {
            id: RequestId::Integer(9),
            tool: "file_read".to_string(),
            arguments: r#"{"path":"/tmp/a"}"#.to_string(),
        },
    );
    assert!(matches!(
        &outputs[0],
        ConnectorOutput::Runtime(ConnectorRuntimeDirective::DynamicToolCallRequested { call_id, tool_name, arguments })
            if call_id == "9" && tool_name == "file_read" && arguments == r#"{"path":"/tmp/a"}"#
    ));
    assert!(map_server_request(&mut pending, ServerRequest::Other { id: RequestId::Integer(10) }).is_empty());
    assert!(pending.contains_key("10"));
}

#[test]
fn resolved_request_stops_waiting_and_cancels_the_approval() {
    let mut route = AppServerRoute::new();
    let _ = map_server_request(
        &mut route.pending_requests,
        ServerRequest::FileChangeRequestApproval {
            id: RequestId::Integer(5),
            grant_root: None,
            reason: None,
        },
    );
    assert!(route.pending_requests.contains_key("5"));
    let outputs = map_notification(
        &mut route,
        ServerNotification::ServerRequestResolved { request_id: RequestId::Integer(5) },
        web(),
        NOW,
        0,
    );
    assert!(!route.pending_requests.contains_key("5"));
    assert!(matches!(
        &outputs[0],
        ConnectorOutput::State(ConnectorStateEvent::ApprovalCancelled { request_id }) if request_id == "5"
    ));
}

#[test]
fn turns_start_and_end() {
    let mut route = AppServerRoute::new();
    let started = map_notification(
        &mut route,
        ServerNotification::TurnStarted { turn_id: "turn-1".to_string() },
        web(),
        NOW,
        0,
    );
    assert!(matches!(started[0], ConnectorOutput::State(ConnectorStateEvent::TurnStarted)));
    assert_eq!(route.active_turn_id.as_deref(), Some("turn-1"));
    let failed = map_notification(
        &mut route,
        ServerNotification::TurnCompleted { status: TurnOutcome::Failed { error: None } },
        web(),
        NOW,
        0,
    );
    assert!(matches!(
        &failed[0],
        ConnectorOutput::State(ConnectorStateEvent::TurnAborted { reason }) if reason == "failed"
    ));
    assert!(route.active_turn_id.is_none());
    let interrupted = map_notification(
        &mut route,
        ServerNotification::TurnCompleted { status: TurnOutcome::Interrupted },
        web(),
        NOW,
        0,
    );
    assert!(matches!(
        &interrupted[0],
        ConnectorOutput::State(ConnectorStateEvent::TurnAborted { reason }) if reason == "interrupted"
    ));
}

#[test]
fn agent_message_deltas_are_throttled() {
    let mut route = AppServerRoute::new();
    let first = map_notification(
        &mut route,
        ServerNotification::AgentMessageDelta { item_id: "msg-1".to_string(), delta: "Hel".to_string() },
        web(),
        NOW,
        1000,
    );
    assert!(matches!(
        &first[0],
        ConnectorOutput::State(ConnectorStateEvent::ConversationRowCreated(entry))
            if matches!(&entry.row, ConversationRow::Assistant(m) if m.content == "Hel" && m.is_streaming)
    ));
    let soon = map_notification(
        &mut route,
        ServerNotification::AgentMessageDelta { item_id: "msg-1".to_string(), delta: "lo".to_string() },
        web(),
        NOW,
        1010,
    );
    assert!(soon.is_empty());
    let later = map_notification(
        &mut route,
        ServerNotification::AgentMessageDelta { item_id: "msg-1".to_string(), delta: "!".to_string() },
        web(),
        NOW,
        1050,
    );
    assert!(matches!(
        &later[0],
        ConnectorOutput::State(ConnectorStateEvent::ConversationRowUpdated { row_id, entry })
            if row_id == "msg-1"
                && matches!(&entry.row, ConversationRow::Assistant(m) if m.content == "Hello!")
    ));
    let done = map_notification(
        &mut route,
        ServerNotification::ItemCompleted {
            item: ThreadItem::AgentMessage { id: "msg-1".to_string(), text: "Hello!".to_string() },
        },
        web(),
        NOW,
        2000,
    );
    assert!(!done.is_empty());
    assert!(route.streaming_message.is_none());
}

#[test]
fn command_output_deltas_persist_into_completed_row() {
    let mut route = AppServerRoute::new();
    let delta = map_notification(
        &mut route,
        ServerNotification::CommandExecutionOutputDelta {
            item_id: "cmd-1".to_string(),
            delta: "Compiling ring v0.17.14\n".to_string(),
        },
        web(),
        NOW,
        0,
    );
    assert!(matches!(
        &delta[0],
        ConnectorOutput::Transport(ConnectorTransportEffect::ToolPtyOutput { tool_id, bytes })
            if tool_id == "cmd-1" && bytes == b"Compiling ring v0.17.14\n"
    ));
    let outputs = map_notification(
        &mut route,
        ServerNotification::ItemCompleted {
            item: ThreadItem::CommandExecution {
                id: "cmd-1".to_string(),
                command: "cargo test".to_string(),
                cwd: "/tmp/orbitdock".to_string(),
                process_id: None,
                status: CommandExecutionStatus::Completed,
                command_actions: "[]".to_string(),
                aggregated_output: None,
                exit_code: Some(0),
                duration_ms: Some(1000),
            },
        },
        web(),
        NOW,
        0,
    );
    let state = outputs.iter().find_map(ConnectorOutput::as_state_event).expect("row update");
    let ConnectorStateEvent::ConversationRowUpdated { entry, .. } = state else {
        panic!("expected row update");
    };
    let ConversationRow::Tool(tool) = &entry.row else {
        panic!("expected tool row");
    };
    assert_eq!(tool.summary.as_deref(), Some("Compiling ring v0.17.14\n"));
    // The row carries no display summary (`tool_display`): its output preview
    // is checked through the row's summary and result instead.
    let result: serde_json::Value = serde_json::from_str(tool.result.as_deref().unwrap()).unwrap();
    assert_eq!(result["output"], "Compiling ring v0.17.14\n");
    assert!(outputs.iter().any(|output| matches!(
        output,
        ConnectorOutput::Transport(ConnectorTransportEffect::ToolPtyExited { tool_id, exit_code })
            if tool_id == "cmd-1" && *exit_code == Some(0)
    )));
}

#[test]
fn reasoning_deltas_stream_thinking_rows() {
    let mut route = AppServerRoute::new();
    let first = map_notification(
        &mut route,
        ServerNotification::ReasoningSummaryTextDelta {
            item_id: "r-1".to_string(),
            summary_index: 0,
            delta: "Think".to_string(),
        },
        web(),
        NOW,
        0,
    );
    assert!(matches!(
        &first[0],
        ConnectorOutput::State(ConnectorStateEvent::ConversationRowCreated(entry))
            if matches!(&entry.row, ConversationRow::Thinking(m) if m.id == "reasoning-summary-r-1-0")
    ));
    let second = map_notification(
        &mut route,
        ServerNotification::ReasoningSummaryTextDelta {
            item_id: "r-1".to_string(),
            summary_index: 0,
            delta: "ing".to_string(),
        },
        web(),
        NOW,
        0,
    );
    assert!(matches!(
        &second[0],
        ConnectorOutput::State(ConnectorStateEvent::ConversationRowUpdated { entry, .. })
            if matches!(&entry.row, ConversationRow::Thinking(m) if m.content == "Thinking")
    ));
}

#[test]
fn plan_updates_become_checklists() {
    let text = turn_plan_text(
        Some("Why".to_string()),
        &vec![
            TurnPlanStep { step: "Read".to_string(), status: TurnPlanStepStatus::Completed },
            TurnPlanStep { step: "Write".to_string(), status: TurnPlanStepStatus::InProgress },
        ],
    );
    assert_eq!(text, "Why\n\n- [x] Read\n- [ ] Write\n");
    let mut route = AppServerRoute::new();
    let none = map_notification(
        &mut route,
        ServerNotification::TurnPlanUpdated { explanation: Some("   ".to_string()), plan: vec![] },
        web(),
        NOW,
        0,
    );
    assert!(none.is_empty());
}

#[test]
fn errors_abort_the_turn_unless_retried() {
    let mut route = AppServerRoute::new();
    let retried = map_notification(
        &mut route,
        ServerNotification::Error { message: "boom".to_string(), will_retry: true },
        web(),
        NOW,
        0,
    );
    assert_eq!(retried.len(), 1);
    let fatal = map_notification(
        &mut route,
        ServerNotification::Error { message: "boom".to_string(), will_retry: false },
        web(),
        NOW,
        0,
    );
    assert_eq!(fatal.len(), 2);
    assert!(matches!(
        &fatal[1],
        ConnectorOutput::State(ConnectorStateEvent::TurnAborted { reason }) if reason == "boom"
    ));
}

#[test]
fn model_reroute_adds_a_system_row() {
    let mut route = AppServerRoute::new();
    let outputs = map_notification(
        &mut route,
        ServerNotification::ModelRerouted {
            turn_id: "turn-9".to_string(),
            from_model: "gpt-a".to_string(),
            to_model: "gpt-b".to_string(),
            reason: "HighRiskCyberActivity".to_string(),
        },
        web(),
        NOW,
        0,
    );
    let ConnectorOutput::State(ConnectorStateEvent::ConversationRowCreated(entry)) = &outputs[0] else {
        panic!("expected created row");
    };
    let ConversationRow::System(row) = &entry.row else {
        panic!("expected system row");
    };
    assert_eq!(row.id, "model-reroute-turn-9");
    assert_eq!(row.content, "Model rerouted from gpt-a to gpt-b (HighRiskCyberActivity)");
    assert_eq!(row.turn_id.as_deref(), Some("turn-9"));
}

#[test]
fn failed_hooks_show_rows_and_quiet_ones_do_not() {
    let run = AppServerHookRun {
        id: "h-1".to_string(),
        event_name: HookEventName::PreToolUse,
        handler_type: "Command".to_string(),
        status: HookRunStatus::Failed,
        status_message: Some(" exit 2 ".to_string()),
        source_path: "/tmp/hooks/lint.sh".to_string(),
        source: "User".to_string(),
        duration_ms: Some(12),
        entries: vec![HookOutputEntry { kind: "Stderr".to_string(), text: "bad input\n".to_string() }],
    };
    let mut route = AppServerRoute::new();
    let outputs = map_notification(&mut route, ServerNotification::HookStarted { run: run.clone() }, web(), NOW, 0);
    let ConnectorOutput::State(ConnectorStateEvent::ConversationRowCreated(entry)) = &outputs[0] else {
        panic!("expected created row");
    };
    let ConversationRow::Hook(row) = &entry.row else {
        panic!("expected hook row");
    };
    assert_eq!(row.id, "hook-h-1");
    let payload: serde_json::Value = serde_json::from_str(&row.payload).unwrap();
    assert_eq!(payload["title"], "Hook failed: PreToolUse");
    assert_eq!(payload["summary"], "exit 2\nbad input");
    assert_eq!(payload["payload"]["phase"], "started");
    assert_eq!(payload["payload"]["duration_ms"], 12);
    assert_eq!(payload["payload"]["entries"][0]["value"], "bad input\n");

    let quiet = AppServerHookRun { status: HookRunStatus::Completed, ..run };
    assert!(map_notification(&mut route, ServerNotification::HookCompleted { run: quiet }, web(), NOW, 0).is_empty());
}

#[test]
fn guardian_review_notifications_keep_auto_review_tool_shape() {
    let row = guardian_review_tool_row(
        "review-1".to_string(),
        Some("cmd-1".to_string()),
        GuardianApprovalReview {
            status: GuardianApprovalReviewStatus::Approved,
            risk_level: Some("High".to_string()),
            rationale: Some("Safe after review".to_string()),
        },
        r#"{"type":"command","source":"shell","command":"make test","cwd":"/tmp/orbitdock"}"#.to_string(),
        false,
        NOW,
    );
    assert_eq!(row.id, "guardian-review-1");
    assert_eq!(row.family, ToolFamily::Approval);
    assert_eq!(row.kind, ToolKind::GuardianAssessment);
    assert_eq!(row.status, ToolStatus::Completed);
    let invocation: serde_json::Value = serde_json::from_str(&row.invocation).unwrap();
    assert_eq!(invocation["action"]["command"], "make test");
    assert_eq!(invocation["target_item_id"], "cmd-1");
    assert_eq!(row.summary.as_deref(), Some("Safe after review"));
    assert_eq!(row.subtitle.as_deref(), Some("high risk"));
    let result: serde_json::Value = serde_json::from_str(row.result.as_deref().unwrap()).unwrap();
    assert_eq!(result["status_label"], "approved");
    let assessment: serde_json::Value =
        serde_json::from_str(result["output"].as_str().expect("output text")).unwrap();
    assert_eq!(assessment["risk_level"], "high");
}

#[test]
fn mcp_startup_status_is_json() {
    assert_eq!(startup_status_text(McpServerStartupState::Ready, None), "\"ready\"");
    assert_eq!(
        startup_status_text(McpServerStartupState::Failed, None),
        r#"{"failed":{"error":"MCP server failed"}}"#
    );
}
