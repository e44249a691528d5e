use orbitdock_connector::codex::buffers::{OutputBufferState, OUTPUT_PREVIEW_CHAR_LIMIT};
use orbitdock_connector::codex::items::{command_execution_tool_status, CommandExecutionStatus};
use orbitdock_connector::codex::signals::{
    map_token_usage, stream_error_should_surface_to_timeline, CodexErrorInfo, StreamErrorEvent,
    ThreadTokenUsage, TokenUsageBreakdown,
};
use orbitdock_connector::transition::connector::{
    ConnectorOutput, ConnectorRuntimeDirective, ConnectorStateEvent, ConnectorTransportEffect,
};
use orbitdock_connector::transition::model::{TokenUsageSnapshotKind, ToolStatus};

fn usage_breakdown(
    total_tokens: i64,
    input_tokens: i64,
    cached_input_tokens: i64,
    output_tokens: i64,
) -> TokenUsageBreakdown {
    TokenUsageBreakdown {
        total_tokens,
        input_tokens,
        cached_input_tokens,
        output_tokens,
        reasoning_output_tokens: 0,
    }
}

#[test]
fn token_usage_uses_last_for_live_context_and_total_for_accounting() {
    let outputs = map_token_usage(ThreadTokenUsage {
        total: usage_breakdown(101_600_000, 101_600_000, 12_000, 50_000),
        last: usage_breakdown(64_000, 64_000, 8_000, 2_000),
        model_context_window: Some(258_400),
    });

    let live = outputs
        .first()
        .and_then(ConnectorOutput::as_state_event)
        .expect("live token output");
    let accounting = outputs
        .get(1)
        .and_then(ConnectorOutput::as_state_event)
        .expect("accounting token output");

    match live {
        ConnectorStateEvent::TokensUpdated {
            usage,
            snapshot_kind,
        } => {
            assert_eq!(*snapshot_kind, TokenUsageSnapshotKind::ContextTurn);
            assert_eq!(usage.input_tokens, 64_000);
            assert_eq!(usage.cached_tokens, 8_000);
            assert_eq!(usage.output_tokens, 2_000);
            assert_eq!(usage.context_window, 258_400);
        }
        other => panic!("expected live tokens_updated output, got {other:?}"),
    }

    match accounting {
        ConnectorStateEvent::TurnUsageUpdated {
            usage,
            snapshot_kind,
        } => {
            assert_eq!(*snapshot_kind, TokenUsageSnapshotKind::LifetimeTotals);
            assert_eq!(usage.input_tokens, 101_600_000);
            assert_eq!(usage.cached_tokens, 12_000);
            assert_eq!(usage.output_tokens, 50_000);
            assert_eq!(usage.context_window, 258_400);
        }
        other => panic!("expected turn_usage_updated output, got {other:?}"),
    }
}

#[test]
fn declined_command_execution_maps_to_cancelled_tool_status() {
    assert_eq!(
        command_execution_tool_status(CommandExecutionStatus::Declined, false, None),
        ToolStatus::Cancelled
    );
}

#[test]
fn codex_output_classifies_pty_events_as_transport_only() {
    let created = ConnectorOutput::Transport(ConnectorTransportEffect::ToolPtyCreated {
        tool_id: "tool-pty-1".to_string(),
    });
    match &created {
        ConnectorOutput::Transport(ConnectorTransportEffect::ToolPtyCreated { tool_id }) => {
            assert_eq!(tool_id, "tool-pty-1");
        }
        other => panic!("expected transport PTY create output, got {other:?}"),
    }

    let output = ConnectorOutput::Transport(ConnectorTransportEffect::ToolPtyOutput {
        tool_id: "tool-pty-1".to_string(),
        bytes: b"hello".to_vec(),
    });
    match &output {
        ConnectorOutput::Transport(ConnectorTransportEffect::ToolPtyOutput { tool_id, bytes }) => {
            assert_eq!(tool_id, "tool-pty-1");
            assert_eq!(bytes, b"hello");
        }
        other => panic!("expected transport PTY output, got {other:?}"),
    }

    let runtime = ConnectorOutput::Runtime(ConnectorRuntimeDirective::DynamicToolCallRequested {
        call_id: "call-1".to_string(),
        tool_name: "file_read".to_string(),
        arguments: r#"{"path":"README.md"}"#.to_string(),
    });
    match &runtime {
        ConnectorOutput::Runtime(ConnectorRuntimeDirective::DynamicToolCallRequested {
            call_id,
            tool_name,
            arguments,
        }) => {
            assert_eq!(call_id, "call-1");
            assert_eq!(tool_name, "file_read");
            let arguments: serde_json::Value =
                serde_json::from_str(arguments).expect("arguments are JSON");
            assert_eq!(arguments["path"], "README.md");
        }
        other => panic!("expected runtime directive output, got {other:?}"),
    }
}

#[test]
fn retryable_response_stream_disconnects_do_not_surface_to_timeline() {
    let event = StreamErrorEvent {
        message: "Reconnecting... 2/5".to_string(),
        codex_error_info: Some(CodexErrorInfo::ResponseStreamDisconnected {
            http_status_code: None,
        }),
        additional_details: Some(
            "stream disconnected before completion: WebSocket protocol error".to_string(),
        ),
    };

    assert!(!stream_error_should_surface_to_timeline(&event));
}

#[test]
fn non_retryable_stream_errors_still_surface_to_timeline() {
    let event = StreamErrorEvent {
        message: "stream failed".to_string(),
        codex_error_info: Some(CodexErrorInfo::Other),
        additional_details: None,
    };

    assert!(stream_error_should_surface_to_timeline(&event));
}

#[test]
fn output_buffer_keeps_full_output_but_trims_preview_tail() {
    let mut state = OutputBufferState::default();
    state.append(&"a".repeat(9000));
    state.append("tail");

    assert_eq!(state.full_output.len(), 9004);
    let preview = state.preview().expect("preview output");
    assert!(preview.len() <= OUTPUT_PREVIEW_CHAR_LIMIT);
    assert!(preview.ends_with("tail"));
}
