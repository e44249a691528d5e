use orbitdock_connector::codex::policy::{
    model_rejects_reasoning_summary, parse_approvals_reviewer, parse_personality,
    parse_reasoning_summary, parse_service_tier_override, reasoning_summary_for_model,
    should_disable_reasoning_summary, ApprovalsReviewer, Personality, ReasoningSummary,
    ServiceTier,
};
use orbitdock_connector::codex::timeline::{
    hook_completed_text, hook_output_text, hook_run_is_error, hook_started_text,
    realtime_text_from_handoff_request, HookEventName, HookRunStatus, HookRunSummary,
    RealtimeHandoffRequested, TranscriptMessage,
};
use orbitdock_connector::codex::tools::{display_command_from_exec_tokens, summarize_shell_output};
use orbitdock_connector::codex::warnings::map_warning;

#[test]
fn display_command_from_exec_tokens_strips_shell_launcher_prefixes() {
    assert_eq!(
        display_command_from_exec_tokens(&[
            "/bin/zsh".to_string(),
            "-lc".to_string(),
            "swiftc --version".to_string(),
        ]),
        "swiftc --version"
    );
    assert_eq!(
        display_command_from_exec_tokens(&[
            "/usr/bin/env".to_string(),
            "SHELL=/bin/bash".to_string(),
            "/bin/bash".to_string(),
            "-lc".to_string(),
            "cargo test -p orbitdock-server".to_string(),
        ]),
        "cargo test -p orbitdock-server"
    );
    assert_eq!(
        display_command_from_exec_tokens(&[
            "pwsh".to_string(),
            "-NoProfile".to_string(),
            "-Command".to_string(),
            "Get-Item .".to_string(),
        ]),
        "Get-Item ."
    );
}

#[test]
fn display_command_from_exec_tokens_preserves_non_shell_commands() {
    assert_eq!(
        display_command_from_exec_tokens(&["swiftc".to_string(), "-print-target-info".to_string()]),
        "swiftc -print-target-info"
    );
    assert_eq!(
        display_command_from_exec_tokens(&[
            "python3".to_string(),
            "-m".to_string(),
            "pip".to_string()
        ]),
        "python3 -m pip"
    );
}

#[test]
fn shell_output_summary_truncates_unicode_on_char_boundary() {
    let output = "é".repeat(120);
    let summary = summarize_shell_output(&output);

    assert_eq!(summary.chars().count(), 103);
    assert!(summary.ends_with("..."));
}

#[test]
fn model_rejects_reasoning_summary_for_spark() {
    assert!(model_rejects_reasoning_summary(Some("gpt-5.3-codex-spark")));
}

#[test]
fn model_rejects_reasoning_summary_for_prefixed_spark() {
    assert!(model_rejects_reasoning_summary(Some("openai/gpt-5.3-codex-spark")));
}

#[test]
fn model_allows_reasoning_summary_for_non_spark() {
    assert!(!model_rejects_reasoning_summary(Some("gpt-5.3-codex")));
    assert!(!model_rejects_reasoning_summary(None));
}

#[test]
fn should_disable_reasoning_summary_when_model_does_not_support_it() {
    assert!(should_disable_reasoning_summary(Some("gpt-5.3-codex"), false));
}

#[test]
fn should_disable_reasoning_summary_for_known_spark_mismatch() {
    assert!(should_disable_reasoning_summary(Some("gpt-5.3-codex-spark"), true));
}

#[test]
fn should_keep_reasoning_summary_for_supported_non_spark_models() {
    assert!(!should_disable_reasoning_summary(Some("gpt-5.3-codex"), true));
}

#[test]
fn parse_reasoning_summary_maps_expected_values() {
    assert_eq!(parse_reasoning_summary("auto"), Some(ReasoningSummary::Auto));
    assert_eq!(parse_reasoning_summary("concise"), Some(ReasoningSummary::Concise));
    assert_eq!(parse_reasoning_summary("detailed"), Some(ReasoningSummary::Detailed));
    assert_eq!(parse_reasoning_summary("none"), Some(ReasoningSummary::Off));
    assert_eq!(parse_reasoning_summary("invalid"), None);
}

#[test]
fn reasoning_summary_for_model_forces_none_for_spark() {
    assert_eq!(
        reasoning_summary_for_model(Some("gpt-5.3-codex-spark"), ReasoningSummary::Detailed),
        ReasoningSummary::Off
    );
}

#[test]
fn reasoning_summary_for_model_keeps_preferred_for_non_spark() {
    assert_eq!(
        reasoning_summary_for_model(Some("gpt-5.3-codex"), ReasoningSummary::Concise),
        ReasoningSummary::Concise
    );
}

#[test]
fn parse_personality_maps_known_values() {
    assert_eq!(parse_personality(Some("friendly")), Some(Personality::Friendly));
    assert_eq!(parse_personality(Some("Pragmatic")), Some(Personality::Pragmatic));
    assert_eq!(parse_personality(Some("none")), Some(Personality::Neutral));
    assert_eq!(parse_personality(Some("unknown")), None);
}

#[test]
fn parse_service_tier_override_supports_set_and_clear() {
    assert_eq!(parse_service_tier_override(Some("fast")), Some(Some(ServiceTier::Fast)));
    assert_eq!(parse_service_tier_override(Some("flex")), Some(Some(ServiceTier::Flex)));
    assert_eq!(parse_service_tier_override(Some("none")), Some(None));
    assert_eq!(parse_service_tier_override(Some("bogus")), None);
}

#[test]
fn parse_approvals_reviewer_recognizes_auto_review_aliases() {
    assert_eq!(
        parse_approvals_reviewer(Some("guardian_subagent")),
        Some(ApprovalsReviewer::AutoReview)
    );
    assert_eq!(
        parse_approvals_reviewer(Some("auto_review")),
        Some(ApprovalsReviewer::AutoReview)
    );
}

#[test]
fn parse_service_tier_override_maps_known_values() {
    assert_eq!(parse_service_tier_override(Some("fast")), Some(Some(ServiceTier::Fast)));
    assert_eq!(parse_service_tier_override(Some("off")), Some(None));
}

#[test]
fn realtime_handoff_text_prefers_messages() {
    let handoff = RealtimeHandoffRequested {
        input_transcript: "fallback".to_string(),
        active_transcript: vec![
            TranscriptMessage {
                role: "user".to_string(),
                text: "delegate now".to_string(),
            },
            TranscriptMessage {
                role: "assistant".to_string(),
                text: "working on it".to_string(),
            },
        ],
    };

    assert_eq!(
        realtime_text_from_handoff_request(&handoff),
        Some("user: delegate now\nassistant: working on it".to_string())
    );
}

#[test]
fn realtime_handoff_text_falls_back_to_input_transcript() {
    let handoff = RealtimeHandoffRequested {
        input_transcript: "delegate now".to_string(),
        active_transcript: vec![],
    };

    assert_eq!(
        realtime_text_from_handoff_request(&handoff),
        Some("delegate now".to_string())
    );
}

#[test]
fn hook_helpers_emit_readable_timeline_text() {
    let run = HookRunSummary {
        event_name: HookEventName::Stop,
        status: HookRunStatus::Completed,
        source_path: "/tmp/stop-hook.sh".to_string(),
        status_message: Some("Cleared temporary state".to_string()),
        entries: vec!["Removed stale files".to_string()],
    };

    assert_eq!(hook_started_text(&run), "Running stop hook via stop-hook.sh");
    assert_eq!(
        hook_completed_text(&run),
        "stop hook completed via stop-hook.sh: Cleared temporary state"
    );
    assert_eq!(
        hook_output_text(&run).as_deref(),
        Some("Cleared temporary state\nRemoved stale files")
    );
    assert!(!hook_run_is_error(run.status));
}

#[test]
fn hook_helpers_render_user_prompt_submit_label() {
    let run = HookRunSummary {
        event_name: HookEventName::UserPromptSubmit,
        status: HookRunStatus::Completed,
        source_path: "/tmp/prompt-submit-hook.sh".to_string(),
        status_message: None,
        entries: vec![],
    };

    assert_eq!(
        hook_started_text(&run),
        "Running prompt submit hook via prompt-submit-hook.sh"
    );
    assert_eq!(
        hook_completed_text(&run),
        "prompt submit hook completed via prompt-submit-hook.sh"
    );
}

#[test]
fn hook_helpers_flag_failed_runs_as_errors() {
    let run = HookRunSummary {
        event_name: HookEventName::SessionStart,
        status: HookRunStatus::Failed,
        source_path: "/tmp/session-start.prompt".to_string(),
        status_message: None,
        entries: vec!["Prompt validation failed".to_string()],
    };

    assert_eq!(
        hook_completed_text(&run),
        "session start hook failed via session-start.prompt"
    );
    assert_eq!(
        hook_output_text(&run).as_deref(),
        Some("Prompt validation failed")
    );
    assert!(hook_run_is_error(run.status));
}

#[test]
fn startup_skills_trimmed_warning_stays_out_of_timeline() {
    let outputs = map_warning(
        "Some enabled skills were not included in the model-visible skills list for this session."
            .to_string(),
    );
    assert!(outputs.is_empty());
}

#[test]
fn skills_context_budget_warning_stays_out_of_timeline() {
    let outputs = map_warning(
        "Warning: Exceeded skills context budget of 2%. Loaded skill descriptions were truncated by an average of 84 characters per skill."
            .to_string(),
    );
    assert!(outputs.is_empty());
}

#[test]
fn codex_transport_fallback_warning_stays_out_of_timeline() {
    let outputs = map_warning(
        "Falling back from WebSockets to HTTPS transport. stream disconnected before completion: websocket closed by server before response.completed"
            .to_string(),
    );
    assert!(outputs.is_empty());
}
