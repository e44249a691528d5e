use orbitdock_connector::codex::app_server::{
    app_server_request_id, exec_approval_response, patch_approval_response, request_key,
    take_pending_request, CodexExecApproval, CodexPatchApproval,
    CommandExecutionApprovalDecision, FileChangeApprovalDecision, RequestId,
};
use orbitdock_connector::codex::sandbox::{
    app_server_sandbox_mode, config_loader_sandbox_mode, requested_sandbox_policy_details,
    AppServerSandboxMode, CodexSandboxMode, CodexSandboxPolicy,
};
use orbitdock_connector::codex::session_inputs::{
    app_server_user_input, build_collaboration_mode, collaboration_mode_name,
    collaboration_mode_request, override_cwd, parse_mode_kind, parse_reasoning_effort,
    select_collaboration_mode_mask, CollaborationModeMask, ImageInput, MentionInput, ModeKind,
    ReasoningEffort, SkillInput, UserInputItem,
};
use orbitdock_connector::codex::overrides::{build_cli_overrides, CodexRuntimeOverrides, OverrideValue};
use orbitdock_connector::keyed::TextMap;

#[test]
fn config_loader_sandbox_mode_preserves_supported_base_values() {
    assert_eq!(config_loader_sandbox_mode(Some("workspace-write"), None), Some("workspace-write".to_string()));
    assert_eq!(
        config_loader_sandbox_mode(Some("danger-full-access"), None),
        Some("danger-full-access".to_string())
    );
}

#[test]
fn config_loader_sandbox_mode_strips_network_suffixes() {
    assert_eq!(
        config_loader_sandbox_mode(Some("workspace-write-network"), None),
        Some("workspace-write".to_string())
    );
    assert_eq!(config_loader_sandbox_mode(Some("read-only-network"), None), Some("read-only".to_string()));
}

#[test]
fn config_loader_sandbox_mode_omits_external_sandbox() {
    assert_eq!(config_loader_sandbox_mode(Some("external-sandbox"), None), None);
    assert_eq!(config_loader_sandbox_mode(Some("external-sandbox-network"), None), None);
}

#[test]
fn requested_sandbox_policy_details_prefer_explicit_details() {
    let details = CodexSandboxPolicy { mode: CodexSandboxMode::ExternalSandbox, network_access: true };
    assert_eq!(requested_sandbox_policy_details(Some("workspace-write"), Some(&details)), Some(details));
}

#[test]
fn override_cwd_uses_session_workspace_for_runtime_overrides() {
    assert_eq!(
        override_cwd(" /Users/robertdeluca/Developer/OrbitDock "),
        Some("/Users/robertdeluca/Developer/OrbitDock".to_string())
    );
    assert_eq!(override_cwd("  "), None);
}

#[test]
fn app_server_sandbox_mode_prefers_explicit_policy_details() {
    let details = CodexSandboxPolicy { mode: CodexSandboxMode::ExternalSandbox, network_access: true };
    assert_eq!(
        app_server_sandbox_mode(Some("workspace-write"), Some(&details)),
        Some(AppServerSandboxMode::WorkspaceWrite)
    );
}

#[test]
fn sandbox_modes_for_stored_names() {
    assert_eq!(app_server_sandbox_mode(Some(" read-only-network "), None), Some(AppServerSandboxMode::ReadOnly));
    assert_eq!(app_server_sandbox_mode(Some("bogus"), None), None);
    assert_eq!(config_loader_sandbox_mode(Some(" custom "), None), Some("custom".to_string()));
    assert_eq!(config_loader_sandbox_mode(Some("   "), None), None);
}

#[test]
fn request_ids_round_trip_through_keys() {
    assert_eq!(app_server_request_id("42"), RequestId::Integer(42));
    assert_eq!(app_server_request_id("-7"), RequestId::Integer(-7));
    assert_eq!(app_server_request_id("req-1"), RequestId::String("req-1".to_string()));
    let id = RequestId::Integer(9);
    assert_eq!(app_server_request_id(&request_key(&id)), id);

    let mut pending: TextMap<RequestId> = TextMap::new();
    pending.insert("abc".to_string(), RequestId::String("abc".to_string()));
    assert_eq!(take_pending_request(&mut pending, "abc"), RequestId::String("abc".to_string()));
    assert!(!pending.contains_key("abc"));
    assert_eq!(take_pending_request(&mut pending, "12"), RequestId::Integer(12));
}

#[test]
fn approval_decisions_for_the_app_server() {
    assert!(matches!(
        exec_approval_response(CodexExecApproval::ApprovedAlways { proposed_amendment: None }),
        CommandExecutionApprovalDecision::AcceptForSession
    ));
    assert!(matches!(
        exec_approval_response(CodexExecApproval::ApprovedAlways {
            proposed_amendment: Some(vec!["git".to_string()])
        }),
        CommandExecutionApprovalDecision::AcceptWithExecpolicyAmendment { command } if command == vec!["git".to_string()]
    ));
    assert!(matches!(exec_approval_response(CodexExecApproval::Abort), CommandExecutionApprovalDecision::Cancel));
    assert!(matches!(exec_approval_response(CodexExecApproval::Denied), CommandExecutionApprovalDecision::Decline));
    assert_eq!(patch_approval_response(CodexPatchApproval::Abort), FileChangeApprovalDecision::Cancel);
    assert_eq!(
        patch_approval_response(CodexPatchApproval::ApprovedForSession),
        FileChangeApprovalDecision::AcceptForSession
    );
}

#[test]
fn user_input_items_keep_their_order() {
    let items = app_server_user_input(
        "hello",
        &[SkillInput { name: "lint".to_string(), path: "/s/lint".to_string() }],
        &[
            ImageInput { input_type: "path".to_string(), value: "/tmp/a.png".to_string() },
            ImageInput { input_type: "bogus".to_string(), value: "https://x/b.png".to_string() },
        ],
        &[MentionInput { name: "main.rs".to_string(), path: "src/main.rs".to_string() }],
    );
    assert_eq!(
        items,
        vec![
            UserInputItem::Text { text: "hello".to_string() },
            UserInputItem::Skill { name: "lint".to_string(), path: "/s/lint".to_string() },
            UserInputItem::LocalImage { path: "/tmp/a.png".to_string() },
            UserInputItem::Image { url: "https://x/b.png".to_string() },
            UserInputItem::Mention { name: "main.rs".to_string(), path: "src/main.rs".to_string() },
        ]
    );
    assert!(app_server_user_input("", &[], &[], &[]).is_empty());
}

#[test]
fn collaboration_modes_by_name() {
    assert_eq!(parse_reasoning_effort("xhigh"), Some(ReasoningEffort::XHigh));
    assert_eq!(parse_reasoning_effort(" high"), None);
    assert_eq!(parse_mode_kind(" PLAN "), Some(ModeKind::Plan));
    assert_eq!(parse_mode_kind("pair_programming"), Some(ModeKind::Default));
    assert_eq!(parse_mode_kind("bogus"), None);
    assert_eq!(collaboration_mode_name(ModeKind::Execute), "default");

    assert!(collaboration_mode_request(None, None, None).is_none());
    assert_eq!(collaboration_mode_request(Some(" Plan "), Some("default"), None), Some((ModeKind::Plan, "Plan".to_string())));
    assert_eq!(collaboration_mode_request(None, None, Some("be brief")), Some((ModeKind::Default, "default".to_string())));

    let masks = vec![
        CollaborationModeMask { name: "Code".to_string(), mode: None, model: None, reasoning_effort: None },
        CollaborationModeMask {
            name: "Planner".to_string(),
            mode: Some(ModeKind::Plan),
            model: Some("gpt-plan".to_string()),
            reasoning_effort: Some(Some(ReasoningEffort::High)),
        },
    ];
    let selected = select_collaboration_mode_mask(masks.clone(), ModeKind::Plan, "plan").expect("mask");
    assert_eq!(selected.name, "Planner");
    let by_name = select_collaboration_mode_mask(masks, ModeKind::Default, " code ").expect("mask");
    assert_eq!(by_name.name, "Code");
    let mode = build_collaboration_mode(ModeKind::Plan, Some(selected), "gpt-5".to_string(), Some(ReasoningEffort::Low), Some("x"));
    assert_eq!(mode.model, "gpt-plan");
    assert_eq!(mode.reasoning_effort, Some(ReasoningEffort::High));
    assert_eq!(mode.developer_instructions.as_deref(), Some("x"));
}

fn text(key: &str, value: &str) -> (String, OverrideValue) {
    (key.to_string(), OverrideValue::Text(value.to_string()))
}

fn flag(key: &str, value: bool) -> (String, OverrideValue) {
    (key.to_string(), OverrideValue::Flag(value))
}

#[test]
fn cli_overrides_with_runtime_defaults_fill_in_reasoning_settings() {
    let runtime = CodexRuntimeOverrides {
        effort: Some("high".to_string()),
        multi_agent: Some(true),
        ..Default::default()
    };
    let entries = build_cli_overrides(
        Some("gpt-5"),
        None,
        Some("workspace-write-network"),
        None,
        &runtime,
        true,
        None,
        Some(" YES "),
        Some("concise"),
    );
    assert_eq!(
        entries,
        vec![
            text("model", "gpt-5"),
            text("approval_policy", "untrusted"),
            text("sandbox_mode", "workspace-write"),
            text("model_reasoning_effort", "high"),
            flag("show_raw_agent_reasoning", true),
            flag("hide_agent_reasoning", true),
            text("model_reasoning_summary", "concise"),
            flag("features.multi_agent", true),
        ]
    );
}

#[test]
fn cli_overrides_without_runtime_defaults_keep_only_what_was_asked() {
    let runtime = CodexRuntimeOverrides {
        approvals_reviewer: Some("guardian".to_string()),
        ..Default::default()
    };
    let entries = build_cli_overrides(None, Some("never"), None, None, &runtime, false, Some("0"), None, None);
    assert_eq!(
        entries,
        vec![text("approval_policy", "never"), text("approvals_reviewer", "guardian")]
    );
}

#[test]
fn cli_overrides_turn_summaries_off_for_spark_models() {
    let runtime = CodexRuntimeOverrides::default();
    let entries = build_cli_overrides(
        Some("GPT-5.3-Codex-Spark"),
        None,
        None,
        None,
        &runtime,
        true,
        Some("maybe"),
        None,
        Some("detailed"),
    );
    assert_eq!(
        entries,
        vec![
            text("model", "GPT-5.3-Codex-Spark"),
            text("approval_policy", "untrusted"),
            flag("show_raw_agent_reasoning", true),
            flag("hide_agent_reasoning", false),
            text("model_reasoning_summary", "none"),
        ]
    );
}
