use orbitdock_connector::codex::model_defaults::{
    apply_orbitdock_provider_defaults, external_model_catalog_action, is_openrouter_provider,
    merge_external_model_instructions, should_force_apply_patch, synthetic_external_model_info,
    ApplyPatchToolType, CatalogAction, ModelInstructions, ModelMessages, ModelProviderInfo,
};
use orbitdock_connector::keyed::TextMap;

const BASE: &str = "Tool invocation contract: call `exec_command` for shell work.";

fn openrouter(headers: Option<TextMap<String>>) -> ModelProviderInfo {
    ModelProviderInfo {
        name: "OpenRouter".to_string(),
        base_url: Some("https://openrouter.ai/api/v1".to_string()),
        http_headers: headers,
    }
}

#[test]
fn orbitdock_provider_defaults_add_openrouter_attribution_headers() {
    let mut providers: TextMap<ModelProviderInfo> = TextMap::new();
    providers.insert("openrouter".to_string(), openrouter(None));
    apply_orbitdock_provider_defaults("openrouter", &mut providers);
    let provider = providers.get("openrouter").expect("provider should exist");
    let headers = provider.http_headers.as_ref().expect("headers should be set");
    assert_eq!(headers.get("HTTP-Referer").map(String::as_str), Some("https://orbitdock.dev"));
    assert_eq!(headers.get("X-OpenRouter-Title").map(String::as_str), Some("OrbitDock"));
}

#[test]
fn orbitdock_provider_defaults_preserve_existing_openrouter_headers() {
    let mut existing: TextMap<String> = TextMap::new();
    existing.insert("HTTP-Referer".to_string(), "https://custom.example".to_string());
    existing.insert("X-Title".to_string(), "Custom Title".to_string());
    let mut providers: TextMap<ModelProviderInfo> = TextMap::new();
    providers.insert("openrouter".to_string(), openrouter(Some(existing)));
    apply_orbitdock_provider_defaults("openrouter", &mut providers);
    let provider = providers.get("openrouter").expect("provider should exist");
    let headers = provider.http_headers.as_ref().expect("headers should be set");
    assert_eq!(headers.get("HTTP-Referer").map(String::as_str), Some("https://custom.example"));
    assert_eq!(headers.get("X-Title").map(String::as_str), Some("Custom Title"));
    assert!(!headers.contains_key("X-OpenRouter-Title"));
}

#[test]
fn other_providers_keep_their_headers() {
    let provider = ModelProviderInfo {
        name: "Ollama".to_string(),
        base_url: Some("http://localhost:11434/v1".to_string()),
        http_headers: None,
    };
    assert!(!is_openrouter_provider("ollama", &provider));
    assert!(is_openrouter_provider("custom", &ModelProviderInfo {
        name: "x".to_string(),
        base_url: Some("https://OpenRouter.AI/api".to_string()),
        http_headers: None,
    }));
    let mut providers: TextMap<ModelProviderInfo> = TextMap::new();
    providers.insert("ollama".to_string(), provider);
    apply_orbitdock_provider_defaults("ollama", &mut providers);
    assert!(providers.get("ollama").expect("provider").http_headers.is_none());
}

#[test]
fn custom_provider_should_enable_apply_patch_override() {
    assert!(should_force_apply_patch("openrouter", false, false));
    assert!(!should_force_apply_patch("openrouter", false, true));
}

#[test]
fn openai_provider_should_not_enable_apply_patch_override() {
    assert!(!should_force_apply_patch("OpenAI", false, false));
    assert!(!should_force_apply_patch("azure", true, false));
}

#[test]
fn external_model_defaults_choose_what_to_do_with_the_catalog() {
    assert_eq!(external_model_catalog_action(None, "openrouter", false, &[]), CatalogAction::Untouched);
    assert_eq!(external_model_catalog_action(Some("gpt-5.4"), "openai", true, &[]), CatalogAction::Untouched);
    assert_eq!(
        external_model_catalog_action(Some("z-ai/glm-5v-turbo"), "openrouter", false, &[]),
        CatalogAction::AddSynthetic
    );
    assert_eq!(
        external_model_catalog_action(
            Some("gemma4:e4b"),
            "ollama",
            false,
            &["llama".to_string(), "gemma4".to_string()]
        ),
        CatalogAction::MergeInto(1)
    );
}

#[test]
fn synthetic_models_carry_the_external_instructions() {
    let info = synthetic_external_model_info("z-ai/glm-5v-turbo", "openrouter", BASE);
    assert_eq!(info.slug, "z-ai/glm-5v-turbo");
    assert_eq!(info.description, "OrbitDock synthetic metadata for external provider `openrouter`.");
    assert_eq!(info.instructions.apply_patch_tool_type, Some(ApplyPatchToolType::Function));
    assert!(info.instructions.base_instructions.contains("Tool invocation contract:"));
    let messages = info.instructions.model_messages.as_ref().expect("messages");
    assert!(messages.instructions_template.as_deref().unwrap().ends_with("{{ personality }}"));
    assert_eq!(info.context_window, 272_000);
}

#[test]
fn external_model_defaults_merge_into_existing_catalog_model() {
    let mut model = ModelInstructions {
        base_instructions: "Provider baseline instructions.".to_string(),
        model_messages: Some(ModelMessages {
            instructions_template: Some("Provider template guidance.".to_string()),
            instructions_variables: None,
        }),
        apply_patch_tool_type: None,
    };
    merge_external_model_instructions(&mut model, BASE);
    assert!(model.base_instructions.contains("Provider baseline instructions."));
    assert!(model.base_instructions.contains("Tool invocation contract:"));
    assert_eq!(model.apply_patch_tool_type, Some(ApplyPatchToolType::Function));
    let messages = model.model_messages.as_ref().expect("model messages should exist");
    let template = messages.instructions_template.as_deref().expect("template should exist");
    assert!(template.contains("Provider template guidance."));
    assert!(template.contains("Tool invocation contract:"));
    assert!(template.contains("{{ personality }}"));
    let vars = messages.instructions_variables.as_ref().expect("instruction variables should exist");
    assert_eq!(vars.personality_default.as_deref(), Some(""));
    assert!(vars.personality_friendly.is_some());
    assert!(vars.personality_pragmatic.is_some());

    let once = model.clone();
    merge_external_model_instructions(&mut model, BASE);
    assert_eq!(model, once);
}
