//! Defaults for providers and models other than OpenAI's: attribution
//! headers for OpenRouter, the instructions and tool shape external models
//! need, and when the apply-patch tool is forced on.

use crate::codex::format::{merge_instruction_text, merged_instructions};
use crate::keyed::TextMap;
use crate::text::{ascii_lower_seq, concat3, copy_string, has_infix, has_prefix, opt_string_view, str_ascii_lower, str_contains, str_eq, str_starts_with};
use vstd::prelude::*;

verus! {

/// Where OpenRouter is told requests come from.
pub const ORBITDOCK_OPENROUTER_SITE_URL: &'static str = "https://orbitdock.dev";

/// The title OpenRouter shows for requests.
pub const ORBITDOCK_OPENROUTER_TITLE: &'static str = "OrbitDock";

/// Where the personality text goes in an external model's template.
pub const ORBITDOCK_EXTERNAL_MODEL_PERSONALITY_PLACEHOLDER: &'static str = "{{ personality }}";

/// The friendly personality of an external model.
pub const ORBITDOCK_EXTERNAL_MODEL_FRIENDLY_TEMPLATE: &'static str =
    "You optimize for team morale and being a supportive teammate as much as code quality.";

/// The pragmatic personality of an external model.
pub const ORBITDOCK_EXTERNAL_MODEL_PRAGMATIC_TEMPLATE: &'static str = "You are a deeply pragmatic, effective software engineer.";

// ---------------------------------------------------------------------------
// Providers
// ---------------------------------------------------------------------------

/// What the defaults read of a model provider: its name, its base URL and
/// the headers it sends.
pub struct ModelProviderInfo {
    pub name: String,
    pub base_url: Option<String>,
    pub http_headers: Option<TextMap<String>>,
}

/// Whether a provider is OpenRouter: by its id or name in any ASCII case,
/// or by a base URL naming openrouter.ai.
pub open spec fn is_openrouter(provider_id: Seq<char>, name: Seq<char>, base_url: Option<Seq<char>>) -> bool {
    ascii_lower_seq(provider_id) == "openrouter"@ || ascii_lower_seq(name) == "openrouter"@ || match base_url {
        Some(u) => has_infix(ascii_lower_seq(u), "openrouter.ai"@),
        None => false,
    }
}

/// Whether a provider is OpenRouter.
pub fn is_openrouter_provider(provider_id: &str, provider: &ModelProviderInfo) -> (r: bool)
    ensures
        r == is_openrouter(provider_id@, provider.name@, opt_string_view(provider.base_url)),
{
    if str_eq(str_ascii_lower(provider_id).as_str(), "openrouter") {
        return true;
    }
    if str_eq(str_ascii_lower(provider.name.as_str()).as_str(), "openrouter") {
        return true;
    }
    match &provider.base_url {
        Some(u) => str_contains(str_ascii_lower(u.as_str()).as_str(), "openrouter.ai"),
        None => false,
    }
}

/// The headers OpenRouter gets: a referer unless one is set, and a title
/// unless either title header is set.
pub open spec fn attributed(headers: Map<Seq<char>, String>) -> Map<Seq<char>, Seq<char>> {
    let views = headers.map_values(|v: String| v@);
    let with_referer = if views.contains_key("HTTP-Referer"@) {
        views
    } else {
        views.insert("HTTP-Referer"@, ORBITDOCK_OPENROUTER_SITE_URL@)
    };
    if views.contains_key("X-OpenRouter-Title"@) || views.contains_key("X-Title"@) {
        with_referer
    } else {
        with_referer.insert("X-OpenRouter-Title"@, ORBITDOCK_OPENROUTER_TITLE@)
    }
}

/// The provider's headers as values; none set counts as empty.
pub open spec fn headers_of(p: ModelProviderInfo) -> Map<Seq<char>, Seq<char>> {
    match p.http_headers {
        Some(h) => h@.map_values(|v: String| v@),
        None => Map::empty(),
    }
}

fn attribute(headers: &mut TextMap<String>)
    ensures
        final(headers)@.map_values(|v: String| v@) == attributed(old(headers)@),
{
    let ghost h0 = headers@;
    proof {
        reveal_strlit("HTTP-Referer");
        reveal_strlit("X-Title");
        reveal_strlit("X-OpenRouter-Title");
        assert("HTTP-Referer"@[0] != "X-Title"@[0]);
        assert("HTTP-Referer"@[0] != "X-OpenRouter-Title"@[0]);
        assert("HTTP-Referer"@ != "X-Title"@);
        assert("HTTP-Referer"@ != "X-OpenRouter-Title"@);
    }
    if !headers.contains_key("HTTP-Referer") {
        headers.insert("HTTP-Referer".to_string(), ORBITDOCK_OPENROUTER_SITE_URL.to_string());
    }
    let ghost h1 = headers@;
    assert(h1.map_values(|v: String| v@) =~= (if h0.map_values(|v: String| v@).contains_key("HTTP-Referer"@) {
        h0.map_values(|v: String| v@)
    } else {
        h0.map_values(|v: String| v@).insert("HTTP-Referer"@, ORBITDOCK_OPENROUTER_SITE_URL@)
    }));
    assert(h1.contains_key("X-Title"@) == h0.contains_key("X-Title"@));
    assert(h1.contains_key("X-OpenRouter-Title"@) == h0.contains_key("X-OpenRouter-Title"@));
    assert(h0.map_values(|v: String| v@).contains_key("X-Title"@) == h0.contains_key("X-Title"@));
    assert(h0.map_values(|v: String| v@).contains_key("X-OpenRouter-Title"@) == h0.contains_key(
        "X-OpenRouter-Title"@,
    ));
    if !h0_has_title(headers) {
        headers.insert("X-OpenRouter-Title".to_string(), ORBITDOCK_OPENROUTER_TITLE.to_string());
        assert(headers@.map_values(|v: String| v@) =~= h1.map_values(|v: String| v@).insert(
            "X-OpenRouter-Title"@,
            ORBITDOCK_OPENROUTER_TITLE@,
        ));
    }
}

fn h0_has_title(headers: &TextMap<String>) -> (r: bool)
    ensures
        r == (headers@.contains_key("X-OpenRouter-Title"@) || headers@.contains_key("X-Title"@)),
{
    headers.contains_key("X-OpenRouter-Title") || headers.contains_key("X-Title")
}

/// The OpenRouter defaults of the configured provider: when it is
/// OpenRouter, its headers get a referer and a title unless they have
/// them; other providers are left as they are.
pub fn apply_orbitdock_provider_defaults(provider_id: &str, providers: &mut TextMap<ModelProviderInfo>)
    ensures
        final(providers)@.dom() == old(providers)@.dom(),
        forall|k: Seq<char>| k != provider_id@ && old(providers)@.contains_key(k) ==> #[trigger] final(providers)@[k] == old(providers)@[k],
        old(providers)@.contains_key(provider_id@) ==> {
            let p0 = old(providers)@[provider_id@];
            let p1 = final(providers)@[provider_id@];
            &&& p1.name == p0.name
            &&& p1.base_url == p0.base_url
            &&& is_openrouter(provider_id@, p0.name@, opt_string_view(p0.base_url)) ==> p1.http_headers is Some
                && headers_of(p1) == attributed(
                match p0.http_headers {
                    Some(h) => h@,
                    None => Map::empty(),
                },
            )
            &&& !is_openrouter(provider_id@, p0.name@, opt_string_view(p0.base_url)) ==> p1 == p0
        },
{
    let ghost before = providers@;
    let taken = providers.take(provider_id);
    match taken {
        None => {
            assert(providers@ =~= before);
        },
        Some(mut provider) => {
            let ghost p0 = provider;
            if is_openrouter_provider(provider_id, &provider) {
                let mut headers = match provider.http_headers {
                    Some(h) => h,
                    None => TextMap::new(),
                };
                attribute(&mut headers);
                provider.http_headers = Some(headers);
            }
            providers.insert(provider_id.to_string(), provider);
            assert(providers@.dom() =~= before.dom());
        },
    }
}

// ---------------------------------------------------------------------------
// External models
// ---------------------------------------------------------------------------

/// The personality texts of a model's instructions.
#[derive(Debug, Clone, PartialEq, Eq)]
pub struct ModelInstructionsVariables {
    pub personality_default: Option<String>,
    pub personality_friendly: Option<String>,
    pub personality_pragmatic: Option<String>,
}

/// A model's instructions template and its personality texts.
#[derive(Debug, Clone, PartialEq, Eq)]
pub struct ModelMessages {
    pub instructions_template: Option<String>,
    pub instructions_variables: Option<ModelInstructionsVariables>,
}

/// How a model is offered the apply-patch tool.
#[derive(Debug, Clone, Copy, PartialEq, Eq, Structural)]
pub enum ApplyPatchToolType {
    Freeform,
    Function,
}

/// What the external defaults change of a catalog model: its base
/// instructions, its messages and how it gets the apply-patch tool.
#[derive(Debug, Clone, PartialEq, Eq)]
pub struct ModelInstructions {
    pub base_instructions: String,
    pub model_messages: Option<ModelMessages>,
    pub apply_patch_tool_type: Option<ApplyPatchToolType>,
}

/// The template of an external model: the base instructions, a blank line,
/// and where the personality goes.
pub open spec fn external_template(base: Seq<char>) -> Seq<char> {
    base + "\n\n"@ + ORBITDOCK_EXTERNAL_MODEL_PERSONALITY_PLACEHOLDER@
}

/// A text that may be missing, as a value, with a default.
pub open spec fn or_else(o: Option<String>, d: Seq<char>) -> Seq<char> {
    match o {
        Some(s) => s@,
        None => d,
    }
}

/// The personality texts after the external defaults: each that is set
/// stays, a missing one gets the external default (empty for the default
/// personality).
pub open spec fn merged_variables(v: Option<ModelInstructionsVariables>) -> (Seq<char>, Seq<char>, Seq<char>) {
    match v {
        Some(x) => (
            or_else(x.personality_default, Seq::empty()),
            or_else(x.personality_friendly, ORBITDOCK_EXTERNAL_MODEL_FRIENDLY_TEMPLATE@),
            or_else(x.personality_pragmatic, ORBITDOCK_EXTERNAL_MODEL_PRAGMATIC_TEMPLATE@),
        ),
        None => (Seq::empty(), ORBITDOCK_EXTERNAL_MODEL_FRIENDLY_TEMPLATE@, ORBITDOCK_EXTERNAL_MODEL_PRAGMATIC_TEMPLATE@),
    }
}

/// The instruction parts as values: base instructions, template and
/// personality texts (all set), and the tool shape.
pub open spec fn instructions_view(m: ModelInstructions) -> Option<(Seq<char>, Seq<char>, (Seq<char>, Seq<char>, Seq<char>), Option<ApplyPatchToolType>)> {
    match m.model_messages {
        Some(msg) => match (msg.instructions_template, msg.instructions_variables) {
            (Some(t), Some(v)) => match (v.personality_default, v.personality_friendly, v.personality_pragmatic) {
                (Some(d), Some(f), Some(p)) => Some((m.base_instructions@, t@, (d@, f@, p@), m.apply_patch_tool_type)),
                _ => None,
            },
            _ => None,
        },
        None => None,
    }
}

/// A model's instructions after the external defaults: the base
/// instructions merged with `base`, the template merged with the external
/// one (or the external one when there is none), missing personality
/// texts filled in, and the apply-patch tool as a function unless set.
pub open spec fn merged_model(m: ModelInstructions, base: Seq<char>) -> (Seq<char>, Seq<char>, (Seq<char>, Seq<char>, Seq<char>), Option<ApplyPatchToolType>) {
    let template = match m.model_messages {
        Some(msg) => merged_instructions(or_else(msg.instructions_template, Seq::empty()), external_template(base)),
        None => external_template(base),
    };
    let variables = match m.model_messages {
        Some(msg) => merged_variables(msg.instructions_variables),
        None => merged_variables(None),
    };
    (
        merged_instructions(m.base_instructions@, base),
        template,
        variables,
        match m.apply_patch_tool_type {
            Some(t) => Some(t),
            None => Some(ApplyPatchToolType::Function),
        },
    )
}

fn fill(o: Option<String>, d: &str) -> (r: Option<String>)
    ensures
        r matches Some(s) && s@ == or_else(o, d@),
{
    match o {
        Some(s) => Some(s),
        None => Some(d.to_string()),
    }
}

/// Merges the external defaults into a model's instructions; `base` is
/// the external model instructions.
pub fn merge_external_model_instructions(model: &mut ModelInstructions, base: &str)
    ensures
        instructions_view(*final(model)) == Some(merged_model(*old(model), base@)),
{
    let ghost m0 = *model;
    let template = concat3(base, "\n\n", ORBITDOCK_EXTERNAL_MODEL_PERSONALITY_PLACEHOLDER);
    model.base_instructions = merge_instruction_text(model.base_instructions.as_str(), base);
    let messages = match model.model_messages.take() {
        Some(existing) => {
            let t = match &existing.instructions_template {
                Some(t) => merge_instruction_text(t.as_str(), template.as_str()),
                None => merge_instruction_text("", template.as_str()),
            };
            proof {
                if existing.instructions_template is None {
                    assert(""@ =~= Seq::<char>::empty()) by {
                        reveal_strlit("");
                    }
                }
            }
            let vars = match existing.instructions_variables {
                Some(v) => ModelInstructionsVariables {
                    personality_default: fill(v.personality_default, ""),
                    personality_friendly: fill(v.personality_friendly, ORBITDOCK_EXTERNAL_MODEL_FRIENDLY_TEMPLATE),
                    personality_pragmatic: fill(v.personality_pragmatic, ORBITDOCK_EXTERNAL_MODEL_PRAGMATIC_TEMPLATE),
                },
                None => ModelInstructionsVariables {
                    personality_default: fill(None, ""),
                    personality_friendly: fill(None, ORBITDOCK_EXTERNAL_MODEL_FRIENDLY_TEMPLATE),
                    personality_pragmatic: fill(None, ORBITDOCK_EXTERNAL_MODEL_PRAGMATIC_TEMPLATE),
                },
            };
            proof {
                reveal_strlit("");
            }
            ModelMessages { instructions_template: Some(t), instructions_variables: Some(vars) }
        },
        None => {
            proof {
                reveal_strlit("");
            }
            ModelMessages {
                instructions_template: Some(copy_string(&template)),
                instructions_variables: Some(
                    ModelInstructionsVariables {
                        personality_default: Some(String::new()),
                        personality_friendly: Some(ORBITDOCK_EXTERNAL_MODEL_FRIENDLY_TEMPLATE.to_string()),
                        personality_pragmatic: Some(ORBITDOCK_EXTERNAL_MODEL_PRAGMATIC_TEMPLATE.to_string()),
                    },
                ),
            }
        },
    };
    model.model_messages = Some(messages);
    if model.apply_patch_tool_type.is_none() {
        model.apply_patch_tool_type = Some(ApplyPatchToolType::Function);
    }
}

/// The model entry OrbitDock makes for an external model the catalog does
/// not know.
#[derive(Debug, Clone, PartialEq, Eq)]
pub struct SyntheticModelInfo {
    pub slug: String,
    pub display_name: String,
    pub description: String,
    pub supported_in_api: bool,
    pub priority: i32,
    pub instructions: ModelInstructions,
    pub supports_reasoning_summaries: bool,
    pub truncation_bytes: u64,
    pub context_window: i64,
    pub max_context_window: i64,
    pub effective_context_window_percent: i64,
}

/// The model entry for an external model of a provider: named by its
/// slug, described as synthetic for the provider, with the external
/// instructions and a 272,000-token window of which 95% is used.
pub fn synthetic_external_model_info(model_slug: &str, provider_id: &str, base: &str) -> (r: SyntheticModelInfo)
    ensures
        r.slug@ == model_slug@,
        r.display_name@ == model_slug@,
        r.description@ == "OrbitDock synthetic metadata for external provider `"@ + provider_id@ + "`."@,
        r.supported_in_api,
        r.priority == 99,
        !r.supports_reasoning_summaries,
        r.truncation_bytes == 10_000,
        r.context_window == 272_000,
        r.max_context_window == 272_000,
        r.effective_context_window_percent == 95,
        instructions_view(r.instructions) == Some(
            (
                base@,
                external_template(base@),
                (Seq::<char>::empty(), ORBITDOCK_EXTERNAL_MODEL_FRIENDLY_TEMPLATE@, ORBITDOCK_EXTERNAL_MODEL_PRAGMATIC_TEMPLATE@),
                Some(ApplyPatchToolType::Function),
            ),
        ),
{
    proof {
        reveal_strlit("");
    }
    SyntheticModelInfo {
        slug: model_slug.to_string(),
        display_name: model_slug.to_string(),
        description: concat3("OrbitDock synthetic metadata for external provider `", provider_id, "`."),
        supported_in_api: true,
        priority: 99,
        instructions: ModelInstructions {
            base_instructions: base.to_string(),
            model_messages: Some(
                ModelMessages {
                    instructions_template: Some(concat3(base, "\n\n", ORBITDOCK_EXTERNAL_MODEL_PERSONALITY_PLACEHOLDER)),
                    instructions_variables: Some(
                        ModelInstructionsVariables {
                            personality_default: Some(String::new()),
                            personality_friendly: Some(ORBITDOCK_EXTERNAL_MODEL_FRIENDLY_TEMPLATE.to_string()),
                            personality_pragmatic: Some(ORBITDOCK_EXTERNAL_MODEL_PRAGMATIC_TEMPLATE.to_string()),
                        },
                    ),
                },
            ),
            apply_patch_tool_type: Some(ApplyPatchToolType::Function),
        },
        supports_reasoning_summaries: false,
        truncation_bytes: 10_000,
        context_window: 272_000,
        max_context_window: 272_000,
        effective_context_window_percent: 95,
    }
}

/// What the external defaults do to the model catalog.
#[derive(Debug, Clone, Copy, PartialEq, Eq, Structural)]
pub enum CatalogAction {
    /// No model is configured, or the provider is OpenAI.
    Untouched,
    /// Merge the external instructions into the catalog model at this
    /// place: the first whose slug begins the configured model's.
    MergeInto(usize),
    /// Add the synthetic entry of the configured model.
    AddSynthetic,
}

/// Whether a provider is OpenAI's: by its id in any ASCII case, or by
/// what its configuration says.
pub open spec fn openai_provider(provider_id: Seq<char>, provider_is_openai: bool) -> bool {
    ascii_lower_seq(provider_id) == "openai"@ || provider_is_openai
}

/// What the external defaults do to the catalog, given the configured
/// model, the provider, and the slugs of the catalog's models in order.
pub fn external_model_catalog_action(
    model: Option<&str>,
    provider_id: &str,
    provider_is_openai: bool,
    catalog_slugs: &[String],
) -> (r: CatalogAction)
    ensures
        (model is None || openai_provider(provider_id@, provider_is_openai)) ==> r == CatalogAction::Untouched,
        model is Some && !openai_provider(provider_id@, provider_is_openai) ==> match r {
            CatalogAction::MergeInto(i) => i < catalog_slugs@.len() && has_prefix(
                model.unwrap()@,
                catalog_slugs@[i as int]@,
            ) && forall|j: int| 0 <= j < i ==> !has_prefix(model.unwrap()@, (#[trigger] catalog_slugs@[j])@),
            CatalogAction::AddSynthetic => forall|j: int|
                0 <= j < catalog_slugs@.len() ==> !has_prefix(model.unwrap()@, (#[trigger] catalog_slugs@[j])@),
            CatalogAction::Untouched => false,
        },
{
    let m = match model {
        Some(m) => m,
        None => return CatalogAction::Untouched,
    };
    if str_eq(str_ascii_lower(provider_id).as_str(), "openai") || provider_is_openai {
        return CatalogAction::Untouched;
    }
    let mut i: usize = 0;
    while i < catalog_slugs.len()
        invariant
            i <= catalog_slugs.len(),
            model == Some(m),
            !openai_provider(provider_id@, provider_is_openai),
            forall|j: int| 0 <= j < i ==> !has_prefix(m@, (#[trigger] catalog_slugs@[j])@),
        decreases catalog_slugs.len() - i,
    {
        if str_starts_with(m, catalog_slugs[i].as_str()) {
            return CatalogAction::MergeInto(i);
        }
        i = i + 1;
    }
    CatalogAction::AddSynthetic
}

/// Whether the apply-patch tool is forced on for a provider: only for one
/// that is not OpenAI's, and only when it is not on already.
pub fn should_force_apply_patch(provider_id: &str, provider_is_openai: bool, already_enabled: bool) -> (r: bool)
    ensures
        r == (!openai_provider(provider_id@, provider_is_openai) && !already_enabled),
{
    !(str_eq(str_ascii_lower(provider_id).as_str(), "openai") || provider_is_openai) && !already_enabled
}

/// External defaults applied a second time change nothing: a model whose
/// instructions already hold them keeps them as they are. (The external
/// template must read the same trimmed, as it does unless the external
/// instructions begin with white space.)
pub proof fn law_external_defaults_idempotent(m0: ModelInstructions, m1: ModelInstructions, base: Seq<char>)
    requires
        instructions_view(m1) == Some(merged_model(m0, base)),
        crate::text::trim(external_template(base)) == external_template(base),
    ensures
        merged_model(m1, base) == merged_model(m0, base),
{
    let e = external_template(base);
    let t0 = template_of(m0);
    let b = merged_instructions(m0.base_instructions@, base);
    lemma_template(m0, base);
    lemma_template(m1, base);
    assert(m1.base_instructions@ == b);
    assert(merged_instructions(b, base) == b) by {
        crate::codex::format::law_merge_instructions_idempotent(m0.base_instructions@, base);
    }
    if m0.model_messages is Some {
        let t = merged_instructions(t0, e);
        assert(template_of(m1) == t);
        assert(merged_instructions(t, e) == t) by {
            crate::codex::format::law_merge_instructions_idempotent(t0, e);
        }
    } else {
        assert(template_of(m1) == e);
        lemma_merge_into_nothing(e);
        assert(merged_instructions(e, e) == e) by {
            crate::codex::format::law_merge_instructions_idempotent(Seq::empty(), e);
        }
    }
    assert(merged_model(m1, base).2 == merged_model(m0, base).2);
}

/// A model's template, empty when it has none.
pub open spec fn template_of(m: ModelInstructions) -> Seq<char> {
    match m.model_messages {
        Some(msg) => or_else(msg.instructions_template, Seq::empty()),
        None => Seq::empty(),
    }
}

proof fn lemma_template(m: ModelInstructions, base: Seq<char>)
    ensures
        m.model_messages is Some ==> merged_model(m, base).1 == merged_instructions(
            template_of(m),
            external_template(base),
        ),
        m.model_messages is None ==> merged_model(m, base).1 == external_template(base),
        merged_model(m, base).0 == merged_instructions(m.base_instructions@, base),
{
}

/// Merging into no instructions gives the required ones trimmed.
proof fn lemma_merge_into_nothing(r: Seq<char>)
    ensures
        merged_instructions(Seq::empty(), r) == crate::text::trim(r),
{
    assert(crate::text::trim(Seq::<char>::empty()) =~= Seq::<char>::empty()) by {
        reveal_with_fuel(crate::text::trim_start, 1);
        reveal_with_fuel(crate::text::trim_end, 1);
    }
}

} // verus!
