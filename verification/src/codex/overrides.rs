//! Overrides a session may give the Codex runtime and its configuration.

use crate::codex::policy::{
    model_rejects_reasoning_summary, parse_bool_value, preferred_reasoning_summary,
    preferred_summary, reasoning_summary_storage_text, reasoning_summary_text,
    rejects_reasoning_summary, switch_named, ReasoningSummary,
};
use crate::codex::sandbox::{config_loader_sandbox_mode, loader_mode, CodexSandboxPolicy};
use crate::text::{normalized_setting, opt_as_str, opt_str_view, opt_string_view};
use vstd::prelude::*;

verus! {

/// Runtime settings a session overrides; `None` keeps the default.
#[derive(Debug, Clone, Default, PartialEq, Eq)]
pub struct CodexRuntimeOverrides {
    pub approvals_reviewer: Option<String>,
    pub collaboration_mode: Option<String>,
    pub multi_agent: Option<bool>,
    pub personality: Option<String>,
    pub service_tier: Option<String>,
    pub developer_instructions: Option<String>,
    pub effort: Option<String>,
}

/// Configuration a session overrides; `None` keeps the default.
#[derive(Debug, Clone, Default, PartialEq, Eq)]
pub struct CodexConfigOverrides {
    pub model_provider: Option<String>,
    pub config_profile: Option<String>,
}

/// A value the configuration loader is handed for one key.
#[derive(Debug, Clone, PartialEq, Eq)]
pub enum OverrideValue {
    Text(String),
    Flag(bool),
}

/// What an override value stands for.
pub enum OverrideView {
    Text(Seq<char>),
    Flag(bool),
}

impl View for OverrideValue {
    type V = OverrideView;

    open spec fn view(&self) -> OverrideView {
        match self {
            OverrideValue::Text(s) => OverrideView::Text(s@),
            OverrideValue::Flag(b) => OverrideView::Flag(*b),
        }
    }
}

/// The keys and values of a list of overrides, in order.
pub open spec fn overrides_view(v: Seq<(String, OverrideValue)>) -> Seq<(Seq<char>, OverrideView)> {
    v.map_values(|e: (String, OverrideValue)| (e.0@, e.1@))
}

/// One text entry when there is a value, none otherwise.
pub open spec fn text_entry(key: Seq<char>, value: Option<Seq<char>>) -> Seq<(Seq<char>, OverrideView)> {
    match value {
        Some(v) => seq![(key, OverrideView::Text(v))],
        None => Seq::empty(),
    }
}

/// A boolean setting read from its raw text, or the default when it is
/// missing or not a recognised switch word.
pub open spec fn switch_or(raw: Option<Seq<char>>, default: bool) -> bool {
    match raw {
        Some(r) => match switch_named(normalized_setting(r)) {
            Some(b) => b,
            None => default,
        },
        None => default,
    }
}

/// The reasoning summary handed to the loader: the preferred one, or
/// `none` for a model that refuses summaries.
pub open spec fn summary_override(model: Option<Seq<char>>, setting: Option<Seq<char>>) -> Seq<char> {
    if rejects_reasoning_summary(model) {
        reasoning_summary_text(ReasoningSummary::Off)
    } else {
        reasoning_summary_text(preferred_summary(setting))
    }
}

/// The approval policy handed to the loader: the one asked for, else
/// `untrusted` when runtime defaults apply.
pub open spec fn approval_override(approval: Option<Seq<char>>, apply_defaults: bool) -> Option<Seq<char>> {
    match approval {
        Some(a) => Some(a),
        None => if apply_defaults {
            Some("untrusted"@)
        } else {
            None
        },
    }
}

/// The entries that runtime defaults add.
pub open spec fn runtime_default_entries(
    model: Option<Seq<char>>,
    show_raw: Option<Seq<char>>,
    hide: Option<Seq<char>>,
    summary: Option<Seq<char>>,
) -> Seq<(Seq<char>, OverrideView)> {
    seq![
        ("show_raw_agent_reasoning"@, OverrideView::Flag(switch_or(show_raw, true))),
        ("hide_agent_reasoning"@, OverrideView::Flag(switch_or(hide, false))),
        ("model_reasoning_summary"@, OverrideView::Text(summary_override(model, summary))),
    ]
}

/// The command-line overrides handed to the configuration loader, in order.
pub open spec fn cli_overrides(
    model: Option<Seq<char>>,
    approval: Option<Seq<char>>,
    sandbox_mode: Option<Seq<char>>,
    details: Option<CodexSandboxPolicy>,
    runtime: CodexRuntimeOverrides,
    apply_defaults: bool,
    show_raw: Option<Seq<char>>,
    hide: Option<Seq<char>>,
    summary: Option<Seq<char>>,
) -> Seq<(Seq<char>, OverrideView)> {
    text_entry("model"@, model)
        + text_entry("approval_policy"@, approval_override(approval, apply_defaults))
        + text_entry("sandbox_mode"@, loader_mode(sandbox_mode, details))
        + text_entry("model_reasoning_effort"@, opt_string_view(runtime.effort))
        + text_entry("approvals_reviewer"@, opt_string_view(runtime.approvals_reviewer))
        + (if apply_defaults {
            runtime_default_entries(model, show_raw, hide, summary)
        } else {
            Seq::empty()
        })
        + match runtime.multi_agent {
            Some(b) => seq![("features.multi_agent"@, OverrideView::Flag(b))],
            None => Seq::empty(),
        }
}

fn push_text(entries: &mut Vec<(String, OverrideValue)>, key: &str, value: Option<&str>)
    ensures
        overrides_view(final(entries)@) == overrides_view(old(entries)@) + text_entry(key@, opt_str_view(value)),
{
    proof {
        assert(overrides_view(old(entries)@).len() == old(entries)@.len());
    }
    match value {
        Some(v) => {
            entries.push((key.to_string(), OverrideValue::Text(v.to_string())));
            assert(overrides_view(entries@) =~= overrides_view(old(entries)@) + text_entry(key@, opt_str_view(value)));
        },
        None => {
            assert(overrides_view(entries@) =~= overrides_view(old(entries)@) + text_entry(key@, opt_str_view(value)));
        },
    }
}

fn push_flag(entries: &mut Vec<(String, OverrideValue)>, key: &str, value: bool)
    ensures
        overrides_view(final(entries)@) == overrides_view(old(entries)@).push((key@, OverrideView::Flag(value))),
{
    entries.push((key.to_string(), OverrideValue::Flag(value)));
    assert(overrides_view(entries@) =~= overrides_view(old(entries)@).push((key@, OverrideView::Flag(value))));
}

fn switch_setting(raw: Option<&str>, default: bool) -> (r: bool)
    ensures
        r == switch_or(opt_str_view(raw), default),
{
    match raw {
        Some(s) => match parse_bool_value(s) {
            Some(b) => b,
            None => default,
        },
        None => default,
    }
}

/// The command-line overrides a session hands the configuration loader:
/// the model, the approval policy (`untrusted` by default when runtime
/// defaults apply), the sandbox mode, the reasoning effort and who decides
/// approvals; with runtime defaults, whether raw reasoning is shown and
/// reasoning hidden (read from their settings' raw text) and the reasoning
/// summary; and the multi-agent feature switch.
pub fn build_cli_overrides(
    model: Option<&str>,
    approval_policy: Option<&str>,
    sandbox_mode: Option<&str>,
    sandbox_policy_details: Option<&CodexSandboxPolicy>,
    runtime_overrides: &CodexRuntimeOverrides,
    apply_runtime_defaults: bool,
    show_raw_reasoning_setting: Option<&str>,
    hide_reasoning_setting: Option<&str>,
    reasoning_summary_setting: Option<&str>,
) -> (r: Vec<(String, OverrideValue)>)
    ensures
        overrides_view(r@) == cli_overrides(
            opt_str_view(model),
            opt_str_view(approval_policy),
            opt_str_view(sandbox_mode),
            match sandbox_policy_details {
                Some(d) => Some(*d),
                None => None,
            },
            *runtime_overrides,
            apply_runtime_defaults,
            opt_str_view(show_raw_reasoning_setting),
            opt_str_view(hide_reasoning_setting),
            opt_str_view(reasoning_summary_setting),
        ),
{
    let mut entries: Vec<(String, OverrideValue)> = Vec::new();
    assert(overrides_view(entries@) =~= Seq::empty());
    push_text(&mut entries, "model", model);
    let approval = match approval_policy {
        Some(a) => Some(a),
        None => if apply_runtime_defaults {
            Some("untrusted")
        } else {
            None
        },
    };
    push_text(&mut entries, "approval_policy", approval);
    let sandbox = config_loader_sandbox_mode(sandbox_mode, sandbox_policy_details);
    push_text(&mut entries, "sandbox_mode", opt_as_str(&sandbox));
    push_text(&mut entries, "model_reasoning_effort", opt_as_str(&runtime_overrides.effort));
    push_text(&mut entries, "approvals_reviewer", opt_as_str(&runtime_overrides.approvals_reviewer));
    let ghost before_defaults = overrides_view(entries@);
    if apply_runtime_defaults {
        let show_raw = switch_setting(show_raw_reasoning_setting, true);
        let hide = switch_setting(hide_reasoning_setting, false);
        let summary = if model_rejects_reasoning_summary(model) {
            reasoning_summary_storage_text(ReasoningSummary::Off)
        } else {
            reasoning_summary_storage_text(preferred_reasoning_summary(reasoning_summary_setting))
        };
        push_flag(&mut entries, "show_raw_agent_reasoning", show_raw);
        push_flag(&mut entries, "hide_agent_reasoning", hide);
        push_text(&mut entries, "model_reasoning_summary", Some(summary));
        assert(overrides_view(entries@) =~= before_defaults + runtime_default_entries(
            opt_str_view(model),
            opt_str_view(show_raw_reasoning_setting),
            opt_str_view(hide_reasoning_setting),
            opt_str_view(reasoning_summary_setting),
        ));
    } else {
        assert(overrides_view(entries@) =~= before_defaults + Seq::empty());
    }
    let ghost before_agent = overrides_view(entries@);
    match runtime_overrides.multi_agent {
        Some(b) => push_flag(&mut entries, "features.multi_agent", b),
        None => {
            assert(overrides_view(entries@) =~= before_agent + Seq::empty());
        },
    }
    entries
}

} // verus!
