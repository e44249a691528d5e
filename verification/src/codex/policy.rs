//! Codex settings read from text: reasoning summaries, personality,
//! service tier, who decides on approvals, and boolean switches.

use crate::text::{
    has_infix, normalize_setting, normalized_setting, str_contains, str_eq, trim, trim_str,
};
use vstd::prelude::*;

verus! {

/// How much of its reasoning a model summarizes.
#[derive(Debug, Clone, Copy, PartialEq, Eq, Structural)]
pub enum ReasoningSummary {
    Auto,
    Concise,
    Detailed,
    /// No summary (stored as `none`).
    Off,
}

/// The tone a model takes.
#[derive(Debug, Clone, Copy, PartialEq, Eq, Structural)]
pub enum Personality {
    /// No particular tone (named `none`).
    Neutral,
    Friendly,
    Pragmatic,
}

/// A service tier a session may ask for.
#[derive(Debug, Clone, Copy, PartialEq, Eq, Structural)]
pub enum ServiceTier {
    Fast,
    Flex,
}

/// Who decides on approval requests.
#[derive(Debug, Clone, Copy, PartialEq, Eq, Structural)]
pub enum ApprovalsReviewer {
    User,
    AutoReview,
}

/// The summary a normalized name stands for.
pub open spec fn reasoning_summary_named(name: Seq<char>) -> Option<ReasoningSummary> {
    if name == "auto"@ {
        Some(ReasoningSummary::Auto)
    } else if name == "concise"@ {
        Some(ReasoningSummary::Concise)
    } else if name == "detailed"@ {
        Some(ReasoningSummary::Detailed)
    } else if name == "none"@ {
        Some(ReasoningSummary::Off)
    } else {
        None
    }
}

/// The name a summary is stored under.
pub open spec fn reasoning_summary_text(summary: ReasoningSummary) -> Seq<char> {
    match summary {
        ReasoningSummary::Auto => "auto"@,
        ReasoningSummary::Concise => "concise"@,
        ReasoningSummary::Detailed => "detailed"@,
        ReasoningSummary::Off => "none"@,
    }
}

fn summary_named(t: &str) -> (r: Option<ReasoningSummary>)
    ensures
        r == reasoning_summary_named(t@),
{
    if str_eq(t, "auto") {
        Some(ReasoningSummary::Auto)
    } else if str_eq(t, "concise") {
        Some(ReasoningSummary::Concise)
    } else if str_eq(t, "detailed") {
        Some(ReasoningSummary::Detailed)
    } else if str_eq(t, "none") {
        Some(ReasoningSummary::Off)
    } else {
        None
    }
}

/// Reads a reasoning summary, trimmed and in any ASCII case.
pub fn parse_reasoning_summary(value: &str) -> (r: Option<ReasoningSummary>)
    ensures
        r == reasoning_summary_named(normalized_setting(value@)),
{
    let n = normalize_setting(value);
    summary_named(n.as_str())
}

/// The name a reasoning summary is stored under.
pub fn reasoning_summary_storage_text(summary: ReasoningSummary) -> (r: &'static str)
    ensures
        r@ == reasoning_summary_text(summary),
{
    match summary {
        ReasoningSummary::Auto => "auto",
        ReasoningSummary::Concise => "concise",
        ReasoningSummary::Detailed => "detailed",
        ReasoningSummary::Off => "none",
    }
}

/// The value of the reasoning summary setting: trimmed, in ASCII lower
/// case, and one of the four names; `None` when unset, blank or unknown.
pub open spec fn reasoning_summary_setting(value: Option<Seq<char>>) -> Option<Seq<char>> {
    match value {
        Some(v) => if trim(v).len() > 0 && reasoning_summary_named(normalized_setting(v)) is Some {
            Some(normalized_setting(v))
        } else {
            None
        },
        None => None,
    }
}

/// Normalizes the value of the reasoning summary setting as read from the
/// environment.
pub fn normalize_reasoning_summary_setting(value: Option<&str>) -> (r: Option<String>)
    ensures
        crate::text::opt_string_view(r) == reasoning_summary_setting(crate::text::opt_str_view(value)),
{
    let v = match value {
        Some(v) => v,
        None => {
            return None;
        },
    };
    let t = trim_str(v);
    if t.as_str().unicode_len() == 0 {
        return None;
    }
    let n = normalize_setting(v);
    match summary_named(n.as_str()) {
        Some(_) => Some(n),
        None => None,
    }
}

/// The reasoning summary a session prefers: the setting, else detailed.
pub open spec fn preferred_summary(setting: Option<Seq<char>>) -> ReasoningSummary {
    match reasoning_summary_setting(setting) {
        Some(n) => match reasoning_summary_named(n) {
            Some(s) => s,
            None => ReasoningSummary::Detailed,
        },
        None => ReasoningSummary::Detailed,
    }
}

/// The reasoning summary a session prefers, given the setting as read from
/// the environment.
pub fn preferred_reasoning_summary(setting: Option<&str>) -> (r: ReasoningSummary)
    ensures
        r == preferred_summary(crate::text::opt_str_view(setting)),
{
    match normalize_reasoning_summary_setting(setting) {
        Some(n) => match summary_named(n.as_str()) {
            Some(s) => s,
            None => ReasoningSummary::Detailed,
        },
        None => ReasoningSummary::Detailed,
    }
}

/// Whether a model refuses reasoning summaries: Codex Spark models do.
pub open spec fn rejects_reasoning_summary(model: Option<Seq<char>>) -> bool {
    match model {
        Some(m) => has_infix(normalized_setting(m), "codex-spark"@),
        None => false,
    }
}

/// Whether a model refuses reasoning summaries: its trimmed, lower-cased
/// name contains `codex-spark`.
pub fn model_rejects_reasoning_summary(model: Option<&str>) -> (r: bool)
    ensures
        r == rejects_reasoning_summary(crate::text::opt_str_view(model)),
{
    match model {
        Some(m) => {
            let n = normalize_setting(m);
            str_contains(n.as_str(), "codex-spark")
        },
        None => false,
    }
}

/// The reasoning summary a model gets: none for a model that refuses them,
/// else the preferred one.
pub fn reasoning_summary_for_model(model: Option<&str>, preferred: ReasoningSummary) -> (r:
    ReasoningSummary)
    ensures
        r == if rejects_reasoning_summary(crate::text::opt_str_view(model)) {
            ReasoningSummary::Off
        } else {
            preferred
        },
{
    if model_rejects_reasoning_summary(model) {
        ReasoningSummary::Off
    } else {
        preferred
    }
}

/// Whether reasoning summaries are turned off: when the model does not
/// support them, or refuses them.
pub fn should_disable_reasoning_summary(model: Option<&str>, supports_reasoning_summaries: bool) -> (r:
    bool)
    ensures
        r == (!supports_reasoning_summaries || rejects_reasoning_summary(
            crate::text::opt_str_view(model),
        )),
{
    !supports_reasoning_summaries || model_rejects_reasoning_summary(model)
}

/// The personality a normalized name stands for.
pub open spec fn personality_named(name: Seq<char>) -> Option<Personality> {
    if name == "none"@ {
        Some(Personality::Neutral)
    } else if name == "friendly"@ {
        Some(Personality::Friendly)
    } else if name == "pragmatic"@ {
        Some(Personality::Pragmatic)
    } else {
        None
    }
}

/// Reads a personality, trimmed and in any ASCII case; `None` when unset,
/// blank or unknown.
pub fn parse_personality(value: Option<&str>) -> (r: Option<Personality>)
    ensures
        r == match crate::text::opt_str_view(value) {
            Some(v) => personality_named(normalized_setting(v)),
            None => None,
        },
{
    let v = match value {
        Some(v) => v,
        None => {
            return None;
        },
    };
    let n = normalize_setting(v);
    let t = n.as_str();
    if str_eq(t, "none") {
        Some(Personality::Neutral)
    } else if str_eq(t, "friendly") {
        Some(Personality::Friendly)
    } else if str_eq(t, "pragmatic") {
        Some(Personality::Pragmatic)
    } else {
        None
    }
}

/// The service tier override a normalized name stands for: `none` and
/// `off` clear the tier.
pub open spec fn service_tier_named(name: Seq<char>) -> Option<Option<ServiceTier>> {
    if name == "none"@ || name == "off"@ {
        Some(None)
    } else if name == "fast"@ {
        Some(Some(ServiceTier::Fast))
    } else if name == "flex"@ {
        Some(Some(ServiceTier::Flex))
    } else {
        None
    }
}

/// Reads a service tier override, trimmed and in any ASCII case: a tier to
/// set, `Some(None)` to clear it, and `None` when unset, blank or unknown.
pub fn parse_service_tier_override(value: Option<&str>) -> (r: Option<Option<ServiceTier>>)
    ensures
        r == match crate::text::opt_str_view(value) {
            Some(v) => service_tier_named(normalized_setting(v)),
            None => None,
        },
{
    let v = match value {
        Some(v) => v,
        None => {
            return None;
        },
    };
    let n = normalize_setting(v);
    let t = n.as_str();
    if str_eq(t, "none") || str_eq(t, "off") {
        Some(None)
    } else if str_eq(t, "fast") {
        Some(Some(ServiceTier::Fast))
    } else if str_eq(t, "flex") {
        Some(Some(ServiceTier::Flex))
    } else {
        None
    }
}

/// Who a trimmed name says decides on approvals; names are case-sensitive.
pub open spec fn decider_named(name: Seq<char>) -> Option<ApprovalsReviewer> {
    if name == "user"@ {
        Some(ApprovalsReviewer::User)
    } else if name == "guardian_subagent"@ || name == "auto_review"@ {
        Some(ApprovalsReviewer::AutoReview)
    } else {
        None
    }
}

/// Reads who decides on approvals, trimmed; `None` when unset, blank or
/// unknown.
pub fn parse_approvals_reviewer(value: Option<&str>) -> (r: Option<ApprovalsReviewer>)
    ensures
        r == match crate::text::opt_str_view(value) {
            Some(v) => decider_named(trim(v)),
            None => None,
        },
{
    let v = match value {
        Some(v) => v,
        None => {
            return None;
        },
    };
    let n = trim_str(v);
    let t = n.as_str();
    if str_eq(t, "user") {
        Some(ApprovalsReviewer::User)
    } else if str_eq(t, "guardian_subagent") || str_eq(t, "auto_review") {
        Some(ApprovalsReviewer::AutoReview)
    } else {
        None
    }
}

/// The boolean a normalized switch value stands for.
pub open spec fn switch_named(name: Seq<char>) -> Option<bool> {
    if name == "1"@ || name == "true"@ || name == "yes"@ || name == "on"@ {
        Some(true)
    } else if name == "0"@ || name == "false"@ || name == "no"@ || name == "off"@ {
        Some(false)
    } else {
        None
    }
}

/// Reads a boolean switch as set in the environment, trimmed and in any
/// ASCII case: `1`, `true`, `yes`, `on` or `0`, `false`, `no`, `off`.
pub fn parse_bool_value(raw: &str) -> (r: Option<bool>)
    ensures
        r == switch_named(normalized_setting(raw@)),
{
    let n = normalize_setting(raw);
    let t = n.as_str();
    if str_eq(t, "1") || str_eq(t, "true") || str_eq(t, "yes") || str_eq(t, "on") {
        Some(true)
    } else if str_eq(t, "0") || str_eq(t, "false") || str_eq(t, "no") || str_eq(t, "off") {
        Some(false)
    } else {
        None
    }
}

/// A reasoning summary read back from the name it is stored under is the
/// same summary.
pub proof fn law_reasoning_summary_round_trips(summary: ReasoningSummary)
    ensures
        reasoning_summary_named(normalized_setting(reasoning_summary_text(summary))) == Some(summary),
{
    reveal_strlit("auto");
    reveal_strlit("concise");
    reveal_strlit("detailed");
    reveal_strlit("none");
    let t = reasoning_summary_text(summary);
    assert(crate::text::trim_start(t) == t);
    assert(crate::text::trim_end(t) == t);
    assert(crate::text::ascii_lower_seq(t) =~= t);
}

} // verus!
