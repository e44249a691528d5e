//! What a session hands the app server: the user's input items, reasoning
//! effort and collaboration mode read from their names, and the working
//! directory an override names.

use crate::text::{ascii_lower_seq, copy_opt_string, copy_string, str_ascii_lower, str_eq, trim, trim_non_empty_str, trim_str, trimmed_non_empty, opt_string_view};
use vstd::prelude::*;

verus! {

// ---------------------------------------------------------------------------
// User input
// ---------------------------------------------------------------------------

/// A skill the user invoked: its name and path.
#[derive(Debug, Clone)]
pub struct SkillInput {
    pub name: String,
    pub path: String,
}

/// An image the user attached: how it is given (`url` or `path`) and the
/// value.
#[derive(Debug, Clone)]
pub struct ImageInput {
    pub input_type: String,
    pub value: String,
}

/// Something the user mentioned: its name and path.
#[derive(Debug, Clone)]
pub struct MentionInput {
    pub name: String,
    pub path: String,
}

/// One item of input for the app server.
#[derive(Debug, Clone, PartialEq, Eq)]
pub enum UserInputItem {
    Text { text: String },
    Skill { name: String, path: String },
    Image { url: String },
    LocalImage { path: String },
    Mention { name: String, path: String },
}

/// An item as values: its kind and its two texts.
pub open spec fn item_view(item: UserInputItem) -> (nat, Seq<char>, Seq<char>) {
    match item {
        UserInputItem::Text { text } => (0, text@, Seq::empty()),
        UserInputItem::Skill { name, path } => (1, name@, path@),
        UserInputItem::Image { url } => (2, url@, Seq::empty()),
        UserInputItem::LocalImage { path } => (3, path@, Seq::empty()),
        UserInputItem::Mention { name, path } => (4, name@, path@),
    }
}

/// An image as an item: a local image when given by path, else (a URL or
/// an unknown kind) an image by URL.
pub open spec fn image_item(i: ImageInput) -> (nat, Seq<char>, Seq<char>) {
    if i.input_type@ == "path"@ {
        (3, i.value@, Seq::empty())
    } else {
        (2, i.value@, Seq::empty())
    }
}

/// The items for a message: its text unless empty, then each skill, each
/// image and each mention, in order.
pub open spec fn input_items(
    content: Seq<char>,
    skills: Seq<SkillInput>,
    images: Seq<ImageInput>,
    mentions: Seq<MentionInput>,
) -> Seq<(nat, Seq<char>, Seq<char>)> {
    let text: Seq<(nat, Seq<char>, Seq<char>)> = if content.len() > 0 {
        seq![(0nat, content, Seq::<char>::empty())]
    } else {
        Seq::empty()
    };
    text + skills.map_values(|s: SkillInput| (1nat, s.name@, s.path@)) + images.map_values(
        |i: ImageInput| image_item(i),
    ) + mentions.map_values(|m: MentionInput| (4nat, m.name@, m.path@))
}

/// The items of a list, as values.
pub open spec fn items_view(v: Seq<UserInputItem>) -> Seq<(nat, Seq<char>, Seq<char>)> {
    v.map_values(|i: UserInputItem| item_view(i))
}

/// The app server's input items for a message.
pub fn app_server_user_input(
    content: &str,
    skills: &[SkillInput],
    images: &[ImageInput],
    mentions: &[MentionInput],
) -> (r: Vec<UserInputItem>)
    ensures
        items_view(r@) == input_items(content@, skills@, images@, mentions@),
{
    let mut items: Vec<UserInputItem> = Vec::new();
    if content.unicode_len() > 0 {
        items.push(UserInputItem::Text { text: content.to_string() });
    }
    let ghost head = items_view(items@);
    let mut i: usize = 0;
    while i < skills.len()
        invariant
            i <= skills.len(),
            items_view(items@) == head + skills@.take(i as int).map_values(
                |s: SkillInput| (1nat, s.name@, s.path@),
            ),
        decreases skills.len() - i,
    {
        let ghost before = items_view(items@);
        items.push(UserInputItem::Skill { name: copy_string(&skills[i].name), path: copy_string(&skills[i].path) });
        assert(items_view(items@) =~= before.push((1nat, skills@[i as int].name@, skills@[i as int].path@)));
        assert(skills@.take(i + 1).map_values(|s: SkillInput| (1nat, s.name@, s.path@)) =~= skills@.take(
            i as int,
        ).map_values(|s: SkillInput| (1nat, s.name@, s.path@)).push(
            (1nat, skills@[i as int].name@, skills@[i as int].path@),
        ));
        i = i + 1;
    }
    assert(skills@.take(skills.len() as int) =~= skills@);
    let ghost head2 = items_view(items@);
    let mut j: usize = 0;
    while j < images.len()
        invariant
            j <= images.len(),
            items_view(items@) == head2 + images@.take(j as int).map_values(|x: ImageInput| image_item(x)),
        decreases images.len() - j,
    {
        let ghost before = items_view(items@);
        let value = copy_string(&images[j].value);
        if str_eq(images[j].input_type.as_str(), "path") {
            items.push(UserInputItem::LocalImage { path: value });
        } else {
            items.push(UserInputItem::Image { url: value });
        }
        assert(items_view(items@) =~= before.push(image_item(images@[j as int])));
        assert(images@.take(j + 1).map_values(|x: ImageInput| image_item(x)) =~= images@.take(j as int).map_values(
            |x: ImageInput| image_item(x),
        ).push(image_item(images@[j as int])));
        j = j + 1;
    }
    assert(images@.take(images.len() as int) =~= images@);
    let ghost head3 = items_view(items@);
    let mut k: usize = 0;
    while k < mentions.len()
        invariant
            k <= mentions.len(),
            items_view(items@) == head3 + mentions@.take(k as int).map_values(
                |m: MentionInput| (4nat, m.name@, m.path@),
            ),
        decreases mentions.len() - k,
    {
        let ghost before = items_view(items@);
        items.push(
            UserInputItem::Mention { name: copy_string(&mentions[k].name), path: copy_string(&mentions[k].path) },
        );
        assert(items_view(items@) =~= before.push((4nat, mentions@[k as int].name@, mentions@[k as int].path@)));
        assert(mentions@.take(k + 1).map_values(|m: MentionInput| (4nat, m.name@, m.path@)) =~= mentions@.take(
            k as int,
        ).map_values(|m: MentionInput| (4nat, m.name@, m.path@)).push(
            (4nat, mentions@[k as int].name@, mentions@[k as int].path@),
        ));
        k = k + 1;
    }
    assert(mentions@.take(mentions.len() as int) =~= mentions@);
    proof {
        if content@.len() > 0 {
            assert(head == seq![(0nat, content@, Seq::<char>::empty())]);
        } else {
            assert(head =~= Seq::<(nat, Seq<char>, Seq<char>)>::empty());
        }
    }
    items
}

// ---------------------------------------------------------------------------
// Reasoning effort and collaboration modes
// ---------------------------------------------------------------------------

/// How hard the model reasons.
#[derive(Debug, Clone, Copy, PartialEq, Eq, Structural)]
pub enum ReasoningEffort {
    Off,
    Minimal,
    Low,
    Medium,
    High,
    XHigh,
}

/// The effort a name stands for, exactly as written.
pub open spec fn effort_named(value: Seq<char>) -> Option<ReasoningEffort> {
    if value == "none"@ {
        Some(ReasoningEffort::Off)
    } else if value == "minimal"@ {
        Some(ReasoningEffort::Minimal)
    } else if value == "low"@ {
        Some(ReasoningEffort::Low)
    } else if value == "medium"@ {
        Some(ReasoningEffort::Medium)
    } else if value == "high"@ {
        Some(ReasoningEffort::High)
    } else if value == "xhigh"@ {
        Some(ReasoningEffort::XHigh)
    } else {
        None
    }
}

/// Reads a reasoning effort from its name.
pub fn parse_reasoning_effort(value: &str) -> (r: Option<ReasoningEffort>)
    ensures
        r == effort_named(value@),
{
    if str_eq(value, "none") {
        Some(ReasoningEffort::Off)
    } else if str_eq(value, "minimal") {
        Some(ReasoningEffort::Minimal)
    } else if str_eq(value, "low") {
        Some(ReasoningEffort::Low)
    } else if str_eq(value, "medium") {
        Some(ReasoningEffort::Medium)
    } else if str_eq(value, "high") {
        Some(ReasoningEffort::High)
    } else if str_eq(value, "xhigh") {
        Some(ReasoningEffort::XHigh)
    } else {
        None
    }
}

/// How the model collaborates.
#[derive(Debug, Clone, Copy, PartialEq, Eq, Structural)]
pub enum ModeKind {
    Plan,
    Default,
    PairProgramming,
    Execute,
}

/// The mode a name stands for, trimmed and in any ASCII case: planning,
/// or the default one under several names.
pub open spec fn mode_named(value: Seq<char>) -> Option<ModeKind> {
    let n = ascii_lower_seq(trim(value));
    if n == "plan"@ {
        Some(ModeKind::Plan)
    } else if n == "default"@ || n == "code"@ || n == "pair_programming"@ || n == "execute"@ || n
        == "custom"@ {
        Some(ModeKind::Default)
    } else {
        None
    }
}

/// Reads a collaboration mode from its name.
pub fn parse_mode_kind(value: &str) -> (r: Option<ModeKind>)
    ensures
        r == mode_named(value@),
{
    let t = trim_str(value);
    let n = str_ascii_lower(t.as_str());
    let s = n.as_str();
    if str_eq(s, "plan") {
        Some(ModeKind::Plan)
    } else if str_eq(s, "default") || str_eq(s, "code") || str_eq(s, "pair_programming") || str_eq(s, "execute")
        || str_eq(s, "custom") {
        Some(ModeKind::Default)
    } else {
        None
    }
}

/// The name of a collaboration mode: planning, or the default.
pub fn collaboration_mode_name(mode: ModeKind) -> (r: &'static str)
    ensures
        r@ == (if mode == ModeKind::Plan {
            "plan"@
        } else {
            "default"@
        }),
{
    match mode {
        ModeKind::Plan => "plan",
        _ => "default",
    }
}

/// A collaboration mode the app server offers: its name, the mode it is
/// for, and the model and effort it sets, when it sets them.
#[derive(Debug, Clone)]
pub struct CollaborationModeMask {
    pub name: String,
    pub mode: Option<ModeKind>,
    pub model: Option<String>,
    pub reasoning_effort: Option<Option<ReasoningEffort>>,
}

/// Whether a mask is the one asked for: its trimmed name equals the
/// trimmed name asked for in any ASCII case, or it is for the mode.
pub open spec fn mask_matches(mask: CollaborationModeMask, mode: ModeKind, name: Seq<char>) -> bool {
    ascii_lower_seq(trim(mask.name@)) == ascii_lower_seq(trim(name)) || mask.mode == Some(mode)
}

/// The first offered mask matching the mode or the name asked for.
pub fn select_collaboration_mode_mask(
    masks: Vec<CollaborationModeMask>,
    mode: ModeKind,
    requested_name: &str,
) -> (r: Option<CollaborationModeMask>)
    ensures
        match r {
            Some(m) => exists|i: int|
                0 <= i < masks@.len() && masks@[i] == m && mask_matches(m, mode, requested_name@) && forall|j: int|
                    0 <= j < i ==> !mask_matches(#[trigger] masks@[j], mode, requested_name@),
            None => forall|i: int| 0 <= i < masks@.len() ==> !mask_matches(#[trigger] masks@[i], mode, requested_name@),
        },
{
    let wanted = str_ascii_lower(trim_str(requested_name).as_str());
    let mut i: usize = 0;
    while i < masks.len()
        invariant
            i <= masks.len(),
            wanted@ == ascii_lower_seq(trim(requested_name@)),
            forall|j: int| 0 <= j < i ==> !mask_matches(#[trigger] masks@[j], mode, requested_name@),
        decreases masks.len() - i,
    {
        let name = str_ascii_lower(trim_str(masks[i].name.as_str()).as_str());
        let same_mode = match masks[i].mode {
            Some(m) => m == mode,
            None => false,
        };
        if str_eq(name.as_str(), wanted.as_str()) || same_mode {
            let found = CollaborationModeMask {
                name: copy_string(&masks[i].name),
                mode: masks[i].mode,
                model: copy_opt_string(&masks[i].model),
                reasoning_effort: masks[i].reasoning_effort,
            };
            assert(found == masks@[i as int]);
            return Some(found);
        }
        i = i + 1;
    }
    None
}

/// A collaboration mode and its settings.
#[derive(Debug, Clone)]
pub struct CollaborationMode {
    pub mode: ModeKind,
    pub model: String,
    pub reasoning_effort: Option<ReasoningEffort>,
    pub developer_instructions: Option<String>,
}

/// A collaboration mode: the mask's model and effort win over those given.
pub fn build_collaboration_mode(
    mode: ModeKind,
    selected_mask: Option<CollaborationModeMask>,
    model: String,
    effort: Option<ReasoningEffort>,
    developer_instructions: Option<&str>,
) -> (r: CollaborationMode)
    ensures
        r.mode == mode,
        r.model@ == (match selected_mask {
            Some(m) => match m.model {
                Some(x) => x@,
                None => model@,
            },
            None => model@,
        }),
        r.reasoning_effort == (match selected_mask {
            Some(m) => match m.reasoning_effort {
                Some(Some(e)) => Some(e),
                _ => effort,
            },
            None => effort,
        }),
        opt_string_view(r.developer_instructions) == match developer_instructions {
            Some(d) => Some(d@),
            None => None,
        },
{
    let (mask_model, mask_effort) = match selected_mask {
        Some(m) => (
            m.model,
            match m.reasoning_effort {
                Some(Some(e)) => Some(e),
                _ => None,
            },
        ),
        None => (None, None),
    };
    CollaborationMode {
        mode,
        model: match mask_model {
            Some(x) => x,
            None => model,
        },
        reasoning_effort: match mask_effort {
            Some(e) => Some(e),
            None => effort,
        },
        developer_instructions: match developer_instructions {
            Some(d) => Some(d.to_string()),
            None => None,
        },
    }
}

/// What a configuration update asks of the collaboration mode: the mode
/// the explicit name (else the permission mode's name) stands for, the
/// default when it stands for none, and the name to look for (the given
/// one trimmed, else the mode's). Nothing is asked when no mode is named
/// and there are no developer instructions.
pub open spec fn mode_request(
    explicit: Option<Seq<char>>,
    permission_mode: Option<Seq<char>>,
    has_instructions: bool,
) -> Option<(ModeKind, Seq<char>)> {
    let asked = match explicit {
        Some(e) => Some(e),
        None => permission_mode,
    };
    let requested = match asked {
        Some(a) => mode_named(a),
        None => None,
    };
    if requested is None && !has_instructions {
        None
    } else {
        let mode = match requested {
            Some(m) => m,
            None => ModeKind::Default,
        };
        let name = match trimmed_non_empty(asked) {
            Some(n) => n,
            None => if mode == ModeKind::Plan {
                "plan"@
            } else {
                "default"@
            },
        };
        Some((mode, name))
    }
}

/// The collaboration mode a configuration update asks for, and the name
/// to look for among those the app server offers.
pub fn collaboration_mode_request(
    explicit_collaboration_mode: Option<&str>,
    permission_mode: Option<&str>,
    developer_instructions: Option<&str>,
) -> (r: Option<(ModeKind, String)>)
    ensures
        match r {
            Some((m, n)) => mode_request(
                match explicit_collaboration_mode {
                    Some(e) => Some(e@),
                    None => None,
                },
                match permission_mode {
                    Some(p) => Some(p@),
                    None => None,
                },
                developer_instructions is Some,
            ) == Some((m, n@)),
            None => mode_request(
                match explicit_collaboration_mode {
                    Some(e) => Some(e@),
                    None => None,
                },
                match permission_mode {
                    Some(p) => Some(p@),
                    None => None,
                },
                developer_instructions is Some,
            ) is None,
        },
{
    let asked = match explicit_collaboration_mode {
        Some(e) => Some(e),
        None => permission_mode,
    };
    let requested = match asked {
        Some(a) => parse_mode_kind(a),
        None => None,
    };
    if requested.is_none() && developer_instructions.is_none() {
        return None;
    }
    let mode = match requested {
        Some(m) => m,
        None => ModeKind::Default,
    };
    let name = match asked {
        Some(a) => match trim_non_empty_str(a) {
            Some(n) => n,
            None => collaboration_mode_name(mode).to_string(),
        },
        None => collaboration_mode_name(mode).to_string(),
    };
    Some((mode, name))
}

/// The working directory an override names: trimmed, none when blank.
pub fn override_cwd(cwd: &str) -> (r: Option<String>)
    ensures
        opt_string_view(r) == trimmed_non_empty(Some(cwd@)),
{
    trim_non_empty_str(cwd)
}

} // verus!
