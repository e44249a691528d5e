//! What the reader of rollout files keeps per file: the session a file is
//! bound to and how far parsing got, and what text and images a rollout
//! message carries.

use crate::keyed::TextMap;
use crate::text::{copy_opt_string, copy_string, join, join_strings, strs_view, trim, trim_str};
use vstd::prelude::*;

verus! {

// ---------------------------------------------------------------------------
// Per-file state
// ---------------------------------------------------------------------------

/// What is remembered of a rollout file between runs.
#[derive(Debug, Clone, PartialEq, Eq)]
pub struct PersistedFileState {
    pub offset: u64,
    pub session_id: Option<String>,
    pub project_path: Option<String>,
    pub model_provider: Option<String>,
    pub ignore_existing: Option<bool>,
}

/// How far parsing of one rollout file got, and the session it is bound to.
#[derive(Debug, PartialEq, Eq)]
pub struct ParseState {
    pub session_id: Option<String>,
    pub project_path: Option<String>,
    pub model_provider: Option<String>,
    pub next_message_seq: u64,
    pub saw_user_event: bool,
    pub saw_agent_event: bool,
}

/// The parse state of each rollout file, and the bindings remembered from
/// earlier runs that seed them.
#[derive(Debug)]
pub struct RolloutFileProcessor {
    pub parse_states: TextMap<ParseState>,
    pub checkpoint_seeds: TextMap<PersistedFileState>,
}

/// The fresh parse state of a file: bound as remembered, if it was, and
/// nothing parsed yet.
pub open spec fn seeded_state(seeds: Map<Seq<char>, PersistedFileState>, path: Seq<char>) -> ParseState {
    if seeds.contains_key(path) {
        ParseState {
            session_id: seeds[path].session_id,
            project_path: seeds[path].project_path,
            model_provider: seeds[path].model_provider,
            next_message_seq: 0,
            saw_user_event: false,
            saw_agent_event: false,
        }
    } else {
        ParseState {
            session_id: None,
            project_path: None,
            model_provider: None,
            next_message_seq: 0,
            saw_user_event: false,
            saw_agent_event: false,
        }
    }
}

/// The parse states once `path` has one.
pub open spec fn ensured_states(
    states: Map<Seq<char>, ParseState>,
    seeds: Map<Seq<char>, PersistedFileState>,
    path: Seq<char>,
) -> Map<Seq<char>, ParseState> {
    if states.contains_key(path) {
        states
    } else {
        states.insert(path, seeded_state(seeds, path))
    }
}

/// The parse state with the session binding dropped.
pub open spec fn unbound(st: ParseState) -> ParseState {
    ParseState { session_id: None, project_path: None, model_provider: None, ..st }
}

fn copy_parse_state(st: &ParseState) -> (r: ParseState)
    ensures
        r == *st,
{
    ParseState {
        session_id: copy_opt_string(&st.session_id),
        project_path: copy_opt_string(&st.project_path),
        model_provider: copy_opt_string(&st.model_provider),
        next_message_seq: st.next_message_seq,
        saw_user_event: st.saw_user_event,
        saw_agent_event: st.saw_agent_event,
    }
}

impl RolloutFileProcessor {
    /// A processor with no file parsed yet, seeded with remembered bindings.
    pub fn new(checkpoint_seeds: TextMap<PersistedFileState>) -> (r: Self)
        ensures
            r.parse_states@ == Map::<Seq<char>, ParseState>::empty(),
            r.checkpoint_seeds@ == checkpoint_seeds@,
    {
        RolloutFileProcessor { parse_states: TextMap::new(), checkpoint_seeds }
    }

    /// The session a file is bound to.
    pub fn file_session_id(&self, path: &str) -> (r: Option<String>)
        ensures
            r == (if self.parse_states@.contains_key(path@) {
                self.parse_states@[path@].session_id
            } else {
                None
            }),
    {
        match self.parse_states.get(path) {
            Some(st) => copy_opt_string(&st.session_id),
            None => None,
        }
    }

    /// Whether the assistant has spoken in a file.
    pub fn saw_agent_event(&self, path: &str) -> (r: bool)
        ensures
            r == (self.parse_states@.contains_key(path@) && self.parse_states@[path@].saw_agent_event),
    {
        match self.parse_states.get(path) {
            Some(st) => st.saw_agent_event,
            None => false,
        }
    }

    /// Gives a file a parse state, seeded with its remembered binding, unless
    /// it has one.
    pub fn ensure_parse_state(&mut self, path: &str)
        ensures
            final(self).parse_states@ == ensured_states(
                old(self).parse_states@,
                old(self).checkpoint_seeds@,
                path@,
            ),
            final(self).checkpoint_seeds@ == old(self).checkpoint_seeds@,
    {
        if self.parse_states.contains_key(path) {
            return;
        }
        let fresh = match self.checkpoint_seeds.get(path) {
            Some(seed) => ParseState {
                session_id: copy_opt_string(&seed.session_id),
                project_path: copy_opt_string(&seed.project_path),
                model_provider: copy_opt_string(&seed.model_provider),
                next_message_seq: 0,
                saw_user_event: false,
                saw_agent_event: false,
            },
            None => ParseState {
                session_id: None,
                project_path: None,
                model_provider: None,
                next_message_seq: 0,
                saw_user_event: false,
                saw_agent_event: false,
            },
        };
        self.parse_states.insert(path.to_string(), fresh);
    }

    /// Binds a file to a session, giving it a parse state first if needed.
    pub fn mark_session_id(&mut self, path: &str, session_id: &str)
        ensures
            ({
                let e = ensured_states(old(self).parse_states@, old(self).checkpoint_seeds@, path@);
                let st = final(self).parse_states@[path@];
                &&& final(self).parse_states@.contains_key(path@)
                &&& final(self).parse_states@.remove(path@) == e.remove(path@)
                &&& st.session_id matches Some(s) && s@ == session_id@
                &&& st == ParseState { session_id: st.session_id, ..e[path@] }
            }),
            final(self).checkpoint_seeds@ == old(self).checkpoint_seeds@,
    {
        self.ensure_parse_state(path);
        let ghost e = self.parse_states@;
        let updated = match self.parse_states.get(path) {
            Some(st) => {
                let mut c = copy_parse_state(st);
                c.session_id = Some(session_id.to_string());
                c
            },
            None => {
                return;
            },
        };
        self.parse_states.insert(path.to_string(), updated);
        assert(self.parse_states@.remove(path@) =~= e.remove(path@));
    }

    /// Drops a file's session binding, keeping how far it was parsed.
    pub fn reset_session_binding(&mut self, path: &str)
        ensures
            final(self).parse_states@ == (if old(self).parse_states@.contains_key(path@) {
                old(self).parse_states@.insert(path@, unbound(old(self).parse_states@[path@]))
            } else {
                old(self).parse_states@
            }),
            final(self).checkpoint_seeds@ == old(self).checkpoint_seeds@,
    {
        let updated = match self.parse_states.get(path) {
            Some(st) => {
                let mut c = copy_parse_state(st);
                c.session_id = None;
                c.project_path = None;
                c.model_provider = None;
                c
            },
            None => {
                return;
            },
        };
        self.parse_states.insert(path.to_string(), updated);
    }

    /// Forgets a file.
    pub fn remove_path(&mut self, path: &str)
        ensures
            final(self).parse_states@ == old(self).parse_states@.remove(path@),
            final(self).checkpoint_seeds@ == old(self).checkpoint_seeds@,
    {
        self.parse_states.remove(path);
    }

    /// What to remember of a file's binding, when it has a parse state.
    pub fn binding_snapshot(&self, path: &str) -> (r: Option<PersistedFileState>)
        ensures
            r == (if self.parse_states@.contains_key(path@) {
                Some(
                    PersistedFileState {
                        offset: 0,
                        session_id: self.parse_states@[path@].session_id,
                        project_path: self.parse_states@[path@].project_path,
                        model_provider: self.parse_states@[path@].model_provider,
                        ignore_existing: None,
                    },
                )
            } else {
                None
            }),
    {
        match self.parse_states.get(path) {
            Some(st) => Some(
                PersistedFileState {
                    offset: 0,
                    session_id: copy_opt_string(&st.session_id),
                    project_path: copy_opt_string(&st.project_path),
                    model_provider: copy_opt_string(&st.model_provider),
                    ignore_existing: None,
                },
            ),
            None => None,
        }
    }
}

// ---------------------------------------------------------------------------
// Message content
// ---------------------------------------------------------------------------

/// How closely a model looks at an image.
#[derive(Debug, Clone, Copy, PartialEq, Eq, Structural)]
pub enum ImageDetail {
    Auto,
    Low,
    High,
    Original,
}

/// A piece of a rollout message: text the user or the model wrote, or an
/// image.
#[derive(Debug, Clone, PartialEq, Eq)]
pub enum ContentItem {
    InputText { text: String },
    OutputText { text: String },
    InputImage { image_url: String, detail: Option<ImageDetail> },
}

/// An image attached to a message.
#[derive(Debug, Clone, PartialEq, Eq)]
pub struct ImageInput {
    pub input_type: String,
    pub value: String,
    pub detail: Option<String>,
}

/// The trimmed, non-blank texts of a message's content, in order.
pub open spec fn text_parts(content: Seq<ContentItem>) -> Seq<Seq<char>>
    decreases content.len(),
{
    if content.len() == 0 {
        Seq::empty()
    } else {
        let prev = text_parts(content.drop_last());
        match content.last() {
            ContentItem::InputText { text } | ContentItem::OutputText { text } => if trim(text@).len()
                > 0 {
                prev.push(trim(text@))
            } else {
                prev
            },
            _ => prev,
        }
    }
}

/// The text of a message: its texts on separate lines, or none.
pub open spec fn content_text(content: Seq<ContentItem>) -> Option<Seq<char>> {
    if text_parts(content).len() == 0 {
        None
    } else {
        Some(join(text_parts(content), "\n"@))
    }
}

/// The text of a message's content.
pub fn extract_text_from_content(content: &[ContentItem]) -> (r: Option<String>)
    ensures
        crate::text::opt_string_view(r) == content_text(content@),
{
    let mut parts: Vec<String> = Vec::new();
    let mut i: usize = 0;
    while i < content.len()
        invariant
            i <= content.len(),
            strs_view(parts@) == text_parts(content@.take(i as int)),
        decreases content.len() - i,
    {
        assert(content@.take(i + 1).drop_last() =~= content@.take(i as int));
        assert(content@.take(i + 1).last() == content@[i as int]);
        let ghost before = strs_view(parts@);
        match &content[i] {
            ContentItem::InputText { text } | ContentItem::OutputText { text } => {
                let t = trim_str(text.as_str());
                if t.as_str().unicode_len() > 0 {
                    let ghost tv = t@;
                    parts.push(t);
                    assert(strs_view(parts@) =~= before.push(tv));
                }
            },
            _ => {},
        }
        i = i + 1;
    }
    assert(content@.take(content.len() as int) =~= content@);
    if parts.len() == 0 {
        None
    } else {
        Some(join_strings(parts.as_slice(), "\n"))
    }
}

/// How an image detail is written.
pub open spec fn detail_text(detail: ImageDetail) -> Seq<char> {
    match detail {
        ImageDetail::Auto => "auto"@,
        ImageDetail::Low => "low"@,
        ImageDetail::High => "high"@,
        ImageDetail::Original => "original"@,
    }
}

/// How an image detail is written.
pub fn image_detail_value(detail: ImageDetail) -> (r: String)
    ensures
        r@ == detail_text(detail),
{
    match detail {
        ImageDetail::Auto => "auto".to_string(),
        ImageDetail::Low => "low".to_string(),
        ImageDetail::High => "high".to_string(),
        ImageDetail::Original => "original".to_string(),
    }
}

/// An image input as text: its kind, its value and its detail.
pub open spec fn image_view(i: ImageInput) -> (Seq<char>, Seq<char>, Option<Seq<char>>) {
    (i.input_type@, i.value@, crate::text::opt_string_view(i.detail))
}

/// The images of a message's content, in order, each given by URL.
pub open spec fn content_images(content: Seq<ContentItem>) -> Seq<(Seq<char>, Seq<char>, Option<Seq<char>>)>
    decreases content.len(),
{
    if content.len() == 0 {
        Seq::empty()
    } else {
        let prev = content_images(content.drop_last());
        match content.last() {
            ContentItem::InputImage { image_url, detail } => prev.push(
                (
                    "url"@,
                    image_url@,
                    match detail {
                        Some(d) => Some(detail_text(d)),
                        None => None,
                    },
                ),
            ),
            _ => prev,
        }
    }
}

/// The images of a message's content.
pub fn extract_images_from_content(content: &[ContentItem]) -> (r: Vec<ImageInput>)
    ensures
        r@.map_values(|i: ImageInput| image_view(i)) == content_images(content@),
{
    let mut images: Vec<ImageInput> = Vec::new();
    let mut i: usize = 0;
    while i < content.len()
        invariant
            i <= content.len(),
            images@.map_values(|i: ImageInput| image_view(i)) == content_images(content@.take(i as int)),
        decreases content.len() - i,
    {
        assert(content@.take(i + 1).drop_last() =~= content@.take(i as int));
        assert(content@.take(i + 1).last() == content@[i as int]);
        let ghost before = images@.map_values(|i: ImageInput| image_view(i));
        match &content[i] {
            ContentItem::InputImage { image_url, detail } => {
                let d = match detail {
                    Some(d) => Some(image_detail_value(*d)),
                    None => None,
                };
                let img = ImageInput {
                    input_type: "url".to_string(),
                    value: copy_string(image_url),
                    detail: d,
                };
                let ghost iv = image_view(img);
                images.push(img);
                assert(images@.map_values(|i: ImageInput| image_view(i)) =~= before.push(iv));
            },
            _ => {},
        }
        i = i + 1;
    }
    assert(content@.take(content.len() as int) =~= content@);
    images
}

} // verus!
