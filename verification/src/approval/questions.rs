//! Structured questions carried by a tool's JSON input: each question with
//! its header, its answers and whether several answers, a free answer or a
//! secret answer are allowed.

use crate::approval::{
    options_view, prompts_view, ApprovalQuestionOption, ApprovalQuestionPrompt, PromptSpec,
};
use crate::json::{
    opt_node_view,
    element_pointer, element_ptr, first_present, json_array_len, json_has, json_is_object,
    json_lookup, json_str, json_str_at, spec_json_lookup, JsonNode, JsonNodeView,
};
use crate::text::{
    ascii_lower_seq, chars_ascii_lower, chars_eq, concat_str, decimal, decimal_string,
    opt_str_view, opt_string_view, to_chars, trim, trim_chars, trim_non_empty, trimmed_non_empty,
};
use vstd::prelude::*;

verus! {

// ---------------------------------------------------------------------------
// Specification
// ---------------------------------------------------------------------------

/// A JSON value read as a flag: a boolean as it is, a number as "positive",
/// a string as one of `true`, `1`, `yes` (trimmed, any ASCII case), and
/// anything else, or nothing, as false.
pub open spec fn flag_at(text: Seq<char>, p: Seq<char>) -> bool {
    flag_node(spec_json_lookup(text, p))
}

/// Whether a JSON node read as a flag is set: `true`, a positive integer,
/// or the text `true`, `1` or `yes` (trimmed, in any ASCII case).
pub open spec fn flag_node(node: Option<JsonNodeView>) -> bool {
    match node {
        Some(JsonNodeView::Bool(b)) => b,
        Some(JsonNodeView::Number(Some(n))) => n > 0,
        Some(JsonNodeView::Str(t)) => {
            let l = ascii_lower_seq(trim(t));
            l == "true"@ || l == "1"@ || l == "yes"@
        },
        _ => false,
    }
}

/// The answer at `p`: an object with a non-blank `label` (or, when there is
/// no `label`, `value`) and an optional non-blank `description`.
pub open spec fn option_at(text: Seq<char>, p: Seq<char>) -> Option<(Seq<char>, Option<Seq<char>>)> {
    if !json_is_object(text, p) {
        None
    } else {
        match trimmed_non_empty(json_str(text, first_present(text, p + "/label"@, p + "/value"@))) {
            None => None,
            Some(label) => Some((label, trimmed_non_empty(json_str(text, p + "/description"@)))),
        }
    }
}

/// The answers among the first `k` elements of the array at `p`.
pub open spec fn options_upto(text: Seq<char>, p: Seq<char>, k: nat) -> Seq<(Seq<char>, Option<Seq<char>>)>
    decreases k,
{
    if k == 0 {
        Seq::empty()
    } else {
        let prev = options_upto(text, p, (k - 1) as nat);
        match option_at(text, element_pointer(p, (k - 1) as nat)) {
            Some(o) => prev.push(o),
            None => prev,
        }
    }
}

/// The answers of the array at `p`; none when it is not an array.
pub open spec fn options_at(text: Seq<char>, p: Seq<char>) -> Seq<(Seq<char>, Option<Seq<char>>)> {
    match json_array_len(text, p) {
        Some(n) => options_upto(text, p, n),
        None => Seq::empty(),
    }
}

/// The question in the object at `p`; `fallback_id` names it when it has
/// no non-blank `id`, and `Question` stands for a missing question text.
pub open spec fn prompt_at(text: Seq<char>, p: Seq<char>, fallback_id: Seq<char>) -> PromptSpec {
    PromptSpec {
        id: match trimmed_non_empty(json_str(text, p + "/id"@)) {
            Some(i) => i,
            None => fallback_id,
        },
        header: trimmed_non_empty(json_str(text, p + "/header"@)),
        question: match trimmed_non_empty(json_str(text, p + "/question"@)) {
            Some(q) => q,
            None => "Question"@,
        },
        options: options_at(text, p + "/options"@),
        allows_multiple_selection: flag_at(
            text,
            first_present(text, p + "/multiSelect"@, p + "/multi_select"@),
        ),
        allows_other: flag_at(text, first_present(text, p + "/isOther"@, p + "/is_other"@)),
        is_secret: flag_at(text, first_present(text, p + "/isSecret"@, p + "/is_secret"@)),
    }
}

/// The trimmed tool input, when it is a JSON object.
pub open spec fn tool_input_object(tool_input: Option<Seq<char>>) -> Option<Seq<char>> {
    match trimmed_non_empty(tool_input) {
        Some(x) => if json_is_object(x, Seq::empty()) {
            Some(x)
        } else {
            None
        },
        None => None,
    }
}

/// The questions among the first `k` elements of `questions`.
pub open spec fn prompts_upto(text: Seq<char>, k: nat) -> Seq<PromptSpec>
    decreases k,
{
    if k == 0 {
        Seq::empty()
    } else {
        let prev = prompts_upto(text, (k - 1) as nat);
        let p = element_pointer("/questions"@, (k - 1) as nat);
        if json_is_object(text, p) {
            prev.push(prompt_at(text, p, decimal((k - 1) as nat)))
        } else {
            prev
        }
    }
}

/// The questions of a tool input: each object of its `questions` array, or
/// the input itself when it has a `question` or `options` member.
pub open spec fn prompts_from_input(tool_input: Option<Seq<char>>) -> Seq<PromptSpec> {
    match tool_input_object(tool_input) {
        None => Seq::empty(),
        Some(x) => match json_array_len(x, "/questions"@) {
            Some(n) => prompts_upto(x, n),
            None => if json_has(x, "/question"@) || json_has(x, "/options"@) {
                seq![prompt_at(x, Seq::empty(), "0"@)]
            } else {
                Seq::empty()
            },
        },
    }
}

/// The questions of a request: those of its tool input, else one free
/// question made of the fallback text, else none.
pub open spec fn question_prompts(
    tool_input: Option<Seq<char>>,
    fallback: Option<Seq<char>>,
) -> Seq<PromptSpec> {
    let ps = prompts_from_input(tool_input);
    if ps.len() > 0 {
        ps
    } else {
        match trimmed_non_empty(fallback) {
            Some(q) => seq![
                PromptSpec {
                    id: "0"@,
                    header: None,
                    question: q,
                    options: Seq::empty(),
                    allows_multiple_selection: false,
                    allows_other: true,
                    is_secret: false,
                },
            ],
            None => Seq::empty(),
        }
    }
}

/// The question text of a request: that of its first prompt, else the
/// trimmed fallback.
pub open spec fn question_text(
    tool_input: Option<Seq<char>>,
    fallback: Option<Seq<char>>,
) -> Option<Seq<char>> {
    let ps = question_prompts(tool_input, fallback);
    if ps.len() > 0 && ps[0].question.len() > 0 {
        Some(ps[0].question)
    } else {
        trimmed_non_empty(fallback)
    }
}

// ---------------------------------------------------------------------------
// Reading
// ---------------------------------------------------------------------------

fn str_is(a: &[char], lit: &str) -> (r: bool)
    ensures
        r == (a@ == lit@),
{
    let l = to_chars(lit);
    chars_eq(a, l.as_slice())
}

fn flag_from(text: &str, p: &str) -> (r: bool)
    ensures
        r == flag_at(text@, p@),
{
    flag_of_node(json_lookup(text, p))
}

/// Whether a JSON node read as a flag is set; see `flag_node`.
pub fn flag_of_node(node: Option<JsonNode>) -> (r: bool)
    ensures
        r == flag_node(opt_node_view(node)),
{
    match node {
        Some(JsonNode::Bool(b)) => b,
        Some(JsonNode::Number(Some(n))) => n > 0,
        Some(JsonNode::Str(t)) => {
            let c = to_chars(t.as_str());
            let tr = trim_chars(c.as_slice());
            let l = chars_ascii_lower(tr.as_slice());
            str_is(l.as_slice(), "true") || str_is(l.as_slice(), "1") || str_is(
                l.as_slice(),
                "yes",
            )
        },
        _ => false,
    }
}

fn first_present_ptr(text: &str, a: String, b: String) -> (r: String)
    ensures
        r@ == first_present(text@, a@, b@),
{
    if json_lookup(text, a.as_str()).is_some() {
        a
    } else {
        b
    }
}

fn is_object_at(text: &str, p: &str) -> (r: bool)
    ensures
        r == json_is_object(text@, p@),
{
    match json_lookup(text, p) {
        Some(JsonNode::Object(_)) => true,
        _ => false,
    }
}

fn array_len_at(text: &str, p: &str) -> (r: Option<usize>)
    ensures
        match r {
            Some(n) => json_array_len(text@, p@) == Some(n as nat),
            None => json_array_len(text@, p@) is None,
        },
{
    match json_lookup(text, p) {
        Some(JsonNode::Array(n)) => Some(n),
        _ => None,
    }
}

fn option_from(text: &str, p: &str) -> (r: Option<ApprovalQuestionOption>)
    ensures
        match r {
            Some(o) => option_at(text@, p@) == Some(o.view_pair()),
            None => option_at(text@, p@) is None,
        },
{
    if !is_object_at(text, p) {
        return None;
    }
    let label_ptr = first_present_ptr(text, concat_str(p, "/label"), concat_str(p, "/value"));
    let label = match json_str_at(text, label_ptr.as_str()) {
        Some(l) => l,
        None => {
            return None;
        },
    };
    let label = match trim_non_empty(Some(label.as_str())) {
        Some(l) => l,
        None => {
            return None;
        },
    };
    let desc_ptr = concat_str(p, "/description");
    let description = match json_str_at(text, desc_ptr.as_str()) {
        Some(d) => trim_non_empty(Some(d.as_str())),
        None => None,
    };
    Some(ApprovalQuestionOption { label, description })
}

fn options_from(text: &str, p: &str) -> (r: Vec<ApprovalQuestionOption>)
    ensures
        options_view(r@) == options_at(text@, p@),
{
    let mut out: Vec<ApprovalQuestionOption> = Vec::new();
    let n = match array_len_at(text, p) {
        Some(n) => n,
        None => {
            assert(options_view(out@) =~= Seq::<(Seq<char>, Option<Seq<char>>)>::empty());
            return out;
        },
    };
    let mut i: usize = 0;
    assert(options_view(out@) =~= options_upto(text@, p@, 0));
    while i < n
        invariant
            i <= n,
            options_view(out@) == options_upto(text@, p@, i as nat),
        decreases n - i,
    {
        let ep = element_ptr(p, i);
        let ghost before = options_view(out@);
        match option_from(text, ep.as_str()) {
            Some(o) => {
                out.push(o);
                assert(options_view(out@) =~= before.push(o.view_pair()));
            },
            None => {},
        }
        i = i + 1;
    }
    out
}

fn prompt_from(text: &str, p: &str, fallback_id: String) -> (r: ApprovalQuestionPrompt)
    ensures
        r.prompt_view() == prompt_at(text@, p@, fallback_id@),
{
    let id_ptr = concat_str(p, "/id");
    let id = match json_str_at(text, id_ptr.as_str()) {
        Some(v) => match trim_non_empty(Some(v.as_str())) {
            Some(t) => t,
            None => fallback_id,
        },
        None => fallback_id,
    };
    let header_ptr = concat_str(p, "/header");
    let header = match json_str_at(text, header_ptr.as_str()) {
        Some(v) => trim_non_empty(Some(v.as_str())),
        None => None,
    };
    let question_ptr = concat_str(p, "/question");
    let question = match json_str_at(text, question_ptr.as_str()) {
        Some(v) => match trim_non_empty(Some(v.as_str())) {
            Some(t) => t,
            None => "Question".to_string(),
        },
        None => "Question".to_string(),
    };
    let options_ptr = concat_str(p, "/options");
    let options = options_from(text, options_ptr.as_str());
    let multi_ptr = first_present_ptr(
        text,
        concat_str(p, "/multiSelect"),
        concat_str(p, "/multi_select"),
    );
    let other_ptr = first_present_ptr(text, concat_str(p, "/isOther"), concat_str(p, "/is_other"));
    let secret_ptr = first_present_ptr(
        text,
        concat_str(p, "/isSecret"),
        concat_str(p, "/is_secret"),
    );
    ApprovalQuestionPrompt {
        id,
        header,
        question,
        options,
        allows_multiple_selection: flag_from(text, multi_ptr.as_str()),
        allows_other: flag_from(text, other_ptr.as_str()),
        is_secret: flag_from(text, secret_ptr.as_str()),
    }
}

/// The trimmed tool input, when it is a JSON object.
pub fn parse_tool_input_object(tool_input: Option<&str>) -> (r: Option<String>)
    ensures
        opt_string_view(r) == tool_input_object(opt_str_view(tool_input)),
{
    let raw = match trim_non_empty(tool_input) {
        Some(r) => r,
        None => {
            return None;
        },
    };
    proof {
        reveal_strlit("");
        assert(""@ =~= Seq::<char>::empty());
    }
    if is_object_at(raw.as_str(), "") {
        Some(raw)
    } else {
        None
    }
}

fn prompts_from_tool_input(tool_input: Option<&str>) -> (r: Vec<ApprovalQuestionPrompt>)
    ensures
        prompts_view(r@) == prompts_from_input(opt_str_view(tool_input)),
{
    let mut out: Vec<ApprovalQuestionPrompt> = Vec::new();
    proof {
        reveal_strlit("");
        assert(""@ =~= Seq::<char>::empty());
    }
    let input = match parse_tool_input_object(tool_input) {
        Some(x) => x,
        None => {
            assert(prompts_view(out@) =~= Seq::<PromptSpec>::empty());
            return out;
        },
    };
    let text = input.as_str();
    match array_len_at(text, "/questions") {
        Some(n) => {
            let mut i: usize = 0;
            assert(prompts_view(out@) =~= prompts_upto(text@, 0));
            while i < n
                invariant
                    i <= n,
                    prompts_view(out@) == prompts_upto(text@, i as nat),
                decreases n - i,
            {
                let ep = element_ptr("/questions", i);
                let ghost before = prompts_view(out@);
                if is_object_at(text, ep.as_str()) {
                    let prompt = prompt_from(text, ep.as_str(), decimal_string(i as u64));
                    out.push(prompt);
                    assert(prompts_view(out@) =~= before.push(prompt.prompt_view()));
                }
                i = i + 1;
            }
            out
        },
        None => {
            let has_question = json_lookup(text, "/question").is_some();
            let has_options = json_lookup(text, "/options").is_some();
            if has_question || has_options {
                let prompt = prompt_from(text, "", "0".to_string());
                out.push(prompt);
                assert(prompts_view(out@) =~= seq![prompt.prompt_view()]);
            } else {
                assert(prompts_view(out@) =~= Seq::<PromptSpec>::empty());
            }
            out
        },
    }
}

/// The questions a request asks: those in its tool input, or else one free
/// question made of the fallback text.
pub fn approval_question_prompts(tool_input: Option<&str>, fallback_question: Option<&str>) -> (r:
    Vec<ApprovalQuestionPrompt>)
    ensures
        prompts_view(r@) == question_prompts(opt_str_view(tool_input), opt_str_view(fallback_question)),
{
    let prompts = prompts_from_tool_input(tool_input);
    if prompts.len() > 0 {
        return prompts;
    }
    let mut out: Vec<ApprovalQuestionPrompt> = Vec::new();
    match trim_non_empty(fallback_question) {
        None => {
            assert(prompts_view(out@) =~= Seq::<PromptSpec>::empty());
            out
        },
        Some(question) => {
            let prompt = ApprovalQuestionPrompt {
                id: "0".to_string(),
                header: None,
                question,
                options: Vec::new(),
                allows_multiple_selection: false,
                allows_other: true,
                is_secret: false,
            };
            out.push(prompt);
            assert(options_view(prompt.options@) =~= Seq::<(Seq<char>, Option<Seq<char>>)>::empty());
            assert(prompts_view(out@) =~= seq![prompt.prompt_view()]);
            out
        },
    }
}

/// The question text of a request: that of its first prompt, else the
/// trimmed fallback question.
pub fn approval_question(tool_input: Option<&str>, fallback_question: Option<&str>) -> (r: Option<
    String,
>)
    ensures
        opt_string_view(r) == question_text(opt_str_view(tool_input), opt_str_view(fallback_question)),
{
    let prompts = approval_question_prompts(tool_input, fallback_question);
    if prompts.len() > 0 {
        assert(prompts_view(prompts@)[0] == prompts@[0].prompt_view());
        if prompts[0].question.as_str().unicode_len() > 0 {
            return Some(prompts[0].question.clone());
        }
    }
    trim_non_empty(fallback_question)
}

} // verus!
