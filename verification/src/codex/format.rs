//! Small texts the Codex connector builds: merged instructions, buffer
//! keys, diff lines, worker summaries and durations.

use crate::text::{
    concat3, concat_str, decimal, decimal_string, has_infix, join, join_strings, lemma_trim_idempotent,
    lemma_trim_of_clean, lines, lines_of, occurs_at, prefix_each, push_prefixed, str_contains,
    strs_view, trim, trim_str,
};
use vstd::prelude::*;

verus! {

/// Instructions with a required part: the trimmed existing text, followed
/// by the trimmed required text after a blank line unless it already holds
/// it; the required text alone when there is no existing text.
pub open spec fn merged_instructions(existing: Seq<char>, required: Seq<char>) -> Seq<char> {
    let e = trim(existing);
    let r = trim(required);
    if e.len() == 0 {
        r
    } else if has_infix(e, r) {
        e
    } else {
        e + "\n\n"@ + r
    }
}

/// Adds required instructions to existing ones, once.
pub fn merge_instruction_text(existing: &str, required: &str) -> (r: String)
    ensures
        r@ == merged_instructions(existing@, required@),
{
    let e = trim_str(existing);
    let r = trim_str(required);
    if e.as_str().unicode_len() == 0 {
        return r;
    }
    if str_contains(e.as_str(), r.as_str()) {
        return e;
    }
    concat3(e.as_str(), "\n\n", r.as_str())
}

/// Merging the same required instructions a second time changes nothing:
/// defaults applied twice are not repeated.
pub proof fn law_merge_instructions_idempotent(existing: Seq<char>, required: Seq<char>)
    ensures
        merged_instructions(merged_instructions(existing, required), required)
            == merged_instructions(existing, required),
{
    lemma_trim_idempotent(existing);
    lemma_trim_idempotent(required);
    let e = trim(existing);
    let r = trim(required);
    if e.len() == 0 {
        assert(occurs_at(r, r, 0)) by {
            assert(r.subrange(0, r.len() as int) =~= r);
        }
    } else if !has_infix(e, r) {
        if r.len() == 0 {
            assert(occurs_at(e, r, 0)) by {
                assert(e.subrange(0, 0) =~= r);
            }
        }
        reveal_strlit("\n\n");
        let m = e + "\n\n"@ + r;
        assert(m[0] == e[0]);
        assert(m.last() == r.last());
        lemma_trim_of_clean(m);
        let at: int = e.len() + 2int;
        assert(occurs_at(m, r, at)) by {
            assert(m.subrange(at, at + r.len()) =~= r);
        }
    }
}

/// A duration in milliseconds, when it is not negative.
pub fn duration_millis(value: Option<i64>) -> (r: Option<u64>)
    ensures
        r == match value {
            Some(v) => if v >= 0 {
                Some(v as u64)
            } else {
                None
            },
            None => None,
        },
{
    match value {
        Some(v) => if v >= 0 {
            Some(v as u64)
        } else {
            None
        },
        None => None,
    }
}

/// The key under which the output of an item is buffered.
pub fn output_buffer_key(kind: &str, item_id: &str) -> (r: String)
    ensures
        r@ == kind@ + "-output-"@ + item_id@,
{
    concat3(kind, "-output-", item_id)
}

/// Each line of a text with a marker before it, joined by newlines.
pub open spec fn marked_lines(value: Seq<char>, prefix: char) -> Seq<char> {
    join(prefix_each(lines(value), seq![prefix]), "\n"@)
}

/// Each line of a text with a marker before it, as in a diff.
pub fn prefixed_lines(value: &str, prefix: char) -> (r: String)
    ensures
        r@ == marked_lines(value@, prefix),
{
    let ls = lines_of(value);
    let mut one: Vec<char> = Vec::new();
    one.push(prefix);
    let marker = crate::text::from_chars(one.as_slice());
    assert(marker@ =~= seq![prefix]);
    let mut out: Vec<String> = Vec::new();
    push_prefixed(&mut out, &ls, marker.as_str());
    assert(strs_view(out@) =~= prefix_each(lines(value@), seq![prefix]));
    join_strings(out.as_slice(), "\n")
}

/// Who a collaboration call went to: the one worker, or how many.
pub open spec fn worker_summary(ids: Seq<Seq<char>>) -> Option<Seq<char>> {
    if ids.len() == 0 {
        None
    } else if ids.len() == 1 {
        Some(ids[0])
    } else {
        Some(decimal(ids.len()) + " agents"@)
    }
}

/// Who a collaboration call went to.
pub fn collab_agent_worker_summary(receiver_thread_ids: &[String]) -> (r: Option<String>)
    ensures
        crate::text::opt_string_view(r) == worker_summary(strs_view(receiver_thread_ids@)),
{
    if receiver_thread_ids.len() == 0 {
        None
    } else if receiver_thread_ids.len() == 1 {
        Some(receiver_thread_ids[0].clone())
    } else {
        let n = decimal_string(receiver_thread_ids.len() as u64);
        Some(concat_str(n.as_str(), " agents"))
    }
}

} // verus!
