//! Diff previews of file edits: a unified-diff rendering of an edit given
//! as old and new text, its target file, and a bounded preview.

use crate::json::json_str;
use crate::text::{
    chars_start_with, concat3, concat_str, decimal, decimal_string, from_chars, has_prefix,
    join, join_strings, lines, lines_of, opt_str_view, opt_string_view, path_file_name,
    prefix_each, push_prefixed, spec_file_name, str_eq, strs_view, take_chars, to_chars, trim,
    trim_chars, trim_non_empty, trimmed_non_empty, chars_eq,
};
use vstd::prelude::*;

verus! {

/// The most characters a diff preview keeps before it is cut.
pub const APPROVAL_DIFF_PREVIEW_MAX_CHARS: usize = 12_000;

/// A unified diff of an edit: headers, `-` lines of the old text, `+` lines
/// of the new text, and a note when both texts are empty.
pub open spec fn patch_diff(
    old_path: Seq<char>,
    new_path: Seq<char>,
    old_text: Seq<char>,
    new_text: Seq<char>,
) -> Seq<char> {
    let head = seq!["--- "@ + old_path, "+++ "@ + new_path, "@@"@];
    let body = head + prefix_each(lines(old_text), "-"@) + prefix_each(lines(new_text), "+"@);
    let all = if old_text.len() == 0 && new_text.len() == 0 {
        body.push("(no textual changes provided)"@)
    } else {
        body
    };
    join(all, "\n"@)
}

/// Renders an edit as a unified diff.
pub fn render_patch_diff(old_path: &str, new_path: &str, old_text: &str, new_text: &str) -> (r:
    String)
    ensures
        r@ == patch_diff(old_path@, new_path@, old_text@, new_text@),
{
    let mut lines_out: Vec<String> = Vec::new();
    lines_out.push(concat_str("--- ", old_path));
    lines_out.push(concat_str("+++ ", new_path));
    lines_out.push("@@".to_string());
    let ghost head = strs_view(lines_out@);
    assert(head =~= seq!["--- "@ + old_path@, "+++ "@ + new_path@, "@@"@]);
    let old_lines = lines_of(old_text);
    let new_lines = lines_of(new_text);
    push_prefixed(&mut lines_out, &old_lines, "-");
    push_prefixed(&mut lines_out, &new_lines, "+");
    if old_text.unicode_len() == 0 && new_text.unicode_len() == 0 {
        let ghost before = strs_view(lines_out@);
        let note = "(no textual changes provided)".to_string();
        lines_out.push(note);
        assert(strs_view(lines_out@) =~= before.push(note@));
    }
    join_strings(&lines_out, "\n")
}

/// The diff previewed for a file-edit tool input (`text`, a JSON object):
/// its explicit non-blank `diff`, else a rendering of `old_string` and
/// `new_string`, else a rendering of new `content`.
pub open spec fn diff_from_patch_input(text: Seq<char>, fallback_file_path: Option<Seq<char>>) -> Option<Seq<char>> {
    match trimmed_non_empty(json_str(text, "/diff"@)) {
        Some(d) => Some(d),
        None => {
            let file_path = match trimmed_non_empty(json_str(text, "/file_path"@)) {
                Some(p) => p,
                None => match trimmed_non_empty(fallback_file_path) {
                    Some(p) => p,
                    None => "file"@,
                },
            };
            let old_string = json_str(text, "/old_string"@);
            let new_string = json_str(text, "/new_string"@);
            if old_string is Some || new_string is Some {
                Some(
                    patch_diff(
                        file_path,
                        file_path,
                        match old_string {
                            Some(o) => o,
                            None => Seq::empty(),
                        },
                        match new_string {
                            Some(n) => n,
                            None => Seq::empty(),
                        },
                    ),
                )
            } else {
                match trimmed_non_empty(json_str(text, "/content"@)) {
                    Some(c) => Some(patch_diff("/dev/null"@, file_path, Seq::empty(), c)),
                    None => None,
                }
            }
        },
    }
}

/// The diff previewed for a file-edit tool input.
pub fn diff_preview_from_patch_input(text: &str, fallback_file_path: Option<&str>) -> (r: Option<
    String,
>)
    ensures
        opt_string_view(r) == diff_from_patch_input(text@, opt_str_view(fallback_file_path)),
{
    proof {
        reveal_strlit("");
        assert(""@ =~= Seq::<char>::empty());
    }
    match crate::json::json_str_at(text, "/diff") {
        Some(d) => {
            match trim_non_empty(Some(d.as_str())) {
                Some(t) => {
                    return Some(t);
                },
                None => {},
            }
        },
        None => {},
    }
    let file_path = match crate::json::json_str_at(text, "/file_path") {
        Some(p) => trim_non_empty(Some(p.as_str())),
        None => None,
    };
    let file_path = match file_path {
        Some(p) => p,
        None => match trim_non_empty(fallback_file_path) {
            Some(p) => p,
            None => "file".to_string(),
        },
    };
    let old_string = crate::json::json_str_at(text, "/old_string");
    let new_string = crate::json::json_str_at(text, "/new_string");
    if old_string.is_some() || new_string.is_some() {
        let old_text = match old_string {
            Some(o) => o,
            None => String::new(),
        };
        let new_text = match new_string {
            Some(n) => n,
            None => String::new(),
        };
        return Some(
            render_patch_diff(
                file_path.as_str(),
                file_path.as_str(),
                old_text.as_str(),
                new_text.as_str(),
            ),
        );
    }
    match crate::json::json_str_at(text, "/content") {
        Some(c) => match trim_non_empty(Some(c.as_str())) {
            Some(content) => Some(
                render_patch_diff("/dev/null", file_path.as_str(), "", content.as_str()),
            ),
            None => None,
        },
        None => None,
    }
}

/// A diff bounded for display: trimmed, and when longer than the limit,
/// cut with a note of its full length.
pub open spec fn normalized_diff(diff: Seq<char>) -> Seq<char> {
    let t = trim(diff);
    if t.len() == 0 {
        Seq::empty()
    } else if t.len() <= APPROVAL_DIFF_PREVIEW_MAX_CHARS {
        t
    } else {
        t.take((APPROVAL_DIFF_PREVIEW_MAX_CHARS - 64) as int) + "\n... diff preview truncated ("@
            + decimal(t.len()) + " chars total)"@
    }
}

/// Bounds a diff for display.
pub fn normalize_diff_preview(diff: &str) -> (r: String)
    ensures
        r@ == normalized_diff(diff@),
{
    let c = to_chars(diff);
    let t = trim_chars(c.as_slice());
    if t.len() == 0 {
        return String::new();
    }
    if t.len() <= APPROVAL_DIFF_PREVIEW_MAX_CHARS {
        return from_chars(t.as_slice());
    }
    let head = take_chars(t.as_slice(), APPROVAL_DIFF_PREVIEW_MAX_CHARS - 64);
    let head_s = from_chars(head.as_slice());
    let count = decimal_string(t.len() as u64);
    let a = concat3(head_s.as_str(), "\n... diff preview truncated (", count.as_str());
    concat_str(a.as_str(), " chars total)")
}

/// The target of one diff line: the path after `+++ `, trimmed, without a
/// leading `b/` (or else `a/`), when it is neither blank nor `/dev/null`.
pub open spec fn line_target(line: Seq<char>) -> Option<Seq<char>> {
    if !has_prefix(line, "+++ "@) {
        None
    } else {
        let candidate = trim(line.skip(4));
        if candidate.len() == 0 || candidate == "/dev/null"@ {
            None
        } else {
            let stripped = if has_prefix(candidate, "b/"@) {
                candidate.skip(2)
            } else if has_prefix(candidate, "a/"@) {
                candidate.skip(2)
            } else {
                candidate
            };
            let normalized = trim(stripped);
            if normalized.len() == 0 {
                None
            } else {
                Some(normalized)
            }
        }
    }
}

/// The first target among the first `k` lines.
pub open spec fn first_target(ls: Seq<Seq<char>>, k: nat) -> Option<Seq<char>>
    decreases k,
{
    if k == 0 {
        None
    } else {
        match first_target(ls, (k - 1) as nat) {
            Some(t) => Some(t),
            None => line_target(ls[k - 1]),
        }
    }
}

/// The file a diff edits: the first `+++` header that names one.
pub open spec fn diff_target(diff: Seq<char>) -> Option<Seq<char>> {
    first_target(lines(diff), lines(diff).len())
}

fn skip_chars(v: &[char], k: usize) -> (r: Vec<char>)
    requires
        k <= v.len(),
    ensures
        r@ == v@.skip(k as int),
{
    let mut r: Vec<char> = Vec::new();
    let mut i = k;
    while i < v.len()
        invariant
            k <= i <= v.len(),
            r@ =~= v@.subrange(k as int, i as int),
        decreases v.len() - i,
    {
        r.push(v[i]);
        i = i + 1;
    }
    r
}

fn exec_line_target(line: &str) -> (r: Option<String>)
    ensures
        opt_string_view(r) == line_target(line@),
{
    let l = to_chars(line);
    if !chars_start_with(l.as_slice(), to_chars("+++ ").as_slice()) {
        return None;
    }
    proof {
        reveal_strlit("+++ ");
    }
    let rest = skip_chars(l.as_slice(), 4);
    let candidate = trim_chars(rest.as_slice());
    if candidate.len() == 0 || chars_eq(candidate.as_slice(), to_chars("/dev/null").as_slice()) {
        return None;
    }
    let stripped = if chars_start_with(candidate.as_slice(), to_chars("b/").as_slice()) {
        proof {
            reveal_strlit("b/");
        }
        skip_chars(candidate.as_slice(), 2)
    } else if chars_start_with(candidate.as_slice(), to_chars("a/").as_slice()) {
        proof {
            reveal_strlit("a/");
        }
        skip_chars(candidate.as_slice(), 2)
    } else {
        candidate
    };
    let normalized = trim_chars(stripped.as_slice());
    if normalized.len() == 0 {
        None
    } else {
        Some(from_chars(normalized.as_slice()))
    }
}

/// The file a diff edits, when one of its `+++` headers names one.
pub fn diff_target_file(diff: &str) -> (r: Option<String>)
    ensures
        opt_string_view(r) == diff_target(diff@),
{
    let ls = lines_of(diff);
    let ghost lv = strs_view(ls@);
    let mut i: usize = 0;
    while i < ls.len()
        invariant
            i <= ls.len(),
            lv == strs_view(ls@),
            lv == lines(diff@),
            first_target(lv, i as nat) is None,
        decreases ls.len() - i,
    {
        let t = exec_line_target(ls[i].as_str());
        if t.is_some() {
            proof {
                assert(lv[i as int] == ls@[i as int]@);
                assert(first_target(lv, (i + 1) as nat) == line_target(lv[i as int]));
                lemma_first_target_stable(lv, (i + 1) as nat, lv.len());
            }
            return t;
        }
        assert(lv[i as int] == ls@[i as int]@);
        i = i + 1;
    }
    None
}

proof fn lemma_first_target_stable(ls: Seq<Seq<char>>, k: nat, m: nat)
    requires
        k <= m,
        first_target(ls, k) is Some,
    ensures
        first_target(ls, m) == first_target(ls, k),
    decreases m - k,
{
    if k < m {
        lemma_first_target_stable(ls, k, (m - 1) as nat);
    }
}

proof fn lemma_trim_clean(s: Seq<char>)
    requires
        s.len() > 0,
        !crate::text::is_ws(s[0]),
        !crate::text::is_ws(s.last()),
    ensures
        trim(s) == s,
{
    assert(crate::text::trim_start(s) == s);
}

proof fn lemma_lines_one(s: Seq<char>, cur: Seq<char>)
    requires
        forall|i: int| 0 <= i < s.len() ==> s[i] != '\n',
        cur.len() + s.len() > 0,
    ensures
        crate::text::lines_from(s, cur) == seq![cur + s],
    decreases s.len(),
{
    if s.len() == 0 {
        assert(cur + s =~= cur);
    } else {
        assert(s[0] != '\n');
        lemma_lines_one(s.drop_first(), cur.push(s[0]));
        assert(cur.push(s[0]) + s.drop_first() =~= cur + s);
    }
}

proof fn lemma_lines_split(a: Seq<char>, b: Seq<char>, cur: Seq<char>)
    requires
        forall|i: int| 0 <= i < a.len() ==> a[i] != '\n',
    ensures
        crate::text::lines_from(a + seq!['\n'] + b, cur) == seq![crate::text::strip_cr(cur + a)]
            + crate::text::lines_from(b, Seq::empty()),
    decreases a.len(),
{
    let s = a + seq!['\n'] + b;
    if a.len() == 0 {
        assert(s[0] == '\n');
        assert(s.drop_first() =~= b);
        assert(cur + a =~= cur);
    } else {
        assert(s[0] == a[0]);
        assert(s.drop_first() =~= a.drop_first() + seq!['\n'] + b);
        lemma_lines_split(a.drop_first(), b, cur.push(a[0]));
        assert(cur.push(a[0]) + a.drop_first() =~= cur + a);
    }
}

/// The target a `+++` header names drops git's `b/` prefix, or else its
/// `a/` prefix: for a path with no surrounding whitespace, both
/// `+++ b/PATH` and `+++ a/PATH` target PATH. So a git diff of PATH — a
/// `--- a/PATH` line, a `+++ b/PATH` line, then anything — edits PATH.
pub proof fn law_diff_target_drops_git_prefix(path: Seq<char>, rest: Seq<char>)
    requires
        path.len() > 0,
        !crate::text::is_ws(path[0]),
        !crate::text::is_ws(path.last()),
        forall|i: int| 0 <= i < path.len() ==> path[i] != '\n',
    ensures
        line_target("+++ b/"@ + path) == Some(path),
        line_target("+++ a/"@ + path) == Some(path),
        diff_target("--- a/"@ + path + "\n+++ b/"@ + path + "\n"@ + rest) == Some(path),
{
    reveal_strlit("+++ b/");
    reveal_strlit("+++ a/");
    reveal_strlit("+++ ");
    reveal_strlit("b/");
    reveal_strlit("a/");
    reveal_strlit("/dev/null");
    reveal_strlit("--- a/");
    reveal_strlit("\n+++ b/");
    reveal_strlit("\n");
    lemma_trim_clean(path);
    let lb = "+++ b/"@ + path;
    assert(lb.subrange(0, 4) =~= "+++ "@);
    let cb = lb.skip(4);
    assert(cb =~= "b/"@ + path);
    assert(cb[0] == 'b');
    assert(cb.last() == path.last());
    lemma_trim_clean(cb);
    assert(cb != "/dev/null"@);
    assert(cb.subrange(0, 2) =~= "b/"@);
    assert(cb.skip(2) =~= path);
    let la = "+++ a/"@ + path;
    assert(la.subrange(0, 4) =~= "+++ "@);
    let ca = la.skip(4);
    assert(ca =~= "a/"@ + path);
    assert(ca[0] == 'a');
    assert(ca.last() == path.last());
    lemma_trim_clean(ca);
    assert(ca != "/dev/null"@);
    assert(ca.subrange(0, 2) != "b/"@);
    assert(ca.subrange(0, 2) =~= "a/"@);
    assert(ca.skip(2) =~= path);
    let first = "--- a/"@ + path;
    let d = "--- a/"@ + path + "\n+++ b/"@ + path + "\n"@ + rest;
    assert(forall|i: int| 0 <= i < first.len() ==> first[i] != '\n') by {
        assert forall|i: int| 0 <= i < first.len() implies first[i] != '\n' by {
            if i >= 6 {
                assert(first[i] == path[i - 6]);
            }
        }
    }
    assert(forall|i: int| 0 <= i < lb.len() ==> lb[i] != '\n') by {
        assert forall|i: int| 0 <= i < lb.len() implies lb[i] != '\n' by {
            if i >= 6 {
                assert(lb[i] == path[i - 6]);
            }
        }
    }
    assert(d =~= first + seq!['\n'] + (lb + seq!['\n'] + rest));
    lemma_lines_split(first, lb + seq!['\n'] + rest, Seq::empty());
    lemma_lines_split(lb, rest, Seq::empty());
    let ls = crate::text::lines(d);
    assert(Seq::<char>::empty() + first =~= first);
    assert(Seq::<char>::empty() + lb =~= lb);
    assert(lb.last() == path.last());
    assert(lb.last() != '\r');
    assert(crate::text::strip_cr(lb) == lb);
    assert(ls[1] == lb);
    let f0 = crate::text::strip_cr(first);
    assert(ls[0] == f0);
    assert(f0[0] == '-');
    assert(!has_prefix(f0, "+++ "@)) by {
        assert(f0.subrange(0, 4)[0] == '-');
    }
    assert(line_target(ls[0]) is None);
    assert(first_target(ls, 0) is None);
    assert(first_target(ls, 1) is None);
    assert(first_target(ls, 2) == Some(path));
    lemma_first_target_stable(ls, 2, ls.len());
}

/// How many lines of a diff a manifest shows.
pub const DIFF_MANIFEST_PREVIEW_LINES: usize = 40;

/// The manifest lines of a diff: its line count, its target file, and its
/// first lines, with a note of how many more there are.
pub open spec fn diff_manifest(value: Seq<char>) -> Seq<Seq<char>> {
    let ls = lines(value);
    let head = seq!["diff_lines: "@ + decimal(ls.len())];
    let with_target = match diff_target(value) {
        Some(t) => head.push("target_file: "@ + t),
        None => head,
    };
    let shown = if ls.len() <= DIFF_MANIFEST_PREVIEW_LINES {
        ls
    } else {
        ls.take(DIFF_MANIFEST_PREVIEW_LINES as int)
    };
    let body = with_target.push("diff_preview:"@) + shown;
    if ls.len() > DIFF_MANIFEST_PREVIEW_LINES {
        body.push("... +"@ + decimal((ls.len() - DIFF_MANIFEST_PREVIEW_LINES) as nat) + " more lines"@)
    } else {
        body
    }
}

/// The manifest lines of a diff.
pub fn diff_manifest_lines(value: &str) -> (r: Vec<String>)
    ensures
        strs_view(r@) == diff_manifest(value@),
{
    let ls = lines_of(value);
    let mut content: Vec<String> = Vec::new();
    content.push(concat_str("diff_lines: ", decimal_string(ls.len() as u64).as_str()));
    match diff_target_file(value) {
        Some(t) => {
            content.push(concat_str("target_file: ", t.as_str()));
        },
        None => {},
    }
    content.push("diff_preview:".to_string());
    let ghost base = strs_view(content@);
    let mut i: usize = 0;
    while i < ls.len() && i < DIFF_MANIFEST_PREVIEW_LINES
        invariant
            i <= ls.len(),
            i <= DIFF_MANIFEST_PREVIEW_LINES,
            strs_view(content@) == base + strs_view(ls@).take(i as int),
        decreases ls.len() - i,
    {
        let ghost before = strs_view(content@);
        let line = ls[i].clone();
        content.push(line);
        assert(strs_view(content@) =~= before.push(ls@[i as int]@));
        assert(strs_view(ls@).take(i + 1) =~= strs_view(ls@).take(i as int).push(ls@[i as int]@));
        i = i + 1;
    }
    if ls.len() <= DIFF_MANIFEST_PREVIEW_LINES {
        assert(strs_view(ls@).take(i as int) =~= strs_view(ls@));
    }
    if ls.len() > DIFF_MANIFEST_PREVIEW_LINES {
        let more = decimal_string((ls.len() - DIFF_MANIFEST_PREVIEW_LINES) as u64);
        let ghost before = strs_view(content@);
        let note = concat3("... +", more.as_str(), " more lines");
        content.push(note);
        assert(strs_view(content@) =~= before.push(note@));
    }
    proof {
        let w = match diff_target(value@) {
            Some(t) => seq!["diff_lines: "@ + decimal(lines(value@).len())].push("target_file: "@ + t),
            None => seq!["diff_lines: "@ + decimal(lines(value@).len())],
        };
        assert(base =~= w.push("diff_preview:"@));
    }
    content
}

/// The compact summary of a diff: the target file's name (or `diff`) and
/// the number of lines.
pub open spec fn diff_summary(value: Seq<char>) -> Seq<char> {
    let n = decimal(lines(value).len());
    match diff_target(value) {
        Some(t) => {
            let leaf = match spec_file_name(t) {
                Some(f) => f,
                None => t,
            };
            leaf + " ("@ + n + " lines)"@
        },
        None => "diff ("@ + n + " lines)"@,
    }
}

/// The compact summary of a diff.
pub fn diff_compact_summary(value: &str) -> (r: String)
    ensures
        r@ == diff_summary(value@),
{
    let n = decimal_string(lines_of(value).len() as u64);
    match diff_target_file(value) {
        Some(t) => {
            let leaf = match path_file_name(t.as_str()) {
                Some(f) => f,
                None => t,
            };
            let a = concat3(leaf.as_str(), " (", n.as_str());
            concat_str(a.as_str(), " lines)")
        },
        None => concat3("diff (", n.as_str(), " lines)"),
    }
}

} // verus!
