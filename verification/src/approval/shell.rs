//! Splitting a shell command line into the commands a user approves:
//! `;`, newlines, `|`, `||` and `&&` separate commands unless they are
//! quoted, escaped, inside parentheses or inside a here-document.

use crate::approval::{segments_view, ApprovalPreviewSegment};
use crate::text::{
    chars_eq, concat3, opt_str_view, opt_string_view, to_chars, trim, trim_chars, trim_non_empty,
    trimmed_non_empty, from_chars,
};
use vstd::prelude::*;

verus! {

// ---------------------------------------------------------------------------
// Operator labels
// ---------------------------------------------------------------------------

/// What a leading operator means to a reader.
pub open spec fn operator_meaning(op: Seq<char>) -> Seq<char> {
    if op == "||"@ {
        "if previous fails"@
    } else if op == "&&"@ {
        "if previous succeeds"@
    } else if op == "|"@ {
        "pipe output from previous"@
    } else {
        "then"@
    }
}

/// The label put before a segment in a manifest: `"(op, meaning) "`, or
/// nothing when the segment has no operator.
pub open spec fn operator_prefix(op: Option<Seq<char>>) -> Seq<char> {
    match trimmed_non_empty(op) {
        None => Seq::empty(),
        Some(o) => "("@ + o + ", "@ + operator_meaning(o) + ") "@,
    }
}

/// The label put before a segment in a manifest.
pub fn shell_operator_prefix(leading_operator: Option<&str>) -> (r: String)
    ensures
        r@ == operator_prefix(opt_str_view(leading_operator)),
{
    let op = match trim_non_empty(leading_operator) {
        None => {
            return String::new();
        },
        Some(o) => o,
    };
    let o = to_chars(op.as_str());
    let meaning = if chars_eq(o.as_slice(), to_chars("||").as_slice()) {
        "if previous fails"
    } else if chars_eq(o.as_slice(), to_chars("&&").as_slice()) {
        "if previous succeeds"
    } else if chars_eq(o.as_slice(), to_chars("|").as_slice()) {
        "pipe output from previous"
    } else {
        "then"
    };
    let head = concat3("(", op.as_str(), ", ");
    concat3(head.as_str(), meaning, ") ")
}

// ---------------------------------------------------------------------------
// The scanner, as a specification
// ---------------------------------------------------------------------------

/// What `char::is_alphanumeric` returns (Unicode `Alphabetic` or `Numeric`).
pub uninterp spec fn spec_is_alphanumeric(c: char) -> bool;

/// `char::is_alphanumeric`, named by `spec_is_alphanumeric`.
#[verifier::external_body]
fn char_is_alphanumeric(c: char) -> (r: bool)
    ensures
        r == spec_is_alphanumeric(c),
{
    c.is_alphanumeric()
}

/// The number of bytes of `c` in UTF-8 (`char::len_utf8`).
pub open spec fn char_utf8_len(c: char) -> nat {
    let u = c as u32;
    if u < 0x80 {
        1
    } else if u < 0x800 {
        2
    } else if u < 0x10000 {
        3
    } else {
        4
    }
}

/// The number of bytes of `s` in UTF-8 (`str::len`).
pub open spec fn utf8_len(s: Seq<char>) -> nat
    decreases s.len(),
{
    if s.len() == 0 {
        0
    } else {
        utf8_len(s.drop_last()) + char_utf8_len(s.last())
    }
}

/// Where the scanner stands after reading part of a command line.
#[verifier::ext_equal]
pub struct ScanState {
    /// Segments found so far: command text and leading operator.
    pub segments: Seq<(Seq<char>, Option<Seq<char>>)>,
    /// Text of the segment being read.
    pub buffer: Seq<char>,
    /// Operator that joins the segment being read to the previous one.
    pub pending: Option<Seq<char>>,
    pub in_single: bool,
    pub in_double: bool,
    pub in_backtick: bool,
    pub escaped: bool,
    /// Depth of open parentheses outside quotes.
    pub depth: nat,
    /// Delimiter of the here-document being read.
    pub heredoc: Option<Seq<char>>,
    /// Position of the next character to read.
    pub index: int,
}

/// The state before any character is read.
pub open spec fn initial_scan() -> ScanState {
    ScanState {
        segments: Seq::empty(),
        buffer: Seq::empty(),
        pending: None,
        in_single: false,
        in_double: false,
        in_backtick: false,
        escaped: false,
        depth: 0,
        heredoc: None,
        index: 0,
    }
}

/// Ends the segment being read: a blank buffer is dropped; otherwise its
/// trimmed text becomes a segment, joined by the pending operator unless it
/// is the first segment.
pub open spec fn flush(st: ScanState) -> ScanState {
    let t = trim(st.buffer);
    if t.len() == 0 {
        ScanState { buffer: Seq::empty(), ..st }
    } else {
        ScanState {
            segments: st.segments.push(
                (
                    t,
                    if st.segments.len() == 0 {
                        None
                    } else {
                        st.pending
                    },
                ),
            ),
            buffer: Seq::empty(),
            pending: None,
            ..st
        }
    }
}

/// The position of the first newline at or after `from`, or the length.
pub open spec fn line_end(s: Seq<char>, from: int) -> int
    decreases s.len() - from,
{
    if from >= s.len() || from < 0 {
        s.len() as int
    } else if s[from] == '\n' {
        from
    } else {
        line_end(s, from + 1)
    }
}

/// The position after the spaces that start at `h`.
pub open spec fn skip_spaces(s: Seq<char>, h: int) -> int
    decreases s.len() - h,
{
    if 0 <= h < s.len() && s[h] == ' ' {
        skip_spaces(s, h + 1)
    } else {
        h
    }
}

/// The position where a here-document delimiter that starts at `h` ends:
/// at the closing quote when it is quoted, else at the first character that
/// is neither alphanumeric nor `_`.
pub open spec fn delimiter_end(s: Seq<char>, h: int, quote: Option<char>) -> int
    decreases s.len() - h,
{
    if h >= s.len() || h < 0 {
        h
    } else if (match quote {
        Some(q) => s[h] == q,
        None => !spec_is_alphanumeric(s[h]) && s[h] != '_',
    }) {
        h
    } else {
        delimiter_end(s, h + 1, quote)
    }
}

/// The positions met while reading a here-document operator that starts at
/// `i`: the start and end of its delimiter, the quote around it, and where
/// reading goes on.
pub open spec fn heredoc_marks(s: Seq<char>, i: int) -> (int, int, Option<char>, int) {
    let h1 = if i + 2 < s.len() && s[i + 2] == '-' {
        i + 3
    } else {
        i + 2
    };
    let h2 = skip_spaces(s, h1);
    let quote = if h2 < s.len() && (s[h2] == '\'' || s[h2] == '"') {
        Some(s[h2])
    } else {
        None
    };
    let h3 = if quote is Some {
        h2 + 1
    } else {
        h2
    };
    let h4 = delimiter_end(s, h3, quote);
    let h5 = match quote {
        Some(q) => if h4 < s.len() && s[h4] == q {
            h4 + 1
        } else {
            h4
        },
        None => h4,
    };
    (h3, h4, quote, h5)
}

/// Reads a here-document operator `<<` at the current position: the whole
/// operator and its delimiter go to the buffer, and the delimiter, when
/// there is one, starts a here-document.
pub open spec fn heredoc_start(s: Seq<char>, st: ScanState) -> ScanState {
    let i = st.index;
    let (h3, h4, quote, h5) = heredoc_marks(s, i);
    let delim = s.subrange(h3, h4);
    ScanState {
        buffer: st.buffer + s.subrange(i, h5),
        heredoc: if delim.len() > 0 {
            Some(delim)
        } else {
            st.heredoc
        },
        index: h5,
        ..st
    }
}

/// Reads one character inside a here-document: the body is kept verbatim,
/// and a line whose trimmed text is the delimiter ends the document and the
/// segment. The scanner then skips as many characters as the delimiter
/// line has bytes in UTF-8.
pub open spec fn heredoc_step(s: Seq<char>, st: ScanState, delim: Seq<char>) -> ScanState {
    let i = st.index;
    let ch = s[i];
    if ch == '\n' && trim(s.subrange(i + 1, line_end(s, i + 1))) == delim {
        let e = line_end(s, i + 1);
        let through = if e < s.len() {
            e + 1
        } else {
            s.len() as int
        };
        let idx1 = i + 1 + utf8_len(s.subrange(i + 1, e));
        let idx2 = if idx1 < s.len() && s[idx1] == '\n' {
            idx1 + 1
        } else {
            idx1
        };
        let flushed = flush(ScanState { buffer: st.buffer + s.subrange(i, through), heredoc: None, ..st });
        ScanState { pending: Some(";"@), index: idx2, ..flushed }
    } else if ch != '\n' && i + 1 == s.len() {
        ScanState { buffer: st.buffer.push(ch), heredoc: None, index: i + 1, ..st }
    } else {
        ScanState { buffer: st.buffer.push(ch), index: i + 1, ..st }
    }
}

/// Reads one character outside a here-document.
pub open spec fn plain_step(s: Seq<char>, st: ScanState) -> ScanState {
    let i = st.index;
    let ch = s[i];
    let n = s.len();
    let quiet = !st.in_single && !st.in_double && !st.in_backtick;
    if st.escaped {
        ScanState { buffer: st.buffer.push(ch), escaped: false, index: i + 1, ..st }
    } else if ch == '\\' {
        ScanState { buffer: st.buffer.push(ch), escaped: !st.in_single, index: i + 1, ..st }
    } else if !st.in_double && !st.in_backtick && ch == '\'' {
        ScanState { buffer: st.buffer.push(ch), in_single: !st.in_single, index: i + 1, ..st }
    } else if !st.in_single && !st.in_backtick && ch == '"' {
        ScanState { buffer: st.buffer.push(ch), in_double: !st.in_double, index: i + 1, ..st }
    } else if !st.in_single && !st.in_double && ch == '`' {
        ScanState { buffer: st.buffer.push(ch), in_backtick: !st.in_backtick, index: i + 1, ..st }
    } else {
        let can_split = quiet && st.depth == 0;
        let depth: nat = if quiet && ch == '(' {
            st.depth + 1
        } else if quiet && ch == ')' {
            if st.depth == 0 {
                0
            } else {
                (st.depth - 1) as nat
            }
        } else {
            st.depth
        };
        let st1 = ScanState { depth, ..st };
        if can_split && ch == '<' && i + 1 < n && s[i + 1] == '<' {
            heredoc_start(s, st1)
        } else if can_split && ch == '|' {
            let double = i + 1 < n && s[i + 1] == '|';
            let f = flush(st1);
            ScanState {
                pending: Some(
                    if double {
                        "||"@
                    } else {
                        "|"@
                    },
                ),
                index: if double {
                    i + 2
                } else {
                    i + 1
                },
                ..f
            }
        } else if can_split && ch == '&' && i + 1 < n && s[i + 1] == '&' {
            let f = flush(st1);
            ScanState { pending: Some("&&"@), index: i + 2, ..f }
        } else if can_split && (ch == ';' || ch == '\n') {
            let f = flush(st1);
            ScanState { pending: Some(";"@), index: i + 1, ..f }
        } else {
            ScanState { buffer: st1.buffer.push(ch), index: i + 1, ..st1 }
        }
    }
}

/// Reads the character at the current position.
pub open spec fn scan_step(s: Seq<char>, st: ScanState) -> ScanState {
    match st.heredoc {
        Some(d) => heredoc_step(s, st, d),
        None => plain_step(s, st),
    }
}

proof fn lemma_skip_spaces_ge(s: Seq<char>, h: int)
    ensures
        skip_spaces(s, h) >= h,
    decreases s.len() - h,
{
    if 0 <= h < s.len() && s[h] == ' ' {
        lemma_skip_spaces_ge(s, h + 1);
    }
}

proof fn lemma_delimiter_end_ge(s: Seq<char>, h: int, quote: Option<char>)
    ensures
        delimiter_end(s, h, quote) >= h,
        h <= s.len() ==> delimiter_end(s, h, quote) <= s.len(),
    decreases s.len() - h,
{
    if h >= s.len() || h < 0 {
    } else if (match quote {
        Some(q) => s[h] == q,
        None => !spec_is_alphanumeric(s[h]) && s[h] != '_',
    }) {
    } else {
        lemma_delimiter_end_ge(s, h + 1, quote);
    }
}

/// Every step reads at least one character.
pub proof fn lemma_step_advances(s: Seq<char>, st: ScanState)
    requires
        0 <= st.index < s.len(),
    ensures
        scan_step(s, st).index > st.index,
{
    let i = st.index;
    let (h3, h4, quote, h5) = heredoc_marks(s, i);
    let h1 = if i + 2 < s.len() && s[i + 2] == '-' {
        i + 3
    } else {
        i + 2
    };
    lemma_skip_spaces_ge(s, h1);
    lemma_delimiter_end_ge(s, h3, quote);
}

/// The state after reading every character from the current position on.
pub open spec fn scan(s: Seq<char>, st: ScanState) -> ScanState
    decreases (if st.index < s.len() {
        s.len() - st.index
    } else {
        0
    }),
{
    if 0 <= st.index < s.len() {
        proof {
            lemma_step_advances(s, st);
        }
        scan(s, scan_step(s, st))
    } else {
        st
    }
}

/// The segments of a command line, in order.
pub open spec fn shell_segments(s: Seq<char>) -> Seq<(Seq<char>, Option<Seq<char>>)> {
    flush(scan(s, initial_scan())).segments
}


/// The operators that join one command to the next.
pub open spec fn is_shell_operator(op: Seq<char>) -> bool {
    op == ";"@ || op == "|"@ || op == "||"@ || op == "&&"@
}

/// Whether a leading operator is present and is one of the joining operators.
pub open spec fn joined_by_operator(op: Option<Seq<char>>) -> bool {
    match op {
        Some(o) => is_shell_operator(o),
        None => false,
    }
}

/// Segments as a reader of the preview sees them: each command is non-empty
/// trimmed text, the first stands alone and every later one is joined to the
/// previous one by an operator.
pub open spec fn well_segmented(segs: Seq<(Seq<char>, Option<Seq<char>>)>) -> bool {
    &&& forall|i: int|
        0 <= i < segs.len() ==> (#[trigger] segs[i]).0.len() > 0 && trim(segs[i].0) == segs[i].0
    &&& segs.len() > 0 ==> segs[0].1 is None
    &&& forall|i: int| 0 < i < segs.len() ==> joined_by_operator((#[trigger] segs[i]).1)
}

/// What holds between two characters of the scan: the segments so far are
/// well formed, and once there is a segment an operator is pending.
pub open spec fn scan_invariant(st: ScanState) -> bool {
    &&& well_segmented(st.segments)
    &&& match st.pending {
        Some(o) => is_shell_operator(o),
        None => st.segments.len() == 0,
    }
}

proof fn lemma_flush_keeps_segments(st: ScanState)
    requires
        scan_invariant(st),
    ensures
        well_segmented(flush(st).segments),
{
    crate::text::lemma_trim_idempotent(st.buffer);
    let f = flush(st);
    if trim(st.buffer).len() > 0 {
        assert forall|i: int| 0 < i < f.segments.len() implies joined_by_operator(
            (#[trigger] f.segments[i]).1,
        ) by {
            if i < st.segments.len() {
                assert(f.segments[i] == st.segments[i]);
            }
        }
        assert forall|i: int| 0 <= i < f.segments.len() implies (#[trigger] f.segments[i]).0.len()
            > 0 && trim(f.segments[i].0) == f.segments[i].0 by {
            if i < st.segments.len() {
                assert(f.segments[i] == st.segments[i]);
            }
        }
    }
}

proof fn lemma_step_keeps_invariant(s: Seq<char>, st: ScanState)
    requires
        scan_invariant(st),
        0 <= st.index < s.len(),
    ensures
        scan_invariant(scan_step(s, st)),
{
    assert forall|x: ScanState| scan_invariant(x) implies well_segmented(
        (#[trigger] flush(x)).segments,
    ) by {
        lemma_flush_keeps_segments(x);
    }
}

proof fn lemma_scan_keeps_invariant(s: Seq<char>, st: ScanState)
    requires
        scan_invariant(st),
    ensures
        scan_invariant(scan(s, st)),
    decreases (if st.index < s.len() {
        s.len() - st.index
    } else {
        0
    }),
{
    if 0 <= st.index < s.len() {
        lemma_step_advances(s, st);
        lemma_step_keeps_invariant(s, st);
        lemma_scan_keeps_invariant(s, scan_step(s, st));
    }
}

/// Every segment of a command line is a non-empty trimmed command; the first
/// stands alone, and each later one is joined to the one before it by `;`,
/// `|`, `||` or `&&`.
pub proof fn law_shell_segments_well_formed(s: Seq<char>)
    ensures
        well_segmented(shell_segments(s)),
{
    lemma_scan_keeps_invariant(s, initial_scan());
    lemma_flush_keeps_segments(scan(s, initial_scan()));
}


// ---------------------------------------------------------------------------
// The scanner
// ---------------------------------------------------------------------------

/// Two scanner states that lead to the same segments: equal, or both past
/// the end and equal but for the position.
pub open spec fn same_outcome(a: ScanState, b: ScanState, n: int) -> bool {
    ||| a == b
    ||| (a.index >= n && b.index >= n && a == ScanState { index: a.index, ..b })
}

proof fn lemma_same_outcome(s: Seq<char>, a: ScanState, b: ScanState)
    requires
        same_outcome(a, b, s.len() as int),
    ensures
        flush(scan(s, a)).segments == flush(scan(s, b)).segments,
{
    if a != b {
        assert(scan(s, a) == a);
        assert(scan(s, b) == b);
    }
}

struct Scanner {
    segments: Vec<ApprovalPreviewSegment>,
    buffer: Vec<char>,
    pending: Option<String>,
    in_single: bool,
    in_double: bool,
    in_backtick: bool,
    escaped: bool,
    depth: usize,
    heredoc: Option<Vec<char>>,
    index: usize,
}

impl Scanner {
    spec fn state(&self) -> ScanState {
        ScanState {
            segments: segments_view(self.segments@),
            buffer: self.buffer@,
            pending: opt_string_view(self.pending),
            in_single: self.in_single,
            in_double: self.in_double,
            in_backtick: self.in_backtick,
            escaped: self.escaped,
            depth: self.depth as nat,
            heredoc: match self.heredoc {
                Some(v) => Some(v@),
                None => None,
            },
            index: self.index as int,
        }
    }

    /// Ends the segment being read.
    fn flush(&mut self)
        ensures
            final(self).state() == flush(old(self).state()),
    {
        let trimmed = trim_chars(self.buffer.as_slice());
        if trimmed.len() == 0 {
            self.buffer = Vec::new();
            assert(self.state() =~= flush(old(self).state()));
            return;
        }
        let leading_operator = if self.segments.len() == 0 {
            None
        } else {
            match &self.pending {
                Some(p) => Some(p.clone()),
                None => None,
            }
        };
        let seg = ApprovalPreviewSegment {
            command: from_chars(trimmed.as_slice()),
            leading_operator,
        };
        self.segments.push(seg);
        self.buffer = Vec::new();
        self.pending = None;
        assert(segments_view(self.segments@) =~= segments_view(old(self).segments@).push(
            seg.view_pair(),
        ));
        assert(self.state() =~= flush(old(self).state()));
    }

    /// Appends `chars[from..to]` to the buffer.
    fn push_range(&mut self, chars: &Vec<char>, from: usize, to: usize)
        requires
            from <= to <= chars.len(),
        ensures
            final(self).state() == (ScanState {
                buffer: old(self).state().buffer + chars@.subrange(from as int, to as int),
                ..old(self).state()
            }),
    {
        let mut k = from;
        while k < to
            invariant
                from <= k <= to <= chars.len(),
                self.state() == (ScanState {
                    buffer: old(self).state().buffer + chars@.subrange(from as int, k as int),
                    ..old(self).state()
                }),
            decreases to - k,
        {
            self.buffer.push(chars[k]);
            k = k + 1;
            assert(self.state() =~= (ScanState {
                buffer: old(self).state().buffer + chars@.subrange(from as int, k as int),
                ..old(self).state()
            }));
        }
    }

    /// Reads one character of a here-document body.
    fn heredoc_char(&mut self, chars: &Vec<char>)
        requires
            old(self).heredoc is Some,
            old(self).index < chars.len(),
        ensures
            same_outcome(
                final(self).state(),
                scan_step(chars@, old(self).state()),
                chars.len() as int,
            ),
            final(self).depth == old(self).depth,
            final(self).index > old(self).index,
    {
        let ghost s = chars@;
        let n = chars.len();
        let index = self.index;
        let ch = chars[index];
        if ch == '\n' {
            let e = exec_line_end(chars.as_slice(), index + 1);
            let line = trim_chars(&chars.as_slice()[index + 1..e]);
            let matched = match &self.heredoc {
                Some(d) => chars_eq(line.as_slice(), d.as_slice()),
                None => false,
            };
            if matched {
                let through = if e < n {
                    e + 1
                } else {
                    n
                };
                self.push_range(chars, index, through);
                let idx1 = advance_by_utf8(index + 1, chars.as_slice(), index + 1, e);
                let idx2 = if idx1 < n && chars[idx1] == '\n' {
                    idx1 + 1
                } else {
                    idx1
                };
                self.heredoc = None;
                self.flush();
                self.pending = Some(";".to_string());
                self.index = idx2;
                proof {
                    let next = scan_step(s, old(self).state());
                    if idx1 as int == index + 1 + utf8_len(s.subrange(index + 1, e as int)) {
                        assert(self.state() =~= next);
                    } else {
                        assert(self.state() =~= (ScanState { index: self.index as int, ..next }));
                    }
                }
                return;
            }
        }
        self.buffer.push(ch);
        if ch != '\n' && index + 1 == n {
            self.heredoc = None;
        }
        self.index = index + 1;
        assert(self.state() =~= scan_step(s, old(self).state()));
    }

    /// Reads a here-document operator `<<` at the current position.
    fn heredoc_open(&mut self, chars: &Vec<char>)
        requires
            old(self).index + 1 < chars.len(),
            old(self).heredoc is None,
        ensures
            final(self).state() == heredoc_start(chars@, old(self).state()),
    {
        let ghost s = chars@;
        let n = chars.len();
        let index = self.index;
        let mut h = index + 2;
        if h < n && chars[h] == '-' {
            h = h + 1;
        }
        let h1 = h;
        while h < n && chars[h] == ' '
            invariant
                h1 <= h <= n,
                n == chars@.len(),
                skip_spaces(chars@, h1 as int) == skip_spaces(chars@, h as int),
            decreases n - h,
        {
            h = h + 1;
        }
        let quote: Option<char> = if h < n && (chars[h] == '\'' || chars[h] == '"') {
            Some(chars[h])
        } else {
            None
        };
        if quote.is_some() {
            h = h + 1;
        }
        let h3 = h;
        let mut stop = false;
        while h < n && !stop
            invariant
                h3 <= h <= n,
                n == chars@.len(),
                !stop ==> delimiter_end(chars@, h3 as int, quote) == delimiter_end(
                    chars@,
                    h as int,
                    quote,
                ),
                stop ==> delimiter_end(chars@, h3 as int, quote) == h,
            decreases n - h, (if stop {
                0int
            } else {
                1int
            }),
        {
            let c = chars[h];
            let ends = match quote {
                Some(q) => c == q,
                None => !char_is_alphanumeric(c) && c != '_',
            };
            if ends {
                stop = true;
            } else {
                h = h + 1;
            }
        }
        let h4 = h;
        if let Some(q) = quote {
            if h < n && chars[h] == q {
                h = h + 1;
            }
        }
        self.push_range(chars, index, h);
        if h4 > h3 {
            let mut d: Vec<char> = Vec::new();
            let mut m = h3;
            while m < h4
                invariant
                    h3 <= m <= h4 <= n,
                    n == chars@.len(),
                    d@ =~= chars@.subrange(h3 as int, m as int),
                decreases h4 - m,
            {
                d.push(chars[m]);
                m = m + 1;
            }
            self.heredoc = Some(d);
        }
        self.index = h;
        proof {
            let marks = heredoc_marks(s, index as int);
            assert(marks.0 == h3 as int);
            assert(marks.1 == h4 as int);
            assert(marks.2 == quote);
            assert(marks.3 == h as int);
            assert(self.state() =~= heredoc_start(s, old(self).state()));
        }
    }

    /// Reads one character outside a here-document.
    fn plain_char(&mut self, chars: &Vec<char>)
        requires
            old(self).heredoc is None,
            old(self).index < chars.len(),
            old(self).depth <= old(self).index,
        ensures
            final(self).state() == scan_step(chars@, old(self).state()),
            final(self).depth <= final(self).index,
    {
        let ghost s = chars@;
        let ghost next = scan_step(s, old(self).state());
        let n = chars.len();
        let index = self.index;
        let ch = chars[index];
        if self.escaped {
            self.buffer.push(ch);
            self.escaped = false;
            self.index = index + 1;
        } else if ch == '\\' {
            if !self.in_single {
                self.escaped = true;
            }
            self.buffer.push(ch);
            self.index = index + 1;
        } else if !self.in_double && !self.in_backtick && ch == '\'' {
            self.in_single = !self.in_single;
            self.buffer.push(ch);
            self.index = index + 1;
        } else if !self.in_single && !self.in_backtick && ch == '"' {
            self.in_double = !self.in_double;
            self.buffer.push(ch);
            self.index = index + 1;
        } else if !self.in_single && !self.in_double && ch == '`' {
            self.in_backtick = !self.in_backtick;
            self.buffer.push(ch);
            self.index = index + 1;
        } else {
            let quiet = !self.in_single && !self.in_double && !self.in_backtick;
            let can_split = quiet && self.depth == 0;
            if quiet {
                if ch == '(' {
                    self.depth = self.depth + 1;
                } else if ch == ')' {
                    if self.depth > 0 {
                        self.depth = self.depth - 1;
                    }
                }
            }
            if can_split && ch == '<' && index + 1 < n && chars[index + 1] == '<' {
                self.heredoc_open(chars);
            } else if can_split && ch == '|' {
                let double = index + 1 < n && chars[index + 1] == '|';
                self.flush();
                self.pending = Some(
                    if double {
                        "||".to_string()
                    } else {
                        "|".to_string()
                    },
                );
                self.index = if double {
                    index + 2
                } else {
                    index + 1
                };
            } else if can_split && ch == '&' && index + 1 < n && chars[index + 1] == '&' {
                self.flush();
                self.pending = Some("&&".to_string());
                self.index = index + 2;
            } else if can_split && (ch == ';' || ch == '\n') {
                self.flush();
                self.pending = Some(";".to_string());
                self.index = index + 1;
            } else {
                self.buffer.push(ch);
                self.index = index + 1;
            }
        }
        assert(self.state() =~= next);
    }
}

/// The position of the first newline at or after `from`, or `s.len()`.
fn exec_line_end(s: &[char], from: usize) -> (e: usize)
    requires
        from <= s.len(),
    ensures
        e as int == line_end(s@, from as int),
        from <= e <= s.len(),
{
    let mut e = from;
    while e < s.len() && s[e] != '\n'
        invariant
            from <= e <= s.len(),
            line_end(s@, from as int) == line_end(s@, e as int),
        decreases s.len() - e,
    {
        e = e + 1;
    }
    e
}

pub(crate) fn char_utf8_len_exec(c: char) -> (r: usize)
    ensures
        r == char_utf8_len(c),
{
    let u = c as u32;
    if u < 0x80 {
        1
    } else if u < 0x800 {
        2
    } else if u < 0x10000 {
        3
    } else {
        4
    }
}

/// `start` plus the UTF-8 length of `s[from..to]`, saturating at `usize::MAX`.
fn advance_by_utf8(start: usize, s: &[char], from: usize, to: usize) -> (r: usize)
    requires
        from <= to <= s.len(),
    ensures
        start + utf8_len(s@.subrange(from as int, to as int)) <= usize::MAX ==> r == start
            + utf8_len(s@.subrange(from as int, to as int)),
        start + utf8_len(s@.subrange(from as int, to as int)) > usize::MAX ==> r == usize::MAX,
{
    let mut acc = start;
    let mut k = from;
    let mut saturated = false;
    assert(s@.subrange(from as int, from as int) =~= Seq::<char>::empty());
    while k < to
        invariant
            from <= k <= to <= s.len(),
            !saturated ==> acc == start + utf8_len(s@.subrange(from as int, k as int)),
            saturated ==> acc == usize::MAX && start + utf8_len(s@.subrange(from as int, k as int))
                > usize::MAX,
        decreases to - k,
    {
        let l = char_utf8_len_exec(s[k]);
        assert(s@.subrange(from as int, k + 1).drop_last() =~= s@.subrange(from as int, k as int));
        if saturated || acc > usize::MAX - l {
            acc = usize::MAX;
            saturated = true;
        } else {
            acc = acc + l;
        }
        k = k + 1;
    }
    acc
}

/// Splits a shell command line into the commands it runs, each with the
/// operator that joins it to the previous one.
pub fn shell_segments_for_preview(command: &str) -> (r: Vec<ApprovalPreviewSegment>)
    ensures
        segments_view(r@) == shell_segments(command@),
{
    let chars = to_chars(command);
    let n = chars.len();
    let mut sc = Scanner {
        segments: Vec::new(),
        buffer: Vec::new(),
        pending: None,
        in_single: false,
        in_double: false,
        in_backtick: false,
        escaped: false,
        depth: 0,
        heredoc: None,
        index: 0,
    };
    let ghost s = command@;
    assert(sc.state() =~= initial_scan());
    while sc.index < n
        invariant
            n == chars@.len(),
            chars@ == s,
            s == command@,
            sc.depth <= sc.index,
            flush(scan(s, initial_scan())).segments == flush(scan(s, sc.state())).segments,
        decreases (if sc.index < n {
            n - sc.index
        } else {
            0
        }),
    {
        let ghost before = sc.state();
        proof {
            lemma_step_advances(s, before);
        }
        assert(scan(s, before) == scan(s, scan_step(s, before)));
        if sc.heredoc.is_some() {
            sc.heredoc_char(&chars);
        } else {
            sc.plain_char(&chars);
        }
        proof {
            lemma_same_outcome(s, sc.state(), scan_step(s, before));
        }
    }
    assert(scan(s, sc.state()) == sc.state());
    sc.flush();
    sc.segments
}

} // verus!
