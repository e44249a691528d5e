//! Character-level text helpers shared by every module of the library.
//!
//! Strings are specified by their views (`Seq<char>`); the executable helpers
//! work on `Vec<char>` and convert at the edges.

use vstd::prelude::*;
use vstd::string::StringExecFns;

verus! {

// ---------------------------------------------------------------------------
// Conversions between strings and character vectors
// ---------------------------------------------------------------------------

/// Appends one character to a string (`String::push`).
#[verifier::external_body]
fn push_char(s: &mut String, c: char)
    ensures
        final(s)@ == old(s)@.push(c),
{
    s.push(c);
}

/// The characters of `s`, in order.
pub fn to_chars(s: &str) -> (v: Vec<char>)
    ensures
        v@ == s@,
{
    let mut v: Vec<char> = Vec::new();
    for c in it: s.chars()
        invariant
            v@ == it.seq().take(it.index() as int),
            it.seq() == s@,
    {
        v.push(c);
    }
    assert(v@ =~= s@);
    v
}

/// A string holding exactly the characters of `v`.
pub fn from_chars(v: &[char]) -> (s: String)
    ensures
        s@ == v@,
{
    let mut s = String::new();
    let mut i: usize = 0;
    while i < v.len()
        invariant
            i <= v.len(),
            s@ == v@.take(i as int),
        decreases v.len() - i,
    {
        push_char(&mut s, v[i]);
        assert(v@.take(i as int).push(v@[i as int]) =~= v@.take(i + 1));
        i = i + 1;
    }
    assert(v@.take(v.len() as int) =~= v@);
    s
}


// ---------------------------------------------------------------------------
// Whitespace and trimming (`char::is_whitespace`, `str::trim`)
// ---------------------------------------------------------------------------

/// The Unicode `White_Space` property, which is what `char::is_whitespace`
/// and `str::trim` go by.
pub open spec fn is_ws(c: char) -> bool {
    let u = c as u32;
    ||| (9 <= u && u <= 13)
    ||| u == 32
    ||| u == 0x85
    ||| u == 0xa0
    ||| u == 0x1680
    ||| (0x2000 <= u && u <= 0x200a)
    ||| u == 0x2028
    ||| u == 0x2029
    ||| u == 0x202f
    ||| u == 0x205f
    ||| u == 0x3000
}

pub fn char_is_ws(c: char) -> (r: bool)
    ensures
        r == is_ws(c),
{
    let u = c as u32;
    (9 <= u && u <= 13) || u == 32 || u == 0x85 || u == 0xa0 || u == 0x1680 || (0x2000 <= u
        && u <= 0x200a) || u == 0x2028 || u == 0x2029 || u == 0x202f || u == 0x205f || u
        == 0x3000
}

/// `s` without its leading whitespace.
pub open spec fn trim_start(s: Seq<char>) -> Seq<char>
    decreases s.len(),
{
    if s.len() > 0 && is_ws(s[0]) {
        trim_start(s.drop_first())
    } else {
        s
    }
}

/// `s` without its trailing whitespace.
pub open spec fn trim_end(s: Seq<char>) -> Seq<char>
    decreases s.len(),
{
    if s.len() > 0 && is_ws(s.last()) {
        trim_end(s.drop_last())
    } else {
        s
    }
}

/// `s` without leading and trailing whitespace (`str::trim`).
pub open spec fn trim(s: Seq<char>) -> Seq<char> {
    trim_end(trim_start(s))
}

pub proof fn lemma_trim_start_ends_clean(s: Seq<char>)
    ensures
        trim_start(s).len() > 0 ==> !is_ws(trim_start(s)[0]),
        trim_start(s).len() <= s.len(),
    decreases s.len(),
{
    if s.len() > 0 && is_ws(s[0]) {
        lemma_trim_start_ends_clean(s.drop_first());
    }
}

pub proof fn lemma_trim_end_ends_clean(s: Seq<char>)
    ensures
        trim_end(s).len() > 0 ==> !is_ws(trim_end(s).last()),
        trim_end(s).len() <= s.len(),
        trim_end(s) =~= s.subrange(0, trim_end(s).len() as int),
    decreases s.len(),
{
    if s.len() > 0 && is_ws(s.last()) {
        lemma_trim_end_ends_clean(s.drop_last());
        assert(s.drop_last().subrange(0, trim_end(s).len() as int) =~= s.subrange(
            0,
            trim_end(s).len() as int,
        ));
    }
}

/// A trimmed text has no whitespace at either end, and trimming it again
/// leaves it as it is.
/// A text that neither starts nor ends with whitespace is its own trim.
pub proof fn lemma_trim_of_clean(s: Seq<char>)
    requires
        s.len() > 0,
        !is_ws(s[0]),
        !is_ws(s.last()),
    ensures
        trim(s) == s,
{
    assert(trim_start(s) == s);
    assert(trim_end(s) == s);
}

pub proof fn lemma_trim_idempotent(s: Seq<char>)
    ensures
        trim(trim(s)) == trim(s),
        trim(s).len() > 0 ==> !is_ws(trim(s)[0]) && !is_ws(trim(s).last()),
{
    lemma_trim_start_ends_clean(s);
    lemma_trim_end_ends_clean(trim_start(s));
    let t = trim(s);
    if t.len() > 0 {
        assert(t[0] == trim_start(s)[0]);
    }
    assert(trim_start(t) == t);
    assert(trim_end(t) == t);
}

/// The characters of `s` with leading and trailing whitespace removed.
pub fn trim_chars(s: &[char]) -> (r: Vec<char>)
    ensures
        r@ == trim(s@),
{
    let n = s.len();
    let mut i: usize = 0;
    assert(s@.subrange(0, n as int) =~= s@);
    while i < n && char_is_ws(s[i])
        invariant
            i <= n,
            n == s@.len(),
            trim_start(s@) == trim_start(s@.subrange(i as int, n as int)),
        decreases n - i,
    {
        assert(s@.subrange(i as int, n as int).drop_first() =~= s@.subrange(
            i + 1,
            n as int,
        ));
        i = i + 1;
    }
    assert(trim_start(s@) == s@.subrange(i as int, n as int));
    let mut j: usize = n;
    while j > i && char_is_ws(s[j - 1])
        invariant
            i <= j <= n,
            n == s@.len(),
            trim(s@) == trim_end(s@.subrange(i as int, j as int)),
        decreases j,
    {
        assert(s@.subrange(i as int, j as int).drop_last() =~= s@.subrange(
            i as int,
            j - 1,
        ));
        j = j - 1;
    }
    let mut r: Vec<char> = Vec::new();
    let mut k: usize = i;
    while k < j
        invariant
            i <= k <= j <= n,
            n == s@.len(),
            r@ =~= s@.subrange(i as int, k as int),
        decreases j - k,
    {
        r.push(s[k]);
        k = k + 1;
    }
    r
}

/// `str::trim` on a string.
pub fn trim_str(s: &str) -> (r: String)
    ensures
        r@ == trim(s@),
{
    let v = to_chars(s);
    let t = trim_chars(v.as_slice());
    from_chars(t.as_slice())
}

/// The view of an optional string slice.
pub open spec fn opt_str_view(o: Option<&str>) -> Option<Seq<char>> {
    match o {
        Some(s) => Some(s@),
        None => None,
    }
}

/// The view of an optional string.
pub open spec fn opt_string_view(o: Option<String>) -> Option<Seq<char>> {
    match o {
        Some(s) => Some(s@),
        None => None,
    }
}

/// The trimmed text when there is one and it is not blank.
pub open spec fn trimmed_non_empty(o: Option<Seq<char>>) -> Option<Seq<char>> {
    match o {
        Some(s) => if trim(s).len() == 0 {
            None
        } else {
            Some(trim(s))
        },
        None => None,
    }
}

/// The trimmed value, or `None` when the value is absent or blank.
pub fn trim_non_empty(value: Option<&str>) -> (r: Option<String>)
    ensures
        opt_string_view(r) == trimmed_non_empty(opt_str_view(value)),
{
    match value {
        None => None,
        Some(v) => {
            let t = trim_str(v);
            if t.as_str().unicode_len() == 0 {
                None
            } else {
                Some(t)
            }
        },
    }
}

/// `trim_non_empty` on a present value.
pub fn trim_non_empty_str(value: &str) -> (r: Option<String>)
    ensures
        opt_string_view(r) == trimmed_non_empty(Some(value@)),
{
    trim_non_empty(Some(value))
}


// ---------------------------------------------------------------------------
// Comparison, prefixes, suffixes and substrings
// ---------------------------------------------------------------------------

/// `p` is a prefix of `s` (`str::starts_with`).
pub open spec fn has_prefix(s: Seq<char>, p: Seq<char>) -> bool {
    p.len() <= s.len() && s.subrange(0, p.len() as int) == p
}

/// `p` is a suffix of `s` (`str::ends_with`).
pub open spec fn has_suffix(s: Seq<char>, p: Seq<char>) -> bool {
    p.len() <= s.len() && s.subrange(s.len() - p.len(), s.len() as int) == p
}

/// `p` occurs in `s` at position `i`.
pub open spec fn occurs_at(s: Seq<char>, p: Seq<char>, i: int) -> bool {
    0 <= i && i + p.len() <= s.len() && s.subrange(i, i + p.len()) == p
}

/// `p` occurs somewhere in `s` (`str::contains`).
pub open spec fn has_infix(s: Seq<char>, p: Seq<char>) -> bool {
    exists|i: int| occurs_at(s, p, i)
}

/// Equality of two character sequences.
pub fn chars_eq(a: &[char], b: &[char]) -> (r: bool)
    ensures
        r == (a@ == b@),
{
    if a.len() != b.len() {
        return false;
    }
    let mut i: usize = 0;
    while i < a.len()
        invariant
            a.len() == b.len(),
            i <= a.len(),
            forall|k: int| 0 <= k < i ==> a@[k] == b@[k],
        decreases a.len() - i,
    {
        if a[i] != b[i] {
            return false;
        }
        i = i + 1;
    }
    assert(a@ =~= b@);
    true
}

/// Equality of two string slices.
pub fn str_eq(a: &str, b: &str) -> (r: bool)
    ensures
        r == (a@ == b@),
{
    let x = to_chars(a);
    let y = to_chars(b);
    chars_eq(x.as_slice(), y.as_slice())
}

/// Whether `p` occurs in `s` at position `i`.
pub fn chars_occur_at(s: &[char], p: &[char], i: usize) -> (r: bool)
    ensures
        r == occurs_at(s@, p@, i as int),
{
    if i > s.len() || p.len() > s.len() - i {
        return false;
    }
    let mut k: usize = 0;
    while k < p.len()
        invariant
            i + p.len() <= s.len(),
            k <= p.len(),
            forall|m: int| 0 <= m < k ==> s@[i + m] == p@[m],
        decreases p.len() - k,
    {
        if s[i + k] != p[k] {
            assert(s@.subrange(i as int, i + p.len())[k as int] != p@[k as int]);
            return false;
        }
        k = k + 1;
    }
    assert(s@.subrange(i as int, i + p.len()) =~= p@);
    true
}

/// `str::starts_with` on characters.
pub fn chars_start_with(s: &[char], p: &[char]) -> (r: bool)
    ensures
        r == has_prefix(s@, p@),
{
    chars_occur_at(s, p, 0)
}

/// `str::ends_with` on characters.
pub fn chars_end_with(s: &[char], p: &[char]) -> (r: bool)
    ensures
        r == has_suffix(s@, p@),
{
    if p.len() > s.len() {
        return false;
    }
    chars_occur_at(s, p, s.len() - p.len())
}

/// `str::contains` on characters.
pub fn chars_contain(s: &[char], p: &[char]) -> (r: bool)
    ensures
        r == has_infix(s@, p@),
{
    let mut i: usize = 0;
    while i < s.len()
        invariant
            i <= s.len(),
            forall|k: int| 0 <= k < i ==> !occurs_at(s@, p@, k),
        decreases s.len() - i,
    {
        if chars_occur_at(s, p, i) {
            return true;
        }
        i = i + 1;
    }
    if chars_occur_at(s, p, i) {
        return true;
    }
    assert forall|k: int| !occurs_at(s@, p@, k) by {
        if 0 <= k && k + p@.len() <= s@.len() {
            assert(k <= i);
        }
    }
    false
}

/// `str::starts_with`.
pub fn str_starts_with(s: &str, p: &str) -> (r: bool)
    ensures
        r == has_prefix(s@, p@),
{
    let x = to_chars(s);
    let y = to_chars(p);
    chars_start_with(x.as_slice(), y.as_slice())
}

/// `str::ends_with`.
pub fn str_ends_with(s: &str, p: &str) -> (r: bool)
    ensures
        r == has_suffix(s@, p@),
{
    let x = to_chars(s);
    let y = to_chars(p);
    chars_end_with(x.as_slice(), y.as_slice())
}

/// `str::contains`.
pub fn str_contains(s: &str, p: &str) -> (r: bool)
    ensures
        r == has_infix(s@, p@),
{
    let x = to_chars(s);
    let y = to_chars(p);
    chars_contain(x.as_slice(), y.as_slice())
}

// ---------------------------------------------------------------------------
// ASCII case folding (`to_ascii_lowercase`)
// ---------------------------------------------------------------------------

/// ASCII lower case of one character; other characters are kept.
pub open spec fn ascii_lower(c: char) -> char {
    if 'A' <= c && c <= 'Z' {
        ((c as u32) + 32) as char
    } else {
        c
    }
}

/// ASCII lower case of a text (`str::to_ascii_lowercase`).
pub open spec fn ascii_lower_seq(s: Seq<char>) -> Seq<char> {
    s.map_values(|c: char| ascii_lower(c))
}

pub fn char_ascii_lower(c: char) -> (r: char)
    ensures
        r == ascii_lower(c),
{
    if 'A' <= c && c <= 'Z' {
        let u = (c as u8) + 32;
        u as char
    } else {
        c
    }
}

/// The ASCII lower case of `s`.
pub fn chars_ascii_lower(s: &[char]) -> (r: Vec<char>)
    ensures
        r@ == ascii_lower_seq(s@),
{
    let mut r: Vec<char> = Vec::new();
    let mut i: usize = 0;
    while i < s.len()
        invariant
            i <= s.len(),
            r@ =~= ascii_lower_seq(s@.take(i as int)),
        decreases s.len() - i,
    {
        r.push(char_ascii_lower(s[i]));
        i = i + 1;
        assert(ascii_lower_seq(s@.take(i as int)) =~= ascii_lower_seq(s@.take(i - 1)).push(
            ascii_lower(s@[i - 1]),
        ));
    }
    assert(s@.take(s.len() as int) =~= s@);
    r
}

/// `str::to_ascii_lowercase`.
pub fn str_ascii_lower(s: &str) -> (r: String)
    ensures
        r@ == ascii_lower_seq(s@),
{
    let c = to_chars(s);
    let l = chars_ascii_lower(c.as_slice());
    from_chars(l.as_slice())
}

/// The text trimmed and in ASCII lower case, as settings are compared.
pub open spec fn normalized_setting(s: Seq<char>) -> Seq<char> {
    ascii_lower_seq(trim(s))
}

/// `s.trim().to_ascii_lowercase()`.
pub fn normalize_setting(s: &str) -> (r: String)
    ensures
        r@ == normalized_setting(s@),
{
    let t = trim_str(s);
    str_ascii_lower(t.as_str())
}

// ---------------------------------------------------------------------------
// Decimal rendering of unsigned integers
// ---------------------------------------------------------------------------

/// The decimal digit for `d < 10`.
pub open spec fn digit_char(d: nat) -> char {
    (('0' as u32) + d) as char
}

/// The decimal representation of `n`, without leading zeros.
pub open spec fn decimal(n: nat) -> Seq<char>
    decreases n,
{
    if n < 10 {
        seq![digit_char(n)]
    } else {
        decimal(n / 10).push(digit_char(n % 10))
    }
}

fn exec_digit(d: u64) -> (c: char)
    requires
        d < 10,
    ensures
        c == digit_char(d as nat),
{
    let b = (d as u8) + 48;
    b as char
}

/// The decimal digits of `n`.
pub fn decimal_chars(n: u64) -> (v: Vec<char>)
    ensures
        v@ == decimal(n as nat),
    decreases n,
{
    if n < 10 {
        let mut v = Vec::new();
        v.push(exec_digit(n));
        proof {
            assert(v@ =~= decimal(n as nat));
        }
        v
    } else {
        let mut v = decimal_chars(n / 10);
        v.push(exec_digit(n % 10));
        v
    }
}

/// The decimal representation of `n` as a string (`n.to_string()`).
pub fn decimal_string(n: u64) -> (s: String)
    ensures
        s@ == decimal(n as nat),
{
    let v = decimal_chars(n);
    from_chars(v.as_slice())
}


// ---------------------------------------------------------------------------
// Concatenation, joining and line splitting
// ---------------------------------------------------------------------------

/// The views of a sequence of strings.
pub open spec fn strs_view(v: Seq<String>) -> Seq<Seq<char>> {
    v.map_values(|s: String| s@)
}

/// `a` followed by `b`.
pub fn concat_str(a: &str, b: &str) -> (r: String)
    ensures
        r@ == a@ + b@,
{
    let mut r = String::from_str(a);
    r.append(b);
    r
}

/// `a` followed by `b` and `c`.
pub fn concat3(a: &str, b: &str, c: &str) -> (r: String)
    ensures
        r@ == a@ + b@ + c@,
{
    let mut r = String::from_str(a);
    r.append(b);
    r.append(c);
    r
}

/// The parts separated by `sep` (`[String]::join`).
pub open spec fn join(parts: Seq<Seq<char>>, sep: Seq<char>) -> Seq<char>
    decreases parts.len(),
{
    if parts.len() == 0 {
        Seq::empty()
    } else if parts.len() == 1 {
        parts[0]
    } else {
        join(parts.drop_last(), sep) + sep + parts.last()
    }
}

/// The strings of `parts` separated by `sep`.
pub fn join_strings(parts: &[String], sep: &str) -> (r: String)
    ensures
        r@ == join(strs_view(parts@), sep@),
{
    let mut r = String::new();
    let mut i: usize = 0;
    while i < parts.len()
        invariant
            i <= parts.len(),
            r@ == join(strs_view(parts@.take(i as int)), sep@),
        decreases parts.len() - i,
    {
        let ghost prev = strs_view(parts@.take(i as int));
        if i > 0 {
            r.append(sep);
        }
        r.append(parts[i].as_str());
        proof {
            let next = strs_view(parts@.take(i + 1));
            assert(next.drop_last() =~= prev);
            assert(next.last() == parts@[i as int]@);
            if i == 0 {
                assert(next.len() == 1);
            }
        }
        i = i + 1;
    }
    assert(parts@.take(parts.len() as int) =~= parts@);
    r
}

/// A line without the carriage return that ended it.
pub open spec fn strip_cr(line: Seq<char>) -> Seq<char> {
    if line.len() > 0 && line.last() == '\r' {
        line.drop_last()
    } else {
        line
    }
}

/// The lines of `s` after the partial line `cur`: lines end at `'\n'`, a
/// carriage return before the newline is dropped, and a final empty line
/// is not produced (`str::lines`).
pub open spec fn lines_from(s: Seq<char>, cur: Seq<char>) -> Seq<Seq<char>>
    decreases s.len(),
{
    if s.len() == 0 {
        if cur.len() == 0 {
            Seq::empty()
        } else {
            seq![cur]
        }
    } else if s[0] == '\n' {
        seq![strip_cr(cur)] + lines_from(s.drop_first(), Seq::empty())
    } else {
        lines_from(s.drop_first(), cur.push(s[0]))
    }
}

/// The lines of `s` (`str::lines`).
pub open spec fn lines(s: Seq<char>) -> Seq<Seq<char>> {
    lines_from(s, Seq::empty())
}

/// The lines of `s`, as `str::lines` splits them.
pub fn lines_of(s: &str) -> (r: Vec<String>)
    ensures
        strs_view(r@) == lines(s@),
{
    let v = to_chars(s);
    let n = v.len();
    let mut out: Vec<String> = Vec::new();
    let mut cur: Vec<char> = Vec::new();
    let mut i: usize = 0;
    assert(v@.skip(0) =~= v@);
    assert(strs_view(out@) =~= Seq::<Seq<char>>::empty());
    assert(cur@ =~= Seq::<char>::empty());
    assert(strs_view(out@) + lines(s@) =~= lines(s@));
    while i < n
        invariant
            i <= n,
            n == v@.len(),
            v@ == s@,
            lines(s@) == strs_view(out@) + lines_from(v@.skip(i as int), cur@),
        decreases n - i,
    {
        let ghost rest = v@.skip(i as int);
        assert(rest.drop_first() =~= v@.skip(i + 1));
        assert(rest[0] == v@[i as int]);
        if v[i] == '\n' {
            let mut line_end = cur.len();
            if line_end > 0 && cur[line_end - 1] == '\r' {
                line_end = line_end - 1;
            }
            let line = from_chars(&cur.as_slice()[0..line_end]);
            proof {
                assert(line@ =~= strip_cr(cur@));
            }
            let ghost before = strs_view(out@);
            out.push(line);
            assert(strs_view(out@) =~= before + seq![strip_cr(cur@)]);
            cur = Vec::new();
        } else {
            cur.push(v[i]);
        }
        i = i + 1;
    }
    if cur.len() > 0 {
        let line = from_chars(cur.as_slice());
        let ghost before = strs_view(out@);
        out.push(line);
        assert(strs_view(out@) =~= before + seq![cur@]);
    } else {
        assert(strs_view(out@) =~= strs_view(out@) + Seq::<Seq<char>>::empty());
    }
    out
}

// ---------------------------------------------------------------------------
// Truncation by characters
// ---------------------------------------------------------------------------

/// The first `n` characters of `s` (`s.chars().take(n)`).
pub fn take_chars(s: &[char], n: usize) -> (r: Vec<char>)
    ensures
        r@ == s@.take(if n <= s@.len() { n as int } else { s@.len() as int }),
{
    let end = if n <= s.len() {
        n
    } else {
        s.len()
    };
    let mut r: Vec<char> = Vec::new();
    let mut i: usize = 0;
    while i < end
        invariant
            i <= end <= s.len(),
            r@ =~= s@.take(i as int),
        decreases end - i,
    {
        r.push(s[i]);
        i = i + 1;
    }
    r
}


// ---------------------------------------------------------------------------
// Unicode case folding and collections of strings
// ---------------------------------------------------------------------------

/// What `str::to_lowercase` returns for a text (full Unicode case mapping).
pub uninterp spec fn spec_to_lowercase(s: Seq<char>) -> Seq<char>;

/// `str::to_lowercase`: the Unicode lower case of `s`, named by
/// `spec_to_lowercase`; nothing more is claimed of the mapping.
#[verifier::external_body]
pub fn to_lowercase(s: &str) -> (r: String)
    ensures
        r@ == spec_to_lowercase(s@),
{
    s.to_lowercase()
}

/// Whether `v` holds a string equal to `s`.
pub fn strings_contain(v: &Vec<String>, s: &str) -> (r: bool)
    ensures
        r == strs_view(v@).contains(s@),
{
    let mut i: usize = 0;
    while i < v.len()
        invariant
            i <= v.len(),
            forall|k: int| 0 <= k < i ==> v@[k]@ != s@,
        decreases v.len() - i,
    {
        if str_eq(v[i].as_str(), s) {
            assert(strs_view(v@)[i as int] == s@);
            return true;
        }
        i = i + 1;
    }
    assert forall|k: int| 0 <= k < strs_view(v@).len() implies strs_view(v@)[k] != s@ by {
        assert(v@[k]@ != s@);
    }
    false
}

/// The text of an optional string, borrowed.
pub fn opt_as_str(o: &Option<String>) -> (r: Option<&str>)
    ensures
        opt_str_view(r) == opt_string_view(*o),
{
    match o {
        Some(s) => Some(s.as_str()),
        None => None,
    }
}

/// A copy of a string that equals it.
pub fn copy_string(s: &String) -> (r: String)
    ensures
        r == *s,
        r@ == s@,
{
    s.clone()
}

/// A copy of an optional string that equals it.
pub fn copy_opt_string(s: &Option<String>) -> (r: Option<String>)
    ensures
        r == *s,
        opt_string_view(r) == opt_string_view(*s),
{
    match s {
        Some(v) => Some(v.clone()),
        None => None,
    }
}

/// A copy of a vector of strings that equals it.
pub fn copy_strings(v: &Vec<String>) -> (r: Vec<String>)
    ensures
        r@ == v@,
        strs_view(r@) == strs_view(v@),
{
    let mut r: Vec<String> = Vec::new();
    let mut i: usize = 0;
    while i < v.len()
        invariant
            i <= v.len(),
            r@ =~= v@.take(i as int),
        decreases v.len() - i,
    {
        r.push(v[i].clone());
        i = i + 1;
    }
    assert(v@.take(v.len() as int) =~= v@);
    r
}


// ---------------------------------------------------------------------------
// Paths
// ---------------------------------------------------------------------------

/// What `Path::file_name` returns for a path, as text: the final component
/// when it is a normal one.
pub uninterp spec fn spec_file_name(path: Seq<char>) -> Option<Seq<char>>;

/// `Path::new(path).file_name()`, as a string; named by `spec_file_name`.
#[verifier::external_body]
pub fn path_file_name(path: &str) -> (r: Option<String>)
    ensures
        opt_string_view(r) == spec_file_name(path@),
{
    std::path::Path::new(path).file_name().map(|name| name.to_string_lossy().into_owned())
}

/// Each line with `prefix` before it.
pub open spec fn prefix_each(lines: Seq<Seq<char>>, prefix: Seq<char>) -> Seq<Seq<char>> {
    lines.map_values(|l: Seq<char>| prefix + l)
}

/// The strings of `v`, each with `prefix` before it, appended to `out`.
pub fn push_prefixed(out: &mut Vec<String>, v: &Vec<String>, prefix: &str)
    ensures
        strs_view(final(out)@) == strs_view(old(out)@) + prefix_each(strs_view(v@), prefix@),
{
    let ghost start = strs_view(out@);
    let mut i: usize = 0;
    while i < v.len()
        invariant
            i <= v.len(),
            strs_view(out@) == start + prefix_each(strs_view(v@.take(i as int)), prefix@),
        decreases v.len() - i,
    {
        let ghost before = strs_view(out@);
        let line = concat_str(prefix, v[i].as_str());
        out.push(line);
        assert(strs_view(out@) =~= before.push(line@));
        assert(prefix_each(strs_view(v@.take(i + 1)), prefix@) =~= prefix_each(
            strs_view(v@.take(i as int)),
            prefix@,
        ).push(prefix@ + v@[i as int]@));
        i = i + 1;
    }
    assert(v@.take(v.len() as int) =~= v@);
}

} // verus!
