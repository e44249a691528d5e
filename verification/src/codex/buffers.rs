//! The output of a running command: all of it, and a preview of its tail
//! bounded in bytes.

use crate::approval::shell::{char_utf8_len, char_utf8_len_exec};
use crate::text::{from_chars, has_suffix, to_chars};
use vstd::prelude::*;
use vstd::utf8::{encode_scalar, encode_utf8};

verus! {

/// The largest preview of a command's output, in bytes: large enough for
/// typical build and test output, bounded for row updates.
pub const OUTPUT_PREVIEW_CHAR_LIMIT: usize = 64 * 1024;

/// The number of bytes of `s` in UTF-8.
pub open spec fn bytes_of(s: Seq<char>) -> nat {
    encode_utf8(s).len()
}

/// The longest tail of `s` whose UTF-8 form fits in `limit` bytes: leading
/// characters are dropped, whole, until the rest fits.
pub open spec fn tail_within(s: Seq<char>, limit: nat) -> Seq<char>
    decreases s.len(),
{
    if bytes_of(s) <= limit || s.len() == 0 {
        s
    } else {
        tail_within(s.drop_first(), limit)
    }
}

proof fn lemma_scalar_len(c: char)
    ensures
        encode_scalar(c as u32).len() == char_utf8_len(c),
{
    vstd::utf8::char_is_scalar(c);
}

proof fn lemma_bytes_step(s: Seq<char>, j: int)
    requires
        0 <= j < s.len(),
    ensures
        bytes_of(s.skip(j)) == char_utf8_len(s[j]) + bytes_of(s.skip(j + 1)),
{
    let t = s.skip(j);
    assert(t[0] == s[j]);
    assert(t.drop_first() =~= s.skip(j + 1));
    lemma_scalar_len(s[j]);
}

proof fn lemma_bytes_monotone(s: Seq<char>, i: int, j: int)
    requires
        0 <= i <= j <= s.len(),
    ensures
        bytes_of(s.skip(i)) >= bytes_of(s.skip(j)),
    decreases j - i,
{
    if i < j {
        lemma_bytes_step(s, i);
        lemma_bytes_monotone(s, i + 1, j);
    }
}

proof fn lemma_tail_at(s: Seq<char>, limit: nat, k: int, j: int)
    requires
        0 <= j <= k <= s.len(),
        bytes_of(s.skip(k)) <= limit,
        k == 0 || bytes_of(s.skip(k - 1)) > limit,
    ensures
        tail_within(s.skip(j), limit) == s.skip(k),
    decreases k - j,
{
    if j < k {
        lemma_bytes_monotone(s, j, k - 1);
        assert(s.skip(j).drop_first() =~= s.skip(j + 1));
        lemma_tail_at(s, limit, k, j + 1);
    }
}

/// A trimmed preview fits its limit, ends the text it was cut from, and
/// keeps a text that already fits whole.
pub proof fn law_tail_within_fits(s: Seq<char>, limit: nat)
    ensures
        bytes_of(tail_within(s, limit)) <= limit,
        has_suffix(s, tail_within(s, limit)),
        bytes_of(s) <= limit ==> tail_within(s, limit) == s,
    decreases s.len(),
{
    if s.len() == 0 {
        assert(encode_utf8(s) =~= Seq::<u8>::empty());
        assert(s.subrange(0, 0) =~= s);
    } else if bytes_of(s) <= limit {
        assert(s.subrange(0, s.len() as int) =~= s);
    } else {
        let d = s.drop_first();
        law_tail_within_fits(d, limit);
        let t = tail_within(d, limit);
        assert(s.subrange(s.len() - t.len(), s.len() as int) =~= d.subrange(
            d.len() - t.len(),
            d.len() as int,
        ));
    }
}

/// Keeps the longest tail of `value` that fits in `limit` bytes, cutting
/// only between characters.
pub fn trim_front_to_char_limit(value: &mut String, limit: usize)
    ensures
        final(value)@ == tail_within(old(value)@, limit as nat),
{
    let chars = to_chars(value.as_str());
    let ghost s = chars@;
    let mut k = chars.len();
    let mut acc: usize = 0;
    assert(s.skip(k as int) =~= Seq::<char>::empty());
    while k > 0 && char_utf8_len_exec(chars[k - 1]) <= limit - acc
        invariant
            s == chars@,
            k <= chars.len(),
            acc <= limit,
            acc == bytes_of(s.skip(k as int)),
        decreases k,
    {
        proof {
            lemma_bytes_step(s, k - 1);
        }
        acc = acc + char_utf8_len_exec(chars[k - 1]);
        k = k - 1;
    }
    proof {
        if k > 0 {
            lemma_bytes_step(s, k - 1);
        }
        lemma_tail_at(s, limit as nat, k as int, 0);
        assert(s.skip(0) =~= s);
    }
    let tail = vstd::slice::slice_subrange(chars.as_slice(), k, chars.len());
    *value = from_chars(tail);
    assert(tail@ =~= s.skip(k as int));
}

/// What a running command has printed: all of it, and the tail shown as
/// its preview, with the time its row was last sent (milliseconds of a
/// monotonic clock).
#[derive(Debug)]
pub struct OutputBufferState {
    pub command: String,
    pub cwd: String,
    pub process_id: Option<String>,
    pub full_output: String,
    pub preview_output: String,
    pub last_broadcast_ms: u64,
}

impl Default for OutputBufferState {
    fn default() -> (r: Self)
        ensures
            r.command@ == Seq::<char>::empty(),
            r.cwd@ == Seq::<char>::empty(),
            r.process_id is None,
            r.full_output@ == Seq::<char>::empty(),
            r.preview_output@ == Seq::<char>::empty(),
            r.last_broadcast_ms == 0,
    {
        OutputBufferState {
            command: String::new(),
            cwd: String::new(),
            process_id: None,
            full_output: String::new(),
            preview_output: String::new(),
            last_broadcast_ms: 0,
        }
    }
}

impl OutputBufferState {
    /// Adds printed output: it all goes to the full output, and the preview
    /// keeps the longest tail that fits in the preview limit.
    pub fn append(&mut self, chunk: &str)
        ensures
            final(self).full_output@ == old(self).full_output@ + chunk@,
            final(self).preview_output@ == tail_within(
                old(self).preview_output@ + chunk@,
                OUTPUT_PREVIEW_CHAR_LIMIT as nat,
            ),
            final(self).command == old(self).command,
            final(self).cwd == old(self).cwd,
            final(self).process_id == old(self).process_id,
            final(self).last_broadcast_ms == old(self).last_broadcast_ms,
    {
        self.full_output.append(chunk);
        self.preview_output.append(chunk);
        trim_front_to_char_limit(&mut self.preview_output, OUTPUT_PREVIEW_CHAR_LIMIT);
    }

    /// The preview, unless nothing was printed into it.
    pub fn preview(&self) -> (r: Option<String>)
        ensures
            self.preview_output@.len() == 0 ==> r is None,
            self.preview_output@.len() > 0 ==> (r matches Some(p) && p@ == self.preview_output@),
    {
        if self.preview_output.as_str().unicode_len() == 0 {
            None
        } else {
            Some(crate::text::copy_string(&self.preview_output))
        }
    }
}

} // verus!
