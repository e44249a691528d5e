//! Reading JSON text. The library parses with `serde_json` and reads what it
//! needs one node at a time, addressed by a JSON Pointer (RFC 6901).

use crate::text::{concat3, decimal, decimal_string, from_chars, to_chars};
use vstd::prelude::*;

verus! {

/// One JSON node as the library reads it: scalars in full, an array by its
/// length, an object by its keys.
#[derive(Debug)]
pub enum JsonNode {
    Null,
    Bool(bool),
    /// A number, with its value when it is a non-negative integer that fits
    /// in `u64`.
    Number(Option<u64>),
    Str(String),
    Array(usize),
    Object(Vec<String>),
}

/// The view of a JSON node.
pub enum JsonNodeView {
    Null,
    Bool(bool),
    Number(Option<u64>),
    Str(Seq<char>),
    Array(nat),
    Object(Seq<Seq<char>>),
}

impl JsonNode {
    pub open spec fn node_view(&self) -> JsonNodeView {
        match self {
            JsonNode::Null => JsonNodeView::Null,
            JsonNode::Bool(b) => JsonNodeView::Bool(*b),
            JsonNode::Number(n) => JsonNodeView::Number(*n),
            JsonNode::Str(s) => JsonNodeView::Str(s@),
            JsonNode::Array(n) => JsonNodeView::Array(*n as nat),
            JsonNode::Object(keys) => JsonNodeView::Object(keys@.map_values(|k: String| k@)),
        }
    }
}

/// The view of an optional node.
pub open spec fn opt_node_view(o: Option<JsonNode>) -> Option<JsonNodeView> {
    match o {
        Some(n) => Some(n.node_view()),
        None => None,
    }
}

/// `a` sorts strictly before `b`, character by character.
pub open spec fn chars_lt(a: Seq<char>, b: Seq<char>) -> bool
    decreases a.len(),
{
    if a.len() == 0 {
        b.len() > 0
    } else if b.len() == 0 {
        false
    } else if a[0] != b[0] {
        (a[0] as u32) < (b[0] as u32)
    } else {
        chars_lt(a.drop_first(), b.drop_first())
    }
}

/// The node that `serde_json` finds at `pointer` in the JSON document
/// `text`, or `None` when `text` is not JSON or nothing is there.
pub uninterp spec fn spec_json_lookup(text: Seq<char>, pointer: Seq<char>) -> Option<JsonNodeView>;

/// `serde_json::from_str` of `text` followed by `Value::pointer`: the node
/// at `pointer`, named by `spec_json_lookup`. An object's keys come in the
/// order of `serde_json::Map`, which (without the `preserve_order`
/// feature) is a `BTreeMap`: strictly increasing.
#[verifier::external_body]
pub fn json_lookup(text: &str, pointer: &str) -> (r: Option<JsonNode>)
    ensures
        opt_node_view(r) == spec_json_lookup(text@, pointer@),
        r matches Some(JsonNode::Object(keys)) ==> forall|i: int, j: int|
            0 <= i < j < keys@.len() ==> chars_lt(#[trigger] keys@[i]@, #[trigger] keys@[j]@),
{
    let value: serde_json::Value = serde_json::from_str(text).ok()?;
    let node = value.pointer(pointer)?;
    Some(
        match node {
            serde_json::Value::Null => JsonNode::Null,
            serde_json::Value::Bool(b) => JsonNode::Bool(*b),
            serde_json::Value::Number(n) => JsonNode::Number(n.as_u64()),
            serde_json::Value::String(s) => JsonNode::Str(s.clone()),
            serde_json::Value::Array(items) => JsonNode::Array(items.len()),
            serde_json::Value::Object(map) => JsonNode::Object(map.keys().cloned().collect()),
        },
    )
}

// ---------------------------------------------------------------------------
// Pointers
// ---------------------------------------------------------------------------

/// A key written as a JSON Pointer token: `~` as `~0`, `/` as `~1`.
pub open spec fn escape_token(key: Seq<char>) -> Seq<char>
    decreases key.len(),
{
    if key.len() == 0 {
        Seq::empty()
    } else {
        escape_token(key.drop_last()) + (if key.last() == '~' {
            seq!['~', '0']
        } else if key.last() == '/' {
            seq!['~', '1']
        } else {
            seq![key.last()]
        })
    }
}

/// The pointer to member `key` of the node at `base`.
pub open spec fn member_pointer(base: Seq<char>, key: Seq<char>) -> Seq<char> {
    base + seq!['/'] + escape_token(key)
}

/// The pointer to element `i` of the array at `base`.
pub open spec fn element_pointer(base: Seq<char>, i: nat) -> Seq<char> {
    base + seq!['/'] + decimal(i)
}

/// The pointer to member `key` of the node at `base`.
pub fn member_ptr(base: &str, key: &str) -> (r: String)
    ensures
        r@ == member_pointer(base@, key@),
{
    let k = to_chars(key);
    let mut out: Vec<char> = to_chars(base);
    out.push('/');
    let ghost head = out@;
    let mut i: usize = 0;
    while i < k.len()
        invariant
            i <= k.len(),
            out@ == head + escape_token(k@.take(i as int)),
        decreases k.len() - i,
    {
        let c = k[i];
        if c == '~' {
            out.push('~');
            out.push('0');
        } else if c == '/' {
            out.push('~');
            out.push('1');
        } else {
            out.push(c);
        }
        proof {
            assert(k@.take(i + 1).drop_last() =~= k@.take(i as int));
            assert(k@.take(i + 1).last() == c);
        }
        i = i + 1;
        assert(out@ =~= head + escape_token(k@.take(i as int)));
    }
    assert(k@.take(k.len() as int) =~= key@);
    from_chars(out.as_slice())
}

/// The pointer to element `i` of the array at `base`.
pub fn element_ptr(base: &str, i: usize) -> (r: String)
    ensures
        r@ == element_pointer(base@, i as nat),
{
    let d = decimal_string(i as u64);
    proof {
        reveal_strlit("/");
        assert("/"@ =~= seq!['/']);
    }
    concat3(base, "/", d.as_str())
}

// ---------------------------------------------------------------------------
// Typed reads
// ---------------------------------------------------------------------------

/// The string at `pointer`, when the node there is a string.
pub open spec fn json_str(text: Seq<char>, pointer: Seq<char>) -> Option<Seq<char>> {
    match spec_json_lookup(text, pointer) {
        Some(JsonNodeView::Str(s)) => Some(s),
        _ => None,
    }
}

/// The string at `pointer`, when the node there is a string.
pub fn json_str_at(text: &str, pointer: &str) -> (r: Option<String>)
    ensures
        crate::text::opt_string_view(r) == json_str(text@, pointer@),
{
    match json_lookup(text, pointer) {
        Some(JsonNode::Str(s)) => Some(s),
        _ => None,
    }
}

/// Whether the node at `pointer` is an object.
pub open spec fn json_is_object(text: Seq<char>, pointer: Seq<char>) -> bool {
    spec_json_lookup(text, pointer) matches Some(JsonNodeView::Object(_))
}

/// The length of the array at `pointer`, when the node there is an array.
pub open spec fn json_array_len(text: Seq<char>, pointer: Seq<char>) -> Option<nat> {
    match spec_json_lookup(text, pointer) {
        Some(JsonNodeView::Array(n)) => Some(n),
        _ => None,
    }
}

/// Whether there is a node at `pointer`.
pub open spec fn json_has(text: Seq<char>, pointer: Seq<char>) -> bool {
    spec_json_lookup(text, pointer) is Some
}

/// The first of two pointers at which there is a node
/// (`get(a).or_else(|| get(b))`).
pub open spec fn first_present(text: Seq<char>, a: Seq<char>, b: Seq<char>) -> Seq<char> {
    if json_has(text, a) {
        a
    } else {
        b
    }
}

// ---------------------------------------------------------------------------
// Writing
// ---------------------------------------------------------------------------

/// A lower-case hexadecimal digit.
pub open spec fn hex_digit(n: nat) -> char {
    if n < 10 {
        (n + 48) as char
    } else {
        (n + 87) as char
    }
}

/// How a character is written inside a JSON string literal: a quote and a
/// backslash are escaped with a backslash; backspace, tab, line feed, form
/// feed and carriage return as `\b`, `\t`, `\n`, `\f`, `\r`; any other
/// control character below U+0020 as `\u00` and two lower-case hex digits;
/// every other character as itself.
pub open spec fn escaped_char(c: char) -> Seq<char> {
    if c == '"' {
        seq!['\\', '"']
    } else if c == '\\' {
        seq!['\\', '\\']
    } else if c == '\u{8}' {
        seq!['\\', 'b']
    } else if c == '\t' {
        seq!['\\', 't']
    } else if c == '\n' {
        seq!['\\', 'n']
    } else if c == '\u{c}' {
        seq!['\\', 'f']
    } else if c == '\r' {
        seq!['\\', 'r']
    } else if (c as u32) < 0x20 {
        seq!['\\', 'u', '0', '0', hex_digit((c as u32 / 16) as nat), hex_digit((c as u32 % 16) as nat)]
    } else {
        seq![c]
    }
}

/// The characters of a string, each as a JSON string literal writes it.
pub open spec fn escaped(s: Seq<char>) -> Seq<char>
    decreases s.len(),
{
    if s.len() == 0 {
        Seq::empty()
    } else {
        escaped(s.drop_last()) + escaped_char(s.last())
    }
}

/// What `serde_json::to_string` writes for a string: the string as a JSON
/// literal, between double quotes, each character escaped as
/// `escaped_char` says.
pub open spec fn spec_json_quote(s: Seq<char>) -> Seq<char> {
    seq!['"'] + escaped(s) + seq!['"']
}

/// `serde_json::to_string` of a string (its `format_escaped_str`): the
/// string quoted and escaped as `spec_json_quote` says. Writing a string
/// cannot fail.
#[verifier::external_body]
pub fn json_quote(s: &str) -> (r: String)
    ensures
        r@ == spec_json_quote(s@),
{
    match serde_json::to_string(s) {
        Ok(t) => t,
        Err(_) => String::new(),
    }
}

/// An optional string as JSON: the literal, or `null`.
pub open spec fn json_opt_str(o: Option<Seq<char>>) -> Seq<char> {
    match o {
        Some(s) => spec_json_quote(s),
        None => "null"@,
    }
}

/// A boolean as JSON.
pub open spec fn json_bool(b: bool) -> Seq<char> {
    if b {
        "true"@
    } else {
        "false"@
    }
}

/// An integer as JSON.
pub open spec fn json_int(n: int) -> Seq<char> {
    if n < 0 {
        "-"@ + decimal((-n) as nat)
    } else {
        decimal(n as nat)
    }
}

/// The text of a JSON object whose members are written in the order
/// given; each member is a key and the JSON text of its value.
pub open spec fn object_text(members: Seq<(Seq<char>, Seq<char>)>) -> Seq<char> {
    "{"@ + crate::text::join(
        members.map_values(|m: (Seq<char>, Seq<char>)| spec_json_quote(m.0) + ":"@ + m.1),
        ","@,
    ) + "}"@
}

/// Members kept sorted by key with `m` put in its place; a member with the
/// same key is replaced.
pub open spec fn put_member(sorted: Seq<(Seq<char>, Seq<char>)>, m: (Seq<char>, Seq<char>)) -> Seq<
    (Seq<char>, Seq<char>),
>
    decreases sorted.len(),
{
    if sorted.len() == 0 {
        seq![m]
    } else if sorted[0].0 == m.0 {
        sorted.update(0, m)
    } else if chars_lt(sorted[0].0, m.0) {
        seq![sorted[0]] + put_member(sorted.drop_first(), m)
    } else {
        seq![m] + sorted
    }
}

/// The members a JSON map holds once they are inserted one after another:
/// sorted by key, a later member replacing an earlier one with its key.
pub open spec fn sorted_members(members: Seq<(Seq<char>, Seq<char>)>) -> Seq<(Seq<char>, Seq<char>)>
    decreases members.len(),
{
    if members.len() == 0 {
        Seq::empty()
    } else {
        put_member(sorted_members(members.drop_last()), members.last())
    }
}

/// A JSON object built from the given members, as `serde_json` writes its
/// map: keys in sorted order, each once, with the last value given for it;
/// each member is a key and the JSON text of its value.
pub open spec fn json_object(members: Seq<(Seq<char>, Seq<char>)>) -> Seq<char> {
    object_text(sorted_members(members))
}

/// A JSON array of the given JSON texts, in order.
pub open spec fn json_array(items: Seq<Seq<char>>) -> Seq<char> {
    "["@ + crate::text::join(items, ","@) + "]"@
}

/// An optional string as JSON.
pub fn json_opt_string(o: Option<&str>) -> (r: String)
    ensures
        r@ == json_opt_str(crate::text::opt_str_view(o)),
{
    match o {
        Some(s) => json_quote(s),
        None => "null".to_string(),
    }
}

/// A boolean as JSON.
pub fn json_bool_text(b: bool) -> (r: String)
    ensures
        r@ == json_bool(b),
{
    if b {
        "true".to_string()
    } else {
        "false".to_string()
    }
}

/// An integer as JSON.
pub fn json_int_text(n: i64) -> (r: String)
    ensures
        r@ == json_int(n as int),
{
    if n < 0 {
        let m: u64 = (-(n as i128)) as u64;
        let d = decimal_string(m);
        crate::text::concat_str("-", d.as_str())
    } else {
        decimal_string(n as u64)
    }
}

/// The JSON texts of members as character sequences.
pub open spec fn members_view(v: Seq<(String, String)>) -> Seq<(Seq<char>, Seq<char>)> {
    v.map_values(|m: (String, String)| (m.0@, m.1@))
}

fn write_object(members: &[(String, String)]) -> (r: String)
    ensures
        r@ == object_text(members_view(members@)),
{
    let ghost mv = members_view(members@);
    let mut parts: Vec<String> = Vec::new();
    let mut i: usize = 0;
    while i < members.len()
        invariant
            i <= members.len(),
            mv == members_view(members@),
            crate::text::strs_view(parts@) =~= mv.take(i as int).map_values(
                |m: (Seq<char>, Seq<char>)| spec_json_quote(m.0) + ":"@ + m.1,
            ),
        decreases members.len() - i,
    {
        let key = json_quote(members[i].0.as_str());
        let part = concat3(key.as_str(), ":", members[i].1.as_str());
        let ghost before = crate::text::strs_view(parts@);
        let ghost pv = part@;
        parts.push(part);
        assert(crate::text::strs_view(parts@) =~= before.push(pv));
        assert(mv[i as int] == (members@[i as int].0@, members@[i as int].1@));
        assert(mv.take(i + 1).map_values(|m: (Seq<char>, Seq<char>)| spec_json_quote(m.0) + ":"@ + m.1)
            =~= mv.take(i as int).map_values(
            |m: (Seq<char>, Seq<char>)| spec_json_quote(m.0) + ":"@ + m.1,
        ).push(pv));
        i = i + 1;
    }
    assert(mv.take(members.len() as int) =~= mv);
    let body = crate::text::join_strings(parts.as_slice(), ",");
    concat3("{", body.as_str(), "}")
}

proof fn lemma_put_member_skips(sorted: Seq<(Seq<char>, Seq<char>)>, m: (Seq<char>, Seq<char>), j: int)
    requires
        0 <= j <= sorted.len(),
        forall|k: int| 0 <= k < j ==> (#[trigger] sorted[k]).0 != m.0 && chars_lt(sorted[k].0, m.0),
    ensures
        put_member(sorted, m) == sorted.take(j) + put_member(sorted.skip(j), m),
    decreases j,
{
    if j == 0 {
        assert(sorted.take(0) + put_member(sorted.skip(0), m) =~= put_member(sorted, m)) by {
            assert(sorted.skip(0) =~= sorted);
        }
    } else {
        assert(sorted[0].0 != m.0 && chars_lt(sorted[0].0, m.0));
        let rest = sorted.drop_first();
        assert forall|k: int| 0 <= k < j - 1 implies (#[trigger] rest[k]).0 != m.0 && chars_lt(rest[k].0, m.0) by {
            assert(rest[k] == sorted[k + 1]);
        }
        lemma_put_member_skips(rest, m, j - 1);
        assert(rest.skip(j - 1) =~= sorted.skip(j));
        assert(seq![sorted[0]] + rest.take(j - 1) =~= sorted.take(j));
        assert(put_member(sorted, m) == seq![sorted[0]] + put_member(rest, m));
        assert(seq![sorted[0]] + (rest.take(j - 1) + put_member(sorted.skip(j), m)) =~= sorted.take(j)
            + put_member(sorted.skip(j), m));
    }
}

fn put_member_into(sorted: &mut Vec<(String, String)>, m: (String, String))
    ensures
        members_view(final(sorted)@) == put_member(members_view(old(sorted)@), (m.0@, m.1@)),
{
    let ghost v = members_view(sorted@);
    let ghost mv = (m.0@, m.1@);
    let mut j: usize = 0;
    while j < sorted.len() && !crate::text::str_eq(sorted[j].0.as_str(), m.0.as_str())
        && crate::transition::subagents::str_lt(sorted[j].0.as_str(), m.0.as_str())
        invariant
            j <= sorted.len(),
            v == members_view(sorted@),
            mv == (m.0@, m.1@),
            forall|k: int| 0 <= k < j ==> (#[trigger] v[k]).0 != mv.0 && chars_lt(v[k].0, mv.0),
        decreases sorted.len() - j,
    {
        assert(v[j as int] == (sorted@[j as int].0@, sorted@[j as int].1@));
        j = j + 1;
    }
    proof {
        lemma_put_member_skips(v, mv, j as int);
        if j < sorted.len() {
            assert(v[j as int] == (sorted@[j as int].0@, sorted@[j as int].1@));
            assert(v.skip(j as int)[0] == v[j as int]);
            assert(v.skip(j as int).drop_first() =~= v.skip(j + 1));
        }
    }
    if j < sorted.len() && crate::text::str_eq(sorted[j].0.as_str(), m.0.as_str()) {
        sorted.set(j, m);
        assert(members_view(sorted@) =~= v.take(j as int) + v.skip(j as int).update(0, mv));
    } else {
        sorted.insert(j, m);
        assert(members_view(sorted@) =~= v.take(j as int) + (seq![mv] + v.skip(j as int)));
    }
}

/// A JSON object built from the given members, as `serde_json` writes its
/// map: keys in sorted order, each once, with the last value given for it.
pub fn json_object_text(members: &[(String, String)]) -> (r: String)
    ensures
        r@ == json_object(members_view(members@)),
{
    let ghost mv = members_view(members@);
    let mut sorted: Vec<(String, String)> = Vec::new();
    let mut i: usize = 0;
    assert(members_view(sorted@) =~= sorted_members(mv.take(0)));
    while i < members.len()
        invariant
            i <= members.len(),
            mv == members_view(members@),
            members_view(sorted@) == sorted_members(mv.take(i as int)),
        decreases members.len() - i,
    {
        let m = (crate::text::copy_string(&members[i].0), crate::text::copy_string(&members[i].1));
        put_member_into(&mut sorted, m);
        assert(mv.take(i + 1).drop_last() =~= mv.take(i as int));
        assert(mv.take(i + 1).last() == mv[i as int]);
        i = i + 1;
    }
    assert(mv.take(members.len() as int) =~= mv);
    write_object(sorted.as_slice())
}

/// A JSON array of the given JSON texts, in order.
pub fn json_array_text(items: &[String]) -> (r: String)
    ensures
        r@ == json_array(crate::text::strs_view(items@)),
{
    let body = crate::text::join_strings(items, ",");
    concat3("[", body.as_str(), "]")
}

} // verus!
