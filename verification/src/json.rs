//! JSON text for reply bodies and notification payloads.
//!
//! Objects are built with their keys in the order in which `serde_json`
//! writes the members of a `json!` object (its map keeps keys sorted); the
//! builders require that order.
use vstd::prelude::*;

verus! {

/// The lower-case hexadecimal digit for a value from 0 to 15.
pub open spec fn hex_digit(n: int) -> char {
    if n < 10 {
        (n + 48) as char
    } else {
        (n + 87) as char
    }
}

/// How `serde_json` writes one character inside a string literal: a quote
/// and a backslash are escaped with a backslash, the control characters
/// that have a short escape get it, the other characters below U+0020 are
/// written as `\u00` and two lower-case hexadecimal digits, and every
/// other character is written as it is.
pub open spec fn json_escape(c: char) -> Seq<char> {
    if c == '"' {
        seq!['\\', '"']
    } else if c == '\\' {
        seq!['\\', '\\']
    } else if c == '\u{8}' {
        seq!['\\', 'b']
    } else if c == '\t' {
        seq!['\\', 't']
    } else if c == '\n' {
        seq!['\\', 'n']
    } else if c == '\u{c}' {
        seq!['\\', 'f']
    } else if c == '\r' {
        seq!['\\', 'r']
    } else if (c as int) < 32 {
        seq!['\\', 'u', '0', '0', hex_digit(c as int / 16), hex_digit(c as int % 16)]
    } else {
        seq![c]
    }
}

/// The characters of a text, each escaped as `serde_json` escapes it.
pub open spec fn json_escaped(s: Seq<char>) -> Seq<char>
    decreases s.len(),
{
    if s.len() == 0 {
        s
    } else {
        json_escaped(s.drop_last()) + json_escape(s.last())
    }
}

/// What `serde_json` writes for a string value: the escaped text between
/// double quotes.
pub open spec fn json_string(s: Seq<char>) -> Seq<char> {
    seq!['"'] + json_escaped(s) + seq!['"']
}

/// Calls `serde_json::to_string` on a string slice. Its source writes a
/// double quote, then each byte of the text, replaced by its escape where
/// its table of escapes has one (the quote, the backslash and the bytes
/// below 0x20), then a double quote; the contract states that result as
/// `json_string`. Serialising a `str` into a buffer cannot fail.
#[verifier::external_body]
fn quote(s: &str) -> (r: String)
    ensures
        r@ == json_string(s@),
{
    serde_json::to_string(s).unwrap_or_default()
}

/// The parts joined by the separator.
pub open spec fn joined(parts: Seq<Seq<char>>, sep: Seq<char>) -> Seq<char>
    decreases parts.len(),
{
    if parts.len() == 0 {
        Seq::<char>::empty()
    } else if parts.len() == 1 {
        parts[0]
    } else {
        joined(parts.drop_last(), sep) + sep + parts.last()
    }
}

/// One member of a JSON object: the quoted key, a colon, and the value's text.
pub open spec fn json_member(key: Seq<char>, value: Seq<char>) -> Seq<char> {
    json_string(key) + ":"@ + value
}

/// A JSON object made of the given members, in order.
pub open spec fn json_object(members: Seq<Seq<char>>) -> Seq<char> {
    "{"@ + joined(members, ","@) + "}"@
}

/// The JSON text of a string value.
pub fn string_value(s: &str) -> (r: String)
    ensures
        r@ == json_string(s@),
{
    quote(s)
}

/// The member `"key":value`, where `value` is already JSON text.
pub fn member(key: &str, value: &str) -> (r: String)
    ensures
        r@ == json_member(key@, value@),
{
    let mut r = quote(key);
    r.append(":");
    r.append(value);
    r
}

/// The member `"key":"value"` with a string value.
pub fn string_member(key: &str, value: &str) -> (r: String)
    ensures
        r@ == json_member(key@, json_string(value@)),
{
    let v = quote(value);
    member(key, v.as_str())
}

/// The object made of the given members, in order.
fn object(members: &Vec<String>) -> (r: String)
    ensures
        r@ == json_object(members@.map_values(|m: String| m@)),
{
    let ghost parts = members@.map_values(|m: String| m@);
    let mut body = String::new();
    let n = members.len();
    for i in 0..n
        invariant
            n == members.len(),
            parts.len() == n,
            forall|k: int| 0 <= k < n ==> parts[k] == (#[trigger] members@[k])@,
            body@ == joined(parts.take(i as int), ","@),
    {
        if i != 0 {
            body.append(",");
        }
        body.append(members[i].as_str());
        assert(parts.take(i + 1).drop_last() =~= parts.take(i as int));
    }
    assert(parts.take(n as int) =~= parts);
    let mut r = String::from_str("{");
    r.append(body.as_str());
    r.append("}");
    r
}

/// Whether a key comes strictly before another in the order of their
/// characters, which is the order of their UTF-8 bytes: the order in which
/// `serde_json`'s map writes string keys.
pub open spec fn key_precedes(a: Seq<char>, b: Seq<char>) -> bool
    decreases a.len(),
{
    if b.len() == 0 {
        false
    } else if a.len() == 0 {
        true
    } else if a[0] != b[0] {
        a[0] < b[0]
    } else {
        key_precedes(a.drop_first(), b.drop_first())
    }
}

/// The object with one member, `"k1":v1`, where the value is already JSON text.
pub fn object1(k1: &str, v1: &str) -> (r: String)
    ensures
        r@ == json_object(seq![json_member(k1@, v1@)]),
{
    let mut members: Vec<String> = Vec::new();
    members.push(member(k1, v1));
    let r = object(&members);
    assert(members@.map_values(|m: String| m@) =~= seq![members@[0]@]);
    r
}

/// The object with two members, whose keys must come in the order in which
/// `serde_json` writes them.
pub fn object2(k1: &str, v1: &str, k2: &str, v2: &str) -> (r: String)
    requires
        key_precedes(k1@, k2@),
    ensures
        r@ == json_object(seq![json_member(k1@, v1@), json_member(k2@, v2@)]),
{
    let mut members: Vec<String> = Vec::new();
    members.push(member(k1, v1));
    members.push(member(k2, v2));
    let r = object(&members);
    assert(members@.map_values(|m: String| m@) =~= seq![members@[0]@, members@[1]@]);
    r
}

/// The object with three members, whose keys must come in the order in
/// which `serde_json` writes them.
pub fn object3(k1: &str, v1: &str, k2: &str, v2: &str, k3: &str, v3: &str) -> (r: String)
    requires
        key_precedes(k1@, k2@),
        key_precedes(k2@, k3@),
    ensures
        r@ == json_object(
            seq![json_member(k1@, v1@), json_member(k2@, v2@), json_member(k3@, v3@)],
        ),
{
    let mut members: Vec<String> = Vec::new();
    members.push(member(k1, v1));
    members.push(member(k2, v2));
    members.push(member(k3, v3));
    let r = object(&members);
    assert(members@.map_values(|m: String| m@) =~= seq![members@[0]@, members@[1]@, members@[2]@]);
    r
}

/// The value of a lower-case hexadecimal digit.
pub open spec fn hex_value(c: char) -> int {
    if '0' <= c <= '9' {
        c as int - 48
    } else {
        c as int - 87
    }
}

/// The character that a two-character escape `\x` stands for.
pub open spec fn unescape_char(c: char) -> char {
    if c == 'b' {
        '\u{8}'
    } else if c == 't' {
        '\t'
    } else if c == 'n' {
        '\n'
    } else if c == 'f' {
        '\u{c}'
    } else if c == 'r' {
        '\r'
    } else {
        c
    }
}

/// The text that the inside of a JSON string literal stands for, read from
/// the front: `\u` and four hexadecimal digits stand for one character, a
/// backslash and another character for one character, and every other
/// character for itself.
pub open spec fn json_unescaped(t: Seq<char>) -> Seq<char>
    decreases t.len(),
{
    if t.len() == 0 {
        t
    } else if t[0] != '\\' || t.len() < 2 {
        seq![t[0]] + json_unescaped(t.drop_first())
    } else if t[1] == 'u' && t.len() >= 6 {
        seq![(16 * hex_value(t[4]) + hex_value(t[5])) as char] + json_unescaped(t.subrange(6, t.len() as int))
    } else {
        seq![unescape_char(t[1])] + json_unescaped(t.subrange(2, t.len() as int))
    }
}

/// Escaping distributes over concatenation.
pub proof fn lemma_json_escaped_concat(a: Seq<char>, b: Seq<char>)
    ensures
        json_escaped(a + b) == json_escaped(a) + json_escaped(b),
    decreases b.len(),
{
    if b.len() == 0 {
        assert(a + b =~= a);
        assert(json_escaped(a) + json_escaped(b) =~= json_escaped(a));
    } else {
        lemma_json_escaped_concat(a, b.drop_last());
        assert((a + b).drop_last() =~= a + b.drop_last());
        assert((a + b).last() == b.last());
        assert(json_escaped(a + b) =~= json_escaped(a) + json_escaped(b));
    }
}

/// Reading back one escaped character gives that character.
proof fn lemma_unescape_one(c: char, rest: Seq<char>)
    ensures
        json_unescaped(json_escape(c) + rest) == seq![c] + json_unescaped(rest),
{
    let t = json_escape(c) + rest;
    if c == '"' || c == '\\' || c == '\u{8}' || c == '\t' || c == '\n' || c == '\u{c}' || c == '\r' {
        assert(t[0] == '\\');
        assert(t[1] != 'u');
        assert(t.subrange(2, t.len() as int) =~= rest);
        assert(unescape_char(t[1]) == c);
    } else if (c as int) < 32 {
        assert(t[0] == '\\' && t[1] == 'u' && t.len() >= 6);
        let hi = c as int / 16;
        let lo = c as int % 16;
        assert(hex_value(hex_digit(hi)) == hi);
        assert(hex_value(hex_digit(lo)) == lo);
        assert(t[4] == hex_digit(hi) && t[5] == hex_digit(lo));
        assert((16 * hi + lo) as char == c);
        assert(t.subrange(6, t.len() as int) =~= rest);
    } else {
        assert(t[0] == c);
        assert(t.drop_first() =~= rest);
    }
}

/// Reading back an escaped text gives the text: escaping loses nothing.
pub proof fn lemma_json_unescape_escaped(s: Seq<char>)
    ensures
        json_unescaped(json_escaped(s)) == s,
    decreases s.len(),
{
    if s.len() > 0 {
        let c = s[0];
        let rest = s.drop_first();
        assert(s =~= seq![c] + rest);
        lemma_json_escaped_concat(seq![c], rest);
        assert(seq![c].drop_last() =~= Seq::<char>::empty());
        assert(seq![c].last() == c);
        assert(json_escaped(Seq::<char>::empty()) =~= Seq::<char>::empty());
        assert(json_escaped(seq![c]) =~= json_escape(c));
        lemma_unescape_one(c, json_escaped(rest));
        lemma_json_unescape_escaped(rest);
        assert(seq![c] + rest =~= s);
    }
}

/// Different texts have different JSON string literals.
pub proof fn lemma_json_string_injective(a: Seq<char>, b: Seq<char>)
    requires
        json_string(a) == json_string(b),
    ensures
        a == b,
{
    let ja = json_string(a);
    assert(ja.subrange(1, ja.len() - 1) =~= json_escaped(a));
    assert(json_string(b).subrange(1, json_string(b).len() - 1) =~= json_escaped(b));
    lemma_json_unescape_escaped(a);
    lemma_json_unescape_escaped(b);
}

/// The text of an object with one member, written out: a brace, the quoted
/// key, a colon, the value's text and a closing brace.
pub proof fn lemma_object_with_one_member(key: Seq<char>, value: Seq<char>)
    ensures
        json_object(seq![json_member(key, value)]) == "{"@ + json_string(key) + ":"@ + value + "}"@,
{
    assert(seq![json_member(key, value)].len() == 1);
    assert("{"@ + json_string(key) + ":"@ + value + "}"@ =~= "{"@ + (json_string(key) + ":"@ + value) + "}"@);
}

/// Two objects with one member under the same key are equal only when
/// their values are.
pub proof fn lemma_object_with_one_member_injective(key: Seq<char>, v1: Seq<char>, v2: Seq<char>)
    requires
        json_object(seq![json_member(key, v1)]) == json_object(seq![json_member(key, v2)]),
    ensures
        v1 == v2,
{
    lemma_object_with_one_member(key, v1);
    lemma_object_with_one_member(key, v2);
    reveal_strlit("}");
    let p = "{"@ + json_string(key) + ":"@;
    let o1 = p + v1 + "}"@;
    let o2 = p + v2 + "}"@;
    assert(o1 =~= "{"@ + json_string(key) + ":"@ + v1 + "}"@);
    assert(o2 =~= "{"@ + json_string(key) + ":"@ + v2 + "}"@);
    assert(o1.len() == o2.len());
    assert(o1.subrange(p.len() as int, o1.len() - 1) =~= v1);
    assert(o2.subrange(p.len() as int, o2.len() - 1) =~= v2);
}

} // verus!
