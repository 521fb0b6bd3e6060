//! The library's model of a structured (JSON-like) document, the
//! trusted bridge to the JSON parser and serializer, and a verified
//! JSON string escaper for building request bodies.

use vstd::prelude::*;
use crate::text::chars_of;
use crate::text::chars_to_string;

verus! {

/// A structured document: the shape a provider response is modelled
/// as. Numbers are held as their decimal text; this library's logic
/// never computes with them.
pub enum Doc {
    Null,
    Bool(bool),
    Num(String),
    Str(String),
    Arr(Vec<Doc>),
    Obj(Vec<(String, Doc)>),
}

/// Declares `serde_json::Value` (the parser's document type), so the
/// conversion helpers below can take and return it; the value stays
/// opaque to the rest of the library.
#[verifier::external_type_specification]
#[verifier::external_body]
pub struct ExJsonValue(serde_json::Value);

/// What parsing a text as JSON yields: the document, or the parser's
/// error text. Parsing is deterministic, so the outcome is a
/// function of the text alone; nothing more is assumed of it.
pub uninterp spec fn json_parse(s: Seq<char>) -> Result<Doc, Seq<char>>;

/// What serializing a document back to JSON text yields. The
/// serializer is deterministic, so the result is a function of the
/// document alone; nothing more is assumed of it.
pub uninterp spec fn json_text_of(d: Doc) -> Seq<char>;

/// Converts a parsed JSON value into the library's document shape,
/// one variant at a time; numbers keep their decimal text. Called
/// only from the trusted parse wrapper below.
#[verifier::external_body]
fn doc_of(v: serde_json::Value) -> Doc {
    match v {
        serde_json::Value::Null => Doc::Null,
        serde_json::Value::Bool(b) => Doc::Bool(b),
        serde_json::Value::Number(n) => Doc::Num(n.to_string()),
        serde_json::Value::String(s) => Doc::Str(s),
        serde_json::Value::Array(a) => Doc::Arr(a.into_iter().map(doc_of).collect()),
        serde_json::Value::Object(m) => Doc::Obj(
            m.into_iter().map(|(k, x)| (k, doc_of(x))).collect(),
        ),
    }
}

/// Relies on `serde_json::from_str::<serde_json::Value>`: parses the
/// text as one JSON document or reports the parse error's text.
#[verifier::external_body]
pub(crate) fn parse_json(s: &str) -> (r: Result<Doc, String>)
    ensures
        match r {
            Ok(d) => json_parse(s@) == Ok::<Doc, Seq<char>>(d),
            Err(e) => json_parse(s@) matches Err(msg) && msg == e@,
        },
{
    match serde_json::from_str::<serde_json::Value>(s) {
        Ok(v) => Ok(doc_of(v)),
        Err(e) => Err(e.to_string()),
    }
}

/// Converts the library's document shape back into a JSON value, one
/// variant at a time; a number's text is read back, or becomes null
/// if it is not numeric. Called only from the trusted serialization
/// wrapper below.
#[verifier::external_body]
fn value_of(d: &Doc) -> serde_json::Value {
    match d {
        Doc::Null => serde_json::Value::Null,
        Doc::Bool(b) => serde_json::Value::Bool(*b),
        Doc::Num(s) => s.parse::<serde_json::Number>().map(serde_json::Value::Number).unwrap_or(
            serde_json::Value::Null,
        ),
        Doc::Str(s) => serde_json::Value::String(s.clone()),
        Doc::Arr(a) => serde_json::Value::Array(a.iter().map(value_of).collect()),
        Doc::Obj(m) => serde_json::Value::Object(
            m.iter().map(|(k, x)| (k.clone(), value_of(x))).collect(),
        ),
    }
}

/// Relies on `serde_json::to_string`: serializes the document to
/// JSON text (serializing a `Value` cannot fail).
#[verifier::external_body]
pub(crate) fn doc_to_text(d: &Doc) -> (r: String)
    ensures
        r@ == json_text_of(*d),
{
    serde_json::to_string(&value_of(d)).unwrap_or_default()
}

/// The lower-case hexadecimal digit character for `n`.
pub open spec fn hex_digit(n: int) -> char {
    if n == 0 {
        '0'
    } else if n == 1 {
        '1'
    } else if n == 2 {
        '2'
    } else if n == 3 {
        '3'
    } else if n == 4 {
        '4'
    } else if n == 5 {
        '5'
    } else if n == 6 {
        '6'
    } else if n == 7 {
        '7'
    } else if n == 8 {
        '8'
    } else if n == 9 {
        '9'
    } else if n == 10 {
        'a'
    } else if n == 11 {
        'b'
    } else if n == 12 {
        'c'
    } else if n == 13 {
        'd'
    } else if n == 14 {
        'e'
    } else {
        'f'
    }
}

/// How a single character appears inside a JSON string literal:
/// quote and backslash are escaped, the common control characters by
/// their short escapes, any other control character as a `\u00..`
/// escape, and everything else stands unchanged.
pub open spec fn json_escaped_char(c: char) -> Seq<char> {
    if c == '"' {
        seq!['\\', '"']
    } else if c == '\\' {
        seq!['\\', '\\']
    } else if c == '\n' {
        seq!['\\', 'n']
    } else if c == '\r' {
        seq!['\\', 'r']
    } else if c == '\t' {
        seq!['\\', 't']
    } else if (c as u32) < 32 {
        seq!['\\', 'u', '0', '0', hex_digit(((c as u32) / 16) as int), hex_digit(
            ((c as u32) % 16) as int,
        )]
    } else {
        seq![c]
    }
}

/// The JSON-string-escaped form of `s`.
pub open spec fn json_escaped(s: Seq<char>) -> Seq<char>
    decreases s.len(),
{
    if s.len() == 0 {
        Seq::empty()
    } else {
        json_escaped_char(s[0]) + json_escaped(s.drop_first())
    }
}

proof fn lemma_json_escaped_push(s: Seq<char>, c: char)
    ensures
        json_escaped(s.push(c)) == json_escaped(s) + json_escaped_char(c),
    decreases s.len(),
{
    if s.len() == 0 {
        assert(s.push(c)[0] == c);
        assert(s.push(c).drop_first() =~= Seq::<char>::empty());
        assert(json_escaped(s.push(c)) == json_escaped_char(c) + json_escaped(
            Seq::<char>::empty(),
        ));
        assert(json_escaped_char(c) + Seq::<char>::empty() =~= json_escaped_char(c));
        assert(Seq::<char>::empty() + json_escaped_char(c) =~= json_escaped_char(c));
    } else {
        assert(s.push(c)[0] == s[0]);
        assert(s.push(c).drop_first() =~= s.drop_first().push(c));
        assert(json_escaped(s.push(c)) == json_escaped_char(s[0]) + json_escaped(
            s.drop_first().push(c),
        ));
        assert(json_escaped(s) == json_escaped_char(s[0]) + json_escaped(s.drop_first()));
        lemma_json_escaped_push(s.drop_first(), c);
        assert(json_escaped_char(s[0]) + (json_escaped(s.drop_first()) + json_escaped_char(c))
            =~= (json_escaped_char(s[0]) + json_escaped(s.drop_first())) + json_escaped_char(c));
    }
}

fn hex_digit_exec(n: u32) -> (r: char)
    requires
        n < 16,
    ensures
        r == hex_digit(n as int),
{
    if n == 0 {
        '0'
    } else if n == 1 {
        '1'
    } else if n == 2 {
        '2'
    } else if n == 3 {
        '3'
    } else if n == 4 {
        '4'
    } else if n == 5 {
        '5'
    } else if n == 6 {
        '6'
    } else if n == 7 {
        '7'
    } else if n == 8 {
        '8'
    } else if n == 9 {
        '9'
    } else if n == 10 {
        'a'
    } else if n == 11 {
        'b'
    } else if n == 12 {
        'c'
    } else if n == 13 {
        'd'
    } else if n == 14 {
        'e'
    } else {
        'f'
    }
}

/// Escapes `value` for embedding inside a JSON string literal.
pub fn json_escape(value: &str) -> (r: String)
    ensures
        r@ == json_escaped(value@),
{
    let v = chars_of(value);
    let n = v.len();
    let mut out: Vec<char> = Vec::new();
    let mut i: usize = 0;
    while i < n
        invariant
            n == v@.len(),
            v@ == value@,
            i <= n,
            out@ == json_escaped(v@.take(i as int)),
        decreases n - i,
    {
        let c = v[i];
        if c == '"' {
            out.push('\\');
            out.push('"');
        } else if c == '\\' {
            out.push('\\');
            out.push('\\');
        } else if c == '\n' {
            out.push('\\');
            out.push('n');
        } else if c == '\r' {
            out.push('\\');
            out.push('r');
        } else if c == '\t' {
            out.push('\\');
            out.push('t');
        } else if (c as u32) < 32 {
            out.push('\\');
            out.push('u');
            out.push('0');
            out.push('0');
            out.push(hex_digit_exec((c as u32) / 16));
            out.push(hex_digit_exec((c as u32) % 16));
        } else {
            out.push(c);
        }
        proof {
            lemma_json_escaped_push(v@.take(i as int), v@[i as int]);
            assert(v@.take(i + 1) =~= v@.take(i as int).push(v@[i as int]));
            assert(out@ =~= json_escaped(v@.take(i + 1)));
        }
        i = i + 1;
    }
    proof {
        assert(v@.take(n as int) =~= v@);
    }
    chars_to_string(&out)
}

} // verus!
