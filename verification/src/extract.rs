//! Extraction of the answer text from a provider response document.
//!
//! Three known provider shapes are tried in strict priority order:
//! a `content` list scanned for the first item tagged `"text"`; the
//! first element of a `content` list carrying a bare `text` string;
//! and `choices[0].message.content`. The first success wins.

use vstd::prelude::*;
use crate::json::Doc;
use crate::text::str_eq;

verus! {

/// The value of the first pair whose key reads `key`, if any.
pub open spec fn obj_lookup(pairs: Seq<(String, Doc)>, key: Seq<char>) -> Option<Doc>
    decreases pairs.len(),
{
    if pairs.len() == 0 {
        None
    } else if pairs[0].0@ == key {
        Some(pairs[0].1)
    } else {
        obj_lookup(pairs.drop_first(), key)
    }
}

/// The field `key` of `d`, when `d` is an object that has it.
pub open spec fn doc_get(d: Doc, key: Seq<char>) -> Option<Doc> {
    match d {
        Doc::Obj(pairs) => obj_lookup(pairs@, key),
        _ => None,
    }
}

/// The characters of the string field `key` of `d`, when `d` is an
/// object whose field `key` is a string.
pub open spec fn str_field(d: Doc, key: Seq<char>) -> Option<Seq<char>> {
    match doc_get(d, key) {
        Some(Doc::Str(s)) => Some(s@),
        _ => None,
    }
}

/// Whether `d` is a content item tagged `"text"` that carries a
/// string `text` field.
pub open spec fn is_text_item(d: Doc) -> bool {
    str_field(d, "type"@) == Some("text"@) && str_field(d, "text"@) is Some
}

/// The text of the first item of `items` tagged `"text"`, if any.
pub open spec fn scan_text_items(items: Seq<Doc>) -> Option<Seq<char>>
    decreases items.len(),
{
    if items.len() == 0 {
        None
    } else if is_text_item(items[0]) {
        str_field(items[0], "text"@)
    } else {
        scan_text_items(items.drop_first())
    }
}

/// First shape: `content` is a list holding an item tagged `"text"`.
pub open spec fn content_scan(d: Doc) -> Option<Seq<char>> {
    match doc_get(d, "content"@) {
        Some(Doc::Arr(items)) => scan_text_items(items@),
        _ => None,
    }
}

/// Second shape (legacy): the first element of the `content` list
/// carries a bare string `text` field.
pub open spec fn legacy_first(d: Doc) -> Option<Seq<char>> {
    match doc_get(d, "content"@) {
        Some(Doc::Arr(items)) => if items@.len() > 0 {
            str_field(items@[0], "text"@)
        } else {
            None
        },
        _ => None,
    }
}

/// Third shape (alternate provider): `choices[0].message.content`.
pub open spec fn choices_path(d: Doc) -> Option<Seq<char>> {
    match doc_get(d, "choices"@) {
        Some(Doc::Arr(items)) => if items@.len() > 0 {
            match doc_get(items@[0], "message"@) {
                Some(m) => str_field(m, "content"@),
                None => None,
            }
        } else {
            None
        },
        _ => None,
    }
}

/// The extracted answer: the three known shapes in priority order,
/// `None` when none of them matches.
pub open spec fn spec_extract(d: Doc) -> Option<Seq<char>> {
    if content_scan(d) is Some {
        content_scan(d)
    } else if legacy_first(d) is Some {
        legacy_first(d)
    } else {
        choices_path(d)
    }
}

fn obj_get<'a>(pairs: &'a Vec<(String, Doc)>, key: &str) -> (r: Option<&'a Doc>)
    ensures
        match r {
            Some(d) => obj_lookup(pairs@, key@) == Some(*d),
            None => obj_lookup(pairs@, key@) is None,
        },
{
    let n = pairs.len();
    let mut i: usize = 0;
    proof {
        assert(pairs@.skip(0) =~= pairs@);
    }
    while i < n
        invariant
            n == pairs@.len(),
            i <= n,
            obj_lookup(pairs@, key@) == obj_lookup(pairs@.skip(i as int), key@),
        decreases n - i,
    {
        let p = &pairs[i];
        proof {
            assert(pairs@.skip(i as int)[0] == pairs@[i as int]);
            assert(pairs@.skip(i as int).drop_first() =~= pairs@.skip(i + 1));
        }
        if str_eq(p.0.as_str(), key) {
            return Some(&p.1);
        }
        i = i + 1;
    }
    proof {
        assert(pairs@.skip(n as int) =~= Seq::<(String, Doc)>::empty());
    }
    None
}

fn doc_get_exec<'a>(d: &'a Doc, key: &str) -> (r: Option<&'a Doc>)
    ensures
        match r {
            Some(x) => doc_get(*d, key@) == Some(*x),
            None => doc_get(*d, key@) is None,
        },
{
    match d {
        Doc::Obj(pairs) => obj_get(pairs, key),
        _ => None,
    }
}

fn str_field_exec<'a>(d: &'a Doc, key: &str) -> (r: Option<&'a String>)
    ensures
        match r {
            Some(s) => str_field(*d, key@) == Some(s@),
            None => str_field(*d, key@) is None,
        },
{
    match doc_get_exec(d, key) {
        Some(x) => match x {
            Doc::Str(s) => Some(s),
            _ => None,
        },
        None => None,
    }
}

fn is_text_item_exec(d: &Doc) -> (r: bool)
    ensures
        r == is_text_item(*d),
{
    match str_field_exec(d, "type") {
        Some(t) => {
            if str_eq(t.as_str(), "text") {
                match str_field_exec(d, "text") {
                    Some(_) => true,
                    None => false,
                }
            } else {
                false
            }
        },
        None => false,
    }
}

fn scan_items(items: &Vec<Doc>) -> (r: Option<String>)
    ensures
        match r {
            Some(s) => scan_text_items(items@) == Some(s@),
            None => scan_text_items(items@) is None,
        },
{
    let n = items.len();
    let mut i: usize = 0;
    proof {
        assert(items@.skip(0) =~= items@);
    }
    while i < n
        invariant
            n == items@.len(),
            i <= n,
            scan_text_items(items@) == scan_text_items(items@.skip(i as int)),
        decreases n - i,
    {
        proof {
            assert(items@.skip(i as int)[0] == items@[i as int]);
            assert(items@.skip(i as int).drop_first() =~= items@.skip(i + 1));
        }
        if is_text_item_exec(&items[i]) {
            match str_field_exec(&items[i], "text") {
                Some(s) => {
                    return Some(s.clone());
                },
                None => {
                    proof {
                        assert(false);
                    }
                },
            }
        }
        i = i + 1;
    }
    proof {
        assert(items@.skip(n as int) =~= Seq::<Doc>::empty());
    }
    None
}

/// Extracts the answer text of `d`, trying the three known provider
/// shapes in priority order.
pub fn extract_text(d: &Doc) -> (r: Option<String>)
    ensures
        match r {
            Some(s) => spec_extract(*d) == Some(s@),
            None => spec_extract(*d) is None,
        },
{
    match doc_get_exec(d, "content") {
        Some(c) => match c {
            Doc::Arr(items) => {
                match scan_items(items) {
                    Some(s) => {
                        return Some(s);
                    },
                    None => {},
                }
                if items.len() > 0 {
                    match str_field_exec(&items[0], "text") {
                        Some(s) => {
                            return Some(s.clone());
                        },
                        None => {},
                    }
                }
            },
            _ => {},
        },
        None => {},
    }
    match doc_get_exec(d, "choices") {
        Some(c) => match c {
            Doc::Arr(items) => {
                if items.len() > 0 {
                    match doc_get_exec(&items[0], "message") {
                        Some(m) => {
                            match str_field_exec(m, "content") {
                                Some(s) => {
                                    return Some(s.clone());
                                },
                                None => {},
                            }
                        },
                        None => {},
                    }
                }
            },
            _ => {},
        },
        None => {},
    }
    None
}

} // verus!
