//! JSON values as the library sees them, and their Python-like rendering.

use vstd::prelude::*;
use serde_json::Value;
use crate::text::{chars_of, str_equal, decimal, push_decimal, push_signed_decimal, push_str, signed_decimal, string_from_chars};

verus! {

/// A JSON number as the JSON reader produced it.
#[derive(Debug, Clone)]
pub enum JsonNumber {
    /// A non-negative integer.
    PosInt(u64),
    /// A negative integer.
    NegInt(i64),
    /// A number with a fraction or exponent, held as the text that renders it
    /// (for example `3.14`, `0.0` or `1e-7`).
    Float(String),
}

/// A JSON value. Object entries keep the order in which the reader produced
/// them, and an object holds each key once.
#[derive(Debug)]
pub enum JsonValue {
    Null,
    Bool(bool),
    Number(JsonNumber),
    String(String),
    Array(Vec<JsonValue>),
    Object(Vec<(String, JsonValue)>),
}

/// Whether every digit of a number's text before its exponent is `0`.
pub open spec fn mantissa_is_zero(t: Seq<char>) -> bool
    decreases t.len(),
{
    if t.len() == 0 {
        true
    } else if t[0] == 'e' || t[0] == 'E' {
        true
    } else if '1' <= t[0] && t[0] <= '9' {
        false
    } else {
        mantissa_is_zero(t.drop_first())
    }
}

/// Whether a JSON number is non-zero.
pub open spec fn number_is_nonzero(n: JsonNumber) -> bool {
    match n {
        JsonNumber::PosInt(u) => u != 0,
        JsonNumber::NegInt(i) => i != 0,
        JsonNumber::Float(t) => !mantissa_is_zero(t@),
    }
}

/// Python truthiness of a JSON value: null, false, zero and empty strings,
/// arrays and objects are false; everything else is true.
pub open spec fn truthy(v: JsonValue) -> bool {
    match v {
        JsonValue::Null => false,
        JsonValue::Bool(b) => b,
        JsonValue::Number(n) => number_is_nonzero(n),
        JsonValue::String(s) => s@.len() > 0,
        JsonValue::Array(items) => items@.len() > 0,
        JsonValue::Object(entries) => entries@.len() > 0,
    }
}

fn float_text_is_nonzero(t: &String) -> (r: bool)
    ensures
        r == !mantissa_is_zero(t@),
{
    let cs = chars_of(t.as_str());
    let mut i: usize = 0;
    assert(t@.subrange(0, t@.len() as int) =~= t@);
    while i < cs.len()
        invariant
            cs@ == t@,
            i <= cs.len(),
            mantissa_is_zero(t@) == mantissa_is_zero(t@.subrange(i as int, t@.len() as int)),
        decreases cs.len() - i,
    {
        let c = cs[i];
        let ghost rest = t@.subrange(i as int, t@.len() as int);
        assert(rest[0] == c);
        assert(rest.drop_first() =~= t@.subrange(i + 1, t@.len() as int));
        if c == 'e' || c == 'E' {
            return false;
        }
        if '1' <= c && c <= '9' {
            return true;
        }
        i += 1;
    }
    false
}

/// Python truthiness of a JSON value (see `truthy`).
pub fn is_truthy(value: &JsonValue) -> (r: bool)
    ensures
        r == truthy(*value),
{
    match value {
        JsonValue::Null => false,
        JsonValue::Bool(flag) => *flag,
        JsonValue::Number(number) => match number {
            JsonNumber::PosInt(u) => *u != 0,
            JsonNumber::NegInt(i) => *i != 0,
            JsonNumber::Float(t) => float_text_is_nonzero(t),
        },
        JsonValue::String(text) => text.unicode_len() > 0,
        JsonValue::Array(items) => items.len() > 0,
        JsonValue::Object(entries) => entries.len() > 0,
    }
}

/// One character inside a single-quoted Python string literal: backslash and
/// single quote get a backslash before them.
pub open spec fn escape_char(c: char) -> Seq<char> {
    if c == '\\' { seq!['\\', '\\'] } else if c == '\'' { seq!['\\', '\''] } else { seq![c] }
}

/// The text of `s` escaped for a single-quoted Python string literal.
pub open spec fn escape_py(s: Seq<char>) -> Seq<char>
    decreases s.len(),
{
    if s.len() == 0 {
        Seq::empty()
    } else {
        escape_py(s.drop_last()) + escape_char(s.last())
    }
}

fn push_escaped(out: &mut Vec<char>, text: &str)
    ensures
        final(out)@ == old(out)@ + escape_py(text@),
{
    let cs = chars_of(text);
    let mut i: usize = 0;
    while i < cs.len()
        invariant
            cs@ == text@,
            i <= cs.len(),
            out@ == old(out)@ + escape_py(text@.subrange(0, i as int)),
        decreases cs.len() - i,
    {
        let c = cs[i];
        let ghost before = out@;
        if c == '\\' {
            out.push('\\');
            out.push('\\');
        } else if c == '\'' {
            out.push('\\');
            out.push('\'');
        } else {
            out.push(c);
        }
        proof {
            let s1 = text@.subrange(0, i + 1);
            assert(s1.drop_last() =~= text@.subrange(0, i as int));
            assert(s1.last() == c);
            assert(out@ =~= before + escape_char(c));
        }
        i += 1;
    }
    assert(text@.subrange(0, cs.len() as int) =~= text@);
}

/// Escapes backslashes and single quotes for a single-quoted Python string literal.
pub fn escape_python_single_quoted_string(text: &str) -> (r: String)
    ensures
        r@ == escape_py(text@),
{
    let mut out: Vec<char> = Vec::new();
    push_escaped(&mut out, text);
    assert(out@ =~= escape_py(text@));
    string_from_chars(&out)
}

/// Reads an escaped single-quoted Python string body back: a backslash takes
/// the character after it literally.
pub open spec fn unescape_py(t: Seq<char>) -> Seq<char>
    decreases t.len(),
{
    if t.len() == 0 {
        Seq::empty()
    } else if t[0] == '\\' && t.len() >= 2 {
        seq![t[1]] + unescape_py(t.subrange(2, t.len() as int))
    } else {
        seq![t[0]] + unescape_py(t.drop_first())
    }
}

proof fn lemma_escape_prepend(c: char, s: Seq<char>)
    ensures
        escape_py(seq![c] + s) == escape_char(c) + escape_py(s),
    decreases s.len(),
{
    let t = seq![c] + s;
    if s.len() == 0 {
        assert(t.drop_last() =~= Seq::<char>::empty());
        assert(escape_py(Seq::<char>::empty()) == Seq::<char>::empty());
        assert(escape_py(t) =~= escape_char(c));
    } else {
        lemma_escape_prepend(c, s.drop_last());
        assert(t.drop_last() =~= seq![c] + s.drop_last());
        assert(t.last() == s.last());
        assert(escape_py(t) =~= escape_char(c) + escape_py(s));
    }
}

proof fn lemma_unescape_escaped_char(c: char, rest: Seq<char>)
    ensures
        unescape_py(escape_char(c) + rest) == seq![c] + unescape_py(rest),
{
    let t = escape_char(c) + rest;
    if c == '\\' || c == '\'' {
        assert(t[0] == '\\' && t.len() >= 2);
        assert(t.subrange(2, t.len() as int) =~= rest);
    } else {
        assert(t.drop_first() =~= rest);
    }
}

/// Escaping loses nothing: the escaped body of a single-quoted Python string
/// reads back to exactly the text that was escaped, so strings inside rendered arrays
/// and objects stay unambiguous.
pub proof fn lemma_escape_roundtrip(s: Seq<char>)
    ensures
        unescape_py(escape_py(s)) == s,
    decreases s.len(),
{
    if s.len() > 0 {
        let c = s[0];
        let rest = s.drop_first();
        assert(s =~= seq![c] + rest);
        lemma_escape_prepend(c, rest);
        lemma_unescape_escaped_char(c, escape_py(rest));
        lemma_escape_roundtrip(rest);
    } else {
        assert(escape_py(s) == Seq::<char>::empty());
    }
}

/// The text of a JSON number, as JSON writes it.
pub open spec fn number_text(n: JsonNumber) -> Seq<char> {
    match n {
        JsonNumber::PosInt(u) => decimal(u as nat),
        JsonNumber::NegInt(i) => signed_decimal(i as int),
        JsonNumber::Float(t) => t@,
    }
}

/// The Python-like rendering of a JSON value. Strings are bare at the top level
/// and single-quoted (escaped) inside arrays and objects; arrays and objects
/// list their items separated by `, `.
pub open spec fn py_text(v: JsonValue, nested: bool) -> Seq<char>
    decreases v, 1int,
{
    match v {
        JsonValue::Null => "None"@,
        JsonValue::Bool(b) => if b { "True"@ } else { "False"@ },
        JsonValue::Number(n) => number_text(n),
        JsonValue::String(s) => if nested { seq!['\''] + escape_py(s@) + seq!['\''] } else { s@ },
        JsonValue::Array(items) => seq!['['] + py_items(items@) + seq![']'],
        JsonValue::Object(entries) => seq!['{'] + py_entries(entries@) + seq!['}'],
    }
}

/// The items of an array, rendered nested and separated by `, `.
pub open spec fn py_items(s: Seq<JsonValue>) -> Seq<char>
    decreases s, 0int,
{
    if s.len() == 0 {
        Seq::empty()
    } else {
        let init = s.subrange(0, s.len() - 1);
        py_items(init) + (if init.len() == 0 { Seq::empty() } else { ", "@ }) + py_text(s[s.len() - 1], true)
    }
}

/// The entries of an object, each `'key': value`, separated by `, `.
pub open spec fn py_entries(s: Seq<(String, JsonValue)>) -> Seq<char>
    decreases s, 0int,
{
    if s.len() == 0 {
        Seq::empty()
    } else {
        let init = s.subrange(0, s.len() - 1);
        py_entries(init) + (if init.len() == 0 { Seq::empty() } else { ", "@ })
            + seq!['\''] + escape_py(s[s.len() - 1].0@) + "': "@ + py_text(s[s.len() - 1].1, true)
    }
}

fn push_number(out: &mut Vec<char>, n: &JsonNumber)
    ensures
        final(out)@ == old(out)@ + number_text(*n),
{
    match n {
        JsonNumber::PosInt(u) => push_decimal(out, *u),
        JsonNumber::NegInt(i) => push_signed_decimal(out, *i),
        JsonNumber::Float(t) => push_str(out, t.as_str()),
    }
}

fn render(out: &mut Vec<char>, value: &JsonValue, nested: bool)
    ensures
        final(out)@ == old(out)@ + py_text(*value, nested),
    decreases value,
{
    match value {
        JsonValue::Null => push_str(out, "None"),
        JsonValue::Bool(b) => if *b { push_str(out, "True") } else { push_str(out, "False") },
        JsonValue::Number(n) => push_number(out, n),
        JsonValue::String(s) => {
            if nested {
                out.push('\'');
                push_escaped(out, s.as_str());
                out.push('\'');
                assert(final(out)@ =~= old(out)@ + py_text(*value, nested));
            } else {
                push_str(out, s.as_str());
            }
        },
        JsonValue::Array(items) => {
            out.push('[');
            let mut i: usize = 0;
            while i < items.len()
                invariant
                    i <= items.len(),
                    out@ == old(out)@ + seq!['['] + py_items(items@.subrange(0, i as int)),
                    *value == JsonValue::Array(*items),
                decreases items.len() - i,
            {
                let ghost before = out@;
                if i > 0 {
                    push_str(out, ", ");
                }
                proof {
                    assert(decreases_to!(*value => value->Array_0));
                    assert(decreases_to!(*items => items@));
                    assert(decreases_to!(items@ => items@[i as int]));
                }
                render(out, &items[i], true);
                proof {
                    let s1 = items@.subrange(0, i + 1);
                    assert(s1.subrange(0, s1.len() - 1) =~= items@.subrange(0, i as int));
                    assert(s1[s1.len() - 1] == items@[i as int]);
                }
                assert(out@ =~= old(out)@ + seq!['['] + py_items(items@.subrange(0, i + 1)));
                i += 1;
            }
            out.push(']');
            assert(items@.subrange(0, items.len() as int) =~= items@);
            assert(final(out)@ =~= old(out)@ + py_text(*value, nested));
        },
        JsonValue::Object(entries) => {
            out.push('{');
            let mut i: usize = 0;
            while i < entries.len()
                invariant
                    i <= entries.len(),
                    out@ == old(out)@ + seq!['{'] + py_entries(entries@.subrange(0, i as int)),
                    *value == JsonValue::Object(*entries),
                decreases entries.len() - i,
            {
                if i > 0 {
                    push_str(out, ", ");
                }
                let entry = &entries[i];
                out.push('\'');
                push_escaped(out, entry.0.as_str());
                push_str(out, "': ");
                proof {
                    assert(decreases_to!(*value => value->Object_0));
                    assert(decreases_to!(*entries => entries@));
                    assert(decreases_to!(entries@ => entries@[i as int]));
                    assert(decreases_to!(entries@[i as int] => entries@[i as int].1));
                }
                render(out, &entry.1, true);
                proof {
                    let s1 = entries@.subrange(0, i + 1);
                    assert(s1.subrange(0, s1.len() - 1) =~= entries@.subrange(0, i as int));
                    assert(s1[s1.len() - 1] == entries@[i as int]);
                }
                assert(out@ =~= old(out)@ + seq!['{'] + py_entries(entries@.subrange(0, i + 1)));
                i += 1;
            }
            out.push('}');
            assert(entries@.subrange(0, entries.len() as int) =~= entries@);
            assert(final(out)@ =~= old(out)@ + py_text(*value, nested));
        },
    }
}

/// Renders a JSON value the way Python's `str()` shows the matching Python
/// object (`None`, `True`, `['a', 'b']`, `{'key': 'val'}`); a top-level string
/// is returned bare.
pub fn python_like_text(value: &JsonValue) -> (r: String)
    ensures
        r@ == py_text(*value, false),
{
    let mut out: Vec<char> = Vec::new();
    render(&mut out, value, false);
    assert(out@ =~= py_text(*value, false));
    string_from_chars(&out)
}

/// The text that names an action in an error message: `None` when there is none,
/// else the action's Python-like rendering.
pub fn format_action_for_error(action: Option<&JsonValue>) -> (r: String)
    ensures
        r@ == match action {
            None => "None"@,
            Some(v) => py_text(*v, false),
        },
{
    match action {
        None => String::from_str("None"),
        Some(value) => python_like_text(value),
    }
}

/// The value stored under `key` in an object's entries (the first entry with
/// that key; an object holds each key once).
pub open spec fn obj_get(entries: Seq<(String, JsonValue)>, key: Seq<char>) -> Option<JsonValue>
    decreases entries.len(),
{
    if entries.len() == 0 {
        None
    } else if entries[0].0@ == key {
        Some(entries[0].1)
    } else {
        obj_get(entries.drop_first(), key)
    }
}

/// Looks `key` up in an object's entries.
pub fn object_get<'a>(entries: &'a Vec<(String, JsonValue)>, key: &str) -> (r: Option<&'a JsonValue>)
    ensures
        match r {
            Some(v) => obj_get(entries@, key@) == Some(*v),
            None => obj_get(entries@, key@) is None,
        },
{
    let mut i: usize = 0;
    assert(entries@.subrange(0, entries@.len() as int) =~= entries@);
    while i < entries.len()
        invariant
            i <= entries.len(),
            obj_get(entries@, key@) == obj_get(entries@.subrange(i as int, entries@.len() as int), key@),
        decreases entries.len() - i,
    {
        let ghost rest = entries@.subrange(i as int, entries@.len() as int);
        assert(rest[0] == entries@[i as int]);
        assert(rest.drop_first() =~= entries@.subrange(i + 1, entries@.len() as int));
        if str_equal(entries[i].0.as_str(), key) {
            return Some(&entries[i].1);
        }
        i += 1;
    }
    None
}

/// Looks `key` up when `value` is an object; `None` for every other kind of value.
pub open spec fn value_get(value: JsonValue, key: Seq<char>) -> Option<JsonValue> {
    match value {
        JsonValue::Object(entries) => obj_get(entries@, key),
        _ => None,
    }
}

/// Looks `key` up when `value` is an object.
pub fn value_get_field<'a>(value: &'a JsonValue, key: &str) -> (r: Option<&'a JsonValue>)
    ensures
        match r {
            Some(v) => value_get(*value, key@) == Some(*v),
            None => value_get(*value, key@) is None,
        },
{
    match value {
        JsonValue::Object(entries) => object_get(entries, key),
        _ => None,
    }
}

/// Whether `value` is the JSON string `text`.
pub open spec fn is_string_of(value: Option<JsonValue>, text: Seq<char>) -> bool {
    value matches Some(JsonValue::String(s)) && s@ == text
}

/// An object with no entries.
pub fn empty_object() -> (r: JsonValue)
    ensures
        r matches JsonValue::Object(e) && e@.len() == 0,
{
    JsonValue::Object(Vec::new())
}

/// The library's JSON value with the same shape as a serde_json value, variant
/// for variant (a number that is neither a `u64` nor an `i64` is held as its text).
#[verifier::external_body]
fn json_value_of(value: &Value) -> JsonValue {
    match value {
        Value::Null => JsonValue::Null,
        Value::Bool(b) => JsonValue::Bool(*b),
        Value::Number(n) => JsonValue::Number(match (n.as_u64(), n.as_i64()) {
            (Some(u), _) => JsonNumber::PosInt(u),
            (None, Some(i)) => JsonNumber::NegInt(i),
            (None, None) => JsonNumber::Float(n.to_string()),
        }),
        Value::String(s) => JsonValue::String(s.clone()),
        Value::Array(items) => JsonValue::Array(items.iter().map(json_value_of).collect()),
        Value::Object(es) => JsonValue::Object(es.iter().map(|(k, v)| (k.clone(), json_value_of(v))).collect()),
    }
}

/// What `serde_json::from_str::<serde_json::Value>` makes of `text`: the JSON
/// value it reads, or the text of the error it reports.
pub uninterp spec fn parsed_json(text: Seq<char>) -> Result<JsonValue, Seq<char>>;

/// Reads JSON text (`serde_json::from_str`). The value read, or the error's text,
/// is a function of the text alone; what it is for given text is left to
/// serde_json and not stated here.
#[verifier::external_body]
pub(crate) fn parse_json_text(text: &str) -> (r: Result<JsonValue, String>)
    ensures
        match (r, parsed_json(text@)) {
            (Ok(v), Ok(w)) => v == w,
            (Err(e), Err(f)) => e@ == f,
            _ => false,
        },
{
    match serde_json::from_str::<Value>(text) {
        Ok(v) => Ok(json_value_of(&v)),
        Err(e) => Err(e.to_string()),
    }
}

} // verus!
