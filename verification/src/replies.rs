//! The texts that tools answer with once the game mod has replied.

use vstd::prelude::*;
use crate::json::{obj_get, object_get, py_text, python_like_text, JsonNumber, JsonValue};
use crate::lifecycle::string_or;
use crate::models::{ErrorResponse, Response};
use crate::tools::ReplyStyle;
use serde_json::Value;
use crate::text::{chars_of, decimal, join, join_strings, push_chars, push_decimal, push_signed_decimal, push_str, signed_decimal, string_from_chars};

verus! {

#[verifier::external_type_specification]
#[verifier::external_body]
pub struct ExSerdeJsonValue(serde_json::Value);

/// The serde_json value with the same shape as `value`, variant for variant (a
/// number's text is read back as that JSON number).
#[verifier::external_body]
fn serde_value_of(value: &JsonValue) -> Value {
    match value {
        JsonValue::Null => Value::Null,
        JsonValue::Bool(b) => Value::Bool(*b),
        JsonValue::Number(JsonNumber::PosInt(u)) => Value::from(*u),
        JsonValue::Number(JsonNumber::NegInt(i)) => Value::from(*i),
        JsonValue::Number(JsonNumber::Float(t)) => serde_json::from_str(t).unwrap_or(Value::Null),
        JsonValue::String(s) => Value::String(s.clone()),
        JsonValue::Array(items) => Value::Array(items.iter().map(serde_value_of).collect()),
        JsonValue::Object(entries) => {
            Value::Object(entries.iter().map(|(k, v)| (k.clone(), serde_value_of(v))).collect())
        },
    }
}

/// What `serde_json::to_string_pretty` gives for a JSON value: its indented JSON
/// text, or `None` when serialising fails.
pub uninterp spec fn pretty_json(value: JsonValue) -> Option<Seq<char>>;

/// Pretty-prints a JSON value (`serde_json::to_string_pretty`). The text is a
/// function of the value alone; what that text is, character for character, is
/// left to serde_json and not stated here.
#[verifier::external_body]
fn pretty_json_string(value: &JsonValue) -> (r: Option<String>)
    ensures
        match (r, pretty_json(*value)) {
            (Some(t), Some(u)) => t@ == u,
            (None, None) => true,
            _ => false,
        },
{
    match serde_json::to_string_pretty(&serde_value_of(value)) {
        Ok(text) => Some(text),
        Err(_) => None,
    }
}

/// The answer when a reply cannot be shown.
pub open spec fn internal_error_text() -> Seq<char> {
    "An internal error occurred while processing your request."@
}

/// The answer when the mod reports an error.
pub open spec fn error_reply_text(e: ErrorResponse) -> Seq<char> {
    "Error: "@ + e.message@ + " (code: "@ + signed_decimal(e.code as int) + ")"@
}

/// Builds the answer when the mod reports an error: its message and code.
pub fn error_reply(error: &ErrorResponse) -> (r: String)
    ensures
        r@ == error_reply_text(*error),
{
    let mut m: Vec<char> = Vec::new();
    push_str(&mut m, "Error: ");
    push_str(&mut m, error.message.as_str());
    push_str(&mut m, " (code: ");
    push_signed_decimal(&mut m, error.code as i64);
    push_str(&mut m, ")");
    string_from_chars(&m)
}

/// The items of `v` when it is an array; none otherwise.
pub open spec fn array_items(v: Option<JsonValue>) -> Seq<JsonValue> {
    match v {
        Some(JsonValue::Array(items)) => items@,
        _ => Seq::empty(),
    }
}

/// `v` as a non-negative integer, or 0 when it is not one.
pub open spec fn u64_or_zero(v: Option<JsonValue>) -> u64 {
    match v {
        Some(JsonValue::Number(JsonNumber::PosInt(n))) => n,
        _ => 0,
    }
}

/// One log line: `[number] [timestamp] content`, without the timestamp part when
/// there is no timestamp; `[?] ...` for a line that is not an object.
pub open spec fn log_line_text(line: JsonValue) -> Seq<char> {
    match line {
        JsonValue::Object(es) => {
            let number = match obj_get(es@, "line_number"@) { Some(v) => py_text(v, false), None => "?"@ };
            let timestamp = string_or(obj_get(es@, "timestamp"@), Seq::empty());
            let content = match obj_get(es@, "content"@) { Some(v) => py_text(v, false), None => Seq::empty() };
            if timestamp.len() == 0 {
                "["@ + number + "] "@ + content
            } else {
                "["@ + number + "] "@ + "["@ + timestamp + "] "@ + content
            }
        },
        _ => "[?] "@ + py_text(line, false),
    }
}

/// The lines of a log summary: an optional warning, the counts, the filters
/// applied (when any), then the log lines or a note that none matched.
pub open spec fn log_summary_lines(es: Seq<(String, JsonValue)>) -> Seq<Seq<char>> {
    let lines = array_items(obj_get(es, "lines"@));
    let filters = array_items(obj_get(es, "filters_applied"@));
    let warning = match obj_get(es, "warning"@) {
        Some(JsonValue::String(w)) => seq!["Warning: "@ + w@ + "\n"@],
        _ => Seq::empty(),
    };
    let summary = seq!["Log Summary: "@ + decimal(lines.len()) + " lines returned ("@
        + decimal(u64_or_zero(obj_get(es, "filtered_count"@)) as nat) + " after filters, "@
        + decimal(u64_or_zero(obj_get(es, "total_lines_in_file"@)) as nat) + " total)"@];
    let filter_line = if filters.len() > 0 {
        seq!["Filters: "@ + join(filters.map_values(|f: JsonValue| py_text(f, false)), ", "@)]
    } else {
        Seq::empty()
    };
    let body = if lines.len() == 0 {
        seq!["(No lines matched)"@]
    } else {
        seq!["\n--- Log Lines ---"@] + lines.map_values(|l: JsonValue| log_line_text(l))
    };
    warning + summary + filter_line + body
}

/// The answer to `capture_logs`: the summary lines joined by newlines, or the
/// result's Python-like text when it is not an object.
pub open spec fn logs_text(result: JsonValue) -> Seq<char> {
    match result {
        JsonValue::Object(es) => join(log_summary_lines(es@), "\n"@),
        _ => py_text(result, false),
    }
}

fn line_text(line: &JsonValue) -> (r: String)
    ensures
        r@ == log_line_text(*line),
{
    match line {
        JsonValue::Object(es) => {
            let ghost number = match obj_get(es@, "line_number"@) { Some(v) => py_text(v, false), None => "?"@ };
            let ghost content = match obj_get(es@, "content"@) { Some(v) => py_text(v, false), None => Seq::<char>::empty() };
            let ghost timestamp = string_or(obj_get(es@, "timestamp"@), Seq::empty());
            let mut m: Vec<char> = Vec::new();
            push_str(&mut m, "[");
            match object_get(es, "line_number") {
                Some(v) => {
                    let t = python_like_text(v);
                    push_str(&mut m, t.as_str());
                },
                None => push_str(&mut m, "?"),
            }
            push_str(&mut m, "] ");
            assert(m@ =~= "["@ + number + "] "@);
            let ts: Vec<char> = match object_get(es, "timestamp") {
                Some(JsonValue::String(t)) => chars_of(t.as_str()),
                _ => Vec::new(),
            };
            assert(ts@ == timestamp);
            if ts.len() > 0 {
                push_str(&mut m, "[");
                push_chars(&mut m, &ts);
                push_str(&mut m, "] ");
                assert(m@ =~= "["@ + number + "] "@ + "["@ + timestamp + "] "@);
            }
            let ghost mid = m@;
            match object_get(es, "content") {
                Some(v) => {
                    let t = python_like_text(v);
                    push_str(&mut m, t.as_str());
                },
                None => {},
            }
            assert(m@ =~= mid + content);
            assert(m@ =~= log_line_text(*line));
            string_from_chars(&m)
        },
        _ => {
            let mut m: Vec<char> = Vec::new();
            push_str(&mut m, "[?] ");
            let t = python_like_text(line);
            push_str(&mut m, t.as_str());
            string_from_chars(&m)
        },
    }
}

fn u64_field(v: Option<&JsonValue>) -> (r: u64)
    ensures
        r == u64_or_zero(match v { Some(x) => Some(*x), None => None }),
{
    match v {
        Some(JsonValue::Number(JsonNumber::PosInt(n))) => *n,
        _ => 0,
    }
}

fn summary_lines(es: &Vec<(String, JsonValue)>) -> (r: Vec<String>)
    ensures
        r@.map_values(|p: String| p@) == log_summary_lines(es@),
{
    let ghost g = es@;
    let mut parts: Vec<String> = Vec::new();
    let lines_v = object_get(es, "lines");
    let filters_v = object_get(es, "filters_applied");
    let empty: Vec<JsonValue> = Vec::new();
    let lines: &Vec<JsonValue> = match lines_v { Some(JsonValue::Array(items)) => items, _ => &empty };
    let filters: &Vec<JsonValue> = match filters_v { Some(JsonValue::Array(items)) => items, _ => &empty };
    assert(lines@ == array_items(obj_get(g, "lines"@)));
    assert(filters@ == array_items(obj_get(g, "filters_applied"@)));
    let ghost warning = match obj_get(g, "warning"@) {
        Some(JsonValue::String(w)) => seq!["Warning: "@ + w@ + "\n"@],
        _ => Seq::<Seq<char>>::empty(),
    };
    match object_get(es, "warning") {
        Some(JsonValue::String(w)) => {
            let mut m: Vec<char> = Vec::new();
            push_str(&mut m, "Warning: ");
            push_str(&mut m, w.as_str());
            push_str(&mut m, "\n");
            parts.push(string_from_chars(&m));
        },
        _ => {},
    }
    assert(parts@.map_values(|p: String| p@) =~= warning);
    let ghost summary_text = "Log Summary: "@ + decimal(lines@.len()) + " lines returned ("@
        + decimal(u64_or_zero(obj_get(g, "filtered_count"@)) as nat) + " after filters, "@
        + decimal(u64_or_zero(obj_get(g, "total_lines_in_file"@)) as nat) + " total)"@;
    let mut m: Vec<char> = Vec::new();
    push_str(&mut m, "Log Summary: ");
    push_decimal(&mut m, lines.len() as u64);
    push_str(&mut m, " lines returned (");
    push_decimal(&mut m, u64_field(object_get(es, "filtered_count")));
    push_str(&mut m, " after filters, ");
    push_decimal(&mut m, u64_field(object_get(es, "total_lines_in_file")));
    push_str(&mut m, " total)");
    assert(m@ =~= summary_text);
    parts.push(string_from_chars(&m));
    assert(parts@.map_values(|p: String| p@) =~= warning + seq![summary_text]);
    let ghost filter_line = if filters@.len() > 0 {
        seq!["Filters: "@ + join(filters@.map_values(|f: JsonValue| py_text(f, false)), ", "@)]
    } else {
        Seq::<Seq<char>>::empty()
    };
    if filters.len() > 0 {
        let mut texts: Vec<String> = Vec::new();
        let mut i: usize = 0;
        while i < filters.len()
            invariant
                i <= filters.len(),
                texts@.len() == i,
                forall|k: int| 0 <= k < i ==> #[trigger] texts@[k]@ == py_text(filters@[k], false),
            decreases filters.len() - i,
        {
            texts.push(python_like_text(&filters[i]));
            i += 1;
        }
        assert(texts@.map_values(|p: String| p@) =~= filters@.map_values(|f: JsonValue| py_text(f, false)));
        let joined = join_strings(&texts, ", ");
        let mut f: Vec<char> = Vec::new();
        push_str(&mut f, "Filters: ");
        push_str(&mut f, joined.as_str());
        parts.push(string_from_chars(&f));
    }
    let ghost head = warning + seq![summary_text] + filter_line;
    assert(parts@.map_values(|p: String| p@) =~= head);
    if lines.len() == 0 {
        parts.push(String::from_str("(No lines matched)"));
        assert(parts@.map_values(|p: String| p@) =~= head + seq!["(No lines matched)"@]);
    } else {
        parts.push(String::from_str("\n--- Log Lines ---"));
        let ghost head2 = head + seq!["\n--- Log Lines ---"@];
        assert(parts@.map_values(|p: String| p@) =~= head2);
        let mut i: usize = 0;
        while i < lines.len()
            invariant
                i <= lines.len(),
                parts@.map_values(|p: String| p@) == head2 + lines@.subrange(0, i as int).map_values(|l: JsonValue| log_line_text(l)),
            decreases lines.len() - i,
        {
            let ghost before = parts@;
            let t = line_text(&lines[i]);
            parts.push(t);
            assert(parts@.map_values(|p: String| p@) =~= before.map_values(|p: String| p@).push(log_line_text(lines@[i as int])));
            assert(lines@.subrange(0, i + 1).map_values(|l: JsonValue| log_line_text(l))
                =~= lines@.subrange(0, i as int).map_values(|l: JsonValue| log_line_text(l)).push(log_line_text(lines@[i as int])));
            i += 1;
        }
        assert(lines@.subrange(0, lines.len() as int) =~= lines@);
    }
    assert(parts@.map_values(|p: String| p@) =~= log_summary_lines(g));
    parts
}

/// Formats the result of `capture_logs` (see `logs_text`).
pub fn format_logs(result: &JsonValue) -> (r: String)
    ensures
        r@ == logs_text(*result),
{
    match result {
        JsonValue::Object(es) => {
            let parts = summary_lines(es);
            join_strings(&parts, "\n")
        },
        _ => python_like_text(result),
    }
}

/// The answer to `list_saves`: when the result is an object listing `saves`,
/// the count (its Python-like text, `0` when absent) before the pretty result;
/// otherwise the pretty result alone.
pub open spec fn saves_text(result: JsonValue, pretty: Seq<char>) -> Seq<char> {
    match result {
        JsonValue::Object(es) => if obj_get(es@, "saves"@) is Some {
            "Found "@ + match obj_get(es@, "count"@) { Some(c) => py_text(c, false), None => "0"@ }
                + " save(s):\n\n"@ + pretty
        } else {
            pretty
        },
        _ => pretty,
    }
}

/// Builds the answer to `list_saves` from the result and its pretty-printed text.
pub fn saves_reply(result: &JsonValue, pretty: &str) -> (r: String)
    ensures
        r@ == saves_text(*result, pretty@),
{
    match result {
        JsonValue::Object(es) => {
            if object_get(es, "saves").is_some() {
                let mut m: Vec<char> = Vec::new();
                push_str(&mut m, "Found ");
                match object_get(es, "count") {
                    Some(c) => {
                        let t = python_like_text(c);
                        push_str(&mut m, t.as_str());
                    },
                    None => push_str(&mut m, "0"),
                }
                push_str(&mut m, " save(s):\n\n");
                push_str(&mut m, pretty);
                assert(m@ =~= saves_text(*result, pretty@));
                string_from_chars(&m)
            } else {
                String::from_str(pretty)
            }
        },
        _ => String::from_str(pretty),
    }
}

/// The answer to `load_save` when the result is an object: a check mark, the
/// message, and a note when the game returned to the menu first.
pub open spec fn load_save_text(result: JsonValue) -> Option<Seq<char>> {
    match result {
        JsonValue::Object(es) => Some("\u{2713} "@ + string_or(obj_get(es@, "message"@), Seq::empty())
            + (if obj_get(es@, "returned_to_menu"@) == Some(JsonValue::Bool(true)) {
                "\n  Note: Returned to menu first."@
            } else {
                Seq::empty()
            })),
        _ => None,
    }
}

/// Builds the answer to `load_save`; `None` when the result is not an object (it
/// is then shown pretty-printed).
pub fn load_save_reply(result: &JsonValue) -> (r: Option<String>)
    ensures
        match (r, load_save_text(*result)) {
            (Some(t), Some(u)) => t@ == u,
            (None, None) => true,
            _ => false,
        },
{
    match result {
        JsonValue::Object(es) => {
            let mut m: Vec<char> = Vec::new();
            push_str(&mut m, "\u{2713} ");
            match object_get(es, "message") {
                Some(JsonValue::String(s)) => push_str(&mut m, s.as_str()),
                _ => {},
            }
            match object_get(es, "returned_to_menu") {
                Some(JsonValue::Bool(true)) => push_str(&mut m, "\n  Note: Returned to menu first."),
                _ => {},
            }
            assert(m@ =~= load_save_text(*result).unwrap());
            Some(string_from_chars(&m))
        },
        _ => None,
    }
}

/// The answer to a completed call of the mod: the mod's error if it reports
/// one; otherwise its result (null when absent) shown as `style` says, with the
/// pretty-printed JSON where the style calls for it and the internal-error text
/// when that cannot be made.
pub open spec fn call_reply_text(response: Response, style: ReplyStyle) -> Seq<char> {
    match response.error {
        Some(e) => error_reply_text(e),
        None => {
            let result = match response.result { Some(r) => r, None => JsonValue::Null };
            let shown = match pretty_json(result) { Some(p) => p, None => internal_error_text() };
            match style {
                ReplyStyle::Pretty => shown,
                ReplyStyle::Logs => logs_text(result),
                ReplyStyle::Saves => match pretty_json(result) {
                    Some(p) => saves_text(result, p),
                    None => internal_error_text(),
                },
                ReplyStyle::LoadSave => match load_save_text(result) {
                    Some(t) => t,
                    None => shown,
                },
            }
        },
    }
}

fn shown_json(value: &JsonValue) -> (r: String)
    ensures
        r@ == match pretty_json(*value) { Some(p) => p, None => internal_error_text() },
{
    match pretty_json_string(value) {
        Some(text) => text,
        None => String::from_str("An internal error occurred while processing your request."),
    }
}

/// Builds the answer to a completed call of the mod (see `call_reply_text`).
pub fn call_reply(response: Response, style: ReplyStyle) -> (r: String)
    ensures
        r@ == call_reply_text(response, style),
{
    let ghost g = response;
    match response.error {
        Some(e) => error_reply(&e),
        None => {
            let result = match response.result {
                Some(r) => r,
                None => JsonValue::Null,
            };
            match style {
                ReplyStyle::Pretty => shown_json(&result),
                ReplyStyle::Logs => format_logs(&result),
                ReplyStyle::Saves => match pretty_json_string(&result) {
                    Some(text) => saves_reply(&result, text.as_str()),
                    None => String::from_str("An internal error occurred while processing your request."),
                },
                ReplyStyle::LoadSave => match load_save_reply(&result) {
                    Some(text) => text,
                    None => shown_json(&result),
                },
            }
        },
    }
}

} // verus!
