//! JSON marshaling: serialising a task, and decoding a request body.
use vstd::prelude::*;
use vstd::string::StrSliceExecFns;

use crate::http::{body_of, extract_body};
use crate::num::{dec_i32, push_i32_decimal};
use crate::text::{chars_to_string, push_str_chars};
use crate::Task;

verus! {

/// Lower-case hexadecimal digit character.
pub open spec fn hex_digit(d: int) -> char {
    if d == 0 {
        '0'
    } else if d == 1 {
        '1'
    } else if d == 2 {
        '2'
    } else if d == 3 {
        '3'
    } else if d == 4 {
        '4'
    } else if d == 5 {
        '5'
    } else if d == 6 {
        '6'
    } else if d == 7 {
        '7'
    } else if d == 8 {
        '8'
    } else if d == 9 {
        '9'
    } else if d == 10 {
        'a'
    } else if d == 11 {
        'b'
    } else if d == 12 {
        'c'
    } else if d == 13 {
        'd'
    } else if d == 14 {
        'e'
    } else {
        'f'
    }
}

/// How one character appears inside a JSON string literal: quotes and
/// backslashes get a backslash escape, the named control characters their
/// short form, the remaining controls a `\u00..` form, everything else
/// stands as itself.
pub open spec fn escape_char(c: char) -> Seq<char> {
    if c == '"' {
        seq!['\\', '"']
    } else if c == '\\' {
        seq!['\\', '\\']
    } else if c == '\u{8}' {
        seq!['\\', 'b']
    } else if c == '\t' {
        seq!['\\', 't']
    } else if c == '\n' {
        seq!['\\', 'n']
    } else if c == '\u{c}' {
        seq!['\\', 'f']
    } else if c == '\r' {
        seq!['\\', 'r']
    } else if (c as u32) < 32 {
        seq!['\\', 'u', '0', '0', hex_digit(c as u32 as int / 16), hex_digit(c as u32 as int % 16)]
    } else {
        seq![c]
    }
}

/// A string as it appears between the quotes of a JSON string literal.
pub open spec fn escape_string(s: Seq<char>) -> Seq<char>
    decreases s.len(),
{
    if s.len() == 0 {
        Seq::empty()
    } else {
        escape_string(s.drop_last()) + escape_char(s.last())
    }
}

fn hex_digit_exec(d: u32) -> (c: char)
    requires
        d < 16,
    ensures
        c == hex_digit(d as int),
{
    if d == 0 {
        '0'
    } else if d == 1 {
        '1'
    } else if d == 2 {
        '2'
    } else if d == 3 {
        '3'
    } else if d == 4 {
        '4'
    } else if d == 5 {
        '5'
    } else if d == 6 {
        '6'
    } else if d == 7 {
        '7'
    } else if d == 8 {
        '8'
    } else if d == 9 {
        '9'
    } else if d == 10 {
        'a'
    } else if d == 11 {
        'b'
    } else if d == 12 {
        'c'
    } else if d == 13 {
        'd'
    } else if d == 14 {
        'e'
    } else {
        'f'
    }
}

/// Appends `s` to `out` in its JSON-escaped form.
pub fn push_escaped(out: &mut Vec<char>, s: &str)
    ensures
        final(out)@ == old(out)@ + escape_string(s@),
{
    let n = s.unicode_len();
    let mut i: usize = 0;
    while i < n
        invariant
            i <= n,
            n == s@.len(),
            out@ == old(out)@ + escape_string(s@.subrange(0, i as int)),
        decreases n - i,
    {
        let ghost done = out@;
        let c = s.get_char(i);
        if c == '"' {
            out.push('\\');
            out.push('"');
        } else if c == '\\' {
            out.push('\\');
            out.push('\\');
        } else if c == '\u{8}' {
            out.push('\\');
            out.push('b');
        } else if c == '\t' {
            out.push('\\');
            out.push('t');
        } else if c == '\n' {
            out.push('\\');
            out.push('n');
        } else if c == '\u{c}' {
            out.push('\\');
            out.push('f');
        } else if c == '\r' {
            out.push('\\');
            out.push('r');
        } else {
            let u = c as u32;
            if u < 32 {
                out.push('\\');
                out.push('u');
                out.push('0');
                out.push('0');
                out.push(hex_digit_exec(u / 16));
                out.push(hex_digit_exec(u % 16));
            } else {
                out.push(c);
            }
        }
        proof {
            assert(out@ =~= done + escape_char(s@[i as int]));
            let ext = s@.subrange(0, i + 1);
            assert(ext.drop_last() =~= s@.subrange(0, i as int));
            assert(ext.last() == s@[i as int]);
            assert(out@ =~= old(out)@ + escape_string(ext));
        }
        i += 1;
    }
    proof {
        assert(s@.subrange(0, n as int) =~= s@);
    }
}

/// The id member of a serialised task: its decimal value, or `null`.
pub open spec fn opt_id_json(id: Option<i32>) -> Seq<char> {
    match id {
        Some(v) => dec_i32(v as int),
        None => "null"@,
    }
}

/// The JSON object for one task, members in the order id, title, description.
pub open spec fn task_json(id: Option<i32>, title: Seq<char>, description: Seq<char>) -> Seq<
    char,
> {
    "{\"id\":"@ + opt_id_json(id) + ",\"title\":\""@ + escape_string(title)
        + "\",\"description\":\""@ + escape_string(description) + "\"}"@
}

/// Appends the JSON object for `t` to `out`.
pub fn push_task_json(out: &mut Vec<char>, t: &Task)
    ensures
        final(out)@ == old(out)@ + task_json(t.id, t.title@, t.description@),
{
    push_str_chars(out, "{\"id\":");
    match t.id {
        Some(v) => push_i32_decimal(out, v),
        None => push_str_chars(out, "null"),
    }
    push_str_chars(out, ",\"title\":\"");
    push_escaped(out, t.title.as_str());
    push_str_chars(out, "\",\"description\":\"");
    push_escaped(out, t.description.as_str());
    push_str_chars(out, "\"}");
    proof {
        assert(out@ =~= old(out)@ + task_json(t.id, t.title@, t.description@));
    }
}

/// Serialises one task as JSON.
pub fn task_to_json(t: &Task) -> (r: String)
    ensures
        r@ == task_json(t.id, t.title@, t.description@),
{
    let mut out: Vec<char> = Vec::new();
    push_task_json(&mut out, t);
    chars_to_string(&out)
}

/// The comma-separated JSON objects of a sequence of tasks.
pub open spec fn tasks_json_items(ts: Seq<Task>) -> Seq<char>
    decreases ts.len(),
{
    if ts.len() == 0 {
        Seq::empty()
    } else if ts.len() == 1 {
        task_json(ts[0].id, ts[0].title@, ts[0].description@)
    } else {
        tasks_json_items(ts.drop_last()) + seq![','] + task_json(
            ts.last().id,
            ts.last().title@,
            ts.last().description@,
        )
    }
}

/// The JSON array of a sequence of tasks.
pub open spec fn tasks_json(ts: Seq<Task>) -> Seq<char> {
    seq!['['] + tasks_json_items(ts) + seq![']']
}

/// Serialises a list of tasks as a JSON array; an empty list gives `[]`.
pub fn tasks_to_json(ts: &Vec<Task>) -> (r: String)
    ensures
        r@ == tasks_json(ts@),
{
    let mut out: Vec<char> = Vec::new();
    out.push('[');
    let n = ts.len();
    let mut i: usize = 0;
    while i < n
        invariant
            i <= n,
            n == ts@.len(),
            out@ == seq!['['] + tasks_json_items(ts@.subrange(0, i as int)),
        decreases n - i,
    {
        let ghost done = out@;
        if i > 0 {
            out.push(',');
        }
        push_task_json(&mut out, &ts[i]);
        proof {
            let ext = ts@.subrange(0, i + 1);
            assert(ext.drop_last() =~= ts@.subrange(0, i as int));
            assert(ext.last() == ts@[i as int]);
            if i == 0 {
                assert(out@ =~= seq!['['] + tasks_json_items(ext));
            } else {
                assert(out@ =~= seq!['['] + tasks_json_items(ext));
            }
        }
        i += 1;
    }
    out.push(']');
    proof {
        assert(ts@.subrange(0, n as int) =~= ts@);
        assert(out@ =~= tasks_json(ts@));
    }
    chars_to_string(&out)
}

/// What a request body yields as a task: `Some` of the title and description
/// strings exactly when the text is a JSON object whose members `title` and
/// `description` are both strings, and nothing otherwise.
pub uninterp spec fn task_fields_of(body: Seq<char>) -> Option<(Seq<char>, Seq<char>)>;

/// Relies on `serde_json::from_str::<Value>` together with `Value::get` and
/// `Value::as_str`: whether the text parses as a JSON object with string
/// members `title` and `description`, and what those strings hold, depends
/// on the text alone.
#[verifier::external_body]
fn parse_task_fields(body: &str) -> (r: Option<(String, String)>)
    ensures
        r matches Some(p) ==> task_fields_of(body@) == Some((p.0@, p.1@)),
        r is None ==> task_fields_of(body@) is None,
{
    let value: serde_json::Value = match serde_json::from_str(body) {
        Ok(v) => v,
        Err(_) => return None,
    };
    let title = match value.get("title").and_then(serde_json::Value::as_str) {
        Some(t) => t.to_owned(),
        None => return None,
    };
    let description = match value.get("description").and_then(serde_json::Value::as_str) {
        Some(d) => d.to_owned(),
        None => return None,
    };
    Some((title, description))
}

/// Decodes the body of `request` as a task; the id is never taken from the
/// body, a created task carries none.
pub fn get_task_request_body(request: &str) -> (r: Option<Task>)
    ensures
        r matches Some(t) ==> t.id is None && task_fields_of(body_of(request@)) == Some(
            (t.title@, t.description@),
        ),
        r is None ==> task_fields_of(body_of(request@)) is None,
{
    let body = extract_body(request);
    match parse_task_fields(body) {
        Some(p) => Some(Task { id: None, title: p.0, description: p.1 }),
        None => None,
    }
}

} // verus!
