//! Rendering JSON documents to text.
//!
//! The rendering is a pure function of the document: the same value
//! always yields the same characters. That is what makes the describe
//! endpoint's responses byte-identical across calls.

use vstd::prelude::*;

use crate::json::{JsonData, JsonValue};

verus! {

broadcast use vstd::std_specs::vec::group_vec_axioms;

/// The lower-case hexadecimal digit for `n`.
pub open spec fn spec_hex_digit(n: int) -> char {
    if n == 0 {
        '0'
    } else if n == 1 {
        '1'
    } else if n == 2 {
        '2'
    } else if n == 3 {
        '3'
    } else if n == 4 {
        '4'
    } else if n == 5 {
        '5'
    } else if n == 6 {
        '6'
    } else if n == 7 {
        '7'
    } else if n == 8 {
        '8'
    } else if n == 9 {
        '9'
    } else if n == 10 {
        'a'
    } else if n == 11 {
        'b'
    } else if n == 12 {
        'c'
    } else if n == 13 {
        'd'
    } else if n == 14 {
        'e'
    } else {
        'f'
    }
}

/// How one character appears inside a JSON string literal: quote and
/// backslash are escaped, control characters take the `\u00XX` form,
/// everything else stands as itself.
pub open spec fn spec_escape_char(c: char) -> Seq<char> {
    if c == '"' {
        seq!['\\', '"']
    } else if c == '\\' {
        seq!['\\', '\\']
    } else if (c as int) < 32 {
        seq!['\\', 'u', '0', '0', spec_hex_digit((c as int) / 16), spec_hex_digit((c as int) % 16)]
    } else {
        seq![c]
    }
}

/// The escaped form of the first `i` characters of `s`.
pub open spec fn spec_escaped_prefix(s: Seq<char>, i: int) -> Seq<char>
    decreases i,
{
    if i <= 0 {
        Seq::empty()
    } else {
        spec_escaped_prefix(s, i - 1) + spec_escape_char(s[i - 1])
    }
}

/// A whole JSON string literal: quotes around the escaped content.
pub open spec fn spec_string_text(s: Seq<char>) -> Seq<char> {
    seq!['"'] + spec_escaped_prefix(s, s.len() as int) + seq!['"']
}

/// Whether the document can be rendered: it holds no number, since the
/// model keeps no numeric content to render.
pub open spec fn spec_writable(v: JsonData) -> bool
    decreases v,
{
    match v {
        JsonData::Null => true,
        JsonData::Bool(b) => true,
        JsonData::Number => false,
        JsonData::Str(s) => true,
        JsonData::Arr(items) => forall|k: int|
            0 <= k < items.len() ==> spec_writable(#[trigger] items[k]),
        JsonData::Obj(fields) => forall|k: int|
            0 <= k < fields.len() ==> spec_writable(#[trigger] fields[k].1),
    }
}

/// The text of the first `i` array elements, comma-separated.
pub open spec fn spec_arr_text_prefix(items: Seq<JsonData>, i: int) -> Seq<char>
    decreases items, i,
{
    if i <= 0 || i > items.len() {
        Seq::empty()
    } else {
        spec_arr_text_prefix(items, i - 1) + (if i - 1 > 0 {
            seq![',']
        } else {
            Seq::empty()
        }) + spec_json_text(items[i - 1])
    }
}

/// The text of the first `i` object fields, comma-separated, each a
/// string literal key, a colon, and the rendered value.
pub open spec fn spec_obj_text_prefix(fields: Seq<(Seq<char>, JsonData)>, i: int) -> Seq<char>
    decreases fields, i,
{
    if i <= 0 || i > fields.len() {
        Seq::empty()
    } else {
        spec_obj_text_prefix(fields, i - 1) + (if i - 1 > 0 {
            seq![',']
        } else {
            Seq::empty()
        }) + spec_string_text(fields[i - 1].0) + seq![':'] + spec_json_text(fields[i - 1].1)
    }
}

/// The rendered text of a document. A number has no rendering in this
/// model (`spec_writable` excludes it); the arm is never reached from
/// the renderer and its value is immaterial.
pub open spec fn spec_json_text(v: JsonData) -> Seq<char>
    decreases v,
{
    match v {
        JsonData::Null => "null"@,
        JsonData::Bool(b) => if b {
            "true"@
        } else {
            "false"@
        },
        JsonData::Number => "null"@,
        JsonData::Str(s) => spec_string_text(s),
        JsonData::Arr(items) => seq!['['] + spec_arr_text_prefix(items, items.len() as int)
            + seq![']'],
        JsonData::Obj(fields) => seq!['{'] + spec_obj_text_prefix(fields, fields.len() as int)
            + seq!['}'],
    }
}

/// Relies on `String::push`: appends the one character at the end.
#[verifier::external_body]
fn push_char(s: &mut String, c: char)
    ensures
        final(s)@ == old(s)@.push(c),
{
    s.push(c);
}

/// The lower-case hexadecimal digit for `n`.
fn hex_digit(n: u32) -> (r: char)
    requires
        n < 16,
    ensures
        r == spec_hex_digit(n as int),
{
    if n == 0 {
        '0'
    } else if n == 1 {
        '1'
    } else if n == 2 {
        '2'
    } else if n == 3 {
        '3'
    } else if n == 4 {
        '4'
    } else if n == 5 {
        '5'
    } else if n == 6 {
        '6'
    } else if n == 7 {
        '7'
    } else if n == 8 {
        '8'
    } else if n == 9 {
        '9'
    } else if n == 10 {
        'a'
    } else if n == 11 {
        'b'
    } else if n == 12 {
        'c'
    } else if n == 13 {
        'd'
    } else if n == 14 {
        'e'
    } else {
        'f'
    }
}

/// Appends the escaped form of `c` to `out`.
fn push_escaped(out: &mut String, c: char)
    ensures
        final(out)@ == old(out)@ + spec_escape_char(c),
{
    if c == '"' {
        push_char(out, '\\');
        push_char(out, '"');
        proof {
            assert(out@ =~= old(out)@ + spec_escape_char(c));
        }
    } else if c == '\\' {
        push_char(out, '\\');
        push_char(out, '\\');
        proof {
            assert(out@ =~= old(out)@ + spec_escape_char(c));
        }
    } else if (c as u32) < 32 {
        let code = c as u32;
        push_char(out, '\\');
        push_char(out, 'u');
        push_char(out, '0');
        push_char(out, '0');
        push_char(out, hex_digit(code / 16));
        push_char(out, hex_digit(code % 16));
        proof {
            assert(out@ =~= old(out)@ + spec_escape_char(c));
        }
    } else {
        push_char(out, c);
        proof {
            assert(out@ =~= old(out)@ + spec_escape_char(c));
        }
    }
}

/// Appends the JSON string literal for `s` to `out`.
fn push_string_text(out: &mut String, s: &str)
    ensures
        final(out)@ == old(out)@ + spec_string_text(s@),
{
    push_char(out, '"');
    let n = s.unicode_len();
    #[verifier::loop_isolation(false)]
    for i in 0..n
        invariant
            n == s@.len(),
            out@ == old(out)@ + seq!['"'] + spec_escaped_prefix(s@, i as int),
    {
        let c = s.get_char(i);
        push_escaped(out, c);
        proof {
            assert(out@ =~= old(out)@ + seq!['"'] + spec_escaped_prefix(s@, i + 1));
        }
    }
    push_char(out, '"');
    proof {
        assert(out@ =~= old(out)@ + spec_string_text(s@));
    }
}

/// Whether the document can be rendered: no number stands anywhere in
/// it.
pub fn is_writable(v: &JsonValue) -> (r: bool)
    ensures
        r == spec_writable(v@),
    decreases v,
{
    match v {
        JsonValue::Null => true,
        JsonValue::Bool(_) => true,
        JsonValue::Number => false,
        JsonValue::Str(_) => true,
        JsonValue::Arr(items) => {
            let ghost rs = v@->Arr_0;
            proof {
                assert(forall|k: int|
                    0 <= k < items@.len() ==> rs[k] == crate::json::view_of(#[trigger] items@[k]));
            }
            let n = items.len();
            let mut ok = true;
            #[verifier::loop_isolation(false)]
            for i in 0..n
                invariant
                    ok == (forall|k: int| 0 <= k < i ==> spec_writable(#[trigger] rs[k])),
            {
                let element_ok = is_writable(&items[i]);
                ok = ok && element_ok;
            }
            ok
        },
        JsonValue::Obj(fields) => {
            let ghost fs = crate::json::spec_obj_fields(v@);
            proof {
                assert(forall|k: int|
                    0 <= k < fields@.len() ==> fs[k] == (
                        (#[trigger] fields@[k]).0@,
                        crate::json::view_of(fields@[k].1),
                    ));
            }
            let n = fields.len();
            let mut ok = true;
            #[verifier::loop_isolation(false)]
            for i in 0..n
                invariant
                    ok == (forall|k: int| 0 <= k < i ==> spec_writable((#[trigger] fs[k]).1)),
            {
                let element_ok = is_writable(&fields[i].1);
                ok = ok && element_ok;
            }
            ok
        },
    }
}

/// Renders a document when it is writable; `None` exactly when a
/// number stands somewhere in it.
pub fn render_json(v: &JsonValue) -> (r: Option<String>)
    ensures
        match r {
            Some(s) => spec_writable(v@) && s@ == spec_json_text(v@),
            None => !spec_writable(v@),
        },
{
    if is_writable(v) {
        Some(to_json_text(v))
    } else {
        None
    }
}

/// Renders a document. The caller must hand a writable document: one
/// with no number in it.
#[verifier::rlimit(50)]
pub fn to_json_text(v: &JsonValue) -> (r: String)
    requires
        spec_writable(v@),
    ensures
        r@ == spec_json_text(v@),
    decreases v,
{
    match v {
        JsonValue::Null => String::from_str("null"),
        JsonValue::Bool(b) => if *b {
            String::from_str("true")
        } else {
            String::from_str("false")
        },
        JsonValue::Number => vstd::pervasive::unreached(),
        JsonValue::Str(s) => {
            let mut out = String::new();
            push_string_text(&mut out, s.as_str());
            proof {
                assert(out@ =~= spec_json_text(v@));
            }
            out
        },
        JsonValue::Arr(items) => {
            let ghost rs = v@->Arr_0;
            proof {
                assert(forall|k: int|
                    0 <= k < items@.len() ==> rs[k] == crate::json::view_of(#[trigger] items@[k]));
            }
            let mut out = String::from_str("[");
            proof {
                reveal_strlit("[");
                assert(out@ =~= seq!['['] + spec_arr_text_prefix(rs, 0));
            }
            let n = items.len();
            #[verifier::loop_isolation(false)]
            for i in 0..n
                invariant
                    n == items@.len(),
                    out@ == seq!['['] + spec_arr_text_prefix(rs, i as int),
            {
                if i > 0 {
                    push_char(&mut out, ',');
                }
                proof {
                    assert(spec_writable(rs[i as int]));
                    assert(rs[i as int] == crate::json::view_of(items@[i as int]));
                }
                let piece = to_json_text(&items[i]);
                out.append(piece.as_str());
                proof {
                    assert(out@ =~= seq!['['] + spec_arr_text_prefix(rs, i + 1));
                }
            }
            push_char(&mut out, ']');
            proof {
                assert(out@ =~= spec_json_text(v@));
            }
            out
        },
        JsonValue::Obj(fields) => {
            let ghost fs = crate::json::spec_obj_fields(v@);
            proof {
                assert(forall|k: int|
                    0 <= k < fields@.len() ==> fs[k] == (
                        (#[trigger] fields@[k]).0@,
                        crate::json::view_of(fields@[k].1),
                    ));
            }
            let mut out = String::from_str("{");
            proof {
                reveal_strlit("{");
                assert(out@ =~= seq!['{'] + spec_obj_text_prefix(fs, 0));
            }
            let n = fields.len();
            #[verifier::loop_isolation(false)]
            for i in 0..n
                invariant
                    n == fields@.len(),
                    out@ == seq!['{'] + spec_obj_text_prefix(fs, i as int),
            {
                if i > 0 {
                    push_char(&mut out, ',');
                }
                push_string_text(&mut out, fields[i].0.as_str());
                push_char(&mut out, ':');
                proof {
                    assert(spec_writable(fs[i as int].1));
                    assert(fs[i as int].1 == crate::json::view_of(fields@[i as int].1));
                }
                let piece = to_json_text(&fields[i].1);
                out.append(piece.as_str());
                proof {
                    assert(out@ =~= seq!['{'] + spec_obj_text_prefix(fs, i + 1));
                }
            }
            push_char(&mut out, '}');
            proof {
                assert(out@ =~= spec_json_text(v@));
            }
            out
        },
    }
}

} // verus!
