use vstd::prelude::*;
use vstd::string::{StrSliceExecFns, StringExecFns};
use crate::json::Json;
use crate::numeral::{dec_rep_i64, i64_dec_string};

verus! {

/// The lower-case hex digit for `d` in `[0, 16)`.
pub open spec fn lower_hex_char(d: int) -> char {
    seq!['0', '1', '2', '3', '4', '5', '6', '7', '8', '9', 'a', 'b', 'c', 'd', 'e', 'f'][d]
}

/// How one character stands inside a rendered JSON string: `"` and `\` get
/// a backslash, the named control characters their short escapes, any other
/// control character a `\u00..` escape, and everything else stands for
/// itself.
pub open spec fn escaped_char(c: char) -> Seq<char> {
    if c == '"' {
        seq!['\\', '"']
    } else if c == '\\' {
        seq!['\\', '\\']
    } else if c == '\u{8}' {
        seq!['\\', 'b']
    } else if c == '\t' {
        seq!['\\', 't']
    } else if c == '\n' {
        seq!['\\', 'n']
    } else if c == '\u{c}' {
        seq!['\\', 'f']
    } else if c == '\r' {
        seq!['\\', 'r']
    } else if (c as u32) < 32 {
        seq![
            '\\',
            'u',
            '0',
            '0',
            lower_hex_char((c as u32) as int / 16),
            lower_hex_char((c as u32) as int % 16),
        ]
    } else {
        seq![c]
    }
}

/// A character sequence escaped character by character.
pub open spec fn escaped(s: Seq<char>) -> Seq<char>
    decreases s.len(),
{
    if s.len() == 0 {
        Seq::empty()
    } else {
        escaped_char(s[0]) + escaped(s.drop_first())
    }
}

/// A string as it stands in JSON: quoted, with its characters escaped.
pub open spec fn string_rendered(s: Seq<char>) -> Seq<char> {
    seq!['"'] + escaped(s) + seq!['"']
}

/// The JSON text of a value, written compactly: `null`, `true` or
/// `false`, a numeral, a quoted and escaped string, an array in square
/// brackets or an object in curly ones, items joined by commas.
pub open spec fn json_text(j: Json) -> Seq<char>
    decreases j, 0int,
{
    match j {
        Json::Null => "null"@,
        Json::Bool(b) => if b {
            "true"@
        } else {
            "false"@
        },
        Json::Int(i) => dec_rep_i64(i as int),
        Json::Num(t) => t@,
        Json::Str(s) => string_rendered(s@),
        Json::Arr(v) => "["@ + arr_items_text(v, 0) + "]"@,
        Json::Obj(f) => "{"@ + obj_items_text(f, 0) + "}"@,
    }
}

/// The texts of an array's items from the `i`th on, joined by commas.
pub open spec fn arr_items_text(v: Vec<Json>, i: int) -> Seq<char>
    decreases v, v@.len() - i,
{
    if i < 0 || i >= v@.len() {
        Seq::empty()
    } else if i == v@.len() - 1 {
        json_text(v[i])
    } else {
        json_text(v[i]) + ","@ + arr_items_text(v, i + 1)
    }
}

/// The texts of an object's fields from the `i`th on, each a quoted key,
/// a colon and the value's text, joined by commas.
pub open spec fn obj_items_text(f: Vec<(String, Json)>, i: int) -> Seq<char>
    decreases f, f@.len() - i,
{
    if i < 0 || i >= f@.len() {
        Seq::empty()
    } else if i == f@.len() - 1 {
        string_rendered(f[i].0@) + ":"@ + json_text(f[i].1)
    } else {
        string_rendered(f[i].0@) + ":"@ + json_text(f[i].1) + ","@ + obj_items_text(f, i + 1)
    }
}

/// The textual representation of a JSON value for the tooltip: a string
/// yields its own characters, unquoted; any other value yields its JSON
/// text.  Every value has a text; none is refused.
pub open spec fn rendered(j: Json) -> Seq<char> {
    match j {
        Json::Str(s) => s@,
        _ => json_text(j),
    }
}

proof fn lemma_escaped_push(s: Seq<char>, c: char)
    ensures
        escaped(s.push(c)) == escaped(s) + escaped_char(c),
    decreases s.len(),
{
    if s.len() == 0 {
        assert(s.push(c)[0] == c);
        assert(s.push(c).drop_first() =~= Seq::<char>::empty());
        assert(escaped(Seq::<char>::empty()) == Seq::<char>::empty());
        assert(escaped(s.push(c)) =~= escaped(s) + escaped_char(c));
    } else {
        assert(s.push(c)[0] == s[0]);
        assert(s.push(c).drop_first() =~= s.drop_first().push(c));
        lemma_escaped_push(s.drop_first(), c);
        assert(escaped(s.push(c)) =~= escaped(s) + escaped_char(c));
    }
}

/// Relies on `String::push`: it appends the one character at the end.
#[verifier::external_body]
fn push_char(s: &mut String, c: char)
    ensures
        final(s)@ == old(s)@ + seq![c],
{
    s.push(c);
}

fn lower_hex_str(d: u32) -> (r: &'static str)
    requires
        d < 16,
    ensures
        r@ == seq![lower_hex_char(d as int)],
{
    let r: &'static str = if d == 0 {
        "0"
    } else if d == 1 {
        "1"
    } else if d == 2 {
        "2"
    } else if d == 3 {
        "3"
    } else if d == 4 {
        "4"
    } else if d == 5 {
        "5"
    } else if d == 6 {
        "6"
    } else if d == 7 {
        "7"
    } else if d == 8 {
        "8"
    } else if d == 9 {
        "9"
    } else if d == 10 {
        "a"
    } else if d == 11 {
        "b"
    } else if d == 12 {
        "c"
    } else if d == 13 {
        "d"
    } else if d == 14 {
        "e"
    } else {
        "f"
    };
    proof {
        reveal_strlit("0");
        reveal_strlit("1");
        reveal_strlit("2");
        reveal_strlit("3");
        reveal_strlit("4");
        reveal_strlit("5");
        reveal_strlit("6");
        reveal_strlit("7");
        reveal_strlit("8");
        reveal_strlit("9");
        reveal_strlit("a");
        reveal_strlit("b");
        reveal_strlit("c");
        reveal_strlit("d");
        reveal_strlit("e");
        reveal_strlit("f");
        assert(r@ =~= seq![lower_hex_char(d as int)]);
    }
    r
}

fn push_escaped_char(out: &mut String, c: char)
    ensures
        final(out)@ == old(out)@ + escaped_char(c),
{
    if c == '"' {
        out.append("\\\"");
        proof {
            reveal_strlit("\\\"");
            assert(final(out)@ =~= old(out)@ + escaped_char(c));
        }
    } else if c == '\\' {
        out.append("\\\\");
        proof {
            reveal_strlit("\\\\");
            assert(final(out)@ =~= old(out)@ + escaped_char(c));
        }
    } else if c == '\u{8}' {
        out.append("\\b");
        proof {
            reveal_strlit("\\b");
            assert(final(out)@ =~= old(out)@ + escaped_char(c));
        }
    } else if c == '\t' {
        out.append("\\t");
        proof {
            reveal_strlit("\\t");
            assert(final(out)@ =~= old(out)@ + escaped_char(c));
        }
    } else if c == '\n' {
        out.append("\\n");
        proof {
            reveal_strlit("\\n");
            assert(final(out)@ =~= old(out)@ + escaped_char(c));
        }
    } else if c == '\u{c}' {
        out.append("\\f");
        proof {
            reveal_strlit("\\f");
            assert(final(out)@ =~= old(out)@ + escaped_char(c));
        }
    } else if c == '\r' {
        out.append("\\r");
        proof {
            reveal_strlit("\\r");
            assert(final(out)@ =~= old(out)@ + escaped_char(c));
        }
    } else if (c as u32) < 32 {
        out.append("\\u00");
        let d = c as u32;
        out.append(lower_hex_str(d / 16));
        out.append(lower_hex_str(d % 16));
        proof {
            reveal_strlit("\\u00");
            assert(final(out)@ =~= old(out)@ + escaped_char(c));
        }
    } else {
        push_char(out, c);
        proof {
            assert(final(out)@ =~= old(out)@ + escaped_char(c));
        }
    }
}

fn render_string(s: &str) -> (r: String)
    ensures
        r@ == string_rendered(s@),
{
    let mut out = String::from_str("\"");
    proof {
        reveal_strlit("\"");
    }
    let n = s.unicode_len();
    for i in 0..n
        invariant
            n == s@.len(),
            out@ == seq!['"'] + escaped(s@.take(i as int)),
    {
        let c = s.get_char(i);
        push_escaped_char(&mut out, c);
        proof {
            assert(s@.take(i as int).push(s@[i as int]) =~= s@.take(i as int + 1));
            lemma_escaped_push(s@.take(i as int), s@[i as int]);
            assert(out@ =~= seq!['"'] + escaped(s@.take(i as int + 1)));
        }
    }
    out.append("\"");
    proof {
        assert(s@.take(n as int) =~= s@);
        assert(out@ =~= string_rendered(s@));
    }
    out
}

fn push_json_text(out: &mut String, j: &Json)
    ensures
        final(out)@ == old(out)@ + json_text(*j),
    decreases *j, 0int,
{
    match j {
        Json::Null => {
            out.append("null");
        },
        Json::Bool(b) => {
            if *b {
                out.append("true");
            } else {
                out.append("false");
            }
        },
        Json::Int(i) => {
            let t = i64_dec_string(*i);
            out.append(t.as_str());
        },
        Json::Num(t) => {
            out.append(t.as_str());
        },
        Json::Str(s) => {
            let t = render_string(s.as_str());
            out.append(t.as_str());
        },
        Json::Arr(v) => {
            out.append("[");
            push_arr_items(out, v, 0);
            out.append("]");
            proof {
                assert(out@ =~= old(out)@ + json_text(*j));
            }
        },
        Json::Obj(f) => {
            out.append("{");
            push_obj_items(out, f, 0);
            out.append("}");
            proof {
                assert(out@ =~= old(out)@ + json_text(*j));
            }
        },
    }
}

fn push_arr_items(out: &mut String, v: &Vec<Json>, i: usize)
    requires
        i <= v@.len(),
    ensures
        final(out)@ == old(out)@ + arr_items_text(*v, i as int),
    decreases *v, v@.len() - i,
{
    if i < v.len() {
        push_json_text(out, &v[i]);
        if i + 1 < v.len() {
            out.append(",");
            push_arr_items(out, v, i + 1);
            proof {
                assert(out@ =~= old(out)@ + arr_items_text(*v, i as int));
            }
        }
    }
}

fn push_obj_items(out: &mut String, f: &Vec<(String, Json)>, i: usize)
    requires
        i <= f@.len(),
    ensures
        final(out)@ == old(out)@ + obj_items_text(*f, i as int),
    decreases *f, f@.len() - i,
{
    if i < f.len() {
        let pair = &f[i];
        let key = render_string(pair.0.as_str());
        out.append(key.as_str());
        out.append(":");
        push_json_text(out, &pair.1);
        if i + 1 < f.len() {
            out.append(",");
            push_obj_items(out, f, i + 1);
        }
        proof {
            assert(out@ =~= old(out)@ + obj_items_text(*f, i as int));
        }
    }
}

/// The text of one JSON value: the string itself where the value is a
/// string, its JSON text otherwise.
pub fn render_value(j: &Json) -> (r: String)
    ensures
        r@ == rendered(*j),
{
    match j {
        Json::Str(s) => s.clone(),
        _ => {
            let mut out = String::new();
            push_json_text(&mut out, j);
            out
        },
    }
}

} // verus!
