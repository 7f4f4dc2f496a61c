//! JSON text of a parameter list and of the launch request's body. Each
//! key and value is quoted by serde_json; the objects around them are
//! framed here.
use vstd::prelude::*;
use crate::params::pairs_view;
use crate::text::{join_with, joined, strings_view};

verus! {

#[verifier::external_type_specification]
#[verifier::external_body]
pub struct ExJsonError(serde_json::Error);

/// The lower-case hexadecimal digit of `d`, for `d` below sixteen.
pub open spec fn hex_digit(d: nat) -> char {
    if d < 10 {
        crate::outcome::digit_char(d)
    } else if d == 10 {
        'a'
    } else if d == 11 {
        'b'
    } else if d == 12 {
        'c'
    } else if d == 13 {
        'd'
    } else if d == 14 {
        'e'
    } else {
        'f'
    }
}

/// How a character stands inside a JSON string literal: quote and
/// backslash behind a backslash, the control characters that have a short
/// escape as that escape, the other control characters as `\u00` and two
/// hex digits, every other character as itself.
pub open spec fn json_escaped_char(c: char) -> Seq<char> {
    if c == '"' {
        seq!['\\', '"']
    } else if c == '\\' {
        seq!['\\', '\\']
    } else if c == '\u{8}' {
        seq!['\\', 'b']
    } else if c == '\t' {
        seq!['\\', 't']
    } else if c == '\n' {
        seq!['\\', 'n']
    } else if c == '\u{c}' {
        seq!['\\', 'f']
    } else if c == '\r' {
        seq!['\\', 'r']
    } else if (c as nat) < 32 {
        seq!['\\', 'u', '0', '0', hex_digit((c as nat) / 16), hex_digit((c as nat) % 16)]
    } else {
        seq![c]
    }
}

/// The characters of `s`, each escaped.
pub open spec fn json_escaped(s: Seq<char>) -> Seq<char>
    decreases s.len(),
{
    if s.len() == 0 {
        Seq::empty()
    } else {
        json_escaped(s.drop_last()) + json_escaped_char(s.last())
    }
}

/// The JSON string literal of `s`: its escaped characters between quotes.
pub open spec fn json_string_literal(s: Seq<char>) -> Seq<char> {
    seq!['"'] + json_escaped(s) + seq!['"']
}

/// Relies on serde_json::to_string, applied to a `str`: the string literal
/// with serde_json's escapes. It writes into a buffer of its own, so a
/// string gives no error.
#[verifier::external_body]
fn quote_json(s: &str) -> (r: Result<String, serde_json::Error>)
    ensures
        r is Ok,
        r matches Ok(q) ==> q@ == json_string_literal(s@),
{
    serde_json::to_string(s)
}

/// Each key and value of the list, quoted.
pub open spec fn quoted_pairs(p: Seq<(Seq<char>, Seq<char>)>) -> Seq<(Seq<char>, Seq<char>)> {
    p.map_values(
        |e: (Seq<char>, Seq<char>)| (json_string_literal(e.0), json_string_literal(e.1)),
    )
}

/// A compact object member: key, colon, value.
pub open spec fn compact_member(e: (Seq<char>, Seq<char>)) -> Seq<char> {
    e.0 + ":"@ + e.1
}

/// A member of a pretty object at the top level: two spaces, key, colon
/// and space, value.
pub open spec fn pretty_member(e: (Seq<char>, Seq<char>)) -> Seq<char> {
    "  "@ + e.0 + ": "@ + e.1
}

/// A compact JSON object of already quoted keys and values.
pub open spec fn compact_object(p: Seq<(Seq<char>, Seq<char>)>) -> Seq<char> {
    "{"@ + joined(p.map_values(|e: (Seq<char>, Seq<char>)| compact_member(e)), ","@) + "}"@
}

/// A JSON object of already quoted keys and values, one member per line,
/// indented by two spaces; an empty object is `{}`.
pub open spec fn pretty_object(p: Seq<(Seq<char>, Seq<char>)>) -> Seq<char> {
    if p.len() == 0 {
        "{}"@
    } else {
        "{\n"@ + joined(p.map_values(|e: (Seq<char>, Seq<char>)| pretty_member(e)), ",\n"@)
            + "\n}"@
    }
}

/// The request body: an object whose one member, `params`, is the
/// parameters' compact object.
pub open spec fn request_text(p: Seq<(Seq<char>, Seq<char>)>) -> Seq<char> {
    "{"@ + json_string_literal("params"@) + ":"@ + compact_object(quoted_pairs(p)) + "}"@
}

/// Quotes each key and value of the list.
pub fn quote_pairs(pairs: &Vec<(String, String)>) -> (r: Vec<(String, String)>)
    ensures
        pairs_view(r@) == quoted_pairs(pairs_view(pairs@)),
{
    let mut r: Vec<(String, String)> = Vec::new();
    let n = pairs.len();
    let mut i: usize = 0;
    while i < n
        invariant
            n == pairs@.len(),
            i <= n,
            pairs_view(r@) =~= quoted_pairs(pairs_view(pairs@.take(i as int))),
        decreases n - i,
    {
        let k = quote_json(pairs[i].0.as_str()).unwrap();
        let v = quote_json(pairs[i].1.as_str()).unwrap();
        let ghost before = r@;
        r.push((k, v));
        proof {
            assert(pairs@.take(i + 1) =~= pairs@.take(i as int).push(pairs@[i as int]));
            assert(pairs_view(pairs@.take(i + 1)) =~= pairs_view(pairs@.take(i as int)).push(
                (pairs@[i as int].0@, pairs@[i as int].1@),
            ));
            assert(pairs_view(r@) =~= pairs_view(before).push((k@, v@)));
        }
        i += 1;
    }
    assert(pairs@.take(n as int) =~= pairs@);
    r
}

/// Each member as text: indent, key, colon, value.
fn member_texts(quoted: &Vec<(String, String)>, indent: &str, colon: &str) -> (r: Vec<String>)
    ensures
        strings_view(r@) == pairs_view(quoted@).map_values(
            |e: (Seq<char>, Seq<char>)| indent@ + e.0 + colon@ + e.1,
        ),
{
    let ghost f = |e: (Seq<char>, Seq<char>)| indent@ + e.0 + colon@ + e.1;
    let mut r: Vec<String> = Vec::new();
    let n = quoted.len();
    let mut i: usize = 0;
    while i < n
        invariant
            n == quoted@.len(),
            i <= n,
            f == (|e: (Seq<char>, Seq<char>)| indent@ + e.0 + colon@ + e.1),
            strings_view(r@) =~= pairs_view(quoted@.take(i as int)).map_values(f),
        decreases n - i,
    {
        let mut m = String::from_str(indent);
        m.append(quoted[i].0.as_str());
        m.append(colon);
        m.append(quoted[i].1.as_str());
        let ghost before = r@;
        r.push(m);
        proof {
            assert(quoted@.take(i + 1) =~= quoted@.take(i as int).push(quoted@[i as int]));
            assert(pairs_view(quoted@.take(i + 1)) =~= pairs_view(quoted@.take(i as int)).push(
                (quoted@[i as int].0@, quoted@[i as int].1@),
            ));
            assert(strings_view(r@) =~= strings_view(before).push(m@));
        }
        i += 1;
    }
    assert(quoted@.take(n as int) =~= quoted@);
    r
}

/// Frames already quoted keys and values as a compact JSON object.
pub fn frame_compact(quoted: &Vec<(String, String)>) -> (r: String)
    ensures
        r@ == compact_object(pairs_view(quoted@)),
{
    let members = member_texts(quoted, "", ":");
    let body = join_with(&members, ",");
    proof {
        reveal_strlit("");
        let p = pairs_view(quoted@);
        assert forall|j: int| 0 <= j < p.len() implies ""@ + p[j].0 + ":"@ + p[j].1
            == compact_member(p[j]) by {
            assert(""@ + p[j].0 =~= p[j].0);
        }
        assert(strings_view(members@) =~= p.map_values(
            |e: (Seq<char>, Seq<char>)| compact_member(e),
        ));
    }
    let mut r = String::from_str("{");
    r.append(body.as_str());
    r.append("}");
    r
}

/// Frames already quoted keys and values as a JSON object with one member
/// per line.
pub fn frame_pretty(quoted: &Vec<(String, String)>) -> (r: String)
    ensures
        r@ == pretty_object(pairs_view(quoted@)),
{
    if quoted.len() == 0 {
        return String::from_str("{}");
    }
    let members = member_texts(quoted, "  ", ": ");
    let body = join_with(&members, ",\n");
    proof {
        let p = pairs_view(quoted@);
        assert(strings_view(members@) =~= p.map_values(
            |e: (Seq<char>, Seq<char>)| pretty_member(e),
        ));
    }
    let mut r = String::from_str("{\n");
    r.append(body.as_str());
    r.append("\n}");
    r
}

/// Frames the request body around the quoted `params` key and the
/// parameters' object.
pub fn frame_request(quoted_key: &str, object: &str) -> (r: String)
    ensures
        r@ == "{"@ + quoted_key@ + ":"@ + object@ + "}"@,
{
    let mut r = String::from_str("{");
    r.append(quoted_key);
    r.append(":");
    r.append(object);
    r.append("}");
    r
}

/// The parameters as a JSON object with one member per line.
pub fn params_pretty(pairs: &Vec<(String, String)>) -> (r: String)
    ensures
        r@ == pretty_object(quoted_pairs(pairs_view(pairs@))),
{
    let quoted = quote_pairs(pairs);
    frame_pretty(&quoted)
}

/// The body of the launch request: `{"params":` and the parameters'
/// compact object, then `}`.
pub fn request_body(pairs: &Vec<(String, String)>) -> (r: String)
    ensures
        r@ == request_text(pairs_view(pairs@)),
{
    let quoted = quote_pairs(pairs);
    let key = quote_json("params").unwrap();
    let object = frame_compact(&quoted);
    frame_request(key.as_str(), object.as_str())
}

} // verus!
