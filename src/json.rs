//! Compact JSON text for the values that build digests cover, object keys
//! in sorted order; string literals are written by serde_json.
use vstd::prelude::*;

verus! {

pub open spec fn hex_digits() -> Seq<char> {
    "0123456789abcdef"@
}

/// The JSON escape of one character inside a string literal.
pub open spec fn escape_char(c: char) -> Seq<char> {
    if c == '"' {
        "\\\""@
    } else if c == '\\' {
        "\\\\"@
    } else if c == '\n' {
        "\\n"@
    } else if c == '\r' {
        "\\r"@
    } else if c == '\t' {
        "\\t"@
    } else if c == '\x08' {
        "\\b"@
    } else if c == '\x0c' {
        "\\f"@
    } else if (c as u32) < 0x20 {
        "\\u00"@ + seq![hex_digits()[(c as u32 / 16) as int], hex_digits()[(c as u32 % 16) as int]]
    } else {
        seq![c]
    }
}

pub open spec fn escaped(s: Seq<char>) -> Seq<char>
    decreases s.len(),
{
    if s.len() == 0 {
        Seq::empty()
    } else {
        escaped(s.drop_last()) + escape_char(s.last())
    }
}

/// A JSON string literal holding `s`.
pub open spec fn json_string(s: Seq<char>) -> Seq<char> {
    "\""@ + escaped(s) + "\""@
}

pub open spec fn json_opt_string(o: Option<Seq<char>>) -> Seq<char> {
    match o {
        Some(s) => json_string(s),
        None => "null"@,
    }
}

pub open spec fn json_bool(b: bool) -> Seq<char> {
    if b {
        "true"@
    } else {
        "false"@
    }
}

pub open spec fn json_opt_bool(o: Option<bool>) -> Seq<char> {
    match o {
        Some(b) => json_bool(b),
        None => "null"@,
    }
}

/// The elements of a JSON array of strings, comma separated.
pub open spec fn json_string_items(xs: Seq<Seq<char>>) -> Seq<char>
    decreases xs.len(),
{
    if xs.len() == 0 {
        Seq::empty()
    } else {
        json_string_items(xs.drop_last()) + (if xs.len() > 1 { ","@ } else { Seq::empty() })
            + json_string(xs.last())
    }
}

pub open spec fn json_string_array(xs: Seq<Seq<char>>) -> Seq<char> {
    "["@ + json_string_items(xs) + "]"@
}

pub open spec fn string_views(xs: Seq<String>) -> Seq<Seq<char>> {
    xs.map_values(|x: String| x@)
}

/// Relies on `serde_json::to_string` on a string: a quoted literal in which
/// `"`, `\\` and the control characters are escaped as `escape_char` says
/// (its escape table), every other character kept. It cannot fail on a
/// string.
#[verifier::external_body]
fn quoted(s: &str) -> (r: String)
    ensures
        r@ == json_string(s@),
{
    serde_json::to_string(s).unwrap_or_default()
}

/// Appends `s` as a JSON string literal.
pub fn write_string(out: &mut String, s: &str)
    ensures
        final(out)@ == old(out)@ + json_string(s@),
{
    let q = quoted(s);
    out.append(q.as_str());
}

pub fn write_opt_string(out: &mut String, o: &Option<String>)
    ensures
        final(out)@ == old(out)@ + json_opt_string(
            match o {
                Some(s) => Some(s@),
                None => None,
            },
        ),
{
    match o {
        Some(s) => write_string(out, s.as_str()),
        None => out.append("null"),
    }
}

pub fn write_opt_bool(out: &mut String, o: Option<bool>)
    ensures
        final(out)@ == old(out)@ + json_opt_bool(o),
{
    match o {
        Some(true) => out.append("true"),
        Some(false) => out.append("false"),
        None => out.append("null"),
    }
}

pub fn write_string_array(out: &mut String, xs: &Vec<String>)
    ensures
        final(out)@ == old(out)@ + json_string_array(string_views(xs@)),
{
    out.append("[");
    let ghost start = out@;
    let mut i: usize = 0;
    while i < xs.len()
        invariant
            i <= xs@.len(),
            start == old(out)@ + "["@,
            out@ == start + json_string_items(string_views(xs@.subrange(0, i as int))),
        decreases xs@.len() - i,
    {
        let ghost vs = string_views(xs@.subrange(0, i + 1));
        assert(vs.drop_last() =~= string_views(xs@.subrange(0, i as int)));
        if i > 0 {
            out.append(",");
        }
        write_string(out, xs[i].as_str());
        assert(out@ =~= start + json_string_items(vs));
        i = i + 1;
    }
    assert(xs@.subrange(0, xs@.len() as int) =~= xs@);
    out.append("]");
    assert(out@ =~= old(out)@ + json_string_array(string_views(xs@)));
}

} // verus!
