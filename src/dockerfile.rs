//! Discovery of a worker's entrypoint from its Dockerfile.
use vstd::prelude::*;

use crate::text::{push_char, same_text};

verus! {

/// White space as Unicode defines it (the `White_Space` property).
pub open spec fn is_space(c: char) -> bool {
    ('\t' <= c && c <= '\r') || c == ' ' || c == '\u{85}' || c == '\u{a0}' || c == '\u{1680}'
        || ('\u{2000}' <= c && c <= '\u{200a}') || c == '\u{2028}' || c == '\u{2029}' || c == '\u{202f}'
        || c == '\u{205f}' || c == '\u{3000}'
}

pub(crate) fn space(c: char) -> (r: bool)
    ensures
        r == is_space(c),
{
    ('\t' <= c && c <= '\r') || c == ' ' || c == '\u{85}' || c == '\u{a0}' || c == '\u{1680}'
        || ('\u{2000}' <= c && c <= '\u{200a}') || c == '\u{2028}' || c == '\u{2029}' || c == '\u{202f}'
        || c == '\u{205f}' || c == '\u{3000}'
}

/// The maximal runs of non-space characters of `s`, in order.
pub open spec fn words(s: Seq<char>) -> Seq<Seq<char>>
    decreases s.len(),
{
    if s.len() == 0 {
        Seq::empty()
    } else {
        let w = words(s.drop_last());
        let c = s.last();
        if is_space(c) {
            w
        } else if s.len() >= 2 && !is_space(s[s.len() - 2]) {
            w.update(w.len() - 1, w.last().push(c))
        } else {
            w.push(seq![c])
        }
    }
}

proof fn lemma_words_nonempty(s: Seq<char>)
    ensures
        s.len() > 0 && !is_space(s.last()) ==> words(s).len() > 0,
    decreases s.len(),
{
    if s.len() > 0 {
        lemma_words_nonempty(s.drop_last());
    }
}

pub open spec fn views(v: Seq<String>) -> Seq<Seq<char>> {
    v.map_values(|x: String| x@)
}

fn split_words(s: &str) -> (r: Vec<String>)
    ensures
        views(r@) == words(s@),
{
    let n = s.unicode_len();
    let mut out: Vec<String> = Vec::new();
    let mut cur = String::new();
    let mut in_word = false;
    let mut i: usize = 0;
    while i < n
        invariant
            n == s@.len(),
            i <= n,
            in_word == (i > 0 && !is_space(s@[i - 1])),
            in_word ==> views(out@).push(cur@) == words(s@.subrange(0, i as int)),
            !in_word ==> views(out@) == words(s@.subrange(0, i as int)),
        decreases n - i,
    {
        let c = s.get_char(i);
        let ghost pre = s@.subrange(0, i + 1);
        assert(pre.drop_last() =~= s@.subrange(0, i as int));
        assert(pre.last() == c);
        if space(c) {
            if in_word {
                let w = cur;
                out.push(w);
                cur = String::new();
            }
            in_word = false;
            assert(views(out@) =~= words(pre));
        } else {
            if in_word {
                assert(pre[pre.len() - 2] == s@[i - 1]);
                proof { lemma_words_nonempty(s@.subrange(0, i as int)); }
                push_char(&mut cur, c);
                assert(views(out@).push(cur@) =~= words(pre));
            } else {
                proof {
                    if i > 0 {
                        assert(pre[pre.len() - 2] == s@[i - 1]);
                    }
                }
                cur = String::new();
                push_char(&mut cur, c);
                assert(views(out@).push(cur@) =~= words(pre));
            }
            in_word = true;
        }
        i = i + 1;
    }
    assert(s@.subrange(0, n as int) =~= s@);
    if in_word {
        out.push(cur);
    }
    out
}

/// Words joined by single spaces.
pub open spec fn joined(ws: Seq<Seq<char>>) -> Seq<char>
    decreases ws.len(),
{
    if ws.len() == 0 {
        Seq::empty()
    } else {
        joined(ws.drop_last()) + (if ws.len() > 1 { " "@ } else { Seq::empty() }) + ws.last()
    }
}

fn join_from(ws: &Vec<String>, from: usize) -> (r: String)
    requires
        from <= ws@.len(),
    ensures
        r@ == joined(views(ws@).subrange(from as int, ws@.len() as int)),
{
    let mut out = String::new();
    let mut i: usize = from;
    while i < ws.len()
        invariant
            from <= i <= ws@.len(),
            out@ == joined(views(ws@).subrange(from as int, i as int)),
        decreases ws@.len() - i,
    {
        let ghost pre = views(ws@).subrange(from as int, i + 1);
        assert(pre.drop_last() =~= views(ws@).subrange(from as int, i as int));
        if i > from {
            out.append(" ");
        }
        out.append(ws[i].as_str());
        assert(out@ =~= joined(pre));
        i = i + 1;
    }
    out
}

/// The quoting of an exec-form instruction: brackets, quotes and commas.
pub open spec fn is_quoting(c: char) -> bool {
    c == '[' || c == ']' || c == '\'' || c == '"' || c == ','
}

pub open spec fn unquoted(s: Seq<char>) -> Seq<char>
    decreases s.len(),
{
    if s.len() == 0 {
        Seq::empty()
    } else {
        unquoted(s.drop_last()) + if is_quoting(s.last()) { Seq::empty() } else { seq![s.last()] }
    }
}

fn strip_quoting(s: &str) -> (r: String)
    ensures
        r@ == unquoted(s@),
{
    let n = s.unicode_len();
    let mut out = String::new();
    let mut i: usize = 0;
    while i < n
        invariant
            n == s@.len(),
            i <= n,
            out@ == unquoted(s@.subrange(0, i as int)),
        decreases n - i,
    {
        let c = s.get_char(i);
        assert(s@.subrange(0, i + 1).drop_last() =~= s@.subrange(0, i as int));
        if !(c == '[' || c == ']' || c == '\'' || c == '"' || c == ',') {
            push_char(&mut out, c);
        }
        assert(out@ =~= unquoted(s@.subrange(0, i + 1)));
        i = i + 1;
    }
    assert(s@.subrange(0, n as int) =~= s@);
    out
}

/// The command an instruction line declares: an `ENTRYPOINT` always, a
/// `CMD` only on the last line and when no entrypoint came before.
pub open spec fn line_handler(line: Seq<char>, last: bool, entry: bool) -> Option<Seq<char>> {
    let ws = words(line);
    if ws.len() == 0 {
        None
    } else if ws[0] == "ENTRYPOINT"@ || (ws[0] == "CMD"@ && last && !entry) {
        Some(unquoted(joined(ws.subrange(1, ws.len() as int))))
    } else {
        None
    }
}

/// Reads one Dockerfile line; `Some(("handler", command))` where it
/// declares the command.
pub fn map_dockerfile_line(line: &str, last: bool, entry: bool) -> (r: Option<(String, String)>)
    ensures
        match line_handler(line@, last, entry) {
            Some(h) => r matches Some(p) && p.0@ == "handler"@ && p.1@ == h,
            None => r is None,
        },
{
    let ws = split_words(line);
    if ws.len() == 0 {
        return None;
    }
    proof {
        reveal_strlit("ENTRYPOINT");
        reveal_strlit("CMD");
    }
    let head = ws[0].as_str();
    assert(views(ws@)[0] == ws@[0]@);
    if same_text(head, "ENTRYPOINT") || (same_text(head, "CMD") && last && !entry) {
        let rest = join_from(&ws, 1);
        assert(views(ws@).subrange(1, ws@.len() as int) =~= words(line@).subrange(1, words(line@).len() as int));
        Some((String::from_str("handler"), strip_quoting(rest.as_str())))
    } else {
        None
    }
}

/// A declared command split into program and script: the first word, and
/// the others joined by spaces.
pub open spec fn program_and_script(h: Seq<char>) -> Option<(Seq<char>, Seq<char>)> {
    let ps = words(h);
    if ps.len() == 0 {
        None
    } else {
        Some((ps[0], joined(ps.subrange(1, ps.len() as int))))
    }
}

/// The state after reading the first `k` lines: whether an entrypoint was
/// seen, and the command found so far.
pub open spec fn discovered(lines: Seq<String>, k: int) -> (bool, Option<(Seq<char>, Seq<char>)>)
    decreases k,
{
    if k <= 0 {
        (false, None)
    } else {
        let (entry, found) = discovered(lines, k - 1);
        match line_handler(lines[k - 1]@, k == lines.len(), entry) {
            Some(h) => (true, match program_and_script(h) {
                Some(ps) => Some(ps),
                None => found,
            }),
            None => (entry, found),
        }
    }
}

/// The program and script a Dockerfile's lines declare, if any.
pub fn get_dockerfile_config(lines: &Vec<String>) -> (r: Option<(String, String)>)
    ensures
        match discovered(lines@, lines@.len() as int).1 {
            Some(ps) => r matches Some(p) && p.0@ == ps.0 && p.1@ == ps.1,
            None => r is None,
        },
{
    let mut entry = false;
    let mut found: Option<(String, String)> = None;
    let mut i: usize = 0;
    while i < lines.len()
        invariant
            i <= lines@.len(),
            entry == discovered(lines@, i as int).0,
            match discovered(lines@, i as int).1 {
                Some(ps) => found matches Some(p) && p.0@ == ps.0 && p.1@ == ps.1,
                None => found is None,
            },
        decreases lines@.len() - i,
    {
        let last = i + 1 == lines.len();
        match map_dockerfile_line(lines[i].as_str(), last, entry) {
            Some((_, value)) => {
                entry = true;
                let parts = split_words(value.as_str());
                if parts.len() > 0 {
                    assert(views(parts@)[0] == parts@[0]@);
                    found = Some((parts[0].clone(), join_from(&parts, 1)));
                }
            },
            None => {},
        }
        i = i + 1;
    }
    found
}

} // verus!
