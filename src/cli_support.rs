//! Pure helpers behind the command line: short digests, shell quoting,
//! `KEY=VALUE` and mount arguments, and plugin installation checks.
use vstd::prelude::*;

use crate::text::{push_char, same_text, starts_with};

verus! {

/// The first `n` characters of `s`, or all of it where shorter.
pub open spec fn prefix_of(s: Seq<char>, n: nat) -> Seq<char> {
    if s.len() <= n { s } else { s.subrange(0, n as int) }
}

fn take_chars(s: &str, n: usize) -> (r: String)
    ensures
        r@ == prefix_of(s@, n as nat),
{
    let len = s.unicode_len();
    let end = if len < n { len } else { n };
    let mut out = String::new();
    let mut i: usize = 0;
    while i < end
        invariant
            len == s@.len(),
            end <= len,
            i <= end,
            out@ == s@.subrange(0, i as int),
        decreases end - i,
    {
        push_char(&mut out, s.get_char(i));
        assert(out@ =~= s@.subrange(0, i + 1));
        i = i + 1;
    }
    assert(s@.subrange(0, len as int) =~= s@);
    out
}

/// The first 12 characters of a digest, or `(none)` for an empty one.
pub fn short_hash(h: &str) -> (r: String)
    ensures
        r@ == if h@.len() == 0 { "(none)"@ } else { prefix_of(h@, 12) },
{
    if h.unicode_len() == 0 {
        String::from_str("(none)")
    } else {
        take_chars(h, 12)
    }
}

/// An image identifier without its `sha256:` scheme, cut to 12
/// characters; `<none>` where nothing is left.
pub fn short_image_id(image_id: &str) -> (r: String)
    ensures
        ({
            let p = "sha256:"@;
            let rest = if p.len() <= image_id@.len() && image_id@.subrange(0, p.len() as int) == p {
                image_id@.subrange(p.len() as int, image_id@.len() as int)
            } else {
                image_id@
            };
            r@ == if rest.len() == 0 { "<none>"@ } else { prefix_of(rest, 12) }
        }),
{
    proof {
        reveal_strlit("sha256:");
    }
    let rest = if starts_with(image_id, "sha256:") {
        crate::text::suffix_from(image_id, 7)
    } else {
        image_id.to_string()
    };
    if rest.as_str().unicode_len() == 0 {
        String::from_str("<none>")
    } else {
        take_chars(rest.as_str(), 12)
    }
}

/// Characters that a shell treats specially.
pub open spec fn is_shell_special(c: char) -> bool {
    " \t\n\"'\\$`!*?[]{}();<>&|"@.contains(c)
}

fn shell_special(c: char) -> (r: bool)
    ensures
        r == is_shell_special(c),
{
    let set = " \t\n\"'\\$`!*?[]{}();<>&|";
    proof {
        reveal_strlit(" \t\n\"'\\$`!*?[]{}();<>&|");
    }
    let n = set.unicode_len();
    let mut i: usize = 0;
    while i < n
        invariant
            n == set@.len(),
            set@ == " \t\n\"'\\$`!*?[]{}();<>&|"@,
            i <= n,
            forall|k: int| 0 <= k < i ==> set@[k] != c,
        decreases n - i,
    {
        if set.get_char(i) == c {
            assert(set@[i as int] == c);
            return true;
        }
        i = i + 1;
    }
    false
}

/// `s` with each single quote written as `'\''`.
pub open spec fn quote_escaped(s: Seq<char>) -> Seq<char>
    decreases s.len(),
{
    if s.len() == 0 {
        Seq::empty()
    } else {
        quote_escaped(s.drop_last()) + if s.last() == '\'' { "'\\''"@ } else { seq![s.last()] }
    }
}

/// `s` quoted for a POSIX shell where it holds a special character.
pub open spec fn shell_escaped(s: Seq<char>) -> Seq<char> {
    if exists|i: int| 0 <= i < s.len() && is_shell_special(#[trigger] s[i]) {
        "'"@ + quote_escaped(s) + "'"@
    } else {
        s
    }
}

/// Quotes `s` for a POSIX shell where it holds a special character.
pub fn shell_escape(s: &str) -> (r: String)
    ensures
        r@ == shell_escaped(s@),
{
    let n = s.unicode_len();
    let mut special = false;
    let mut out = String::new();
    let mut i: usize = 0;
    while i < n
        invariant
            n == s@.len(),
            i <= n,
            special <==> exists|k: int| 0 <= k < i && is_shell_special(#[trigger] s@[k]),
            out@ == quote_escaped(s@.subrange(0, i as int)),
        decreases n - i,
    {
        let c = s.get_char(i);
        assert(s@.subrange(0, i + 1).drop_last() =~= s@.subrange(0, i as int));
        if shell_special(c) {
            special = true;
        }
        if c == '\'' {
            out.append("'\\''");
        } else {
            push_char(&mut out, c);
        }
        assert(out@ =~= quote_escaped(s@.subrange(0, i + 1)));
        i = i + 1;
    }
    assert(s@.subrange(0, n as int) =~= s@);
    if special {
        let r = String::from_str("'").concat(out.as_str()).concat("'");
        r
    } else {
        s.to_string()
    }
}

/// The position of the first `c` in `s`.
pub open spec fn first_index(s: Seq<char>, c: char) -> Option<int>
    decreases s.len(),
{
    if s.len() == 0 {
        None
    } else {
        match first_index(s.drop_last(), c) {
            Some(i) => Some(i),
            None => if s.last() == c { Some(s.len() - 1) } else { None },
        }
    }
}

fn find_char(s: &str, c: char) -> (r: Option<usize>)
    ensures
        match r {
            Some(i) => first_index(s@, c) == Some(i as int),
            None => first_index(s@, c) is None,
        },
        r matches Some(i) ==> i < s@.len(),
{
    let n = s.unicode_len();
    let mut i: usize = 0;
    while i < n
        invariant
            n == s@.len(),
            i <= n,
            first_index(s@.subrange(0, i as int), c) is None,
        decreases n - i,
    {
        assert(s@.subrange(0, i + 1).drop_last() =~= s@.subrange(0, i as int));
        if s.get_char(i) == c {
            proof { lemma_first_index_prefix(s@, c, i as int + 1, i as int); }
            return Some(i);
        }
        i = i + 1;
    }
    assert(s@.subrange(0, n as int) =~= s@);
    None
}

proof fn lemma_first_index_prefix(s: Seq<char>, c: char, k: int, j: int)
    requires
        0 < k <= s.len(),
        first_index(s.subrange(0, k), c) == Some(j),
    ensures
        first_index(s, c) == Some(j),
    decreases s.len() - k,
{
    if k < s.len() {
        assert(s.subrange(0, k + 1).drop_last() =~= s.subrange(0, k));
        lemma_first_index_prefix(s, c, k + 1, j);
    } else {
        assert(s.subrange(0, k) =~= s);
    }
}

/// `s` cut at its first `=`: the key before, the value after.
pub open spec fn key_value(s: Seq<char>) -> Option<(Seq<char>, Seq<char>)> {
    match first_index(s, '=') {
        Some(i) => Some((s.subrange(0, i), s.subrange(i + 1, s.len() as int))),
        None => None,
    }
}

fn split_key_value(s: &str) -> (r: Option<(String, String)>)
    ensures
        match key_value(s@) {
            Some(kv) => r matches Some(p) && p.0@ == kv.0 && p.1@ == kv.1,
            None => r is None,
        },
{
    match find_char(s, '=') {
        Some(i) => {
            let _n = s.unicode_len();
            let key = take_chars(s, i);
            let value = crate::text::suffix_from(s, i + 1);
            Some((key, value))
        },
        None => None,
    }
}

pub open spec fn kv_views(s: Seq<(String, String)>) -> Seq<(Seq<char>, Seq<char>)> {
    s.map_values(|p: (String, String)| (p.0@, p.1@))
}

pub open spec fn parse_error_message(arg: Seq<char>) -> Seq<char> {
    "Invalid environment variable format: "@ + arg + ". Expected KEY=VALUE"@
}

/// Parses `KEY=VALUE` arguments (the value may hold further `=`), in order;
/// a later key overrides an earlier one. Fails on the first argument
/// without `=`.
pub fn parse_env_vars(env_args: &Vec<String>) -> (r: Result<Vec<(String, String)>, String>)
    ensures
        match r {
            Ok(v) => v@.len() == env_args@.len() && forall|i: int| 0 <= i < env_args@.len() ==>
                key_value(#[trigger] env_args@[i]@) == Some(kv_views(v@)[i]),
            Err(m) => exists|i: int| 0 <= i < env_args@.len() && key_value(#[trigger] env_args@[i]@) is None
                && m@ == parse_error_message(env_args@[i]@),
        },
{
    let mut out: Vec<(String, String)> = Vec::new();
    let mut i: usize = 0;
    while i < env_args.len()
        invariant
            i <= env_args@.len(),
            out@.len() == i,
            forall|k: int| 0 <= k < i ==> key_value(#[trigger] env_args@[k]@) == Some(kv_views(out@)[k]),
        decreases env_args@.len() - i,
    {
        match split_key_value(env_args[i].as_str()) {
            Some(p) => {
                out.push(p);
                assert(kv_views(out@)[i as int] == (out@[i as int].0@, out@[i as int].1@));
            },
            None => {
                return Err(String::from_str("Invalid environment variable format: ").concat(env_args[i].as_str()).concat(". Expected KEY=VALUE"));
            },
        }
        i = i + 1;
    }
    Ok(out)
}

/// Build arguments from `KEY=VALUE` texts; arguments without `=` are
/// skipped.
pub fn parse_build_args(args: &Vec<String>) -> (r: Vec<(String, String)>)
    ensures
        kv_views(r@) == build_args_spec(args@),
{
    let mut out: Vec<(String, String)> = Vec::new();
    let mut i: usize = 0;
    while i < args.len()
        invariant
            i <= args@.len(),
            kv_views(out@) == build_args_spec(args@.subrange(0, i as int)),
        decreases args@.len() - i,
    {
        assert(args@.subrange(0, i + 1).drop_last() =~= args@.subrange(0, i as int));
        let ghost before = out@;
        match split_key_value(args[i].as_str()) {
            Some(p) => {
                out.push(p);
                assert(kv_views(out@) =~= kv_views(before).push((out@[i as int - (i as int - before.len())].0@, out@[before.len() as int].1@)));
            },
            None => {},
        }
        assert(kv_views(out@) =~= build_args_spec(args@.subrange(0, i + 1)));
        i = i + 1;
    }
    assert(args@.subrange(0, args@.len() as int) =~= args@);
    out
}

pub open spec fn build_args_spec(args: Seq<String>) -> Seq<(Seq<char>, Seq<char>)>
    decreases args.len(),
{
    if args.len() == 0 {
        Seq::empty()
    } else {
        build_args_spec(args.drop_last()) + match key_value(args.last()@) {
            Some(kv) => seq![kv],
            None => Seq::empty(),
        }
    }
}

/// The names among `required` that are not in `present`.
pub open spec fn missing_spec(required: Seq<Seq<char>>, present: Seq<Seq<char>>) -> Seq<Seq<char>> {
    required.filter(|f: Seq<char>| !present.contains(f))
}

pub open spec fn views(s: Seq<String>) -> Seq<Seq<char>> {
    s.map_values(|x: String| x@)
}

fn contains_name(names: &Vec<String>, f: &str) -> (r: bool)
    ensures
        r == views(names@).contains(f@),
{
    let mut i: usize = 0;
    while i < names.len()
        invariant
            i <= names@.len(),
            forall|k: int| 0 <= k < i ==> names@[k]@ != f@,
        decreases names@.len() - i,
    {
        if same_text(names[i].as_str(), f) {
            assert(views(names@)[i as int] == f@);
            return true;
        }
        i = i + 1;
    }
    assert forall|k: int| 0 <= k < views(names@).len() implies views(names@)[k] != f@ by {
        assert(views(names@)[k] == names@[k]@);
    }
    false
}

/// The required files that a directory listing lacks.
pub fn missing_files(required: &Vec<String>, present: &Vec<String>) -> (r: Vec<String>)
    ensures
        views(r@) == missing_spec(views(required@), views(present@)),
{
    let mut out: Vec<String> = Vec::new();
    let mut i: usize = 0;
    while i < required.len()
        invariant
            i <= required@.len(),
            views(out@) == missing_spec(views(required@.subrange(0, i as int)), views(present@)),
        decreases required@.len() - i,
    {
        let ghost pre = views(required@.subrange(0, i + 1));
        assert(pre.drop_last() =~= views(required@.subrange(0, i as int)));
        assert(pre.last() == required@[i as int]@);
        let ghost before = out@;
        if !contains_name(present, required[i].as_str()) {
            out.push(required[i].clone());
            assert(views(out@) =~= views(before).push(required@[i as int]@));
        } else {
            assert(views(out@) =~= views(before));
        }
        proof {
            let f = |x: Seq<char>| !views(present@).contains(x);
            assert(pre.filter(f) == pre.drop_last().filter(f) + if f(pre.last()) { seq![pre.last()] } else { Seq::empty() }) by {
                reveal(Seq::filter);
                assert(pre.drop_last().filter(f) + (if f(pre.last()) { seq![pre.last()] } else { Seq::empty() }) =~= if f(pre.last()) { pre.drop_last().filter(f).push(pre.last()) } else { pre.drop_last().filter(f) });
            }
        }
        assert(views(out@) =~= missing_spec(pre, views(present@)));
        i = i + 1;
    }
    assert(required@.subrange(0, required@.len() as int) =~= required@);
    out
}

/// The pieces of `s` between occurrences of `c`.
pub open spec fn split_on(s: Seq<char>, c: char) -> Seq<Seq<char>>
    decreases s.len(),
{
    if s.len() == 0 {
        seq![Seq::<char>::empty()]
    } else {
        let r = split_on(s.drop_last(), c);
        if s.last() == c {
            r.push(Seq::<char>::empty())
        } else {
            r.update(r.len() - 1, r.last().push(s.last()))
        }
    }
}

proof fn lemma_split_nonempty(s: Seq<char>, c: char)
    ensures
        split_on(s, c).len() >= 1,
    decreases s.len(),
{
    if s.len() > 0 {
        lemma_split_nonempty(s.drop_last(), c);
    }
}

fn split_exec(s: &str, c: char) -> (r: Vec<String>)
    ensures
        views(r@) == split_on(s@, c),
{
    let n = s.unicode_len();
    let mut parts: Vec<String> = Vec::new();
    let mut cur = String::new();
    let mut i: usize = 0;
    while i < n
        invariant
            n == s@.len(),
            i <= n,
            views(parts@).push(cur@) == split_on(s@.subrange(0, i as int), c),
        decreases n - i,
    {
        let ch = s.get_char(i);
        let ghost pre = s@.subrange(0, i + 1);
        assert(pre.drop_last() =~= s@.subrange(0, i as int));
        proof { lemma_split_nonempty(s@.subrange(0, i as int), c); }
        if ch == c {
            let done = cur;
            parts.push(done);
            cur = String::new();
            assert(views(parts@).push(cur@) =~= split_on(pre, c));
        } else {
            let ghost old_parts = views(parts@);
            push_char(&mut cur, ch);
            assert(views(parts@).push(cur@) =~= split_on(pre, c));
        }
        i = i + 1;
    }
    assert(s@.subrange(0, n as int) =~= s@);
    parts.push(cur);
    assert(views(parts@) =~= split_on(s@, c));
    parts
}

/// A mount argument `host:container` or `host:container:ro`; the host path
/// is as given (relative paths are resolved by the caller).
pub open spec fn mount_arg(s: Seq<char>) -> Option<(Seq<char>, Seq<char>, bool)> {
    let p = split_on(s, ':');
    if p.len() == 2 {
        Some((p[0], p[1], false))
    } else if p.len() == 3 {
        Some((p[0], p[1], p[2] == "ro"@))
    } else {
        None
    }
}

pub open spec fn mount_message(arg: Seq<char>) -> Seq<char> {
    "Invalid mount format: "@ + arg + ". Expected host:container or host:container:ro"@
}

pub open spec fn mount_arg_views(s: Seq<(String, String, bool)>) -> Seq<(Seq<char>, Seq<char>, bool)> {
    s.map_values(|m: (String, String, bool)| (m.0@, m.1@, m.2))
}

/// Parses mount arguments, in order; fails on the first malformed one.
pub fn parse_mounts(mount_args: &Vec<String>) -> (r: Result<Vec<(String, String, bool)>, String>)
    ensures
        match r {
            Ok(v) => v@.len() == mount_args@.len() && forall|i: int| 0 <= i < mount_args@.len() ==>
                mount_arg(#[trigger] mount_args@[i]@) == Some(mount_arg_views(v@)[i]),
            Err(m) => exists|i: int| 0 <= i < mount_args@.len() && mount_arg(#[trigger] mount_args@[i]@) is None
                && m@ == mount_message(mount_args@[i]@),
        },
{
    let mut out: Vec<(String, String, bool)> = Vec::new();
    let mut i: usize = 0;
    while i < mount_args.len()
        invariant
            i <= mount_args@.len(),
            out@.len() == i,
            forall|k: int| 0 <= k < i ==> mount_arg(#[trigger] mount_args@[k]@) == Some(mount_arg_views(out@)[k]),
        decreases mount_args@.len() - i,
    {
        let parts = split_exec(mount_args[i].as_str(), ':');
        let ghost p = split_on(mount_args@[i as int]@, ':');
        assert(parts@.len() == p.len());
        if parts.len() == 2 {
            assert(parts@[0]@ == p[0] && parts@[1]@ == p[1]);
            out.push((parts[0].clone(), parts[1].clone(), false));
        } else if parts.len() == 3 {
            assert(parts@[0]@ == p[0] && parts@[1]@ == p[1] && parts@[2]@ == p[2]);
            proof { reveal_strlit("ro"); }
            let ro = same_text(parts[2].as_str(), "ro");
            out.push((parts[0].clone(), parts[1].clone(), ro));
        } else {
            return Err(String::from_str("Invalid mount format: ").concat(mount_args[i].as_str()).concat(". Expected host:container or host:container:ro"));
        }
        assert(mount_arg_views(out@)[i as int] == (out@[i as int].0@, out@[i as int].1@, out@[i as int].2));
        i = i + 1;
    }
    Ok(out)
}

/// Whether the ArcGIS toolbox directory, listed as `present`, holds the
/// plugin's files.
pub fn verify_arcgis_plugin_installed(present: &Vec<String>) -> (r: bool)
    ensures
        r == (views(present@).contains("GeoEngineTools.pyt"@) && views(present@).contains("geoengine_client.py"@)),
{
    contains_name(present, "GeoEngineTools.pyt") && contains_name(present, "geoengine_client.py")
}

/// Whether the QGIS plugin directory, listed as `present`, holds the
/// plugin's files.
pub fn verify_qgis_plugin_installed(present: &Vec<String>) -> (r: bool)
    ensures
        r == (views(present@).contains("__init__.py"@) && views(present@).contains("geoengine_plugin.py"@)
            && views(present@).contains("geoengine_provider.py"@) && views(present@).contains("metadata.txt"@)),
{
    contains_name(present, "__init__.py") && contains_name(present, "geoengine_plugin.py")
        && contains_name(present, "geoengine_provider.py") && contains_name(present, "metadata.txt")
}

/// The arguments, each shell-quoted, separated by single spaces.
pub open spec fn joined_escaped(args: Seq<Seq<char>>) -> Seq<char>
    decreases args.len(),
{
    if args.len() == 0 {
        Seq::empty()
    } else {
        joined_escaped(args.drop_last()) + (if args.len() > 1 { " "@ } else { Seq::empty() })
            + shell_escaped(args.last())
    }
}

/// The shell command that runs a worker's script with its arguments.
pub open spec fn command_text(program: Seq<char>, script: Seq<char>, args: Seq<Seq<char>>) -> Seq<char> {
    program + " "@ + script + if args.len() == 0 { Seq::empty() } else { " "@ + joined_escaped(args) }
}

/// The arguments shell-quoted and joined by single spaces.
pub fn join_escaped(args: &Vec<String>) -> (r: String)
    ensures
        r@ == joined_escaped(views(args@)),
{
    let mut out = String::new();
    let mut i: usize = 0;
    while i < args.len()
        invariant
            i <= args@.len(),
            out@ == joined_escaped(views(args@.subrange(0, i as int))),
        decreases args@.len() - i,
    {
        let ghost pre = views(args@.subrange(0, i + 1));
        assert(pre.drop_last() =~= views(args@.subrange(0, i as int)));
        assert(pre.last() == args@[i as int]@);
        if i > 0 {
            out.append(" ");
        }
        let e = shell_escape(args[i].as_str());
        out.append(e.as_str());
        assert(out@ =~= joined_escaped(pre));
        i = i + 1;
    }
    assert(args@.subrange(0, args@.len() as int) =~= args@);
    out
}

/// Builds the shell command line `program script args...`, each argument
/// quoted where the shell would otherwise read it.
pub fn command_line(program: &str, script: &str, args: &Vec<String>) -> (r: String)
    ensures
        r@ == command_text(program@, script@, views(args@)),
{
    let out = String::from_str(program).concat(" ").concat(script);
    if args.len() == 0 {
        assert(out@ =~= command_text(program@, script@, views(args@)));
        return out;
    }
    let joined = join_escaped(args);
    let r = out.concat(" ").concat(joined.as_str());
    assert(r@ =~= command_text(program@, script@, views(args@)));
    r
}

/// Which characters a trim removes.
#[derive(Clone, Copy, Debug, PartialEq, Eq, Structural)]
pub enum Trimmed {
    Space,
    DoubleQuote,
    SingleQuote,
}

pub open spec fn trims(t: Trimmed, c: char) -> bool {
    match t {
        Trimmed::Space => crate::dockerfile::is_space(c),
        Trimmed::DoubleQuote => c == '"',
        Trimmed::SingleQuote => c == '\'',
    }
}

/// `s` without the leading and trailing characters that `t` removes.
pub open spec fn trim_spec(s: Seq<char>, t: Trimmed) -> Seq<char>
    decreases s.len(),
{
    if s.len() > 0 && trims(t, s[0]) {
        trim_spec(s.drop_first(), t)
    } else if s.len() > 0 && trims(t, s.last()) {
        trim_spec(s.drop_last(), t)
    } else {
        s
    }
}

fn trims_exec(t: Trimmed, c: char) -> (r: bool)
    ensures
        r == trims(t, c),
{
    match t {
        Trimmed::Space => crate::dockerfile::space(c),
        Trimmed::DoubleQuote => c == '"',
        Trimmed::SingleQuote => c == '\'',
    }
}

fn trim(s: &str, t: Trimmed) -> (r: String)
    ensures
        r@ == trim_spec(s@, t),
{
    let n = s.unicode_len();
    let mut lo: usize = 0;
    let mut hi: usize = n;
    assert(s@.subrange(0, n as int) =~= s@);
    while lo < hi && trims_exec(t, s.get_char(lo))
        invariant
            n == s@.len(),
            lo <= hi <= n,
            hi == n,
            trim_spec(s@, t) == trim_spec(s@.subrange(lo as int, hi as int), t),
        decreases hi - lo,
    {
        assert(s@.subrange(lo as int, hi as int).drop_first() =~= s@.subrange(lo + 1, hi as int));
        lo = lo + 1;
    }
    while lo < hi && trims_exec(t, s.get_char(hi - 1))
        invariant
            n == s@.len(),
            lo <= hi <= n,
            lo < hi ==> !trims(t, s@[lo as int]),
            trim_spec(s@, t) == trim_spec(s@.subrange(lo as int, hi as int), t),
        decreases hi - lo,
    {
        let ghost w = s@.subrange(lo as int, hi as int);
        assert(w.drop_last() =~= s@.subrange(lo as int, hi - 1));
        if lo + 1 < hi {
            assert(w[0] == s@[lo as int]);
        } else {
            assert(w.len() == 1 && w[0] == w.last());
        }
        hi = hi - 1;
    }
    if lo < hi {
        assert(s@.subrange(lo as int, hi as int)[0] == s@[lo as int]);
    }
    let rest = crate::text::suffix_from(s, lo);
    take_chars(rest.as_str(), hi - lo)
}

/// One line of an env file: `KEY=VALUE` around optional spaces, the value
/// possibly quoted; blank lines and `#` comments give nothing.
pub open spec fn env_line(line: Seq<char>) -> Option<(Seq<char>, Seq<char>)> {
    let l = trim_spec(line, Trimmed::Space);
    if l.len() == 0 || l[0] == '#' {
        None
    } else {
        match key_value(l) {
            Some(kv) => Some((trim_spec(kv.0, Trimmed::Space), trim_spec(trim_spec(trim_spec(kv.1, Trimmed::Space), Trimmed::DoubleQuote), Trimmed::SingleQuote))),
            None => None,
        }
    }
}

pub open spec fn env_lines(lines: Seq<String>) -> Seq<(Seq<char>, Seq<char>)>
    decreases lines.len(),
{
    if lines.len() == 0 {
        Seq::empty()
    } else {
        env_lines(lines.drop_last()) + match env_line(lines.last()@) {
            Some(kv) => seq![kv],
            None => Seq::empty(),
        }
    }
}

/// The variables an env file's lines define, in order; a later key
/// overrides an earlier one.
pub fn parse_env_file(lines: &Vec<String>) -> (r: Vec<(String, String)>)
    ensures
        kv_views(r@) == env_lines(lines@),
{
    let mut out: Vec<(String, String)> = Vec::new();
    let mut i: usize = 0;
    while i < lines.len()
        invariant
            i <= lines@.len(),
            kv_views(out@) == env_lines(lines@.subrange(0, i as int)),
        decreases lines@.len() - i,
    {
        assert(lines@.subrange(0, i + 1).drop_last() =~= lines@.subrange(0, i as int));
        let ghost before = out@;
        let l = trim(lines[i].as_str(), Trimmed::Space);
        if l.as_str().unicode_len() != 0 && l.as_str().get_char(0) != '#' {
            match split_key_value(l.as_str()) {
                Some((k, v)) => {
                    let key = trim(k.as_str(), Trimmed::Space);
                    let v1 = trim(v.as_str(), Trimmed::Space);
                    let v2 = trim(v1.as_str(), Trimmed::DoubleQuote);
                    let value = trim(v2.as_str(), Trimmed::SingleQuote);
                    out.push((key, value));
                    assert(kv_views(out@) =~= kv_views(before).push((out@.last().0@, out@.last().1@)));
                },
                None => {},
            }
        }
        assert(kv_views(out@) =~= env_lines(lines@.subrange(0, i + 1)));
        i = i + 1;
    }
    assert(lines@.subrange(0, lines@.len() as int) =~= lines@);
    out
}

} // verus!
