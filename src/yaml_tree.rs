//! A configuration document as a tree of values, so that one flag can be
//! changed while every other field, known or not, is kept as it was.
use vstd::prelude::*;

use crate::text::same_text;

verus! {

/// A YAML value.
#[derive(Debug)]
pub enum YamlValue {
    Null,
    Bool(bool),
    /// A number, in its text form.
    Number(String),
    Str(String),
    Sequence(Vec<YamlValue>),
    /// Entries in document order.
    Mapping(Vec<(YamlValue, YamlValue)>),
    /// A tag and the value it marks.
    Tagged(String, Box<YamlValue>),
}

/// Whether a mapping key is the string `name`.
pub open spec fn key_is(k: YamlValue, name: Seq<char>) -> bool {
    k matches YamlValue::Str(s) && s@ == name
}

/// The position of the first entry whose key is `name`.
pub open spec fn find_key(es: Seq<(YamlValue, YamlValue)>, name: Seq<char>) -> Option<int>
    decreases es.len(),
{
    if es.len() == 0 {
        None
    } else {
        match find_key(es.drop_last(), name) {
            Some(i) => Some(i),
            None => if key_is(es.last().0, name) { Some(es.len() - 1) } else { None },
        }
    }
}

proof fn lemma_find_key_prefix(es: Seq<(YamlValue, YamlValue)>, name: Seq<char>, k: int, j: int)
    requires
        0 < k <= es.len(),
        find_key(es.subrange(0, k), name) == Some(j),
    ensures
        find_key(es, name) == Some(j),
    decreases es.len() - k,
{
    if k < es.len() {
        assert(es.subrange(0, k + 1).drop_last() =~= es.subrange(0, k));
        lemma_find_key_prefix(es, name, k + 1, j);
    } else {
        assert(es.subrange(0, k) =~= es);
    }
}

proof fn lemma_find_key_bounds(es: Seq<(YamlValue, YamlValue)>, name: Seq<char>)
    ensures
        find_key(es, name) matches Some(i) ==> 0 <= i < es.len() && key_is(es[i].0, name),
    decreases es.len(),
{
    if es.len() > 0 {
        lemma_find_key_bounds(es.drop_last(), name);
    }
}

fn key_matches(k: &YamlValue, name: &str) -> (r: bool)
    ensures
        r == key_is(*k, name@),
{
    match k {
        YamlValue::Str(s) => same_text(s.as_str(), name),
        _ => false,
    }
}

fn position(es: &Vec<(YamlValue, YamlValue)>, name: &str) -> (r: Option<usize>)
    ensures
        match r {
            Some(i) => find_key(es@, name@) == Some(i as int) && i < es@.len(),
            None => find_key(es@, name@) is None,
        },
{
    let mut i: usize = 0;
    while i < es.len()
        invariant
            i <= es@.len(),
            find_key(es@.subrange(0, i as int), name@) is None,
        decreases es@.len() - i,
    {
        assert(es@.subrange(0, i + 1).drop_last() =~= es@.subrange(0, i as int));
        if key_matches(&es[i].0, name) {
            proof {
                lemma_find_key_prefix(es@, name@, i as int + 1, i as int);
            }
            return Some(i);
        }
        i = i + 1;
    }
    assert(es@.subrange(0, es@.len() as int) =~= es@);
    None
}

/// A mapping with `name` set to `v`: the first entry of that key gets the
/// value, or a new entry goes at the end.
pub open spec fn set_entry(es: Seq<(YamlValue, YamlValue)>, name: Seq<char>, v: YamlValue, k: YamlValue) -> Seq<(YamlValue, YamlValue)> {
    match find_key(es, name) {
        Some(i) => es.update(i, (es[i].0, v)),
        None => es.push((k, v)),
    }
}

/// The document after `set_plugin_flag`, where it succeeds.
pub open spec fn flag_set(before: YamlValue, after: YamlValue, plugin: Seq<char>, enabled: bool) -> bool {
    match (before, after) {
        (YamlValue::Mapping(es), YamlValue::Mapping(fs)) => match find_key(es@, "plugins"@) {
            None => {
                &&& fs@.len() == es@.len() + 1
                &&& fs@.drop_last() == es@
                &&& key_is(fs@.last().0, "plugins"@)
                &&& fs@.last().1 matches YamlValue::Mapping(ps) && ps@.len() == 1 && key_is(ps@[0].0, plugin)
                    && ps@[0].1 == YamlValue::Bool(enabled)
            },
            Some(i) => {
                &&& fs@.len() == es@.len()
                &&& forall|j: int| 0 <= j < es@.len() && j != i ==> fs@[j] == es@[j]
                &&& fs@[i].0 == es@[i].0
                &&& match (es@[i].1, fs@[i].1) {
                    (YamlValue::Mapping(ps), YamlValue::Mapping(qs)) => match find_key(ps@, plugin) {
                        Some(j) => qs@ == ps@.update(j, (ps@[j].0, YamlValue::Bool(enabled))),
                        None => qs@.len() == ps@.len() + 1 && qs@.drop_last() == ps@
                            && key_is(qs@.last().0, plugin) && qs@.last().1 == YamlValue::Bool(enabled),
                    },
                    _ => false,
                }
            },
        },
        _ => false,
    }
}

/// The same document: equal values, or mappings with the same entries.
pub open spec fn same_doc(a: YamlValue, b: YamlValue) -> bool {
    match (a, b) {
        (YamlValue::Mapping(x), YamlValue::Mapping(y)) => x@ == y@,
        _ => a == b,
    }
}

/// Whether the document can take a plugin flag: a mapping whose `plugins`
/// entry, if any, is itself a mapping.
pub open spec fn flag_settable(doc: YamlValue) -> bool {
    match doc {
        YamlValue::Mapping(es) => match find_key(es@, "plugins"@) {
            None => true,
            Some(i) => es@[i].1 is Mapping,
        },
        _ => false,
    }
}

fn set_in_plugins(ps: &mut Vec<(YamlValue, YamlValue)>, plugin: &str, enabled: bool)
    ensures
        match find_key(old(ps)@, plugin@) {
            Some(j) => final(ps)@ == old(ps)@.update(j, (old(ps)@[j].0, YamlValue::Bool(enabled))),
            None => final(ps)@.len() == old(ps)@.len() + 1 && final(ps)@.drop_last() == old(ps)@
                && key_is(final(ps)@.last().0, plugin@) && final(ps)@.last().1 == YamlValue::Bool(enabled),
        },
{
    match position(ps, plugin) {
        Some(j) => {
            let (k, _) = ps.remove(j);
            ps.insert(j, (k, YamlValue::Bool(enabled)));
            assert(ps@ =~= old(ps)@.update(j as int, (old(ps)@[j as int].0, YamlValue::Bool(enabled))));
        },
        None => {
            ps.push((YamlValue::Str(plugin.to_string()), YamlValue::Bool(enabled)));
            assert(ps@.drop_last() =~= old(ps)@);
        },
    }
}

/// Sets `plugins.<plugin>` to `enabled` in a configuration document,
/// adding the `plugins` mapping where it is missing and keeping every
/// other entry in place. Fails, changing nothing, where the document or its
/// `plugins` entry is not a mapping.
pub fn set_plugin_flag(doc: &mut YamlValue, plugin: &str, enabled: bool) -> (r: Result<(), String>)
    ensures
        r is Ok <==> flag_settable(*old(doc)),
        r is Ok ==> flag_set(*old(doc), *final(doc), plugin@, enabled),
        r is Err ==> same_doc(*final(doc), *old(doc)),
{
    let mut taken = YamlValue::Null;
    std::mem::swap(doc, &mut taken);
    let mut es = match taken {
        YamlValue::Mapping(es) => es,
        other => {
            *doc = other;
            return Err(String::from_str("Expected top-level mapping in geoengine.yaml"));
        },
    };
    let ghost before = es@;
    proof {
        reveal_strlit("plugins");
        lemma_find_key_bounds(before, "plugins"@);
    }
    match position(&es, "plugins") {
        None => {
            let mut ps: Vec<(YamlValue, YamlValue)> = Vec::new();
            ps.push((YamlValue::Str(plugin.to_string()), YamlValue::Bool(enabled)));
            es.push((YamlValue::Str(String::from_str("plugins")), YamlValue::Mapping(ps)));
            assert(es@.drop_last() =~= before);
            *doc = YamlValue::Mapping(es);
            Ok(())
        },
        Some(i) => {
            let (k, v) = es.remove(i);
            match v {
                YamlValue::Mapping(mut ps) => {
                    proof {
                        lemma_find_key_bounds(ps@, plugin@);
                    }
                    set_in_plugins(&mut ps, plugin, enabled);
                    es.insert(i, (k, YamlValue::Mapping(ps)));
                    *doc = YamlValue::Mapping(es);
                    Ok(())
                },
                other => {
                    es.insert(i, (k, other));
                    assert(es@ =~= before);
                    *doc = YamlValue::Mapping(es);
                    Err(String::from_str("Expected 'plugins' to be a mapping in geoengine.yaml"))
                },
            }
        },
    }
}

} // verus!
