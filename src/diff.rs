//! What changed in a worker's files since its last apply or build.
use vstd::prelude::*;

use crate::state::{opt_view, WorkerState};
use crate::text::same_text;

verus! {

/// Which files a diff covers.
#[derive(Clone, Copy, Debug, PartialEq, Eq, Structural)]
pub enum DiffTarget {
    All,
    Yaml,
    Docker,
    Command,
}

pub open spec fn target_of(s: Seq<char>) -> Option<DiffTarget> {
    if s == "all"@ {
        Some(DiffTarget::All)
    } else if s == "yaml"@ {
        Some(DiffTarget::Yaml)
    } else if s == "docker"@ {
        Some(DiffTarget::Docker)
    } else if s == "command"@ {
        Some(DiffTarget::Command)
    } else {
        None
    }
}

/// Reads a diff target; no target means all files.
pub fn parse_diff_target(target: Option<&str>) -> (r: Result<DiffTarget, String>)
    ensures
        match target {
            None => r == Ok::<DiffTarget, String>(DiffTarget::All),
            Some(t) => match target_of(t@) {
                Some(d) => r == Ok::<DiffTarget, String>(d),
                None => r matches Err(m) && m@ == "Invalid diff target '"@ + t@ + "'. Expected one of: all, yaml, docker, command"@,
            },
        },
{
    let t = match target {
        None => {
            return Ok(DiffTarget::All);
        },
        Some(t) => t,
    };
    proof {
        reveal_strlit("all");
        reveal_strlit("yaml");
        reveal_strlit("docker");
        reveal_strlit("command");
    }
    if same_text(t, "all") {
        Ok(DiffTarget::All)
    } else if same_text(t, "yaml") {
        Ok(DiffTarget::Yaml)
    } else if same_text(t, "docker") {
        Ok(DiffTarget::Docker)
    } else if same_text(t, "command") {
        Ok(DiffTarget::Command)
    } else {
        Err(String::from_str("Invalid diff target '").concat(t).concat("'. Expected one of: all, yaml, docker, command"))
    }
}

/// One compared file: the recorded digest (empty where none was), the
/// current one, and whether they differ.
#[derive(Debug)]
pub struct DiffEntry {
    pub label: String,
    pub old_hash: String,
    pub new_hash: String,
    pub changed: bool,
}

pub open spec fn or_empty(o: Option<Seq<char>>) -> Seq<char> {
    match o {
        Some(s) => s,
        None => Seq::empty(),
    }
}

pub open spec fn entry_is(e: DiffEntry, label: Seq<char>, old: Seq<char>, new: Seq<char>) -> bool {
    &&& e.label@ == label
    &&& e.old_hash@ == old
    &&& e.new_hash@ == new
    &&& e.changed == (old != new)
}

pub open spec fn covers(t: DiffTarget, d: DiffTarget) -> bool {
    t == DiffTarget::All || t == d
}

/// The entries a diff reports, in order: configuration file, recipe,
/// command script; a file that does not exist (current digest `None`) is
/// left out.
pub open spec fn diff_spec(
    t: DiffTarget,
    prev: WorkerState,
    yaml: Seq<char>,
    recipe: Option<Seq<char>>,
    script: Option<(Seq<char>, Option<Seq<char>>)>,
) -> Seq<(Seq<char>, Seq<char>, Seq<char>)> {
    (if covers(t, DiffTarget::Yaml) {
        seq![("geoengine.yaml"@, or_empty(opt_view(prev.yaml_hash)), yaml)]
    } else {
        Seq::empty()
    }) + (if covers(t, DiffTarget::Docker) && recipe is Some {
        seq![("Dockerfile"@, or_empty(opt_view(prev.dockerfile_hash)), recipe->0)]
    } else {
        Seq::empty()
    }) + (if covers(t, DiffTarget::Command) {
        match script {
            Some((name, Some(h))) => seq![(name + " (command script)"@, or_empty(opt_view(prev.command_hash)), h)],
            _ => Seq::empty(),
        }
    } else {
        Seq::empty()
    })
}

pub open spec fn entry_view(e: DiffEntry) -> (Seq<char>, Seq<char>, Seq<char>) {
    (e.label@, e.old_hash@, e.new_hash@)
}

fn entry(label: String, old: &Option<String>, new: &String) -> (r: DiffEntry)
    ensures
        entry_is(r, label@, or_empty(opt_view(*old)), new@),
{
    let old_hash = match old {
        Some(h) => h.clone(),
        None => String::new(),
    };
    let changed = !(old_hash == *new);
    DiffEntry { label, old_hash, new_hash: new.clone(), changed }
}

/// Compares the recorded digests of a worker with the current ones:
/// `recipe_hash` and the script's digest are `None` where the file is
/// missing, and `script` is `None` where the worker has no command.
pub fn diff_entries(
    target: DiffTarget,
    prev: &WorkerState,
    yaml_hash: &String,
    recipe_hash: Option<&String>,
    script: Option<(&String, Option<&String>)>,
) -> (r: Vec<DiffEntry>)
    ensures
        r@.map_values(|e: DiffEntry| entry_view(e)) == diff_spec(
            target,
            *prev,
            yaml_hash@,
            match recipe_hash { Some(h) => Some(h@), None => None },
            match script {
                Some(sc) => Some((sc.0@, match sc.1 { Some(h) => Some(h@), None => None })),
                None => None,
            },
        ),
        forall|i: int| 0 <= i < r@.len() ==> (#[trigger] r@[i]).changed == (r@[i].old_hash@ != r@[i].new_hash@),
{
    let mut out: Vec<DiffEntry> = Vec::new();
    let ghost recipe = match recipe_hash { Some(h) => Some(h@), None => None };
    let ghost sc = match script {
        Some(sc) => Some((sc.0@, match sc.1 { Some(h) => Some(h@), None => None })),
        None => None,
    };
    if target == DiffTarget::All || target == DiffTarget::Yaml {
        out.push(entry(String::from_str("geoengine.yaml"), &prev.yaml_hash, yaml_hash));
    }
    let ghost a = out@.map_values(|e: DiffEntry| entry_view(e));
    if target == DiffTarget::All || target == DiffTarget::Docker {
        match recipe_hash {
            Some(h) => {
                out.push(entry(String::from_str("Dockerfile"), &prev.dockerfile_hash, h));
            },
            None => {},
        }
    }
    let ghost b = out@.map_values(|e: DiffEntry| entry_view(e));
    if target == DiffTarget::All || target == DiffTarget::Command {
        match script {
            Some((name, Some(h))) => {
                let label = name.clone().concat(" (command script)");
                out.push(entry(label, &prev.command_hash, h));
            },
            _ => {},
        }
    }
    assert(out@.map_values(|e: DiffEntry| entry_view(e)) =~= diff_spec(target, *prev, yaml_hash@, recipe, sc));
    out
}

} // verus!
