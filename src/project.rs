//! Project configuration: the GIS tools a project exposes and how its
//! containers run.
use vstd::prelude::*;

verus! {

#[derive(Debug)]
pub struct BuildConfig {
    /// Path to the recipe file, relative to the project root.
    pub dockerfile: Option<String>,
    pub context: Option<String>,
    pub args: Option<Vec<(String, String)>>,
}

/// A host path mounted into the container; `./` paths are relative to the
/// project root.
#[derive(Debug)]
pub struct MountConfig {
    pub host: String,
    pub container: String,
    pub readonly: Option<bool>,
}

/// How a project's containers run (the CPU share is kept by the caller).
#[derive(Debug)]
pub struct RuntimeConfig {
    pub gpu: bool,
    pub memory: Option<String>,
    pub shm_size: Option<String>,
    pub mounts: Option<Vec<MountConfig>>,
    pub environment: Option<Vec<(String, String)>>,
    pub workdir: Option<String>,
}

#[derive(Debug)]
pub struct ToolParameter {
    pub name: String,
    pub label: Option<String>,
    /// The script input this parameter feeds, where not its own name.
    pub map_to: Option<String>,
    pub param_type: String,
    /// The default value as JSON text.
    pub default_json: Option<String>,
    pub required: Option<bool>,
    pub description: Option<String>,
    pub choices: Option<Vec<String>>,
}

#[derive(Debug)]
pub struct GisTool {
    pub name: String,
    pub label: Option<String>,
    pub description: Option<String>,
    /// Name of the script (from the project's scripts) that the tool runs.
    pub script: String,
    pub inputs: Option<Vec<ToolParameter>>,
    pub outputs: Option<Vec<ToolParameter>>,
}

#[derive(Debug)]
pub struct GisConfig {
    pub tools: Option<Vec<GisTool>>,
}

#[derive(Debug)]
pub struct DeployConfig {
    pub gcp_project: Option<String>,
    pub region: Option<String>,
    pub repository: Option<String>,
}

#[derive(Debug)]
pub struct ProjectConfig {
    pub name: String,
    pub version: Option<String>,
    pub base_image: Option<String>,
    pub build: Option<BuildConfig>,
    pub runtime: Option<RuntimeConfig>,
    /// Named shell commands.
    pub scripts: Option<Vec<(String, String)>>,
    pub gis: Option<GisConfig>,
    pub deploy: Option<DeployConfig>,
}

/// The tools a project defines, if it defines any.
pub open spec fn project_tools(p: ProjectConfig) -> Option<Seq<GisTool>> {
    match p.gis {
        Some(g) => match g.tools {
            Some(t) => Some(t@),
            None => None,
        },
        None => None,
    }
}

/// The first tool of the given name.
pub open spec fn find_tool(tools: Seq<GisTool>, name: Seq<char>) -> Option<GisTool>
    decreases tools.len(),
{
    if tools.len() == 0 {
        None
    } else if tools[0].name@ == name {
        Some(tools[0])
    } else {
        find_tool(tools.drop_first(), name)
    }
}

pub fn find_tool_exec<'a>(tools: &'a Vec<GisTool>, name: &String) -> (r: Option<&'a GisTool>)
    ensures
        match r {
            Some(t) => find_tool(tools@, name@) == Some(*t),
            None => find_tool(tools@, name@) is None,
        },
{
    let mut i: usize = 0;
    assert(tools@.subrange(0, tools@.len() as int) =~= tools@);
    while i < tools.len()
        invariant
            i <= tools@.len(),
            find_tool(tools@, name@) == find_tool(tools@.subrange(i as int, tools@.len() as int), name@),
        decreases tools@.len() - i,
    {
        let ghost rest = tools@.subrange(i as int, tools@.len() as int);
        assert(rest.drop_first() =~= tools@.subrange(i + 1, tools@.len() as int));
        if tools[i].name == *name {
            return Some(&tools[i]);
        }
        i = i + 1;
    }
    None
}

/// The first value stored under `key` in a list of named entries.
pub open spec fn lookup(entries: Seq<(String, String)>, key: Seq<char>) -> Option<Seq<char>>
    decreases entries.len(),
{
    if entries.len() == 0 {
        None
    } else if entries[0].0@ == key {
        Some(entries[0].1@)
    } else {
        lookup(entries.drop_first(), key)
    }
}

pub fn lookup_exec<'a>(entries: &'a Vec<(String, String)>, key: &String) -> (r: Option<&'a String>)
    ensures
        match r {
            Some(v) => lookup(entries@, key@) == Some(v@),
            None => lookup(entries@, key@) is None,
        },
{
    let mut i: usize = 0;
    assert(entries@.subrange(0, entries@.len() as int) =~= entries@);
    while i < entries.len()
        invariant
            i <= entries@.len(),
            lookup(entries@, key@) == lookup(entries@.subrange(i as int, entries@.len() as int), key@),
        decreases entries@.len() - i,
    {
        let ghost rest = entries@.subrange(i as int, entries@.len() as int);
        assert(rest.drop_first() =~= entries@.subrange(i + 1, entries@.len() as int));
        if entries[i].0 == *key {
            return Some(&entries[i].1);
        }
        i = i + 1;
    }
    None
}

} // verus!
