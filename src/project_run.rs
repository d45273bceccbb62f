//! Running a project script, or one of its GIS tools, in a container.
use vstd::prelude::*;

use crate::cli_support::{join_escaped, joined_escaped, views};
use crate::container::{append_env, mount_views, pair_views, project_mounts, push_project_mounts, ContainerConfig};
use crate::project::{find_tool, find_tool_exec, lookup, lookup_exec, project_tools, GisTool, ProjectConfig, ToolParameter};
use crate::run::{path_views, InputPath};
use crate::state::clone_opt;
use crate::text::{decimal, decimal_text};

verus! {

/// A script's shell command followed by its quoted arguments.
pub open spec fn script_text(cmd: Seq<char>, args: Seq<Seq<char>>) -> Seq<char> {
    if args.len() == 0 {
        cmd
    } else {
        cmd + " "@ + joined_escaped(args)
    }
}

pub open spec fn project_env(p: ProjectConfig) -> Seq<(Seq<char>, Seq<char>)> {
    match p.runtime {
        Some(rt) => match rt.environment {
            Some(e) => pair_views(e@),
            None => Seq::empty(),
        },
        None => Seq::empty(),
    }
}

pub open spec fn project_mount_list(p: ProjectConfig, root: Seq<char>) -> Seq<(Seq<char>, Seq<char>, bool)> {
    match p.runtime {
        Some(rt) => match rt.mounts {
            Some(ms) => project_mounts(root, ms@),
            None => Seq::empty(),
        },
        None => Seq::empty(),
    }
}

pub open spec fn script_of(p: ProjectConfig, script: Seq<char>) -> Option<Seq<char>> {
    match p.scripts {
        Some(sc) => lookup(sc@, script),
        None => None,
    }
}

/// What a run of the script `script` of `project` (rooted at `root`) starts.
pub open spec fn runs_script(
    c: ContainerConfig,
    project: ProjectConfig,
    root: Seq<char>,
    cmd: Seq<char>,
    args: Seq<Seq<char>>,
    extra_env: Seq<(Seq<char>, Seq<char>)>,
    extra_mounts: Seq<(Seq<char>, Seq<char>, bool)>,
    tty: bool,
) -> bool {
    &&& c.image@ == "geoengine-"@ + project.name@ + ":latest"@
    &&& c.command matches Some(v) && v@.len() == 3 && v@[0]@ == "/bin/sh"@ && v@[1]@ == "-c"@ && v@[2]@ == script_text(cmd, args)
    &&& pair_views(c.env_vars@) == project_env(project) + extra_env
    &&& mount_views(c.mounts@) == project_mount_list(project, root) + extra_mounts
    &&& c.gpu == (project.runtime matches Some(rt) && rt.gpu)
    &&& c.memory == match project.runtime { Some(rt) => rt.memory, None => None }
    &&& c.shm_size == match project.runtime { Some(rt) => rt.shm_size, None => None }
    &&& c.workdir == match project.runtime { Some(rt) => rt.workdir, None => None }
    &&& c.name is None
    &&& c.remove_on_exit && !c.detach && c.tty == tty
}

/// The container that runs the script `script` of `project`, whose root is
/// `root`, with `args` after the script's command, the project's environment
/// then `extra_env`, and the project's mounts then `extra_mounts`.
pub fn plan_project_run(
    project: &ProjectConfig,
    root: &str,
    script: &String,
    args: &Vec<String>,
    extra_env: &Vec<(String, String)>,
    extra_mounts: &Vec<(String, String, bool)>,
    tty: bool,
) -> (r: Result<ContainerConfig, String>)
    ensures
        match script_of(*project, script@) {
            None => r matches Err(m) && m@ == "Script '"@ + script@ + "' not found in project"@,
            Some(cmd) => r matches Ok(c) && runs_script(c, *project, root@, cmd, views(args@), pair_views(extra_env@), mount_views(extra_mounts@), tty),
        },
{
    let found = match &project.scripts {
        Some(sc) => lookup_exec(sc, script),
        None => None,
    };
    let cmd = match found {
        Some(c) => c,
        None => {
            return Err(String::from_str("Script '").concat(script.as_str()).concat("' not found in project"));
        },
    };
    let line = if args.len() == 0 {
        cmd.clone()
    } else {
        cmd.clone().concat(" ").concat(join_escaped(args).as_str())
    };
    assert(line@ =~= script_text(cmd@, views(args@)));
    let mut env: Vec<(String, String)> = Vec::new();
    assert(pair_views(env@) =~= Seq::<(Seq<char>, Seq<char>)>::empty());
    match &project.runtime {
        Some(rt) => match &rt.environment {
            Some(e) => append_env(&mut env, e),
            None => {},
        },
        None => {},
    }
    assert(pair_views(env@) =~= project_env(*project));
    append_env(&mut env, extra_env);
    let mut mounts: Vec<(String, String, bool)> = Vec::new();
    assert(mount_views(mounts@) =~= Seq::<(Seq<char>, Seq<char>, bool)>::empty());
    match &project.runtime {
        Some(rt) => match &rt.mounts {
            Some(ms) => push_project_mounts(&mut mounts, root, ms),
            None => {},
        },
        None => {},
    }
    let ghost m0 = mount_views(mounts@);
    assert(m0 =~= project_mount_list(*project, root@));
    let mut j: usize = 0;
    while j < extra_mounts.len()
        invariant
            j <= extra_mounts@.len(),
            mount_views(mounts@) == m0 + mount_views(extra_mounts@.subrange(0, j as int)),
        decreases extra_mounts@.len() - j,
    {
        let ghost before = mount_views(mounts@);
        let m = &extra_mounts[j];
        mounts.push((m.0.clone(), m.1.clone(), m.2));
        let ghost item = (extra_mounts@[j as int].0@, extra_mounts@[j as int].1@, extra_mounts@[j as int].2);
        assert(mount_views(mounts@) =~= before.push(item));
        assert(mount_views(extra_mounts@.subrange(0, j + 1)) =~= mount_views(extra_mounts@.subrange(0, j as int)).push(item));
        j = j + 1;
    }
    assert(extra_mounts@.subrange(0, extra_mounts@.len() as int) =~= extra_mounts@);
    let (gpu, memory, shm_size, workdir) = match &project.runtime {
        Some(rt) => (rt.gpu, clone_opt(&rt.memory), clone_opt(&rt.shm_size), clone_opt(&rt.workdir)),
        None => (false, None, None, None),
    };
    Ok(ContainerConfig {
        image: String::from_str("geoengine-").concat(project.name.as_str()).concat(":latest"),
        command: Some(vec![String::from_str("/bin/sh"), String::from_str("-c"), line]),
        env_vars: env,
        mounts,
        gpu,
        memory,
        shm_size,
        workdir,
        name: None,
        remove_on_exit: true,
        detach: false,
        tty,
    })
}

/// The first tool parameter of the given name.
pub open spec fn find_param(ps: Seq<ToolParameter>, name: Seq<char>) -> Option<ToolParameter>
    decreases ps.len(),
{
    if ps.len() == 0 {
        None
    } else if ps[0].name@ == name {
        Some(ps[0])
    } else {
        find_param(ps.drop_first(), name)
    }
}

fn find_param_exec<'a>(ps: &'a Vec<ToolParameter>, name: &String) -> (r: Option<&'a ToolParameter>)
    ensures
        match r {
            Some(p) => find_param(ps@, name@) == Some(*p),
            None => find_param(ps@, name@) is None,
        },
{
    let mut i: usize = 0;
    assert(ps@.subrange(0, ps@.len() as int) =~= ps@);
    while i < ps.len()
        invariant
            i <= ps@.len(),
            find_param(ps@, name@) == find_param(ps@.subrange(i as int, ps@.len() as int), name@),
        decreases ps@.len() - i,
    {
        assert(ps@.subrange(i as int, ps@.len() as int).drop_first() =~= ps@.subrange(i + 1, ps@.len() as int));
        if ps[i].name == *name {
            return Some(&ps[i]);
        }
        i = i + 1;
    }
    None
}

/// The script flag of a tool input: the parameter's `map_to`, else its
/// name; an undeclared input keeps its own name.
pub open spec fn flag_name(t: GisTool, key: Seq<char>) -> Seq<char> {
    match t.inputs {
        Some(ps) => match find_param(ps@, key) {
            Some(p) => match p.map_to {
                Some(m) => m@,
                None => p.name@,
            },
            None => key,
        },
        None => key,
    }
}

fn flag_name_exec(t: &GisTool, key: &String) -> (r: String)
    ensures
        r@ == flag_name(*t, key@),
{
    match &t.inputs {
        Some(ps) => match find_param_exec(ps, key) {
            Some(p) => match &p.map_to {
                Some(m) => m.clone(),
                None => p.name.clone(),
            },
            None => key.clone(),
        },
        None => key.clone(),
    }
}

/// Script arguments, input mounts and folder count after the first `k`
/// inputs of a tool run: a file value is mounted read-only under
/// `/inputs/`, a directory under `/mnt/input_N`, anything else is passed as
/// it is.
pub open spec fn tool_prefix(t: GisTool, inputs: Seq<(String, String)>, paths: Seq<InputPath>, k: int) -> (Seq<Seq<char>>, Seq<(Seq<char>, Seq<char>, bool)>, nat)
    decreases k,
{
    if k <= 0 {
        (Seq::empty(), Seq::empty(), 0nat)
    } else {
        let (args, ms, c) = tool_prefix(t, inputs, paths, k - 1);
        let flag = "--"@ + flag_name(t, inputs[k - 1].0@);
        match path_views(paths, k - 1) {
            InputPath::File { path, name } => {
                let target = "/inputs/"@ + name@;
                (args.push(flag).push(target), ms.push((path@, target, true)), c)
            },
            InputPath::Dir { path } => {
                let target = "/mnt/input_"@ + decimal(c);
                (args.push(flag).push(target), ms.push((path@, target, true)), c + 1)
            },
            _ => (args.push(flag).push(inputs[k - 1].1@), ms, c),
        }
    }
}

fn tool_inputs(t: &GisTool, inputs: &Vec<(String, String)>, paths: &Vec<InputPath>) -> (r: (Vec<String>, Vec<(String, String, bool)>))
    ensures
        views(r.0@) == tool_prefix(*t, inputs@, paths@, inputs@.len() as int).0,
        mount_views(r.1@) == tool_prefix(*t, inputs@, paths@, inputs@.len() as int).1,
{
    let mut args: Vec<String> = Vec::new();
    let mut ms: Vec<(String, String, bool)> = Vec::new();
    let mut folders: usize = 0;
    let mut i: usize = 0;
    assert(views(args@) =~= Seq::<Seq<char>>::empty());
    assert(mount_views(ms@) =~= Seq::<(Seq<char>, Seq<char>, bool)>::empty());
    while i < inputs.len()
        invariant
            i <= inputs@.len(),
            folders <= i,
            tool_prefix(*t, inputs@, paths@, i as int) == (views(args@), mount_views(ms@), folders as nat),
        decreases inputs@.len() - i,
    {
        let ghost a0 = views(args@);
        let ghost m0 = mount_views(ms@);
        let flag = String::from_str("--").concat(flag_name_exec(t, &inputs[i].0).as_str());
        let ghost fl = flag@;
        let mut plain = true;
        if i < paths.len() {
            match &paths[i] {
                InputPath::File { path, name } => {
                    let target = String::from_str("/inputs/").concat(name.as_str());
                    args.push(flag.clone());
                    args.push(target.clone());
                    ms.push((path.clone(), target, true));
                    assert(views(args@) =~= a0.push(fl).push("/inputs/"@ + name@));
                    assert(mount_views(ms@) =~= m0.push((path@, "/inputs/"@ + name@, true)));
                    plain = false;
                },
                InputPath::Dir { path } => {
                    let target = String::from_str("/mnt/input_").concat(decimal_text(folders as u64).as_str());
                    args.push(flag.clone());
                    args.push(target.clone());
                    ms.push((path.clone(), target, true));
                    assert(views(args@) =~= a0.push(fl).push("/mnt/input_"@ + decimal(folders as nat)));
                    assert(mount_views(ms@) =~= m0.push((path@, "/mnt/input_"@ + decimal(folders as nat), true)));
                    folders = folders + 1;
                    plain = false;
                },
                _ => {},
            }
        }
        if plain {
            args.push(flag);
            args.push(inputs[i].1.clone());
            assert(views(args@) =~= a0.push(fl).push(inputs@[i as int].1@));
        }
        i = i + 1;
    }
    (args, ms)
}

/// The mounts and environment a tool run adds for its output directory.
pub open spec fn output_mounts(out: Option<Seq<char>>) -> Seq<(Seq<char>, Seq<char>, bool)> {
    match out {
        Some(d) => seq![(d, "/output"@, false)],
        None => Seq::empty(),
    }
}

pub open spec fn output_env(out: Option<Seq<char>>) -> Seq<(Seq<char>, Seq<char>)> {
    match out {
        Some(_) => seq![("GEOENGINE_OUTPUT_DIR"@, "/output"@)],
        None => Seq::empty(),
    }
}

/// The container that runs the GIS tool `tool` of `project` (named
/// `project_name`, rooted at `root`): the tool's script with one `--flag
/// value` pair per input, `paths[k]` being what lies at input `k`'s value,
/// and `output_dir` (absolute) mounted at `/output`.
pub fn plan_tool_run(
    project: &ProjectConfig,
    project_name: &str,
    root: &str,
    tool: &String,
    inputs: &Vec<(String, String)>,
    paths: &Vec<InputPath>,
    output_dir: Option<&String>,
    tty: bool,
) -> (r: Result<ContainerConfig, String>)
    ensures
        match project_tools(*project) {
            Some(ts) => match find_tool(ts, tool@) {
                None => r matches Err(m) && m@ == "Tool '"@ + tool@ + "' not found in project '"@ + project_name@ + "'"@,
                Some(t) => {
                    let (args, ms, _) = tool_prefix(t, inputs@, paths@, inputs@.len() as int);
                    let out = match output_dir { Some(d) => Some(d@), None => None };
                    match script_of(*project, t.script@) {
                        None => r matches Err(m) && m@ == "Script '"@ + t.script@ + "' not found in project"@,
                        Some(cmd) => r matches Ok(c) && runs_script(c, *project, root@, cmd, args, output_env(out), output_mounts(out) + ms, tty),
                    }
                },
            },
            None => r matches Err(m) && m@ == "Tool '"@ + tool@ + "' not found in project '"@ + project_name@ + "'"@,
        },
{
    let not_found = String::from_str("Tool '").concat(tool.as_str()).concat("' not found in project '").concat(project_name).concat("'");
    let tools = match &project.gis {
        Some(g) => match &g.tools {
            Some(t) => t,
            None => {
                return Err(not_found);
            },
        },
        None => {
            return Err(not_found);
        },
    };
    let t = match find_tool_exec(tools, tool) {
        Some(t) => t,
        None => {
            return Err(not_found);
        },
    };
    let (args, input_mounts) = tool_inputs(t, inputs, paths);
    let mut extra_mounts: Vec<(String, String, bool)> = Vec::new();
    let mut extra_env: Vec<(String, String)> = Vec::new();
    match output_dir {
        Some(d) => {
            extra_mounts.push((d.clone(), String::from_str("/output"), false));
            extra_env.push((String::from_str("GEOENGINE_OUTPUT_DIR"), String::from_str("/output")));
        },
        None => {},
    }
    let ghost out = match output_dir { Some(d) => Some(d@), None => None };
    assert(mount_views(extra_mounts@) =~= output_mounts(out));
    assert(pair_views(extra_env@) =~= output_env(out));
    let ghost m0 = mount_views(extra_mounts@);
    let mut j: usize = 0;
    while j < input_mounts.len()
        invariant
            j <= input_mounts@.len(),
            mount_views(extra_mounts@) == m0 + mount_views(input_mounts@.subrange(0, j as int)),
        decreases input_mounts@.len() - j,
    {
        let ghost before = mount_views(extra_mounts@);
        let m = &input_mounts[j];
        extra_mounts.push((m.0.clone(), m.1.clone(), m.2));
        let ghost item = (input_mounts@[j as int].0@, input_mounts@[j as int].1@, input_mounts@[j as int].2);
        assert(mount_views(extra_mounts@) =~= before.push(item));
        assert(mount_views(input_mounts@.subrange(0, j + 1)) =~= mount_views(input_mounts@.subrange(0, j as int)).push(item));
        j = j + 1;
    }
    assert(input_mounts@.subrange(0, input_mounts@.len() as int) =~= input_mounts@);
    plan_project_run(project, root, &t.script, &args, &extra_env, &extra_mounts, tty)
}

} // verus!
