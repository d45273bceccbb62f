//! The container that runs an admitted job: image, command, environment and
//! mounts, resolved from the job's request and its project.
use vstd::prelude::*;

use crate::jobs::{Job, JobError};
use crate::project::{find_tool, find_tool_exec, lookup, lookup_exec, project_tools, MountConfig, ProjectConfig};
use crate::text::{starts_with, suffix_from};

verus! {

/// What the container runtime is asked to create and start.
#[derive(Debug)]
pub struct ContainerConfig {
    pub image: String,
    pub command: Option<Vec<String>>,
    /// Environment variables; a later entry overrides an earlier one of the
    /// same name.
    pub env_vars: Vec<(String, String)>,
    /// (host path, container path, read-only)
    pub mounts: Vec<(String, String, bool)>,
    pub gpu: bool,
    pub memory: Option<String>,
    pub shm_size: Option<String>,
    pub workdir: Option<String>,
    pub name: Option<String>,
    pub remove_on_exit: bool,
    pub detach: bool,
    pub tty: bool,
}

/// Upper-case form of a text, as Unicode defines it.
pub uninterp spec fn upper_of(s: Seq<char>) -> Seq<char>;

/// Relies on `str::to_uppercase`: the result depends on the characters alone.
#[verifier::external_body]
fn to_upper(s: &str) -> (r: String)
    ensures
        r@ == upper_of(s@),
{
    s.to_uppercase()
}

pub open spec fn pow16(n: nat) -> nat
    decreases n,
{
    if n == 0 {
        1
    } else {
        16 * pow16((n - 1) as nat)
    }
}

/// The 32 hexadecimal digits of an identifier, most significant first.
pub open spec fn uuid_hex(id: u128) -> Seq<char> {
    Seq::new(32, |k: int| crate::json::hex_digits()[((id as nat / pow16((31 - k) as nat)) % 16) as int])
}

/// The text form of a job identifier: its hexadecimal digits in groups of
/// 8, 4, 4, 4 and 12, joined by hyphens.
pub open spec fn uuid_text(id: u128) -> Seq<char> {
    let h = uuid_hex(id);
    h.subrange(0, 8) + "-"@ + h.subrange(8, 12) + "-"@ + h.subrange(12, 16) + "-"@ + h.subrange(16, 20) + "-"@
        + h.subrange(20, 32)
}

/// Relies on `uuid::Uuid::from_u128` (big-endian) and its `Display`: the
/// hyphenated lowercase hexadecimal form of the identifier.
#[verifier::external_body]
fn id_text(id: u128) -> (r: String)
    ensures
        r@ == uuid_text(id),
{
    uuid::Uuid::from_u128(id).to_string()
}

/// The text form of a job identifier.
pub fn job_id_text(id: u128) -> (r: String)
    ensures
        r@ == uuid_text(id),
{
    id_text(id)
}

pub open spec fn pair_views(s: Seq<(String, String)>) -> Seq<(Seq<char>, Seq<char>)> {
    s.map_values(|p: (String, String)| (p.0@, p.1@))
}

pub open spec fn mount_views(s: Seq<(String, String, bool)>) -> Seq<(Seq<char>, Seq<char>, bool)> {
    s.map_values(|m: (String, String, bool)| (m.0@, m.1@, m.2))
}

/// Each input as an environment variable: `GEOENGINE_INPUT_` and the
/// upper-cased name.
pub open spec fn input_env(inputs: Seq<(String, String)>) -> Seq<(Seq<char>, Seq<char>)> {
    inputs.map_values(|p: (String, String)| ("GEOENGINE_INPUT_"@ + upper_of(p.0@), p.1@))
}

/// The environment of a job: the project's, then the inputs, then the
/// output directory's variable where one is given.
pub open spec fn job_env(job: Job, project: ProjectConfig) -> Seq<(Seq<char>, Seq<char>)> {
    (match project.runtime {
        Some(rt) => match rt.environment {
            Some(e) => pair_views(e@),
            None => Seq::empty(),
        },
        None => Seq::empty(),
    }) + input_env(job.request.inputs@) + (if job.request.output_dir is Some {
        seq![("GEOENGINE_OUTPUT_DIR"@, "/output"@)]
    } else {
        Seq::empty()
    })
}

/// A project mount's host path: `./` paths are taken from the project root.
pub open spec fn host_path(root: Seq<char>, host: Seq<char>) -> Seq<char> {
    if 2 <= host.len() && host.subrange(0, 2) == "./"@ {
        root + "/"@ + host.subrange(2, host.len() as int)
    } else {
        host
    }
}

pub open spec fn project_mounts(root: Seq<char>, ms: Seq<MountConfig>) -> Seq<(Seq<char>, Seq<char>, bool)> {
    ms.map_values(|m: MountConfig| (host_path(root, m.host@), m.container@, m.readonly == Some(true)))
}

/// Mounts of the inputs that name existing files: `files[k]` is the file
/// name of input `k` where its value is the path of a file.
pub open spec fn input_mounts(inputs: Seq<(String, String)>, files: Seq<Option<String>>) -> Seq<(Seq<char>, Seq<char>, bool)>
    decreases inputs.len(),
{
    if inputs.len() == 0 {
        Seq::empty()
    } else {
        let k = inputs.len() - 1;
        input_mounts(inputs.drop_last(), files) + if k < files.len() && files[k] is Some {
            seq![(inputs[k].1@, "/inputs/"@ + files[k]->0@, true)]
        } else {
            Seq::empty()
        }
    }
}

/// The mounts of a job: the project's, the output directory, then the
/// input files, read-only.
pub open spec fn job_mounts(job: Job, project: ProjectConfig, root: Seq<char>, files: Seq<Option<String>>) -> Seq<(Seq<char>, Seq<char>, bool)> {
    (match project.runtime {
        Some(rt) => match rt.mounts {
            Some(ms) => project_mounts(root, ms@),
            None => Seq::empty(),
        },
        None => Seq::empty(),
    }) + (match job.request.output_dir {
        Some(d) => seq![(d@, "/output"@, false)],
        None => Seq::empty(),
    }) + input_mounts(job.request.inputs@, files)
}

pub(crate) fn append_env(env: &mut Vec<(String, String)>, entries: &Vec<(String, String)>)
    ensures
        pair_views(final(env)@) == pair_views(old(env)@) + pair_views(entries@),
{
    let mut i: usize = 0;
    while i < entries.len()
        invariant
            i <= entries@.len(),
            pair_views(env@) == pair_views(old(env)@) + pair_views(entries@.subrange(0, i as int)),
        decreases entries@.len() - i,
    {
        let ghost before = env@;
        env.push((entries[i].0.clone(), entries[i].1.clone()));
        assert(pair_views(env@) =~= pair_views(before) + seq![(entries@[i as int].0@, entries@[i as int].1@)]);
        assert(pair_views(entries@.subrange(0, i + 1)) =~= pair_views(entries@.subrange(0, i as int)) + seq![(entries@[i as int].0@, entries@[i as int].1@)]);
        i = i + 1;
    }
    assert(entries@.subrange(0, entries@.len() as int) =~= entries@);
}

fn push_input_env(env: &mut Vec<(String, String)>, inputs: &Vec<(String, String)>)
    ensures
        pair_views(final(env)@) == pair_views(old(env)@) + input_env(inputs@),
{
    let mut i: usize = 0;
    while i < inputs.len()
        invariant
            i <= inputs@.len(),
            pair_views(env@) == pair_views(old(env)@) + input_env(inputs@.subrange(0, i as int)),
        decreases inputs@.len() - i,
    {
        let ghost before = env@;
        let key = String::from_str("GEOENGINE_INPUT_").concat(to_upper(inputs[i].0.as_str()).as_str());
        env.push((key, inputs[i].1.clone()));
        let ghost item = ("GEOENGINE_INPUT_"@ + upper_of(inputs@[i as int].0@), inputs@[i as int].1@);
        assert(pair_views(env@) =~= pair_views(before) + seq![item]);
        assert(input_env(inputs@.subrange(0, i + 1)) =~= input_env(inputs@.subrange(0, i as int)) + seq![item]);
        i = i + 1;
    }
    assert(inputs@.subrange(0, inputs@.len() as int) =~= inputs@);
}

pub(crate) fn host_path_exec(root: &str, host: &str) -> (r: String)
    ensures
        r@ == host_path(root@, host@),
{
    if starts_with(host, "./") {
        proof {
            reveal_strlit("./");
        }
        let rest = suffix_from(host, 2);
        String::from_str(root).concat("/").concat(rest.as_str())
    } else {
        proof {
            reveal_strlit("./");
        }
        host.to_string()
    }
}

pub(crate) fn push_project_mounts(out: &mut Vec<(String, String, bool)>, root: &str, ms: &Vec<MountConfig>)
    ensures
        mount_views(final(out)@) == mount_views(old(out)@) + project_mounts(root@, ms@),
{
    let mut i: usize = 0;
    while i < ms.len()
        invariant
            i <= ms@.len(),
            mount_views(out@) == mount_views(old(out)@) + project_mounts(root@, ms@.subrange(0, i as int)),
        decreases ms@.len() - i,
    {
        let ghost before = out@;
        let m = &ms[i];
        let ro = match m.readonly {
            Some(b) => b,
            None => false,
        };
        out.push((host_path_exec(root, m.host.as_str()), m.container.clone(), ro));
        let ghost item = (host_path(root@, m.host@), m.container@, m.readonly == Some(true));
        assert(mount_views(out@) =~= mount_views(before) + seq![item]);
        assert(project_mounts(root@, ms@.subrange(0, i + 1)) =~= project_mounts(root@, ms@.subrange(0, i as int)) + seq![item]);
        i = i + 1;
    }
    assert(ms@.subrange(0, ms@.len() as int) =~= ms@);
}

fn push_input_mounts(out: &mut Vec<(String, String, bool)>, inputs: &Vec<(String, String)>, files: &Vec<Option<String>>)
    ensures
        mount_views(final(out)@) == mount_views(old(out)@) + input_mounts(inputs@, files@),
{
    let mut i: usize = 0;
    while i < inputs.len()
        invariant
            i <= inputs@.len(),
            mount_views(out@) == mount_views(old(out)@) + input_mounts(inputs@.subrange(0, i as int), files@),
        decreases inputs@.len() - i,
    {
        let ghost before = out@;
        let ghost pre = inputs@.subrange(0, i + 1);
        assert(pre.drop_last() =~= inputs@.subrange(0, i as int));
        if i < files.len() {
            match &files[i] {
                Some(name) => {
                    let target = String::from_str("/inputs/").concat(name.as_str());
                    out.push((inputs[i].1.clone(), target, true));
                    assert(mount_views(out@) =~= mount_views(before) + seq![(inputs@[i as int].1@, "/inputs/"@ + name@, true)]);
                },
                None => {},
            }
        }
        assert(mount_views(out@) =~= mount_views(old(out)@) + input_mounts(pre, files@));
        i = i + 1;
    }
    assert(inputs@.subrange(0, inputs@.len() as int) =~= inputs@);
}

/// Whether the project defines the job's tool and the script it runs.
pub open spec fn resolvable(job: Job, project: ProjectConfig) -> bool {
    match project_tools(project) {
        None => false,
        Some(ts) => match find_tool(ts, job.request.tool@) {
            None => false,
            Some(t) => match project.scripts {
                None => false,
                Some(sc) => lookup(sc@, t.script@) is Some,
            },
        },
    }
}

/// The container for an admitted job of `project`, whose root directory is
/// `root`; `files[k]` is the file name of input `k` where that input's value
/// is the path of an existing file.
pub fn container_config(job: &Job, project: &ProjectConfig, root: &str, files: &Vec<Option<String>>) -> (r: Result<ContainerConfig, JobError>)
    ensures
        r is Ok <==> resolvable(*job, *project),
        r matches Ok(c) ==> {
            &&& c.image@ == "geoengine-"@ + project.name@ + ":latest"@
            &&& c.command matches Some(cmd) && cmd@.len() == 3 && cmd@[0]@ == "/bin/sh"@ && cmd@[1]@ == "-c"@
                && Some(cmd@[2]@) == lookup(project.scripts->0@, find_tool(project_tools(*project)->0, job.request.tool@)->0.script@)
            &&& pair_views(c.env_vars@) == job_env(*job, *project)
            &&& mount_views(c.mounts@) == job_mounts(*job, *project, root@, files@)
            &&& c.name matches Some(n) && n@ == "geoengine-job-"@ + uuid_text(job.id)
            &&& c.gpu == (project.runtime matches Some(rt) && rt.gpu)
            &&& c.memory == match project.runtime { Some(rt) => rt.memory, None => None }
            &&& c.shm_size == match project.runtime { Some(rt) => rt.shm_size, None => None }
            &&& c.workdir == match project.runtime { Some(rt) => rt.workdir, None => None }
            &&& !c.remove_on_exit && c.detach && !c.tty
        },
{
    let tools = match &project.gis {
        Some(g) => match &g.tools {
            Some(t) => t,
            None => {
                return Err(JobError::Validation(String::from_str("Tool not found")));
            },
        },
        None => {
            return Err(JobError::Validation(String::from_str("Tool not found")));
        },
    };
    let tool = match find_tool_exec(tools, &job.request.tool) {
        Some(t) => t,
        None => {
            return Err(JobError::Validation(String::from_str("Tool not found")));
        },
    };
    let script = match &project.scripts {
        Some(sc) => match lookup_exec(sc, &tool.script) {
            Some(s) => s,
            None => {
                return Err(JobError::Validation(String::from_str("Script not found")));
            },
        },
        None => {
            return Err(JobError::Validation(String::from_str("Script not found")));
        },
    };
    let image = String::from_str("geoengine-").concat(project.name.as_str()).concat(":latest");
    let mut env: Vec<(String, String)> = Vec::new();
    match &project.runtime {
        Some(rt) => match &rt.environment {
            Some(e) => append_env(&mut env, e),
            None => {},
        },
        None => {},
    }
    push_input_env(&mut env, &job.request.inputs);
    if job.request.output_dir.is_some() {
        let ghost before = env@;
        env.push((String::from_str("GEOENGINE_OUTPUT_DIR"), String::from_str("/output")));
        assert(pair_views(env@) =~= pair_views(before) + seq![("GEOENGINE_OUTPUT_DIR"@, "/output"@)]);
    }
    assert(pair_views(env@) =~= job_env(*job, *project));
    let mut mounts: Vec<(String, String, bool)> = Vec::new();
    match &project.runtime {
        Some(rt) => match &rt.mounts {
            Some(ms) => push_project_mounts(&mut mounts, root, ms),
            None => {},
        },
        None => {},
    }
    match &job.request.output_dir {
        Some(d) => {
            let ghost before = mounts@;
            mounts.push((d.clone(), String::from_str("/output"), false));
            assert(mount_views(mounts@) =~= mount_views(before) + seq![(d@, "/output"@, false)]);
        },
        None => {},
    }
    push_input_mounts(&mut mounts, &job.request.inputs, files);
    assert(mount_views(mounts@) =~= job_mounts(*job, *project, root@, files@));
    let command = vec![String::from_str("/bin/sh"), String::from_str("-c"), script.clone()];
    let (gpu, memory, shm_size, workdir) = match &project.runtime {
        Some(rt) => (rt.gpu, crate::state::clone_opt(&rt.memory), crate::state::clone_opt(&rt.shm_size), crate::state::clone_opt(&rt.workdir)),
        None => (false, None, None, None),
    };
    let name = String::from_str("geoengine-job-").concat(id_text(job.id).as_str());
    Ok(ContainerConfig {
        image,
        command: Some(command),
        env_vars: env,
        mounts,
        gpu,
        memory,
        shm_size,
        workdir,
        name: Some(name),
        remove_on_exit: false,
        detach: true,
        tty: false,
    })
}

} // verus!
