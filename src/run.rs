//! Running a worker once: its declared file and folder inputs become
//! mounts, and every input becomes a `--name value` argument of its script.
use vstd::prelude::*;

use crate::cli_support::{command_line, views};
use crate::container::{host_path, mount_views};
use crate::text::{decimal, decimal_text};
use crate::worker_config::{InputParameter, WorkerConfig};

verus! {

/// What the caller found on disk at an input's value.
#[derive(Debug)]
pub enum InputPath {
    Missing,
    /// A file: its absolute path and its file name.
    File { path: String, name: String },
    /// A directory: its absolute path.
    Dir { path: String },
    /// Something else that exists.
    Other,
}

/// Whether `s` is `lower` with any of its letters upper-cased (`upper`).
pub open spec fn same_word(s: Seq<char>, lower: Seq<char>, upper: Seq<char>) -> bool {
    s.len() == lower.len() && forall|i: int| 0 <= i < s.len() ==> #[trigger] s[i] == lower[i] || s[i] == upper[i]
}

fn same_word_exec(s: &str, lower: &str, upper: &str) -> (r: bool)
    requires
        lower@.len() == upper@.len(),
    ensures
        r == same_word(s@, lower@, upper@),
{
    let n = s.unicode_len();
    if n != lower.unicode_len() {
        return false;
    }
    let mut i: usize = 0;
    while i < n
        invariant
            n == s@.len(),
            n == lower@.len(),
            lower@.len() == upper@.len(),
            i <= n,
            forall|k: int| 0 <= k < i ==> #[trigger] s@[k] == lower@[k] || s@[k] == upper@[k],
        decreases n - i,
    {
        let c = s.get_char(i);
        if c != lower.get_char(i) && c != upper.get_char(i) {
            return false;
        }
        i = i + 1;
    }
    true
}

pub open spec fn is_file_type(p: InputParameter) -> bool {
    same_word(p.param_type@, "file"@, "FILE"@)
}

pub open spec fn is_folder_type(p: InputParameter) -> bool {
    same_word(p.param_type@, "folder"@, "FOLDER"@)
}

/// The first declared input of the given name.
pub open spec fn declared(ps: Seq<InputParameter>, name: Seq<char>) -> Option<InputParameter>
    decreases ps.len(),
{
    if ps.len() == 0 {
        None
    } else if ps[0].name@ == name {
        Some(ps[0])
    } else {
        declared(ps.drop_first(), name)
    }
}

fn declared_exec<'a>(ps: &'a Vec<InputParameter>, name: &String) -> (r: Option<&'a InputParameter>)
    ensures
        match r {
            Some(p) => declared(ps@, name@) == Some(*p),
            None => declared(ps@, name@) is None,
        },
{
    let mut i: usize = 0;
    assert(ps@.subrange(0, ps@.len() as int) =~= ps@);
    while i < ps.len()
        invariant
            i <= ps@.len(),
            declared(ps@, name@) == declared(ps@.subrange(i as int, ps@.len() as int), name@),
        decreases ps@.len() - i,
    {
        assert(ps@.subrange(i as int, ps@.len() as int).drop_first() =~= ps@.subrange(i + 1, ps@.len() as int));
        if ps[i].name == *name {
            return Some(&ps[i]);
        }
        i = i + 1;
    }
    None
}

pub open spec fn path_views(p: Seq<InputPath>, k: int) -> InputPath {
    if 0 <= k < p.len() {
        p[k]
    } else {
        InputPath::Missing
    }
}

pub open spec fn read_only(p: InputParameter) -> bool {
    p.readonly != Some(false)
}

pub open spec fn input_message(key: Seq<char>, kind: Seq<char>, what: Seq<char>, value: Seq<char>) -> Seq<char> {
    "Input '"@ + key + "' is declared as type '"@ + kind + "' but "@ + what + ": "@ + value
}

/// Arguments, extra mounts and folder count after the first `k` inputs, or
/// the first input that cannot be used.
pub open spec fn plan_prefix(decl: Seq<InputParameter>, inputs: Seq<(String, String)>, paths: Seq<InputPath>, k: int) -> Result<(Seq<Seq<char>>, Seq<(Seq<char>, Seq<char>, bool)>, nat), Seq<char>>
    decreases k,
{
    if k <= 0 {
        Ok((Seq::empty(), Seq::empty(), 0nat))
    } else {
        match plan_prefix(decl, inputs, paths, k - 1) {
            Err(e) => Err(e),
            Ok((args, ms, c)) => {
                let key = inputs[k - 1].0@;
                let value = inputs[k - 1].1@;
                match declared(decl, key) {
                    Some(p) => if is_file_type(p) {
                        match path_views(paths, k - 1) {
                            InputPath::File { path, name } => {
                                let target = "/inputs/"@ + key + "/"@ + name@;
                                Ok((args.push("--"@ + key).push(target), ms.push((path@, target, read_only(p))), c))
                            },
                            InputPath::Missing => Err(input_message(key, "file"@, "path does not exist"@, value)),
                            _ => Err(input_message(key, "file"@, "received a non-file path"@, value)),
                        }
                    } else if is_folder_type(p) {
                        match path_views(paths, k - 1) {
                            InputPath::Dir { path } => {
                                let target = "/mnt/input_"@ + decimal(c);
                                Ok((args.push("--"@ + key).push(target), ms.push((path@, target, read_only(p))), c + 1))
                            },
                            InputPath::Missing => Err(input_message(key, "folder"@, "path does not exist"@, value)),
                            _ => Err(input_message(key, "folder"@, "received a non-directory path"@, value)),
                        }
                    } else {
                        Ok((args.push("--"@ + key).push(value), ms, c))
                    },
                    None => Ok((args.push("--"@ + key).push(value), ms, c)),
                }
            },
        }
    }
}

proof fn lemma_error_sticks(decl: Seq<InputParameter>, inputs: Seq<(String, String)>, paths: Seq<InputPath>, k: int, j: int, e: Seq<char>)
    requires
        0 <= k <= j,
        plan_prefix(decl, inputs, paths, k) == Err::<(Seq<Seq<char>>, Seq<(Seq<char>, Seq<char>, bool)>, nat), Seq<char>>(e),
    ensures
        plan_prefix(decl, inputs, paths, j) == Err::<(Seq<Seq<char>>, Seq<(Seq<char>, Seq<char>, bool)>, nat), Seq<char>>(e),
    decreases j - k,
{
    if j > k {
        lemma_error_sticks(decl, inputs, paths, k, j - 1, e);
    }
}

pub open spec fn declared_of(c: WorkerConfig) -> Seq<InputParameter> {
    match c.command {
        Some(cmd) => match cmd.inputs {
            Some(v) => v@,
            None => Seq::empty(),
        },
        None => Seq::empty(),
    }
}

/// The worker's own mounts, `./` paths taken from its directory.
pub open spec fn worker_mounts(dir: Seq<char>, c: WorkerConfig) -> Seq<(Seq<char>, Seq<char>, bool)> {
    match c.local_dir_mounts {
        Some(ms) => ms@.map_values(|m: crate::worker_config::MountConfig| (host_path(dir, m.host_path@), m.container_path@, m.readonly == Some(true))),
        None => Seq::empty(),
    }
}

fn message(key: &String, kind: &str, what: &str, value: &String) -> (r: String)
    ensures
        r@ == input_message(key@, kind@, what@, value@),
{
    String::from_str("Input '").concat(key.as_str()).concat("' is declared as type '").concat(kind).concat("' but ").concat(what).concat(": ").concat(value.as_str())
}

/// The inputs turned into script arguments and mounts; `paths[k]` is what
/// lies at the value of input `k`.
fn plan_inputs(decl: &Vec<InputParameter>, inputs: &Vec<(String, String)>, paths: &Vec<InputPath>) -> (r: Result<(Vec<String>, Vec<(String, String, bool)>), String>)
    ensures
        match plan_prefix(decl@, inputs@, paths@, inputs@.len() as int) {
            Ok((args, ms, _)) => r matches Ok(p) && views(p.0@) == args && mount_views(p.1@) == ms,
            Err(e) => r matches Err(m) && m@ == e,
        },
{
    let mut args: Vec<String> = Vec::new();
    let mut ms: Vec<(String, String, bool)> = Vec::new();
    let mut folders: usize = 0;
    let mut i: usize = 0;
    assert(views(args@) =~= Seq::<Seq<char>>::empty());
    assert(mount_views(ms@) =~= Seq::<(Seq<char>, Seq<char>, bool)>::empty());
    while i < inputs.len()
        invariant
            i <= inputs@.len(),
            folders <= i,
            plan_prefix(decl@, inputs@, paths@, i as int) == Ok::<(Seq<Seq<char>>, Seq<(Seq<char>, Seq<char>, bool)>, nat), Seq<char>>((views(args@), mount_views(ms@), folders as nat)),
        decreases inputs@.len() - i,
    {
        proof {
            reveal_strlit("file");
            reveal_strlit("FILE");
            reveal_strlit("folder");
            reveal_strlit("FOLDER");
        }
        let key = &inputs[i].0;
        let value = &inputs[i].1;
        let ghost a0 = views(args@);
        let ghost m0 = mount_views(ms@);
        let ghost path = path_views(paths@, i as int);
        let flag = String::from_str("--").concat(key.as_str());
        match declared_exec(decl, key) {
            Some(p) => {
                let ro = match p.readonly {
                    Some(b) => b,
                    None => true,
                };
                if same_word_exec(p.param_type.as_str(), "file", "FILE") {
                    if i < paths.len() {
                        match &paths[i] {
                            InputPath::File { path: ap, name } => {
                                let target = String::from_str("/inputs/").concat(key.as_str()).concat("/").concat(name.as_str());
                                args.push(flag);
                                args.push(target.clone());
                                ms.push((ap.clone(), target, ro));
                                assert(views(args@) =~= a0.push("--"@ + key@).push("/inputs/"@ + key@ + "/"@ + name@));
                                assert(mount_views(ms@) =~= m0.push((ap@, "/inputs/"@ + key@ + "/"@ + name@, ro)));
                            },
                            InputPath::Missing => {
                                let m = message(key, "file", "path does not exist", value);
                                proof { lemma_error_sticks(decl@, inputs@, paths@, i + 1, inputs@.len() as int, m@); }
                                return Err(m);
                            },
                            _ => {
                                let m = message(key, "file", "received a non-file path", value);
                                proof { lemma_error_sticks(decl@, inputs@, paths@, i + 1, inputs@.len() as int, m@); }
                                return Err(m);
                            },
                        }
                    } else {
                        let m = message(key, "file", "path does not exist", value);
                        proof { lemma_error_sticks(decl@, inputs@, paths@, i + 1, inputs@.len() as int, m@); }
                        return Err(m);
                    }
                } else if same_word_exec(p.param_type.as_str(), "folder", "FOLDER") {
                    if i < paths.len() {
                        match &paths[i] {
                            InputPath::Dir { path: ap } => {
                                let target = String::from_str("/mnt/input_").concat(decimal_text(folders as u64).as_str());
                                args.push(flag);
                                args.push(target.clone());
                                ms.push((ap.clone(), target, ro));
                                assert(views(args@) =~= a0.push("--"@ + key@).push("/mnt/input_"@ + decimal(folders as nat)));
                                assert(mount_views(ms@) =~= m0.push((ap@, "/mnt/input_"@ + decimal(folders as nat), ro)));
                                folders = folders + 1;
                            },
                            InputPath::Missing => {
                                let m = message(key, "folder", "path does not exist", value);
                                proof { lemma_error_sticks(decl@, inputs@, paths@, i + 1, inputs@.len() as int, m@); }
                                return Err(m);
                            },
                            _ => {
                                let m = message(key, "folder", "received a non-directory path", value);
                                proof { lemma_error_sticks(decl@, inputs@, paths@, i + 1, inputs@.len() as int, m@); }
                                return Err(m);
                            },
                        }
                    } else {
                        let m = message(key, "folder", "path does not exist", value);
                        proof { lemma_error_sticks(decl@, inputs@, paths@, i + 1, inputs@.len() as int, m@); }
                        return Err(m);
                    }
                } else {
                    args.push(flag);
                    args.push(value.clone());
                    assert(views(args@) =~= a0.push("--"@ + key@).push(value@));
                }
            },
            None => {
                args.push(flag);
                args.push(value.clone());
                assert(views(args@) =~= a0.push("--"@ + key@).push(value@));
            },
        }
        i = i + 1;
    }
    Ok((args, ms))
}

/// What running a worker once takes: the image, the shell command, and the
/// mounts.
#[derive(Debug)]
pub struct RunPlan {
    pub image: String,
    pub command: Vec<String>,
    pub mounts: Vec<(String, String, bool)>,
}

/// The image a run uses: the development build, or the production build of
/// the configured version (`latest` where none is configured).
pub open spec fn run_image(c: WorkerConfig, dev: bool) -> Seq<char> {
    if dev {
        "geoengine-local-dev/"@ + c.name@ + ":latest"@
    } else {
        "geoengine-local/"@ + c.name@ + ":"@ + match c.version {
            Some(v) => v@,
            None => "latest"@,
        }
    }
}

fn push_worker_mounts(out: &mut Vec<(String, String, bool)>, dir: &str, ms: &Vec<crate::worker_config::MountConfig>)
    ensures
        mount_views(final(out)@) == mount_views(old(out)@) + ms@.map_values(|m: crate::worker_config::MountConfig| (host_path(dir@, m.host_path@), m.container_path@, m.readonly == Some(true))),
{
    let ghost f = |m: crate::worker_config::MountConfig| (host_path(dir@, m.host_path@), m.container_path@, m.readonly == Some(true));
    let mut i: usize = 0;
    while i < ms.len()
        invariant
            i <= ms@.len(),
            f == (|m: crate::worker_config::MountConfig| (host_path(dir@, m.host_path@), m.container_path@, m.readonly == Some(true))),
            mount_views(out@) == mount_views(old(out)@) + ms@.subrange(0, i as int).map_values(f),
        decreases ms@.len() - i,
    {
        let ghost before = out@;
        let m = &ms[i];
        let ro = match m.readonly {
            Some(b) => b,
            None => false,
        };
        out.push((crate::container::host_path_exec(dir, m.host_path.as_str()), m.container_path.clone(), ro));
        assert(mount_views(out@) =~= mount_views(before) + seq![f(ms@[i as int])]);
        assert(ms@.subrange(0, i + 1).map_values(f) =~= ms@.subrange(0, i as int).map_values(f) + seq![f(ms@[i as int])]);
        i = i + 1;
    }
    assert(ms@.subrange(0, ms@.len() as int) =~= ms@);
}

/// Plans a run of the worker configured by `config`, whose directory is
/// `dir`: `inputs` are the `--input` pairs, `paths[k]` what lies at the
/// value of input `k`, and `extra_args` go after the inputs. Fails where the
/// worker has no command or a declared file or folder input does not fit.
pub fn plan_worker_run(
    config: &WorkerConfig,
    dir: &str,
    inputs: &Vec<(String, String)>,
    paths: &Vec<InputPath>,
    extra_args: &Vec<String>,
    dev: bool,
) -> (r: Result<RunPlan, String>)
    ensures
        config.command is None ==> (r matches Err(m) && m@ == "No command defined for worker '"@ + config.name@ + "'"@),
        config.command matches Some(cmd) ==> match plan_prefix(declared_of(*config), inputs@, paths@, inputs@.len() as int) {
            Err(e) => r matches Err(m) && m@ == e,
            Ok((args, ms, _)) => r matches Ok(p) && {
                &&& p.image@ == run_image(*config, dev)
                &&& p.command@.len() == 3 && p.command@[0]@ == "/bin/sh"@ && p.command@[1]@ == "-c"@
                &&& p.command@[2]@ == crate::cli_support::command_text(cmd.program@, cmd.script@, args + views(extra_args@))
                &&& mount_views(p.mounts@) == worker_mounts(dir@, *config) + ms
            },
        },
{
    let cmd = match &config.command {
        Some(c) => c,
        None => {
            return Err(String::from_str("No command defined for worker '").concat(config.name.as_str()).concat("'"));
        },
    };
    let empty: Vec<InputParameter> = Vec::new();
    let decl = match &cmd.inputs {
        Some(v) => v,
        None => &empty,
    };
    assert(decl@ == declared_of(*config));
    let (mut args, input_mounts) = match plan_inputs(decl, inputs, paths) {
        Ok(p) => p,
        Err(m) => {
            return Err(m);
        },
    };
    let ghost a0 = views(args@);
    let mut k: usize = 0;
    while k < extra_args.len()
        invariant
            k <= extra_args@.len(),
            views(args@) == a0 + views(extra_args@.subrange(0, k as int)),
        decreases extra_args@.len() - k,
    {
        let ghost before = views(args@);
        args.push(extra_args[k].clone());
        assert(views(args@) =~= before.push(extra_args@[k as int]@));
        assert(views(extra_args@.subrange(0, k + 1)) =~= views(extra_args@.subrange(0, k as int)).push(extra_args@[k as int]@));
        k = k + 1;
    }
    assert(extra_args@.subrange(0, extra_args@.len() as int) =~= extra_args@);
    let line = command_line(cmd.program.as_str(), cmd.script.as_str(), &args);
    let mut mounts: Vec<(String, String, bool)> = Vec::new();
    assert(mount_views(mounts@) =~= Seq::<(Seq<char>, Seq<char>, bool)>::empty());
    match &config.local_dir_mounts {
        Some(ms) => push_worker_mounts(&mut mounts, dir, ms),
        None => {},
    }
    let ghost m0 = mount_views(mounts@);
    assert(m0 =~= worker_mounts(dir@, *config));
    let mut j: usize = 0;
    while j < input_mounts.len()
        invariant
            j <= input_mounts@.len(),
            mount_views(mounts@) == m0 + mount_views(input_mounts@.subrange(0, j as int)),
        decreases input_mounts@.len() - j,
    {
        let ghost before = mount_views(mounts@);
        let m = &input_mounts[j];
        mounts.push((m.0.clone(), m.1.clone(), m.2));
        assert(mount_views(mounts@) =~= before.push((input_mounts@[j as int].0@, input_mounts@[j as int].1@, input_mounts@[j as int].2)));
        assert(mount_views(input_mounts@.subrange(0, j + 1)) =~= mount_views(input_mounts@.subrange(0, j as int)).push((input_mounts@[j as int].0@, input_mounts@[j as int].1@, input_mounts@[j as int].2)));
        j = j + 1;
    }
    assert(input_mounts@.subrange(0, input_mounts@.len() as int) =~= input_mounts@);
    let image = if dev {
        String::from_str("geoengine-local-dev/").concat(config.name.as_str()).concat(":latest")
    } else {
        let v = match &config.version {
            Some(v) => v.clone(),
            None => String::from_str("latest"),
        };
        String::from_str("geoengine-local/").concat(config.name.as_str()).concat(":").concat(v.as_str())
    };
    Ok(RunPlan { image, command: vec![String::from_str("/bin/sh"), String::from_str("-c"), line], mounts })
}

} // verus!
