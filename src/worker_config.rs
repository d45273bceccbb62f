//! A worker's configuration, as read from its configuration file, and the
//! digest of the part of it that shapes the container image.
use vstd::prelude::*;

use crate::hashing::{sha256_string, text_digest};
use crate::state::opt_view;
use crate::json::{
    json_bool, json_opt_bool, json_opt_string, json_string, json_string_array, string_views,
    write_opt_bool, write_opt_string, write_string, write_string_array,
};

verus! {

/// Input parameter definition of a worker command.
#[derive(Clone, Debug)]
pub struct InputParameter {
    pub name: String,
    /// file, folder, datetime, string, number, boolean or enum
    pub param_type: String,
    pub required: Option<bool>,
    /// The default value, as compact JSON text with sorted object keys.
    pub default_json: Option<String>,
    pub description: Option<String>,
    pub enum_values: Option<Vec<String>>,
    pub readonly: Option<bool>,
}

/// The entrypoint of a worker and its inputs.
#[derive(Clone, Debug)]
pub struct CommandConfig {
    pub program: String,
    pub script: String,
    pub inputs: Option<Vec<InputParameter>>,
}

/// A host directory mounted into the container.
#[derive(Clone, Debug)]
pub struct MountConfig {
    pub host_path: String,
    pub container_path: String,
    pub readonly: Option<bool>,
}

/// Which GIS applications the worker is registered with.
#[derive(Clone, Debug)]
pub struct PluginsConfig {
    pub arcgis: Option<bool>,
    pub qgis: Option<bool>,
}

#[derive(Clone, Debug)]
pub struct DeployConfig {
    pub tenant_id: Option<String>,
}

/// Worker configuration.
#[derive(Clone, Debug)]
pub struct WorkerConfig {
    pub name: String,
    pub version: Option<String>,
    pub description: Option<String>,
    pub command: Option<CommandConfig>,
    pub local_dir_mounts: Option<Vec<MountConfig>>,
    pub plugins: Option<PluginsConfig>,
    pub deploy: Option<DeployConfig>,
}

pub open spec fn input_default(p: InputParameter) -> Seq<char> {
    match p.default_json {
        Some(d) => "\"default\":"@ + d@ + ","@,
        None => Seq::empty(),
    }
}

pub open spec fn input_enum(p: InputParameter) -> Seq<char> {
    match p.enum_values {
        Some(v) => ",\"enum_values\":"@ + json_string_array(string_views(v@)),
        None => Seq::empty(),
    }
}

pub open spec fn input_readonly(p: InputParameter) -> Seq<char> {
    match p.readonly {
        Some(b) => ",\"readonly\":"@ + json_bool(b),
        None => Seq::empty(),
    }
}

/// An input parameter as a JSON object; absent default, enum values and
/// read-only flag are left out.
pub open spec fn input_json(p: InputParameter) -> Seq<char> {
    "{"@ + input_default(p) + "\"description\":"@ + json_opt_string(opt_view(p.description))
        + input_enum(p) + ",\"name\":"@ + json_string(p.name@) + input_readonly(p)
        + ",\"required\":"@ + json_opt_bool(p.required) + ",\"type\":"@ + json_string(
        p.param_type@,
    ) + "}"@
}

pub open spec fn inputs_items(ps: Seq<InputParameter>) -> Seq<char>
    decreases ps.len(),
{
    if ps.len() == 0 {
        Seq::empty()
    } else {
        inputs_items(ps.drop_last()) + (if ps.len() > 1 { ","@ } else { Seq::empty() })
            + input_json(ps.last())
    }
}

pub open spec fn command_json(c: CommandConfig) -> Seq<char> {
    "{\"inputs\":"@ + (match c.inputs {
        Some(v) => "["@ + inputs_items(v@) + "]"@,
        None => "null"@,
    }) + ",\"program\":"@ + json_string(c.program@) + ",\"script\":"@ + json_string(c.script@)
        + "}"@
}

pub open spec fn mount_json(m: MountConfig) -> Seq<char> {
    "{\"container_path\":"@ + json_string(m.container_path@) + ",\"host_path\":"@ + json_string(
        m.host_path@,
    ) + ",\"readonly\":"@ + json_opt_bool(m.readonly) + "}"@
}

pub open spec fn mounts_items(ms: Seq<MountConfig>) -> Seq<char>
    decreases ms.len(),
{
    if ms.len() == 0 {
        Seq::empty()
    } else {
        mounts_items(ms.drop_last()) + (if ms.len() > 1 { ","@ } else { Seq::empty() })
            + mount_json(ms.last())
    }
}

/// The build-relevant fields (name, command, mounts) as one JSON object with
/// sorted keys: description, version, plugins and deployment stay out.
pub open spec fn build_fields_json(c: WorkerConfig) -> Seq<char> {
    "{\"command\":"@ + (match c.command {
        Some(cmd) => command_json(cmd),
        None => "null"@,
    }) + ",\"local_dir_mounts\":"@ + (match c.local_dir_mounts {
        Some(v) => "["@ + mounts_items(v@) + "]"@,
        None => "null"@,
    }) + ",\"name\":"@ + json_string(c.name@) + "}"@
}

/// The digest of the build-relevant fields.
pub open spec fn build_hash(c: WorkerConfig) -> Seq<char> {
    text_digest(build_fields_json(c))
}

fn write_input_default(out: &mut String, p: &InputParameter)
    ensures
        final(out)@ == old(out)@ + input_default(*p),
{
    match &p.default_json {
        Some(d) => {
            out.append("\"default\":");
            out.append(d.as_str());
            out.append(",");
        },
        None => {},
    }
    assert(out@ =~= old(out)@ + input_default(*p));
}

fn write_input_enum(out: &mut String, p: &InputParameter)
    ensures
        final(out)@ == old(out)@ + input_enum(*p),
{
    match &p.enum_values {
        Some(v) => {
            out.append(",\"enum_values\":");
            write_string_array(out, v);
        },
        None => {},
    }
    assert(out@ =~= old(out)@ + input_enum(*p));
}

fn write_input_readonly(out: &mut String, p: &InputParameter)
    ensures
        final(out)@ == old(out)@ + input_readonly(*p),
{
    match p.readonly {
        Some(b) => {
            out.append(",\"readonly\":");
            write_opt_bool(out, Some(b));
        },
        None => {},
    }
    assert(out@ =~= old(out)@ + input_readonly(*p));
}

fn write_input(out: &mut String, p: &InputParameter)
    ensures
        final(out)@ == old(out)@ + input_json(*p),
{
    out.append("{");
    write_input_default(out, p);
    out.append("\"description\":");
    write_opt_string(out, &p.description);
    write_input_enum(out, p);
    out.append(",\"name\":");
    write_string(out, p.name.as_str());
    write_input_readonly(out, p);
    out.append(",\"required\":");
    write_opt_bool(out, p.required);
    out.append(",\"type\":");
    write_string(out, p.param_type.as_str());
    out.append("}");
}

fn write_command(out: &mut String, c: &CommandConfig)
    ensures
        final(out)@ == old(out)@ + command_json(*c),
{
    out.append("{\"inputs\":");
    match &c.inputs {
        Some(v) => {
            out.append("[");
            let ghost start = out@;
            let mut i: usize = 0;
            while i < v.len()
                invariant
                    i <= v@.len(),
                    out@ == start + inputs_items(v@.subrange(0, i as int)),
                decreases v@.len() - i,
            {
                assert(v@.subrange(0, i + 1).drop_last() =~= v@.subrange(0, i as int));
                if i > 0 {
                    out.append(",");
                }
                write_input(out, &v[i]);
                assert(out@ =~= start + inputs_items(v@.subrange(0, i + 1)));
                i = i + 1;
            }
            assert(v@.subrange(0, v@.len() as int) =~= v@);
            out.append("]");
        },
        None => out.append("null"),
    }
    out.append(",\"program\":");
    write_string(out, c.program.as_str());
    out.append(",\"script\":");
    write_string(out, c.script.as_str());
    out.append("}");
    assert(out@ =~= old(out)@ + command_json(*c));
}

fn write_mounts(out: &mut String, v: &Vec<MountConfig>)
    ensures
        final(out)@ == old(out)@ + "["@ + mounts_items(v@) + "]"@,
{
    out.append("[");
    let ghost start = out@;
    let mut i: usize = 0;
    while i < v.len()
        invariant
            i <= v@.len(),
            start == old(out)@ + "["@,
            out@ == start + mounts_items(v@.subrange(0, i as int)),
        decreases v@.len() - i,
    {
        assert(v@.subrange(0, i + 1).drop_last() =~= v@.subrange(0, i as int));
        let m = &v[i];
        if i > 0 {
            out.append(",");
        }
        out.append("{\"container_path\":");
        write_string(out, m.container_path.as_str());
        out.append(",\"host_path\":");
        write_string(out, m.host_path.as_str());
        out.append(",\"readonly\":");
        write_opt_bool(out, m.readonly);
        out.append("}");
        assert(out@ =~= start + mounts_items(v@.subrange(0, i + 1)));
        i = i + 1;
    }
    assert(v@.subrange(0, v@.len() as int) =~= v@);
    out.append("]");
    assert(out@ =~= old(out)@ + "["@ + mounts_items(v@) + "]"@);
}

impl WorkerConfig {
    /// The canonical JSON text of the build-relevant fields.
    pub fn build_fields_text(&self) -> (r: String)
        ensures
            r@ == build_fields_json(*self),
    {
        let mut out = String::new();
        out.append("{\"command\":");
        match &self.command {
            Some(c) => write_command(&mut out, c),
            None => out.append("null"),
        }
        out.append(",\"local_dir_mounts\":");
        match &self.local_dir_mounts {
            Some(v) => write_mounts(&mut out, v),
            None => out.append("null"),
        }
        out.append(",\"name\":");
        write_string(&mut out, self.name.as_str());
        out.append("}");
        assert(out@ =~= build_fields_json(*self));
        out
    }

    /// SHA-256 of the build-relevant fields: name, command and local mounts.
    pub fn build_relevant_hash(&self) -> (r: String)
        ensures
            r@ == build_hash(*self),
            crate::hashing::is_digest_text(r@),
    {
        let text = self.build_fields_text();
        sha256_string(text.as_str())
    }
    /// The configuration of a new worker: a Python entrypoint with an input
    /// file, an output folder and a format choice, two local mounts, and
    /// both GIS plugins off.
    pub fn template(name: &str) -> (r: WorkerConfig)
        ensures
            r.name@ == name@,
            opt_view(r.version) == Some("1.0"@),
            opt_view(r.description) == Some("A geoengine worker"@),
            r.command matches Some(c) && c.program@ == "python"@ && c.script@ == "main.py"@
                && (c.inputs matches Some(ps) && ps@.len() == 3
                && ps@[0].name@ == "input_file"@ && ps@[0].param_type@ == "file"@ && ps@[0].required == Some(true) && ps@[0].readonly == Some(true)
                && ps@[1].name@ == "output_folder"@ && ps@[1].param_type@ == "folder"@ && ps@[1].required == Some(true) && ps@[1].readonly == Some(false)
                && ps@[2].name@ == "format"@ && ps@[2].param_type@ == "enum"@ && ps@[2].required == Some(false)
                && opt_view(ps@[2].default_json) == Some("\"geotiff\""@)),
            r.local_dir_mounts matches Some(ms) && ms@.len() == 2
                && ms@[0].host_path@ == "./data"@ && ms@[0].container_path@ == "/data"@ && ms@[0].readonly == Some(false)
                && ms@[1].host_path@ == "./output"@ && ms@[1].container_path@ == "/output"@ && ms@[1].readonly == Some(false),
            r.plugins matches Some(p) && p.arcgis == Some(false) && p.qgis == Some(false),
            r.deploy matches Some(d) && d.tenant_id is None,
    {
        let inputs = vec![
            InputParameter {
                name: String::from_str("input_file"),
                param_type: String::from_str("file"),
                required: Some(true),
                default_json: None,
                description: Some(String::from_str("Input file to process")),
                enum_values: None,
                readonly: Some(true),
            },
            InputParameter {
                name: String::from_str("output_folder"),
                param_type: String::from_str("folder"),
                required: Some(true),
                default_json: None,
                description: Some(String::from_str("Output folder for results")),
                enum_values: None,
                readonly: Some(false),
            },
            InputParameter {
                name: String::from_str("format"),
                param_type: String::from_str("enum"),
                required: Some(false),
                default_json: Some(String::from_str("\"geotiff\"")),
                description: Some(String::from_str("Output format")),
                enum_values: Some(vec![String::from_str("geotiff"), String::from_str("png"), String::from_str("jpeg")]),
                readonly: None,
            },
        ];
        let mounts = vec![
            MountConfig {
                host_path: String::from_str("./data"),
                container_path: String::from_str("/data"),
                readonly: Some(false),
            },
            MountConfig {
                host_path: String::from_str("./output"),
                container_path: String::from_str("/output"),
                readonly: Some(false),
            },
        ];
        WorkerConfig {
            name: name.to_string(),
            version: Some(String::from_str("1.0")),
            description: Some(String::from_str("A geoengine worker")),
            command: Some(CommandConfig {
                program: String::from_str("python"),
                script: String::from_str("main.py"),
                inputs: Some(inputs),
            }),
            local_dir_mounts: Some(mounts),
            plugins: Some(PluginsConfig { arcgis: Some(false), qgis: Some(false) }),
            deploy: Some(DeployConfig { tenant_id: None }),
        }
    }
}

/// Fields that do not shape the image (version, description, plugins,
/// deployment) never change the build digest: two configurations that agree
/// on name, command and mounts hash alike.
pub proof fn lemma_build_hash_ignores_other_fields(a: WorkerConfig, b: WorkerConfig)
    requires
        a.name == b.name,
        a.command == b.command,
        a.local_dir_mounts == b.local_dir_mounts,
    ensures
        build_hash(a) == build_hash(b),
{
}

} // verus!
