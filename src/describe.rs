//! What `describe` and `workers` show of a worker's applied configuration.
use vstd::prelude::*;

use crate::state::clone_opt;
use crate::text::same_text;
use crate::worker_config::{InputParameter, WorkerConfig};

verus! {

/// An input as described to users and GIS plugins.
#[derive(Debug)]
pub struct InputDescription {
    pub name: String,
    pub param_type: String,
    /// Inputs are required unless declared otherwise.
    pub required: bool,
    pub default_json: Option<String>,
    pub description: Option<String>,
}

#[derive(Debug)]
pub struct WorkerDescription {
    pub name: String,
    pub description: Option<String>,
    pub version: Option<String>,
    pub version_built: Option<String>,
    pub inputs: Vec<InputDescription>,
}

pub open spec fn describes(d: InputDescription, p: InputParameter) -> bool {
    &&& d.name@ == p.name@
    &&& d.param_type@ == p.param_type@
    &&& d.required == (p.required != Some(false))
    &&& d.default_json == p.default_json
    &&& d.description == p.description
}

pub open spec fn declared_inputs(c: WorkerConfig) -> Seq<InputParameter> {
    match c.command {
        Some(cmd) => match cmd.inputs {
            Some(v) => v@,
            None => Seq::empty(),
        },
        None => Seq::empty(),
    }
}

fn describe_input(p: &InputParameter) -> (r: InputDescription)
    ensures
        describes(r, *p),
{
    InputDescription {
        name: p.name.clone(),
        param_type: p.param_type.clone(),
        required: match p.required {
            Some(b) => b,
            None => true,
        },
        default_json: clone_opt(&p.default_json),
        description: clone_opt(&p.description),
    }
}

/// The description of a worker from its applied configuration and the
/// latest version built for it.
pub fn describe(config: &WorkerConfig, version_built: Option<String>) -> (r: WorkerDescription)
    ensures
        r.name@ == config.name@,
        r.description == config.description,
        r.version == config.version,
        r.version_built == version_built,
        r.inputs@.len() == declared_inputs(*config).len(),
        forall|i: int| 0 <= i < r.inputs@.len() ==> describes(#[trigger] r.inputs@[i], declared_inputs(*config)[i]),
{
    let mut inputs: Vec<InputDescription> = Vec::new();
    match &config.command {
        Some(cmd) => match &cmd.inputs {
            Some(ps) => {
                let mut i: usize = 0;
                while i < ps.len()
                    invariant
                        i <= ps@.len(),
                        declared_inputs(*config) == ps@,
                        inputs@.len() == i,
                        forall|k: int| 0 <= k < i ==> describes(#[trigger] inputs@[k], ps@[k]),
                    decreases ps@.len() - i,
                {
                    inputs.push(describe_input(&ps[i]));
                    i = i + 1;
                }
            },
            None => {},
        },
        None => {},
    }
    WorkerDescription {
        name: config.name.clone(),
        description: clone_opt(&config.description),
        version: clone_opt(&config.version),
        version_built,
        inputs,
    }
}

/// Which GIS application a worker listing is restricted to.
#[derive(Clone, Copy, Debug, PartialEq, Eq, Structural)]
pub enum GisFilter {
    Any,
    ArcGis,
    Qgis,
}

/// Reads the `--gis` option of a listing.
pub fn parse_gis_filter(gis: Option<&str>) -> (r: Result<GisFilter, String>)
    ensures
        match gis {
            None => r == Ok::<GisFilter, String>(GisFilter::Any),
            Some(g) => if g@ == "arcgis"@ {
                r == Ok::<GisFilter, String>(GisFilter::ArcGis)
            } else if g@ == "qgis"@ {
                r == Ok::<GisFilter, String>(GisFilter::Qgis)
            } else {
                r matches Err(m) && m@ == "Invalid --gis listed: '"@ + g@ + "'"@
            },
        },
{
    match gis {
        None => Ok(GisFilter::Any),
        Some(g) => {
            proof {
                reveal_strlit("arcgis");
                reveal_strlit("qgis");
            }
            if same_text(g, "arcgis") {
                Ok(GisFilter::ArcGis)
            } else if same_text(g, "qgis") {
                Ok(GisFilter::Qgis)
            } else {
                Err(String::from_str("Invalid --gis listed: '").concat(g).concat("'"))
            }
        },
    }
}

pub open spec fn plugin_on(config: WorkerConfig, filter: GisFilter) -> bool {
    match config.plugins {
        Some(p) => if filter == GisFilter::ArcGis { p.arcgis == Some(true) } else { p.qgis == Some(true) },
        None => false,
    }
}

/// Whether a listing restricted by `filter` shows a worker, given its
/// applied configuration (`None` where it has none): with a filter, only
/// workers registered with that application are shown.
pub fn shown_in_listing(filter: GisFilter, config: Option<&WorkerConfig>) -> (r: bool)
    ensures
        r == (filter == GisFilter::Any || (config matches Some(c) && plugin_on(*c, filter))),
{
    match filter {
        GisFilter::Any => true,
        _ => match config {
            None => false,
            Some(c) => match &c.plugins {
                None => false,
                Some(p) => {
                    let flag = if filter == GisFilter::ArcGis { p.arcgis } else { p.qgis };
                    match flag {
                        Some(b) => b,
                        None => false,
                    }
                },
            },
        },
    }
}

} // verus!
